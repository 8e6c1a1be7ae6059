//! The protocol files that are compiled, and what is attached to them.

use pylon::build_plan::{proto_compile_plans, PROTO_SERDE_DERIVE};

#[test]
fn stargate_plan_carries_watch_response_serde_attributes() {
    let [stargate_plan, _, _] = proto_compile_plans();

    assert_eq!(stargate_plan.protos, ["proto/stargate.proto"]);
    assert!(stargate_plan.build_server);
    assert_eq!(stargate_plan.type_attributes, [(".", PROTO_SERDE_DERIVE)]);
    assert_eq!(stargate_plan.field_attributes.len(), 2);
}

#[test]
fn gateway_plan_builds_client_and_server_proto() {
    let [_, gateway_plan, _] = proto_compile_plans();

    assert_eq!(gateway_plan.protos, ["proto/llm_gateway.proto"]);
    assert_eq!(gateway_plan.includes, ["proto"]);
    assert!(gateway_plan.build_server);
    assert!(gateway_plan.type_attributes.is_empty());
    assert!(gateway_plan.field_attributes.is_empty());
}

#[test]
fn dynamo_frontend_stats_plan_builds_client_and_server_proto() {
    let [_, _, stats_plan] = proto_compile_plans();

    assert_eq!(stats_plan.protos, ["proto/dynamo_frontend_stats.proto"]);
    assert_eq!(stats_plan.includes, ["proto"]);
    assert!(stats_plan.build_server);
}
