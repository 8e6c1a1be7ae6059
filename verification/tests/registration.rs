//! Registering with the routers, and finding them.

use pylon::binary64::Binary64;
use pylon::keyed::{SortedMap, SortedSet};
use pylon::model_stats::{
    gated_model_status, CurrentKvCacheStats, CurrentModelStats, InferenceServerModelRegistration,
    InferenceServerStatus,
};
use pylon::registration::{
    active_registration_routers, all_desired_watch_urls_have_snapshots, build_inference_server_registration,
    desired_watch_urls_from_snapshots, infer_upstream_http_base_url, reverse_quic_tunnel_config,
    reverse_tunnel_endpoint_from_ack, router_advertised_status, watch_endpoint_snapshot_from_response, ClientError,
    InferenceServerAck, InferenceServerRegistration, InferenceServerRegistrationConfig, RegistrationSessionConfig,
    ReverseTunnelEndpoint, StargateGrpcEndpoint, StargateInfo, TunnelTransportProtocol, WatchEndpointSnapshot,
    WatchStargatesResponse,
};
use pylon::runtime_state::PylonRuntimeState;
use pylon::tunnel_forward::{RequestQualityMonitorConfig, TunnelForwardingConfig};

fn rate(value: f64) -> Binary64 {
    Binary64 { bits: value.to_bits() }
}

fn grpc_endpoint(authority_addr: &str) -> StargateGrpcEndpoint {
    StargateGrpcEndpoint::new(authority_addr, authority_addr).expect("test endpoint authority should be non-empty")
}

fn grpc_endpoint_with_dial(authority_addr: &str, dial_addr: &str) -> StargateGrpcEndpoint {
    StargateGrpcEndpoint::new(authority_addr, dial_addr).expect("test endpoint authority should be non-empty")
}

fn addresses(endpoint: &StargateGrpcEndpoint) -> (String, String) {
    (endpoint.authority_addr().to_string(), endpoint.dial_addr().to_string())
}

fn stargate_info(stargate_id: &str, advertise_addr: &str, grpc_pylon_dial_addr: &str) -> StargateInfo {
    StargateInfo {
        stargate_id: stargate_id.to_string(),
        advertise_addr: advertise_addr.to_string(),
        http_advertise_addr: String::new(),
        grpc_pylon_dial_addr: grpc_pylon_dial_addr.to_string(),
    }
}

fn url_set(urls: &[&str]) -> SortedSet<String> {
    let mut set = SortedSet::new();
    for url in urls {
        set.insert((*url).to_string());
    }
    set
}

fn watch_snapshot(routers: &[&str], watch_urls: &[&str]) -> WatchEndpointSnapshot {
    let mut registration_routers = SortedMap::new();
    for router in routers {
        registration_routers.insert((*router).to_string(), grpc_endpoint(router));
    }
    WatchEndpointSnapshot { registration_routers, watch_urls: url_set(watch_urls) }
}

fn test_registration_config() -> InferenceServerRegistrationConfig {
    InferenceServerRegistrationConfig {
        seeds: vec!["router-a".to_string()],
        inference_server_id: "inst-a".to_string(),
        cluster_id: "cluster-a".to_string(),
        inference_server_url: "quic://127.0.0.1:8443".to_string(),
        forwarding: TunnelForwardingConfig::default(),
        min_update_interval: 2_000_000_000,
        reverse_tunnel: false,
        tls_cert_pem: None,
        quic_insecure: true,
        tunnel_protocol: TunnelTransportProtocol::RawQuic,
    }
}

fn active_model() -> InferenceServerModelRegistration {
    let stats = CurrentModelStats { last_mean_input_tps: rate(30.0), ..CurrentModelStats::default() };
    InferenceServerModelRegistration { stats: Some(stats.advertise()), status: InferenceServerStatus::Active }
}

fn registration_with_active_model(reverse_tunnel: bool, reverse_connected: bool) -> InferenceServerRegistration {
    let mut models = SortedMap::new();
    models.insert("model-a".to_string(), active_model());
    build_inference_server_registration(
        "client-a",
        "cluster-a",
        "quic://127.0.0.1:9000",
        models,
        reverse_tunnel,
        reverse_connected,
    )
}

fn assert_invalid_registration_config(expected: &str, mutate: impl FnOnce(&mut InferenceServerRegistrationConfig)) {
    let mut config = test_registration_config();
    mutate(&mut config);
    assert!(
        matches!(RegistrationSessionConfig::try_from(config), Err(ClientError::Config(message)) if message == expected),
        "expected registration config error: {expected}"
    );
}

#[test]
fn reverse_tunnel_connectivity_only_overrides_router_local_advertisement() {
    assert_eq!(
        router_advertised_status(InferenceServerStatus::Active, true, false),
        InferenceServerStatus::Inactive
    );
    assert_eq!(
        router_advertised_status(InferenceServerStatus::Active, true, true),
        InferenceServerStatus::Active
    );
    assert_eq!(
        router_advertised_status(InferenceServerStatus::Inactive, true, false),
        InferenceServerStatus::Inactive
    );
}

#[test]
fn bringup_gates_active_status_until_model_is_advertising() {
    for (bringup_ready, expected) in
        [(false, InferenceServerStatus::Inactive), (true, InferenceServerStatus::Active)]
    {
        assert_eq!(gated_model_status(InferenceServerStatus::Active, bringup_ready), expected);
    }
}

#[test]
fn registration_payload_keeps_every_runtime_model_and_gates_reverse_connectivity() {
    let update = registration_with_active_model(true, false);

    assert_eq!(update.cluster_id, "cluster-a");
    assert_eq!(update.models.len(), 1);
    assert_eq!(
        update.models.get(&"model-a".to_string()).unwrap().status,
        InferenceServerStatus::Inactive
    );
}

#[test]
fn a_connected_server_advertises_its_models_and_their_stats() {
    let update = registration_with_active_model(true, true);
    let model = update.models.get(&"model-a".to_string()).unwrap();
    assert_eq!(model.status, InferenceServerStatus::Active);
    assert_eq!(model.stats.as_ref().unwrap().last_mean_input_tps, rate(30.0));
    assert_eq!(update.inference_server_id, "client-a");
    assert_eq!(update.inference_server_url, "quic://127.0.0.1:9000");

    let direct = registration_with_active_model(false, false);
    assert_eq!(direct.models.get(&"model-a".to_string()).unwrap().status, InferenceServerStatus::Active);
}

#[test]
fn registration_session_config_normalizes_reverse_url_and_cluster_id() {
    let mut config = test_registration_config();
    config.cluster_id.clear();
    config.inference_server_url = "http://127.0.0.1:8090/".to_string();
    config.reverse_tunnel = true;

    let session = RegistrationSessionConfig::try_from(config).expect("session should build");

    assert_eq!(session.watch_seeds, ["router-a"]);
    assert_eq!(session.cluster_id, "inst-a");
    assert_eq!(session.inference_server_url, "http://127.0.0.1:8090");
}

#[test]
fn registration_session_config_rejects_invalid_public_config() {
    assert_invalid_registration_config("stargate seeds are empty", |config| config.seeds.clear());
    assert_invalid_registration_config(
        "direct registration inference_server_url must be quic://",
        |config| config.inference_server_url = "http://127.0.0.1:8090".to_string(),
    );
    assert_invalid_registration_config(
        "reverse registration inference_server_url must be http(s)",
        |config| {
            config.reverse_tunnel = true;
            config.inference_server_url = "quic://127.0.0.1:8090".to_string();
        },
    );
}

#[test]
fn registration_session_config_accepts_empty_runtime_membership() {
    let runtime_state = PylonRuntimeState::default();

    let session = RegistrationSessionConfig::try_from(test_registration_config())
        .expect("an authoritative empty model snapshot should register");

    assert!(runtime_state.advertised_model_ids().is_empty());
    assert_eq!(session.inference_server_id, "inst-a");
}

#[test]
fn reverse_tunnel_config_uses_registration_upstream_and_preserves_forwarding() {
    let mut config = test_registration_config();
    config.reverse_tunnel = true;
    config.inference_server_url = "http://127.0.0.1:8090/".to_string();
    config.forwarding.metrics_enabled = true;
    let session = RegistrationSessionConfig::try_from(config).expect("session should build");
    let endpoint = ReverseTunnelEndpoint {
        routing_target_addr: "router-a:50072".to_string(),
        pylon_dial_addr: "dial-a:50072".to_string(),
        sni_override: Some("router-a".to_string()),
    };

    let tunnel = reverse_quic_tunnel_config(endpoint, session);

    assert_eq!(tunnel.upstream_http_base_url, "http://127.0.0.1:8090");
    assert!(tunnel.forwarding.metrics_enabled);
    assert_eq!(tunnel.target_addr, "dial-a:50072");
    assert_eq!(tunnel.sni_override.as_deref(), Some("router-a"));
}

#[test]
fn stargate_grpc_endpoint_rejects_empty_authority_and_formats_dial_overrides() {
    assert!(StargateGrpcEndpoint::new(" ", "stargate-grpc-lb:443").is_none());
    assert_eq!(
        grpc_endpoint_with_dial("router-a:50071", "stargate-grpc-lb:443").text(),
        "router-a:50071 via stargate-grpc-lb:443"
    );
}

#[test]
fn watch_response_separates_registration_routers_from_recursive_seeds() {
    let snapshot = watch_endpoint_snapshot_from_response(&WatchStargatesResponse {
        stargates: vec![stargate_info("stargate-0", "stargate-0.region-a:50071", "lb.region-a:443")],
        watch_stargate_urls: vec!["stargate.region-b:50071".to_string()],
    });

    assert_eq!(snapshot.registration_routers.keys(), ["stargate-0"]);
    assert_eq!(
        addresses(snapshot.registration_routers.get(&"stargate-0".to_string()).unwrap()),
        addresses(&grpc_endpoint_with_dial("stargate-0.region-a:50071", "lb.region-a:443"))
    );
    assert_eq!(snapshot.watch_urls.to_vec(), ["stargate.region-b:50071"]);
}

#[test]
fn recursive_discovery_publishes_the_union_after_all_snapshots_arrive() {
    let seeds = url_set(&["stargate.region-a:50071"]);
    let mut snapshots = SortedMap::new();
    snapshots.insert(
        "stargate.region-a:50071".to_string(),
        watch_snapshot(&["stargate-0.region-a:50071"], &["stargate.region-b:50071"]),
    );
    let desired = desired_watch_urls_from_snapshots(&seeds, &snapshots);
    assert!(!all_desired_watch_urls_have_snapshots(&desired, &snapshots));

    snapshots.insert(
        "stargate.region-b:50071".to_string(),
        watch_snapshot(&["stargate-0.region-b:50071"], &[]),
    );
    let desired = desired_watch_urls_from_snapshots(&seeds, &snapshots);

    assert!(all_desired_watch_urls_have_snapshots(&desired, &snapshots));
    let routers: Vec<_> = active_registration_routers(&snapshots).to_vec().iter().map(addresses).collect();
    assert_eq!(
        routers,
        vec![
            addresses(&grpc_endpoint("stargate-0.region-a:50071")),
            addresses(&grpc_endpoint("stargate-0.region-b:50071")),
        ]
    );
}

#[test]
fn a_further_snapshot_only_adds_to_what_is_watched() {
    let seeds = url_set(&["a"]);
    let mut snapshots = SortedMap::new();
    assert_eq!(desired_watch_urls_from_snapshots(&seeds, &snapshots).to_vec(), ["a"]);
    snapshots.insert("a".to_string(), watch_snapshot(&[], &["c", "b"]));
    assert_eq!(desired_watch_urls_from_snapshots(&seeds, &snapshots).to_vec(), ["a", "b", "c"]);
    snapshots.insert("b".to_string(), watch_snapshot(&[], &["d"]));
    assert_eq!(desired_watch_urls_from_snapshots(&seeds, &snapshots).to_vec(), ["a", "b", "c", "d"]);
}

#[test]
fn runtime_snapshot_forwards_bootstrap_and_collected_stats_exactly() {
    let mut runtime_state = PylonRuntimeState::new(InferenceServerStatus::Active, &["model-a".to_string()]);
    let generation = runtime_state.current_generation("model-a").unwrap();
    runtime_state.set_generation_bringup_ready(&generation, true);
    let mut estimates = SortedMap::new();
    estimates.insert(0, 11);
    estimates.insert(2, 7);
    runtime_state.set_model_stats(
        "model-a",
        CurrentModelStats {
            last_mean_input_tps: rate(3.5),
            output_tps: rate(2.5),
            queue_size: 4,
            queued_input_size: 5,
            max_output_tps: rate(6.5),
            kv_cache_capacity_tokens: 7,
            kv_cache_used_tokens: 8,
            kv_cache_free_tokens: 9,
            kv_cache: Some(CurrentKvCacheStats {
                capacity_tokens: 7,
                used_tokens: 3,
                free_tokens: 4,
                source_observed_at_unix_ms: 16,
            }),
            num_running_queries: 10,
            max_engine_concurrency: Some(11),
            total_query_input_size: 12,
            input_processing_queries: 13,
            output_generation_queries: 14,
            stats_observed_at_unix_ms: 15,
            stats_capabilities: vec!["request.output.chunk_usage".to_string()],
            stats_sources: vec!["chunk_usage".to_string()],
            queue_time_estimate_ms_by_priority: Some(estimates),
            ..CurrentModelStats::default()
        },
    );

    let snapshot = runtime_state.advertised_models();
    let model = snapshot.get(&"model-a".to_string()).unwrap();
    assert_eq!(model.status, InferenceServerStatus::Active);
    let stats = model.stats.as_ref().expect("stats should be present");
    assert_eq!(stats.last_mean_input_tps, rate(3.5));
    assert_eq!(stats.output_tps, rate(2.5));
    assert_eq!(stats.kv_cache.as_ref().map(|stats| stats.source_observed_at_unix_ms), Some(16));
    assert_eq!(stats.queue_time_estimate_ms_by_priority.len(), 2);
    assert_eq!(stats.queue_time_estimate_ms_by_priority.get(&0), Some(&11));
    assert_eq!(stats.queue_time_estimate_ms_by_priority.get(&2), Some(&7));
    assert_eq!(stats.max_engine_concurrency, 11);
    assert_eq!(stats.stats_sources, ["chunk_usage"]);
}

#[test]
fn reverse_tunnel_endpoint_uses_dial_address_and_preserves_routing_sni() {
    let endpoint = reverse_tunnel_endpoint_from_ack(&InferenceServerAck {
        reverse_tunnel_target: "stargate-0.stargate-headless:50072".to_string(),
        reverse_tunnel_pylon_dial_addr: "stargate-quic-lb:50072".to_string(),
    })
    .expect("ack should contain reverse tunnel endpoint");

    assert_eq!(endpoint.pylon_dial_addr, "stargate-quic-lb:50072");
    assert_eq!(endpoint.routing_target_addr, "stargate-0.stargate-headless:50072");
    assert_eq!(endpoint.sni_override.as_deref(), Some("stargate-0.stargate-headless"));
}

#[test]
fn registration_session_preserves_request_quality_configuration() {
    let quality = RequestQualityMonitorConfig {
        collect_quality_metrics: true,
        collect_quality_metrics_min_tokens: 7,
        output_tokens_threshold_min: Some(9),
        ..RequestQualityMonitorConfig::default()
    };
    let mut config = test_registration_config();
    config.forwarding.request_quality_monitor = quality;

    let session = RegistrationSessionConfig::try_from(config).expect("session should build");

    assert!(session.forwarding.request_quality_monitor.collect_quality_metrics);
    assert_eq!(session.forwarding.request_quality_monitor.collect_quality_metrics_min_tokens, 7);
}

#[test]
fn infers_only_http_upstream_registration_urls() {
    assert_eq!(
        infer_upstream_http_base_url("http://127.0.0.1:8000/"),
        Some("http://127.0.0.1:8000".to_string())
    );
    assert_eq!(infer_upstream_http_base_url("http://"), None);
    assert_eq!(infer_upstream_http_base_url("quic://127.0.0.1:8000"), None);
}
