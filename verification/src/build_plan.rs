//! Which protocol files are compiled, and how.

use vstd::prelude::*;

verus! {

pub const PROTO_SERDE_DERIVE: &'static str = "#[derive(serde::Serialize, serde::Deserialize)]";
pub const STARGATES_FIELD: &'static str = "stargate.WatchStargatesResponse.stargates";
pub const STARGATES_FIELD_ATTRIBUTE: &'static str =
    "#[serde(default, serialize_with = \"crate::pb::serde_stargates_set::serialize\", deserialize_with = \"crate::pb::serde_stargates_set::deserialize\")]";
pub const WATCH_URLS_FIELD: &'static str = "stargate.WatchStargatesResponse.watch_stargate_urls";
pub const WATCH_URLS_FIELD_ATTRIBUTE: &'static str =
    "#[serde(default, serialize_with = \"crate::pb::serde_string_set::serialize\", deserialize_with = \"crate::pb::serde_string_set::deserialize\")]";

/// What is compiled together, and the attributes that the generated types and
/// fields carry.
#[derive(Debug)]
pub struct ProtoCompilePlan {
    pub protos: Vec<&'static str>,
    pub includes: Vec<&'static str>,
    pub build_server: bool,
    pub type_attributes: Vec<(&'static str, &'static str)>,
    pub field_attributes: Vec<(&'static str, &'static str)>,
}

pub open spec fn texts(items: Seq<&'static str>) -> Seq<Seq<char>> {
    items.map_values(|item: &'static str| item@)
}

pub open spec fn text_pairs(items: Seq<(&'static str, &'static str)>) -> Seq<(Seq<char>, Seq<char>)> {
    items.map_values(|item: (&'static str, &'static str)| (item.0@, item.1@))
}

impl ProtoCompilePlan {
    /// The plan compiles one file of the common directory, for client and
    /// server, with these attributes.
    pub open spec fn compiles(
        &self,
        proto: Seq<char>,
        type_attributes: Seq<(Seq<char>, Seq<char>)>,
        field_attributes: Seq<(Seq<char>, Seq<char>)>,
    ) -> bool {
        &&& texts(self.protos@) == seq![proto]
        &&& texts(self.includes@) == seq!["proto"@]
        &&& self.build_server
        &&& text_pairs(self.type_attributes@) == type_attributes
        &&& text_pairs(self.field_attributes@) == field_attributes
    }
}

fn plan(
    proto: &'static str,
    type_attributes: Vec<(&'static str, &'static str)>,
    field_attributes: Vec<(&'static str, &'static str)>,
) -> (plan: ProtoCompilePlan)
    ensures
        plan.compiles(proto@, text_pairs(type_attributes@), text_pairs(field_attributes@)),
{
    let mut protos: Vec<&'static str> = Vec::new();
    protos.push(proto);
    let mut includes: Vec<&'static str> = Vec::new();
    includes.push("proto");
    assert(texts(protos@) =~= seq![proto@]);
    assert(texts(includes@) =~= seq!["proto"@]);
    ProtoCompilePlan { protos, includes, build_server: true, type_attributes, field_attributes }
}

/// The plans, one for each protocol.
pub fn proto_compile_plans() -> (plans: [ProtoCompilePlan; 3])
    ensures
        plans@[0].compiles(
            "proto/stargate.proto"@,
            seq![("."@, PROTO_SERDE_DERIVE@)],
            seq![
                (STARGATES_FIELD@, STARGATES_FIELD_ATTRIBUTE@),
                (WATCH_URLS_FIELD@, WATCH_URLS_FIELD_ATTRIBUTE@),
            ],
        ),
        plans@[1].compiles("proto/llm_gateway.proto"@, Seq::empty(), Seq::empty()),
        plans@[2].compiles("proto/dynamo_frontend_stats.proto"@, Seq::empty(), Seq::empty()),
{
    let mut type_attributes: Vec<(&'static str, &'static str)> = Vec::new();
    type_attributes.push((".", PROTO_SERDE_DERIVE));
    let mut field_attributes: Vec<(&'static str, &'static str)> = Vec::new();
    field_attributes.push((STARGATES_FIELD, STARGATES_FIELD_ATTRIBUTE));
    field_attributes.push((WATCH_URLS_FIELD, WATCH_URLS_FIELD_ATTRIBUTE));
    proof {
        assert(text_pairs(type_attributes@) =~= seq![("."@, PROTO_SERDE_DERIVE@)]);
        assert(text_pairs(field_attributes@) =~= seq![
            (STARGATES_FIELD@, STARGATES_FIELD_ATTRIBUTE@),
            (WATCH_URLS_FIELD@, WATCH_URLS_FIELD_ATTRIBUTE@),
        ]);
        assert(text_pairs(Seq::empty()) =~= Seq::<(Seq<char>, Seq<char>)>::empty());
    }
    let stargate = plan("proto/stargate.proto", type_attributes, field_attributes);
    let gateway = plan("proto/llm_gateway.proto", Vec::new(), Vec::new());
    let stats = plan("proto/dynamo_frontend_stats.proto", Vec::new(), Vec::new());
    [stargate, gateway, stats]
}

} // verus!
