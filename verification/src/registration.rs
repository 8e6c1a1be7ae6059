//! The registration of an inference server: what its configuration must hold,
//! which routers it is registered with, and what they are told.

use vstd::prelude::*;

use crate::keyed::{OrderedKey, SortedMap, SortedSet};
use crate::model_stats::{InferenceServerModelRegistration, InferenceServerStatus, RegistrationView};
use crate::text::{chars_of, join_texts, same_text, starts_with_text, text_of, text_rank, trim, Rank};
use crate::tunnel_endpoint::{derive_sni, ReverseQuicTunnelConfig};
use crate::tunnel_forward::TunnelForwardingConfig;

verus! {

/// The text without the slashes at its end.
pub open spec fn unslashed(text: Seq<char>) -> Seq<char>
    decreases text.len(),
{
    if text.len() > 0 && text.last() == '/' {
        unslashed(text.drop_last())
    } else {
        text
    }
}

fn trim_slashes(text: &str) -> (trimmed: String)
    ensures
        trimmed@ == unslashed(text@),
{
    let mut chars = chars_of(text);
    while chars.len() > 0 && chars[chars.len() - 1] == '/'
        invariant
            unslashed(chars@) == unslashed(text@),
        decreases chars.len(),
    {
        let ghost before = chars@;
        let _ = chars.pop();
        assert(chars@ =~= before.drop_last());
    }
    text_of(chars.as_slice())
}

/// The base URL of an HTTP server, without slashes at its end.
pub open spec fn http_base_url(url: Seq<char>) -> Option<Seq<char>> {
    let base = unslashed(url);
    if crate::text::occurs_at(base, "http://"@, 0) || crate::text::occurs_at(base, "https://"@, 0) {
        Some(base)
    } else {
        None
    }
}

/// The upstream that a registered URL stands for, where it is an HTTP URL.
pub fn infer_upstream_http_base_url(url: &str) -> (base: Option<String>)
    ensures
        crate::tunnel_request::same_optional_text(base, http_base_url(url@)),
{
    let base = trim_slashes(url);
    if starts_with_text(base.as_str(), "http://") || starts_with_text(base.as_str(), "https://") {
        Some(base)
    } else {
        None
    }
}

/// How a tunnel speaks.
#[derive(Clone, Copy, Debug, PartialEq, Eq, Structural)]
pub enum TunnelTransportProtocol {
    RawQuic,
    Http3,
    WebTransport,
}

/// What an inference server is to be registered with.
#[derive(Debug)]
pub struct InferenceServerRegistrationConfig {
    pub seeds: Vec<String>,
    pub inference_server_id: String,
    pub cluster_id: String,
    pub inference_server_url: String,
    pub forwarding: TunnelForwardingConfig,
    /// In nanoseconds.
    pub min_update_interval: u64,
    pub reverse_tunnel: bool,
    pub tls_cert_pem: Option<Vec<u8>>,
    pub quic_insecure: bool,
    pub tunnel_protocol: TunnelTransportProtocol,
}

/// A registration that can be made.
#[derive(Debug)]
pub struct RegistrationSessionConfig {
    pub watch_seeds: Vec<String>,
    pub inference_server_id: String,
    pub cluster_id: String,
    pub inference_server_url: String,
    pub forwarding: TunnelForwardingConfig,
    pub min_update_interval: u64,
    pub reverse_tunnel: bool,
    pub tls_cert_pem: Option<Vec<u8>>,
    pub quic_insecure: bool,
    pub tunnel_protocol: TunnelTransportProtocol,
}

/// Why no registration can be made.
#[derive(Clone, Copy, Debug)]
pub enum ClientError {
    Config(&'static str),
}

/// What is wrong with a configuration: the first fault that is found.
pub open spec fn config_fault(config: InferenceServerRegistrationConfig) -> Option<Seq<char>> {
    if config.seeds@.len() == 0 {
        Some("stargate seeds are empty"@)
    } else if config.reverse_tunnel {
        if http_base_url(config.inference_server_url@) is None {
            Some("reverse registration inference_server_url must be http(s)"@)
        } else {
            None
        }
    } else if !crate::text::occurs_at(config.inference_server_url@, "quic://"@, 0) {
        Some("direct registration inference_server_url must be quic://"@)
    } else {
        None
    }
}

impl RegistrationSessionConfig {
    /// Checks a configuration. A server without a cluster is a cluster of its
    /// own; the URL of a reverse registration is the base URL of its upstream.
    pub fn try_from(config: InferenceServerRegistrationConfig) -> (session: Result<Self, ClientError>)
        ensures
            match (session, config_fault(config)) {
                (Ok(session), None) => {
                    &&& session.watch_seeds == config.seeds
                    &&& session.inference_server_id == config.inference_server_id
                    &&& session.cluster_id@ == (if config.cluster_id@.len() == 0 {
                        config.inference_server_id@
                    } else {
                        config.cluster_id@
                    })
                    &&& session.inference_server_url@ == (if config.reverse_tunnel {
                        unslashed(config.inference_server_url@)
                    } else {
                        config.inference_server_url@
                    })
                    &&& session.forwarding == config.forwarding
                    &&& session.min_update_interval == config.min_update_interval
                    &&& session.reverse_tunnel == config.reverse_tunnel
                    &&& session.tls_cert_pem == config.tls_cert_pem
                    &&& session.quic_insecure == config.quic_insecure
                    &&& session.tunnel_protocol == config.tunnel_protocol
                },
                (Err(ClientError::Config(message)), Some(fault)) => message@ == fault,
                _ => false,
            },
    {
        if config.seeds.len() == 0 {
            return Err(ClientError::Config("stargate seeds are empty"));
        }
        let inference_server_url = if config.reverse_tunnel {
            match infer_upstream_http_base_url(config.inference_server_url.as_str()) {
                Some(url) => url,
                None => {
                    return Err(
                        ClientError::Config("reverse registration inference_server_url must be http(s)"),
                    );
                },
            }
        } else {
            if !starts_with_text(config.inference_server_url.as_str(), "quic://") {
                return Err(ClientError::Config("direct registration inference_server_url must be quic://"));
            }
            config.inference_server_url.clone()
        };
        proof {
            reveal_strlit("");
            assert(config.cluster_id@.len() == 0 ==> config.cluster_id@ =~= ""@);
        }
        let cluster_id = if same_text(config.cluster_id.as_str(), "") {
            config.inference_server_id.clone()
        } else {
            config.cluster_id
        };
        Ok(
            RegistrationSessionConfig {
                watch_seeds: config.seeds,
                inference_server_id: config.inference_server_id,
                cluster_id,
                inference_server_url,
                forwarding: config.forwarding,
                min_update_interval: config.min_update_interval,
                reverse_tunnel: config.reverse_tunnel,
                tls_cert_pem: config.tls_cert_pem,
                quic_insecure: config.quic_insecure,
                tunnel_protocol: config.tunnel_protocol,
            },
        )
    }
}

/// A router: the authority that it answers for, and the address to dial.
#[derive(Debug)]
pub struct StargateGrpcEndpoint {
    authority_addr: String,
    dial_addr: String,
}

#[verifier::ext_equal]
pub struct EndpointId {
    pub authority_addr: Seq<char>,
    pub dial_addr: Seq<char>,
}

impl View for StargateGrpcEndpoint {
    type V = EndpointId;

    closed spec fn view(&self) -> EndpointId {
        EndpointId { authority_addr: self.authority_addr@, dial_addr: self.dial_addr@ }
    }
}

/// The router of an authority and an address to dial, without the white space
/// around them; without an address the authority is dialled.
pub open spec fn endpoint_of(authority_addr: Seq<char>, dial_addr: Seq<char>) -> Option<EndpointId> {
    let authority = crate::text::trimmed(authority_addr);
    let dial = crate::text::trimmed(dial_addr);
    if authority.len() == 0 {
        None
    } else {
        Some(
            EndpointId {
                authority_addr: authority,
                dial_addr: if dial.len() == 0 {
                    authority
                } else {
                    dial
                },
            },
        )
    }
}

pub open spec fn endpoint_view(endpoint: Option<StargateGrpcEndpoint>) -> Option<EndpointId> {
    match endpoint {
        Some(endpoint) => Some(endpoint@),
        None => None,
    }
}

impl StargateGrpcEndpoint {
    pub fn new(authority_addr: &str, dial_addr: &str) -> (endpoint: Option<Self>)
        ensures
            endpoint_view(endpoint) == endpoint_of(authority_addr@, dial_addr@),
    {
        let authority_addr = trim(authority_addr);
        let dial_addr = trim(dial_addr);
        proof {
            reveal_strlit("");
            assert(authority_addr@.len() == 0 ==> authority_addr@ =~= ""@);
            assert(dial_addr@.len() == 0 ==> dial_addr@ =~= ""@);
        }
        if same_text(authority_addr.as_str(), "") {
            return None;
        }
        let dial_addr = if same_text(dial_addr.as_str(), "") {
            authority_addr.clone()
        } else {
            dial_addr
        };
        Some(StargateGrpcEndpoint { authority_addr, dial_addr })
    }

    pub fn authority_addr(&self) -> (authority_addr: &str)
        ensures
            authority_addr@ == self@.authority_addr,
    {
        self.authority_addr.as_str()
    }

    pub fn dial_addr(&self) -> (dial_addr: &str)
        ensures
            dial_addr@ == self@.dial_addr,
    {
        self.dial_addr.as_str()
    }

    /// The router as it is shown: with the address to dial where that is
    /// another.
    pub fn text(&self) -> (text: String)
        ensures
            text@ == (if self@.dial_addr == self@.authority_addr {
                self@.authority_addr
            } else {
                self@.authority_addr + " via "@ + self@.dial_addr
            }),
    {
        if same_text(self.dial_addr.as_str(), self.authority_addr.as_str()) {
            return self.authority_addr.clone();
        }
        let text = join_texts(self.authority_addr.as_str(), " via ");
        join_texts(text.as_str(), self.dial_addr.as_str())
    }
}

impl OrderedKey for StargateGrpcEndpoint {
    open spec fn before(a: EndpointId, b: EndpointId) -> bool {
        ||| crate::text::text_before(a.authority_addr, b.authority_addr)
        ||| a.authority_addr == b.authority_addr && crate::text::text_before(a.dial_addr, b.dial_addr)
    }

    proof fn before_irreflexive(a: EndpointId) {
        crate::text::lemma_text_before_irreflexive(a.authority_addr);
        crate::text::lemma_text_before_irreflexive(a.dial_addr);
    }

    proof fn before_transitive(a: EndpointId, b: EndpointId, c: EndpointId) {
        if crate::text::text_before(a.authority_addr, b.authority_addr) && crate::text::text_before(
            b.authority_addr,
            c.authority_addr,
        ) {
            crate::text::lemma_text_before_transitive(a.authority_addr, b.authority_addr, c.authority_addr);
        }
        if crate::text::text_before(a.dial_addr, b.dial_addr) && crate::text::text_before(b.dial_addr, c.dial_addr) {
            crate::text::lemma_text_before_transitive(a.dial_addr, b.dial_addr, c.dial_addr);
        }
    }

    fn rank(&self, other: &Self) -> (rank: Rank) {
        match text_rank(self.authority_addr.as_str(), other.authority_addr.as_str()) {
            Rank::Before => Rank::Before,
            Rank::After => Rank::After,
            Rank::Same => text_rank(self.dial_addr.as_str(), other.dial_addr.as_str()),
        }
    }

    fn copy_key(&self) -> (key: Self) {
        StargateGrpcEndpoint { authority_addr: self.authority_addr.clone(), dial_addr: self.dial_addr.clone() }
    }
}

/// What a router tells of a router.
#[derive(Debug)]
pub struct StargateInfo {
    pub stargate_id: String,
    pub advertise_addr: String,
    pub http_advertise_addr: String,
    pub grpc_pylon_dial_addr: String,
}

/// What a watched router answers.
#[derive(Debug)]
pub struct WatchStargatesResponse {
    pub stargates: Vec<StargateInfo>,
    pub watch_stargate_urls: Vec<String>,
}

/// What is known through one watched router: the routers to register with, and
/// the URLs to watch besides.
#[derive(Debug)]
pub struct WatchEndpointSnapshot {
    pub registration_routers: SortedMap<String, StargateGrpcEndpoint>,
    pub watch_urls: SortedSet<String>,
}

#[verifier::ext_equal]
pub struct SnapshotView {
    pub routers: Map<Seq<char>, EndpointId>,
    pub watch_urls: Set<Seq<char>>,
}

impl View for WatchEndpointSnapshot {
    type V = SnapshotView;

    open spec fn view(&self) -> SnapshotView {
        SnapshotView { routers: self.registration_routers@, watch_urls: self.watch_urls@ }
    }
}

/// The routers of a list, by their id; one without an authority is left out, of
/// several under one id the last counts.
pub open spec fn routers_of(stargates: Seq<StargateInfo>) -> Map<Seq<char>, EndpointId>
    decreases stargates.len(),
{
    if stargates.len() == 0 {
        Map::empty()
    } else {
        let rest = routers_of(stargates.drop_last());
        let last = stargates.last();
        match endpoint_of(last.advertise_addr@, last.grpc_pylon_dial_addr@) {
            Some(endpoint) => rest.insert(last.stargate_id@, endpoint),
            None => rest,
        }
    }
}

fn collect_texts(texts: &Vec<String>) -> (set: SortedSet<String>)
    ensures
        set@ == crate::keyed::views(texts@).to_set(),
{
    let ghost all = crate::keyed::views(texts@);
    let mut set: SortedSet<String> = SortedSet::new();
    let mut i: usize = 0;
    assert(all.take(0).to_set() =~= Set::<Seq<char>>::empty());
    while i < texts.len()
        invariant
            i <= texts.len(),
            all == crate::keyed::views(texts@),
            set@ == all.take(i as int).to_set(),
        decreases texts.len() - i,
    {
        let ghost before = set@;
        let _ = set.insert(texts[i].clone());
        proof {
            let next = all.take(i + 1);
            assert(next =~= all.take(i as int).push(all[i as int]));
            assert(all[i as int] == texts[i as int]@);
            assert forall|text: Seq<char>| set@.contains(text) == #[trigger] next.to_set().contains(text) by {
                if next.to_set().contains(text) {
                    let j = choose|j: int| 0 <= j < next.len() && next[j] == text;
                    if j < i {
                        assert(all.take(i as int)[j] == text);
                        assert(before.contains(text));
                    }
                }
                if before.contains(text) {
                    let j = choose|j: int| 0 <= j < all.take(i as int).len() && all.take(i as int)[j] == text;
                    assert(next[j] == text);
                }
                assert(next[i as int] == texts[i as int]@);
            }
            assert(set@ =~= next.to_set());
        }
        i += 1;
    }
    assert(all.take(i as int) =~= all);
    set
}

/// Takes in the answer of a watched router.
pub fn watch_endpoint_snapshot_from_response(response: &WatchStargatesResponse) -> (snapshot: WatchEndpointSnapshot)
    ensures
        snapshot@.routers == routers_of(response.stargates@),
        snapshot@.watch_urls == crate::keyed::views(response.watch_stargate_urls@).to_set(),
{
    let mut registration_routers: SortedMap<String, StargateGrpcEndpoint> = SortedMap::new();
    let mut i: usize = 0;
    assert(response.stargates@.take(0) =~= Seq::<StargateInfo>::empty());
    while i < response.stargates.len()
        invariant
            i <= response.stargates.len(),
            registration_routers@ == routers_of(response.stargates@.take(i as int)),
        decreases response.stargates.len() - i,
    {
        proof {
            assert(response.stargates@.take(i + 1).drop_last() =~= response.stargates@.take(i as int));
        }
        let info = &response.stargates[i];
        match StargateGrpcEndpoint::new(info.advertise_addr.as_str(), info.grpc_pylon_dial_addr.as_str()) {
            Some(endpoint) => {
                registration_routers.insert(info.stargate_id.clone(), endpoint);
            },
            None => {},
        }
        i += 1;
    }
    assert(response.stargates@.take(i as int) =~= response.stargates@);
    WatchEndpointSnapshot { registration_routers, watch_urls: collect_texts(&response.watch_stargate_urls) }
}

/// What the watched routers have told, by URL.
pub type Snapshots = Map<Seq<char>, SnapshotView>;

/// The URLs to watch: the seeds, and what any snapshot names.
pub open spec fn desired_urls(seeds: Set<Seq<char>>, snapshots: Snapshots) -> Set<Seq<char>> {
    Set::new(
        |url: Seq<char>|
            {
                ||| seeds.contains(url)
                ||| exists|from: Seq<char>| #[trigger]
                    snapshots.contains_key(from) && snapshots[from].watch_urls.contains(url)
            },
    )
}

/// The routers of all snapshots.
pub open spec fn all_routers(snapshots: Snapshots) -> Set<EndpointId> {
    Set::new(
        |router: EndpointId|
            exists|from: Seq<char>, id: Seq<char>|
                {
                    &&& snapshots.contains_key(from)
                    &&& #[trigger] snapshots[from].routers.contains_key(id)
                    &&& snapshots[from].routers[id] == router
                },
    )
}

/// Which URLs are to be watched.
pub fn desired_watch_urls_from_snapshots(
    seeds: &SortedSet<String>,
    snapshots: &SortedMap<String, WatchEndpointSnapshot>,
) -> (desired: SortedSet<String>)
    ensures
        desired@ == desired_urls(seeds@, snapshots@),
{
    let ghost all = snapshots@;
    let mut desired = seeds.copy();
    let len: usize = snapshots.len();
    let ghost order = snapshots.order();
    let mut i: usize = 0;
    while i < len
        invariant
            i <= len == order.len(),
            order == snapshots.order(),
            all == snapshots@,
            crate::keyed::lists::<String>(order, all.dom()),
            forall|url: Seq<char>| #[trigger]
                desired@.contains(url) <==> seeds@.contains(url) || exists|j: int|
                    0 <= j < i && all[#[trigger] order[j]].watch_urls.contains(url),
        decreases len - i,
    {
        let ghost before = desired@;
        let snapshot = snapshots.value_at(i);
        let urls = snapshot.watch_urls.to_vec();
        let ghost listed = crate::keyed::views(urls@);
        let mut k: usize = 0;
        while k < urls.len()
            invariant
                k <= urls.len(),
                listed == crate::keyed::views(urls@),
                forall|url: Seq<char>| #[trigger]
                    desired@.contains(url) <==> before.contains(url) || exists|j: int|
                        0 <= j < k && #[trigger] listed[j] == url,
            decreases urls.len() - k,
        {
            let ghost inner = desired@;
            let _ = desired.insert(urls[k].clone());
            proof {
                assert(listed[k as int] == urls[k as int]@);
                assert forall|url: Seq<char>| #[trigger]
                    desired@.contains(url) <==> before.contains(url) || exists|j: int|
                        0 <= j < k + 1 && #[trigger] listed[j] == url by {
                    if exists|j: int| 0 <= j < k + 1 && #[trigger] listed[j] == url {
                        let j = choose|j: int| 0 <= j < k + 1 && #[trigger] listed[j] == url;
                        if j < k {
                            assert(inner.contains(url));
                        }
                    }
                }
            }
            k += 1;
        }
        proof {
            assert forall|url: Seq<char>| #[trigger]
                desired@.contains(url) <==> seeds@.contains(url) || exists|j: int|
                    0 <= j < i + 1 && all[#[trigger] order[j]].watch_urls.contains(url) by {
                if desired@.contains(url) && !before.contains(url) {
                    let j = choose|j: int| 0 <= j < listed.len() && #[trigger] listed[j] == url;
                    assert(listed.to_set().contains(listed[j]));
                    assert(all[order[i as int]].watch_urls.contains(url));
                }
                if exists|j: int| 0 <= j < i + 1 && all[#[trigger] order[j]].watch_urls.contains(url) {
                    let j = choose|j: int| 0 <= j < i + 1 && all[#[trigger] order[j]].watch_urls.contains(url);
                    if j < i {
                        assert(before.contains(url));
                    } else {
                        assert(listed.to_set().contains(url));
                        let m = choose|m: int| 0 <= m < listed.len() && listed[m] == url;
                        assert(listed[m] == url);
                    }
                }
            }
        }
        i += 1;
    }
    proof {
        assert forall|url: Seq<char>| #[trigger]
            desired@.contains(url) <==> desired_urls(seeds@, all).contains(url) by {
            if exists|j: int| 0 <= j < len && all[#[trigger] order[j]].watch_urls.contains(url) {
                let j = choose|j: int| 0 <= j < len && all[#[trigger] order[j]].watch_urls.contains(url);
                assert(order.to_set().contains(order[j]));
                assert(all.contains_key(order[j]));
            }
            if exists|from: Seq<char>| #[trigger] all.contains_key(from) && all[from].watch_urls.contains(url) {
                let from = choose|from: Seq<char>| #[trigger]
                    all.contains_key(from) && all[from].watch_urls.contains(url);
                assert(order.to_set().contains(from));
                let j = choose|j: int| 0 <= j < order.len() && order[j] == from;
                assert(all[order[j]].watch_urls.contains(url));
            }
        }
        assert(desired@ =~= desired_urls(seeds@, all));
    }
    desired
}

/// Whether every URL that is to be watched has told something.
pub fn all_desired_watch_urls_have_snapshots(
    desired: &SortedSet<String>,
    snapshots: &SortedMap<String, WatchEndpointSnapshot>,
) -> (all: bool)
    ensures
        all == desired@.subset_of(snapshots@.dom()),
{
    let urls = desired.to_vec();
    let ghost listed = crate::keyed::views(urls@);
    let mut i: usize = 0;
    while i < urls.len()
        invariant
            i <= urls.len(),
            listed == crate::keyed::views(urls@),
            crate::keyed::lists::<String>(listed, desired@),
            forall|j: int| 0 <= j < i ==> snapshots@.contains_key(#[trigger] listed[j]),
        decreases urls.len() - i,
    {
        assert(listed[i as int] == urls[i as int]@);
        if !snapshots.contains_key(&urls[i]) {
            assert(listed.to_set().contains(listed[i as int]));
            return false;
        }
        i += 1;
    }
    proof {
        assert forall|url: Seq<char>| desired@.contains(url) implies snapshots@.dom().contains(url) by {
            assert(listed.to_set().contains(url));
            let j = choose|j: int| 0 <= j < listed.len() && listed[j] == url;
            assert(snapshots@.contains_key(listed[j]));
        }
    }
    true
}

/// The routers to register with.
pub fn active_registration_routers(snapshots: &SortedMap<String, WatchEndpointSnapshot>) -> (routers: SortedSet<
    StargateGrpcEndpoint,
>)
    ensures
        routers@ == all_routers(snapshots@),
{
    let ghost all = snapshots@;
    let mut routers: SortedSet<StargateGrpcEndpoint> = SortedSet::new();
    let len: usize = snapshots.len();
    let ghost order = snapshots.order();
    let mut i: usize = 0;
    while i < len
        invariant
            i <= len == order.len(),
            order == snapshots.order(),
            all == snapshots@,
            crate::keyed::lists::<String>(order, all.dom()),
            forall|router: EndpointId| #[trigger]
                routers@.contains(router) <==> exists|j: int, id: Seq<char>|
                    0 <= j < i && #[trigger] all[order[j]].routers.contains_key(id) && all[order[j]].routers[id]
                        == router,
        decreases len - i,
    {
        let ghost before = routers@;
        let snapshot = snapshots.value_at(i);
        let count: usize = snapshot.registration_routers.len();
        let ghost ids = snapshot.registration_routers.order();
        let ghost here = snapshot.registration_routers@;
        let mut k: usize = 0;
        while k < count
            invariant
                k <= count == ids.len(),
                ids == snapshot.registration_routers.order(),
                here == snapshot.registration_routers@,
                forall|router: EndpointId| #[trigger]
                    routers@.contains(router) <==> before.contains(router) || exists|m: int|
                        0 <= m < k && here[#[trigger] ids[m]] == router,
            decreases count - k,
        {
            let ghost inner = routers@;
            let router = snapshot.registration_routers.value_at(k).copy_key();
            let _ = routers.insert(router);
            proof {
                assert forall|other: EndpointId| #[trigger]
                    routers@.contains(other) <==> before.contains(other) || exists|m: int|
                        0 <= m < k + 1 && here[#[trigger] ids[m]] == other by {
                    if routers@.contains(other) && !inner.contains(other) {
                        assert(here[ids[k as int]] == other);
                    }
                    if exists|m: int| 0 <= m < k + 1 && here[#[trigger] ids[m]] == other {
                        let m = choose|m: int| 0 <= m < k + 1 && here[#[trigger] ids[m]] == other;
                        if m < k {
                            assert(inner.contains(other));
                        }
                    }
                }
            }
            k += 1;
        }
        proof {
            assert(all[order[i as int]].routers == here);
            assert forall|router: EndpointId| #[trigger]
                routers@.contains(router) <==> exists|j: int, id: Seq<char>|
                    0 <= j < i + 1 && #[trigger] all[order[j]].routers.contains_key(id) && all[order[j]].routers[id]
                        == router by {
                if routers@.contains(router) && !before.contains(router) {
                    let m = choose|m: int| 0 <= m < count && here[#[trigger] ids[m]] == router;
                    assert(ids.to_set().contains(ids[m]));
                    assert(all[order[i as int]].routers.contains_key(ids[m]));
                }
                if before.contains(router) {
                    let (j, id) = choose|j: int, id: Seq<char>|
                        0 <= j < i && #[trigger] all[order[j]].routers.contains_key(id)
                            && all[order[j]].routers[id] == router;
                    assert(all[order[j]].routers.contains_key(id));
                }
                if exists|j: int, id: Seq<char>|
                    0 <= j < i + 1 && #[trigger] all[order[j]].routers.contains_key(id) && all[order[j]].routers[id]
                        == router {
                    let (j, id) = choose|j: int, id: Seq<char>|
                        0 <= j < i + 1 && #[trigger] all[order[j]].routers.contains_key(id)
                            && all[order[j]].routers[id] == router;
                    if j < i {
                        assert(before.contains(router));
                    } else {
                        assert(ids.to_set().contains(id));
                        let m = choose|m: int| 0 <= m < ids.len() && ids[m] == id;
                        assert(here[ids[m]] == router);
                    }
                }
            }
        }
        i += 1;
    }
    proof {
        assert forall|router: EndpointId| #[trigger] routers@.contains(router) <==> all_routers(all).contains(router) by {
            if routers@.contains(router) {
                let (j, id) = choose|j: int, id: Seq<char>|
                    0 <= j < len && #[trigger] all[order[j]].routers.contains_key(id) && all[order[j]].routers[id]
                        == router;
                assert(order.to_set().contains(order[j]));
                assert(all[order[j]].routers.contains_key(id));
            }
            if all_routers(all).contains(router) {
                let (from, id) = choose|from: Seq<char>, id: Seq<char>|
                    {
                        &&& all.contains_key(from)
                        &&& #[trigger] all[from].routers.contains_key(id)
                        &&& all[from].routers[id] == router
                    };
                assert(order.to_set().contains(from));
                let j = choose|j: int| 0 <= j < order.len() && order[j] == from;
                assert(all[order[j]].routers.contains_key(id));
            }
        }
        assert(routers@ =~= all_routers(all));
    }
    routers
}

/// What a router is told of a model: one that is only reached through a tunnel
/// is not active before the tunnel stands.
pub open spec fn advertised_status(status: InferenceServerStatus, reverse_tunnel: bool, connected: bool) -> InferenceServerStatus {
    if status is Active && reverse_tunnel && !connected {
        InferenceServerStatus::Inactive
    } else {
        status
    }
}

pub fn router_advertised_status(
    status: InferenceServerStatus,
    reverse_tunnel: bool,
    reverse_tunnel_connected: bool,
) -> (advertised: InferenceServerStatus)
    ensures
        advertised == advertised_status(status, reverse_tunnel, reverse_tunnel_connected),
{
    match status {
        InferenceServerStatus::Active => if reverse_tunnel && !reverse_tunnel_connected {
            InferenceServerStatus::Inactive
        } else {
            status
        },
        _ => status,
    }
}

/// What a router is told of an inference server.
#[derive(Debug)]
pub struct InferenceServerRegistration {
    pub inference_server_id: String,
    pub cluster_id: String,
    pub inference_server_url: String,
    pub models: SortedMap<String, InferenceServerModelRegistration>,
}

/// The models as a router is told of them.
pub open spec fn advertised(
    models: Map<Seq<char>, RegistrationView>,
    reverse_tunnel: bool,
    connected: bool,
) -> Map<Seq<char>, RegistrationView> {
    models.map_values(
        |model: RegistrationView|
            RegistrationView {
                stats: model.stats,
                status: advertised_status(model.status, reverse_tunnel, connected),
            },
    )
}

/// What a router is told. Every model is told of.
pub fn build_inference_server_registration(
    inference_server_id: &str,
    cluster_id: &str,
    inference_server_url: &str,
    models: SortedMap<String, InferenceServerModelRegistration>,
    reverse_tunnel: bool,
    reverse_tunnel_connected: bool,
) -> (registration: InferenceServerRegistration)
    ensures
        registration.inference_server_id@ == inference_server_id@,
        registration.cluster_id@ == cluster_id@,
        registration.inference_server_url@ == inference_server_url@,
        registration.models@ == advertised(models@, reverse_tunnel, reverse_tunnel_connected),
{
    let ghost all = models@;
    let ghost told = advertised(all, reverse_tunnel, reverse_tunnel_connected);
    let mut left = models;
    let ids = left.keys();
    let ghost order = crate::keyed::views(ids@);
    let mut done: SortedMap<String, InferenceServerModelRegistration> = SortedMap::new();
    let mut i: usize = 0;
    proof {
        crate::keyed::lemma_ascending_distinct::<String>(order);
    }
    while i < ids.len()
        invariant
            i <= ids.len(),
            order == crate::keyed::views(ids@),
            order.no_duplicates(),
            order.to_set() == all.dom(),
            told == advertised(all, reverse_tunnel, reverse_tunnel_connected),
            forall|id: Seq<char>| #[trigger]
                done@.contains_key(id) <==> exists|j: int| 0 <= j < i && #[trigger] order[j] == id,
            forall|id: Seq<char>| #[trigger] done@.contains_key(id) ==> done@[id] == told[id],
            forall|j: int| i <= j < order.len() ==> left@.contains_key(#[trigger] order[j]),
            forall|j: int| i <= j < order.len() ==> left@[#[trigger] order[j]] == all[order[j]],
        decreases ids.len() - i,
    {
        let ghost before = done@;
        assert(order[i as int] == ids[i as int]@);
        assert(order.to_set().contains(order[i as int]));
        if let Some(registration) = left.remove(&ids[i]) {
            let status = router_advertised_status(registration.status, reverse_tunnel, reverse_tunnel_connected);
            let next = InferenceServerModelRegistration { stats: registration.stats, status };
            proof {
                assert(next@ =~= told[order[i as int]]);
            }
            done.insert(ids[i].clone(), next);
        }
        proof {
            assert forall|id: Seq<char>| #[trigger]
                done@.contains_key(id) <==> exists|j: int| 0 <= j < i + 1 && #[trigger] order[j] == id by {
                if exists|j: int| 0 <= j < i + 1 && #[trigger] order[j] == id {
                    let j = choose|j: int| 0 <= j < i + 1 && #[trigger] order[j] == id;
                    if j < i {
                        assert(before.contains_key(id));
                    }
                }
            }
        }
        i += 1;
    }
    proof {
        assert forall|id: Seq<char>| #[trigger] done@.contains_key(id) <==> told.contains_key(id) by {
            if all.contains_key(id) {
                assert(order.to_set().contains(id));
                let j = choose|j: int| 0 <= j < order.len() && order[j] == id;
                assert(order[j] == id);
            }
            if exists|j: int| 0 <= j < order.len() && #[trigger] order[j] == id {
                let j = choose|j: int| 0 <= j < order.len() && #[trigger] order[j] == id;
                assert(order.to_set().contains(order[j]));
            }
        }
        assert(done@ =~= told);
    }
    InferenceServerRegistration {
        inference_server_id: inference_server_id.to_string(),
        cluster_id: cluster_id.to_string(),
        inference_server_url: inference_server_url.to_string(),
        models: done,
    }
}

/// What a reverse tunnel needs to know of a router.
#[derive(Debug)]
pub struct ReverseTunnelEndpoint {
    pub routing_target_addr: String,
    pub pylon_dial_addr: String,
    pub sni_override: Option<String>,
}

/// What a router answers to a registration.
#[derive(Debug)]
pub struct InferenceServerAck {
    pub reverse_tunnel_target: String,
    pub reverse_tunnel_pylon_dial_addr: String,
}

/// Where the reverse tunnel to a router leads: through the address to dial, but
/// under the name of the router itself.
pub fn reverse_tunnel_endpoint_from_ack(ack: &InferenceServerAck) -> (endpoint: Option<ReverseTunnelEndpoint>)
    ensures
        ({
            let target = crate::text::trimmed(ack.reverse_tunnel_target@);
            let dial = crate::text::trimmed(ack.reverse_tunnel_pylon_dial_addr@);
            match endpoint {
                Some(endpoint) => {
                    &&& target.len() > 0
                    &&& endpoint.routing_target_addr@ == target
                    &&& endpoint.pylon_dial_addr@ == (if dial.len() == 0 {
                        target
                    } else {
                        dial
                    })
                    &&& endpoint.sni_override matches Some(sni) && sni@ == crate::tunnel_endpoint::sni_of(target)
                },
                None => target.len() == 0,
            }
        }),
{
    let target = trim(ack.reverse_tunnel_target.as_str());
    let dial = trim(ack.reverse_tunnel_pylon_dial_addr.as_str());
    proof {
        reveal_strlit("");
        assert(target@.len() == 0 ==> target@ =~= ""@);
        assert(dial@.len() == 0 ==> dial@ =~= ""@);
    }
    if same_text(target.as_str(), "") {
        return None;
    }
    let sni_override = Some(derive_sni(target.as_str()));
    let pylon_dial_addr = if same_text(dial.as_str(), "") {
        target.clone()
    } else {
        dial
    };
    Some(ReverseTunnelEndpoint { routing_target_addr: target, pylon_dial_addr, sni_override })
}

/// The tunnel that a registration dials.
pub fn reverse_quic_tunnel_config(endpoint: ReverseTunnelEndpoint, session: RegistrationSessionConfig) -> (config:
    ReverseQuicTunnelConfig)
    ensures
        config.target_addr == endpoint.pylon_dial_addr,
        config.sni_override == endpoint.sni_override,
        config.inference_server_id == session.inference_server_id,
        config.upstream_http_base_url == session.inference_server_url,
        config.forwarding == session.forwarding,
{
    ReverseQuicTunnelConfig {
        target_addr: endpoint.pylon_dial_addr,
        inference_server_id: session.inference_server_id,
        upstream_http_base_url: session.inference_server_url,
        sni_override: endpoint.sni_override,
        forwarding: session.forwarding,
    }
}

/// A seed is always watched, and hearing from one more router never drops a URL
/// or a router that was known.
pub proof fn law_discovery_only_grows(seeds: Set<Seq<char>>, snapshots: Snapshots, url: Seq<char>, snapshot: SnapshotView)
    requires
        !snapshots.contains_key(url),
    ensures
        seeds.subset_of(desired_urls(seeds, snapshots)),
        desired_urls(seeds, snapshots).subset_of(desired_urls(seeds, snapshots.insert(url, snapshot))),
        all_routers(snapshots).subset_of(all_routers(snapshots.insert(url, snapshot))),
{
    let more = snapshots.insert(url, snapshot);
    assert forall|known: Seq<char>| desired_urls(seeds, snapshots).contains(known) implies desired_urls(
        seeds,
        more,
    ).contains(known) by {
        if !seeds.contains(known) {
            let from = choose|from: Seq<char>| #[trigger]
                snapshots.contains_key(from) && snapshots[from].watch_urls.contains(known);
            assert(more.contains_key(from) && more[from].watch_urls.contains(known));
        }
    }
    assert forall|router: EndpointId| all_routers(snapshots).contains(router) implies all_routers(more).contains(
        router,
    ) by {
        let (from, id) = choose|from: Seq<char>, id: Seq<char>|
            {
                &&& snapshots.contains_key(from)
                &&& #[trigger] snapshots[from].routers.contains_key(id)
                &&& snapshots[from].routers[id] == router
            };
        assert(more[from] == snapshots[from]);
        assert(more[from].routers.contains_key(id));
    }
}

/// The connection of a reverse tunnel changes nothing but the status of active
/// models, and with the tunnel connected all is told as it is.
pub proof fn law_connectivity_only_gates_active_models(
    models: Map<Seq<char>, RegistrationView>,
    reverse_tunnel: bool,
    connected: bool,
    id: Seq<char>,
)
    requires
        models.contains_key(id),
    ensures
        advertised(models, reverse_tunnel, connected).dom() == models.dom(),
        advertised(models, reverse_tunnel, connected)[id].stats == models[id].stats,
        !(models[id].status is Active) ==> advertised(models, reverse_tunnel, connected)[id] == models[id],
        advertised(models, reverse_tunnel, true)[id] == models[id],
        advertised(models, false, connected)[id] == models[id],
{
    assert(advertised(models, reverse_tunnel, connected).dom() =~= models.dom());
}

} // verus!
