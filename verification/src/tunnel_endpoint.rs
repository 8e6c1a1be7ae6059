//! Where tunnels lead: the names, addresses and configuration of their ends.

use vstd::prelude::*;

use crate::text::{
    chars_of, join_texts, parse_decimal, rsplit_once, same_text, split_once, starts_with_text, strip_text_prefix,
};
use crate::tunnel_forward::{TunnelForwardingConfig, TunnelServerApp};

verus! {

/// The server name that is asked for where the target has none.
pub const DEFAULT_SNI: &'static str = "stargate";

/// One of the four numbers of an IPv4 address.
pub open spec fn octet(text: Seq<char>) -> bool {
    &&& 1 <= text.len() <= 3
    &&& text.len() > 1 ==> text[0] != '0'
    &&& text[0] != '+'
    &&& crate::text::decimal_at_most(text, 255) is Some
}

/// So many numbers with dots between them.
pub open spec fn dotted(text: Seq<char>, count: nat) -> bool
    decreases count,
{
    if count <= 1 {
        octet(text)
    } else {
        match crate::text::split_first(text, '.') {
            Some((head, tail)) => octet(head) && dotted(tail, (count - 1) as nat),
            None => false,
        }
    }
}

fn is_octet(text: &str) -> (is: bool)
    ensures
        is == octet(text@),
{
    let chars = chars_of(text);
    if chars.len() < 1 || chars.len() > 3 {
        return false;
    }
    if chars[0] == '+' || chars.len() > 1 && chars[0] == '0' {
        return false;
    }
    parse_decimal(text, 255).is_some()
}

fn is_dotted(text: &str, count: u8) -> (is: bool)
    ensures
        is == dotted(text@, count as nat),
    decreases count,
{
    if count <= 1 {
        return is_octet(text);
    }
    match split_once(text, '.') {
        Some((head, tail)) => is_octet(head.as_str()) && is_dotted(tail.as_str(), count - 1),
        None => false,
    }
}

/// The host of a target: what stands in brackets, else what stands before the
/// last colon, else everything.
pub open spec fn host_of(target: Seq<char>) -> Seq<char> {
    if crate::text::occurs_at(target, "["@, 0) {
        crate::text::before_first(target.skip(1), ']')
    } else {
        match crate::text::split_last(target, ':') {
            Some((host, _)) => host,
            None => target,
        }
    }
}

/// A host that no certificate is issued for: an address, or this machine.
pub open spec fn nameless(host: Seq<char>) -> bool {
    ||| host.len() == 0
    ||| host == "localhost"@
    ||| dotted(host, 4)
    ||| crate::text::split_first(host, ':') is Some
}

fn target_host(target: &str) -> (host: String)
    ensures
        host@ == host_of(target@),
{
    proof {
        reveal_strlit("[");
    }
    match strip_text_prefix(target, "[") {
        Some(rest) => crate::text::text_before_first(rest.as_str(), ']'),
        None => match rsplit_once(target, ':') {
            Some((host, _)) => host,
            None => target.to_string(),
        },
    }
}

fn is_nameless(host: &str) -> (is: bool)
    ensures
        is == nameless(host@),
{
    proof {
        reveal_strlit("");
        assert(host@.len() == 0 ==> host@ =~= ""@);
    }
    same_text(host, "") || same_text(host, "localhost") || is_dotted(host, 4) || split_once(host, ':').is_some()
}

pub open spec fn sni_of(target: Seq<char>) -> Seq<char> {
    if nameless(host_of(target)) {
        DEFAULT_SNI@
    } else {
        host_of(target)
    }
}

/// The server name to ask a target for.
pub fn derive_sni(target: &str) -> (sni: String)
    ensures
        sni@ == sni_of(target@),
{
    let host = target_host(target);
    if is_nameless(host.as_str()) {
        DEFAULT_SNI.to_string()
    } else {
        host
    }
}

pub open spec fn authority_of(target: Seq<char>) -> Seq<char> {
    if crate::text::occurs_at(target, "["@, 0) {
        target
    } else {
        match crate::text::split_last(target, ':') {
            Some((host, port)) => if crate::text::split_first(host, ':') is Some {
                "["@ + host + "]:"@ + port
            } else {
                target
            },
            None => target,
        }
    }
}

/// The authority of a target; an IPv6 address stands in brackets.
pub fn target_authority(target: &str) -> (authority: String)
    ensures
        authority@ == authority_of(target@),
{
    if starts_with_text(target, "[") {
        return target.to_string();
    }
    match rsplit_once(target, ':') {
        Some((host, port)) => if split_once(host.as_str(), ':').is_some() {
            let authority = join_texts("[", host.as_str());
            let authority = join_texts(authority.as_str(), "]:");
            join_texts(authority.as_str(), port.as_str())
        } else {
            target.to_string()
        },
        None => target.to_string(),
    }
}

/// An address that a name was resolved to.
#[derive(Clone, Copy, Debug, PartialEq, Eq, Structural)]
pub enum ResolvedAddress {
    V4 { address: u32, port: u16 },
    V6 { long_address: u128, port: u16, flowinfo: u32, scope_id: u32 },
}

/// What went wrong with a reverse tunnel. What another layer says of its own
/// failure comes as text.
#[derive(Debug)]
pub enum TunnelError {
    Tls { source: String },
    Connect { context: &'static str, source: String },
    Handshake { context: &'static str, source: String },
    ConnectTimeout { timeout_ms: u64 },
    HandshakeRejected { reason: String },
    NoResolvedAddress,
}

impl TunnelError {
    /// What another layer said, where the failure is another layer's.
    pub fn source(&self) -> (source: Option<&String>)
        ensures
            source == (match self {
                TunnelError::Tls { source } => Some(source),
                TunnelError::Connect { source, .. } => Some(source),
                TunnelError::Handshake { source, .. } => Some(source),
                _ => None,
            }),
    {
        match self {
            TunnelError::Tls { source } => Some(source),
            TunnelError::Connect { source, .. } => Some(source),
            TunnelError::Handshake { source, .. } => Some(source),
            _ => None,
        }
    }
}

/// The addresses of one family, in their order.
pub open spec fn of_family(addresses: Seq<ResolvedAddress>, v4: bool) -> Seq<ResolvedAddress>
    decreases addresses.len(),
{
    if addresses.len() == 0 {
        Seq::empty()
    } else {
        let rest = of_family(addresses.drop_last(), v4);
        if (addresses.last() is V4) == v4 {
            rest.push(addresses.last())
        } else {
            rest
        }
    }
}

fn family(addresses: &[ResolvedAddress], v4: bool) -> (chosen: Vec<ResolvedAddress>)
    ensures
        chosen@ == of_family(addresses@, v4),
{
    let mut chosen: Vec<ResolvedAddress> = Vec::new();
    let mut i: usize = 0;
    assert(addresses@.take(0) =~= Seq::<ResolvedAddress>::empty());
    while i < addresses.len()
        invariant
            i <= addresses.len(),
            chosen@ == of_family(addresses@.take(i as int), v4),
        decreases addresses.len() - i,
    {
        proof {
            assert(addresses@.take(i + 1).drop_last() =~= addresses@.take(i as int));
        }
        let is_v4 = match addresses[i] {
            ResolvedAddress::V4 { .. } => true,
            ResolvedAddress::V6 { .. } => false,
        };
        if is_v4 == v4 {
            chosen.push(addresses[i]);
        }
        i += 1;
    }
    assert(addresses@.take(i as int) =~= addresses@);
    chosen
}

/// The addresses to try, all of them: those of IPv4 first.
pub fn reverse_quic_dial_candidates(resolved: &[ResolvedAddress]) -> (candidates: Result<
    Vec<ResolvedAddress>,
    TunnelError,
>)
    ensures
        match candidates {
            Ok(candidates) => {
                &&& resolved@.len() > 0
                &&& candidates@ == of_family(resolved@, true) + of_family(resolved@, false)
            },
            Err(error) => resolved@.len() == 0 && error is NoResolvedAddress,
        },
{
    if resolved.len() == 0 {
        return Err(TunnelError::NoResolvedAddress);
    }
    let mut candidates = family(resolved, true);
    let mut others = family(resolved, false);
    candidates.append(&mut others);
    Ok(candidates)
}

/// No address is lost and none is made up: every one is tried as often as it
/// was resolved.
pub proof fn law_every_address_is_tried(resolved: Seq<ResolvedAddress>)
    ensures
        (of_family(resolved, true) + of_family(resolved, false)).to_multiset() == resolved.to_multiset(),
    decreases resolved.len(),
{
    broadcast use vstd::seq_lib::group_to_multiset_ensures;

    if resolved.len() > 0 {
        let last = resolved.last();
        let rest = resolved.drop_last();
        law_every_address_is_tried(rest);
        let v4 = of_family(rest, true);
        let v6 = of_family(rest, false);
        assert(resolved =~= rest.push(last));
        vstd::seq_lib::lemma_multiset_commutative(v4, v6);
        vstd::seq_lib::lemma_multiset_commutative(of_family(resolved, true), of_family(resolved, false));
        assert((v4 + v6).to_multiset() =~= v4.to_multiset().add(v6.to_multiset()));
        if last is V4 {
            assert(of_family(resolved, true) == v4.push(last));
            assert(of_family(resolved, false) == v6);
        } else {
            assert(of_family(resolved, false) == v6.push(last));
            assert(of_family(resolved, true) == v4);
        }
        assert((of_family(resolved, true) + of_family(resolved, false)).to_multiset() =~= resolved.to_multiset());
    } else {
        assert(of_family(resolved, true) + of_family(resolved, false) =~= resolved);
    }
}

/// A tunnel that listens.
#[derive(Debug)]
pub struct QuicHttpTunnelConfig {
    pub listen_addr: String,
    pub upstream_http_base_url: String,
    pub inference_server_id: Option<String>,
    pub forwarding: TunnelForwardingConfig,
}

impl QuicHttpTunnelConfig {
    pub fn new(listen_addr: String, upstream_http_base_url: String) -> (config: Self)
        ensures
            config.listen_addr == listen_addr,
            config.upstream_http_base_url == upstream_http_base_url,
            config.inference_server_id is None,
            config.forwarding.is_standard(),
    {
        QuicHttpTunnelConfig {
            listen_addr,
            upstream_http_base_url,
            inference_server_id: None,
            forwarding: TunnelForwardingConfig::default(),
        }
    }
}

/// A tunnel that dials out.
#[derive(Debug)]
pub struct ReverseQuicTunnelConfig {
    pub target_addr: String,
    pub inference_server_id: String,
    pub upstream_http_base_url: String,
    pub sni_override: Option<String>,
    pub forwarding: TunnelForwardingConfig,
}

impl ReverseQuicTunnelConfig {
    pub fn new(target_addr: String, inference_server_id: String, upstream_http_base_url: String) -> (config: Self)
        ensures
            config.target_addr == target_addr,
            config.inference_server_id == inference_server_id,
            config.upstream_http_base_url == upstream_http_base_url,
            config.sni_override is None,
            config.forwarding.is_standard(),
    {
        ReverseQuicTunnelConfig {
            target_addr,
            inference_server_id,
            upstream_http_base_url,
            sni_override: None,
            forwarding: TunnelForwardingConfig::default(),
        }
    }
}

/// The server name to ask for: the one that is set, else that of the target.
pub fn reverse_quic_sni(config: &ReverseQuicTunnelConfig) -> (sni: String)
    ensures
        sni@ == (match config.sni_override {
            Some(sni) => sni@,
            None => sni_of(config.target_addr@),
        }),
{
    match &config.sni_override {
        Some(sni) => sni.clone(),
        None => derive_sni(config.target_addr.as_str()),
    }
}

impl TunnelServerApp {
    /// The server of a tunnel that dials out.
    pub fn from_reverse_config(config: ReverseQuicTunnelConfig) -> (app: Self)
        ensures
            app.inference_server_id == config.inference_server_id,
            app.upstream_http_base_url == config.upstream_http_base_url,
            app.max_request_body_bytes == config.forwarding.max_request_body_bytes,
            app.max_sse_buffer_bytes == config.forwarding.max_sse_buffer_bytes,
            app.first_output_timeout == config.forwarding.first_output_timeout,
            app.output_chunk_timeout == config.forwarding.output_chunk_timeout,
            app.request_quality_monitor == config.forwarding.request_quality_monitor,
            app.retry == config.forwarding.retry,
            app.queue_mismatch_retry == config.forwarding.queue_mismatch_retry,
            app.upstream_backend == config.forwarding.upstream_backend,
            app.priority_ceiling == config.forwarding.priority_ceiling,
            app.upstream_health_paths == config.forwarding.upstream_health_paths,
            app.metrics_enabled == config.forwarding.metrics_enabled,
    {
        TunnelServerApp::new(config.inference_server_id, config.upstream_http_base_url, config.forwarding)
    }
}

} // verus!
