//! Which routers are found and what they are dialled and registered with, call
//! by call.

use vstd::prelude::*;

use crate::keyed::{SortedMap, SortedSet};
use crate::registration::{
    active_registration_routers, all_desired_watch_urls_have_snapshots, desired_watch_urls_from_snapshots,
    infer_upstream_http_base_url, reverse_quic_tunnel_config, reverse_tunnel_endpoint_from_ack,
    watch_endpoint_snapshot_from_response, ClientError, InferenceServerAck, InferenceServerRegistrationConfig,
    RegistrationSessionConfig, ReverseTunnelEndpoint, StargateGrpcEndpoint, WatchEndpointSnapshot,
    WatchStargatesResponse,
};
use crate::tunnel_endpoint::{
    derive_sni, reverse_quic_dial_candidates, reverse_quic_sni, target_authority, QuicHttpTunnelConfig,
    ResolvedAddress, ReverseQuicTunnelConfig, TunnelError,
};
use crate::tunnel_forward::TunnelServerApp;

verus! {

/// The base URL of a server is the URL without the slashes at its end, where it
/// is one of HTTP.
pub proof fn law_base_url_loses_only_slashes(url: &str, base: Option<String>, i: int)
    requires
        call_ensures(infer_upstream_http_base_url, (url,), base),
    ensures
        base matches Some(base) ==> {
            &&& base@.len() <= url@.len()
            &&& base@ == url@.take(base@.len() as int)
            &&& base@.len() <= i < url@.len() ==> url@[i] == '/'
            &&& base@.len() > 0 && base@.last() != '/'
            &&& base@.take(7) == "http://"@ || base@.take(8) == "https://"@
        },
        url@.len() > 8 && url@.last() != '/' && (url@.take(7) == "http://"@ || url@.take(8) == "https://"@)
            ==> base is Some && base->0@ == url@,
{
    lemma_unslashed(url@, i);
    reveal_strlit("http://");
    reveal_strlit("https://");
    let base = crate::registration::unslashed(url@);
    if base.len() >= 7 {
        assert(base.subrange(0, 7) =~= base.take(7));
    }
    if base.len() >= 8 {
        assert(base.subrange(0, 8) =~= base.take(8));
    }
    assert("http://"@.len() == 7);
    assert("https://"@.len() == 8);
}

proof fn lemma_unslashed(text: Seq<char>, i: int)
    ensures
        ({
            let base = crate::registration::unslashed(text);
            &&& base.len() <= text.len()
            &&& base == text.take(base.len() as int)
            &&& base.len() <= i < text.len() ==> text[i] == '/'
            &&& base.len() > 0 ==> base.last() != '/'
            &&& text.len() > 0 && text.last() != '/' ==> base == text
        }),
    decreases text.len(),
{
    let base = crate::registration::unslashed(text);
    if text.len() > 0 && text.last() == '/' {
        lemma_unslashed(text.drop_last(), i);
        assert(base =~= text.take(base.len() as int));
    } else {
        assert(text =~= text.take(text.len() as int));
    }
}

/// A registration needs seeds. Through a reverse tunnel the server is an HTTP
/// server, told by its base URL; otherwise it is reached by a quic URL. A server
/// without a cluster is a cluster of its own. All else is taken as configured.
pub proof fn law_registration_is_taken_as_configured(
    config: InferenceServerRegistrationConfig,
    session: Result<RegistrationSessionConfig, ClientError>,
    url: &str,
    base: Option<String>,
)
    requires
        call_ensures(RegistrationSessionConfig::try_from, (config,), session),
        url@ == config.inference_server_url@,
        call_ensures(infer_upstream_http_base_url, (url,), base),
    ensures
        ({
            let quic = url@.len() >= 7 && url@.take(7) == "quic://"@;
            &&& session is Ok <==> config.seeds@.len() > 0 && (if config.reverse_tunnel {
                base is Some
            } else {
                quic
            })
            &&& session matches Err(ClientError::Config(words)) ==> words@ == (if config.seeds@.len() == 0 {
                "stargate seeds are empty"@
            } else if config.reverse_tunnel {
                "reverse registration inference_server_url must be http(s)"@
            } else {
                "direct registration inference_server_url must be quic://"@
            })
            &&& session matches Ok(session) ==> {
                &&& session.watch_seeds == config.seeds
                &&& session.inference_server_id == config.inference_server_id
                &&& config.cluster_id@.len() > 0 ==> session.cluster_id@ == config.cluster_id@
                &&& config.cluster_id@.len() == 0 ==> session.cluster_id@ == config.inference_server_id@
                &&& config.reverse_tunnel ==> session.inference_server_url@ == base->0@
                &&& !config.reverse_tunnel ==> session.inference_server_url@ == url@
                &&& session.forwarding == config.forwarding
                &&& session.min_update_interval == config.min_update_interval
                &&& session.reverse_tunnel == config.reverse_tunnel
                &&& session.tls_cert_pem == config.tls_cert_pem
                &&& session.quic_insecure == config.quic_insecure
                &&& session.tunnel_protocol == config.tunnel_protocol
            }
        }),
{
    reveal_strlit("quic://");
    assert("quic://"@.len() == 7);
    if url@.len() >= 7 {
        assert(url@.subrange(0, 7) =~= url@.take(7));
    }
}

/// A router is known by its authority without the space around it, and dialled
/// there unless another address is given. It is shown with that address where it
/// differs.
pub proof fn law_routers_are_dialled_at_their_address(
    authority: &str,
    dial: &str,
    endpoint: Option<StargateGrpcEndpoint>,
    known: StargateGrpcEndpoint,
    shown: String,
    told_authority: &str,
    told_dial: &str,
)
    requires
        call_ensures(StargateGrpcEndpoint::new, (authority, dial), endpoint),
        endpoint is Some ==> known == endpoint->0,
        call_ensures(StargateGrpcEndpoint::text, (&known,), shown),
        call_ensures(StargateGrpcEndpoint::authority_addr, (&known,), told_authority),
        call_ensures(StargateGrpcEndpoint::dial_addr, (&known,), told_dial),
    ensures
        endpoint is None <==> crate::text::trimmed(authority@).len() == 0,
        endpoint is Some ==> {
            &&& told_authority@ == crate::text::trimmed(authority@)
            &&& crate::text::trimmed(dial@).len() > 0 ==> told_dial@ == crate::text::trimmed(dial@)
            &&& crate::text::trimmed(dial@).len() == 0 ==> told_dial@ == told_authority@
        },
        told_dial@ == told_authority@ ==> shown@ == told_authority@,
        told_dial@ != told_authority@ ==> shown@ == told_authority@ + " via "@ + told_dial@,
{
}

/// Of the routers that a watched one tells, each with an authority is kept under
/// its id, the last told of an id standing; and each URL to watch is kept.
pub proof fn law_told_routers_are_kept(
    response: WatchStargatesResponse,
    snapshot: WatchEndpointSnapshot,
    last: int,
    id: Seq<char>,
    url: int,
)
    requires
        call_ensures(watch_endpoint_snapshot_from_response, (&response,), snapshot),
        0 <= last < response.stargates@.len(),
        crate::text::trimmed(response.stargates@[last].advertise_addr@).len() > 0,
        forall|later: int|
            last < later < response.stargates@.len() ==> (#[trigger] response.stargates@[later]).stargate_id@
                != response.stargates@[last].stargate_id@,
    ensures
        ({
            let told = response.stargates@[last];
            let kept = snapshot.registration_routers@;
            &&& kept.contains_key(told.stargate_id@)
            &&& kept[told.stargate_id@].authority_addr == crate::text::trimmed(told.advertise_addr@)
            &&& crate::text::trimmed(told.grpc_pylon_dial_addr@).len() > 0 ==> kept[told.stargate_id@].dial_addr
                == crate::text::trimmed(told.grpc_pylon_dial_addr@)
            &&& crate::text::trimmed(told.grpc_pylon_dial_addr@).len() == 0 ==> kept[told.stargate_id@].dial_addr
                == crate::text::trimmed(told.advertise_addr@)
            &&& kept.contains_key(id) ==> exists|i: int|
                0 <= i < response.stargates@.len() && (#[trigger] response.stargates@[i]).stargate_id@ == id
            &&& 0 <= url < response.watch_stargate_urls@.len() ==> snapshot.watch_urls@.contains(
                response.watch_stargate_urls@[url]@,
            )
            &&& snapshot.watch_urls@.contains(id) ==> exists|i: int|
                0 <= i < response.watch_stargate_urls@.len() && (#[trigger] response.watch_stargate_urls@[i])@ == id
        }),
{
    lemma_routers_keep_last(response.stargates@, last);
    lemma_routers_are_told(response.stargates@, id);
    let urls = crate::keyed::views(response.watch_stargate_urls@);
    assert(urls.len() == response.watch_stargate_urls@.len());
    if 0 <= url < urls.len() {
        assert(urls[url] == response.watch_stargate_urls@[url]@);
        assert(urls.to_set().contains(urls[url]));
    }
    if urls.to_set().contains(id) {
        let i = choose|i: int| 0 <= i < urls.len() && urls[i] == id;
        assert(response.watch_stargate_urls@[i]@ == id);
    }
}

proof fn lemma_routers_keep_last(stargates: Seq<crate::registration::StargateInfo>, last: int)
    requires
        0 <= last < stargates.len(),
        crate::text::trimmed(stargates[last].advertise_addr@).len() > 0,
        forall|later: int|
            last < later < stargates.len() ==> (#[trigger] stargates[later]).stargate_id@ != stargates[last].stargate_id@,
    ensures
        crate::registration::routers_of(stargates).contains_key(stargates[last].stargate_id@),
        Some(crate::registration::routers_of(stargates)[stargates[last].stargate_id@])
            == crate::registration::endpoint_of(
            stargates[last].advertise_addr@,
            stargates[last].grpc_pylon_dial_addr@,
        ),
    decreases stargates.len(),
{
    if last < stargates.len() - 1 {
        let rest = stargates.drop_last();
        assert forall|later: int| last < later < rest.len() implies (#[trigger] rest[later]).stargate_id@
            != rest[last].stargate_id@ by {
            assert(stargates[later].stargate_id@ != stargates[last].stargate_id@);
        }
        lemma_routers_keep_last(rest, last);
        assert(stargates[stargates.len() - 1].stargate_id@ != stargates[last].stargate_id@);
    }
}

proof fn lemma_routers_are_told(stargates: Seq<crate::registration::StargateInfo>, id: Seq<char>)
    ensures
        crate::registration::routers_of(stargates).contains_key(id) ==> exists|i: int|
            0 <= i < stargates.len() && (#[trigger] stargates[i]).stargate_id@ == id,
    decreases stargates.len(),
{
    if stargates.len() > 0 {
        lemma_routers_are_told(stargates.drop_last(), id);
        if crate::registration::routers_of(stargates).contains_key(id) {
            if stargates.last().stargate_id@ == id {
                assert(stargates[stargates.len() - 1].stargate_id@ == id);
            } else {
                let i = choose|i: int|
                    0 <= i < stargates.drop_last().len() && (#[trigger] stargates.drop_last()[i]).stargate_id@ == id;
                assert(stargates[i].stargate_id@ == id);
            }
        }
    }
}

/// A URL is watched exactly where it is a seed or any watched router names it,
/// and a router is registered with exactly where any watched router tells it.
/// All are heard from once each of the URLs has told something.
pub proof fn law_every_named_url_and_router_is_used(
    seeds: SortedSet<String>,
    snapshots: SortedMap<String, WatchEndpointSnapshot>,
    desired: SortedSet<String>,
    routers: SortedSet<StargateGrpcEndpoint>,
    all: bool,
    url: Seq<char>,
    from: Seq<char>,
    id: Seq<char>,
    router: crate::registration::EndpointId,
)
    requires
        call_ensures(desired_watch_urls_from_snapshots, (&seeds, &snapshots), desired),
        call_ensures(active_registration_routers, (&snapshots,), routers),
        call_ensures(all_desired_watch_urls_have_snapshots, (&desired, &snapshots), all),
    ensures
        seeds@.contains(url) ==> desired@.contains(url),
        snapshots@.contains_key(from) && snapshots@[from].watch_urls.contains(url) ==> desired@.contains(url),
        desired@.contains(url) && !seeds@.contains(url) ==> exists|teller: Seq<char>| #[trigger]
            snapshots@.contains_key(teller) && snapshots@[teller].watch_urls.contains(url),
        snapshots@.contains_key(from) && snapshots@[from].routers.contains_key(id) ==> routers@.contains(
            snapshots@[from].routers[id],
        ),
        routers@.contains(router) ==> exists|teller: Seq<char>, name: Seq<char>| #![auto]
            snapshots@.contains_key(teller) && snapshots@[teller].routers.contains_key(name)
                && snapshots@[teller].routers[name] == router,
        all && desired@.contains(url) ==> snapshots@.contains_key(url),
        !all ==> exists|missing: Seq<char>| #[trigger] desired@.contains(missing) && !snapshots@.contains_key(missing),
{
}

/// The reverse tunnel to a router leads to the address that it tells to dial, or
/// else to the router itself, under the name of the router. Without a router
/// there is no tunnel.
pub proof fn law_reverse_tunnel_leads_to_the_router(
    ack: InferenceServerAck,
    endpoint: Option<ReverseTunnelEndpoint>,
    target: &str,
    sni: String,
    session: RegistrationSessionConfig,
    known: ReverseTunnelEndpoint,
    config: ReverseQuicTunnelConfig,
    asked: String,
    app: TunnelServerApp,
)
    requires
        call_ensures(reverse_tunnel_endpoint_from_ack, (&ack,), endpoint),
        target@ == crate::text::trimmed(ack.reverse_tunnel_target@),
        call_ensures(derive_sni, (target,), sni),
        endpoint is Some ==> known == endpoint->0,
        call_ensures(reverse_quic_tunnel_config, (known, session), config),
        call_ensures(reverse_quic_sni, (&config,), asked),
        call_ensures(TunnelServerApp::from_reverse_config, (config,), app),
    ensures
        endpoint is None <==> target@.len() == 0,
        endpoint matches Some(endpoint) ==> {
            &&& endpoint.routing_target_addr@ == target@
            &&& crate::text::trimmed(ack.reverse_tunnel_pylon_dial_addr@).len() > 0 ==> endpoint.pylon_dial_addr@
                == crate::text::trimmed(ack.reverse_tunnel_pylon_dial_addr@)
            &&& crate::text::trimmed(ack.reverse_tunnel_pylon_dial_addr@).len() == 0 ==> endpoint.pylon_dial_addr@
                == target@
            &&& endpoint.sni_override is Some && endpoint.sni_override->0@ == sni@
            &&& asked@ == sni@
        },
        config.target_addr == known.pylon_dial_addr,
        config.inference_server_id == session.inference_server_id,
        config.upstream_http_base_url == session.inference_server_url,
        config.forwarding == session.forwarding,
        config.sni_override == known.sni_override,
        app.inference_server_id == session.inference_server_id,
        app.upstream_http_base_url == session.inference_server_url,
        app.max_request_body_bytes == session.forwarding.max_request_body_bytes,
        app.max_sse_buffer_bytes == session.forwarding.max_sse_buffer_bytes,
        app.first_output_timeout == session.forwarding.first_output_timeout,
        app.output_chunk_timeout == session.forwarding.output_chunk_timeout,
        app.retry == session.forwarding.retry,
        app.queue_mismatch_retry == session.forwarding.queue_mismatch_retry,
        app.upstream_backend == session.forwarding.upstream_backend,
        app.priority_ceiling == session.forwarding.priority_ceiling,
        app.upstream_health_paths == session.forwarding.upstream_health_paths,
{
}

/// The server name of a target with one colon is what stands before it, where
/// that is a name: no address of numbers and not this machine. In place of
/// anything else stands the common name.
pub proof fn law_server_name_is_the_host(target: &str, sni: String, host: Seq<char>, port: Seq<char>)
    requires
        call_ensures(derive_sni, (target,), sni),
        target@ == host.push(':') + port,
        !host.contains(':'),
        !host.contains('['),
        !port.contains(':'),
    ensures
        host.len() == 0 || host == "localhost"@ ==> sni@ == "stargate"@,
        host.len() > 0 && host != "localhost"@ && (exists|i: int|
            0 <= i < host.len() && !('0' <= #[trigger] host[i] <= '9') && host[i] != '.') ==> sni@ == host,
        sni@ == host || sni@ == "stargate"@,
{
    reveal_strlit("[");
    let text = target@;
    let at = host.len() as int;
    assert(text[at] == ':');
    assert forall|i: int| at < i < text.len() implies text[i] != ':' by {
        assert(text[i] == port[i - at - 1]);
        assert(port.contains(port[i - at - 1]));
    }
    assert(crate::text::last_place(text, ':', at));
    crate::text::lemma_split_last(text, ':', at);
    assert(text.take(at) =~= host);
    assert(!crate::text::occurs_at(text, "["@, 0)) by {
        if crate::text::occurs_at(text, "["@, 0) {
            assert(text.subrange(0, 1)[0] == '[');
            assert(text[0] == '[');
            if host.len() > 0 {
                assert(host[0] == '[');
                assert(host.contains(host[0]));
            }
        }
    }
    assert(crate::text::split_first(host, ':') is None) by {
        if exists|i: int| crate::text::first_place(host, ':', i) {
            let i = choose|i: int| crate::text::first_place(host, ':', i);
            assert(host.contains(host[i]));
        }
    }
    if crate::tunnel_endpoint::dotted(host, 4) {
        lemma_dotted_is_numbers(host, 4);
    }
}

proof fn lemma_dotted_is_numbers(text: Seq<char>, count: nat)
    requires
        crate::tunnel_endpoint::dotted(text, count),
    ensures
        forall|i: int| 0 <= i < text.len() ==> '0' <= #[trigger] text[i] <= '9' || text[i] == '.',
    decreases count,
{
    if count <= 1 {
        lemma_octet_is_number(text);
    } else if exists|at: int| crate::text::first_place(text, '.', at) {
        let at = choose|at: int| crate::text::first_place(text, '.', at);
        crate::text::lemma_split_first(text, '.', at);
        let head = text.take(at);
        let tail = text.skip(at + 1);
        lemma_octet_is_number(head);
        lemma_dotted_is_numbers(tail, (count - 1) as nat);
        assert forall|i: int| 0 <= i < text.len() implies '0' <= #[trigger] text[i] <= '9' || text[i] == '.' by {
            if i < at {
                assert(head[i] == text[i]);
            } else if i > at {
                assert(tail[i - at - 1] == text[i]);
            }
        }
    }
}

proof fn lemma_octet_is_number(text: Seq<char>)
    requires
        crate::tunnel_endpoint::octet(text),
    ensures
        forall|i: int| 0 <= i < text.len() ==> '0' <= #[trigger] text[i] <= '9',
{
    lemma_digits(text);
}

proof fn lemma_digits(digits: Seq<char>)
    requires
        crate::text::digits_value(digits) is Some,
    ensures
        forall|i: int| 0 <= i < digits.len() ==> '0' <= #[trigger] digits[i] <= '9',
    decreases digits.len(),
{
    if digits.len() > 0 {
        lemma_digits(digits.drop_last());
        assert forall|i: int| 0 <= i < digits.len() implies '0' <= #[trigger] digits[i] <= '9' by {
            if i < digits.len() - 1 {
                assert(digits.drop_last()[i] == digits[i]);
            }
        }
    }
}

/// Four numbers from 0 to 255 with dots between them are an address, for which
/// the common name is asked.
pub proof fn law_addresses_ask_for_the_common_name(
    target: &str,
    sni: String,
    a: u8,
    b: u8,
    c: u8,
    d: u8,
)
    requires
        call_ensures(derive_sni, (target,), sni),
        target@ == crate::text::decimal_text(a as nat).push('.') + (crate::text::decimal_text(b as nat).push('.') + (
        crate::text::decimal_text(c as nat).push('.') + crate::text::decimal_text(d as nat))),
    ensures
        sni@ == "stargate"@,
{
    let last = crate::text::decimal_text(d as nat);
    let third = crate::text::decimal_text(c as nat).push('.') + last;
    let second = crate::text::decimal_text(b as nat).push('.') + third;
    lemma_octet(a);
    lemma_octet(b);
    lemma_octet(c);
    lemma_octet(d);
    lemma_dotted_step(c, last, 1);
    lemma_dotted_step(b, third, 2);
    lemma_dotted_step(a, second, 3);
    lemma_dotted_is_numbers(target@, 4);
    reveal_strlit("[");
    assert(target@.len() > 0);
    assert('0' <= target@[0] <= '9' || target@[0] == '.');
    assert(!crate::text::occurs_at(target@, "["@, 0)) by {
        if crate::text::occurs_at(target@, "["@, 0) {
            assert(target@.subrange(0, 1)[0] == '[');
        }
    }
    assert(crate::text::split_last(target@, ':') is None) by {
        if exists|i: int| crate::text::last_place(target@, ':', i) {
            let i = choose|i: int| crate::text::last_place(target@, ':', i);
            assert(target@[i] == ':');
        }
    }
}

proof fn lemma_octet(number: u8)
    ensures
        crate::tunnel_endpoint::octet(crate::text::decimal_text(number as nat)),
        forall|i: int|
            0 <= i < crate::text::decimal_text(number as nat).len() ==> #[trigger] crate::text::decimal_text(
                number as nat,
            )[i] != '.',
{
    crate::text::lemma_decimal_round_trip(number as nat);
    reveal_with_fuel(crate::text::decimal_text, 4);
    let text = crate::text::decimal_text(number as nat);
    assert forall|i: int| 0 <= i < text.len() implies #[trigger] text[i] != '.' by {
        assert('0' <= text[i] <= '9');
    }
    assert('0' <= text[0] <= '9');
}

proof fn lemma_dotted_step(number: u8, tail: Seq<char>, count: nat)
    requires
        crate::tunnel_endpoint::dotted(tail, count),
        1 <= count,
    ensures
        crate::tunnel_endpoint::dotted(crate::text::decimal_text(number as nat).push('.') + tail, count + 1),
{
    lemma_octet(number);
    let head = crate::text::decimal_text(number as nat);
    let text = head.push('.') + tail;
    let at = head.len() as int;
    assert forall|i: int| 0 <= i < at implies text[i] != '.' by {
        assert(text[i] == head[i]);
    }
    assert(crate::text::first_place(text, '.', at));
    crate::text::lemma_split_first(text, '.', at);
    assert(text.take(at) =~= head);
    assert(text.skip(at + 1) =~= tail);
}

proof fn lemma_not_dotted(number: nat, tail: Seq<char>, count: nat)
    requires
        1 <= count,
        number > 255 || !crate::tunnel_endpoint::dotted(tail, count),
    ensures
        !crate::tunnel_endpoint::dotted(crate::text::decimal_text(number).push('.') + tail, count + 1),
{
    crate::text::lemma_decimal_round_trip(number);
    let head = crate::text::decimal_text(number);
    let text = head.push('.') + tail;
    let at = head.len() as int;
    assert forall|i: int| 0 <= i < at implies text[i] != '.' by {
        assert('0' <= head[i] <= '9');
        assert(text[i] == head[i]);
    }
    assert(crate::text::first_place(text, '.', at));
    crate::text::lemma_split_first(text, '.', at);
    assert(text.take(at) =~= head);
    assert(text.skip(at + 1) =~= tail);
}

/// Where one of four numbers is larger they are no address but a name, which is
/// asked for as it stands.
pub proof fn law_larger_numbers_are_a_name(target: &str, sni: String, a: u64, b: u64, c: u64, d: u64)
    requires
        call_ensures(derive_sni, (target,), sni),
        target@ == crate::text::decimal_text(a as nat).push('.') + (crate::text::decimal_text(b as nat).push('.') + (
        crate::text::decimal_text(c as nat).push('.') + crate::text::decimal_text(d as nat))),
        a > 255 || b > 255 || c > 255 || d > 255,
    ensures
        sni@ == target@,
{
    let last = crate::text::decimal_text(d as nat);
    let third = crate::text::decimal_text(c as nat).push('.') + last;
    let second = crate::text::decimal_text(b as nat).push('.') + third;
    crate::text::lemma_decimal_round_trip(a as nat);
    crate::text::lemma_decimal_round_trip(b as nat);
    crate::text::lemma_decimal_round_trip(c as nat);
    crate::text::lemma_decimal_round_trip(d as nat);
    if d > 255 {
        assert(!crate::tunnel_endpoint::dotted(last, 1));
    }
    if c > 255 || d > 255 {
        lemma_not_dotted(c as nat, last, 1);
    }
    if b > 255 || c > 255 || d > 255 {
        lemma_not_dotted(b as nat, third, 2);
    }
    lemma_not_dotted(a as nat, second, 3);
    let text = target@;
    assert forall|i: int| 0 <= i < text.len() implies '0' <= #[trigger] text[i] <= '9' || text[i] == '.' by {
        let first = crate::text::decimal_text(a as nat);
        let one = first.len() as int;
        let middle = crate::text::decimal_text(b as nat);
        let two = one + 1 + middle.len();
        let fore = crate::text::decimal_text(c as nat);
        let three = two + 1 + fore.len();
        if i < one {
            assert(text[i] == first[i]);
        } else if one < i < two {
            assert(text[i] == middle[i - one - 1]);
        } else if two < i < three {
            assert(text[i] == fore[i - two - 1]);
        } else if i > three {
            assert(text[i] == last[i - three - 1]);
        }
    }
    reveal_strlit("[");
    reveal_strlit("localhost");
    assert('0' <= text[0] <= '9' || text[0] == '.');
    assert(!crate::text::occurs_at(text, "["@, 0)) by {
        if crate::text::occurs_at(text, "["@, 0) {
            assert(text.subrange(0, 1)[0] == '[');
        }
    }
    assert(text != "localhost"@);
    assert(crate::text::split_last(text, ':') is None) by {
        if exists|i: int| crate::text::last_place(text, ':', i) {
            let i = choose|i: int| crate::text::last_place(text, ':', i);
            assert(text[i] == ':');
        }
    }
    assert(crate::text::split_first(text, ':') is None) by {
        if exists|i: int| crate::text::first_place(text, ':', i) {
            let i = choose|i: int| crate::text::first_place(text, ':', i);
            assert(text[i] == ':');
        }
    }
}

/// The authority of a target is the target itself but for a bare IPv6 address,
/// which is put in brackets.
pub proof fn law_authority_brackets_long_addresses(target: &str, authority: String, host: Seq<char>, port: Seq<char>)
    requires
        call_ensures(target_authority, (target,), authority),
        !port.contains(':'),
    ensures
        target@ == host.push(':') + port && !host.contains(':') ==> authority@ == target@,
        target@ == host.push(':') + port && host.contains(':') && target@[0] != '[' ==> authority@ == "["@ + host
            + "]:"@ + port,
        target@.len() > 0 && target@[0] == '[' ==> authority@ == target@,
        !target@.contains(':') ==> authority@ == target@,
{
    reveal_strlit("[");
    let text = target@;
    if text.len() > 0 {
        assert(text.subrange(0, 1)[0] == text[0]);
        if text[0] == '[' {
            assert(text.subrange(0, 1) =~= "["@);
            assert(crate::text::occurs_at(text, "["@, 0));
        }
    }
    if text == host.push(':') + port {
        let at = host.len() as int;
        assert(text[at] == ':');
        assert forall|i: int| at < i < text.len() implies text[i] != ':' by {
            assert(text[i] == port[i - at - 1]);
            assert(port.contains(port[i - at - 1]));
        }
        assert(crate::text::last_place(text, ':', at));
        crate::text::lemma_split_last(text, ':', at);
        assert(text.take(at) =~= host);
        assert(text.skip(at + 1) =~= port);
        if host.contains(':') {
            lemma_first_exists(host, ':', host.index_of(':'));
        } else if exists|i: int| crate::text::first_place(host, ':', i) {
            let i = choose|i: int| crate::text::first_place(host, ':', i);
            assert(host.contains(host[i]));
        }
    }
    if !text.contains(':') {
        if exists|i: int| crate::text::last_place(text, ':', i) {
            let i = choose|i: int| crate::text::last_place(text, ':', i);
            assert(text.contains(text[i]));
        }
    }
}

proof fn lemma_first_exists(text: Seq<char>, mark: char, at: int)
    requires
        0 <= at < text.len(),
        text[at] == mark,
    ensures
        exists|first: int| crate::text::first_place(text, mark, first),
    decreases at,
{
    if forall|i: int| 0 <= i < at ==> text[i] != mark {
        assert(crate::text::first_place(text, mark, at));
    } else {
        let earlier = choose|i: int| 0 <= i < at && text[i] == mark;
        lemma_first_exists(text, mark, earlier);
    }
}

/// All addresses of a name are tried, each as often as it was resolved: first
/// those of IPv4, then the others. A name without addresses cannot be dialled.
pub proof fn law_short_addresses_are_tried_first(
    resolved: &[ResolvedAddress],
    candidates: Result<Vec<ResolvedAddress>, TunnelError>,
    i: int,
    j: int,
)
    requires
        call_ensures(reverse_quic_dial_candidates, (resolved,), candidates),
    ensures
        candidates is Ok <==> resolved@.len() > 0,
        candidates is Err ==> candidates->Err_0 is NoResolvedAddress,
        candidates matches Ok(candidates) ==> {
            &&& candidates@.to_multiset() == resolved@.to_multiset()
            &&& 0 <= i < j < candidates@.len() && candidates@[j] is V4 ==> candidates@[i] is V4
        },
{
    crate::tunnel_endpoint::law_every_address_is_tried(resolved@);
    lemma_family(resolved@, true);
    lemma_family(resolved@, false);
}

/// Addresses are tried in the order in which they were resolved: one more stands
/// behind the others of its family.
pub proof fn law_addresses_are_tried_in_their_order(
    resolved: &[ResolvedAddress],
    candidates: Vec<ResolvedAddress>,
    more: &[ResolvedAddress],
    longer: Vec<ResolvedAddress>,
    address: ResolvedAddress,
    short: int,
)
    requires
        call_ensures(reverse_quic_dial_candidates, (resolved,), Ok(candidates)),
        call_ensures(reverse_quic_dial_candidates, (more,), Ok(longer)),
        more@ == resolved@.push(address),
        0 <= short <= candidates@.len(),
        forall|i: int| 0 <= i < candidates@.len() ==> (#[trigger] candidates@[i] is V4 <==> i < short),
    ensures
        address is V6 ==> longer@ == candidates@.push(address),
        address is V4 ==> longer@ == candidates@.take(short).push(address) + candidates@.skip(short),
{
    assert(more@.drop_last() =~= resolved@);
    let first = crate::tunnel_endpoint::of_family(resolved@, true);
    let second = crate::tunnel_endpoint::of_family(resolved@, false);
    lemma_family(resolved@, true);
    lemma_family(resolved@, false);
    assert(first.len() == short) by {
        if first.len() < short {
            assert(candidates@[first.len() as int] == second[0]);
        } else if first.len() > short {
            assert(candidates@[short] == first[short]);
        }
    }
    assert(candidates@.take(short) =~= first);
    assert(candidates@.skip(short) =~= second);
    if address is V4 {
        assert(longer@ =~= first.push(address) + second);
    } else {
        assert(longer@ =~= first + second.push(address));
    }
}

proof fn lemma_family(addresses: Seq<ResolvedAddress>, v4: bool)
    ensures
        forall|i: int|
            0 <= i < crate::tunnel_endpoint::of_family(addresses, v4).len() ==> (
            #[trigger] crate::tunnel_endpoint::of_family(addresses, v4)[i] is V4) == v4,
    decreases addresses.len(),
{
    if addresses.len() > 0 {
        lemma_family(addresses.drop_last(), v4);
    }
}

/// A tunnel is configured with what it is given, and with the standard
/// forwarding.
pub proof fn law_tunnels_are_configured_as_given(
    listen: String,
    upstream: String,
    config: QuicHttpTunnelConfig,
    target: String,
    server: String,
    base: String,
    reverse: ReverseQuicTunnelConfig,
    asked: String,
    name: &str,
    sni: String,
)
    requires
        call_ensures(QuicHttpTunnelConfig::new, (listen, upstream), config),
        call_ensures(ReverseQuicTunnelConfig::new, (target, server, base), reverse),
        call_ensures(reverse_quic_sni, (&reverse,), asked),
        name@ == target@,
        call_ensures(derive_sni, (name,), sni),
    ensures
        config.listen_addr == listen,
        config.upstream_http_base_url == upstream,
        config.inference_server_id is None,
        reverse.target_addr == target,
        reverse.inference_server_id == server,
        reverse.upstream_http_base_url == base,
        reverse.sni_override is None,
        asked@ == sni@,
        config.forwarding.max_request_body_bytes == 67_108_864,
        config.forwarding.max_sse_buffer_bytes == 1_048_576,
        config.forwarding.first_output_timeout == 30_000_000_000,
        config.forwarding.output_chunk_timeout == 30_000_000_000,
        config.forwarding.priority_ceiling == 3600,
        config.forwarding.upstream_backend is Dynamo,
        config.forwarding.queue_mismatch_retry.enabled,
        config.forwarding.queue_mismatch_retry.min_delta_ms == 25,
        config.forwarding.queue_mismatch_retry.tolerance_factor.bits == 0x3FF4_0000_0000_0000,
        config.forwarding.queue_mismatch_retry.retry_after_ms is None,
        config.forwarding.retry.retryable_upstream_status_codes@ == seq![429u16, 503u16],
        config.forwarding.retry.require_upstream_retry_header,
        crate::headers::header_name_text(config.forwarding.retry.upstream_retry_header)
            == "x-stargate-upstream-retryable"@,
        config.forwarding.retry.propagate_retry_after,
        !config.forwarding.retry.local_connect_failures_retryable,
        !config.forwarding.metrics_enabled,
        config.forwarding.upstream_health_paths.candidates() == seq!["/health"@, "/v1/health/ready"@],
        config.forwarding.upstream_health_paths.resolved() is None,
        reverse.forwarding.max_request_body_bytes == 67_108_864,
        reverse.forwarding.max_sse_buffer_bytes == 1_048_576,
        reverse.forwarding.priority_ceiling == 3600,
        reverse.forwarding.retry.retryable_upstream_status_codes@ == seq![429u16, 503u16],
{
    reveal_strlit("/health");
    reveal_strlit("/v1/health/ready");
    assert("/health"@.len() == 7);
    assert("/v1/health/ready"@.len() == 16);
    reveal_with_fuel(crate::upstream_health::configured_paths, 2);
    let none = Seq::<Seq<char>>::empty();
    assert(crate::upstream_health::with_path(none, "/health"@) =~= seq!["/health"@]);
    let one = seq!["/health"@];
    assert(!one.contains("/v1/health/ready"@)) by {
        assert(one[0] != "/v1/health/ready"@);
    }
    assert(crate::upstream_health::candidate_paths(none) =~= seq!["/health"@, "/v1/health/ready"@]);
}

} // verus!
