//! Which headers pass through the tunnel, and what the pylon adds to them.

use http::{HeaderMap, HeaderName, HeaderValue};
use vstd::prelude::*;

use crate::headers::{
    append_header, bytes_of_text, header_count, header_names, header_text, header_values, insert_header, name_text,
    new_headers, static_name, text_value,
};
use crate::queue_admission::{QueueAdmissionDecision, RETRY_REASON_QUEUE_ESTIMATE_MISMATCH};
use crate::text::{parse_decimal, same_text, to_lower, trim};
use crate::tunnel_backend::{
    apply_priority_headers, bytes_of_decimal, is_platform_metadata_header, is_stripped_engine_header,
    HeaderLimitReached, UpstreamBackend,
};
use crate::tunnel_contract::{
    HEADER_STARGATE_EXPECTED_QUEUE_MS, HEADER_STARGATE_RETRYABLE, HEADER_STARGATE_RETRY_AFTER_MS,
    HEADER_STARGATE_RETRY_REASON, HEADER_STARGATE_UPSTREAM_RETRYABLE,
};

verus! {

pub const RETRY_REASON_UPSTREAM_ADMISSION_REJECTED: &'static str = "upstream_admission_rejected";
pub const RETRY_REASON_LOCAL_CONNECT_FAILURE: &'static str = "local_connect_failure";
pub const RETRY_REASON_MODEL_GENERATION_UNAVAILABLE: &'static str = "model_generation_unavailable";

/// Which upstream answers the router may send elsewhere.
#[derive(Debug)]
pub struct PylonRetryConfig {
    pub retryable_upstream_status_codes: Vec<u16>,
    pub require_upstream_retry_header: bool,
    pub upstream_retry_header: HeaderName,
    pub propagate_retry_after: bool,
    pub local_connect_failures_retryable: bool,
}

impl Default for PylonRetryConfig {
    fn default() -> (config: Self)
        ensures
            config.retryable_upstream_status_codes@ == seq![429u16, 503u16],
            config.require_upstream_retry_header,
            crate::headers::header_name_text(config.upstream_retry_header) == HEADER_STARGATE_UPSTREAM_RETRYABLE@,
            config.propagate_retry_after,
            !config.local_connect_failures_retryable,
    {
        proof {
            crate::tunnel_contract::lemma_header_names();
        }
        let mut codes: Vec<u16> = Vec::new();
        codes.push(429);
        codes.push(503);
        assert(codes@ =~= seq![429u16, 503u16]);
        PylonRetryConfig {
            retryable_upstream_status_codes: codes,
            require_upstream_retry_header: true,
            upstream_retry_header: static_name(HEADER_STARGATE_UPSTREAM_RETRYABLE),
            propagate_retry_after: true,
            local_connect_failures_retryable: false,
        }
    }
}

/// The header is about one connection only.
pub open spec fn hop_by_hop(name: Seq<char>) -> bool {
    ||| name == "connection"@
    ||| name == "keep-alive"@
    ||| name == "proxy-authenticate"@
    ||| name == "proxy-authorization"@
    ||| name == "proxy-connection"@
    ||| name == "te"@
    ||| name == "trailer"@
    ||| name == "trailers"@
    ||| name == "transfer-encoding"@
    ||| name == "upgrade"@
}

pub fn is_hop_by_hop_header(name: &str) -> (hop: bool)
    ensures
        hop == hop_by_hop(crate::text::lower(name@)),
{
    let low = to_lower(name);
    let low = low.as_str();
    same_text(low, "connection") || same_text(low, "keep-alive") || same_text(low, "proxy-authenticate")
        || same_text(low, "proxy-authorization") || same_text(low, "proxy-connection") || same_text(low, "te")
        || same_text(low, "trailer") || same_text(low, "trailers") || same_text(low, "transfer-encoding")
        || same_text(low, "upgrade")
}

/// The header steers the tunnel itself.
pub open spec fn tunnel_control(name: Seq<char>, retry: PylonRetryConfig) -> bool {
    ||| name == crate::headers::header_name_text(retry.upstream_retry_header)
    ||| hop_by_hop(name)
    ||| name == HEADER_STARGATE_UPSTREAM_RETRYABLE@
    ||| name == HEADER_STARGATE_RETRYABLE@
    ||| name == HEADER_STARGATE_RETRY_REASON@
    ||| name == HEADER_STARGATE_RETRY_AFTER_MS@
}

fn is_tunnel_control_header(name: &str, retry: &PylonRetryConfig) -> (control: bool)
    ensures
        control == tunnel_control(crate::text::lower(name@), *retry),
{
    let low = to_lower(name);
    let low = low.as_str();
    let own = name_text(&retry.upstream_retry_header);
    same_text(low, own.as_str()) || is_hop_by_hop_header(name) || same_text(low, HEADER_STARGATE_UPSTREAM_RETRYABLE)
        || same_text(low, HEADER_STARGATE_RETRYABLE) || same_text(low, HEADER_STARGATE_RETRY_REASON)
        || same_text(low, HEADER_STARGATE_RETRY_AFTER_MS)
}

/// The request header is handed on to the upstream.
pub open spec fn forwards(name: Seq<char>, retry: PylonRetryConfig, backend: UpstreamBackend) -> bool {
    &&& !tunnel_control(name, retry)
    &&& !crate::tunnel_backend::engine_header(name)
    &&& !(backend is Dynamo && crate::tunnel_backend::platform_metadata(name))
    &&& name != "host"@
    &&& name != "x-method"@
    &&& name != "x-path"@
    &&& name != HEADER_STARGATE_EXPECTED_QUEUE_MS@
}

/// Whether a request header, in any case, is handed on to the upstream.
pub fn should_forward_header(name: &str, retry: &PylonRetryConfig, upstream_backend: UpstreamBackend) -> (forward: bool)
    ensures
        forward == forwards(crate::text::lower(name@), *retry, upstream_backend),
{
    let low = to_lower(name);
    let low = low.as_str();
    !is_tunnel_control_header(name, retry) && !is_stripped_engine_header(name) && !(upstream_backend
        == UpstreamBackend::Dynamo && is_platform_metadata_header(name)) && !same_text(low, "host") && !same_text(
        low,
        "x-method",
    ) && !same_text(low, "x-path") && !same_text(low, HEADER_STARGATE_EXPECTED_QUEUE_MS)
}

/// The response header is handed back through the tunnel.
pub open spec fn forwards_response(name: Seq<char>, retry: PylonRetryConfig) -> bool {
    &&& !tunnel_control(name, retry)
    &&& name != "content-length"@
}

/// Whether a response header, in any case, is handed back through the tunnel.
pub fn should_forward_response_header(name: &str, retry: &PylonRetryConfig) -> (forward: bool)
    ensures
        forward == forwards_response(crate::text::lower(name@), *retry),
{
    let low = to_lower(name);
    !is_tunnel_control_header(name, retry) && !same_text(low.as_str(), "content-length")
}

/// Whose headers are handed on: a request's to a backend, or a response's.
#[derive(Clone, Copy, Debug, PartialEq, Eq, Structural)]
pub enum HeaderDirection {
    Request(UpstreamBackend),
    Response,
}

/// The header is handed on in this direction.
pub open spec fn passes(name: Seq<char>, retry: PylonRetryConfig, direction: HeaderDirection) -> bool {
    match direction {
        HeaderDirection::Request(backend) => forwards(name, retry, backend),
        HeaderDirection::Response => forwards_response(name, retry),
    }
}

fn is_passed(name: &str, retry: &PylonRetryConfig, direction: HeaderDirection) -> (passed: bool)
    ensures
        passed == passes(crate::text::lower(name@), *retry, direction),
{
    match direction {
        HeaderDirection::Request(backend) => should_forward_header(name, retry, backend),
        HeaderDirection::Response => should_forward_response_header(name, retry),
    }
}

/// `into` with the headers of `from` that are handed on.
pub open spec fn with_passed(
    into: crate::headers::HeaderContents,
    from: crate::headers::HeaderContents,
    retry: PylonRetryConfig,
    direction: HeaderDirection,
) -> crate::headers::HeaderContents {
    Map::new(
        |name: Seq<char>| into.contains_key(name) || from.contains_key(name) && passes(name, retry, direction),
        |name: Seq<char>|
            if into.contains_key(name) {
                into[name]
            } else {
                from[name]
            },
    )
}

/// Adds all values of a name that the map does not hold yet.
fn append_values(headers: &mut HeaderMap<HeaderValue>, name: &HeaderName, values: &Vec<Vec<u8>>) -> (added: bool)
    requires
        !crate::headers::header_contents(*old(headers)).contains_key(crate::headers::header_name_text(*name)),
        crate::headers::header_contents(*old(headers)).dom().finite(),
        values.len() > 0,
        forall|i: int| 0 <= i < values.len() ==> crate::headers::valid_value(#[trigger] values[i]@),
    ensures
        added ==> crate::headers::header_contents(*final(headers)) == crate::headers::header_contents(
            *old(headers),
        ).insert(crate::headers::header_name_text(*name), crate::headers::value_bytes(values@)),
        !added ==> crate::headers::header_contents(*old(headers)).len() >= crate::headers::HEADER_ROOM,
{
    let ghost before = crate::headers::header_contents(*headers);
    let ghost all = crate::headers::value_bytes(values@);
    let mut i: usize = 0;
    while i < values.len()
        invariant
            i <= values.len(),
            !before.contains_key(crate::headers::header_name_text(*name)),
            before.dom().finite(),
            all == crate::headers::value_bytes(values@),
            forall|j: int| 0 <= j < values.len() ==> crate::headers::valid_value(#[trigger] values[j]@),
            crate::headers::header_contents(*headers) == (if i == 0 {
                before
            } else {
                before.insert(crate::headers::header_name_text(*name), all.take(i as int))
            }),
            before == crate::headers::header_contents(*old(headers)),
        decreases values.len() - i,
    {
        let ghost now = crate::headers::header_contents(*headers);
        if !append_header(headers, name, values[i].as_slice()) {
            return false;
        }
        proof {
            assert(all[i as int] == values[i as int]@);
            if i == 0 {
                assert(all.take(1) =~= seq![values[0]@]);
            } else {
                assert(all.take(i + 1) =~= all.take(i as int).push(values[i as int]@));
                assert(now.insert(crate::headers::header_name_text(*name), all.take(i + 1)) =~= before.insert(crate::headers::header_name_text(*name), all.take(i + 1)));
            }
        }
        i += 1;
    }
    assert(all.take(i as int) =~= all);
    true
}

/// Adds the headers of `from` that are handed on to `into`, which holds none
/// of them.
fn pass_headers(
    into: &mut HeaderMap<HeaderValue>,
    from: &HeaderMap<HeaderValue>,
    retry: &PylonRetryConfig,
    direction: HeaderDirection,
) -> (passed: Result<(), HeaderLimitReached>)
    requires
        forall|name: Seq<char>| #[trigger]
            crate::headers::header_contents(*old(into)).contains_key(name) ==> !passes(name, *retry, direction),
    ensures
        match passed {
            Ok(_) => crate::headers::header_contents(*final(into)) == with_passed(
                crate::headers::header_contents(*old(into)),
                crate::headers::header_contents(*from),
                *retry,
                direction,
            ),
            Err(_) => crate::headers::header_contents(*old(into)).len() + crate::headers::header_contents(
                *from,
            ).len() > crate::headers::HEADER_ROOM,
        },
{
    let ghost base = crate::headers::header_contents(*into);
    let ghost source = crate::headers::header_contents(*from);
    let _ = header_count(into);
    let _ = header_count(from);
    let names = header_names(from);
    let ghost order = crate::headers::name_texts(names@);
    let mut i: usize = 0;
    proof {
        order.unique_seq_to_set();
        assert(base =~= passed_so_far(base, source, *retry, direction, order.take(0)));
    }
    while i < names.len()
        invariant
            i <= names.len(),
            order == crate::headers::name_texts(names@),
            order.no_duplicates(),
            order.to_set() == source.dom(),
            order.len() == source.len(),
            source == crate::headers::header_contents(*from),
            base == crate::headers::header_contents(*old(into)),
            base.dom().finite(),
            forall|name: Seq<char>| #[trigger] base.contains_key(name) ==> !passes(name, *retry, direction),
            crate::headers::header_contents(*into) == passed_so_far(
                base,
                source,
                *retry,
                direction,
                order.take(i as int),
            ),
            crate::headers::header_contents(*into).dom().finite(),
            crate::headers::header_contents(*into).len() <= base.len() + i,
        decreases names.len() - i,
    {
        let name = &names[i];
        let text = name_text(name);
        let ghost id = text@;
        let ghost before = crate::headers::header_contents(*into);
        let ghost seen = order.take(i as int);
        let ghost more = order.take(i + 1);
        proof {
            assert(order[i as int] == id);
            assert(order.contains(id));
            assert(order.to_set().contains(id));
            assert(more =~= seen.push(id));
            assert(!seen.contains(id)) by {
                if seen.contains(id) {
                    let j = choose|j: int| 0 <= j < seen.len() && seen[j] == id;
                    assert(order[j] == id);
                }
            }
            assert forall|other: Seq<char>| #[trigger] more.contains(other) <==> seen.contains(other) || other == id by {
                if seen.contains(other) {
                    let j = choose|j: int| 0 <= j < seen.len() && seen[j] == other;
                    assert(more[j] == other);
                }
                if other == id {
                    assert(more[i as int] == other);
                }
                if more.contains(other) && other != id {
                    let j = choose|j: int| 0 <= j < more.len() && more[j] == other;
                    assert(seen[j] == other);
                }
            }
        }
        if is_passed(text.as_str(), retry, direction) {
            let values = header_values(from, name);
            proof {
                assert(!before.contains_key(id));
            }
            if !append_values(into, name, &values) {
                return Err(HeaderLimitReached);
            }
            proof {
                assert(before.insert(id, source[id]) =~= passed_so_far(base, source, *retry, direction, more));
            }
        } else {
            proof {
                assert(before =~= passed_so_far(base, source, *retry, direction, more));
            }
        }
        i += 1;
    }
    proof {
        assert(order.take(i as int) =~= order);
        assert forall|name: Seq<char>| source.contains_key(name) == #[trigger] order.contains(name) by {
            assert(order.to_set().contains(name) == order.contains(name));
        }
        assert(passed_so_far(base, source, *retry, direction, order) =~= with_passed(
            base,
            source,
            *retry,
            direction,
        ));
    }
    Ok(())
}

spec fn passed_so_far(
    into: crate::headers::HeaderContents,
    from: crate::headers::HeaderContents,
    retry: PylonRetryConfig,
    direction: HeaderDirection,
    seen: Seq<Seq<char>>,
) -> crate::headers::HeaderContents {
    Map::new(
        |name: Seq<char>|
            into.contains_key(name) || from.contains_key(name) && passes(name, retry, direction) && seen.contains(
                name,
            ),
        |name: Seq<char>|
            if into.contains_key(name) {
                into[name]
            } else {
                from[name]
            },
    )
}

/// The headers of an upstream request.
pub open spec fn upstream_contents(
    request: crate::headers::HeaderContents,
    retry: PylonRetryConfig,
    backend: UpstreamBackend,
    priority: Option<u32>,
    ceiling: u32,
    health_request: bool,
) -> crate::headers::HeaderContents {
    let passed = with_passed(Map::empty(), request, retry, HeaderDirection::Request(backend));
    if !health_request && backend is Dynamo {
        crate::tunnel_backend::with_priority_headers(passed, priority, ceiling)
    } else {
        passed
    }
}

/// The headers with which a request is sent upstream: those that are handed
/// on, and for an inference request to a Dynamo engine its priority, which
/// comes back too. A map of very many names may be refused.
pub fn upstream_request_headers(
    request_headers: &HeaderMap<HeaderValue>,
    retry: &PylonRetryConfig,
    upstream_backend: UpstreamBackend,
    priority: Option<u32>,
    priority_ceiling: u32,
    health_request: bool,
) -> (upstream: Result<(HeaderMap<HeaderValue>, Option<i32>), HeaderLimitReached>)
    ensures
        match upstream {
            Ok((upstream, emitted)) => {
                &&& crate::headers::header_contents(upstream) == upstream_contents(
                    crate::headers::header_contents(*request_headers),
                    *retry,
                    upstream_backend,
                    priority,
                    priority_ceiling,
                    health_request,
                )
                &&& if !health_request && upstream_backend is Dynamo {
                    emitted matches Some(emitted) && emitted == crate::tunnel_backend::engine_priority(
                        priority,
                        priority_ceiling,
                    )
                } else {
                    emitted is None
                }
            },
            Err(_) => crate::headers::header_contents(*request_headers).len() >= crate::headers::HEADER_ROOM,
        },
{
    let mut upstream = new_headers();
    let ghost request = crate::headers::header_contents(*request_headers);
    let _ = header_count(request_headers);
    proof {
        assert(Map::<Seq<char>, Seq<Seq<u8>>>::empty().len() == 0);
    }
    match pass_headers(&mut upstream, request_headers, retry, HeaderDirection::Request(upstream_backend)) {
        Ok(_) => {},
        Err(error) => {
            return Err(error);
        },
    }
    if !health_request && upstream_backend == UpstreamBackend::Dynamo {
        proof {
            let passed = crate::headers::header_contents(upstream);
            assert(passed.dom().subset_of(request.dom()));
            vstd::set_lib::lemma_len_subset(passed.dom(), request.dom());
        }
        return match apply_priority_headers(priority, priority_ceiling, &mut upstream) {
            Ok(emitted) => Ok((upstream, Some(emitted))),
            Err(error) => Err(error),
        };
    }
    Ok((upstream, None))
}

/// What `httpdate::parse_http_date` makes of a text: the moment that it writes, in
/// seconds since the start of 1970, or none for a text that writes no date.
pub uninterp spec fn http_date_seconds(text: Seq<char>) -> Option<u64>;

/// `httpdate::parse_http_date` reads a date in one of the forms that HTTP knows.
#[verifier::external_body]
fn parse_http_date(text: &str) -> (seconds: Option<u64>)
    ensures
        seconds == http_date_seconds(text@),
{
    let date = httpdate::parse_http_date(text).ok()?;
    date.duration_since(std::time::UNIX_EPOCH).ok().map(|since| since.as_secs())
}

/// The wait in milliseconds that a `Retry-After` value asks for: a number of
/// seconds, or the time left until a date.
pub open spec fn retry_after_ms_of(text: Seq<char>, date: Option<u64>, now_unix_ns: u64) -> Option<u64> {
    match crate::text::decimal_at_most(text, u64::MAX as nat) {
        Some(seconds) => if seconds * 1000 <= u64::MAX {
            Some((seconds * 1000) as u64)
        } else {
            None
        },
        None => match date {
            Some(date) => {
                let left = date * 1_000_000_000 - now_unix_ns;
                let ms = if left < 0 {
                    0
                } else {
                    left / 1_000_000
                };
                if ms <= u64::MAX {
                    Some(ms as u64)
                } else {
                    None
                }
            },
            None => None,
        },
    }
}

/// Reads a `Retry-After` value, given the date that it writes, if it writes
/// one, and the present time in nanoseconds since the start of 1970.
pub fn retry_after_value_ms(text: &str, date: Option<u64>, now_unix_ns: u64) -> (ms: Option<u64>)
    ensures
        ms == retry_after_ms_of(text@, date, now_unix_ns),
{
    if let Some(seconds) = parse_decimal(text, u64::MAX) {
        return seconds.checked_mul(1000);
    }
    match date {
        Some(date) => {
            let at: u128 = (date as u128) * 1_000_000_000;
            let now: u128 = now_unix_ns as u128;
            if at < now {
                return Some(0);
            }
            let ms: u128 = (at - now) / 1_000_000;
            if ms > u64::MAX as u128 {
                None
            } else {
                Some(ms as u64)
            }
        },
        None => None,
    }
}

/// The wait that the headers ask for.
pub open spec fn asked_wait(contents: crate::headers::HeaderContents, now_unix_ns: u64) -> Option<u64> {
    match crate::headers::first_text(contents, "retry-after"@) {
        Some(text) => {
            let value = crate::text::trimmed(text);
            retry_after_ms_of(value, http_date_seconds(value), now_unix_ns)
        },
        None => None,
    }
}

/// The wait in milliseconds that the response headers ask for.
pub fn retry_after_millis(response_headers: &HeaderMap<HeaderValue>, now_unix_ns: u64) -> (ms: Option<u64>)
    ensures
        ms == asked_wait(crate::headers::header_contents(*response_headers), now_unix_ns),
{
    proof {
        lemma_plain_names();
    }
    match header_text(response_headers, "retry-after") {
        Some(text) => {
            let value = trim(text.as_str());
            let date = parse_http_date(value.as_str());
            retry_after_value_ms(value.as_str(), date, now_unix_ns)
        },
        None => None,
    }
}

proof fn lemma_plain_names()
    ensures
        crate::tunnel_contract::canonical("retry-after"@),
        crate::tunnel_contract::canonical("content-type"@),
        "content-type"@ != HEADER_STARGATE_RETRYABLE@,
        "content-type"@ != HEADER_STARGATE_RETRY_REASON@,
        "content-type"@ != HEADER_STARGATE_RETRY_AFTER_MS@,
        HEADER_STARGATE_RETRYABLE@ != HEADER_STARGATE_RETRY_REASON@,
        HEADER_STARGATE_RETRYABLE@ != HEADER_STARGATE_RETRY_AFTER_MS@,
        HEADER_STARGATE_RETRY_REASON@ != HEADER_STARGATE_RETRY_AFTER_MS@,
{
    reveal_strlit("retry-after");
    reveal_strlit("content-type");
    reveal_strlit("x-stargate-retryable");
    reveal_strlit("x-stargate-retry-reason");
    reveal_strlit("x-stargate-retry-after-ms");
    crate::tunnel_contract::lemma_name_chars_canonical("retry-after"@);
    crate::tunnel_contract::lemma_name_chars_canonical("content-type"@);
    assert("content-type"@.len() == 12);
    assert(HEADER_STARGATE_RETRYABLE@.len() == 20);
    assert(HEADER_STARGATE_RETRY_REASON@.len() == 23);
    assert(HEADER_STARGATE_RETRY_AFTER_MS@.len() == 25);
}

/// Where a counted failure belongs: among the answers that may be retried
/// elsewhere, by status, or among those that may not.
#[derive(Clone, Copy, Debug, PartialEq, Eq, Structural)]
pub struct FailureCount {
    pub retryable: bool,
    pub status: u16,
}

/// How an upstream response is classified.
#[derive(Clone, Copy, Debug)]
pub struct ResponseClass {
    pub retryable: bool,
    pub reason: &'static str,
    /// The failure to count, under the reason.
    pub failure: Option<FailureCount>,
    pub logs_at_info: bool,
}

/// The upstream has marked its answer as one that may be retried.
pub open spec fn marked_retryable(contents: crate::headers::HeaderContents, retry: PylonRetryConfig) -> bool {
    let name = crate::headers::header_name_text(retry.upstream_retry_header);
    contents.contains_key(name) && (crate::headers::value_text(contents[name][0]) matches Some(text)
        && crate::text::lower(text) == "true"@)
}

/// The answer may be retried elsewhere.
pub open spec fn is_retryable(
    status: u16,
    contents: crate::headers::HeaderContents,
    retry: PylonRetryConfig,
) -> bool {
    retry.retryable_upstream_status_codes@.contains(status) && (!retry.require_upstream_retry_header
        || marked_retryable(contents, retry))
}

/// Why the answer is or is not retried elsewhere.
pub open spec fn response_reason(
    status: u16,
    contents: crate::headers::HeaderContents,
    retry: PylonRetryConfig,
) -> Seq<char> {
    if is_retryable(status, contents, retry) {
        RETRY_REASON_UPSTREAM_ADMISSION_REJECTED@
    } else if retry.retryable_upstream_status_codes@.contains(status) {
        "missing_upstream_retry_header"@
    } else if !crate::bringup::success_status(status) {
        "upstream_nonretryable_status"@
    } else {
        ""@
    }
}

fn contains_status(codes: &Vec<u16>, status: u16) -> (contains: bool)
    ensures
        contains == codes@.contains(status),
{
    let mut i: usize = 0;
    while i < codes.len()
        invariant
            i <= codes.len(),
            forall|j: int| 0 <= j < i ==> codes[j] != status,
        decreases codes.len() - i,
    {
        if codes[i] == status {
            assert(codes@[i as int] == status);
            return true;
        }
        i += 1;
    }
    false
}

/// Whether a response is reported at the information level.
pub fn upstream_response_logs_at_info(status: u16, retryable: bool) -> (info: bool)
    ensures
        info == (retryable || !crate::bringup::success_status(status)),
{
    retryable || !(200 <= status && status < 300)
}

/// Whether a queue decision is reported at the information level.
pub fn queue_decision_logs_at_info(decision: &QueueAdmissionDecision) -> (info: bool)
    ensures
        info == (decision is Rejected),
{
    match decision {
        QueueAdmissionDecision::Rejected { .. } => true,
        _ => false,
    }
}

/// Classifies an upstream response.
pub fn classify_response(
    status: u16,
    response_headers: &HeaderMap<HeaderValue>,
    retry: &PylonRetryConfig,
) -> (class: ResponseClass)
    ensures
        ({
            let contents = crate::headers::header_contents(*response_headers);
            &&& class.retryable == is_retryable(status, contents, *retry)
            &&& class.reason@ == response_reason(status, contents, *retry)
            &&& class.failure == (if crate::bringup::success_status(status) {
                None
            } else {
                Some(FailureCount { retryable: class.retryable, status })
            })
            &&& class.logs_at_info == (class.retryable || !crate::bringup::success_status(status))
        }),
{
    let marks = header_values(response_headers, &retry.upstream_retry_header);
    proof {
        assert(crate::headers::value_bytes(marks@).len() == marks.len());
    }
    let marked = if marks.len() == 0 {
        false
    } else {
        proof {
            assert(crate::headers::value_bytes(marks@)[0] == marks[0]@);
        }
        match text_value(marks[0].as_slice()) {
            Some(text) => {
                let low = to_lower(text.as_str());
                same_text(low.as_str(), "true")
            },
            None => false,
        }
    };
    let listed = contains_status(&retry.retryable_upstream_status_codes, status);
    let success = 200 <= status && status < 300;
    let retryable = listed && (!retry.require_upstream_retry_header || marked);
    let reason = if retryable {
        RETRY_REASON_UPSTREAM_ADMISSION_REJECTED
    } else if listed {
        "missing_upstream_retry_header"
    } else if !success {
        "upstream_nonretryable_status"
    } else {
        ""
    };
    ResponseClass {
        retryable,
        reason,
        failure: if success {
            None
        } else {
            Some(FailureCount { retryable, status })
        },
        logs_at_info: upstream_response_logs_at_info(status, retryable),
    }
}

pub open spec fn truth_text(value: bool) -> Seq<char> {
    if value {
        "true"@
    } else {
        "false"@
    }
}

/// The contents with the retry metadata set.
pub open spec fn with_retry_metadata(
    contents: crate::headers::HeaderContents,
    retryable: bool,
    reason: Seq<char>,
) -> crate::headers::HeaderContents {
    contents.insert(
        HEADER_STARGATE_RETRYABLE@,
        seq![crate::headers::ascii_bytes(truth_text(retryable))],
    ).insert(HEADER_STARGATE_RETRY_REASON@, seq![crate::headers::ascii_bytes(reason)])
}

/// The contents with a wait set, where there is one.
pub open spec fn with_retry_after(
    contents: crate::headers::HeaderContents,
    ms: Option<u64>,
) -> crate::headers::HeaderContents {
    match ms {
        Some(ms) => contents.insert(
            HEADER_STARGATE_RETRY_AFTER_MS@,
            seq![crate::headers::ascii_bytes(crate::text::decimal_text(ms as nat))],
        ),
        None => contents,
    }
}

/// Sets a header of a map that holds few.
fn set_text(headers: &mut HeaderMap<HeaderValue>, name: &str, value: &str)
    requires
        crate::tunnel_contract::canonical(name@),
        crate::headers::printable(value@),
        crate::headers::header_contents(*old(headers)).dom().finite(),
        crate::headers::header_contents(*old(headers)).len() < 16,
    ensures
        crate::headers::header_contents(*final(headers)) == crate::headers::header_contents(*old(headers)).insert(
            name@,
            seq![crate::headers::ascii_bytes(value@)],
        ),
{
    let bytes = bytes_of_text(value);
    let _ = insert_header(headers, name, bytes.as_slice());
}

fn insert_retry_metadata(headers: &mut HeaderMap<HeaderValue>, retryable: bool, reason: &str)
    requires
        crate::headers::printable(reason@),
        crate::headers::header_contents(*old(headers)).dom().finite(),
        crate::headers::header_contents(*old(headers)).len() < 8,
    ensures
        crate::headers::header_contents(*final(headers)) == with_retry_metadata(
            crate::headers::header_contents(*old(headers)),
            retryable,
            reason@,
        ),
{
    proof {
        crate::tunnel_contract::lemma_header_names();
        reveal_strlit("true");
        reveal_strlit("false");
    }
    set_text(
        headers,
        HEADER_STARGATE_RETRYABLE,
        if retryable {
            "true"
        } else {
            "false"
        },
    );
    set_text(headers, HEADER_STARGATE_RETRY_REASON, reason);
}

fn insert_retry_after(headers: &mut HeaderMap<HeaderValue>, ms: Option<u64>)
    requires
        crate::headers::header_contents(*old(headers)).dom().finite(),
        crate::headers::header_contents(*old(headers)).len() < 16,
    ensures
        crate::headers::header_contents(*final(headers)) == with_retry_after(
            crate::headers::header_contents(*old(headers)),
            ms,
        ),
{
    if let Some(ms) = ms {
        proof {
            crate::tunnel_contract::lemma_header_names();
        }
        let bytes = bytes_of_decimal(ms);
        let _ = insert_header(headers, HEADER_STARGATE_RETRY_AFTER_MS, bytes.as_slice());
    }
}

/// What the pylon itself says of a response.
pub open spec fn own_response_contents(
    status: u16,
    response: crate::headers::HeaderContents,
    retry: PylonRetryConfig,
    now_unix_ns: u64,
) -> crate::headers::HeaderContents {
    if is_retryable(status, response, retry) {
        with_retry_after(
            with_retry_metadata(Map::empty(), true, RETRY_REASON_UPSTREAM_ADMISSION_REJECTED@),
            if retry.propagate_retry_after {
                asked_wait(response, now_unix_ns)
            } else {
                None
            },
        )
    } else {
        Map::empty()
    }
}

/// The head of the response that goes back through the tunnel: whatever the
/// upstream says of retries is replaced by what the pylon makes of it. A map
/// of very many names may be refused.
pub fn build_response_headers(
    status: u16,
    response_headers: &HeaderMap<HeaderValue>,
    retry: &PylonRetryConfig,
    now_unix_ns: u64,
) -> (head: Result<(HeaderMap<HeaderValue>, ResponseClass), HeaderLimitReached>)
    ensures
        ({
            let response = crate::headers::header_contents(*response_headers);
            match head {
                Ok((head, class)) => {
                    &&& crate::headers::header_contents(head) == with_passed(
                        own_response_contents(status, response, *retry, now_unix_ns),
                        response,
                        *retry,
                        HeaderDirection::Response,
                    )
                    &&& class.retryable == is_retryable(status, response, *retry)
                    &&& class.reason@ == response_reason(status, response, *retry)
                    &&& class.failure == (if crate::bringup::success_status(status) {
                        None
                    } else {
                        Some(FailureCount { retryable: class.retryable, status })
                    })
                    &&& class.logs_at_info == (class.retryable || !crate::bringup::success_status(status))
                },
                Err(_) => response.len() + 3 > crate::headers::HEADER_ROOM,
            }
        }),
{
    let ghost response = crate::headers::header_contents(*response_headers);
    let class = classify_response(status, response_headers, retry);
    let mut head = new_headers();
    proof {
        assert(Map::<Seq<char>, Seq<Seq<u8>>>::empty().len() == 0);
        reveal_strlit("upstream_admission_rejected");
    }
    if class.retryable {
        insert_retry_metadata(&mut head, true, RETRY_REASON_UPSTREAM_ADMISSION_REJECTED);
        let wait = if retry.propagate_retry_after {
            retry_after_millis(response_headers, now_unix_ns)
        } else {
            None
        };
        insert_retry_after(&mut head, wait);
    }
    proof {
        lemma_plain_names();
        assert(crate::headers::header_contents(head) == own_response_contents(status, response, *retry, now_unix_ns));
        assert(crate::headers::header_contents(head).len() <= 3);
    }
    match pass_headers(&mut head, response_headers, retry, HeaderDirection::Response) {
        Ok(_) => Ok((head, class)),
        Err(error) => Err(error),
    }
}

/// The headers of a problem report.
pub open spec fn problem_contents() -> crate::headers::HeaderContents {
    Map::<Seq<char>, Seq<Seq<u8>>>::empty().insert(
        "content-type"@,
        seq![crate::headers::ascii_bytes("application/problem+json"@)],
    )
}

pub fn problem_response_headers() -> (headers: HeaderMap<HeaderValue>)
    ensures
        crate::headers::header_contents(headers) == problem_contents(),
{
    let mut headers = new_headers();
    proof {
        lemma_plain_names();
        reveal_strlit("application/problem+json");
        assert(Map::<Seq<char>, Seq<Seq<u8>>>::empty().len() == 0);
    }
    set_text(&mut headers, "content-type", "application/problem+json");
    headers
}

/// The headers with which a request is turned away for the local queue.
pub fn queue_mismatch_response_headers(decision: &QueueAdmissionDecision) -> (headers: HeaderMap<HeaderValue>)
    ensures
        crate::headers::header_contents(headers) == with_retry_after(
            with_retry_metadata(problem_contents(), true, RETRY_REASON_QUEUE_ESTIMATE_MISMATCH@),
            match decision {
                QueueAdmissionDecision::Rejected { retry_after_ms, .. } => *retry_after_ms,
                _ => None,
            },
        ),
{
    let mut headers = problem_response_headers();
    proof {
        reveal_strlit("queue_estimate_mismatch");
        assert(Map::<Seq<char>, Seq<Seq<u8>>>::empty().len() == 0);
        assert(crate::headers::header_contents(headers).len() == 1);
    }
    insert_retry_metadata(&mut headers, true, RETRY_REASON_QUEUE_ESTIMATE_MISMATCH);
    let wait = match decision {
        QueueAdmissionDecision::Rejected { retry_after_ms, .. } => *retry_after_ms,
        _ => None,
    };
    insert_retry_after(&mut headers, wait);
    headers
}

/// The headers with which a request is turned away when the upstream cannot
/// be reached.
pub fn local_connect_failure_headers(retryable: bool) -> (headers: HeaderMap<HeaderValue>)
    ensures
        crate::headers::header_contents(headers) == with_retry_metadata(
            problem_contents(),
            retryable,
            RETRY_REASON_LOCAL_CONNECT_FAILURE@,
        ),
{
    let mut headers = problem_response_headers();
    proof {
        reveal_strlit("local_connect_failure");
        assert(Map::<Seq<char>, Seq<Seq<u8>>>::empty().len() == 0);
        assert(crate::headers::header_contents(headers).len() == 1);
    }
    insert_retry_metadata(&mut headers, retryable, RETRY_REASON_LOCAL_CONNECT_FAILURE);
    headers
}

/// The headers with which a request is turned away when its model is not
/// published.
pub fn model_generation_unavailable_headers() -> (headers: HeaderMap<HeaderValue>)
    ensures
        crate::headers::header_contents(headers) == with_retry_metadata(
            problem_contents(),
            true,
            RETRY_REASON_MODEL_GENERATION_UNAVAILABLE@,
        ),
{
    let mut headers = problem_response_headers();
    proof {
        reveal_strlit("model_generation_unavailable");
        assert(Map::<Seq<char>, Seq<Seq<u8>>>::empty().len() == 0);
        assert(crate::headers::header_contents(headers).len() == 1);
    }
    insert_retry_metadata(&mut headers, true, RETRY_REASON_MODEL_GENERATION_UNAVAILABLE);
    headers
}

} // verus!
