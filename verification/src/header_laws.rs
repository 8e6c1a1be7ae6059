//! What the headers of a request and of its response are, name by name.

use http::{HeaderMap, HeaderValue};
use vstd::prelude::*;

use crate::headers::{bytes_of_text, header_text, is_valid_name, text_value};
use crate::queue_admission::QueueAdmissionDecision;
use crate::tunnel_backend::{
    apply_priority_headers, is_platform_metadata_header, is_stripped_engine_header, request_priority,
    translate_stats_correlation, HeaderLimitReached, UnknownUpstreamBackend, UpstreamBackend,
};
use crate::tunnel_headers::{
    build_response_headers, classify_response, is_hop_by_hop_header, local_connect_failure_headers,
    model_generation_unavailable_headers, problem_response_headers, queue_decision_logs_at_info,
    queue_mismatch_response_headers, retry_after_millis, retry_after_value_ms, should_forward_header,
    should_forward_response_header, upstream_request_headers, upstream_response_logs_at_info, PylonRetryConfig,
    ResponseClass,
};

verus! {

/// The names that a request or response of the tunnel never hands on, written
/// out: those of one connection, and the tunnel's own.
pub open spec fn stays_in_the_tunnel(name: Seq<char>) -> bool {
    ||| name == "connection"@ || name == "keep-alive"@ || name == "proxy-authenticate"@
    ||| name == "proxy-authorization"@ || name == "proxy-connection"@ || name == "te"@ || name == "trailer"@
    ||| name == "trailers"@ || name == "transfer-encoding"@ || name == "upgrade"@
    ||| name == "x-stargate-upstream-retryable"@ || name == "x-stargate-retryable"@
    ||| name == "x-stargate-retry-reason"@ || name == "x-stargate-retry-after-ms"@
}

/// The further names that no upstream request takes over from the caller.
pub open spec fn stays_with_the_pylon(name: Seq<char>) -> bool {
    ||| name == "x-dynamo-stats-correlation-id"@ || name == "x-dynamo-request-priority"@
    ||| name == "x-dynamo-request-strict-priority"@
    ||| name == "host"@ || name == "x-method"@ || name == "x-path"@ || name == "x-stargate-expected-queue-ms"@
}

/// The names that a Dynamo engine is not shown.
pub open spec fn is_of_the_platform(name: Seq<char>) -> bool {
    name == "request-id"@ || name == "x-dynamo-request-id"@ || name == "x-model"@ || name == "x-routing-key"@ || name
        == "x-priority"@
}

/// A request header is handed on exactly where its name is none of those that
/// are written out, whatever the case that it is written in.
pub proof fn law_request_header_passes_unless_named(
    name: &str,
    retry: PylonRetryConfig,
    backend: UpstreamBackend,
    forward: bool,
)
    requires
        call_ensures(should_forward_header, (name, &retry, backend), forward),
    ensures
        ({
            let low = crate::text::lower(name@);
            forward <==> {
                &&& !stays_in_the_tunnel(low)
                &&& !stays_with_the_pylon(low)
                &&& low != crate::headers::header_name_text(retry.upstream_retry_header)
                &&& !(backend is Dynamo && is_of_the_platform(low))
            }
        }),
{
}

/// A response header is handed back exactly where its name is none of the
/// tunnel's and not the length of the body.
pub proof fn law_response_header_passes_unless_named(name: &str, retry: PylonRetryConfig, forward: bool)
    requires
        call_ensures(should_forward_response_header, (name, &retry), forward),
    ensures
        ({
            let low = crate::text::lower(name@);
            forward <==> {
                &&& !stays_in_the_tunnel(low)
                &&& low != "content-length"@
                &&& low != crate::headers::header_name_text(retry.upstream_retry_header)
            }
        }),
{
}

/// The names of one connection, of the engine and of the platform.
pub proof fn law_named_headers_are_recognized(name: &str, hop: bool, stripped: bool, metadata: bool)
    requires
        call_ensures(is_hop_by_hop_header, (name,), hop),
        call_ensures(is_stripped_engine_header, (name,), stripped),
        call_ensures(is_platform_metadata_header, (name,), metadata),
    ensures
        ({
            let low = crate::text::lower(name@);
            &&& hop ==> stays_in_the_tunnel(low)
            &&& stays_in_the_tunnel(low) && !hop ==> low == "x-stargate-upstream-retryable"@ || low
                == "x-stargate-retryable"@ || low == "x-stargate-retry-reason"@ || low == "x-stargate-retry-after-ms"@
            &&& stripped ==> stays_with_the_pylon(low)
            &&& stays_with_the_pylon(low) && !stripped ==> low == "host"@ || low == "x-method"@ || low == "x-path"@
                || low == "x-stargate-expected-queue-ms"@
            &&& metadata <==> is_of_the_platform(low)
        }),
{
}

/// Every header of a request whose name is not written out above stands in the
/// upstream request with all its values in their order. Nothing else stands
/// there but, for an inference request to a Dynamo engine, the two priority
/// headers.
pub proof fn law_request_headers_pass_unchanged(
    request: HeaderMap<HeaderValue>,
    retry: PylonRetryConfig,
    backend: UpstreamBackend,
    priority: Option<u32>,
    ceiling: u32,
    health_request: bool,
    upstream: HeaderMap<HeaderValue>,
    emitted: Option<i32>,
    name: Seq<char>,
)
    requires
        call_ensures(
            upstream_request_headers,
            (&request, &retry, backend, priority, ceiling, health_request),
            Ok((upstream, emitted)),
        ),
    ensures
        ({
            let from = crate::headers::header_contents(request);
            let to = crate::headers::header_contents(upstream);
            let held_back = {
                ||| stays_in_the_tunnel(name)
                ||| stays_with_the_pylon(name)
                ||| name == crate::headers::header_name_text(retry.upstream_retry_header)
                ||| backend is Dynamo && is_of_the_platform(name)
            };
            let own = backend is Dynamo && !health_request && (name == "x-dynamo-request-priority"@ || name
                == "x-dynamo-request-strict-priority"@);
            &&& from.contains_key(name) && !held_back ==> to.contains_key(name) && to[name] == from[name]
            &&& to.contains_key(name) ==> own || from.contains_key(name) && !held_back && to[name] == from[name]
            &&& own ==> to.contains_key(name) && to[name].len() == 1
            &&& emitted is Some <==> backend is Dynamo && !health_request
        }),
{
    crate::tunnel_backend::lemma_engine_header_names();
}

/// A map of few names is never refused.
pub proof fn law_small_requests_are_taken(
    request: HeaderMap<HeaderValue>,
    retry: PylonRetryConfig,
    backend: UpstreamBackend,
    priority: Option<u32>,
    ceiling: u32,
    health_request: bool,
    upstream: Result<(HeaderMap<HeaderValue>, Option<i32>), HeaderLimitReached>,
)
    requires
        call_ensures(
            upstream_request_headers,
            (&request, &retry, backend, priority, ceiling, health_request),
            upstream,
        ),
        crate::headers::header_contents(request).len() < 6553,
    ensures
        upstream is Ok,
{
}

/// The engine's priority is what is left of the ceiling behind the rank, and
/// none for a request without rank or with one at the ceiling or beyond. It is
/// written into the engine's header as a number; no request is strict.
pub proof fn law_engine_priority_is_the_head_start(
    priority: Option<u32>,
    ceiling: u32,
    headers: &mut HeaderMap<HeaderValue>,
    engine: i32,
    emitted: i32,
    name: Seq<char>,
)
    requires
        call_ensures(request_priority, (priority, ceiling), engine),
        call_ensures(apply_priority_headers, (priority, ceiling, headers), Ok(emitted)),
    ensures
        emitted == engine,
        priority is None ==> engine == 0,
        priority matches Some(rank) ==> {
            &&& rank >= ceiling ==> engine == 0
            &&& rank < ceiling && ceiling <= i32::MAX ==> engine > 0 && engine + rank == ceiling
            &&& rank < i32::MAX && ceiling > i32::MAX ==> engine + rank == i32::MAX
            &&& rank >= i32::MAX ==> engine == 0
        },
        ({
            let before = crate::headers::header_contents(*old(headers));
            let after = crate::headers::header_contents(*final(headers));
            &&& after.contains_key("x-dynamo-request-priority"@)
            &&& after["x-dynamo-request-priority"@].len() == 1
            &&& crate::headers::value_text(after["x-dynamo-request-priority"@][0]) == Some(
                crate::text::decimal_text(engine as nat),
            )
            &&& after.contains_key("x-dynamo-request-strict-priority"@)
            &&& after["x-dynamo-request-strict-priority"@].len() == 1
            &&& after["x-dynamo-request-strict-priority"@][0] == seq!['0' as u8]
            &&& name != "x-dynamo-request-priority"@ && name != "x-dynamo-request-strict-priority"@ ==> {
                &&& after.contains_key(name) == before.contains_key(name)
                &&& before.contains_key(name) ==> after[name] == before[name]
            }
        }),
{
    crate::tunnel_backend::lemma_engine_header_names();
    let number = engine as nat;
    lemma_decimal_bytes(number);
}

proof fn lemma_decimal_bytes(number: nat)
    ensures
        crate::headers::value_text(crate::headers::ascii_bytes(crate::text::decimal_text(number))) == Some(
            crate::text::decimal_text(number),
        ),
{
    crate::text::lemma_decimal_round_trip(number);
    let text = crate::text::decimal_text(number);
    let bytes = crate::headers::ascii_bytes(text);
    assert forall|i: int| 0 <= i < bytes.len() implies crate::headers::visible(#[trigger] bytes[i]) && bytes[i] as char
        == text[i] by {
        assert('0' <= text[i] <= '9');
    }
    assert(bytes.map_values(|b: u8| b as char) =~= text);
}

/// The platform's three identities leave the headers and one identifier of the
/// pylon's own takes their place; every other header stays as it is.
pub proof fn law_identities_are_replaced(headers: &mut HeaderMap<HeaderValue>, id: String, name: Seq<char>)
    requires
        call_ensures(translate_stats_correlation, (headers,), Ok(id)),
    ensures
        ({
            let before = crate::headers::header_contents(*old(headers));
            let after = crate::headers::header_contents(*final(headers));
            &&& !after.contains_key("x-request-id"@)
            &&& !after.contains_key("x-model"@)
            &&& !after.contains_key("x-routing-key"@)
            &&& after.contains_key("x-dynamo-stats-correlation-id"@)
            &&& after["x-dynamo-stats-correlation-id"@].len() == 1
            &&& after["x-dynamo-stats-correlation-id"@][0].len() == id@.len()
            &&& forall|i: int|
                0 <= i < id@.len() ==> after["x-dynamo-stats-correlation-id"@][0][i] == #[trigger] id@[i] as u8
            &&& name != "x-request-id"@ && name != "x-model"@ && name != "x-routing-key"@ && name
                != "x-dynamo-stats-correlation-id"@ ==> {
                &&& after.contains_key(name) == before.contains_key(name)
                &&& before.contains_key(name) ==> after[name] == before[name]
            }
        }),
{
    reveal_strlit("x-request-id");
    reveal_strlit("x-model");
    reveal_strlit("x-routing-key");
    reveal_strlit("x-dynamo-stats-correlation-id");
    assert("x-dynamo-stats-correlation-id"@.len() == 29);
    assert("x-request-id"@.len() == 12);
    assert("x-model"@.len() == 7);
    assert("x-routing-key"@.len() == 13);
    let value = crate::headers::header_contents(*final(headers))["x-dynamo-stats-correlation-id"@][0];
    assert(value == crate::headers::ascii_bytes(id@));
}

/// The bytes of a text are the codes of its characters, and a value of printable
/// bytes is read as those characters. No other value is read.
pub proof fn law_header_text_is_written_as_it_reads(text: &str, bytes: Vec<u8>, value: &[u8], read: Option<String>)
    requires
        call_ensures(bytes_of_text, (text,), bytes),
        call_ensures(text_value, (value,), read),
    ensures
        bytes@.len() == text@.len(),
        forall|i: int| 0 <= i < bytes@.len() ==> #[trigger] bytes@[i] == text@[i] as u8,
        read is Some <==> forall|i: int| 0 <= i < value@.len() ==> 32 <= #[trigger] value@[i] < 127 || value@[i] == 9,
        read matches Some(read) ==> read@.len() == value@.len() && forall|i: int|
            0 <= i < value@.len() ==> read@[i] == #[trigger] value@[i] as char,
{
    if read is Some {
        assert forall|i: int| 0 <= i < value@.len() implies 32 <= #[trigger] value@[i] < 127 || value@[i] == 9 by {
            assert(crate::headers::visible(value@[i]));
        }
    }
}

/// A header is read from its first value, under its name in any case.
pub proof fn law_first_value_is_read(
    headers: HeaderMap<HeaderValue>,
    name: &str,
    valid: bool,
    text: Option<String>,
)
    requires
        call_ensures(is_valid_name, (name,), valid),
        call_ensures(header_text, (&headers, name), text),
    ensures
        ({
            let contents = crate::headers::header_contents(headers);
            let low = crate::text::lower(name@);
            &&& text is Some ==> valid && contents.contains_key(low)
            &&& text matches Some(text) ==> text@.len() == contents[low][0].len() && forall|i: int|
                0 <= i < text@.len() ==> #[trigger] text@[i] == contents[low][0][i] as char
            &&& valid && contents.contains_key(low) && (forall|i: int|
                0 <= i < contents[low][0].len() ==> 32 <= #[trigger] contents[low][0][i] < 127) ==> text is Some
            &&& valid ==> name@.len() > 0
        }),
{
}

/// A response may be retried elsewhere exactly where its status is listed and it
/// is marked so by the upstream or needs no mark. Any answer but a success is
/// counted as a failure, with its status and its judgement, and told aloud.
pub proof fn law_responses_are_judged_by_status_and_mark(
    status: u16,
    response: HeaderMap<HeaderValue>,
    retry: PylonRetryConfig,
    class: ResponseClass,
)
    requires
        call_ensures(classify_response, (status, &response, &retry), class),
    ensures
        ({
            let contents = crate::headers::header_contents(response);
            let listed = retry.retryable_upstream_status_codes@.contains(status);
            let mark = crate::headers::header_name_text(retry.upstream_retry_header);
            let marked = contents.contains_key(mark) && crate::headers::value_text(contents[mark][0]) is Some
                && crate::text::lower(crate::headers::value_text(contents[mark][0])->0) == "true"@;
            let success = 200 <= status <= 299;
            &&& class.retryable <==> listed && (marked || !retry.require_upstream_retry_header)
            &&& class.retryable ==> class.reason@ == "upstream_admission_rejected"@
            &&& listed && !class.retryable ==> class.reason@ == "missing_upstream_retry_header"@
            &&& !listed && !success ==> class.reason@ == "upstream_nonretryable_status"@
            &&& !listed && success ==> class.reason@ == ""@
            &&& class.failure is None <==> success
            &&& class.failure matches Some(failure) ==> failure.status == status && failure.retryable
                == class.retryable
            &&& class.logs_at_info <==> class.retryable || !success
        }),
{
}

/// What is told aloud of a response and of a decision at the queue.
pub proof fn law_only_failures_are_told_aloud(
    status: u16,
    retryable: bool,
    info: bool,
    decision: QueueAdmissionDecision,
    told: bool,
)
    requires
        call_ensures(upstream_response_logs_at_info, (status, retryable), info),
        call_ensures(queue_decision_logs_at_info, (&decision,), told),
    ensures
        !info <==> 200 <= status <= 299 && !retryable,
        told <==> decision is Rejected,
{
}

/// The head of a response: each header of the upstream but the tunnel's and the
/// length, as the upstream set it; and the pylon's word on retries, exactly
/// where the answer may be retried elsewhere.
pub proof fn law_response_head_is_the_upstreams_and_the_pylons_word(
    status: u16,
    response: HeaderMap<HeaderValue>,
    retry: PylonRetryConfig,
    now_unix_ns: u64,
    head: HeaderMap<HeaderValue>,
    class: ResponseClass,
    wait: Option<u64>,
    name: Seq<char>,
)
    requires
        call_ensures(build_response_headers, (status, &response, &retry, now_unix_ns), Ok((head, class))),
        call_ensures(retry_after_millis, (&response, now_unix_ns), wait),
    ensures
        ({
            let from = crate::headers::header_contents(response);
            let to = crate::headers::header_contents(head);
            let held_back = stays_in_the_tunnel(name) || name == "content-length"@ || name
                == crate::headers::header_name_text(retry.upstream_retry_header);
            let own = class.retryable && (name == "x-stargate-retryable"@ || name == "x-stargate-retry-reason"@
                || name == "x-stargate-retry-after-ms"@ && retry.propagate_retry_after && wait is Some);
            &&& from.contains_key(name) && !held_back ==> to.contains_key(name) && to[name] == from[name]
            &&& to.contains_key(name) ==> own || from.contains_key(name) && !held_back
            &&& own ==> to.contains_key(name) && to[name].len() == 1
            &&& own && name == "x-stargate-retryable"@ ==> crate::headers::value_text(to[name][0]) == Some("true"@)
            &&& own && name == "x-stargate-retry-reason"@ ==> crate::headers::value_text(to[name][0]) == Some(
                "upstream_admission_rejected"@,
            )
            &&& own && name == "x-stargate-retry-after-ms"@ ==> crate::headers::value_text(to[name][0]) == Some(
                crate::text::decimal_text(wait->0 as nat),
            )
            &&& class.retryable <==> retry.retryable_upstream_status_codes@.contains(status) && ({
                ||| !retry.require_upstream_retry_header
                ||| {
                    let mark = crate::headers::header_name_text(retry.upstream_retry_header);
                    from.contains_key(mark) && crate::headers::value_text(from[mark][0]) is Some
                        && crate::text::lower(crate::headers::value_text(from[mark][0])->0) == "true"@
                }
            })
            &&& class.failure is None <==> 200 <= status <= 299
            &&& class.failure matches Some(failure) ==> failure.status == status && failure.retryable
                == class.retryable
            &&& class.logs_at_info <==> class.retryable || !(200 <= status <= 299)
            &&& class.retryable ==> class.reason@ == "upstream_admission_rejected"@
        }),
{
    lemma_names_differ();
    lemma_readable("true"@);
    lemma_readable("upstream_admission_rejected"@);
    if let Some(ms) = wait {
        lemma_decimal_bytes(ms as nat);
    }
}

proof fn lemma_names_differ()
    ensures
        "x-stargate-retryable"@ != "x-stargate-retry-reason"@,
        "x-stargate-retryable"@ != "x-stargate-retry-after-ms"@,
        "x-stargate-retry-reason"@ != "x-stargate-retry-after-ms"@,
        "content-type"@ != "x-stargate-retryable"@,
        "content-type"@ != "x-stargate-retry-reason"@,
        "content-type"@ != "x-stargate-retry-after-ms"@,
        crate::headers::printable("true"@),
        crate::headers::printable("false"@),
        crate::headers::printable("upstream_admission_rejected"@),
        crate::headers::printable("queue_estimate_mismatch"@),
        crate::headers::printable("local_connect_failure"@),
        crate::headers::printable("model_generation_unavailable"@),
        crate::headers::printable("application/problem+json"@),
{
    reveal_strlit("x-stargate-retryable");
    reveal_strlit("x-stargate-retry-reason");
    reveal_strlit("x-stargate-retry-after-ms");
    reveal_strlit("content-type");
    reveal_strlit("true");
    reveal_strlit("false");
    reveal_strlit("upstream_admission_rejected");
    reveal_strlit("queue_estimate_mismatch");
    reveal_strlit("local_connect_failure");
    reveal_strlit("model_generation_unavailable");
    reveal_strlit("application/problem+json");
    assert("x-stargate-retryable"@[14] == 'r');
    assert("x-stargate-retry-reason"@.len() == 23);
    assert("x-stargate-retry-after-ms"@.len() == 25);
    assert("x-stargate-retryable"@.len() == 20);
    assert("content-type"@.len() == 12);
}

proof fn lemma_readable(text: Seq<char>)
    requires
        crate::headers::printable(text),
    ensures
        crate::headers::value_text(crate::headers::ascii_bytes(text)) == Some(text),
{
    let bytes = crate::headers::ascii_bytes(text);
    assert forall|i: int| 0 <= i < bytes.len() implies crate::headers::visible(#[trigger] bytes[i]) && bytes[i] as char
        == text[i] by {
        assert(' ' <= text[i] <= '~');
    }
    assert(bytes.map_values(|b: u8| b as char) =~= text);
}

/// A `Retry-After` of a number of seconds asks for a thousand times as many
/// milliseconds, where that can be said.
pub proof fn law_retry_after_seconds(
    text: &str,
    date: Option<u64>,
    now_unix_ns: u64,
    ms: Option<u64>,
    seconds: u64,
)
    requires
        call_ensures(retry_after_value_ms, (text, date, now_unix_ns), ms),
        text@ == crate::text::decimal_text(seconds as nat),
    ensures
        seconds * 1000 <= u64::MAX ==> ms == Some((seconds * 1000) as u64),
        seconds * 1000 > u64::MAX ==> ms is None,
{
    crate::text::lemma_decimal_round_trip(seconds as nat);
}

/// A `Retry-After` of a date asks for the whole milliseconds that are left until
/// then, and for none once the date has passed. Anything else asks for nothing.
pub proof fn law_retry_after_date(
    text: &str,
    date: Option<u64>,
    now_unix_ns: u64,
    ms: Option<u64>,
)
    requires
        call_ensures(retry_after_value_ms, (text, date, now_unix_ns), ms),
        text@.len() == 0 || !('0' <= text@[0] <= '9' || text@[0] == '+'),
    ensures
        date is None ==> ms is None,
        date matches Some(date) ==> {
            &&& date * 1_000_000_000 <= now_unix_ns ==> ms == Some(0u64)
            &&& date * 1_000_000_000 > now_unix_ns && ms is Some ==> {
                &&& now_unix_ns + ms->0 * 1_000_000 <= date * 1_000_000_000
                &&& date * 1_000_000_000 < now_unix_ns + (ms->0 + 1) * 1_000_000
            }
            &&& date * 1_000_000_000 - now_unix_ns <= u64::MAX ==> ms is Some
        },
{
    assert(crate::text::decimal_value(text@) is None) by {
        if text@.len() > 0 {
            lemma_first_is_digit(text@);
        }
    }
}

proof fn lemma_first_is_digit(text: Seq<char>)
    requires
        text.len() > 0,
    ensures
        crate::text::digits_value(text) is Some ==> '0' <= text[0] <= '9',
    decreases text.len(),
{
    reveal_with_fuel(crate::text::digits_value, 2);
    if text.len() > 1 {
        lemma_first_is_digit(text.drop_last());
    }
}

/// A refused request is answered with a problem report, which says whether and
/// why it may be retried: for the queue and for a model that is not published it
/// may, and after an upstream that could not be reached as is configured.
pub proof fn law_refusals_say_whether_to_retry(
    plain: HeaderMap<HeaderValue>,
    decision: QueueAdmissionDecision,
    queue: HeaderMap<HeaderValue>,
    retryable: bool,
    connect: HeaderMap<HeaderValue>,
    unavailable: HeaderMap<HeaderValue>,
    name: Seq<char>,
)
    requires
        call_ensures(problem_response_headers, (), plain),
        call_ensures(queue_mismatch_response_headers, (&decision,), queue),
        call_ensures(local_connect_failure_headers, (retryable,), connect),
        call_ensures(model_generation_unavailable_headers, (), unavailable),
    ensures
        ({
            let plain = crate::headers::header_contents(plain);
            let queue = crate::headers::header_contents(queue);
            let connect = crate::headers::header_contents(connect);
            let unavailable = crate::headers::header_contents(unavailable);
            &&& says(plain, "content-type"@, "application/problem+json"@)
            &&& says(queue, "content-type"@, "application/problem+json"@)
            &&& says(connect, "content-type"@, "application/problem+json"@)
            &&& says(unavailable, "content-type"@, "application/problem+json"@)
            &&& says(queue, "x-stargate-retryable"@, "true"@)
            &&& says(queue, "x-stargate-retry-reason"@, "queue_estimate_mismatch"@)
            &&& says(unavailable, "x-stargate-retryable"@, "true"@)
            &&& says(unavailable, "x-stargate-retry-reason"@, "model_generation_unavailable"@)
            &&& retryable ==> says(connect, "x-stargate-retryable"@, "true"@)
            &&& !retryable ==> says(connect, "x-stargate-retryable"@, "false"@)
            &&& says(connect, "x-stargate-retry-reason"@, "local_connect_failure"@)
            &&& plain.contains_key(name) <==> name == "content-type"@
            &&& connect.contains_key(name) <==> unavailable.contains_key(name)
            &&& unavailable.contains_key(name) <==> name == "content-type"@ || name == "x-stargate-retryable"@ || name
                == "x-stargate-retry-reason"@
            &&& name != "x-stargate-retry-after-ms"@ ==> (queue.contains_key(name) <==> unavailable.contains_key(name))
            &&& queue.contains_key("x-stargate-retry-after-ms"@) <==> (decision matches QueueAdmissionDecision::Rejected {
                retry_after_ms,
                ..
            } && retry_after_ms is Some)
            &&& decision matches QueueAdmissionDecision::Rejected { retry_after_ms: Some(ms), .. } ==> says(
                queue,
                "x-stargate-retry-after-ms"@,
                crate::text::decimal_text(ms as nat),
            )
        }),
{
    lemma_names_differ();
    lemma_readable("true"@);
    lemma_readable("false"@);
    lemma_readable("queue_estimate_mismatch"@);
    lemma_readable("local_connect_failure"@);
    lemma_readable("model_generation_unavailable"@);
    lemma_readable("application/problem+json"@);
    if let QueueAdmissionDecision::Rejected { retry_after_ms: Some(ms), .. } = decision {
        lemma_decimal_bytes(ms as nat);
    }
}

/// The header stands there with this one text.
pub open spec fn says(contents: crate::headers::HeaderContents, name: Seq<char>, text: Seq<char>) -> bool {
    &&& contents.contains_key(name)
    &&& contents[name].len() == 1
    &&& crate::headers::value_text(contents[name][0]) == Some(text)
}

/// A backend is known by its name, in any case and with space around it, and by
/// no other.
pub proof fn law_backends_are_known_by_name(
    backend: UpstreamBackend,
    name: &'static str,
    text: &str,
    read: Result<UpstreamBackend, UnknownUpstreamBackend>,
)
    requires
        call_ensures(UpstreamBackend::name, (backend,), name),
        call_ensures(UpstreamBackend::from_name, (text,), read),
    ensures
        backend is Dynamo ==> name@ == "dynamo"@,
        backend is Passthrough ==> name@ == "passthrough"@,
        crate::text::lower(crate::text::trimmed(text@)) == name@ ==> read == Ok::<
            UpstreamBackend,
            UnknownUpstreamBackend,
        >(backend),
        read is Err <==> {
            &&& crate::text::lower(crate::text::trimmed(text@)) != "dynamo"@
            &&& crate::text::lower(crate::text::trimmed(text@)) != "passthrough"@
        },
        read matches Err(error) ==> error.name@ == crate::text::lower(crate::text::trimmed(text@)),
{
    reveal_strlit("dynamo");
    reveal_strlit("passthrough");
    assert("dynamo"@.len() != "passthrough"@.len());
}

} // verus!
