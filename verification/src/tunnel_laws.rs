//! What holds of every request and response that passes through the tunnel.

use vstd::prelude::*;

use crate::headers::HeaderContents;
use crate::tunnel_backend::UpstreamBackend;
use crate::tunnel_contract::{
    HEADER_STARGATE_RETRYABLE, HEADER_STARGATE_RETRY_AFTER_MS, HEADER_STARGATE_RETRY_REASON,
};
use crate::tunnel_headers::{HeaderDirection, PylonRetryConfig};

verus! {

/// A header that steers the tunnel never passes from one side to the other,
/// whoever set it.
pub proof fn law_control_headers_never_pass(
    into: HeaderContents,
    from: HeaderContents,
    retry: PylonRetryConfig,
    direction: HeaderDirection,
    name: Seq<char>,
)
    requires
        crate::tunnel_headers::tunnel_control(name, retry),
    ensures
        crate::tunnel_headers::with_passed(into, from, retry, direction).contains_key(name) == into.contains_key(name),
        into.contains_key(name) ==> crate::tunnel_headers::with_passed(into, from, retry, direction)[name]
            == into[name],
{
}

/// Every other header of a response reaches the caller as the upstream set it,
/// all its values in their order, but for the length of the body.
pub proof fn law_response_headers_pass_unchanged(
    status: u16,
    response: HeaderContents,
    retry: PylonRetryConfig,
    now_unix_ns: u64,
    name: Seq<char>,
)
    requires
        response.contains_key(name),
        !crate::tunnel_headers::tunnel_control(name, retry),
        name != "content-length"@,
    ensures
        ({
            let head = crate::tunnel_headers::with_passed(
                crate::tunnel_headers::own_response_contents(status, response, retry, now_unix_ns),
                response,
                retry,
                HeaderDirection::Response,
            );
            head.contains_key(name) && head[name] == response[name]
        }),
{
    lemma_own_names(status, response, retry, now_unix_ns, name);
}

proof fn lemma_own_names(
    status: u16,
    response: HeaderContents,
    retry: PylonRetryConfig,
    now_unix_ns: u64,
    name: Seq<char>,
)
    ensures
        crate::tunnel_headers::own_response_contents(status, response, retry, now_unix_ns).contains_key(name)
            ==> crate::tunnel_headers::tunnel_control(name, retry),
{
}

/// The caller is told to retry exactly where the pylon judges the answer to be
/// retryable: what the upstream itself claims under the tunnel's names has no
/// effect.
pub proof fn law_retry_metadata_is_the_pylons_own(
    status: u16,
    response: HeaderContents,
    retry: PylonRetryConfig,
    now_unix_ns: u64,
)
    ensures
        ({
            let head = crate::tunnel_headers::with_passed(
                crate::tunnel_headers::own_response_contents(status, response, retry, now_unix_ns),
                response,
                retry,
                HeaderDirection::Response,
            );
            let retryable = crate::tunnel_headers::is_retryable(status, response, retry);
            &&& head.contains_key(HEADER_STARGATE_RETRYABLE@) == retryable
            &&& head.contains_key(HEADER_STARGATE_RETRY_REASON@) == retryable
            &&& retryable ==> head[HEADER_STARGATE_RETRYABLE@] == seq![crate::headers::ascii_bytes("true"@)]
            &&& head.contains_key(HEADER_STARGATE_RETRY_AFTER_MS@) ==> retryable && retry.propagate_retry_after
        }),
{
    reveal_strlit("x-stargate-retryable");
    reveal_strlit("x-stargate-retry-reason");
    reveal_strlit("x-stargate-retry-after-ms");
    assert(HEADER_STARGATE_RETRYABLE@.len() != HEADER_STARGATE_RETRY_REASON@.len());
    assert(HEADER_STARGATE_RETRYABLE@.len() != HEADER_STARGATE_RETRY_AFTER_MS@.len());
    assert(HEADER_STARGATE_RETRY_REASON@.len() != HEADER_STARGATE_RETRY_AFTER_MS@.len());
}

/// A Dynamo engine never sees the platform's own headers, and its priority
/// headers are never the caller's.
pub proof fn law_engine_sees_no_platform_metadata(
    request: HeaderContents,
    retry: PylonRetryConfig,
    priority: Option<u32>,
    ceiling: u32,
    health_request: bool,
    name: Seq<char>,
)
    requires
        crate::tunnel_backend::platform_metadata(name),
    ensures
        !crate::tunnel_headers::upstream_contents(
            request,
            retry,
            UpstreamBackend::Dynamo,
            priority,
            ceiling,
            health_request,
        ).contains_key(name),
{
    reveal_strlit("request-id");
    reveal_strlit("x-dynamo-request-id");
    reveal_strlit("x-model");
    reveal_strlit("x-routing-key");
    reveal_strlit("x-priority");
    reveal_strlit("x-dynamo-request-priority");
    reveal_strlit("x-dynamo-request-strict-priority");
    assert(name.len() < 20);
    assert(crate::tunnel_backend::HEADER_REQUEST_PRIORITY@.len() > 20);
    assert(crate::tunnel_backend::HEADER_REQUEST_STRICT_PRIORITY@.len() > 20);
}

/// The engine headers that reach the upstream are the pylon's, whatever the
/// caller sent: two requests that differ in them alone are sent on alike.
pub proof fn law_caller_cannot_set_engine_headers(
    request: HeaderContents,
    other: HeaderContents,
    retry: PylonRetryConfig,
    backend: UpstreamBackend,
    priority: Option<u32>,
    ceiling: u32,
    health_request: bool,
)
    requires
        forall|name: Seq<char>|
            !crate::tunnel_backend::engine_header(name) ==> (#[trigger] request.contains_key(name)
                == other.contains_key(name)),
        forall|name: Seq<char>|
            !crate::tunnel_backend::engine_header(name) && #[trigger] request.contains_key(name) ==> request[name]
                == other[name],
    ensures
        crate::tunnel_headers::upstream_contents(request, retry, backend, priority, ceiling, health_request)
            == crate::tunnel_headers::upstream_contents(other, retry, backend, priority, ceiling, health_request),
{
    let direction = HeaderDirection::Request(backend);
    let a = crate::tunnel_headers::with_passed(Map::empty(), request, retry, direction);
    let b = crate::tunnel_headers::with_passed(Map::empty(), other, retry, direction);
    assert(a =~= b);
}

/// The more urgent the rank, the higher the engine's priority; no rank is the
/// lowest; and every priority fits the engine's number.
pub proof fn law_engine_priority_follows_rank(rank: u32, other: u32, ceiling: u32)
    requires
        rank <= other,
    ensures
        crate::tunnel_backend::engine_priority(Some(rank), ceiling) >= crate::tunnel_backend::engine_priority(
            Some(other),
            ceiling,
        ),
        crate::tunnel_backend::engine_priority(Some(rank), ceiling) >= crate::tunnel_backend::engine_priority(
            None,
            ceiling,
        ),
        0 <= crate::tunnel_backend::engine_priority(Some(rank), ceiling) <= i32::MAX,
        crate::tunnel_backend::engine_priority(Some(rank), ceiling) <= ceiling,
{
}

} // verus!
