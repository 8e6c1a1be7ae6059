//! What is read from a tunnelled request and how it is judged, call by call.

use http::{HeaderMap, HeaderValue};
use vstd::prelude::*;

use crate::request_observation::{RequestObservationEndpoint, RequestObservationState, RequiredTunnelHeaders};
use crate::sse_stream::{event_boundary, SseBuffer};
use crate::tunnel_request::{
    check_stream_flag, extend_body_from_buf, health_probe_path_and_query, is_event_stream, is_health_request_path,
    join_base_path, next_body_len, otel_parent_from_headers, problem_details_body, quality_check_result_label,
    relay_sse_error, request_body_buffer, request_body_capacity, request_observation_endpoint, titled_problem,
    validate_request_body, validate_required_tunnel_headers, InvalidRequestBody, JoinBasePathError, ProblemDetails,
    QualityCheckOutcome, RequestBodyError, RequiredHeaderError, SseReadTimeoutPhase, UpstreamSseReadError,
};
use crate::upstream_health::{root_path, UpstreamHealthPaths};

verus! {

/// The path is what stands before the query.
pub open spec fn has_path(path_and_query: Seq<char>, path: Seq<char>) -> bool {
    ||| path_and_query == path && !path.contains('?')
    ||| !path.contains('?') && path.len() < path_and_query.len() && path_and_query[path.len() as int] == '?'
        && path_and_query.take(path.len() as int) == path
}

proof fn lemma_path(path_and_query: Seq<char>, path: Seq<char>)
    requires
        !path.contains('?'),
    ensures
        crate::text::before_first(path_and_query, '?') == path <==> has_path(path_and_query, path),
{
    let mark = '?';
    if has_path(path_and_query, path) && path_and_query != path {
        let at = path.len() as int;
        assert forall|i: int| 0 <= i < at implies path_and_query[i] != mark by {
            assert(path_and_query.take(at)[i] == path_and_query[i]);
            assert(path.contains(path[i]));
        }
        assert(crate::text::first_place(path_and_query, mark, at));
        crate::text::lemma_split_first(path_and_query, mark, at);
        assert(path_and_query.take(at) =~= path);
    }
    if exists|at: int| crate::text::first_place(path_and_query, mark, at) {
        let at = choose|at: int| crate::text::first_place(path_and_query, mark, at);
        crate::text::lemma_split_first(path_and_query, mark, at);
        assert(path_and_query.take(at).len() == at);
        assert(path_and_query.contains(path_and_query[at]));
    }
}

/// A request is followed as one for chat, responses or embeddings exactly where
/// it posts to that path, with any query; and it asks for the health of the
/// server under one path alone.
pub proof fn law_endpoints_are_told_by_path(
    method: &str,
    path_and_query: &str,
    endpoint: Option<RequestObservationEndpoint>,
    health: bool,
)
    requires
        call_ensures(request_observation_endpoint, (method, path_and_query), endpoint),
        call_ensures(is_health_request_path, (path_and_query,), health),
    ensures
        endpoint == Some(RequestObservationEndpoint::ChatCompletions) <==> method@ == "POST"@ && has_path(
            path_and_query@,
            "/v1/chat/completions"@,
        ),
        endpoint == Some(RequestObservationEndpoint::Responses) <==> method@ == "POST"@ && has_path(
            path_and_query@,
            "/v1/responses"@,
        ),
        endpoint == Some(RequestObservationEndpoint::Embeddings) <==> method@ == "POST"@ && has_path(
            path_and_query@,
            "/v1/embeddings"@,
        ),
        health <==> has_path(path_and_query@, "/health"@),
{
    reveal_strlit("/v1/chat/completions");
    reveal_strlit("/v1/responses");
    reveal_strlit("/v1/embeddings");
    reveal_strlit("/health");
    assert("/v1/chat/completions"@.len() == 20);
    assert("/v1/responses"@.len() == 13);
    assert("/v1/embeddings"@.len() == 14);
    lemma_path(path_and_query@, "/v1/chat/completions"@);
    lemma_path(path_and_query@, "/v1/responses"@);
    lemma_path(path_and_query@, "/v1/embeddings"@);
    lemma_path(path_and_query@, "/health"@);
}

/// A health request keeps its query and goes to the path at which the upstream
/// answers, or is asked first.
pub proof fn law_health_request_keeps_its_query(
    paths: UpstreamHealthPaths,
    path_and_query: &str,
    path: String,
    probe: &str,
    head: Seq<char>,
    query: Seq<char>,
)
    requires
        paths.wf(),
        call_ensures(health_probe_path_and_query, (&paths, path_and_query), path),
        call_ensures(UpstreamHealthPaths::probe_path, (&paths,), probe),
        !head.contains('?'),
    ensures
        path_and_query@ == head ==> path@ == probe@,
        path_and_query@ == head.push('?') + query ==> path@ == probe@ + "?"@ + query,
        path@.len() >= probe@.len() && path@.take(probe@.len() as int) == probe@,
{
    let text = path_and_query@;
    if text == head.push('?') + query {
        let at = head.len() as int;
        assert forall|i: int| 0 <= i < at implies text[i] != '?' by {
            assert(text[i] == head[i]);
            assert(head.contains(head[i]));
        }
        assert(crate::text::first_place(text, '?', at));
        crate::text::lemma_split_first(text, '?', at);
        assert(text.skip(at + 1) =~= query);
    } else if text == head {
        if exists|at: int| crate::text::first_place(text, '?', at) {
            let at = choose|at: int| crate::text::first_place(text, '?', at);
            assert(head.contains(head[at]));
        }
    }
    assert(path@.take(probe@.len() as int) =~= probe@);
}

/// A path is read from the root of the server.
pub proof fn law_paths_start_at_the_root(path: &str, root: String)
    requires
        call_ensures(root_path, (path,), root),
    ensures
        root@.len() > 0 && root@[0] == '/',
        path@.len() > 0 && path@[0] == '/' ==> root@ == path@,
        path@.len() == 0 || path@[0] != '/' ==> root@.skip(1) == path@,
{
    if !(path@.len() > 0 && path@[0] == '/') {
        assert(root@.skip(1) =~= path@);
    }
}

/// A body may grow to the limit and no further. One that declares more is
/// refused before it is read, and never reserves more than a little.
pub proof fn law_bodies_stay_within_the_limit(
    current: usize,
    chunk: usize,
    limit: usize,
    next: Result<usize, RequestBodyError>,
    headers: HeaderMap<HeaderValue>,
    capacity: Result<Option<usize>, RequestBodyError>,
    buffer: Result<Vec<u8>, RequestBodyError>,
    declared: usize,
    name: Seq<char>,
)
    requires
        call_ensures(next_body_len, (current, chunk, limit), next),
        call_ensures(request_body_capacity, (&headers, limit), capacity),
        call_ensures(request_body_buffer, (&headers, limit), buffer),
        name == "content-length"@,
    ensures
        next is Ok <==> current + chunk <= limit,
        next matches Ok(next) ==> next == current + chunk,
        next matches Err(error) ==> (error is LengthOverflowed <==> current + chunk > usize::MAX),
        ({
            let contents = crate::headers::header_contents(headers);
            let says = contents.contains_key(name) && crate::headers::value_text(contents[name][0]) is Some
                && crate::text::trimmed(crate::headers::value_text(contents[name][0])->0)
                == crate::text::decimal_text(declared as nat);
            &&& !contents.contains_key(name) ==> capacity == Ok::<Option<usize>, RequestBodyError>(None)
                && buffer is Ok
            &&& says && declared > limit ==> capacity == Err::<Option<usize>, RequestBodyError>(
                RequestBodyError::TooLarge,
            ) && buffer is Err && buffer->Err_0 is TooLarge
            &&& says && declared <= limit && declared <= 65_536 ==> capacity == Ok::<Option<usize>, RequestBodyError>(
                Some(declared),
            )
            &&& says && declared <= limit && declared > 65_536 ==> capacity == Ok::<Option<usize>, RequestBodyError>(
                Some(65_536usize),
            )
            &&& says && declared <= limit ==> buffer is Ok
        }),
        buffer matches Ok(buffer) ==> buffer@.len() == 0,
{
    reveal_strlit("content-length");
    crate::text::lemma_decimal_round_trip(declared as nat);
    assert(crate::headers::valid_name("content-length"@));
}

/// A chunk is taken in whole, behind what has come.
pub proof fn law_chunks_are_taken_in_order(body: &mut Vec<u8>, chunk: &mut bytes::Bytes, out: ())
    requires
        call_ensures(extend_body_from_buf, (body, chunk), out),
    ensures
        final(body)@.len() == old(body)@.len() + crate::tunnel_request::bytes_left(*old(chunk)).len(),
        final(body)@.take(old(body)@.len() as int) == old(body)@,
        final(body)@.skip(old(body)@.len() as int) == crate::tunnel_request::bytes_left(*old(chunk)),
        crate::tunnel_request::bytes_left(*final(chunk)).len() == 0,
{
    assert(final(body)@.take(old(body)@.len() as int) =~= old(body)@);
    assert(final(body)@.skip(old(body)@.len() as int) =~= crate::tunnel_request::bytes_left(*old(chunk)));
}

/// A body is refused where it is no JSON document, and where it is for generated
/// text and does not ask for a stream; any other is taken.
pub proof fn law_generated_text_must_stream(
    endpoint: Option<RequestObservationEndpoint>,
    stream: Option<Option<bool>>,
    checked: Result<(), InvalidRequestBody>,
    body: &[u8],
    validated: Result<(), InvalidRequestBody>,
)
    requires
        call_ensures(check_stream_flag, (endpoint, stream), checked),
        crate::tunnel_request::nested_within_limit(body@),
        call_ensures(validate_request_body, (endpoint, body), validated),
        stream == crate::tunnel_request::json_flag(body@, "stream"@),
    ensures
        validated is Ok <==> checked is Ok,
        validated is Err ==> validated == checked,
        checked == Err::<(), InvalidRequestBody>(InvalidRequestBody::NotJson) <==> stream is None,
        checked == Err::<(), InvalidRequestBody>(InvalidRequestBody::ChatCompletionsMustStream) <==> {
            &&& stream is Some && stream->0 != Some(true)
            &&& endpoint == Some(RequestObservationEndpoint::ChatCompletions)
        },
        checked == Err::<(), InvalidRequestBody>(InvalidRequestBody::ResponsesMustStream) <==> {
            &&& stream is Some && stream->0 != Some(true)
            &&& endpoint == Some(RequestObservationEndpoint::Responses)
        },
        stream == Some(Some(true)) ==> checked is Ok,
        stream is Some && (endpoint is None || endpoint->0 is Embeddings) ==> checked is Ok,
{
}

/// The text in a header without the white space around it.
pub open spec fn written(contents: crate::headers::HeaderContents, name: Seq<char>) -> Seq<char> {
    if contents.contains_key(name) && crate::headers::value_text(contents[name][0]) is Some {
        crate::text::trimmed(crate::headers::value_text(contents[name][0])->0)
    } else {
        Seq::empty()
    }
}

/// A request is taken with the identity, model, key, tokens and priority that
/// are written in its headers. It is refused for the first of identity, model
/// and tokens that is not there, and for tokens that are no number; a priority
/// that is no number is none.
pub proof fn law_required_headers_are_read_as_written(
    headers: HeaderMap<HeaderValue>,
    accepted_at: u64,
    required: Result<RequiredTunnelHeaders, RequiredHeaderError>,
    tokens: u64,
    priority: u32,
)
    requires
        call_ensures(validate_required_tunnel_headers, (&headers, accepted_at), required),
    ensures
        ({
            let contents = crate::headers::header_contents(headers);
            let id = written(contents, "x-request-id"@);
            let model = written(contents, "x-model"@);
            let input = written(contents, "x-input-tokens"@);
            let rank = written(contents, "x-priority"@);
            let key = written(contents, "x-routing-key"@);
            &&& required == Err::<RequiredTunnelHeaders, RequiredHeaderError>(RequiredHeaderError::MissingRequestId)
                <==> id.len() == 0
            &&& required == Err::<RequiredTunnelHeaders, RequiredHeaderError>(RequiredHeaderError::MissingModel)
                <==> id.len() > 0 && model.len() == 0
            &&& required == Err::<RequiredTunnelHeaders, RequiredHeaderError>(RequiredHeaderError::MissingInputTokens)
                <==> id.len() > 0 && model.len() > 0 && input.len() == 0
            &&& id.len() > 0 && model.len() > 0 && input == crate::text::decimal_text(tokens as nat) ==> required is Ok
                && required->Ok_0.input_tokens == tokens
            &&& required matches Ok(required) ==> {
                &&& required.request_id@ == id
                &&& required.model_id@ == model
                &&& required.accepted_at == accepted_at
                &&& required.routing_key is Some <==> key.len() > 0
                &&& required.routing_key is Some ==> required.routing_key->0@ == key
                &&& rank == crate::text::decimal_text(priority as nat) ==> required.priority == Some(priority)
                &&& rank.len() == 0 ==> required.priority is None
            }
        }),
{
    crate::tunnel_contract::lemma_header_names();
    crate::text::lemma_decimal_round_trip(tokens as nat);
    crate::text::lemma_decimal_round_trip(priority as nat);
    let contents = crate::headers::header_contents(headers);
    lemma_filled(contents, "x-request-id"@);
    lemma_filled(contents, "x-model"@);
    lemma_filled(contents, "x-input-tokens"@);
    lemma_filled(contents, "x-priority"@);
    lemma_filled(contents, "x-routing-key"@);
}

proof fn lemma_filled(contents: crate::headers::HeaderContents, name: Seq<char>)
    requires
        crate::tunnel_contract::canonical(name),
    ensures
        crate::tunnel_request::filled_text(contents, name) == (if written(contents, name).len() > 0 {
            Some(written(contents, name))
        } else {
            None
        }),
{
}

/// A URL is the one that the reference from the root of the server stands for.
pub proof fn law_upstream_url_is_joined_at_the_root(
    base: &str,
    path_and_query: &str,
    joined: Result<String, JoinBasePathError>,
    root: String,
)
    requires
        call_ensures(join_base_path, (base, path_and_query), joined),
        call_ensures(root_path, (path_and_query,), root),
    ensures
        joined matches Ok(joined) ==> crate::tunnel_request::joined_url(base@, root@) == Some(joined@),
        joined == Err::<String, JoinBasePathError>(JoinBasePathError::InvalidBase)
            <==> crate::tunnel_request::parsed_url(base@) is None,
        joined is Ok <==> crate::tunnel_request::parsed_url(base@) is Some && crate::tunnel_request::joined_url(
            base@,
            root@,
        ) is Some,
{
}

/// A problem report says its status, the standard phrase of it and the detail.
pub proof fn law_problem_reports_say_status_and_detail(
    status: u16,
    phrase: Option<String>,
    detail: &str,
    titled: ProblemDetails,
    problem: ProblemDetails,
    json: String,
)
    requires
        call_ensures(titled_problem, (status, phrase, detail), titled),
        call_ensures(problem_details_body, (status, detail), problem),
        call_ensures(ProblemDetails::json, (&problem,), json),
    ensures
        titled.status == status && titled.detail@ == detail@ && titled.problem_type@ == "about:blank"@,
        phrase is Some ==> titled.title@ == phrase->0@,
        phrase is None ==> titled.title@ == "Error"@,
        problem.status == status && problem.detail@ == detail@ && problem.problem_type@ == "about:blank"@,
        crate::tunnel_request::status_phrase(status) is Some ==> Some(problem.title@)
            == crate::tunnel_request::status_phrase(status),
        crate::tunnel_request::status_phrase(status) is None ==> problem.title@ == "Error"@,
        json@ == "{\"detail\":"@ + crate::json_text::quoted(detail@) + ",\"status\":"@ + crate::text::decimal_text(
            status as nat,
        ) + ",\"title\":"@ + crate::json_text::quoted(problem.title@) + ",\"type\":"@ + crate::json_text::quoted(
            "about:blank"@,
        ) + "}"@,
{
}

/// What each refusal says.
pub proof fn law_refusals_say_what_is_missing(
    error: RequiredHeaderError,
    message: &'static str,
    body: InvalidRequestBody,
    body_message: &'static str,
    length: RequestBodyError,
    length_message: &'static str,
    join: JoinBasePathError,
    join_message: &'static str,
)
    requires
        call_ensures(RequiredHeaderError::message, (error,), message),
        call_ensures(InvalidRequestBody::message, (body,), body_message),
        call_ensures(RequestBodyError::message, (length,), length_message),
        call_ensures(JoinBasePathError::message, (join,), join_message),
    ensures
        error is MissingRequestId ==> message@ == "missing required x-request-id header"@,
        error is MissingModel ==> message@ == "missing required x-model header"@,
        error is MissingInputTokens ==> message@ == "missing required x-input-tokens header"@,
        error is InvalidInputTokens ==> message@ == "invalid x-input-tokens header"@,
        body is NotJson ==> body_message@ == "request body must be valid JSON"@,
        body is ChatCompletionsMustStream ==> body_message@ == "/v1/chat/completions requests must set stream=true"@,
        body is ResponsesMustStream ==> body_message@ == "/v1/responses requests must set stream=true"@,
        length is TooLarge ==> length_message@ == "request body too large"@,
        length is LengthOverflowed ==> length_message@ == "request body length overflowed"@,
        join is InvalidBase ==> join_message@ == "invalid upstream_http_base_url"@,
        join is JoinFailed ==> join_message@ == "join upstream path failed"@,
{
}

/// What a reader of a broken stream is told, and how a quality check is named.
pub proof fn law_broken_streams_say_why(
    error: UpstreamSseReadError,
    text: String,
    outcome: QualityCheckOutcome,
    label: &'static str,
)
    requires
        call_ensures(relay_sse_error, (&error,), text),
        call_ensures(quality_check_result_label, (outcome,), label),
    ensures
        error == UpstreamSseReadError::Timeout(SseReadTimeoutPhase::FirstOutput) ==> text@
            == "timed out waiting for "@ + "first"@ + " output event from upstream"@,
        error == UpstreamSseReadError::Timeout(SseReadTimeoutPhase::SubsequentOutput) ==> text@
            == "timed out waiting for "@ + "subsequent"@ + " output event from upstream"@,
        error matches UpstreamSseReadError::BufferLimitExceeded { max_buffer_bytes, buffered_bytes } ==> text@
            == "upstream SSE buffer exceeded "@ + crate::text::decimal_text(max_buffer_bytes as nat)
            + " bytes while waiting for an event boundary (buffered "@ + crate::text::decimal_text(
            buffered_bytes as nat,
        ) + " bytes)"@,
        error is Upstream ==> text@ == "failed to read upstream response message"@,
        !outcome.evaluated ==> label@ == "skipped"@,
        outcome.evaluated && outcome.threshold_matched ==> label@ == "matched"@,
        outcome.evaluated && !outcome.threshold_matched ==> label@ == "clean"@,
{
}

/// A response is a stream of events where its type begins so; and a request's
/// trace is the one that its header names.
pub proof fn law_headers_tell_stream_and_trace(
    headers: HeaderMap<HeaderValue>,
    stream: bool,
    parent: Option<String>,
)
    requires
        call_ensures(is_event_stream, (&headers,), stream),
        call_ensures(otel_parent_from_headers, (&headers,), parent),
    ensures
        ({
            let contents = crate::headers::header_contents(headers);
            let kind = crate::headers::value_text(contents["content-type"@][0]);
            let trace = crate::headers::value_text(contents["traceparent"@][0]);
            &&& stream <==> contents.contains_key("content-type"@) && kind is Some && kind->0.len() >= 17
                && kind->0.take(17) == "text/event-stream"@
            &&& parent is Some <==> contents.contains_key("traceparent"@) && trace is Some
            &&& parent is Some ==> parent->0@ == trace->0
        }),
{
    reveal_strlit("content-type");
    reveal_strlit("traceparent");
    reveal_strlit("text/event-stream");
    assert(crate::headers::valid_name("content-type"@));
    assert(crate::headers::valid_name("traceparent"@));
    assert("text/event-stream"@.len() == 17);
    let contents = crate::headers::header_contents(headers);
    let kind = crate::headers::value_text(contents["content-type"@][0]);
    if kind is Some && kind->0.len() >= 17 {
        assert(kind->0.subrange(0, 17) =~= kind->0.take(17));
    }
}

/// What was taken from a stream and what is left make up what came, in order.
/// An event ends with its first empty line: no shorter beginning has one. It is
/// no longer than the limit; a longer one, finished or not, is refused with the
/// limit and with how much has come.
pub proof fn law_events_make_up_the_stream(
    buffer: &mut SseBuffer,
    event: Result<Option<Vec<u8>>, UpstreamSseReadError>,
    bytes: &[u8],
    boundary: Option<usize>,
    i: int,
)
    requires
        bytes@ == buffer.bytes(),
        call_ensures(event_boundary, (bytes,), boundary),
        call_ensures(SseBuffer::next_event, (buffer,), event),
    ensures
        event matches Ok(Some(event)) ==> {
            &&& old(buffer).bytes() == event@ + final(buffer).bytes()
            &&& 2 <= event@.len() <= old(buffer).max_buffer_bytes()
            &&& event@.last() == 10
            &&& event@[event@.len() - 2] == 10 || event@.len() >= 3 && event@[event@.len() - 2] == 13
                && event@[event@.len() - 3] == 10
            &&& 0 <= i < event@.len() - 2 && event@[i] == 10 ==> event@[i + 1] != 10
            &&& 0 <= i < event@.len() - 3 && event@[i] == 10 && event@[i + 1] == 13 ==> event@[i + 2] != 10
            &&& boundary == Some(event@.len() as usize)
        },
        event matches Ok(None) ==> {
            &&& final(buffer).bytes() == old(buffer).bytes()
            &&& old(buffer).bytes().len() <= old(buffer).max_buffer_bytes()
            &&& 0 <= i < old(buffer).bytes().len() - 1 && old(buffer).bytes()[i] == 10 ==> old(buffer).bytes()[i + 1]
                != 10
            &&& 0 <= i < old(buffer).bytes().len() - 2 && old(buffer).bytes()[i] == 10 && old(buffer).bytes()[i + 1]
                == 13 ==> old(buffer).bytes()[i + 2] != 10
        },
        event matches Err(error) ==> {
            &&& error == (UpstreamSseReadError::BufferLimitExceeded {
                max_buffer_bytes: old(buffer).max_buffer_bytes(),
                buffered_bytes: old(buffer).bytes().len() as usize,
            })
            &&& old(buffer).bytes().len() > old(buffer).max_buffer_bytes()
            &&& boundary matches Some(boundary) ==> boundary > old(buffer).max_buffer_bytes()
        },
        boundary matches Some(boundary) ==> (event is Err <==> boundary > old(buffer).max_buffer_bytes()),
        boundary is None ==> (event is Err <==> old(buffer).bytes().len() > old(buffer).max_buffer_bytes()),
{
    let bytes = old(buffer).bytes();
    assert forall|a: int, b: int| crate::sse_stream::first_event(bytes, a) && crate::sse_stream::first_event(bytes, b)
        implies a == b by {
        let i = choose|i: int| #[trigger]
            crate::sse_stream::blank_line_after(bytes, i) && a == crate::sse_stream::blank_line_end(bytes, i)
                && forall|j: int| 0 <= j < i ==> !#[trigger] crate::sse_stream::blank_line_after(bytes, j);
        let k = choose|k: int| #[trigger]
            crate::sse_stream::blank_line_after(bytes, k) && b == crate::sse_stream::blank_line_end(bytes, k)
                && forall|j: int| 0 <= j < k ==> !#[trigger] crate::sse_stream::blank_line_after(bytes, j);
        assert(i == k);
    }
    if let Ok(Some(event)) = event {
        let end = choose|end: int| #[trigger]
            crate::sse_stream::blank_line_after(bytes, end) && event@.len() == crate::sse_stream::blank_line_end(
                bytes,
                end,
            ) && forall|j: int| 0 <= j < end ==> !#[trigger] crate::sse_stream::blank_line_after(bytes, j);
        assert forall|j: int| 0 <= j < event@.len() implies event@[j] == bytes[j] by {}
        if 0 <= i < event@.len() - 2 && event@[i] == 10 {
            if i < end {
                assert(!crate::sse_stream::blank_line_after(bytes, i));
            }
        }
    } else if let Ok(None) = event {
        assert(!crate::sse_stream::blank_line_after(bytes, i));
    } else {
        if crate::sse_stream::no_event(bytes) {
        } else {
            let len = choose|len: int| #[trigger]
                crate::sse_stream::first_event(bytes, len) && len > old(buffer).max_buffer_bytes();
            let k = choose|k: int| #[trigger]
                crate::sse_stream::blank_line_after(bytes, k) && len == crate::sse_stream::blank_line_end(bytes, k)
                    && forall|j: int| 0 <= j < k ==> !#[trigger] crate::sse_stream::blank_line_after(bytes, j);
            assert(len <= bytes.len());
        }
    }
}

/// A stream starts empty, takes chunks in behind what is there, and leaves all
/// that was not handed on.
pub proof fn law_streams_keep_what_came(
    limit: usize,
    fresh: SseBuffer,
    buffer: &mut SseBuffer,
    chunk: &mut bytes::Bytes,
    out: (),
    ended: SseBuffer,
    rest: Vec<u8>,
)
    requires
        call_ensures(SseBuffer::new, (limit,), fresh),
        call_ensures(SseBuffer::extend, (buffer, chunk), out),
        call_ensures(SseBuffer::remainder, (ended,), rest),
    ensures
        fresh.bytes().len() == 0 && fresh.max_buffer_bytes() == limit,
        final(buffer).bytes() == old(buffer).bytes() + crate::tunnel_request::bytes_left(*old(chunk)),
        final(buffer).max_buffer_bytes() == old(buffer).max_buffer_bytes(),
        rest@ == ended.bytes(),
{
}

/// A request has ended where it is complete or has failed, and nowhere else.
pub proof fn law_requests_end_complete_or_failed(state: RequestObservationState, terminal: bool)
    requires
        call_ensures(RequestObservationState::is_terminal, (state,), terminal),
    ensures
        terminal <==> state is Complete || state is Failed,
{
}

/// A request without a priority queues as the most urgent.
pub proof fn law_no_priority_is_the_most_urgent(required: RequiredTunnelHeaders, priority: u32)
    requires
        call_ensures(RequiredTunnelHeaders::queue_priority, (&required,), priority),
    ensures
        required.priority is None ==> priority == 0,
        required.priority is Some ==> priority == required.priority->0,
{
}

} // verus!
