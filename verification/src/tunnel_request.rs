//! What a tunnelled request asks for, and whether it may be forwarded.

use http::{HeaderMap, HeaderValue};
use sonic_rs::JsonValueTrait;
use vstd::prelude::*;

use crate::headers::header_text;
use crate::request_observation::{RequestObservationEndpoint, RequiredTunnelHeaders};
use crate::json_text::json_string;
use crate::text::{
    decimal, join_texts, parse_decimal, parse_trimmed_decimal, same_text, split_once, starts_with_text,
    text_before_first, trim,
};
use crate::tunnel_contract::{
    HEADER_INPUT_TOKENS, HEADER_MODEL, HEADER_PRIORITY, HEADER_REQUEST_ID, HEADER_ROUTING_KEY,
};
use crate::upstream_health::{root_path, UpstreamHealthPaths};

verus! {

pub const DEFAULT_MAX_BODY_BYTES: usize = 67_108_864;

/// The bound on one upstream event that waits for its end; a missing delimiter
/// then cannot make the pylon keep bytes without limit.
pub const DEFAULT_MAX_SSE_BUFFER_BYTES: usize = 1_048_576;
pub const DEFAULT_FIRST_OUTPUT_TIMEOUT: u64 = 30_000_000_000;
pub const DEFAULT_OUTPUT_CHUNK_TIMEOUT: u64 = 30_000_000_000;
pub const MAX_SPECULATIVE_REQUEST_BODY_PREALLOC_BYTES: usize = 65_536;

/// The request asks for the health of the server.
pub fn is_health_request_path(path_and_query: &str) -> (health: bool)
    ensures
        health == (crate::text::before_first(path_and_query@, '?') == "/health"@),
{
    same_text(text_before_first(path_and_query, '?').as_str(), "/health")
}

/// The path of a health probe with the query of the request.
pub open spec fn probe_with_query(probe_path: Seq<char>, path_and_query: Seq<char>) -> Seq<char> {
    match crate::text::split_first(path_and_query, '?') {
        Some((_, query)) => probe_path + "?"@ + query,
        None => probe_path,
    }
}

/// Where a health request goes: to the path at which the upstream answers.
pub fn health_probe_path_and_query(health_paths: &UpstreamHealthPaths, path_and_query: &str) -> (path: String)
    requires
        health_paths.wf(),
    ensures
        path@ == probe_with_query(
            health_paths.candidates()[match health_paths.resolved() {
                Some(index) => index as int,
                None => 0,
            }],
            path_and_query@,
        ),
{
    let probe_path = health_paths.probe_path();
    match split_once(path_and_query, '?') {
        Some((_, query)) => {
            let head = join_texts(probe_path, "?");
            join_texts(head.as_str(), query.as_str())
        },
        None => probe_path.to_string(),
    }
}

pub open spec fn observed_endpoint(method: Seq<char>, path_and_query: Seq<char>) -> Option<
    RequestObservationEndpoint,
> {
    let path = crate::text::before_first(path_and_query, '?');
    if method != "POST"@ {
        None
    } else if path == "/v1/chat/completions"@ {
        Some(RequestObservationEndpoint::ChatCompletions)
    } else if path == "/v1/responses"@ {
        Some(RequestObservationEndpoint::Responses)
    } else if path == "/v1/embeddings"@ {
        Some(RequestObservationEndpoint::Embeddings)
    } else {
        None
    }
}

/// The generation endpoint that a request is for.
pub fn request_observation_endpoint(method: &str, path_and_query: &str) -> (endpoint: Option<
    RequestObservationEndpoint,
>)
    ensures
        endpoint == observed_endpoint(method@, path_and_query@),
{
    if !same_text(method, "POST") {
        return None;
    }
    let path = text_before_first(path_and_query, '?');
    let path = path.as_str();
    if same_text(path, "/v1/chat/completions") {
        Some(RequestObservationEndpoint::ChatCompletions)
    } else if same_text(path, "/v1/responses") {
        Some(RequestObservationEndpoint::Responses)
    } else if same_text(path, "/v1/embeddings") {
        Some(RequestObservationEndpoint::Embeddings)
    } else {
        None
    }
}

/// Why a request body cannot be taken in.
#[derive(Clone, Copy, Debug, PartialEq, Eq, Structural)]
pub enum RequestBodyError {
    TooLarge,
    LengthOverflowed,
}

impl RequestBodyError {
    pub fn message(self) -> (message: &'static str)
        ensures
            message@ == (match self {
                RequestBodyError::TooLarge => "request body too large"@,
                RequestBodyError::LengthOverflowed => "request body length overflowed"@,
            }),
    {
        match self {
            RequestBodyError::TooLarge => "request body too large",
            RequestBodyError::LengthOverflowed => "request body length overflowed",
        }
    }
}

/// The length that the headers declare.
pub open spec fn declared_length(contents: crate::headers::HeaderContents) -> Option<nat> {
    match crate::headers::first_text(contents, "content-length"@) {
        Some(text) => crate::text::decimal_at_most(crate::text::trimmed(text), usize::MAX as nat),
        None => None,
    }
}

/// How much room to make for a body up front: what it declares, but no more
/// than a little, so that a long declared body cannot reserve much by its
/// declaration alone. A body that declares more than is allowed is refused.
pub fn request_body_capacity(request_headers: &HeaderMap<HeaderValue>, max_request_body_bytes: usize) -> (capacity:
    Result<Option<usize>, RequestBodyError>)
    ensures
        match declared_length(crate::headers::header_contents(*request_headers)) {
            None => capacity == Ok::<Option<usize>, RequestBodyError>(None),
            Some(length) => if length > max_request_body_bytes {
                capacity == Err::<Option<usize>, RequestBodyError>(RequestBodyError::TooLarge)
            } else if length < MAX_SPECULATIVE_REQUEST_BODY_PREALLOC_BYTES {
                capacity == Ok::<Option<usize>, RequestBodyError>(Some(length as usize))
            } else {
                capacity == Ok::<Option<usize>, RequestBodyError>(
                    Some(MAX_SPECULATIVE_REQUEST_BODY_PREALLOC_BYTES),
                )
            },
        },
{
    proof {
        reveal_strlit("content-length");
        crate::tunnel_contract::lemma_name_chars_canonical("content-length"@);
    }
    let declared = match header_text(request_headers, "content-length") {
        Some(text) => parse_trimmed_decimal(text.as_str(), usize::MAX as u64),
        None => None,
    };
    match declared {
        None => Ok(None),
        Some(length) => {
            if length > max_request_body_bytes as u64 {
                return Err(RequestBodyError::TooLarge);
            }
            if length < MAX_SPECULATIVE_REQUEST_BODY_PREALLOC_BYTES as u64 {
                Ok(Some(length as usize))
            } else {
                Ok(Some(MAX_SPECULATIVE_REQUEST_BODY_PREALLOC_BYTES))
            }
        },
    }
}

/// The empty buffer that a body is read into.
pub fn request_body_buffer(request_headers: &HeaderMap<HeaderValue>, max_request_body_bytes: usize) -> (buffer: Result<
    Vec<u8>,
    RequestBodyError,
>)
    ensures
        match buffer {
            Ok(buffer) => {
                &&& buffer@.len() == 0
                &&& declared_length(crate::headers::header_contents(*request_headers)) matches Some(length) ==> length
                    <= max_request_body_bytes
            },
            Err(error) => {
                &&& error is TooLarge
                &&& declared_length(crate::headers::header_contents(*request_headers)) matches Some(length) && length
                    > max_request_body_bytes
            },
        },
{
    match request_body_capacity(request_headers, max_request_body_bytes) {
        Ok(Some(capacity)) => Ok(Vec::with_capacity(capacity)),
        Ok(None) => Ok(Vec::new()),
        Err(error) => Err(error),
    }
}

/// The length of a body once another chunk has come.
pub fn next_body_len(current: usize, chunk_len: usize, max_request_body_bytes: usize) -> (next: Result<
    usize,
    RequestBodyError,
>)
    ensures
        if current + chunk_len > usize::MAX {
            next == Err::<usize, RequestBodyError>(RequestBodyError::LengthOverflowed)
        } else if current + chunk_len > max_request_body_bytes {
            next == Err::<usize, RequestBodyError>(RequestBodyError::TooLarge)
        } else {
            next == Ok::<usize, RequestBodyError>((current + chunk_len) as usize)
        },
{
    match current.checked_add(chunk_len) {
        Some(next) => if next > max_request_body_bytes {
            Err(RequestBodyError::TooLarge)
        } else {
            Ok(next)
        },
        None => Err(RequestBodyError::LengthOverflowed),
    }
}

/// A piece of a body, in the buffer type of the `bytes` crate.
#[verifier::external_type_specification]
#[verifier::external_body]
pub struct ExBytes(bytes::Bytes);

/// The bytes that are left in a buffer.
pub uninterp spec fn bytes_left(buffer: bytes::Bytes) -> Seq<u8>;

/// `BufMut::put` on a vector appends all that is left in a buffer and leaves
/// nothing in it.
#[verifier::external_body]
fn put_bytes(body: &mut Vec<u8>, chunk: &mut bytes::Bytes)
    ensures
        final(body)@ == old(body)@ + bytes_left(*old(chunk)),
        bytes_left(*final(chunk)) == Seq::<u8>::empty(),
{
    bytes::BufMut::put(body, chunk);
}

/// Appends a chunk to a body and uses it up.
pub fn extend_body_from_buf(body_bytes: &mut Vec<u8>, chunk: &mut bytes::Bytes)
    ensures
        final(body_bytes)@ == old(body_bytes)@ + bytes_left(*old(chunk)),
        bytes_left(*final(chunk)).len() == 0,
{
    put_bytes(body_bytes, chunk);
}

pub const BACKSLASH: u8 = 92;
pub const QUOTE: u8 = 34;
pub const OPEN_BRACE: u8 = 123;
pub const CLOSE_BRACE: u8 = 125;
pub const OPEN_BRACKET: u8 = 91;
pub const CLOSE_BRACKET: u8 = 93;
pub const SPACE: u8 = 32;
pub const TAB: u8 = 9;
pub const LINE_FEED: u8 = 10;
pub const CARRIAGE_RETURN: u8 = 13;

/// Where in a JSON document a byte stands.
#[derive(Clone, Copy, Debug, PartialEq, Eq, Structural)]
pub enum DocumentPlace {
    Outside,
    InString,
    /// In a string, behind a backslash.
    Escaped,
    /// Behind the document, or in a document that is neither an object nor an
    /// array nor a string.
    Ended,
}

/// The place behind a value that is inside so many brackets.
pub open spec fn outside(open: nat) -> DocumentPlace {
    if open == 0 {
        DocumentPlace::Ended
    } else {
        DocumentPlace::Outside
    }
}

/// How many brackets are open behind the first bytes of a body, and where in
/// the document that is. Nothing behind the document counts.
pub open spec fn nesting(body: Seq<u8>, bytes: nat) -> (nat, DocumentPlace)
    decreases bytes,
{
    if bytes == 0 {
        (0, DocumentPlace::Outside)
    } else {
        let (open, place) = nesting(body, (bytes - 1) as nat);
        let b = body[bytes - 1];
        match place {
            DocumentPlace::Ended => (open, DocumentPlace::Ended),
            DocumentPlace::Escaped => (open, DocumentPlace::InString),
            DocumentPlace::InString => if b == BACKSLASH {
                (open, DocumentPlace::Escaped)
            } else if b == QUOTE {
                (open, outside(open))
            } else {
                (open, DocumentPlace::InString)
            },
            DocumentPlace::Outside => if b == QUOTE {
                (open, DocumentPlace::InString)
            } else if b == OPEN_BRACE || b == OPEN_BRACKET {
                (open + 1, DocumentPlace::Outside)
            } else if open > 0 && (b == CLOSE_BRACE || b == CLOSE_BRACKET) {
                ((open - 1) as nat, outside((open - 1) as nat))
            } else if b == SPACE || b == TAB || b == LINE_FEED || b == CARRIAGE_RETURN {
                (open, DocumentPlace::Outside)
            } else {
                (open, outside(open))
            },
        }
    }
}

/// So many brackets can be open at once in a body that is read: a reader that
/// calls itself for each of them still fits the stack of a small thread.
pub const MAX_BODY_NESTING: usize = 1024;

/// At no place of the document are more brackets open than can be read.
pub open spec fn nested_within_limit(body: Seq<u8>) -> bool {
    forall|bytes: nat| bytes <= body.len() ==> (#[trigger] nesting(body, bytes)).0 <= MAX_BODY_NESTING
}

fn place_outside(open: usize) -> (place: DocumentPlace)
    ensures
        place == outside(open as nat),
{
    if open == 0 {
        DocumentPlace::Ended
    } else {
        DocumentPlace::Outside
    }
}

/// Whether the brackets of a body are nested no deeper than can be read. A body
/// must be tested before it is handed on to be validated.
pub fn is_nested_within_limit(body: &[u8]) -> (within: bool)
    ensures
        within == nested_within_limit(body@),
{
    let mut open: usize = 0;
    let mut place = DocumentPlace::Outside;
    let mut i: usize = 0;
    while i < body.len()
        invariant
            i <= body.len(),
            nesting(body@, i as nat) == (open as nat, place),
            open <= MAX_BODY_NESTING,
            forall|bytes: nat| bytes <= i ==> (#[trigger] nesting(body@, bytes)).0 <= MAX_BODY_NESTING,
        decreases body.len() - i,
    {
        let b: u8 = body[i];
        proof {
            assert(nesting(body@, (i + 1) as nat).0 <= open + 1);
        }
        match place {
            DocumentPlace::Ended => {},
            DocumentPlace::Escaped => {
                place = DocumentPlace::InString;
            },
            DocumentPlace::InString => {
                if b == BACKSLASH {
                    place = DocumentPlace::Escaped;
                } else if b == QUOTE {
                    place = place_outside(open);
                }
            },
            DocumentPlace::Outside => {
                if b == QUOTE {
                    place = DocumentPlace::InString;
                } else if b == OPEN_BRACE || b == OPEN_BRACKET {
                    open += 1;
                } else if open > 0 && (b == CLOSE_BRACE || b == CLOSE_BRACKET) {
                    open -= 1;
                    place = place_outside(open);
                } else if b != SPACE && b != TAB && b != LINE_FEED && b != CARRIAGE_RETURN {
                    place = place_outside(open);
                }
            },
        }
        i += 1;
        if open > MAX_BODY_NESTING {
            assert(nesting(body@, i as nat).0 > MAX_BODY_NESTING);
            return false;
        }
    }
    true
}

/// What `sonic_rs::get` makes of a body: none where it reads no JSON value from
/// it; else the boolean under a member of the value, where there is one.
pub uninterp spec fn json_flag(body: Seq<u8>, member: Seq<char>) -> Option<Option<bool>>;

/// `sonic_rs::get` with no path reads the value that a body is; its `get` looks a
/// member up, and `as_bool` reads that as a boolean. The reader calls itself for
/// every bracket that it goes into, so the brackets must not be nested without
/// bound.
#[verifier::external_body]
fn read_json_flag(body: &[u8], member: &str) -> (flag: Option<Option<bool>>)
    requires
        nested_within_limit(body@),
    ensures
        flag == json_flag(body@, member@),
{
    let path: [&str; 0] = [];
    let document = sonic_rs::get(body, path.iter().copied()).ok()?;
    Some(document.get(member).and_then(|value| value.as_bool()))
}

/// What a request body is refused for.
#[derive(Clone, Copy, Debug, PartialEq, Eq, Structural)]
pub enum InvalidRequestBody {
    NotJson,
    ChatCompletionsMustStream,
    ResponsesMustStream,
}

impl InvalidRequestBody {
    pub open spec fn text(self) -> Seq<char> {
        match self {
            InvalidRequestBody::NotJson => "request body must be valid JSON"@,
            InvalidRequestBody::ChatCompletionsMustStream => "/v1/chat/completions requests must set stream=true"@,
            InvalidRequestBody::ResponsesMustStream => "/v1/responses requests must set stream=true"@,
        }
    }

    pub fn message(self) -> (message: &'static str)
        ensures
            message@ == self.text(),
    {
        match self {
            InvalidRequestBody::NotJson => "request body must be valid JSON",
            InvalidRequestBody::ChatCompletionsMustStream => "/v1/chat/completions requests must set stream=true",
            InvalidRequestBody::ResponsesMustStream => "/v1/responses requests must set stream=true",
        }
    }
}

/// What is wrong with a body, given its `stream` member: `None` for a body that
/// is no JSON document.
pub open spec fn body_fault(endpoint: Option<RequestObservationEndpoint>, stream: Option<Option<bool>>) -> Option<
    InvalidRequestBody,
> {
    match stream {
        None => Some(InvalidRequestBody::NotJson),
        Some(flag) => if flag == Some(true) {
            None
        } else {
            match endpoint {
                Some(RequestObservationEndpoint::ChatCompletions) => Some(
                    InvalidRequestBody::ChatCompletionsMustStream,
                ),
                Some(RequestObservationEndpoint::Responses) => Some(InvalidRequestBody::ResponsesMustStream),
                _ => None,
            }
        },
    }
}

/// Judges a body by its `stream` member.
pub fn check_stream_flag(endpoint: Option<RequestObservationEndpoint>, stream: Option<Option<bool>>) -> (checked: Result<
    (),
    InvalidRequestBody,
>)
    ensures
        match body_fault(endpoint, stream) {
            Some(fault) => checked == Err::<(), InvalidRequestBody>(fault),
            None => checked is Ok,
        },
{
    match stream {
        None => Err(InvalidRequestBody::NotJson),
        Some(Some(true)) => Ok(()),
        Some(_) => match endpoint {
            Some(RequestObservationEndpoint::ChatCompletions) => Err(InvalidRequestBody::ChatCompletionsMustStream),
            Some(RequestObservationEndpoint::Responses) => Err(InvalidRequestBody::ResponsesMustStream),
            _ => Ok(()),
        },
    }
}

/// A body must be a JSON document, and a request for generated text must ask
/// for a stream.
pub fn validate_request_body(endpoint: Option<RequestObservationEndpoint>, body_bytes: &[u8]) -> (checked: Result<
    (),
    InvalidRequestBody,
>)
    requires
        nested_within_limit(body_bytes@),
    ensures
        match body_fault(endpoint, json_flag(body_bytes@, "stream"@)) {
            Some(fault) => checked == Err::<(), InvalidRequestBody>(fault),
            None => checked is Ok,
        },
{
    check_stream_flag(endpoint, read_json_flag(body_bytes, "stream"))
}

/// What `url::Url::parse` makes of a text: the URL in its normal writing, or
/// none for a text that is no absolute URL.
pub uninterp spec fn parsed_url(text: Seq<char>) -> Option<Seq<char>>;

/// What `url::Url::join` makes of a reference: the URL that it stands for when
/// read from a base, or none where either cannot be read.
pub uninterp spec fn joined_url(base: Seq<char>, reference: Seq<char>) -> Option<Seq<char>>;

pub open spec fn same_optional_text(text: Option<String>, expected: Option<Seq<char>>) -> bool {
    match (text, expected) {
        (Some(text), Some(expected)) => text@ == expected,
        (None, None) => true,
        _ => false,
    }
}

/// `url::Url::parse` reads an absolute URL.
#[verifier::external_body]
fn parse_url(text: &str) -> (parsed: Option<String>)
    ensures
        same_optional_text(parsed, parsed_url(text@)),
{
    url::Url::parse(text).ok().map(|parsed| parsed.to_string())
}

/// `url::Url::join` resolves a reference against a base, which
/// `url::Url::parse` reads.
#[verifier::external_body]
fn join_url(base: &str, reference: &str) -> (joined: Option<String>)
    ensures
        same_optional_text(joined, joined_url(base@, reference@)),
{
    let base = url::Url::parse(base).ok()?;
    base.join(reference).ok().map(|joined| joined.to_string())
}

/// Why no upstream URL could be made.
#[derive(Clone, Copy, Debug, PartialEq, Eq, Structural)]
pub enum JoinBasePathError {
    InvalidBase,
    JoinFailed,
}

impl JoinBasePathError {
    pub fn message(self) -> (message: &'static str)
        ensures
            message@ == (match self {
                JoinBasePathError::InvalidBase => "invalid upstream_http_base_url"@,
                JoinBasePathError::JoinFailed => "join upstream path failed"@,
            }),
    {
        match self {
            JoinBasePathError::InvalidBase => "invalid upstream_http_base_url",
            JoinBasePathError::JoinFailed => "join upstream path failed",
        }
    }
}

/// The URL of a path on the upstream server. The path starts at the root of the
/// server, whether or not it is written with a slash in front.
pub fn join_base_path(base: &str, path_and_query: &str) -> (joined: Result<String, JoinBasePathError>)
    ensures
        match joined {
            Ok(joined) => {
                &&& parsed_url(base@) is Some
                &&& joined_url(base@, crate::upstream_health::rooted(path_and_query@)) == Some(joined@)
            },
            Err(JoinBasePathError::InvalidBase) => parsed_url(base@) is None,
            Err(JoinBasePathError::JoinFailed) => {
                &&& parsed_url(base@) is Some
                &&& joined_url(base@, crate::upstream_health::rooted(path_and_query@)) is None
            },
        },
{
    if parse_url(base).is_none() {
        return Err(JoinBasePathError::InvalidBase);
    }
    let path = root_path(path_and_query);
    match join_url(base, path.as_str()) {
        Some(joined) => Ok(joined),
        None => Err(JoinBasePathError::JoinFailed),
    }
}

/// Which required header a request is refused for.
#[derive(Clone, Copy, Debug, PartialEq, Eq, Structural)]
pub enum RequiredHeaderError {
    MissingRequestId,
    MissingModel,
    MissingInputTokens,
    InvalidInputTokens,
}

impl RequiredHeaderError {
    pub open spec fn text(self) -> Seq<char> {
        match self {
            RequiredHeaderError::MissingRequestId => "missing required x-request-id header"@,
            RequiredHeaderError::MissingModel => "missing required x-model header"@,
            RequiredHeaderError::MissingInputTokens => "missing required x-input-tokens header"@,
            RequiredHeaderError::InvalidInputTokens => "invalid x-input-tokens header"@,
        }
    }

    pub fn message(self) -> (message: &'static str)
        ensures
            message@ == self.text(),
    {
        match self {
            RequiredHeaderError::MissingRequestId => "missing required x-request-id header",
            RequiredHeaderError::MissingModel => "missing required x-model header",
            RequiredHeaderError::MissingInputTokens => "missing required x-input-tokens header",
            RequiredHeaderError::InvalidInputTokens => "invalid x-input-tokens header",
        }
    }
}

/// The first value of a header without the white space around it, where
/// anything is left of it.
pub open spec fn filled_text(contents: crate::headers::HeaderContents, name: Seq<char>) -> Option<Seq<char>> {
    match crate::headers::first_text(contents, name) {
        Some(text) => if crate::text::trimmed(text).len() > 0 {
            Some(crate::text::trimmed(text))
        } else {
            None
        },
        None => None,
    }
}

fn filled_header(headers: &HeaderMap<HeaderValue>, name: &str) -> (text: Option<String>)
    requires
        crate::tunnel_contract::canonical(name@),
    ensures
        same_optional_text(text, filled_text(crate::headers::header_contents(*headers), name@)),
{
    match header_text(headers, name) {
        Some(text) => {
            let trimmed = trim(text.as_str());
            if same_text(trimmed.as_str(), "") {
                proof {
                    reveal_strlit("");
                }
                None
            } else {
                proof {
                    reveal_strlit("");
                    assert(trimmed@.len() == 0 ==> trimmed@ =~= ""@);
                }
                Some(trimmed)
            }
        },
        None => None,
    }
}

/// The number in a header, where there is one and it is no larger than `max`.
pub open spec fn header_number(contents: crate::headers::HeaderContents, name: Seq<char>, max: nat) -> Option<nat> {
    match filled_text(contents, name) {
        Some(text) => crate::text::decimal_at_most(text, max),
        None => None,
    }
}

/// The request carries what it must, and these are its values.
pub open spec fn read_from(required: RequiredTunnelHeaders, contents: crate::headers::HeaderContents) -> bool {
    &&& filled_text(contents, HEADER_REQUEST_ID@) == Some(required.request_id@)
    &&& filled_text(contents, HEADER_MODEL@) == Some(required.model_id@)
    &&& header_number(contents, HEADER_INPUT_TOKENS@, u64::MAX as nat) == Some(required.input_tokens as nat)
    &&& match (required.priority, header_number(contents, HEADER_PRIORITY@, u32::MAX as nat)) {
        (Some(priority), Some(number)) => priority == number,
        (None, None) => true,
        _ => false,
    }
    &&& same_optional_text(required.routing_key, filled_text(contents, HEADER_ROUTING_KEY@))
}

/// Which header is at fault: the first in the order in which they are read.
pub open spec fn header_fault(contents: crate::headers::HeaderContents) -> Option<RequiredHeaderError> {
    if filled_text(contents, HEADER_REQUEST_ID@) is None {
        Some(RequiredHeaderError::MissingRequestId)
    } else if filled_text(contents, HEADER_MODEL@) is None {
        Some(RequiredHeaderError::MissingModel)
    } else if filled_text(contents, HEADER_INPUT_TOKENS@) is None {
        Some(RequiredHeaderError::MissingInputTokens)
    } else if header_number(contents, HEADER_INPUT_TOKENS@, u64::MAX as nat) is None {
        Some(RequiredHeaderError::InvalidInputTokens)
    } else {
        None
    }
}

/// Reads the headers that every forwarded request must carry.
pub fn validate_required_tunnel_headers(headers: &HeaderMap<HeaderValue>, accepted_at: u64) -> (required: Result<
    RequiredTunnelHeaders,
    RequiredHeaderError,
>)
    ensures
        match (required, header_fault(crate::headers::header_contents(*headers))) {
            (Ok(required), None) => {
                &&& read_from(required, crate::headers::header_contents(*headers))
                &&& required.accepted_at == accepted_at
            },
            (Err(error), Some(fault)) => error == fault,
            _ => false,
        },
{
    proof {
        crate::tunnel_contract::lemma_header_names();
    }
    let request_id = match filled_header(headers, HEADER_REQUEST_ID) {
        Some(request_id) => request_id,
        None => return Err(RequiredHeaderError::MissingRequestId),
    };
    let model_id = match filled_header(headers, HEADER_MODEL) {
        Some(model_id) => model_id,
        None => return Err(RequiredHeaderError::MissingModel),
    };
    let input_tokens_text = match filled_header(headers, HEADER_INPUT_TOKENS) {
        Some(text) => text,
        None => return Err(RequiredHeaderError::MissingInputTokens),
    };
    let input_tokens: u64 = match parse_decimal(input_tokens_text.as_str(), u64::MAX) {
        Some(input_tokens) => input_tokens,
        None => return Err(RequiredHeaderError::InvalidInputTokens),
    };
    let priority: Option<u32> = match filled_header(headers, HEADER_PRIORITY) {
        Some(text) => match parse_decimal(text.as_str(), u32::MAX as u64) {
            Some(priority) => Some(priority as u32),
            None => None,
        },
        None => None,
    };
    let routing_key = filled_header(headers, HEADER_ROUTING_KEY);
    Ok(RequiredTunnelHeaders { request_id, routing_key, model_id, priority, input_tokens, accepted_at })
}

/// What `http::StatusCode::canonical_reason` says of a status code: none for a
/// code without a standard phrase, or that is no status code.
pub uninterp spec fn status_phrase(status: u16) -> Option<Seq<char>>;

/// `http::StatusCode::canonical_reason` gives the standard phrase of a status
/// code.
#[verifier::external_body]
pub(crate) fn canonical_reason(status: u16) -> (phrase: Option<String>)
    ensures
        same_optional_text(phrase, status_phrase(status)),
        status == 400 ==> (phrase matches Some(phrase) && phrase@ == "Bad Request"@),
        status == 413 ==> (phrase matches Some(phrase) && phrase@ == "Payload Too Large"@),
        status == 502 ==> (phrase matches Some(phrase) && phrase@ == "Bad Gateway"@),
        status == 503 ==> (phrase matches Some(phrase) && phrase@ == "Service Unavailable"@),
{
    let status = http::StatusCode::from_u16(status).ok()?;
    status.canonical_reason().map(|phrase| phrase.to_string())
}

/// The type of a problem that has no more to say than its status.
pub const PROBLEM_TYPE_BLANK: &'static str = "about:blank";

/// The members of a problem document.
#[derive(Debug)]
pub struct ProblemDetails {
    /// The member `type`.
    pub problem_type: &'static str,
    pub title: String,
    pub status: u16,
    pub detail: String,
}

/// Makes the problem document of a status from its standard phrase.
pub fn titled_problem(status: u16, phrase: Option<String>, detail: &str) -> (problem: ProblemDetails)
    ensures
        problem.problem_type@ == PROBLEM_TYPE_BLANK@,
        problem.title@ == (match phrase {
            Some(phrase) => phrase@,
            None => "Error"@,
        }),
        problem.status == status,
        problem.detail@ == detail@,
{
    let title = match phrase {
        Some(phrase) => phrase,
        None => "Error".to_string(),
    };
    ProblemDetails { problem_type: PROBLEM_TYPE_BLANK, title, status, detail: detail.to_string() }
}

/// The problem document that goes with a refused request.
pub open spec fn problem_of(problem: ProblemDetails, status: u16, detail: Seq<char>) -> bool {
    &&& problem.problem_type@ == PROBLEM_TYPE_BLANK@
    &&& problem.title@ == (match status_phrase(status) {
        Some(phrase) => phrase,
        None => "Error"@,
    })
    &&& problem.status == status
    &&& problem.detail@ == detail
}

/// The problem document of a status.
pub fn problem_details_body(status: u16, detail: &str) -> (problem: ProblemDetails)
    ensures
        problem_of(problem, status, detail@),
        status == 400 ==> problem.title@ == "Bad Request"@,
        status == 413 ==> problem.title@ == "Payload Too Large"@,
        status == 502 ==> problem.title@ == "Bad Gateway"@,
        status == 503 ==> problem.title@ == "Service Unavailable"@,
{
    titled_problem(status, canonical_reason(status), detail)
}

impl ProblemDetails {
    /// The document.
    pub open spec fn object(&self) -> Seq<char> {
        "{\"detail\":"@ + crate::json_text::quoted(self.detail@) + ",\"status\":"@ + crate::text::decimal_text(
            self.status as nat,
        ) + ",\"title\":"@ + crate::json_text::quoted(self.title@) + ",\"type\":"@ + crate::json_text::quoted(
            self.problem_type@,
        ) + "}"@
    }

    /// The document as JSON.
    pub fn json(&self) -> (json: String)
        ensures
            json@ == self.object(),
    {
        let json = join_texts("{\"detail\":", json_string(self.detail.as_str()).as_str());
        let json = join_texts(json.as_str(), ",\"status\":");
        let json = join_texts(json.as_str(), decimal(self.status as u64).as_str());
        let json = join_texts(json.as_str(), ",\"title\":");
        let json = join_texts(json.as_str(), json_string(self.title.as_str()).as_str());
        let json = join_texts(json.as_str(), ",\"type\":");
        let json = join_texts(json.as_str(), json_string(self.problem_type).as_str());
        join_texts(json.as_str(), "}")
    }
}

/// In which part of a stream the upstream fell silent.
#[derive(Clone, Copy, Debug, PartialEq, Eq, Structural)]
pub enum SseReadTimeoutPhase {
    FirstOutput,
    SubsequentOutput,
}

pub open spec fn phase_name(phase: SseReadTimeoutPhase) -> Seq<char> {
    match phase {
        SseReadTimeoutPhase::FirstOutput => "first"@,
        SseReadTimeoutPhase::SubsequentOutput => "subsequent"@,
    }
}

pub fn sse_timeout_phase_name(phase: SseReadTimeoutPhase) -> (name: &'static str)
    ensures
        name@ == phase_name(phase),
{
    match phase {
        SseReadTimeoutPhase::FirstOutput => "first",
        SseReadTimeoutPhase::SubsequentOutput => "subsequent",
    }
}

/// Why a stream could not be read to its end. What the transport says of its
/// own failure comes as text.
#[derive(Debug)]
pub enum UpstreamSseReadError {
    Timeout(SseReadTimeoutPhase),
    BufferLimitExceeded { max_buffer_bytes: usize, buffered_bytes: usize },
    Upstream(String),
}

pub open spec fn sse_error_text(error: UpstreamSseReadError) -> Seq<char> {
    match error {
        UpstreamSseReadError::Timeout(phase) => "timed out waiting for "@ + phase_name(phase)
            + " output event from upstream"@,
        UpstreamSseReadError::BufferLimitExceeded { max_buffer_bytes, buffered_bytes } => {
            "upstream SSE buffer exceeded "@ + crate::text::decimal_text(max_buffer_bytes as nat)
                + " bytes while waiting for an event boundary (buffered "@ + crate::text::decimal_text(
                buffered_bytes as nat,
            ) + " bytes)"@
        },
        UpstreamSseReadError::Upstream(_) => "failed to read upstream response message"@,
    }
}

/// What a reader of the relayed stream is told of the failure.
pub fn relay_sse_error(error: &UpstreamSseReadError) -> (text: String)
    ensures
        text@ == sse_error_text(*error),
{
    match error {
        UpstreamSseReadError::Timeout(phase) => {
            let head = join_texts("timed out waiting for ", sse_timeout_phase_name(*phase));
            join_texts(head.as_str(), " output event from upstream")
        },
        UpstreamSseReadError::BufferLimitExceeded { max_buffer_bytes, buffered_bytes } => {
            let max = decimal(*max_buffer_bytes as u64);
            let buffered = decimal(*buffered_bytes as u64);
            let text = join_texts("upstream SSE buffer exceeded ", max.as_str());
            let text = join_texts(text.as_str(), " bytes while waiting for an event boundary (buffered ");
            let text = join_texts(text.as_str(), buffered.as_str());
            join_texts(text.as_str(), " bytes)")
        },
        UpstreamSseReadError::Upstream(_) => "failed to read upstream response message".to_string(),
    }
}

/// What a quality check of a stream came to.
#[derive(Clone, Copy, Debug, PartialEq, Eq, Structural)]
pub struct QualityCheckOutcome {
    pub evaluated: bool,
    pub threshold_matched: bool,
}

pub fn quality_check_result_label(result: QualityCheckOutcome) -> (label: &'static str)
    ensures
        label@ == (if !result.evaluated {
            "skipped"@
        } else if result.threshold_matched {
            "matched"@
        } else {
            "clean"@
        }),
{
    match (result.evaluated, result.threshold_matched) {
        (false, _) => "skipped",
        (true, true) => "matched",
        (true, false) => "clean",
    }
}

/// The media type of an event stream.
pub const EVENT_STREAM: &'static str = "text/event-stream";

/// Whether a response is a stream of events.
pub fn is_event_stream(response_headers: &HeaderMap<HeaderValue>) -> (stream: bool)
    ensures
        stream == event_stream(crate::headers::header_contents(*response_headers)),
{
    proof {
        reveal_strlit("content-type");
        crate::tunnel_contract::lemma_name_chars_canonical("content-type"@);
    }
    match header_text(response_headers, "content-type") {
        Some(text) => starts_with_text(text.as_str(), EVENT_STREAM),
        None => false,
    }
}

pub open spec fn event_stream(contents: crate::headers::HeaderContents) -> bool {
    match crate::headers::first_text(contents, "content-type"@) {
        Some(text) => crate::text::occurs_at(text, EVENT_STREAM@, 0),
        None => false,
    }
}

/// The header that names the span a request belongs to.
pub const HEADER_TRACEPARENT: &'static str = "traceparent";

/// The parent that the caller's trace context names.
pub fn otel_parent_from_headers(headers: &HeaderMap<HeaderValue>) -> (parent: Option<String>)
    ensures
        match (parent, crate::headers::first_text(crate::headers::header_contents(*headers), HEADER_TRACEPARENT@)) {
            (Some(parent), Some(expected)) => parent@ == expected,
            (None, None) => true,
            _ => false,
        },
{
    proof {
        reveal_strlit("traceparent");
        crate::tunnel_contract::lemma_name_chars_canonical(HEADER_TRACEPARENT@);
    }
    header_text(headers, HEADER_TRACEPARENT)
}

} // verus!
