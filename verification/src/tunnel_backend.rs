//! The dialects of the engines that a pylon stands in front of.

use http::{HeaderMap, HeaderValue};
use vstd::prelude::*;

use crate::headers::{bytes_of_text, header_count, insert_header, remove_header};
use crate::text::{decimal, same_text, to_lower, trim};
use crate::tunnel_contract::{HEADER_MODEL, HEADER_PRIORITY, HEADER_REQUEST_ID, HEADER_ROUTING_KEY};

verus! {

/// Which dialect is spoken to the local upstream.
#[derive(Clone, Copy, Debug, PartialEq, Eq, Structural)]
pub enum UpstreamBackend {
    /// Requests are forwarded as they are; engine headers that only a pylon
    /// may set are still stripped.
    Passthrough,
    /// The engine's priority headers are derived from `x-priority`.
    Dynamo,
}

/// No backend has this name.
#[derive(Debug)]
pub struct UnknownUpstreamBackend {
    pub name: String,
}

impl Default for UpstreamBackend {
    fn default() -> (backend: Self)
        ensures
            backend is Dynamo,
    {
        UpstreamBackend::Dynamo
    }
}

impl UpstreamBackend {
    pub open spec fn spec_name(self) -> Seq<char> {
        match self {
            UpstreamBackend::Passthrough => "passthrough"@,
            UpstreamBackend::Dynamo => "dynamo"@,
        }
    }

    pub fn name(self) -> (name: &'static str)
        ensures
            name@ == self.spec_name(),
    {
        match self {
            UpstreamBackend::Passthrough => "passthrough",
            UpstreamBackend::Dynamo => "dynamo",
        }
    }

    /// The backend of a name, in any case and with white space around it.
    pub fn from_name(value: &str) -> (backend: Result<UpstreamBackend, UnknownUpstreamBackend>)
        ensures
            ({
                let name = crate::text::lower(crate::text::trimmed(value@));
                match backend {
                    Ok(backend) => name == backend.spec_name(),
                    Err(error) => {
                        &&& error.name@ == name
                        &&& name != "passthrough"@
                        &&& name != "dynamo"@
                    },
                }
            }),
    {
        let name = to_lower(trim(value).as_str());
        if same_text(name.as_str(), "passthrough") {
            Ok(UpstreamBackend::Passthrough)
        } else if same_text(name.as_str(), "dynamo") {
            Ok(UpstreamBackend::Dynamo)
        } else {
            Err(UnknownUpstreamBackend { name })
        }
    }
}

/// The default upper end of the priority band.
pub const DEFAULT_PRIORITY_CEILING: u32 = 3600;

/// Engine headers that only a pylon writes.
pub const HEADER_STATS_CORRELATION_ID: &'static str = "x-dynamo-stats-correlation-id";
pub const HEADER_REQUEST_PRIORITY: &'static str = "x-dynamo-request-priority";
pub const HEADER_REQUEST_STRICT_PRIORITY: &'static str = "x-dynamo-request-strict-priority";

/// Identities that the platform gives a request beside its own.
pub const HEADER_ENGINE_REQUEST_ID: &'static str = "x-dynamo-request-id";
pub const HEADER_PLAIN_REQUEST_ID: &'static str = "request-id";

pub proof fn lemma_engine_header_names()
    ensures
        crate::tunnel_contract::canonical(HEADER_STATS_CORRELATION_ID@),
        crate::tunnel_contract::canonical(HEADER_REQUEST_PRIORITY@),
        crate::tunnel_contract::canonical(HEADER_REQUEST_STRICT_PRIORITY@),
        HEADER_REQUEST_PRIORITY@ != HEADER_REQUEST_STRICT_PRIORITY@,
{
    reveal_strlit("x-dynamo-stats-correlation-id");
    reveal_strlit("x-dynamo-request-priority");
    reveal_strlit("x-dynamo-request-strict-priority");
    crate::tunnel_contract::lemma_name_chars_canonical(HEADER_STATS_CORRELATION_ID@);
    crate::tunnel_contract::lemma_name_chars_canonical(HEADER_REQUEST_PRIORITY@);
    crate::tunnel_contract::lemma_name_chars_canonical(HEADER_REQUEST_STRICT_PRIORITY@);
    assert(HEADER_REQUEST_PRIORITY@.len() != HEADER_REQUEST_STRICT_PRIORITY@.len());
}

/// The header belongs to the engine: whatever comes in under it is dropped
/// with every backend.
pub open spec fn engine_header(name: Seq<char>) -> bool {
    ||| name == HEADER_STATS_CORRELATION_ID@
    ||| name == HEADER_REQUEST_PRIORITY@
    ||| name == HEADER_REQUEST_STRICT_PRIORITY@
}

pub fn is_stripped_engine_header(name: &str) -> (stripped: bool)
    ensures
        stripped == engine_header(crate::text::lower(name@)),
{
    let low = to_lower(name);
    same_text(low.as_str(), HEADER_STATS_CORRELATION_ID) || same_text(low.as_str(), HEADER_REQUEST_PRIORITY)
        || same_text(low.as_str(), HEADER_REQUEST_STRICT_PRIORITY)
}

/// The header carries platform metadata, which the pylon consumes instead of
/// handing it to a Dynamo engine.
pub open spec fn platform_metadata(name: Seq<char>) -> bool {
    ||| name == HEADER_PLAIN_REQUEST_ID@
    ||| name == HEADER_ENGINE_REQUEST_ID@
    ||| name == HEADER_MODEL@
    ||| name == HEADER_ROUTING_KEY@
    ||| name == HEADER_PRIORITY@
}

pub fn is_platform_metadata_header(name: &str) -> (metadata: bool)
    ensures
        metadata == platform_metadata(crate::text::lower(name@)),
{
    let low = to_lower(name);
    same_text(low.as_str(), HEADER_PLAIN_REQUEST_ID) || same_text(low.as_str(), HEADER_ENGINE_REQUEST_ID)
        || same_text(low.as_str(), HEADER_MODEL) || same_text(low.as_str(), HEADER_ROUTING_KEY)
        || same_text(low.as_str(), HEADER_PRIORITY)
}

/// The engine's priority for a platform rank: the lower the rank, the longer
/// the head start, up to the ceiling; no rank and ranks beyond the ceiling get
/// none.
pub open spec fn engine_priority(priority: Option<u32>, ceiling: u32) -> int {
    let top: int = if ceiling > i32::MAX {
        i32::MAX as int
    } else {
        ceiling as int
    };
    match priority {
        Some(rank) => if rank < top {
            top - rank
        } else {
            0
        },
        None => 0,
    }
}

pub fn request_priority(priority: Option<u32>, ceiling: u32) -> (engine: i32)
    ensures
        engine == engine_priority(priority, ceiling),
        engine >= 0,
{
    let top: u32 = if ceiling > i32::MAX as u32 {
        i32::MAX as u32
    } else {
        ceiling
    };
    match priority {
        Some(rank) => if rank < top {
            (top - rank) as i32
        } else {
            0
        },
        None => 0,
    }
}

/// The decimal writing of a number as a header value.
pub fn bytes_of_decimal(number: u64) -> (bytes: Vec<u8>)
    ensures
        bytes@ == crate::headers::ascii_bytes(crate::text::decimal_text(number as nat)),
        crate::headers::valid_value(bytes@),
{
    proof {
        crate::text::lemma_decimal_round_trip(number as nat);
    }
    bytes_of_text(decimal(number).as_str())
}

/// The map cannot take another header.
#[derive(Clone, Copy, Debug, PartialEq, Eq, Structural)]
pub struct HeaderLimitReached;

/// The contents once both priority headers are set.
pub open spec fn with_priority_headers(
    contents: crate::headers::HeaderContents,
    priority: Option<u32>,
    ceiling: u32,
) -> crate::headers::HeaderContents {
    contents.insert(
        HEADER_REQUEST_PRIORITY@,
        seq![crate::headers::ascii_bytes(crate::text::decimal_text(engine_priority(priority, ceiling) as nat))],
    ).insert(HEADER_REQUEST_STRICT_PRIORITY@, seq![seq![48u8]])
}

/// Sets both priority headers of an inference request. The engine priority.
/// The map may refuse where it holds very many names.
pub fn apply_priority_headers(
    priority: Option<u32>,
    ceiling: u32,
    upstream_headers: &mut HeaderMap<HeaderValue>,
) -> (emitted: Result<i32, HeaderLimitReached>)
    ensures
        match emitted {
            Ok(emitted) => {
                &&& emitted == engine_priority(priority, ceiling)
                &&& crate::headers::header_contents(*final(upstream_headers)) == with_priority_headers(
                    crate::headers::header_contents(*old(upstream_headers)),
                    priority,
                    ceiling,
                )
            },
            Err(_) => crate::headers::header_contents(*old(upstream_headers)).len()
                >= crate::headers::HEADER_ROOM,
        },
{
    let emitted: i32 = request_priority(priority, ceiling);
    let value = bytes_of_decimal(emitted as u64);
    let _ = header_count(upstream_headers);
    proof {
        lemma_engine_header_names();
    }
    if !insert_header(upstream_headers, HEADER_REQUEST_PRIORITY, value.as_slice()) {
        return Err(HeaderLimitReached);
    }
    let zero: [u8; 1] = [48];
    assert(zero@ =~= seq![48u8]);
    if !insert_header(upstream_headers, HEADER_REQUEST_STRICT_PRIORITY, &zero) {
        return Err(HeaderLimitReached);
    }
    Ok(emitted)
}

/// A character of a hexadecimal number in lower case.
pub open spec fn lower_hex(c: char) -> bool {
    '0' <= c <= '9' || 'a' <= c <= 'f'
}

/// The text is a random UUID, of version 4, in groups of lower-case hexadecimal
/// digits with hyphens between them.
pub open spec fn random_uuid_text(text: Seq<char>) -> bool {
    &&& text.len() == 36
    &&& forall|i: int|
        0 <= i < 36 ==> if i == 8 || i == 13 || i == 18 || i == 23 {
            #[trigger] text[i] == '-'
        } else {
            lower_hex(text[i])
        }
    &&& text[14] == '4'
    &&& text[19] == '8' || text[19] == '9' || text[19] == 'a' || text[19] == 'b'
}

/// `Uuid::new_v4` makes a random identifier; `Uuid::to_string` writes it with
/// hyphens in lower case, which `Uuid::parse_str` reads. Which identifier comes
/// out is chance.
#[verifier::external_body]
pub(crate) fn random_id() -> (id: String)
    ensures
        random_uuid_text(id@),
        crate::generated_request_id::uuid_value(id@) is Some,
{
    uuid::Uuid::new_v4().to_string()
}

/// Replaces the platform's identity headers by an identifier that only the
/// engine and this pylon know. The identifier.
pub fn translate_stats_correlation(upstream_headers: &mut HeaderMap<HeaderValue>) -> (correlation_id: Result<
    String,
    HeaderLimitReached,
>)
    ensures
        match correlation_id {
            Ok(id) => {
                &&& random_uuid_text(id@)
                &&& crate::generated_request_id::uuid_value(id@) is Some
                &&& crate::headers::header_contents(*final(upstream_headers)) == with_correlation(
                    crate::headers::header_contents(*old(upstream_headers)),
                    id@,
                )
            },
            Err(_) => crate::headers::header_contents(*old(upstream_headers)).len()
                > crate::headers::HEADER_ROOM,
        },
{
    let _ = header_count(upstream_headers);
    proof {
        crate::tunnel_contract::lemma_header_names();
        lemma_engine_header_names();
    }
    remove_header(upstream_headers, HEADER_REQUEST_ID);
    remove_header(upstream_headers, HEADER_MODEL);
    remove_header(upstream_headers, HEADER_ROUTING_KEY);
    let correlation_id = random_id();
    assert(crate::headers::printable(correlation_id@));
    let value = bytes_of_text(correlation_id.as_str());
    if !insert_header(upstream_headers, HEADER_STATS_CORRELATION_ID, value.as_slice()) {
        return Err(HeaderLimitReached);
    }
    Ok(correlation_id)
}

/// The contents once the identities are replaced.
pub open spec fn with_correlation(
    contents: crate::headers::HeaderContents,
    id: Seq<char>,
) -> crate::headers::HeaderContents {
    contents.remove(HEADER_REQUEST_ID@).remove(HEADER_MODEL@).remove(HEADER_ROUTING_KEY@).insert(
        HEADER_STATS_CORRELATION_ID@,
        seq![crate::headers::ascii_bytes(id)],
    )
}

} // verus!
