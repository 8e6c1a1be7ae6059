//! The header names that the tunnel and its callers agree on.

use vstd::prelude::*;

verus! {

pub const HEADER_REQUEST_ID: &'static str = "x-request-id";
pub const HEADER_MODEL: &'static str = "x-model";
pub const HEADER_ROUTING_KEY: &'static str = "x-routing-key";
pub const HEADER_INPUT_TOKENS: &'static str = "x-input-tokens";
pub const HEADER_PRIORITY: &'static str = "x-priority";
pub const HEADER_STARGATE_EXPECTED_QUEUE_MS: &'static str = "x-stargate-expected-queue-ms";
pub const HEADER_STARGATE_RETRYABLE: &'static str = "x-stargate-retryable";
pub const HEADER_STARGATE_RETRY_REASON: &'static str = "x-stargate-retry-reason";
pub const HEADER_STARGATE_RETRY_AFTER_MS: &'static str = "x-stargate-retry-after-ms";
pub const HEADER_STARGATE_UPSTREAM_RETRYABLE: &'static str = "x-stargate-upstream-retryable";

/// The text is a header name in lower case.
pub open spec fn canonical(name: Seq<char>) -> bool {
    &&& crate::headers::valid_name(name)
    &&& crate::text::lower(name) == name
}

pub proof fn lemma_name_chars_canonical(name: Seq<char>)
    requires
        crate::headers::valid_name(name),
    ensures
        canonical(name),
{
    assert forall|i: int| 0 <= i < name.len() implies crate::text::lower(name)[i] == name[i] by {
        assert(crate::headers::name_char(name[i]));
    }
    assert(crate::text::lower(name) =~= name);
}

pub proof fn lemma_header_names()
    ensures
        canonical(HEADER_REQUEST_ID@),
        canonical(HEADER_MODEL@),
        canonical(HEADER_ROUTING_KEY@),
        canonical(HEADER_INPUT_TOKENS@),
        canonical(HEADER_PRIORITY@),
        canonical(HEADER_STARGATE_EXPECTED_QUEUE_MS@),
        canonical(HEADER_STARGATE_RETRYABLE@),
        canonical(HEADER_STARGATE_RETRY_REASON@),
        canonical(HEADER_STARGATE_RETRY_AFTER_MS@),
        canonical(HEADER_STARGATE_UPSTREAM_RETRYABLE@),
{
    reveal_strlit("x-request-id");
    reveal_strlit("x-model");
    reveal_strlit("x-routing-key");
    reveal_strlit("x-input-tokens");
    reveal_strlit("x-priority");
    reveal_strlit("x-stargate-expected-queue-ms");
    reveal_strlit("x-stargate-retryable");
    reveal_strlit("x-stargate-retry-reason");
    reveal_strlit("x-stargate-retry-after-ms");
    reveal_strlit("x-stargate-upstream-retryable");
    lemma_name_chars_canonical(HEADER_REQUEST_ID@);
    lemma_name_chars_canonical(HEADER_MODEL@);
    lemma_name_chars_canonical(HEADER_ROUTING_KEY@);
    lemma_name_chars_canonical(HEADER_INPUT_TOKENS@);
    lemma_name_chars_canonical(HEADER_PRIORITY@);
    lemma_name_chars_canonical(HEADER_STARGATE_EXPECTED_QUEUE_MS@);
    lemma_name_chars_canonical(HEADER_STARGATE_RETRYABLE@);
    lemma_name_chars_canonical(HEADER_STARGATE_RETRY_REASON@);
    lemma_name_chars_canonical(HEADER_STARGATE_RETRY_AFTER_MS@);
    lemma_name_chars_canonical(HEADER_STARGATE_UPSTREAM_RETRYABLE@);
}

} // verus!
