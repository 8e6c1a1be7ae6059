//! The timing and the token counts of a mock engine.

use http::{HeaderMap, HeaderValue};
use vstd::prelude::*;

use crate::binary64::Binary64;
use crate::headers::header_text;
use crate::text::{decimal, join_texts, parse_trimmed_decimal};
use crate::tunnel_contract::HEADER_INPUT_TOKENS;

verus! {

pub const HASH_START: u64 = 0x1465_0fb0_739d_0383;
pub const HASH_PRIME: u64 = 0x0000_0100_0000_01b3;

/// The hash with one more byte.
pub open spec fn hashed_byte(hash: u64, byte: u8) -> u64 {
    (((hash ^ (byte as u64)) * HASH_PRIME) % 0x1_0000_0000_0000_0000) as u64
}

/// The hash with more bytes, one after the other.
pub open spec fn hashed(hash: u64, bytes: Seq<u8>) -> u64
    decreases bytes.len(),
{
    if bytes.len() == 0 {
        hash
    } else {
        hashed_byte(hashed(hash, bytes.drop_last()), bytes.last())
    }
}

fn hash_bytes(hash: u64, bytes: &[u8]) -> (next: u64)
    ensures
        next == hashed(hash, bytes@),
{
    let mut next: u64 = hash;
    let mut i: usize = 0;
    assert(bytes@.take(0) =~= Seq::<u8>::empty());
    while i < bytes.len()
        invariant
            i <= bytes.len(),
            next == hashed(hash, bytes@.take(i as int)),
        decreases bytes.len() - i,
    {
        proof {
            assert(bytes@.take(i + 1).drop_last() =~= bytes@.take(i as int));
        }
        next = (next ^ (bytes[i] as u64)).wrapping_mul(HASH_PRIME);
        i += 1;
    }
    assert(bytes@.take(i as int) =~= bytes@);
    next
}

/// What a request and a purpose hash to.
pub open spec fn request_hash(request_id: Seq<char>, salt: Seq<char>) -> u64 {
    hashed(
        hashed(HASH_START, vstd::utf8::encode_utf8(request_id)),
        vstd::utf8::encode_utf8(salt),
    )
}

pub open spec fn jitter_of(request_id: Seq<char>, salt: Seq<char>, max_jitter_ms: u64) -> u64 {
    if max_jitter_ms == 0 {
        0
    } else if max_jitter_ms == u64::MAX {
        request_hash(request_id, salt) % u64::MAX
    } else {
        request_hash(request_id, salt) % ((max_jitter_ms + 1) as u64)
    }
}

/// A delay of at most `max_jitter_ms` that is the same for the same request and
/// purpose.
pub fn jitter_ms(request_id: &str, salt: &str, max_jitter_ms: u64) -> (jitter: u64)
    ensures
        jitter == jitter_of(request_id@, salt@, max_jitter_ms),
        jitter <= max_jitter_ms,
{
    if max_jitter_ms == 0 {
        return 0;
    }
    let hash: u64 = hash_bytes(hash_bytes(HASH_START, request_id.as_bytes()), salt.as_bytes());
    let span: u64 = max_jitter_ms.saturating_add(1);
    hash % span
}

/// The longest delay, in nanoseconds: as many seconds as 64 bits can count, and
/// all but one nanosecond of one more.
pub const LONGEST_DELAY: u128 = 18_446_744_073_709_551_615_999_999_999;

/// Two delays one after the other.
pub open spec fn summed_delay(a: u128, b: u128) -> u128 {
    if a + b > LONGEST_DELAY {
        LONGEST_DELAY
    } else {
        (a + b) as u128
    }
}

fn add_delays(a: u128, b: u128) -> (sum: u128)
    ensures
        sum == summed_delay(a, b),
{
    if a > LONGEST_DELAY || b > LONGEST_DELAY - a {
        LONGEST_DELAY
    } else {
        a + b
    }
}

/// The time that the engine takes for tokens of a prompt, in nanoseconds: none
/// where its rate is not given. `time_for` divides the tokens by the rate, and
/// gives nothing where the time is out of range.
pub fn prefill_delay<D: Fn(u64, Binary64) -> Option<u128>>(
    input_tokens: usize,
    prefill_tokens_per_s: Binary64,
    time_for: &D,
) -> (delay: u128)
    requires
        forall|tokens: u64, rate: Binary64| call_requires(*time_for, (tokens, rate)),
    ensures
        if prefill_tokens_per_s.positive_finite() {
            ||| call_ensures(*time_for, (input_tokens as u64, prefill_tokens_per_s), Some(delay))
            ||| call_ensures(*time_for, (input_tokens as u64, prefill_tokens_per_s), None) && delay
                == LONGEST_DELAY
        } else {
            delay == 0
        },
{
    if !prefill_tokens_per_s.is_positive_finite() {
        return 0;
    }
    match time_for(input_tokens as u64, prefill_tokens_per_s) {
        Some(delay) => delay,
        None => LONGEST_DELAY,
    }
}

/// The delays of a mock engine. Those that are not in milliseconds are in
/// nanoseconds.
#[derive(Clone, Copy, Debug)]
pub struct MockTiming {
    pub token_delay: u128,
    pub decode_jitter_ms: u64,
    pub ttft: u128,
    pub ttft_jitter_ms: u64,
}

pub open spec fn ms_as_ns(ms: u64) -> u128 {
    (ms * 1_000_000) as u128
}

fn nanoseconds(ms: u64) -> (ns: u128)
    ensures
        ns == ms_as_ns(ms),
{
    ms as u128 * 1_000_000
}

/// What the jitter of a token is hashed with.
pub open spec fn token_salt(index: nat) -> Seq<char> {
    "decode-"@ + crate::text::decimal_text(index)
}

impl MockTiming {
    pub open spec fn first_delay(&self, request_id: Seq<char>) -> u128 {
        summed_delay(
            self.ttft,
            ms_as_ns(jitter_of(request_id, "ttft"@, self.ttft_jitter_ms)),
        )
    }

    #[verifier::opaque]
    pub open spec fn delay_of_token(&self, request_id: Seq<char>, index: nat) -> u128 {
        summed_delay(
            self.token_delay,
            ms_as_ns(jitter_of(request_id, token_salt(index), self.decode_jitter_ms)),
        )
    }

    /// The time until a response of `tokens` tokens is complete.
    pub open spec fn delay_of_response(&self, request_id: Seq<char>, first: u128, tokens: nat) -> u128
        decreases tokens,
    {
        if tokens <= 1 {
            first
        } else {
            summed_delay(
                self.delay_of_response(request_id, first, (tokens - 1) as nat),
                self.delay_of_token(request_id, (tokens - 1) as nat),
            )
        }
    }

    /// The time until the first token.
    pub fn first_token_delay(&self, request_id: &str) -> (delay: u128)
        ensures
            delay == self.first_delay(request_id@),
    {
        add_delays(self.ttft, nanoseconds(jitter_ms(request_id, "ttft", self.ttft_jitter_ms)))
    }

    /// The time between a token and the one before it.
    pub fn token_delay(&self, request_id: &str, index: usize) -> (delay: u128)
        ensures
            delay == self.delay_of_token(request_id@, index as nat),
    {
        proof {
            reveal(MockTiming::delay_of_token);
        }
        let number = decimal(index as u64);
        let salt = join_texts("decode-", number.as_str());
        add_delays(self.token_delay, nanoseconds(jitter_ms(request_id, salt.as_str(), self.decode_jitter_ms)))
    }

    /// The time that a response takes which is not streamed.
    pub fn non_streaming_delay(&self, request_id: &str, first_token_delay: u128, output_tokens: usize) -> (delay: u128)
        ensures
            delay == self.delay_of_response(request_id@, first_token_delay, output_tokens as nat),
    {
        let mut delay: u128 = first_token_delay;
        let mut i: usize = 1;
        while i < output_tokens
            invariant
                1 <= i,
                i <= output_tokens || output_tokens == 0 && i == 1,
                delay == self.delay_of_response(request_id@, first_token_delay, i as nat),
            decreases output_tokens - i,
        {
            delay = add_delays(delay, self.token_delay(request_id, i));
            i += 1;
        }
        delay
    }
}

/// The number in a header.
pub open spec fn header_count(contents: crate::headers::HeaderContents, name: Seq<char>) -> Option<nat> {
    match crate::headers::first_text(contents, name) {
        Some(text) => crate::text::decimal_at_most(crate::text::trimmed(text), usize::MAX as nat),
        None => None,
    }
}

fn read_count(headers: &HeaderMap<HeaderValue>, name: &str) -> (count: Option<usize>)
    requires
        crate::tunnel_contract::canonical(name@),
    ensures
        match (count, header_count(crate::headers::header_contents(*headers), name@)) {
            (Some(count), Some(expected)) => count == expected,
            (None, None) => true,
            _ => false,
        },
{
    match header_text(headers, name) {
        Some(text) => match parse_trimmed_decimal(text.as_str(), usize::MAX as u64) {
            Some(count) => Some(count as usize),
            None => None,
        },
        None => None,
    }
}

pub const HEADER_OUTPUT_TOKENS: &'static str = "x-output-tokens";

pub open spec fn min_count(a: usize, b: usize) -> usize {
    if a < b {
        a
    } else {
        b
    }
}

pub open spec fn at_least_one(count: nat) -> nat {
    if count == 0 {
        1
    } else {
        count
    }
}

/// How many tokens a response has: what a header asks for, else what the
/// request allows, up to what the engine makes by default.
pub fn request_output_tokens(headers: &HeaderMap<HeaderValue>, max_tokens: Option<usize>, default_tokens: usize) -> (tokens:
    usize)
    ensures
        tokens == (match header_count(crate::headers::header_contents(*headers), HEADER_OUTPUT_TOKENS@) {
            Some(count) => count as usize,
            None => match max_tokens {
                Some(max_tokens) => min_count(max_tokens, default_tokens),
                None => default_tokens,
            },
        }),
{
    proof {
        reveal_strlit("x-output-tokens");
        crate::tunnel_contract::lemma_name_chars_canonical(HEADER_OUTPUT_TOKENS@);
    }
    match read_count(headers, HEADER_OUTPUT_TOKENS) {
        Some(count) => count,
        None => match max_tokens {
            Some(max_tokens) => if max_tokens < default_tokens {
                max_tokens
            } else {
                default_tokens
            },
            None => default_tokens,
        },
    }
}

/// The lengths of several texts together, as far as they can be counted.
pub open spec fn summed(lengths: Seq<usize>) -> nat
    decreases lengths.len(),
{
    if lengths.len() == 0 {
        0
    } else {
        let sum = summed(lengths.drop_last()) + lengths.last() as nat;
        if sum > usize::MAX {
            usize::MAX as nat
        } else {
            sum
        }
    }
}

fn sum_lengths(lengths: &Vec<usize>) -> (sum: usize)
    ensures
        sum == summed(lengths@),
{
    let mut sum: usize = 0;
    let mut i: usize = 0;
    assert(lengths@.take(0) =~= Seq::<usize>::empty());
    while i < lengths.len()
        invariant
            i <= lengths.len(),
            sum == summed(lengths@.take(i as int)),
        decreases lengths.len() - i,
    {
        proof {
            assert(lengths@.take(i + 1).drop_last() =~= lengths@.take(i as int));
        }
        sum = match sum.checked_add(lengths[i]) {
            Some(sum) => sum,
            None => usize::MAX,
        };
        i += 1;
    }
    assert(lengths@.take(i as int) =~= lengths@);
    sum
}

/// How many tokens a prompt has: what a header says, else the lengths of its
/// texts. There is always one.
pub open spec fn prompt_tokens(contents: crate::headers::HeaderContents, estimate: nat) -> nat {
    at_least_one(
        match header_count(contents, HEADER_INPUT_TOKENS@) {
            Some(count) => count,
            None => estimate,
        },
    )
}

fn count_prompt(headers: &HeaderMap<HeaderValue>, estimate: usize) -> (tokens: usize)
    ensures
        tokens == prompt_tokens(crate::headers::header_contents(*headers), estimate as nat),
{
    proof {
        crate::tunnel_contract::lemma_header_names();
    }
    let count: usize = match read_count(headers, HEADER_INPUT_TOKENS) {
        Some(count) => count,
        None => estimate,
    };
    if count == 0 {
        1
    } else {
        count
    }
}

/// The tokens of a prompt that consists of the texts of these lengths.
pub fn request_input_tokens(headers: &HeaderMap<HeaderValue>, content_lengths: &Vec<usize>) -> (tokens: usize)
    ensures
        tokens == prompt_tokens(crate::headers::header_contents(*headers), summed(content_lengths@)),
{
    count_prompt(headers, sum_lengths(content_lengths))
}

/// One item of what is to be embedded.
#[derive(Clone, Copy, Debug, PartialEq, Eq, Structural)]
pub enum EmbeddingItem {
    Text { length: usize },
    Number,
    Tokens { count: usize },
    Other,
}

/// What is to be embedded.
#[derive(Debug)]
pub enum EmbeddingInput {
    Text { length: usize },
    Batch { items: Vec<EmbeddingItem> },
    Other,
}

/// The batch is one text, given by its tokens.
pub open spec fn token_list(items: Seq<EmbeddingItem>) -> bool {
    items.len() > 0 && forall|i: int| 0 <= i < items.len() ==> #[trigger] items[i] is Number
}

fn is_token_list(items: &Vec<EmbeddingItem>) -> (all: bool)
    ensures
        all == token_list(items@),
{
    if items.len() == 0 {
        return false;
    }
    let mut i: usize = 0;
    while i < items.len()
        invariant
            i <= items.len(),
            forall|j: int| 0 <= j < i ==> #[trigger] items[j] is Number,
        decreases items.len() - i,
    {
        match items[i] {
            EmbeddingItem::Number => {},
            _ => {
                assert(!(items@[i as int] is Number));
                return false;
            },
        }
        i += 1;
    }
    true
}

/// How many texts are to be embedded.
pub fn embedding_item_count(input: &EmbeddingInput) -> (count: usize)
    ensures
        count == (match *input {
            EmbeddingInput::Batch { items } => if token_list(items@) {
                1
            } else {
                items@.len()
            },
            _ => 1,
        }),
{
    match input {
        EmbeddingInput::Batch { items } => if is_token_list(items) {
            1
        } else {
            items.len()
        },
        _ => 1,
    }
}

/// The work of one item; an empty one is work too.
pub open spec fn item_tokens(item: EmbeddingItem) -> usize {
    match item {
        EmbeddingItem::Text { length } => at_least_one(length as nat) as usize,
        EmbeddingItem::Tokens { count } => at_least_one(count as nat) as usize,
        _ => 1,
    }
}

/// The tokens of what is to be embedded.
pub open spec fn embedding_estimate(input: EmbeddingInput) -> nat {
    match input {
        EmbeddingInput::Text { length } => length as nat,
        EmbeddingInput::Batch { items } => summed(items@.map_values(|item: EmbeddingItem| item_tokens(item))),
        EmbeddingInput::Other => 1,
    }
}

/// How many tokens are to be embedded: what a header says, else an estimate by
/// the shape of the input.
pub fn request_embedding_tokens(headers: &HeaderMap<HeaderValue>, input: &EmbeddingInput) -> (tokens: usize)
    ensures
        tokens == prompt_tokens(crate::headers::header_contents(*headers), embedding_estimate(*input)),
{
    let estimate: usize = match input {
        EmbeddingInput::Text { length } => *length,
        EmbeddingInput::Batch { items } => {
            let ghost work = items@.map_values(|item: EmbeddingItem| item_tokens(item));
            let mut lengths: Vec<usize> = Vec::new();
            let mut i: usize = 0;
            while i < items.len()
                invariant
                    i <= items.len(),
                    work == items@.map_values(|item: EmbeddingItem| item_tokens(item)),
                    lengths@ == work.take(i as int),
                decreases items.len() - i,
            {
                let length: usize = match items[i] {
                    EmbeddingItem::Text { length } => if length == 0 {
                        1
                    } else {
                        length
                    },
                    EmbeddingItem::Tokens { count } => if count == 0 {
                        1
                    } else {
                        count
                    },
                    _ => 1,
                };
                lengths.push(length);
                proof {
                    assert(work[i as int] == length);
                    assert(work.take(i + 1) =~= work.take(i as int).push(length));
                }
                i += 1;
            }
            assert(work.take(i as int) =~= work);
            sum_lengths(&lengths)
        },
        EmbeddingInput::Other => 1,
    };
    count_prompt(headers, estimate)
}

/// The header of this name, where it is text.
pub fn optional_header(headers: &HeaderMap<HeaderValue>, name: &str) -> (text: Option<String>)
    ensures
        match (text, crate::headers::first_text(crate::headers::header_contents(*headers), crate::text::lower(name@))) {
            (Some(text), Some(expected)) => text@ == expected,
            (None, None) => true,
            _ => false,
        },
{
    header_text(headers, name)
}

} // verus!
