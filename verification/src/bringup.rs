//! Bringing a model up: health, canary and calibration requests.

use vstd::prelude::*;

use crate::text::{contains_text, decimal, join_texts, to_lower};
use crate::tunnel_request::canonical_reason;

verus! {

/// How an active model is watched. Times are in nanoseconds.
#[derive(Clone, Copy, Debug, PartialEq, Eq, Structural)]
pub struct BringupConfig {
    pub enabled: bool,
    pub active_canary_interval: u64,
    pub canary_timeout: u64,
    pub canary_max_generation_threshold: u32,
}

/// How the input rate of a model is measured. Times are in nanoseconds.
#[derive(Clone, Copy, Debug, PartialEq, Eq, Structural)]
pub struct CalibrationConfig {
    pub health_timeout: u64,
    pub calibration_requests: usize,
    pub calibration_prompt_units: usize,
    pub calibration_max_concurrency: usize,
    pub calibration_timeout: u64,
}

pub const DEFAULT_ACTIVE_CANARY_INTERVAL: u64 = 5_000_000_000;
pub const DEFAULT_CANARY_TIMEOUT: u64 = 5_000_000_000;
pub const DEFAULT_CANARY_MAX_GENERATION_THRESHOLD: u32 = 237;
pub const DEFAULT_CALIBRATION_REQUESTS: usize = 5;
pub const DEFAULT_CALIBRATION_PROMPT_UNITS: usize = 4096;
pub const DEFAULT_CALIBRATION_MAX_CONCURRENCY: usize = 4;
pub const DEFAULT_CALIBRATION_TIMEOUT: u64 = 30_000_000_000;

impl Default for BringupConfig {
    fn default() -> (config: Self)
        ensures
            config == (BringupConfig {
                enabled: true,
                active_canary_interval: 5_000_000_000,
                canary_timeout: 5_000_000_000,
                canary_max_generation_threshold: 237,
            }),
    {
        BringupConfig {
            enabled: true,
            active_canary_interval: DEFAULT_ACTIVE_CANARY_INTERVAL,
            canary_timeout: DEFAULT_CANARY_TIMEOUT,
            canary_max_generation_threshold: DEFAULT_CANARY_MAX_GENERATION_THRESHOLD,
        }
    }
}

impl Default for CalibrationConfig {
    fn default() -> (config: Self)
        ensures
            config == (CalibrationConfig {
                health_timeout: 5_000_000_000,
                calibration_requests: 5,
                calibration_prompt_units: 4096,
                calibration_max_concurrency: 4,
                calibration_timeout: 30_000_000_000,
            }),
    {
        CalibrationConfig {
            health_timeout: DEFAULT_CANARY_TIMEOUT,
            calibration_requests: DEFAULT_CALIBRATION_REQUESTS,
            calibration_prompt_units: DEFAULT_CALIBRATION_PROMPT_UNITS,
            calibration_max_concurrency: DEFAULT_CALIBRATION_MAX_CONCURRENCY,
            calibration_timeout: DEFAULT_CALIBRATION_TIMEOUT,
        }
    }
}

/// Why a model could not be brought up. `Http` carries the transport's words.
#[derive(Debug)]
pub enum BringupError {
    InvalidCalibrationConfig(&'static str),
    Http(String),
    UnhealthyUpstream,
    Api { status: u16, message: String },
    PromptTooLong,
    RunawayGeneration { tokens: u32 },
    InvalidResponse(String),
    InsufficientCalibrationData,
    StatsCollectorStopped,
    RetiredGeneration,
}

/// A status with its standard phrase.
pub open spec fn status_text(status: u16, phrase: Option<Seq<char>>) -> Seq<char> {
    crate::text::decimal_text(status as nat) + " "@ + (match phrase {
        Some(phrase) => phrase,
        None => "<unknown status code>"@,
    })
}

fn write_status(status: u16, phrase: Option<String>) -> (text: String)
    ensures
        text@ == status_text(status, (match phrase {
            Some(phrase) => Some(phrase@),
            None => None,
        })),
{
    let text = join_texts(decimal(status as u64).as_str(), " ");
    match phrase {
        Some(phrase) => join_texts(text.as_str(), phrase.as_str()),
        None => join_texts(text.as_str(), "<unknown status code>"),
    }
}

impl BringupError {
    /// What the error says.
    pub open spec fn text(&self) -> Seq<char> {
        match self {
            BringupError::InvalidCalibrationConfig(words) => "invalid calibration configuration: "@ + words@,
            BringupError::Http(words) => "http request failed: "@ + words@,
            BringupError::UnhealthyUpstream => "upstream health check failed during pylon startup"@,
            BringupError::Api { status, message } => "upstream rejected request ("@ + status_text(
                *status,
                crate::tunnel_request::status_phrase(*status),
            ) + "): "@ + message@,
            BringupError::PromptTooLong => "calibration prompt too long"@,
            BringupError::RunawayGeneration { tokens } => "runaway generation detected at completion_tokens="@
                + crate::text::decimal_text(*tokens as nat),
            BringupError::InvalidResponse(words) => "invalid completion response: "@ + words@,
            BringupError::InsufficientCalibrationData => {
                "calibration saturated before measuring positive input throughput"@
            },
            BringupError::StatsCollectorStopped => "stats collector stopped during model initialization"@,
            BringupError::RetiredGeneration => "model generation retired during initialization"@,
        }
    }

    pub fn message(&self) -> (message: String)
        ensures
            message@ == self.text(),
    {
        match self {
            BringupError::InvalidCalibrationConfig(words) => join_texts("invalid calibration configuration: ", words),
            BringupError::Http(words) => join_texts("http request failed: ", words.as_str()),
            BringupError::UnhealthyUpstream => "upstream health check failed during pylon startup".to_string(),
            BringupError::Api { status, message } => {
                let status = write_status(*status, canonical_reason(*status));
                let text = join_texts("upstream rejected request (", status.as_str());
                let text = join_texts(text.as_str(), "): ");
                join_texts(text.as_str(), message.as_str())
            },
            BringupError::PromptTooLong => "calibration prompt too long".to_string(),
            BringupError::RunawayGeneration { tokens } => join_texts(
                "runaway generation detected at completion_tokens=",
                decimal(*tokens as u64).as_str(),
            ),
            BringupError::InvalidResponse(words) => join_texts("invalid completion response: ", words.as_str()),
            BringupError::InsufficientCalibrationData => {
                "calibration saturated before measuring positive input throughput".to_string()
            },
            BringupError::StatsCollectorStopped => "stats collector stopped during model initialization".to_string(),
            BringupError::RetiredGeneration => "model generation retired during initialization".to_string(),
        }
    }
}

/// The HTTP status is one of success.
pub open spec fn success_status(status: u16) -> bool {
    200 <= status < 300
}

/// The HTTP status blames the client.
pub open spec fn client_error_status(status: u16) -> bool {
    400 <= status < 500
}

/// The message, in any case, speaks of a prompt that is too long.
pub open spec fn speaks_of_length(message: Seq<char>) -> bool {
    let low = crate::text::lower(message);
    ||| crate::text::occurs(low, "prompt too long"@)
    ||| crate::text::occurs(low, "context length"@)
    ||| crate::text::occurs(low, "maximum context"@)
}

/// Whether the upstream refused a prompt for its length.
pub fn is_prompt_too_long(status: u16, message: &Option<String>) -> (too_long: bool)
    ensures
        too_long == (client_error_status(status) && (message matches Some(message) && speaks_of_length(message@))),
{
    if !(400 <= status && status < 500) {
        return false;
    }
    match message {
        Some(message) => {
            let low = to_lower(message.as_str());
            contains_text(low.as_str(), "prompt too long") || contains_text(low.as_str(), "context length")
                || contains_text(low.as_str(), "maximum context")
        },
        None => false,
    }
}

/// What an upstream answered to a completion request. On success `completion`
/// is the number of completion tokens or the words of the parser; otherwise
/// `error_message` is the message in the error body, if there is one, and
/// `body` the body as text.
#[derive(Debug)]
pub struct CompletionReply {
    pub status: u16,
    pub completion: Result<u32, String>,
    pub error_message: Option<String>,
    pub body: String,
}

/// The completion tokens of an answered request, or why it failed.
pub fn completion_result(reply: CompletionReply) -> (result: Result<u32, BringupError>)
    ensures
        if success_status(reply.status) {
            match (result, reply.completion) {
                (Ok(tokens), Ok(expected)) => tokens == expected,
                (Err(BringupError::InvalidResponse(words)), Err(expected)) => words == expected,
                _ => false,
            }
        } else if client_error_status(reply.status) && (reply.error_message matches Some(message)
            && speaks_of_length(message@)) {
            result matches Err(BringupError::PromptTooLong)
        } else {
            result matches Err(BringupError::Api { status, message }) && status == reply.status && message == (
            match reply.error_message {
                Some(message) => message,
                None => reply.body,
            })
        },
{
    if 200 <= reply.status && reply.status < 300 {
        return match reply.completion {
            Ok(tokens) => Ok(tokens),
            Err(words) => Err(BringupError::InvalidResponse(words)),
        };
    }
    if is_prompt_too_long(reply.status, &reply.error_message) {
        return Err(BringupError::PromptTooLong);
    }
    Err(
        BringupError::Api {
            status: reply.status,
            message: match reply.error_message {
                Some(message) => message,
                None => reply.body,
            },
        },
    )
}

/// Whether a canary passed: a generation that runs to its limit is taken to
/// run away.
pub fn canary_result(completion: Result<u32, BringupError>, canary_max_generation_threshold: u32) -> (result: Result<
    (),
    BringupError,
>)
    ensures
        match completion {
            Ok(tokens) => if tokens == canary_max_generation_threshold {
                result matches Err(BringupError::RunawayGeneration { tokens: reported }) && reported == tokens
            } else {
                result is Ok
            },
            Err(error) => result == Err::<(), BringupError>(error),
        },
{
    match completion {
        Ok(tokens) => if tokens == canary_max_generation_threshold {
            Err(BringupError::RunawayGeneration { tokens })
        } else {
            Ok(())
        },
        Err(error) => Err(error),
    }
}

/// The shortest prompt that is calibrated with.
pub const CALIBRATION_PROMPT_UNITS_FLOOR: usize = 256;

/// One step of the calibration ramp.
#[derive(Clone, Copy, Debug, PartialEq, Eq, Structural)]
pub struct CalibrationBatch {
    pub prompt_units: usize,
    pub request_count: usize,
    pub concurrency: usize,
}

/// `base` doubled `times` times, but no more than `cap`.
pub open spec fn doubled(base: nat, times: nat, cap: nat) -> nat
    decreases times,
{
    if times == 0 {
        if base < cap {
            base
        } else {
            cap
        }
    } else {
        let before = doubled(base, (times - 1) as nat, cap);
        if 2 * before < cap {
            2 * before
        } else {
            cap
        }
    }
}

fn double(value: usize, cap: usize) -> (result: usize)
    ensures
        result == (if 2 * value < cap {
            2 * value as int
        } else {
            cap as int
        }),
{
    if value <= usize::MAX / 2 && 2 * value < cap {
        2 * value
    } else {
        cap
    }
}

fn smaller(a: usize, b: usize) -> (result: usize)
    ensures
        result == (if a < b {
            a
        } else {
            b
        }),
{
    if a < b {
        a
    } else {
        b
    }
}

/// The longest prompt of a ramp.
pub open spec fn prompt_cap(config: CalibrationConfig) -> nat {
    if config.calibration_prompt_units < CALIBRATION_PROMPT_UNITS_FLOOR {
        CALIBRATION_PROMPT_UNITS_FLOOR as nat
    } else {
        config.calibration_prompt_units as nat
    }
}

/// The ramp's step of the given number: from the shortest prompt, the
/// configured number of requests and one request at a time, everything doubles
/// until it meets its cap; the number of requests has none but the machine's.
pub open spec fn is_ramp_step(config: CalibrationConfig, number: nat, batch: CalibrationBatch) -> bool {
    &&& batch.prompt_units == doubled(CALIBRATION_PROMPT_UNITS_FLOOR as nat, number, prompt_cap(config))
    &&& batch.request_count == doubled(config.calibration_requests as nat, number, usize::MAX as nat)
    &&& batch.concurrency == doubled(1, number, config.calibration_max_concurrency as nat)
}

/// The first `count` steps of the ramp.
pub fn calibration_ramp(config: &CalibrationConfig, count: usize) -> (ramp: Vec<CalibrationBatch>)
    ensures
        ramp.len() == count,
        forall|i: int| 0 <= i < count ==> is_ramp_step(*config, i as nat, #[trigger] ramp[i]),
{
    let longest: usize = if config.calibration_prompt_units < CALIBRATION_PROMPT_UNITS_FLOOR {
        CALIBRATION_PROMPT_UNITS_FLOOR
    } else {
        config.calibration_prompt_units
    };
    let mut ramp: Vec<CalibrationBatch> = Vec::new();
    let mut batch = CalibrationBatch {
        prompt_units: CALIBRATION_PROMPT_UNITS_FLOOR,
        request_count: config.calibration_requests,
        concurrency: smaller(1, config.calibration_max_concurrency),
    };
    let mut i: usize = 0;
    while i < count
        invariant
            i <= count,
            longest == prompt_cap(*config),
            ramp.len() == i,
            is_ramp_step(*config, i as nat, batch),
            forall|j: int| 0 <= j < i ==> is_ramp_step(*config, j as nat, #[trigger] ramp[j]),
        decreases count - i,
    {
        ramp.push(batch);
        batch = CalibrationBatch {
            prompt_units: double(batch.prompt_units, longest),
            request_count: double(batch.request_count, usize::MAX),
            concurrency: double(batch.concurrency, config.calibration_max_concurrency),
        };
        i += 1;
    }
    ramp
}

/// No completed prompt is shorter than the refused one.
pub open spec fn none_shorter(completed: Seq<usize>, refused: usize) -> bool {
    forall|i: int| 0 <= i < completed.len() ==> #[trigger] completed[i] >= refused
}

/// The next prompt length to try after one was refused: the longest completed
/// one below it. A refusal with none below is final.
pub fn step_down(completed: &Vec<usize>, refused: usize) -> (next: Result<usize, BringupError>)
    ensures
        match next {
            Ok(next) => {
                &&& completed@.contains(next)
                &&& next < refused
                &&& forall|i: int| 0 <= i < completed.len() && #[trigger] completed[i] < refused ==> completed[i] <= next
            },
            Err(error) => {
                &&& error is PromptTooLong
                &&& forall|i: int| 0 <= i < completed.len() ==> #[trigger] completed[i] >= refused
            },
        },
        next is Err ==> none_shorter(completed@, refused),
{
    let mut best: Option<usize> = None;
    let mut i: usize = 0;
    while i < completed.len()
        invariant
            i <= completed.len(),
            match best {
                Some(best) => {
                    &&& completed@.contains(best)
                    &&& best < refused
                    &&& forall|j: int| 0 <= j < i && #[trigger] completed[j] < refused ==> completed[j] <= best
                },
                None => forall|j: int| 0 <= j < i ==> #[trigger] completed[j] >= refused,
            },
        decreases completed.len() - i,
    {
        let units: usize = completed[i];
        if units < refused {
            best = match best {
                Some(known) => if known < units {
                    Some(units)
                } else {
                    Some(known)
                },
                None => Some(units),
            };
        }
        i += 1;
    }
    match best {
        Some(next) => Ok(next),
        None => Err(BringupError::PromptTooLong),
    }
}

/// Calibration never probes with less than the shortest prompt, nor with more
/// than the configured one, and no step is lighter than the one before.
pub proof fn law_ramp_never_eases(config: CalibrationConfig, number: nat, batch: CalibrationBatch, next: CalibrationBatch)
    requires
        is_ramp_step(config, number, batch),
        is_ramp_step(config, number + 1, next),
    ensures
        CALIBRATION_PROMPT_UNITS_FLOOR <= batch.prompt_units <= prompt_cap(config),
        batch.concurrency <= config.calibration_max_concurrency,
        batch.prompt_units <= next.prompt_units,
        batch.request_count <= next.request_count,
        batch.concurrency <= next.concurrency,
{
    lemma_doubled_bounds(CALIBRATION_PROMPT_UNITS_FLOOR as nat, number, prompt_cap(config));
    lemma_doubled_bounds(config.calibration_requests as nat, number, usize::MAX as nat);
    lemma_doubled_bounds(1, number, config.calibration_max_concurrency as nat);
}

proof fn lemma_doubled_bounds(base: nat, times: nat, cap: nat)
    ensures
        doubled(base, times, cap) <= cap,
        base <= cap ==> base <= doubled(base, times, cap),
        doubled(base, times, cap) <= doubled(base, times + 1, cap),
    decreases times,
{
    if times > 0 {
        lemma_doubled_bounds(base, (times - 1) as nat, cap);
    }
}

} // verus!
