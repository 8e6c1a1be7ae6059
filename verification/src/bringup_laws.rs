//! How a model is brought up: its health, its canary, its calibration and the
//! requests made for them, call by call.

use http::{HeaderMap, HeaderValue};
use vstd::prelude::*;

use crate::bringup::{
    calibration_ramp, canary_result, completion_result, is_prompt_too_long, step_down, BringupError, CalibrationBatch,
    CalibrationConfig, CompletionReply,
};
use crate::completion_request::{CompletionAttempt, CompletionReport};
use crate::generated_request_id::{request_parts, GeneratedRequestIds, GeneratedRequestKind};
use crate::generation::ModelGeneration;
use crate::request_observation::RequestObservation;
use crate::request_observer::PublishedObservation;
use crate::runtime_state::PylonRuntimeState;
use crate::upstream_health::{HealthCheck, HealthCheckStep, UpstreamHealthPaths};

verus! {

/// A prompt was too long exactly where the upstream blames the client and says
/// so, in any case of its letters.
pub proof fn law_long_prompts_are_told_by_status_and_words(
    status: u16,
    words: Option<String>,
    too_long: bool,
    low: Seq<char>,
    at: int,
)
    requires
        call_ensures(is_prompt_too_long, (status, &words), too_long),
        words is Some ==> low == crate::text::lower(words->0@),
    ensures
        too_long ==> 400 <= status <= 499 && words is Some,
        400 <= status <= 499 && words is Some && 0 <= at && (at + 15 <= low.len() && low.subrange(at, at + 15)
            == "prompt too long"@ || at + 14 <= low.len() && low.subrange(at, at + 14) == "context length"@ || at + 15
            <= low.len() && low.subrange(at, at + 15) == "maximum context"@) ==> too_long,
        too_long ==> crate::text::occurs(low, "prompt too long"@) || crate::text::occurs(low, "context length"@)
            || crate::text::occurs(low, "maximum context"@),
{
    reveal_strlit("prompt too long");
    reveal_strlit("context length");
    reveal_strlit("maximum context");
    assert("prompt too long"@.len() == 15);
    assert("context length"@.len() == 14);
    assert("maximum context"@.len() == 15);
    if words is Some && 0 <= at {
        if at + 15 <= low.len() && low.subrange(at, at + 15) == "prompt too long"@ {
            assert(crate::text::occurs_at(low, "prompt too long"@, at));
        }
        if at + 14 <= low.len() && low.subrange(at, at + 14) == "context length"@ {
            assert(crate::text::occurs_at(low, "context length"@, at));
        }
        if at + 15 <= low.len() && low.subrange(at, at + 15) == "maximum context"@ {
            assert(crate::text::occurs_at(low, "maximum context"@, at));
        }
    }
}

/// A successful answer is the tokens it counts, or invalid where it cannot be
/// read. Any other is a failure: a prompt too long, or what the upstream says of
/// its status, which is its message or else its body.
pub proof fn law_answers_are_read_by_status(
    reply: CompletionReply,
    result: Result<u32, BringupError>,
    too_long: bool,
)
    requires
        call_ensures(completion_result, (reply,), result),
        call_ensures(is_prompt_too_long, (reply.status, &reply.error_message), too_long),
    ensures
        result is Ok <==> 200 <= reply.status <= 299 && reply.completion is Ok,
        result matches Ok(tokens) ==> Ok::<u32, String>(tokens) == reply.completion,
        200 <= reply.status <= 299 && reply.completion is Err ==> result == Err::<u32, BringupError>(
            BringupError::InvalidResponse(reply.completion->Err_0),
        ),
        !(200 <= reply.status <= 299) && too_long ==> result == Err::<u32, BringupError>(BringupError::PromptTooLong),
        !(200 <= reply.status <= 299) && !too_long && reply.error_message is Some ==> result == Err::<
            u32,
            BringupError,
        >(BringupError::Api { status: reply.status, message: reply.error_message->0 }),
        !(200 <= reply.status <= 299) && !too_long && reply.error_message is None ==> result == Err::<
            u32,
            BringupError,
        >(BringupError::Api { status: reply.status, message: reply.body }),
{
}

/// A canary fails where its request failed, with the same error, or where its
/// generation ran to exactly the limit.
pub proof fn law_canary_fails_at_the_limit(
    completion: Result<u32, BringupError>,
    limit: u32,
    result: Result<(), BringupError>,
)
    requires
        call_ensures(canary_result, (completion, limit), result),
    ensures
        result is Ok <==> completion is Ok && completion->Ok_0 != limit,
        completion is Ok && result is Err ==> result->Err_0 == (BringupError::RunawayGeneration { tokens: limit }),
        completion is Err ==> result is Err && result->Err_0 == completion->Err_0,
{
}

/// Calibration starts with the shortest prompt, the configured number of requests
/// and one at a time; each step has twice as much as the one before, up to the
/// configured length and number at a time.
pub proof fn law_calibration_doubles_up_to_its_limits(
    config: CalibrationConfig,
    count: usize,
    ramp: Vec<CalibrationBatch>,
    i: int,
)
    requires
        call_ensures(calibration_ramp, (&config, count), ramp),
        0 <= i < count,
    ensures
        ({
            let longest = if config.calibration_prompt_units < 256 {
                256
            } else {
                config.calibration_prompt_units as int
            };
            let widest = config.calibration_max_concurrency as int;
            let step = ramp@[i];
            let before = ramp@[i - 1];
            &&& ramp@.len() == count
            &&& i == 0 ==> step.prompt_units == 256 && step.request_count == config.calibration_requests
            &&& i == 0 && widest > 0 ==> step.concurrency == 1
            &&& widest == 0 ==> step.concurrency == 0
            &&& i > 0 && 2 * before.prompt_units <= longest ==> step.prompt_units == 2 * before.prompt_units
            &&& i > 0 && 2 * before.prompt_units > longest ==> step.prompt_units == longest
            &&& i > 0 && 2 * before.request_count <= usize::MAX ==> step.request_count == 2 * before.request_count
            &&& i > 0 && 2 * before.request_count > usize::MAX ==> step.request_count == usize::MAX
            &&& i > 0 && 2 * before.concurrency <= widest ==> step.concurrency == 2 * before.concurrency
            &&& i > 0 && 2 * before.concurrency > widest ==> step.concurrency == widest
        }),
{
    assert(crate::bringup::is_ramp_step(config, i as nat, ramp@[i]));
    if i > 0 {
        assert(crate::bringup::is_ramp_step(config, (i - 1) as nat, ramp@[i - 1]));
    }
    reveal_with_fuel(crate::bringup::doubled, 2);
    lemma_doubled_zero(i as nat);
    if i > 0 {
        lemma_doubled_zero((i - 1) as nat);
    }
}

proof fn lemma_doubled_zero(times: nat)
    ensures
        crate::bringup::doubled(1, times, 0) == 0,
    decreases times,
{
    if times > 0 {
        lemma_doubled_zero((times - 1) as nat);
    }
}

/// After a refused prompt the longest completed one that is shorter is tried;
/// where there is none, the prompt is too long.
pub proof fn law_longest_shorter_prompt_is_next(
    completed: Vec<usize>,
    refused: usize,
    next: Result<usize, BringupError>,
    i: int,
)
    requires
        call_ensures(step_down, (&completed, refused), next),
        0 <= i < completed@.len(),
    ensures
        completed@[i] < refused ==> next is Ok && completed@[i] <= next->Ok_0,
        next is Ok ==> next->Ok_0 < refused && completed@.contains(next->Ok_0),
        next is Err ==> next->Err_0 is PromptTooLong && completed@[i] >= refused,
{
    let told = completed@[i];
    assert(0 <= i < completed.len());
    match next {
        Ok(next) => {
            assert(forall|j: int|
                0 <= j < completed.len() && #[trigger] completed[j] < refused ==> completed[j] <= next);
            assert(completed[i] == told);
        },
        Err(_) => {
            assert(next->Err_0 is PromptTooLong);
            assert(completed[i] == told);
            assert(crate::bringup::none_shorter(completed@, refused));
        },
    }
}

/// What an error of the bring-up says.
pub proof fn law_bringup_errors_say_what_failed(error: BringupError, message: String)
    requires
        call_ensures(BringupError::message, (&error,), message),
    ensures
        error matches BringupError::InvalidCalibrationConfig(words) ==> message@
            == "invalid calibration configuration: "@ + words@,
        error matches BringupError::Http(words) ==> message@ == "http request failed: "@ + words@,
        error is UnhealthyUpstream ==> message@ == "upstream health check failed during pylon startup"@,
        error is PromptTooLong ==> message@ == "calibration prompt too long"@,
        error matches BringupError::RunawayGeneration { tokens } ==> message@
            == "runaway generation detected at completion_tokens="@ + crate::text::decimal_text(tokens as nat),
        error matches BringupError::InvalidResponse(words) ==> message@ == "invalid completion response: "@ + words@,
        error is InsufficientCalibrationData ==> message@
            == "calibration saturated before measuring positive input throughput"@,
        error is StatsCollectorStopped ==> message@ == "stats collector stopped during model initialization"@,
        error is RetiredGeneration ==> message@ == "model generation retired during initialization"@,
        error matches BringupError::Api { status, message: words } ==> message@ == "upstream rejected request ("@ + (
        crate::text::decimal_text(status as nat) + " "@ + (match crate::tunnel_request::status_phrase(status) {
            Some(phrase) => phrase,
            None => "<unknown status code>"@,
        })) + "): "@ + words@,
{
}

/// The paths at which an upstream is asked for its health: first those that are
/// configured, rooted and in their order, and both standard ones; none twice.
/// None has answered yet.
pub proof fn law_configured_paths_are_asked_first(
    configured: &[String],
    paths: UpstreamHealthPaths,
    i: int,
    root: Seq<char>,
)
    requires
        call_ensures(UpstreamHealthPaths::new, (configured,), paths),
    ensures
        paths.resolved() is None,
        paths.candidates().no_duplicates(),
        paths.candidates().contains("/health"@),
        paths.candidates().contains("/v1/health/ready"@),
        0 <= i < configured@.len() && root == (if configured@[i]@.len() > 0 && configured@[i]@[0] == '/' {
            configured@[i]@
        } else {
            seq!['/'] + configured@[i]@
        }) ==> paths.candidates().contains(root),
        configured@.len() > 0 ==> paths.candidates()[0] == (if configured@[0]@.len() > 0 && configured@[0]@[0] == '/' {
            configured@[0]@
        } else {
            seq!['/'] + configured@[0]@
        }),
        configured@.len() == 0 ==> paths.candidates()[0] == "/health"@ && paths.candidates()[1] == "/v1/health/ready"@,
        configured@.len() == 0 ==> paths.candidates().len() == 2,
{
    let texts = crate::keyed::views(configured@);
    assert(texts.len() == configured@.len());
    lemma_configured(texts);
    let own = crate::upstream_health::configured_paths(texts);
    let first = crate::upstream_health::with_path(own, "/health"@);
    let all = crate::upstream_health::with_path(first, "/v1/health/ready"@);
    lemma_with_path(own, "/health"@);
    lemma_with_path(first, "/v1/health/ready"@);
    assert(all == paths.candidates());
    if 0 <= i < configured@.len() {
        assert(texts[i] == configured@[i]@);
        assert(own.contains(crate::upstream_health::rooted(texts[i])));
    }
    if configured@.len() > 0 {
        assert(texts[0] == configured@[0]@);
    } else {
        reveal_strlit("/health");
        reveal_strlit("/v1/health/ready");
        assert("/health"@.len() == 7);
        assert("/v1/health/ready"@.len() == 16);
        assert(own.len() == 0);
        assert(first.len() == 1 && first[0] == "/health"@);
        if first.contains("/v1/health/ready"@) {
            assert(first[0] == "/v1/health/ready"@);
        }
    }
}

proof fn lemma_with_path(paths: Seq<Seq<char>>, path: Seq<char>)
    requires
        paths.no_duplicates(),
    ensures
        ({
            let more = crate::upstream_health::with_path(paths, path);
            &&& more.no_duplicates()
            &&& more.contains(path)
            &&& forall|other: Seq<char>| #[trigger] paths.contains(other) ==> more.contains(other)
            &&& more.len() >= paths.len()
            &&& paths.len() > 0 ==> more[0] == paths[0]
            &&& paths.len() == 0 ==> more == seq![path]
        }),
{
    let more = crate::upstream_health::with_path(paths, path);
    if !paths.contains(path) {
        assert(more[more.len() - 1] == path);
        assert forall|other: Seq<char>| #[trigger] paths.contains(other) implies more.contains(other) by {
            let i = choose|i: int| 0 <= i < paths.len() && paths[i] == other;
            assert(more[i] == other);
        }
        assert forall|a: int, b: int| 0 <= a < b < more.len() implies more[a] != more[b] by {
            if b == paths.len() {
                assert(paths.contains(paths[a]));
            }
        }
        assert(paths.len() == 0 ==> more =~= seq![path]);
    }
}

proof fn lemma_configured(configured: Seq<Seq<char>>)
    ensures
        ({
            let own = crate::upstream_health::configured_paths(configured);
            &&& own.no_duplicates()
            &&& forall|i: int|
                0 <= i < configured.len() ==> own.contains(
                    #[trigger] crate::upstream_health::rooted(configured[i]),
                )
            &&& configured.len() > 0 ==> own.len() > 0 && own[0] == crate::upstream_health::rooted(configured[0])
        }),
    decreases configured.len(),
{
    if configured.len() > 0 {
        let rest = configured.drop_last();
        lemma_configured(rest);
        let before = crate::upstream_health::configured_paths(rest);
        lemma_with_path(before, crate::upstream_health::rooted(configured.last()));
        let own = crate::upstream_health::configured_paths(configured);
        assert forall|i: int| 0 <= i < configured.len() implies own.contains(
            #[trigger] crate::upstream_health::rooted(configured[i]),
        ) by {
            if i < rest.len() {
                assert(rest[i] == configured[i]);
                assert(before.contains(crate::upstream_health::rooted(rest[i])));
            }
        }
        if rest.len() > 0 {
            assert(rest[0] == configured[0]);
        } else {
            assert(before.len() == 0);
        }
    }
}

/// Every path is asked once in a round, the one that has answered before first.
/// It is that path which is probed and shown.
pub proof fn law_every_path_is_asked_once(
    paths: UpstreamHealthPaths,
    order: Vec<usize>,
    check: HealthCheck,
    probe: &str,
    resolved: Option<&str>,
    index: usize,
)
    requires
        paths.wf(),
        call_ensures(UpstreamHealthPaths::probe_order, (&paths,), order),
        call_ensures(HealthCheck::begin, (&paths,), check),
        call_ensures(UpstreamHealthPaths::probe_path, (&paths,), probe),
        call_ensures(UpstreamHealthPaths::resolved_path, (&paths,), resolved),
        paths.candidates().len() <= usize::MAX,
    ensures
        check.order() == order@,
        check.next() == 0,
        index < paths.candidates().len() <==> order@.contains(index),
        order@.no_duplicates(),
        paths.resolved() matches Some(first) ==> order@[0] == first && probe@ == paths.candidates()[first as int]
            && resolved is Some && resolved->0@ == probe@,
        paths.resolved() is None ==> probe@ == paths.candidates()[0] && resolved is None,
        paths.resolved() is None && index < paths.candidates().len() ==> order@[index as int] == index,
{
    let count = paths.candidates().len();
    let others = crate::upstream_health::others(count, paths.resolved());
    lemma_others(count, paths.resolved());
    paths.lemma_first_is_candidate();
    match paths.resolved() {
        Some(first) => {
            assert(order@ == seq![first] + others);
            assert forall|a: int, b: int| 0 <= a < b < order@.len() implies order@[a] != order@[b] by {
                if a == 0 {
                    assert(others.contains(others[b - 1]));
                } else {
                    assert(others[a - 1] != others[b - 1]);
                }
            }
            if index < count {
                if index == first {
                    assert(order@[0] == index);
                } else {
                    assert(others.contains(index));
                    let i = choose|i: int| 0 <= i < others.len() && others[i] == index;
                    assert(order@[i + 1] == index);
                }
            }
            if order@.contains(index) {
                let i = choose|i: int| 0 <= i < order@.len() && order@[i] == index;
                if i > 0 {
                    assert(others.contains(others[i - 1]));
                }
            }
        },
        None => {
            assert(order@ =~= others);
            assert(order@.contains(index) == others.contains(index));
        },
    }
}

proof fn lemma_others(count: nat, resolved: Option<usize>)
    requires
        count <= usize::MAX,
    ensures
        ({
            let others = crate::upstream_health::others(count, resolved);
            &&& others.no_duplicates()
            &&& forall|index: usize| #[trigger] others.contains(index) <==> index < count && resolved != Some(index)
            &&& resolved is None ==> others.len() == count && forall|i: int|
                0 <= i < count ==> #[trigger] others[i] == i
        }),
    decreases count,
{
    let others = crate::upstream_health::others(count, resolved);
    if count > 0 {
        let last = (count - 1) as usize;
        let before = crate::upstream_health::others((count - 1) as nat, resolved);
        lemma_others((count - 1) as nat, resolved);
        if resolved == Some(last) {
        } else {
            assert(others == before.push(last));
            assert forall|index: usize| #[trigger] others.contains(index) <==> index < count && resolved
                != Some(index) by {
                if others.contains(index) {
                    let i = choose|i: int| 0 <= i < others.len() && others[i] == index;
                    if i < before.len() {
                        assert(before.contains(before[i]));
                    }
                }
                if index < count && resolved != Some(index) {
                    if index == last {
                        assert(others[before.len() as int] == last);
                    } else {
                        assert(before.contains(index));
                        let i = choose|i: int| 0 <= i < before.len() && before[i] == index;
                        assert(others[i] == index);
                    }
                }
            }
            assert forall|a: int, b: int| 0 <= a < b < others.len() implies others[a] != others[b] by {
                if b == before.len() {
                    assert(before.contains(before[a]));
                }
            }
        }
    }
}

/// A round ends as healthy with the first answer of success, whose path is the
/// one that answered; it goes on to the next path after any other, and is
/// unhealthy only when all have been asked.
pub proof fn law_first_success_ends_the_round(
    check: &mut HealthCheck,
    paths: &mut UpstreamHealthPaths,
    answer: Option<u16>,
    step: HealthCheckStep,
)
    requires
        paths.wf(),
        check.asks(&*paths),
        check.next() >= 0,
        call_ensures(HealthCheck::step, (check, paths, answer), step),
    ensures
        ({
            let success = old(check).next() > 0 && answer is Some && 200 <= answer->0 <= 299;
            let left = old(check).next() < old(check).order().len();
            &&& step is Healthy <==> success
            &&& step is Unhealthy <==> !success && !left
            &&& step is Probe <==> !success && left
            &&& step matches HealthCheckStep::Probe(index) ==> index == old(check).order()[old(check).next()]
                && final(check).next() == old(check).next() + 1
            &&& success ==> final(paths).resolved() == Some(old(check).order()[old(check).next() - 1])
            &&& !success ==> final(paths).resolved() == old(paths).resolved()
            &&& final(paths).candidates() == old(paths).candidates()
            &&& final(check).order() == old(check).order()
        }),
{
}

/// The identifiers that a process makes say what the request is for and for
/// which generation, to that process alone, and no two are the same.
pub proof fn law_made_identifiers_are_known_again(
    ids: &mut GeneratedRequestIds,
    kind: GeneratedRequestKind,
    generation: ModelGeneration,
    id: String,
    again: &mut GeneratedRequestIds,
    other_kind: GeneratedRequestKind,
    other_generation: ModelGeneration,
    other: String,
    text: &str,
    reader: GeneratedRequestIds,
    model_id: &str,
    read_kind: Option<GeneratedRequestKind>,
    read_generation: Option<ModelGeneration>,
)
    requires
        ids.wf(),
        ids.counter() < u64::MAX - 1,
        call_ensures(GeneratedRequestIds::next_generated_request_id, (ids, kind, &generation), id),
        *again == *final(ids),
        call_ensures(
            GeneratedRequestIds::next_generated_request_id,
            (again, other_kind, &other_generation),
            other,
        ),
        text@ == id@,
        reader.wf(),
        call_ensures(GeneratedRequestIds::generated_request_kind, (&reader, text), read_kind),
        call_ensures(GeneratedRequestIds::generated_request_generation, (&reader, text, model_id), read_generation),
    ensures
        id@ != other@,
        reader.scope_value() == old(ids).scope_value() ==> {
            &&& read_kind == Some(kind)
            &&& read_generation is Some
            &&& read_generation->0.sequence == generation.sequence
            &&& read_generation->0.model_id@ == model_id@
        },
        reader.scope_value() != old(ids).scope_value() ==> read_kind is None && read_generation is None,
{
    let counter = old(ids).counter();
    old(ids).lemma_scope();
    crate::generated_request_id::law_issued_id_round_trips(
        kind,
        old(ids).scope(),
        old(ids).scope_value(),
        generation@.sequence,
        counter,
    );
    crate::generated_request_id::law_issued_ids_differ(
        kind,
        other_kind,
        old(ids).scope(),
        generation@.sequence,
        other_generation@.sequence,
        counter,
        (counter + 1) as u64,
    );
}

/// How an identifier is written, and when they run out.
pub proof fn law_identifiers_are_written_in_parts(
    ids: &mut GeneratedRequestIds,
    kind: GeneratedRequestKind,
    generation: ModelGeneration,
    id: String,
    prefix: &'static str,
    exhausted: bool,
    read: Option<u128>,
    own: u128,
    sequence: u64,
    parts: Option<(GeneratedRequestKind, u64)>,
)
    requires
        ids.wf(),
        ids.counter() < u64::MAX,
        call_ensures(GeneratedRequestIds::is_exhausted, (&*ids,), exhausted),
        call_ensures(GeneratedRequestIds::next_generated_request_id, (ids, kind, &generation), id),
        call_ensures(GeneratedRequestKind::prefix, (kind,), prefix),
        call_ensures(request_parts, (kind, sequence, read, own), parts),
    ensures
        kind is Calibration ==> prefix@ == "calibration"@,
        kind is Canary ==> prefix@ == "canary"@,
        id@ == prefix@ + "-"@ + old(ids).scope() + "-g"@ + crate::text::decimal_text(generation.sequence as nat) + "-"@
            + crate::text::decimal_text(old(ids).counter() as nat),
        !exhausted,
        final(ids).counter() == old(ids).counter() + 1,
        parts is Some <==> read == Some(own),
        parts is Some ==> parts == Some((kind, sequence)),
{
}

/// A request that the pylon makes itself is for the generation it was made for,
/// with the bytes of its text for tokens, or one without a text. Followed or not,
/// it is named in its headers.
pub proof fn law_own_requests_are_named_and_sized(
    ids: &mut GeneratedRequestIds,
    kind: GeneratedRequestKind,
    generation: ModelGeneration,
    content_bytes: Option<usize>,
    observed: bool,
    state: &mut PylonRuntimeState,
    now: u64,
    attempt: CompletionAttempt,
    published: Option<PublishedObservation>,
    headers: Option<HeaderMap<HeaderValue>>,
)
    requires
        ids.wf(),
        ids.counter() < u64::MAX,
        state.wf(),
        call_ensures(
            CompletionAttempt::begin,
            (ids, kind, &generation, content_bytes, observed, state, now),
            (attempt, published),
        ),
        call_ensures(CompletionAttempt::request_headers, (&attempt,), headers),
    ensures
        attempt.model_id@ == generation.model_id@,
        content_bytes is Some ==> attempt.input_tokens == content_bytes->0 as u64,
        content_bytes is None ==> attempt.input_tokens == 1,
        attempt.observer is Some <==> observed,
        published is Some <==> observed,
        !observed ==> *final(state) == *old(state),
        observed ==> {
            let told = published->0.event.observation;
            &&& told.request_id@ == attempt.request_id@
            &&& told.model_id@ == generation.model_id@
            &&& told.input_tokens == attempt.input_tokens
            &&& told.priority == 0
            &&& told.state is Accepted
            &&& told.endpoint is ChatCompletions
            &&& attempt.observer->0.observer().accepted_at() == now
            &&& attempt.observer->0.observer().generation() == Some(generation@)
        },
        headers matches Some(headers) ==> {
            let contents = crate::headers::header_contents(headers);
            &&& contents.dom() == set!["x-request-id"@, "x-model"@, "x-input-tokens"@]
            &&& contents["x-request-id"@] == seq![vstd::utf8::encode_utf8(attempt.request_id@)]
            &&& contents["x-model"@] == seq![vstd::utf8::encode_utf8(attempt.model_id@)]
            &&& contents["x-input-tokens"@].len() == 1
            &&& crate::headers::value_text(contents["x-input-tokens"@][0]) == Some(
                crate::text::decimal_text(attempt.input_tokens as nat),
            )
        },
        headers is None ==> !crate::headers::valid_value(vstd::utf8::encode_utf8(attempt.request_id@))
            || !crate::headers::valid_value(vstd::utf8::encode_utf8(attempt.model_id@)),
{
    reveal_strlit("x-request-id");
    reveal_strlit("x-model");
    reveal_strlit("x-input-tokens");
    assert("x-request-id"@.len() == 12);
    assert("x-model"@.len() == 7);
    assert("x-input-tokens"@.len() == 14);
    let text = crate::text::decimal_text(attempt.input_tokens as nat);
    crate::text::lemma_decimal_round_trip(attempt.input_tokens as nat);
    let bytes = crate::headers::ascii_bytes(text);
    assert forall|i: int| 0 <= i < bytes.len() implies crate::headers::visible(#[trigger] bytes[i]) && bytes[i] as char
        == text[i] by {
        assert('0' <= text[i] <= '9');
    }
    assert(bytes.map_values(|b: u8| b as char) =~= text);
    if let Some(headers) = headers {
        assert(crate::headers::header_contents(headers).dom() =~= set![
            "x-request-id"@,
            "x-model"@,
            "x-input-tokens"@
        ]);
    }
}

/// A completion that came back is told in three steps: one message, the count of
/// its tokens, and the end. It is live no more where its generation is served. A
/// request that is given up has failed.
pub proof fn law_own_requests_end_with_their_count(
    attempt: &mut CompletionAttempt,
    tokens: u32,
    state: &mut PylonRuntimeState,
    now: u64,
    report: CompletionReport,
    abandoned: &mut CompletionAttempt,
    abandoned_state: &mut PylonRuntimeState,
    published: Option<PublishedObservation>,
)
    requires
        attempt.wf(),
        state.wf(),
        abandoned_state.wf(),
        call_ensures(CompletionAttempt::finish_observation, (attempt, tokens, state, now), report),
        call_ensures(CompletionAttempt::abandon, (abandoned, abandoned_state, now), published),
    ensures
        ({
            let followed = old(attempt).observer is Some;
            let before = old(attempt).observer->0.observer().observation();
            let goes_on = followed && !(before.state is Complete || before.state is Failed);
            &&& !goes_on ==> report.output is None && report.tokens is None && report.finished is None
            &&& goes_on ==> {
                &&& report.output is Some && report.tokens is Some && report.finished is Some
                &&& before.output_messages < u64::MAX ==> report.output->0.event.observation.output_messages
                    == before.output_messages + 1
                &&& report.output->0.event.observation.state is OutputGeneration
                &&& report.tokens->0.event.observation.output_tokens == tokens
                &&& report.tokens->0.event.observation.output_tokens_explicit
                &&& report.finished->0.event.observation.output_tokens == tokens
                &&& report.finished->0.event.observation.state is Complete
                &&& report.finished->0.event.observation.request_id@ == before.request_id@
                &&& report.finished->0.event.observation == (RequestObservation {
                    state: report.finished->0.event.observation.state,
                    output_messages: report.output->0.event.observation.output_messages,
                    output_tokens: report.tokens->0.event.observation.output_tokens,
                    output_tokens_explicit: report.tokens->0.event.observation.output_tokens_explicit,
                    time_to_first_output: report.output->0.event.observation.time_to_first_output,
                    time_to_first_token: report.tokens->0.event.observation.time_to_first_token,
                    total_duration: report.finished->0.event.observation.total_duration,
                    ..before
                })
                &&& crate::observer_laws::time_between(
                    old(attempt).observer->0.observer().accepted_at(),
                    now,
                    report.finished->0.event.observation.total_duration,
                )
                &&& crate::observer_laws::noted_once(
                    before.time_to_first_output,
                    report.output->0.event.observation.time_to_first_output,
                    report.finished->0.event.observation.total_duration,
                )
                &&& old(attempt).observer->0.observer().generation() is Some && crate::serving_laws::serves(
                    *old(state),
                    old(attempt).observer->0.observer().generation()->0,
                ) ==> !final(state).requests().contains_key(before.request_id@)
                &&& crate::forward_laws::only_touches(*old(state), *final(state), before.request_id@)
            }
        }),
        ({
            let followed = old(abandoned).observer is Some;
            let before = old(abandoned).observer->0.observer().observation();
            let goes_on = followed && !(before.state is Complete || before.state is Failed);
            &&& published is Some <==> goes_on
            &&& goes_on ==> published->0.event.observation.state is Failed
            &&& goes_on ==> published->0.event.observation == (RequestObservation {
                state: published->0.event.observation.state,
                total_duration: published->0.event.observation.total_duration,
                ..before
            })
        }),
        final(attempt).request_id == old(attempt).request_id,
        final(attempt).model_id == old(attempt).model_id,
        final(attempt).input_tokens == old(attempt).input_tokens,
{
}

/// A request of the pylon's own that is sent is connecting, and the head of its
/// answer brings the status; one that is not followed tells nothing.
pub proof fn law_own_requests_are_followed_as_others(
    attempt: &mut CompletionAttempt,
    state: &mut PylonRuntimeState,
    now: u64,
    published: Option<PublishedObservation>,
    answered: &mut CompletionAttempt,
    status: u16,
    answered_state: &mut PylonRuntimeState,
    told: Option<PublishedObservation>,
)
    requires
        state.wf(),
        answered_state.wf(),
        call_ensures(CompletionAttempt::on_upstream_send, (attempt, state, now), published),
        call_ensures(
            CompletionAttempt::on_upstream_response_headers,
            (answered, status, answered_state, now),
            told,
        ),
    ensures
        old(attempt).observer is None ==> published is None && final(attempt).observer is None,
        old(attempt).observer is Some && !old(attempt).observer->0.observer().terminal() ==> {
            &&& published is Some
            &&& published->0.event.observation.state is UpstreamConnecting
            &&& published->0.event.observation.request_id == old(
                attempt,
            ).observer->0.observer().observation().request_id
            &&& crate::observer_laws::load_follows(
                *old(state),
                *final(state),
                final(attempt).observer->0.observer(),
            )
        },
        old(answered).observer is None ==> told is None && final(answered).observer is None,
        old(answered).observer is Some && !old(answered).observer->0.observer().terminal() ==> {
            &&& told is Some
            &&& told->0.event.observation.state is InputProcessing
            &&& told->0.event.observation.upstream_status == Some(status)
            &&& crate::observer_laws::load_follows(
                *old(answered_state),
                *final(answered_state),
                final(answered).observer->0.observer(),
            )
        },
{
}

} // verus!
