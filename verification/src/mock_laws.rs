//! What a mock engine answers, step by step, and how it is controlled.

use http::{HeaderMap, HeaderValue};
use vstd::prelude::*;

use crate::json_text::json_truth;
use crate::openai::{
    answer, chat_chunk_json, chat_completion_id, chat_completion_json, chat_failure_message, chat_usage,
    counters_event, dummy_token, embeddings_id, model_list_json, response_event_json, response_id, stream_event,
    ChatRequest, ChatStreamChunk, ChatUsage, EmbeddingEncodingFormat, EmbeddingsPlan, EmbeddingsRequest,
    GenerationPlan, MockEngine, ResponsesRequest, ResponsesStreamEvent, StreamAction, StreamCursor, StreamKind,
};
use crate::stats_stream::StatsStreamEvent;
use crate::test_control::{
    request_class, ModelTestControlUpdate, TestControlSnapshot, TestControlState, TestEndpoint, TestRequestClass,
};
use crate::timing::{embedding_item_count, request_embedding_tokens, request_input_tokens, request_output_tokens};

verus! {

/// One token more adds its text to the answer, and the texts come round after
/// thirty.
pub proof fn law_answers_grow_token_by_token(
    tokens: usize,
    text: String,
    more: usize,
    longer: String,
    token: &'static str,
    again: usize,
    repeated: &'static str,
)
    requires
        call_ensures(answer, (tokens,), text),
        call_ensures(answer, (more,), longer),
        call_ensures(dummy_token, (tokens,), token),
        call_ensures(dummy_token, (again,), repeated),
        more == tokens + 1,
        again == tokens + 30,
    ensures
        tokens == 0 ==> text@.len() == 0,
        longer@ == text@ + token@,
        repeated@ == token@,
        token@ == words()[tokens as int % 30],
{
    assert((tokens as nat + 30) % 30 == tokens as nat % 30);
    lemma_words((tokens % 30) as u8);
}

/// The texts of the tokens.
pub open spec fn words() -> Seq<Seq<char>> {
    seq![
        "Hello"@,
        ","@,
        " how"@,
        " can"@,
        " I"@,
        " help"@,
        " you"@,
        " today"@,
        "?"@,
        " I"@,
        " am"@,
        " a"@,
        " helpful"@,
        " AI"@,
        " assistant"@,
        "."@,
        " Let"@,
        " me"@,
        " know"@,
        " what"@,
        " you"@,
        " need"@,
        "."@,
        " I"@,
        "'m"@,
        " here"@,
        " to"@,
        " assist"@,
        " you"@,
        "!"@,
    ]
}

proof fn lemma_words(place: u8)
    requires
        place < 30,
    ensures
        crate::openai::dummy_word(place) == words()[place as int],
{
    if place == 0 {
    } else if place == 1 {
    } else if place == 2 {
    } else if place == 3 {
    } else if place == 4 {
    } else if place == 5 {
    } else if place == 6 {
    } else if place == 7 {
    } else if place == 8 {
    } else if place == 9 {
    } else if place == 10 {
    } else if place == 11 {
    } else if place == 12 {
    } else if place == 13 {
    } else if place == 14 {
    } else if place == 15 {
    } else if place == 16 {
    } else if place == 17 {
    } else if place == 18 {
    } else if place == 19 {
    } else if place == 20 {
    } else if place == 21 {
    } else if place == 22 {
    } else if place == 23 {
    } else if place == 24 {
    } else if place == 25 {
    } else if place == 26 {
    } else if place == 27 {
    } else if place == 28 {
    } else if place == 29 {
    }
}

/// Where the steps of the tokens from `index` on stand.
proof fn lemma_token_places(index: usize, tokens: usize, k: usize)
    requires
        0 < index <= tokens,
    ensures
        ({
            let steps = crate::openai::token_actions(index, tokens);
            &&& steps.len() == 3 * (tokens - index)
            &&& index <= k < tokens ==> {
                let at = 3 * (k - index);
                &&& steps[at] == (StreamAction::WaitToken { index: k })
                &&& steps[at + 1] == (StreamAction::Token { index: k })
                &&& steps[at + 2] == (StreamAction::Count { output_tokens: (k + 1) as usize, finished: false })
            }
        }),
    decreases tokens - index,
{
    if index < tokens {
        let next = (index + 1) as usize;
        lemma_token_places(next, tokens, k);
        let rest = crate::openai::token_actions(next, tokens);
        let steps = crate::openai::token_actions(index, tokens);
        assert(steps == seq![StreamAction::WaitToken { index }] + seq![
            StreamAction::Token { index },
            StreamAction::Count { output_tokens: (index + 1) as usize, finished: false },
        ] + rest);
        if index < k < tokens {
            let at = 3 * (k - index);
            assert(steps[at] == rest[at - 3]);
            assert(steps[at + 1] == rest[at - 2]);
            assert(steps[at + 2] == rest[at - 1]);
        }
    }
}

/// A chat stream waits for its first token, counts its input, says who speaks,
/// and sends each token in its turn, waiting for each but the first and counting
/// each; it says that it is complete, counts all, and ends.
pub proof fn law_chat_stream_sends_its_tokens_in_turn(tokens: usize, cursor: StreamCursor, k: usize)
    requires
        call_ensures(StreamCursor::new, (StreamKind::Chat, tokens), cursor),
    ensures
        ({
            let steps = cursor.remaining();
            &&& steps[0] is WaitFirst
            &&& steps[1] == (StreamAction::Count { output_tokens: 0, finished: false })
            &&& steps[2] is Role
            &&& tokens > 0 ==> steps.len() == 3 * tokens + 5
            &&& tokens == 0 ==> steps.len() == 6
            &&& 0 < tokens ==> steps[3] == (StreamAction::Token { index: 0 }) && steps[4] == (StreamAction::Count {
                output_tokens: 1,
                finished: false,
            })
            &&& 0 < k < tokens ==> {
                &&& steps[3 * k + 2] == (StreamAction::WaitToken { index: k })
                &&& steps[3 * k + 3] == (StreamAction::Token { index: k })
                &&& steps[3 * k + 4] == (StreamAction::Count { output_tokens: (k + 1) as usize, finished: false })
            }
            &&& steps[steps.len() - 3] is Completed
            &&& steps[steps.len() - 2] == (StreamAction::Count { output_tokens: tokens, finished: true })
            &&& steps[steps.len() - 1] is Done
        }),
{
    let opening = seq![StreamAction::WaitFirst, StreamAction::Count { output_tokens: 0, finished: false }];
    let own = crate::openai::token_actions(0, tokens);
    let closing = crate::openai::closing_actions(StreamKind::Chat, tokens);
    let steps = cursor.remaining();
    assert(steps =~= opening + (seq![StreamAction::Role] + own + closing));
    if tokens > 0 {
        lemma_token_places(1, tokens, k);
        let rest = crate::openai::token_actions(1, tokens);
        assert(own =~= seq![
            StreamAction::Token { index: 0 },
            StreamAction::Count { output_tokens: 1, finished: false },
        ] + rest);
        if 0 < k < tokens {
            assert(steps[3 * k + 2] == rest[3 * (k - 1)]);
            assert(steps[3 * k + 3] == rest[3 * (k - 1) + 1]);
            assert(steps[3 * k + 4] == rest[3 * (k - 1) + 2]);
        }
    }
}

/// A response stream first says that it has begun and does not say who speaks;
/// otherwise its tokens come in the same way, and it ends with the count of all.
pub proof fn law_response_stream_sends_its_tokens_in_turn(
    created_at: u64,
    tokens: usize,
    cursor: StreamCursor,
    k: usize,
)
    requires
        call_ensures(StreamCursor::new, (StreamKind::Responses { created_at }, tokens), cursor),
    ensures
        ({
            let steps = cursor.remaining();
            &&& steps[0] is Created
            &&& steps[1] is WaitFirst
            &&& steps[2] == (StreamAction::Count { output_tokens: 0, finished: false })
            &&& tokens > 0 ==> steps.len() == 3 * tokens + 4
            &&& tokens == 0 ==> steps.len() == 5
            &&& 0 < tokens ==> steps[3] == (StreamAction::Token { index: 0 }) && steps[4] == (StreamAction::Count {
                output_tokens: 1,
                finished: false,
            })
            &&& 0 < k < tokens ==> {
                &&& steps[3 * k + 2] == (StreamAction::WaitToken { index: k })
                &&& steps[3 * k + 3] == (StreamAction::Token { index: k })
                &&& steps[3 * k + 4] == (StreamAction::Count { output_tokens: (k + 1) as usize, finished: false })
            }
            &&& steps[steps.len() - 2] is Completed
            &&& steps[steps.len() - 1] == (StreamAction::Count { output_tokens: tokens, finished: true })
        }),
{
    let kind = StreamKind::Responses { created_at };
    let opening = seq![
        StreamAction::Created,
        StreamAction::WaitFirst,
        StreamAction::Count { output_tokens: 0, finished: false },
    ];
    let own = crate::openai::token_actions(0, tokens);
    let closing = crate::openai::closing_actions(kind, tokens);
    let steps = cursor.remaining();
    assert(steps =~= opening + (own + closing));
    if tokens > 0 {
        lemma_token_places(1, tokens, k);
        let rest = crate::openai::token_actions(1, tokens);
        assert(own =~= seq![
            StreamAction::Token { index: 0 },
            StreamAction::Count { output_tokens: 1, finished: false },
        ] + rest);
        if 0 < k < tokens {
            assert(steps[3 * k + 2] == rest[3 * (k - 1)]);
            assert(steps[3 * k + 3] == rest[3 * (k - 1) + 1]);
            assert(steps[3 * k + 4] == rest[3 * (k - 1) + 2]);
        }
    }
}

/// A cursor takes the steps one by one, to the last.
pub proof fn law_steps_are_taken_one_by_one(cursor: &mut StreamCursor, action: Option<StreamAction>)
    requires
        cursor.wf(),
        call_ensures(StreamCursor::step, (cursor,), action),
    ensures
        action is Some <==> old(cursor).remaining().len() > 0,
        action is Some ==> action->0 == old(cursor).remaining()[0] && final(cursor).remaining() == old(
            cursor,
        ).remaining().skip(1),
{
    if action is Some {
        assert(final(cursor).remaining() =~= old(cursor).remaining().skip(1));
    }
}

/// A plan goes by the model that is asked for, else by the engine's; by the id in
/// the headers, else by the one given; and by the key in the headers. Its tokens
/// are those of the prompt and of the response.
pub proof fn law_chat_is_planned_as_asked(
    engine: MockEngine,
    headers: HeaderMap<HeaderValue>,
    request: ChatRequest,
    id: &str,
    plan: GenerationPlan,
    input: usize,
    output: usize,
)
    requires
        call_ensures(MockEngine::chat_completions, (&engine, &headers, &request, id), plan),
        call_ensures(request_input_tokens, (&headers, &request.content_lengths), input),
        call_ensures(request_output_tokens, (&headers, request.max_tokens, engine.num_tokens), output),
    ensures
        planned(plan, engine, headers, request.model, id@),
        plan.stream <==> request.stream == Some(true),
        plan.input_tokens == input,
        plan.output_tokens == output,
{
    lemma_planned_names();
}

/// So is a response, which must be streamed.
pub proof fn law_response_is_planned_as_asked(
    engine: MockEngine,
    headers: HeaderMap<HeaderValue>,
    request: ResponsesRequest,
    plan: Result<GenerationPlan, &'static str>,
    input: usize,
    output: usize,
)
    requires
        call_ensures(MockEngine::responses, (&engine, &headers, &request), plan),
        call_ensures(request_input_tokens, (&headers, &request.input_lengths), input),
        call_ensures(request_output_tokens, (&headers, request.max_output_tokens, engine.num_tokens), output),
    ensures
        plan is Ok <==> request.stream == Some(true),
        plan matches Ok(plan) ==> {
            &&& planned(plan, engine, headers, request.model, Seq::empty())
            &&& plan.stream
            &&& plan.input_tokens == input
            &&& plan.output_tokens == output
        },
        plan matches Err(message) ==> message@ == "mock-dynamo /v1/responses requires stream=true"@,
{
    lemma_planned_names();
    reveal_strlit("");
    assert(""@ =~= Seq::<char>::empty());
}

/// So are embeddings, as floats unless another writing is asked for.
pub proof fn law_embeddings_are_planned_as_asked(
    engine: MockEngine,
    headers: HeaderMap<HeaderValue>,
    request: EmbeddingsRequest,
    id: &str,
    plan: EmbeddingsPlan,
    items: usize,
    tokens: usize,
)
    requires
        call_ensures(MockEngine::embeddings, (&engine, &headers, &request, id), plan),
        call_ensures(embedding_item_count, (&request.input,), items),
        call_ensures(request_embedding_tokens, (&headers, &request.input), tokens),
    ensures
        ({
            let contents = crate::headers::header_contents(headers);
            let given = crate::headers::value_text(contents["x-request-id"@][0]);
            &&& request.model is Some ==> plan.model@ == request.model->0@
            &&& request.model is None ==> plan.model@ == engine.model_name@
            &&& contents.contains_key("x-request-id"@) && given is Some ==> plan.request_id@ == given->0
            &&& !contents.contains_key("x-request-id"@) || given is None ==> plan.request_id@ == id@
            &&& plan.item_count == items
            &&& plan.prompt_tokens == tokens
            &&& request.encoding_format is None ==> plan.encoding_format is Float
            &&& request.encoding_format is Some ==> plan.encoding_format == request.encoding_format->0
        }),
{
    lemma_planned_names();
}

proof fn lemma_planned_names()
    ensures
        crate::headers::valid_name("x-request-id"@),
        crate::headers::valid_name("x-cache-affinity-key"@),
{
    reveal_strlit("x-request-id");
    reveal_strlit("x-cache-affinity-key");
}

/// The plan goes by the request, its headers and the engine.
pub open spec fn planned(
    plan: GenerationPlan,
    engine: MockEngine,
    headers: HeaderMap<HeaderValue>,
    model: Option<String>,
    id: Seq<char>,
) -> bool {
    let contents = crate::headers::header_contents(headers);
    let given = crate::headers::value_text(contents["x-request-id"@][0]);
    let key = crate::headers::value_text(contents["x-cache-affinity-key"@][0]);
    &&& model is Some ==> plan.model@ == model->0@
    &&& model is None ==> plan.model@ == engine.model_name@
    &&& contents.contains_key("x-request-id"@) && given is Some ==> plan.request_id@ == given->0
    &&& !contents.contains_key("x-request-id"@) || given is None ==> plan.request_id@ == id
    &&& plan.cache_affinity_key is Some <==> contents.contains_key("x-cache-affinity-key"@) && key is Some
    &&& plan.cache_affinity_key is Some ==> plan.cache_affinity_key->0@ == key->0
    &&& plan.first_token_delay == engine.timing.first_delay(plan.request_id@)
}

/// The tokens of a request add up, and are counted under its names.
pub proof fn law_usage_adds_up(
    prompt: usize,
    completion: usize,
    usage: ChatUsage,
    request_id: &str,
    model: &str,
    output: Option<usize>,
    finished: bool,
    event: StatsStreamEvent,
)
    requires
        prompt + completion <= usize::MAX,
        call_ensures(chat_usage, (prompt, completion), usage),
        call_ensures(counters_event, (request_id, model, prompt, output, finished), event),
    ensures
        usage.prompt_tokens == prompt,
        usage.completion_tokens == completion,
        usage.total_tokens == usage.prompt_tokens + usage.completion_tokens,
        event.request_id@ == request_id@ && event.model@ == model@,
        event.input_tokens == prompt,
        output is Some ==> event.output_tokens == output->0,
        output is None ==> event.output_tokens == 0,
        event.finished == finished,
{
}

/// What each message of a chat stream says.
pub proof fn law_chat_messages_say_role_text_and_stop(id: &str, model: &str, chunk: ChatStreamChunk, json: String)
    requires
        call_ensures(chat_chunk_json, (id, model, &chunk), json),
    ensures
        ({
            let head = "{\"id\":"@ + crate::json_text::quoted(id@)
                + ",\"object\":\"chat.completion.chunk\",\"model\":"@ + crate::json_text::quoted(model@)
                + ",\"choices\":[{\"index\":0,\"delta\":"@;
            &&& chunk is Role ==> json@ == head + "{\"role\":\"assistant\"}"@ + ",\"finish_reason\":"@ + "null"@
                + "}]}"@
            &&& chunk matches ChatStreamChunk::Content(content) ==> json@ == head + ("{\"content\":"@
                + crate::json_text::quoted(content@) + "}"@) + ",\"finish_reason\":"@ + "null"@ + "}]}"@
            &&& chunk is Stop ==> json@ == head + "{}"@ + ",\"finish_reason\":"@ + "\"stop\""@ + "}]}"@
        }),
{
}

/// The document of a chat completion: who answers, what, and its tokens.
pub proof fn law_chat_completion_says_answer_and_tokens(
    id: &str,
    model: &str,
    content: &str,
    usage: ChatUsage,
    json: String,
    plan: GenerationPlan,
    whole: String,
    text: String,
)
    requires
        call_ensures(chat_completion_json, (id, model, content, &usage), json),
        plan.input_tokens + plan.output_tokens <= usize::MAX,
        call_ensures(GenerationPlan::completion_json, (&plan, id), whole),
        call_ensures(answer, (plan.output_tokens,), text),
    ensures
        json@ == completion_document(
            id@,
            model@,
            content@,
            usage.prompt_tokens as nat,
            usage.completion_tokens as nat,
            usage.total_tokens as nat,
        ),
        whole@ == completion_document(
            id@,
            plan.model@,
            text@,
            plan.input_tokens as nat,
            plan.output_tokens as nat,
            (plan.input_tokens + plan.output_tokens) as nat,
        ),
{
}

/// A chat completion as JSON.
pub open spec fn completion_document(
    id: Seq<char>,
    model: Seq<char>,
    content: Seq<char>,
    prompt: nat,
    completion: nat,
    total: nat,
) -> Seq<char> {
    "{\"id\":"@ + crate::json_text::quoted(id) + ",\"object\":\"chat.completion\",\"model\":"@
        + crate::json_text::quoted(model) + ",\"choices\":[{\"index\":0,\"message\":{\"role\":\"assistant\",\"content\":"@
        + crate::json_text::quoted(content) + "},\"finish_reason\":\"stop\"}],\"usage\":"@ + ("{"@
        + "\"prompt_tokens\":"@ + crate::text::decimal_text(prompt) + ",\"completion_tokens\":"@
        + crate::text::decimal_text(completion) + ",\"total_tokens\":"@ + crate::text::decimal_text(total) + "}"@) + "}"@
}

/// What each event of a response stream says, and its name.
pub proof fn law_response_events_say_begin_text_and_whole(
    id: &str,
    model: &str,
    created_at: u64,
    event: ResponsesStreamEvent,
    json: String,
    name: &'static str,
)
    requires
        call_ensures(response_event_json, (id, model, created_at, &event), json),
        call_ensures(ResponsesStreamEvent::name, (&event,), name),
    ensures
        ({
            let head = "{\"response\":{\"created_at\":"@ + crate::text::decimal_text(created_at as nat) + ",\"id\":"@
                + crate::json_text::quoted(id@) + ",\"model\":"@ + crate::json_text::quoted(model@)
                + ",\"object\":\"response\",\"output\":["@;
            &&& event is Created ==> name@ == "response.created"@ && json@ == head
                + "],\"status\":\"in_progress\",\"usage\":null},\"type\":\"response.created\"}"@
            &&& event matches ResponsesStreamEvent::Delta(delta) ==> name@ == "response.output_text.delta"@ && json@
                == "{\"content_index\":0,\"delta\":"@ + crate::json_text::quoted(delta@)
                + ",\"output_index\":0,\"response_id\":"@ + crate::json_text::quoted(id@)
                + ",\"type\":\"response.output_text.delta\"}"@
            &&& event matches ResponsesStreamEvent::Completed { text, usage } ==> name@ == "response.completed"@
                && json@ == head + "{\"content\":[{\"annotations\":[],\"text\":"@ + crate::json_text::quoted(text@)
                + ",\"type\":\"output_text\"}],\"id\":"@ + crate::json_text::quoted("msg-"@ + id@)
                + ",\"role\":\"assistant\",\"status\":\"completed\",\"type\":\"message\"}],\"status\":\"completed\",\"usage\":"@
                + ("{"@ + "\"input_tokens\":"@ + crate::text::decimal_text(usage.prompt_tokens as nat)
                + ",\"output_tokens\":"@ + crate::text::decimal_text(usage.completion_tokens as nat)
                + ",\"total_tokens\":"@ + crate::text::decimal_text(usage.total_tokens as nat) + "}"@)
                + "},\"type\":\"response.completed\"}"@
        }),
{
}

/// Each step of a chat stream sends its message: the role, the token at its
/// place, the stop and the end. Waits and counts send nothing.
pub proof fn law_chat_steps_send_their_messages(
    id: &str,
    plan: GenerationPlan,
    action: StreamAction,
    event: Option<(Option<&'static str>, String)>,
    chunk: ChatStreamChunk,
    model: &str,
    message: String,
    index: usize,
    token: &'static str,
)
    requires
        call_ensures(stream_event, (StreamKind::Chat, id, &plan, action), event),
        model@ == plan.model@,
        call_ensures(chat_chunk_json, (id, model, &chunk), message),
        call_ensures(dummy_token, (index,), token),
        action matches StreamAction::Token { index: sent } ==> sent == index,
        action is Role ==> chunk is Role,
        action is Token ==> (chunk matches ChatStreamChunk::Content(content) && content@ == token@),
        action is Completed ==> chunk is Stop,
    ensures
        event is Some <==> action is Role || action is Token || action is Completed || action is Done,
        action is Role || action is Token || action is Completed ==> (event matches Some((None, sent)) && sent@
            == message@),
        action is Done ==> (event matches Some((None, sent)) && sent@ == "[DONE]"@),
{
}

/// Each step of a response stream sends its event under its name: the beginning,
/// the token at its place, and the whole.
pub proof fn law_response_steps_send_their_events(
    created_at: u64,
    id: &str,
    plan: GenerationPlan,
    action: StreamAction,
    event: Option<(Option<&'static str>, String)>,
    told: ResponsesStreamEvent,
    model: &str,
    json: String,
    name: &'static str,
    index: usize,
    token: &'static str,
    text: String,
)
    requires
        plan.input_tokens + plan.output_tokens <= usize::MAX,
        call_ensures(stream_event, (StreamKind::Responses { created_at }, id, &plan, action), event),
        model@ == plan.model@,
        call_ensures(response_event_json, (id, model, created_at, &told), json),
        call_ensures(ResponsesStreamEvent::name, (&told,), name),
        call_ensures(dummy_token, (index,), token),
        call_ensures(answer, (plan.output_tokens,), text),
        action matches StreamAction::Token { index: sent } ==> sent == index,
        action is Created ==> told is Created,
        action is Token ==> (told matches ResponsesStreamEvent::Delta(delta) && delta@ == token@),
        action is Completed ==> (told matches ResponsesStreamEvent::Completed { text: whole, usage } && whole@ == text@
            && usage.prompt_tokens == plan.input_tokens && usage.completion_tokens == plan.output_tokens
            && usage.total_tokens == plan.input_tokens + plan.output_tokens),
    ensures
        event is Some <==> action is Created || action is Token || action is Completed || action is Done,
        action is Created || action is Token || action is Completed ==> (event matches Some((Some(sent), data))
            && sent@ == name@ && data@ == json@),
{
}

/// The identifiers of the engine, its failure, and its models as a list.
pub proof fn law_engine_names_its_answers(
    suffix: &str,
    chat: String,
    response: String,
    embeddings: String,
    message: String,
    ids: Vec<String>,
    list: String,
    truth: bool,
    written: &'static str,
)
    requires
        call_ensures(chat_completion_id, (suffix,), chat),
        call_ensures(response_id, (suffix,), response),
        call_ensures(embeddings_id, (suffix,), embeddings),
        call_ensures(chat_failure_message, (suffix,), message),
        call_ensures(model_list_json, (&ids,), list),
        call_ensures(json_truth, (truth,), written),
    ensures
        chat@ == "chatcmpl-mock-"@ + suffix@,
        response@ == "resp-mock-"@ + suffix@,
        embeddings@ == "embd-mock-"@ + suffix@,
        message@ == "mock chat failure enabled for model "@ + suffix@,
        ids@.len() == 0 ==> list@ == "{\"object\":\"list\",\"data\":["@ + "]}"@,
        ids@.len() == 1 ==> list@ == "{\"object\":\"list\",\"data\":["@ + ("{\"id\":"@ + crate::json_text::quoted(
            ids@[0]@,
        ) + ",\"object\":\"model\"}"@) + "]}"@,
        truth ==> written@ == "true"@,
        !truth ==> written@ == "false"@,
{
    reveal_with_fuel(crate::openai::comma_separated, 3);
    let views = crate::keyed::views(ids@);
    let items = views.map_values(|id: Seq<char>| crate::openai::model_object(id));
    assert(views.len() == ids@.len());
    assert(items.len() == ids@.len());
    if ids@.len() > 0 {
        assert(views[0] == ids@[0]@);
        assert(items[0] == crate::openai::model_object(views[0]));
    }
    assert("{\"object\":\"list\",\"data\":["@ + Seq::<char>::empty() =~= "{\"object\":\"list\",\"data\":["@);
}

/// One model more stands behind the others, set off by a comma.
pub proof fn law_listed_models_follow_each_other(ids: Vec<String>, list: String, more: Vec<String>, longer: String)
    requires
        call_ensures(model_list_json, (&ids,), list),
        call_ensures(model_list_json, (&more,), longer),
        ids@.len() > 0,
        more@.len() == ids@.len() + 1,
        forall|i: int| 0 <= i < ids@.len() ==> (#[trigger] more@[i])@ == ids@[i]@,
    ensures
        longer@ == list@.take(list@.len() - 2) + ","@ + ("{\"id\":"@ + crate::json_text::quoted(more@.last()@)
            + ",\"object\":\"model\"}"@) + "]}"@,
{
    reveal_strlit("]}");
    assert("]}"@.len() == 2);
    let few = crate::keyed::views(ids@).map_values(|id: Seq<char>| crate::openai::model_object(id));
    let many = crate::keyed::views(more@).map_values(|id: Seq<char>| crate::openai::model_object(id));
    assert(many.drop_last() =~= few) by {
        assert forall|i: int| 0 <= i < few.len() implies many[i] == few[i] by {
            assert(more@[i]@ == ids@[i]@);
        }
    }
    let head = "{\"object\":\"list\",\"data\":["@ + crate::openai::comma_separated(few);
    assert(list@ =~= head + "]}"@);
    assert(list@.take(list@.len() - 2) =~= head);
    assert(many.last() == crate::openai::model_object(more@.last()@));
    assert(longer@ =~= head + ","@ + crate::openai::model_object(more@.last()@) + "]}"@);
}

/// The document of embeddings: each value with its place, and the tokens of the
/// prompt as both counts.
pub proof fn law_embeddings_say_each_value(plan: EmbeddingsPlan, values: Vec<String>, json: String)
    requires
        call_ensures(EmbeddingsPlan::embeddings_json, (&plan, &values), json),
    ensures
        ({
            let tokens = crate::text::decimal_text(plan.prompt_tokens as nat);
            let tail = "],\"model\":"@ + crate::json_text::quoted(plan.model@)
                + ",\"object\":\"list\",\"usage\":{\"prompt_tokens\":"@ + tokens + ",\"total_tokens\":"@ + tokens
                + "}}"@;
            &&& values@.len() == 1 ==> json@ == "{\"data\":["@ + ("{\"embedding\":"@ + values@[0]@ + ",\"index\":"@
                + crate::text::decimal_text(0) + ",\"object\":\"embedding\"}"@) + tail
            &&& values@.len() == 2 ==> json@ == "{\"data\":["@ + (("{\"embedding\":"@ + values@[0]@ + ",\"index\":"@
                + crate::text::decimal_text(0) + ",\"object\":\"embedding\"}"@) + ","@ + ("{\"embedding\":"@
                + values@[1]@ + ",\"index\":"@ + crate::text::decimal_text(1) + ",\"object\":\"embedding\"}"@)) + tail
        }),
{
    reveal_with_fuel(crate::openai::comma_separated, 3);
    let views = crate::keyed::views(values@);
    assert(views.len() == values@.len());
    let items = Seq::new(views.len(), |i: int| crate::openai::embedding_object(views[i], i));
    let tokens = crate::text::decimal_text(plan.prompt_tokens as nat);
    let tail = "],\"model\":"@ + crate::json_text::quoted(plan.model@)
        + ",\"object\":\"list\",\"usage\":{\"prompt_tokens\":"@ + tokens + ",\"total_tokens\":"@ + tokens + "}}"@;
    assert(json@ =~= "{\"data\":["@ + crate::openai::comma_separated(items) + tail);
    if values@.len() > 0 {
        assert(views[0] == values@[0]@);
        assert(items[0] == crate::openai::embedding_object(views[0], 0));
    }
    if values@.len() == 2 {
        assert(views[1] == values@[1]@);
        assert(items[1] == crate::openai::embedding_object(views[1], 1));
        assert(items.drop_last().len() == 1);
        assert(items.drop_last()[0] == items[0]);
    }
}

/// One value more stands behind the others with the next place.
pub proof fn law_embedded_values_follow_each_other(
    plan: EmbeddingsPlan,
    values: Vec<String>,
    json: String,
    more: Vec<String>,
    longer: String,
)
    requires
        call_ensures(EmbeddingsPlan::embeddings_json, (&plan, &values), json),
        call_ensures(EmbeddingsPlan::embeddings_json, (&plan, &more), longer),
        values@.len() > 0,
        more@.len() == values@.len() + 1,
        forall|i: int| 0 <= i < values@.len() ==> (#[trigger] more@[i])@ == values@[i]@,
    ensures
        ({
            let tokens = crate::text::decimal_text(plan.prompt_tokens as nat);
            let tail = "],\"model\":"@ + crate::json_text::quoted(plan.model@)
                + ",\"object\":\"list\",\"usage\":{\"prompt_tokens\":"@ + tokens + ",\"total_tokens\":"@ + tokens
                + "}}"@;
            longer@ == json@.take(json@.len() - tail.len()) + ","@ + ("{\"embedding\":"@ + more@.last()@ + ",\"index\":"@
                + crate::text::decimal_text(values@.len()) + ",\"object\":\"embedding\"}"@) + tail
        }),
{
    let tokens = crate::text::decimal_text(plan.prompt_tokens as nat);
    let tail = "],\"model\":"@ + crate::json_text::quoted(plan.model@)
        + ",\"object\":\"list\",\"usage\":{\"prompt_tokens\":"@ + tokens + ",\"total_tokens\":"@ + tokens + "}}"@;
    let few_values = crate::keyed::views(values@);
    let many_values = crate::keyed::views(more@);
    let few = Seq::new(few_values.len(), |i: int| crate::openai::embedding_object(few_values[i], i));
    let many = Seq::new(many_values.len(), |i: int| crate::openai::embedding_object(many_values[i], i));
    assert(many.drop_last() =~= few) by {
        assert forall|i: int| 0 <= i < few.len() implies many[i] == few[i] by {
            assert(more@[i]@ == values@[i]@);
        }
    }
    let head = "{\"data\":["@ + crate::openai::comma_separated(few);
    assert(json@ =~= head + tail);
    assert(json@.take(json@.len() - tail.len()) =~= head);
    let last = crate::openai::embedding_object(more@.last()@, values@.len() as int);
    assert(many.last() == last);
    assert(longer@ =~= head + ","@ + last + tail);
}

/// Each request counts once, under its endpoint, model and class, and no other
/// counter changes.
pub proof fn law_requests_are_counted_apart(
    state: &mut TestControlState,
    endpoint: TestEndpoint,
    model: &str,
    class: TestRequestClass,
    out: (),
    before: TestControlSnapshot,
    after: TestControlSnapshot,
    other_endpoint: TestEndpoint,
    other_model: &str,
    other_class: TestRequestClass,
    counted: u64,
    recounted: u64,
)
    requires
        call_ensures(TestControlState::snapshot, (&*state,), before),
        call_ensures(TestControlState::record_request, (state, endpoint, model, class), out),
        call_ensures(TestControlState::snapshot, (&*final(state),), after),
        call_ensures(TestControlSnapshot::counter, (&before, other_endpoint, other_model, other_class), counted),
        call_ensures(TestControlSnapshot::counter, (&after, other_endpoint, other_model, other_class), recounted),
    ensures
        ({
            let same = other_endpoint == endpoint && other_model@ == model@ && other_class == class;
            &&& same && counted < u64::MAX ==> recounted == counted + 1
            &&& !same ==> recounted == counted
        }),
        final(state).models() == old(state).models(),
        final(state).discovered() == old(state).discovered(),
        final(state).discovery_requests() == old(state).discovery_requests(),
{
    assert(before.shows_counters(old(state).counters()));
    assert(after.shows_counters(final(state).counters()));
}

/// What is set for a model is what is done to it; what is not named in an update
/// stays, and no other model is touched.
pub proof fn law_controls_do_what_is_set(
    state: &mut TestControlState,
    model: &str,
    update: ModelTestControlUpdate,
    released: bool,
    other: &str,
    fails_before: bool,
    blocked_before: bool,
    fails: bool,
    blocked: bool,
)
    requires
        call_ensures(TestControlState::chat_failure_enabled, (&*state, other), fails_before),
        call_ensures(TestControlState::bringup_blocked, (&*state, other), blocked_before),
        call_ensures(TestControlState::update_model, (state, model, update), released),
        call_ensures(TestControlState::chat_failure_enabled, (&*final(state), other), fails),
        call_ensures(TestControlState::bringup_blocked, (&*final(state), other), blocked),
    ensures
        other@ == model@ ==> {
            &&& update.chat_failure is Some ==> fails == update.chat_failure->0
            &&& update.chat_failure is None ==> fails == fails_before
            &&& update.bringup_blocked is Some ==> blocked == update.bringup_blocked->0
            &&& update.bringup_blocked is None ==> blocked == blocked_before
            &&& released <==> !blocked
        },
        other@ != model@ ==> fails == fails_before && blocked == blocked_before,
        !old(state).models().contains_key(other@) ==> !fails_before && !blocked_before,
        final(state).counters() == old(state).counters(),
        final(state).discovered() == old(state).discovered(),
{
}

/// The models that are shown are those last set, without the space around their
/// names; a list with a blank name is refused and changes nothing. Each request
/// for them counts.
pub proof fn law_shown_models_are_those_set(
    state: &mut TestControlState,
    ids: &[String],
    replaced: Result<(), &'static str>,
    i: int,
    name: Seq<char>,
    asked: &mut TestControlState,
    shown: Vec<String>,
)
    requires
        call_ensures(TestControlState::replace_discovered_models, (state, ids), replaced),
        call_ensures(TestControlState::record_model_discovery_request, (asked,), shown),
    ensures
        0 <= i < ids@.len() && crate::text::trimmed(ids@[i]@).len() == 0 ==> replaced is Err,
        replaced is Err ==> final(state).discovered() == old(state).discovered() && replaced->Err_0@
            == "model IDs must be non-empty"@,
        replaced is Ok && 0 <= i < ids@.len() ==> final(state).discovered().contains(crate::text::trimmed(ids@[i]@)),
        replaced is Ok && final(state).discovered().contains(name) ==> exists|j: int|
            0 <= j < ids@.len() && crate::text::trimmed((#[trigger] ids@[j])@) == name,
        crate::keyed::views(shown@).contains(name) <==> old(asked).discovered().contains(name),
        crate::keyed::views(shown@).no_duplicates(),
        final(asked).discovered() == old(asked).discovered(),
        old(asked).discovery_requests() < u64::MAX ==> final(asked).discovery_requests() == old(
            asked,
        ).discovery_requests() + 1,
{
    let texts = crate::keyed::views(ids@);
    assert(texts.len() == ids@.len());
    if 0 <= i < ids@.len() {
        assert(texts[i] == ids@[i]@);
        assert(ids[i]@ == ids@[i]@);
    }
    if replaced is Ok && final(state).discovered().contains(name) {
        let j = choose|j: int| 0 <= j < ids.len() && crate::text::trimmed(#[trigger] texts[j]) == name;
        assert(texts[j] == ids@[j]@);
    }
    let listed = crate::keyed::views(shown@);
    crate::keyed::lemma_ascending_distinct::<String>(listed);
    assert(listed.contains(name) <==> listed.to_set().contains(name));
}

/// A request is the pylon's own where its id says so at its front.
pub proof fn law_own_requests_are_known_by_their_id(
    headers: HeaderMap<HeaderValue>,
    class: TestRequestClass,
    label: &'static str,
    endpoint: TestEndpoint,
    endpoint_label: &'static str,
)
    requires
        call_ensures(request_class, (&headers,), class),
        call_ensures(TestRequestClass::label, (class,), label),
        call_ensures(TestEndpoint::label, (endpoint,), endpoint_label),
    ensures
        ({
            let contents = crate::headers::header_contents(headers);
            let id = crate::headers::value_text(contents["x-request-id"@][0]);
            let own = contents.contains_key("x-request-id"@) && id is Some && (id->0.len() >= 12 && id->0.take(12)
                == "calibration-"@ || id->0.len() >= 7 && id->0.take(7) == "canary-"@);
            &&& class is PylonGenerated <==> own
            &&& own ==> label@ == "pylon_generated"@
            &&& !own ==> label@ == "api_gateway"@
            &&& endpoint is ChatCompletions ==> endpoint_label@ == "chat_completions"@
            &&& endpoint is Responses ==> endpoint_label@ == "responses"@
            &&& endpoint is Embeddings ==> endpoint_label@ == "embeddings"@
        }),
{
    lemma_planned_names();
    reveal_strlit("calibration-");
    reveal_strlit("canary-");
    assert("calibration-"@.len() == 12);
    assert("canary-"@.len() == 7);
    let contents = crate::headers::header_contents(headers);
    let id = crate::headers::value_text(contents["x-request-id"@][0]);
    if id is Some && id->0.len() >= 12 {
        assert(id->0.subrange(0, 12) =~= id->0.take(12));
    }
    if id is Some && id->0.len() >= 7 {
        assert(id->0.subrange(0, 7) =~= id->0.take(7));
    }
}

/// A picture shows the models, the controls and the requests for the models as
/// they are.
pub proof fn law_pictures_show_the_controls(
    state: TestControlState,
    picture: TestControlSnapshot,
    i: int,
    name: Seq<char>,
)
    requires
        call_ensures(TestControlState::snapshot, (&state,), picture),
    ensures
        picture.model_discovery_requests == state.discovery_requests(),
        crate::keyed::views(picture.discovered_models@).contains(name) <==> state.discovered().contains(name),
        crate::test_control::model_names(picture.models@).contains(name) <==> state.models().contains_key(name),
        0 <= i < picture.models@.len() ==> picture.models@[i].control.chat_failure
            == state.models()[picture.models@[i].model@].chat_failure && picture.models@[i].control.bringup_blocked
            == state.models()[picture.models@[i].model@].bringup_blocked,
{
    let shown = crate::keyed::views(picture.discovered_models@);
    let named = crate::test_control::model_names(picture.models@);
    assert(shown.contains(name) <==> shown.to_set().contains(name));
    assert(named.contains(name) <==> named.to_set().contains(name));
    if 0 <= i < picture.models@.len() {
        assert(picture.models.len() == picture.models@.len());
        assert(picture.models[i] == picture.models@[i]);
    }
}

} // verus!
