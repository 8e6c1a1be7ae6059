//! The OpenAI surface of a mock engine: what a request asks for, and the
//! actions that make up its response.

use http::{HeaderMap, HeaderValue};
use vstd::prelude::*;

use crate::json_text::json_string;
use crate::request_observation::copy_text;
use crate::stats_stream::StatsStreamEvent;
use crate::text::{decimal, join_texts};
use crate::timing::{
    embedding_item_count, optional_header, request_embedding_tokens, request_input_tokens, request_output_tokens,
    EmbeddingInput, MockTiming,
};
use crate::tunnel_contract::HEADER_REQUEST_ID;

verus! {

pub const HEADER_CACHE_AFFINITY_KEY: &'static str = "x-cache-affinity-key";

pub const DUMMY_TOKEN_COUNT: usize = 30;

/// The words of the mock's only answer.
pub open spec fn dummy_word(place: u8) -> Seq<char> {
    match place {
        0u8 => "Hello"@,
        1u8 => ","@,
        2u8 => " how"@,
        3u8 => " can"@,
        4u8 => " I"@,
        5u8 => " help"@,
        6u8 => " you"@,
        7u8 => " today"@,
        8u8 => "?"@,
        9u8 => " I"@,
        10u8 => " am"@,
        11u8 => " a"@,
        12u8 => " helpful"@,
        13u8 => " AI"@,
        14u8 => " assistant"@,
        15u8 => "."@,
        16u8 => " Let"@,
        17u8 => " me"@,
        18u8 => " know"@,
        19u8 => " what"@,
        20u8 => " you"@,
        21u8 => " need"@,
        22u8 => "."@,
        23u8 => " I"@,
        24u8 => "'m"@,
        25u8 => " here"@,
        26u8 => " to"@,
        27u8 => " assist"@,
        28u8 => " you"@,
        _ => "!"@,
    }
}

/// The token at a place of an answer; the words come round again.
pub open spec fn token_at(index: nat) -> Seq<char> {
    dummy_word((index % 30) as u8)
}

pub fn dummy_token(index: usize) -> (token: &'static str)
    ensures
        token@ == token_at(index as nat),
{
    let place: u8 = (index % DUMMY_TOKEN_COUNT) as u8;
    match place {
        0u8 => "Hello",
        1u8 => ",",
        2u8 => " how",
        3u8 => " can",
        4u8 => " I",
        5u8 => " help",
        6u8 => " you",
        7u8 => " today",
        8u8 => "?",
        9u8 => " I",
        10u8 => " am",
        11u8 => " a",
        12u8 => " helpful",
        13u8 => " AI",
        14u8 => " assistant",
        15u8 => ".",
        16u8 => " Let",
        17u8 => " me",
        18u8 => " know",
        19u8 => " what",
        20u8 => " you",
        21u8 => " need",
        22u8 => ".",
        23u8 => " I",
        24u8 => "'m",
        25u8 => " here",
        26u8 => " to",
        27u8 => " assist",
        28u8 => " you",
        _ => "!",
    }
}

/// The text of an answer of so many tokens.
pub open spec fn answer_text(tokens: nat) -> Seq<char>
    decreases tokens,
{
    if tokens == 0 {
        Seq::empty()
    } else {
        answer_text((tokens - 1) as nat) + token_at((tokens - 1) as nat)
    }
}

pub fn answer(output_tokens: usize) -> (text: String)
    ensures
        text@ == answer_text(output_tokens as nat),
{
    let mut text = String::new();
    let mut i: usize = 0;
    assert(text@ =~= answer_text(0));
    while i < output_tokens
        invariant
            i <= output_tokens,
            text@ == answer_text(i as nat),
        decreases output_tokens - i,
    {
        text = join_texts(text.as_str(), dummy_token(i));
        i += 1;
    }
    text
}

/// Which surface a stream is for.
#[derive(Clone, Copy, Debug, PartialEq, Eq, Structural)]
pub enum StreamKind {
    Chat,
    Responses { created_at: u64 },
}

/// One step of a streamed response.
#[derive(Clone, Copy, Debug, PartialEq, Eq, Structural)]
pub enum StreamAction {
    /// Say that the response has begun.
    Created,
    /// Wait for the first token.
    WaitFirst,
    /// Report what the request has consumed and produced.
    Count { output_tokens: usize, finished: bool },
    /// Say who speaks.
    Role,
    /// Wait for the token at this place.
    WaitToken { index: usize },
    Token { index: usize },
    /// Say that the response is complete.
    Completed,
    /// End the stream.
    Done,
}

/// The steps from the token at `index` on.
pub open spec fn token_actions(index: usize, tokens: usize) -> Seq<StreamAction>
    decreases tokens - index,
{
    if index >= tokens {
        Seq::empty()
    } else {
        (if index > 0 {
            seq![StreamAction::WaitToken { index }]
        } else {
            Seq::empty()
        }) + seq![
            StreamAction::Token { index },
            StreamAction::Count { output_tokens: (index + 1) as usize, finished: false },
        ] + token_actions((index + 1) as usize, tokens)
    }
}

/// The steps after the last token.
pub open spec fn closing_actions(kind: StreamKind, tokens: usize) -> Seq<StreamAction> {
    seq![StreamAction::Completed, StreamAction::Count { output_tokens: tokens, finished: true }] + (if kind is Chat {
        seq![StreamAction::Done]
    } else {
        Seq::empty()
    })
}

/// The steps from the first count on.
pub open spec fn opened_actions(kind: StreamKind, tokens: usize) -> Seq<StreamAction> {
    (if kind is Chat {
        seq![StreamAction::Role]
    } else {
        Seq::empty()
    }) + token_actions(0, tokens) + closing_actions(kind, tokens)
}

/// All steps of a streamed response.
pub open spec fn stream_actions(kind: StreamKind, tokens: usize) -> Seq<StreamAction> {
    (if kind is Chat {
        Seq::empty()
    } else {
        seq![StreamAction::Created]
    }) + seq![StreamAction::WaitFirst, StreamAction::Count { output_tokens: 0, finished: false }] + opened_actions(
        kind,
        tokens,
    )
}

#[derive(Clone, Copy, Debug, PartialEq, Eq, Structural)]
enum StreamStage {
    Created,
    WaitFirst,
    CountInput,
    Role,
    WaitToken { index: usize },
    Token { index: usize },
    CountToken { index: usize },
    Completed,
    CountAll,
    Done,
    Ended,
}

/// Goes through the steps of a streamed response.
#[derive(Debug)]
pub struct StreamCursor {
    kind: StreamKind,
    output_tokens: usize,
    stage: StreamStage,
}

impl StreamCursor {
    pub closed spec fn kind(&self) -> StreamKind {
        self.kind
    }

    pub closed spec fn tokens(&self) -> usize {
        self.output_tokens
    }

    /// The steps that are left.
    pub closed spec fn remaining(&self) -> Seq<StreamAction> {
        let tokens = self.output_tokens;
        match self.stage {
            StreamStage::Created => stream_actions(self.kind, tokens),
            StreamStage::WaitFirst => seq![
                StreamAction::WaitFirst,
                StreamAction::Count { output_tokens: 0, finished: false },
            ] + opened_actions(self.kind, tokens),
            StreamStage::CountInput => seq![StreamAction::Count { output_tokens: 0, finished: false }]
                + opened_actions(self.kind, tokens),
            StreamStage::Role => opened_actions(self.kind, tokens),
            StreamStage::WaitToken { index } => token_actions(index, tokens) + closing_actions(self.kind, tokens),
            StreamStage::Token { index } => seq![
                StreamAction::Token { index },
                StreamAction::Count { output_tokens: (index + 1) as usize, finished: false },
            ] + token_actions((index + 1) as usize, tokens) + closing_actions(self.kind, tokens),
            StreamStage::CountToken { index } => seq![
                StreamAction::Count { output_tokens: (index + 1) as usize, finished: false },
            ] + token_actions((index + 1) as usize, tokens) + closing_actions(self.kind, tokens),
            StreamStage::Completed => closing_actions(self.kind, tokens),
            StreamStage::CountAll => closing_actions(self.kind, tokens).skip(1),
            StreamStage::Done => seq![StreamAction::Done],
            StreamStage::Ended => Seq::empty(),
        }
    }

    pub closed spec fn wf(&self) -> bool {
        match self.stage {
            StreamStage::Created => !(self.kind is Chat),
            StreamStage::Role => self.kind is Chat,
            StreamStage::Done => self.kind is Chat,
            StreamStage::WaitToken { index } => 0 < index < self.output_tokens,
            StreamStage::Token { index } => index < self.output_tokens,
            StreamStage::CountToken { index } => index < self.output_tokens,
            _ => true,
        }
    }

    pub fn new(kind: StreamKind, output_tokens: usize) -> (cursor: Self)
        ensures
            cursor.wf(),
            cursor.kind() == kind,
            cursor.tokens() == output_tokens,
            cursor.remaining() == stream_actions(kind, output_tokens),
    {
        let stage = match kind {
            StreamKind::Chat => StreamStage::WaitFirst,
            StreamKind::Responses { .. } => StreamStage::Created,
        };
        let cursor = StreamCursor { kind, output_tokens, stage };
        assert(cursor.remaining() =~= stream_actions(kind, output_tokens));
        cursor
    }

    fn to_tokens(&mut self, index: usize)
        requires
            index <= old(self).tokens(),
        ensures
            final(self).wf(),
            final(self).kind() == old(self).kind(),
            final(self).tokens() == old(self).tokens(),
            final(self).remaining() == token_actions(index, old(self).tokens()) + closing_actions(
                old(self).kind(),
                old(self).tokens(),
            ),
    {
        if index >= self.output_tokens {
            self.stage = StreamStage::Completed;
            assert(self.remaining() =~= token_actions(index, self.output_tokens) + closing_actions(
                self.kind,
                self.output_tokens,
            ));
        } else if index > 0 {
            self.stage = StreamStage::WaitToken { index };
        } else {
            self.stage = StreamStage::Token { index };
            assert(self.remaining() =~= token_actions(index, self.output_tokens) + closing_actions(
                self.kind,
                self.output_tokens,
            ));
        }
    }

    /// The next step, or none at the end.
    pub fn step(&mut self) -> (action: Option<StreamAction>)
        requires
            old(self).wf(),
        ensures
            final(self).wf(),
            final(self).kind() == old(self).kind(),
            final(self).tokens() == old(self).tokens(),
            match action {
                Some(action) => old(self).remaining() == seq![action] + final(self).remaining(),
                None => old(self).remaining().len() == 0 && final(self).remaining().len() == 0,
            },
    {
        let ghost before = self.remaining();
        let chat = match self.kind {
            StreamKind::Chat => true,
            StreamKind::Responses { .. } => false,
        };
        let action = match self.stage {
            StreamStage::Created => {
                self.stage = StreamStage::WaitFirst;
                Some(StreamAction::Created)
            },
            StreamStage::WaitFirst => {
                self.stage = StreamStage::CountInput;
                Some(StreamAction::WaitFirst)
            },
            StreamStage::CountInput => {
                if chat {
                    self.stage = StreamStage::Role;
                } else {
                    self.to_tokens(0);
                }
                Some(StreamAction::Count { output_tokens: 0, finished: false })
            },
            StreamStage::Role => {
                self.to_tokens(0);
                Some(StreamAction::Role)
            },
            StreamStage::WaitToken { index } => {
                self.stage = StreamStage::Token { index };
                Some(StreamAction::WaitToken { index })
            },
            StreamStage::Token { index } => {
                self.stage = StreamStage::CountToken { index };
                Some(StreamAction::Token { index })
            },
            StreamStage::CountToken { index } => {
                self.to_tokens(index + 1);
                Some(StreamAction::Count { output_tokens: index + 1, finished: false })
            },
            StreamStage::Completed => {
                self.stage = StreamStage::CountAll;
                Some(StreamAction::Completed)
            },
            StreamStage::CountAll => {
                self.stage = if chat {
                    StreamStage::Done
                } else {
                    StreamStage::Ended
                };
                Some(StreamAction::Count { output_tokens: self.output_tokens, finished: true })
            },
            StreamStage::Done => {
                self.stage = StreamStage::Ended;
                Some(StreamAction::Done)
            },
            StreamStage::Ended => None,
        };
        proof {
            if let Some(action) = action {
                assert(before =~= seq![action] + self.remaining());
            }
        }
        action
    }
}

/// How many tokens the steps send.
pub open spec fn tokens_sent(actions: Seq<StreamAction>) -> nat
    decreases actions.len(),
{
    if actions.len() == 0 {
        0
    } else {
        tokens_sent(actions.drop_last()) + (if actions.last() is Token {
            1nat
        } else {
            0nat
        })
    }
}

proof fn lemma_tokens_joined(a: Seq<StreamAction>, b: Seq<StreamAction>)
    ensures
        tokens_sent(a + b) == tokens_sent(a) + tokens_sent(b),
    decreases b.len(),
{
    if b.len() == 0 {
        assert(a + b =~= a);
    } else {
        assert((a + b).drop_last() =~= a + b.drop_last());
        lemma_tokens_joined(a, b.drop_last());
    }
}

proof fn lemma_token_actions(index: usize, tokens: usize)
    requires
        index <= tokens,
    ensures
        tokens_sent(token_actions(index, tokens)) == tokens - index,
    decreases tokens - index,
{
    if index < tokens {
        lemma_token_actions((index + 1) as usize, tokens);
        let gap = if index > 0 {
            seq![StreamAction::WaitToken { index }]
        } else {
            Seq::empty()
        };
        let sent = seq![
            StreamAction::Token { index },
            StreamAction::Count { output_tokens: (index + 1) as usize, finished: false },
        ];
        lemma_tokens_joined(gap + sent, token_actions((index + 1) as usize, tokens));
        lemma_tokens_joined(gap, sent);
        reveal_with_fuel(tokens_sent, 3);
        assert(sent.drop_last().drop_last() =~= Seq::<StreamAction>::empty());
        assert(gap.len() > 0 ==> gap.drop_last() =~= Seq::<StreamAction>::empty());
    }
}

/// A stream sends as many tokens as it was asked for.
pub proof fn law_stream_sends_every_token(kind: StreamKind, tokens: usize)
    ensures
        tokens_sent(stream_actions(kind, tokens)) == tokens,
{
    let created = if kind is Chat {
        Seq::empty()
    } else {
        seq![StreamAction::Created]
    };
    let start = seq![StreamAction::WaitFirst, StreamAction::Count { output_tokens: 0, finished: false }];
    let role = if kind is Chat {
        seq![StreamAction::Role]
    } else {
        Seq::empty()
    };
    let end = seq![StreamAction::Completed, StreamAction::Count { output_tokens: tokens, finished: true }];
    let done = if kind is Chat {
        seq![StreamAction::Done]
    } else {
        Seq::empty()
    };
    lemma_token_actions(0, tokens);
    lemma_tokens_joined(created + start, opened_actions(kind, tokens));
    lemma_tokens_joined(created, start);
    lemma_tokens_joined(role + token_actions(0, tokens), closing_actions(kind, tokens));
    lemma_tokens_joined(role, token_actions(0, tokens));
    lemma_tokens_joined(end, done);
    reveal_with_fuel(tokens_sent, 3);
    assert(start.drop_last().drop_last() =~= Seq::<StreamAction>::empty());
    assert(end.drop_last().drop_last() =~= Seq::<StreamAction>::empty());
    assert(created.len() > 0 ==> created.drop_last() =~= Seq::<StreamAction>::empty());
    assert(role.len() > 0 ==> role.drop_last() =~= Seq::<StreamAction>::empty());
    assert(done.len() > 0 ==> done.drop_last() =~= Seq::<StreamAction>::empty());
}

/// What a mock engine is set to.
#[derive(Debug)]
pub struct MockEngine {
    pub model_name: String,
    pub num_tokens: usize,
    pub timing: MockTiming,
}

/// A chat request, with the lengths of the contents of its messages.
#[derive(Debug)]
pub struct ChatRequest {
    pub stream: Option<bool>,
    pub model: Option<String>,
    pub max_tokens: Option<usize>,
    pub content_lengths: Vec<usize>,
}

/// A request for a response, with the lengths of its inputs.
#[derive(Debug)]
pub struct ResponsesRequest {
    pub stream: Option<bool>,
    pub model: Option<String>,
    pub max_output_tokens: Option<usize>,
    pub input_lengths: Vec<usize>,
}

/// How embeddings are written.
#[derive(Clone, Copy, Debug, PartialEq, Eq, Structural)]
pub enum EmbeddingEncodingFormat {
    Float,
    Base64,
}

/// A request for embeddings.
#[derive(Debug)]
pub struct EmbeddingsRequest {
    pub input: EmbeddingInput,
    pub model: Option<String>,
    pub encoding_format: Option<EmbeddingEncodingFormat>,
}

/// What a request for generated text comes to.
#[derive(Debug)]
pub struct GenerationPlan {
    pub model: String,
    pub stream: bool,
    pub request_id: String,
    pub cache_affinity_key: Option<String>,
    pub input_tokens: usize,
    pub output_tokens: usize,
    pub first_token_delay: u128,
}

/// What a request for embeddings comes to.
#[derive(Debug)]
pub struct EmbeddingsPlan {
    pub model: String,
    pub request_id: String,
    pub item_count: usize,
    pub prompt_tokens: usize,
    pub encoding_format: EmbeddingEncodingFormat,
}

pub open spec fn text_or(text: Option<Seq<char>>, default: Seq<char>) -> Seq<char> {
    match text {
        Some(text) => text,
        None => default,
    }
}

pub open spec fn optional_view(text: Option<String>) -> Option<Seq<char>> {
    match text {
        Some(text) => Some(text@),
        None => None,
    }
}

fn given_or(text: Option<String>, default: &str) -> (chosen: String)
    ensures
        chosen@ == text_or(optional_view(text), default@),
{
    match text {
        Some(text) => text,
        None => default.to_string(),
    }
}

/// What the headers say of a request.
pub open spec fn header_of(contents: crate::headers::HeaderContents, name: Seq<char>) -> Option<Seq<char>> {
    crate::headers::first_text(contents, name)
}

impl GenerationPlan {
    /// The plan is what the request, its headers and the engine call for.
    pub open spec fn plans(
        &self,
        engine: MockEngine,
        contents: crate::headers::HeaderContents,
        model: Option<Seq<char>>,
        max_tokens: Option<usize>,
        lengths: Seq<usize>,
        default_request_id: Seq<char>,
    ) -> bool {
        &&& self.model@ == text_or(model, engine.model_name@)
        &&& self.request_id@ == text_or(header_of(contents, HEADER_REQUEST_ID@), default_request_id)
        &&& optional_view(self.cache_affinity_key) == header_of(contents, HEADER_CACHE_AFFINITY_KEY@)
        &&& self.input_tokens == crate::timing::prompt_tokens(contents, crate::timing::summed(lengths))
        &&& self.output_tokens == (match crate::timing::header_count(
            contents,
            crate::timing::HEADER_OUTPUT_TOKENS@,
        ) {
            Some(count) => count as usize,
            None => match max_tokens {
                Some(max_tokens) => crate::timing::min_count(max_tokens, engine.num_tokens),
                None => engine.num_tokens,
            },
        })
        &&& self.first_token_delay == engine.timing.first_delay(self.request_id@)
    }
}

fn plan_generation(
    engine: &MockEngine,
    headers: &HeaderMap<HeaderValue>,
    model: Option<String>,
    stream: bool,
    max_tokens: Option<usize>,
    lengths: &Vec<usize>,
    default_request_id: &str,
) -> (plan: GenerationPlan)
    ensures
        plan.stream == stream,
        plan.plans(
            *engine,
            crate::headers::header_contents(*headers),
            optional_view(model),
            max_tokens,
            lengths@,
            default_request_id@,
        ),
{
    proof {
        crate::tunnel_contract::lemma_header_names();
        reveal_strlit("x-cache-affinity-key");
        crate::tunnel_contract::lemma_name_chars_canonical(HEADER_CACHE_AFFINITY_KEY@);
    }
    let model = given_or(model, engine.model_name.as_str());
    let input_tokens: usize = request_input_tokens(headers, lengths);
    let output_tokens: usize = request_output_tokens(headers, max_tokens, engine.num_tokens);
    let request_id = given_or(optional_header(headers, HEADER_REQUEST_ID), default_request_id);
    let cache_affinity_key = optional_header(headers, HEADER_CACHE_AFFINITY_KEY);
    let first_token_delay: u128 = engine.timing.first_token_delay(request_id.as_str());
    GenerationPlan {
        model,
        stream,
        request_id,
        cache_affinity_key,
        input_tokens,
        output_tokens,
        first_token_delay,
    }
}

impl MockEngine {
    /// What a chat request comes to. One without an id goes by the response's.
    pub fn chat_completions(&self, headers: &HeaderMap<HeaderValue>, request: &ChatRequest, id: &str) -> (plan:
        GenerationPlan)
        ensures
            plan.stream == (request.stream == Some(true)),
            plan.plans(
                *self,
                crate::headers::header_contents(*headers),
                optional_view(request.model),
                request.max_tokens,
                request.content_lengths@,
                id@,
            ),
    {
        let stream = match request.stream {
            Some(true) => true,
            _ => false,
        };
        plan_generation(
            self,
            headers,
            copy_text(&request.model),
            stream,
            request.max_tokens,
            &request.content_lengths,
            id,
        )
    }

    /// What a request for a response comes to. It must ask for a stream; one
    /// without an id has an empty one.
    pub fn responses(&self, headers: &HeaderMap<HeaderValue>, request: &ResponsesRequest) -> (plan: Result<
        GenerationPlan,
        &'static str,
    >)
        ensures
            match plan {
                Ok(plan) => {
                    &&& request.stream == Some(true)
                    &&& plan.stream
                    &&& plan.plans(
                        *self,
                        crate::headers::header_contents(*headers),
                        optional_view(request.model),
                        request.max_output_tokens,
                        request.input_lengths@,
                        ""@,
                    )
                },
                Err(message) => {
                    &&& request.stream != Some(true)
                    &&& message@ == "mock-dynamo /v1/responses requires stream=true"@
                },
            },
    {
        match request.stream {
            Some(true) => Ok(
                plan_generation(
                    self,
                    headers,
                    copy_text(&request.model),
                    true,
                    request.max_output_tokens,
                    &request.input_lengths,
                    "",
                ),
            ),
            _ => Err("mock-dynamo /v1/responses requires stream=true"),
        }
    }

    /// What a request for embeddings comes to.
    pub fn embeddings(&self, headers: &HeaderMap<HeaderValue>, request: &EmbeddingsRequest, id: &str) -> (plan:
        EmbeddingsPlan)
        ensures
            ({
                let contents = crate::headers::header_contents(*headers);
                &&& plan.model@ == text_or(optional_view(request.model), self.model_name@)
                &&& plan.request_id@ == text_or(header_of(contents, HEADER_REQUEST_ID@), id@)
                &&& plan.item_count == (match request.input {
                    EmbeddingInput::Batch { items } => if crate::timing::token_list(items@) {
                        1
                    } else {
                        items@.len()
                    },
                    _ => 1,
                })
                &&& plan.prompt_tokens == crate::timing::prompt_tokens(
                    contents,
                    crate::timing::embedding_estimate(request.input),
                )
                &&& plan.encoding_format == (match request.encoding_format {
                    Some(format) => format,
                    None => EmbeddingEncodingFormat::Float,
                })
            }),
    {
        proof {
            crate::tunnel_contract::lemma_header_names();
        }
        let model = given_or(copy_text(&request.model), self.model_name.as_str());
        let item_count: usize = embedding_item_count(&request.input);
        let prompt_tokens: usize = request_embedding_tokens(headers, &request.input);
        let encoding_format = match request.encoding_format {
            Some(format) => format,
            None => EmbeddingEncodingFormat::Float,
        };
        let request_id = given_or(optional_header(headers, HEADER_REQUEST_ID), id);
        EmbeddingsPlan { model, request_id, item_count, prompt_tokens, encoding_format }
    }
}

/// What a chat request is told whose model is set to fail.
pub fn chat_failure_message(model: &str) -> (message: String)
    ensures
        message@ == "mock chat failure enabled for model "@ + model@,
{
    join_texts("mock chat failure enabled for model ", model)
}

/// The tokens of a request.
#[derive(Clone, Copy, Debug, PartialEq, Eq, Structural)]
pub struct ChatUsage {
    pub prompt_tokens: usize,
    pub completion_tokens: usize,
    pub total_tokens: usize,
}

pub fn chat_usage(prompt_tokens: usize, completion_tokens: usize) -> (usage: ChatUsage)
    requires
        prompt_tokens + completion_tokens <= usize::MAX,
    ensures
        usage.prompt_tokens == prompt_tokens,
        usage.completion_tokens == completion_tokens,
        usage.total_tokens == prompt_tokens + completion_tokens,
{
    ChatUsage { prompt_tokens, completion_tokens, total_tokens: prompt_tokens + completion_tokens }
}

/// What is reported of a request; one that produces no tokens counts as none.
pub fn counters_event(
    request_id: &str,
    model: &str,
    input_tokens: usize,
    output_tokens: Option<usize>,
    finished: bool,
) -> (event: StatsStreamEvent)
    ensures
        event.request_id@ == request_id@,
        event.model@ == model@,
        event.input_tokens == input_tokens,
        event.output_tokens == (match output_tokens {
            Some(tokens) => tokens,
            None => 0,
        }),
        event.finished == finished,
{
    StatsStreamEvent {
        request_id: request_id.to_string(),
        model: model.to_string(),
        input_tokens: input_tokens as u64,
        output_tokens: match output_tokens {
            Some(tokens) => tokens as u64,
            None => 0,
        },
        finished,
    }
}

/// What one message of a chat stream says.
#[derive(Debug)]
pub enum ChatStreamChunk {
    Role,
    Content(String),
    Stop,
}

/// The delta of a message that adds to the text.
pub open spec fn content_delta(content: Seq<char>) -> Seq<char> {
    "{\"content\":"@ + crate::json_text::quoted(content) + "}"@
}

pub open spec fn chunk_delta(chunk: ChatStreamChunk) -> Seq<char> {
    match chunk {
        ChatStreamChunk::Role => "{\"role\":\"assistant\"}"@,
        ChatStreamChunk::Content(content) => content_delta(content@),
        ChatStreamChunk::Stop => "{}"@,
    }
}

pub open spec fn chunk_finish(chunk: ChatStreamChunk) -> Seq<char> {
    match chunk {
        ChatStreamChunk::Stop => "\"stop\""@,
        _ => "null"@,
    }
}

/// A message of a chat stream, given its delta and the reason for its end.
pub open spec fn message_object(
    id: Seq<char>,
    model: Seq<char>,
    delta: Seq<char>,
    finish_reason: Seq<char>,
) -> Seq<char> {
    "{\"id\":"@ + crate::json_text::quoted(id) + ",\"object\":\"chat.completion.chunk\",\"model\":"@
        + crate::json_text::quoted(model) + ",\"choices\":[{\"index\":0,\"delta\":"@ + delta
        + ",\"finish_reason\":"@ + finish_reason + "}]}"@
}

pub open spec fn chunk_object(id: Seq<char>, model: Seq<char>, chunk: ChatStreamChunk) -> Seq<char> {
    message_object(id, model, chunk_delta(chunk), chunk_finish(chunk))
}

/// One message of a chat stream as JSON.
pub fn chat_chunk_json(id: &str, model: &str, chunk: &ChatStreamChunk) -> (json: String)
    ensures
        json@ == chunk_object(id@, model@, *chunk),
{
    let delta = match chunk {
        ChatStreamChunk::Role => "{\"role\":\"assistant\"}".to_string(),
        ChatStreamChunk::Content(content) => {
            let delta = join_texts("{\"content\":", json_string(content.as_str()).as_str());
            join_texts(delta.as_str(), "}")
        },
        ChatStreamChunk::Stop => "{}".to_string(),
    };
    let finish = match chunk {
        ChatStreamChunk::Stop => "\"stop\"",
        _ => "null",
    };
    let json = join_texts("{\"id\":", json_string(id).as_str());
    let json = join_texts(json.as_str(), ",\"object\":\"chat.completion.chunk\",\"model\":");
    let json = join_texts(json.as_str(), json_string(model).as_str());
    let json = join_texts(json.as_str(), ",\"choices\":[{\"index\":0,\"delta\":");
    let json = join_texts(json.as_str(), delta.as_str());
    let json = join_texts(json.as_str(), ",\"finish_reason\":");
    let json = join_texts(json.as_str(), finish);
    join_texts(json.as_str(), "}]}")
}

/// The identifier of a chat completion.
pub fn chat_completion_id(suffix: &str) -> (id: String)
    ensures
        id@ == "chatcmpl-mock-"@ + suffix@,
{
    join_texts("chatcmpl-mock-", suffix)
}

/// The identifier of a response.
pub fn response_id(suffix: &str) -> (id: String)
    ensures
        id@ == "resp-mock-"@ + suffix@,
{
    join_texts("resp-mock-", suffix)
}

/// The identifier of an embeddings request.
pub fn embeddings_id(suffix: &str) -> (id: String)
    ensures
        id@ == "embd-mock-"@ + suffix@,
{
    join_texts("embd-mock-", suffix)
}

/// Three counts of tokens, each under its name.
pub open spec fn usage_object(first: Seq<char>, second: Seq<char>, usage: ChatUsage) -> Seq<char> {
    "{"@ + first + crate::text::decimal_text(usage.prompt_tokens as nat) + second + crate::text::decimal_text(
        usage.completion_tokens as nat,
    ) + ",\"total_tokens\":"@ + crate::text::decimal_text(usage.total_tokens as nat) + "}"@
}

fn usage_json(first: &str, second: &str, usage: &ChatUsage) -> (json: String)
    ensures
        json@ == usage_object(first@, second@, *usage),
{
    let json = join_texts("{", first);
    let json = join_texts(json.as_str(), decimal(usage.prompt_tokens as u64).as_str());
    let json = join_texts(json.as_str(), second);
    let json = join_texts(json.as_str(), decimal(usage.completion_tokens as u64).as_str());
    let json = join_texts(json.as_str(), ",\"total_tokens\":");
    let json = join_texts(json.as_str(), decimal(usage.total_tokens as u64).as_str());
    join_texts(json.as_str(), "}")
}

pub open spec fn completion_object(
    id: Seq<char>,
    model: Seq<char>,
    content: Seq<char>,
    usage: ChatUsage,
) -> Seq<char> {
    "{\"id\":"@ + crate::json_text::quoted(id) + ",\"object\":\"chat.completion\",\"model\":"@
        + crate::json_text::quoted(model) + ",\"choices\":[{\"index\":0,\"message\":{\"role\":\"assistant\",\"content\":"@
        + crate::json_text::quoted(content) + "},\"finish_reason\":\"stop\"}],\"usage\":"@ + usage_object(
        "\"prompt_tokens\":"@,
        ",\"completion_tokens\":"@,
        usage,
    ) + "}"@
}

/// A chat completion as JSON.
pub fn chat_completion_json(id: &str, model: &str, content: &str, usage: &ChatUsage) -> (json: String)
    ensures
        json@ == completion_object(id@, model@, content@, *usage),
{
    let usage = usage_json("\"prompt_tokens\":", ",\"completion_tokens\":", usage);
    let json = join_texts("{\"id\":", json_string(id).as_str());
    let json = join_texts(json.as_str(), ",\"object\":\"chat.completion\",\"model\":");
    let json = join_texts(json.as_str(), json_string(model).as_str());
    let json = join_texts(
        json.as_str(),
        ",\"choices\":[{\"index\":0,\"message\":{\"role\":\"assistant\",\"content\":",
    );
    let json = join_texts(json.as_str(), json_string(content).as_str());
    let json = join_texts(json.as_str(), "},\"finish_reason\":\"stop\"}],\"usage\":");
    let json = join_texts(json.as_str(), usage.as_str());
    join_texts(json.as_str(), "}")
}

impl GenerationPlan {
    /// The tokens that the request comes to.
    pub open spec fn usage(&self) -> ChatUsage {
        ChatUsage {
            prompt_tokens: self.input_tokens,
            completion_tokens: self.output_tokens,
            total_tokens: (self.input_tokens + self.output_tokens) as usize,
        }
    }

    /// The document that answers a request for a chat completion that is not
    /// streamed: all of the answer's tokens, and how many they are.
    pub fn completion_json(&self, id: &str) -> (json: String)
        requires
            self.input_tokens + self.output_tokens <= usize::MAX,
        ensures
            json@ == completion_object(
                id@,
                self.model@,
                answer_text(self.output_tokens as nat),
                self.usage(),
            ),
    {
        let usage = chat_usage(self.input_tokens, self.output_tokens);
        let content = answer(self.output_tokens);
        chat_completion_json(id, self.model.as_str(), content.as_str(), &usage)
    }
}

/// What one event of a response stream says.
#[derive(Debug)]
pub enum ResponsesStreamEvent {
    Created,
    Delta(String),
    Completed { text: String, usage: ChatUsage },
}

impl ResponsesStreamEvent {
    pub open spec fn name_text(&self) -> Seq<char> {
        match self {
            ResponsesStreamEvent::Created => "response.created"@,
            ResponsesStreamEvent::Delta(_) => "response.output_text.delta"@,
            ResponsesStreamEvent::Completed { .. } => "response.completed"@,
        }
    }

    /// The name under which the event is sent.
    pub fn name(&self) -> (name: &'static str)
        ensures
            name@ == self.name_text(),
    {
        match self {
            ResponsesStreamEvent::Created => "response.created",
            ResponsesStreamEvent::Delta(_) => "response.output_text.delta",
            ResponsesStreamEvent::Completed { .. } => "response.completed",
        }
    }
}

/// The response up to its output.
pub open spec fn response_head(id: Seq<char>, model: Seq<char>, created_at: u64) -> Seq<char> {
    "{\"response\":{\"created_at\":"@ + crate::text::decimal_text(created_at as nat) + ",\"id\":"@
        + crate::json_text::quoted(id) + ",\"model\":"@ + crate::json_text::quoted(model)
        + ",\"object\":\"response\",\"output\":["@
}

/// The event that says that a response has begun.
pub open spec fn created_object(id: Seq<char>, model: Seq<char>, created_at: u64) -> Seq<char> {
    response_head(id, model, created_at)
        + "],\"status\":\"in_progress\",\"usage\":null},\"type\":\"response.created\"}"@
}

/// The event that adds to the text of a response.
pub open spec fn delta_object(id: Seq<char>, delta: Seq<char>) -> Seq<char> {
    "{\"content_index\":0,\"delta\":"@ + crate::json_text::quoted(delta) + ",\"output_index\":0,\"response_id\":"@
        + crate::json_text::quoted(id) + ",\"type\":\"response.output_text.delta\"}"@
}

/// The event that gives a response as a whole.
pub open spec fn completed_object(
    id: Seq<char>,
    model: Seq<char>,
    created_at: u64,
    text: Seq<char>,
    usage: ChatUsage,
) -> Seq<char> {
    response_head(id, model, created_at) + "{\"content\":[{\"annotations\":[],\"text\":"@
        + crate::json_text::quoted(text) + ",\"type\":\"output_text\"}],\"id\":"@ + crate::json_text::quoted("msg-"@ + id)
        + ",\"role\":\"assistant\",\"status\":\"completed\",\"type\":\"message\"}],\"status\":\"completed\",\"usage\":"@
        + usage_object("\"input_tokens\":"@, ",\"output_tokens\":"@, usage) + "},\"type\":\"response.completed\"}"@
}

pub open spec fn response_event_object(
    id: Seq<char>,
    model: Seq<char>,
    created_at: u64,
    event: ResponsesStreamEvent,
) -> Seq<char> {
    match event {
        ResponsesStreamEvent::Created => created_object(id, model, created_at),
        ResponsesStreamEvent::Delta(token) => delta_object(id, token@),
        ResponsesStreamEvent::Completed { text, usage } => completed_object(id, model, created_at, text@, usage),
    }
}

fn response_head_json(id: &str, model: &str, created_at: u64) -> (json: String)
    ensures
        json@ == response_head(id@, model@, created_at),
{
    let json = join_texts("{\"response\":{\"created_at\":", decimal(created_at).as_str());
    let json = join_texts(json.as_str(), ",\"id\":");
    let json = join_texts(json.as_str(), json_string(id).as_str());
    let json = join_texts(json.as_str(), ",\"model\":");
    let json = join_texts(json.as_str(), json_string(model).as_str());
    join_texts(json.as_str(), ",\"object\":\"response\",\"output\":[")
}

/// One event of a response stream as JSON.
pub fn response_event_json(id: &str, model: &str, created_at: u64, event: &ResponsesStreamEvent) -> (json: String)
    ensures
        json@ == response_event_object(id@, model@, created_at, *event),
{
    match event {
        ResponsesStreamEvent::Created => {
            let json = response_head_json(id, model, created_at);
            join_texts(
                json.as_str(),
                "],\"status\":\"in_progress\",\"usage\":null},\"type\":\"response.created\"}",
            )
        },
        ResponsesStreamEvent::Delta(token) => {
            let json = join_texts("{\"content_index\":0,\"delta\":", json_string(token.as_str()).as_str());
            let json = join_texts(json.as_str(), ",\"output_index\":0,\"response_id\":");
            let json = join_texts(json.as_str(), json_string(id).as_str());
            join_texts(json.as_str(), ",\"type\":\"response.output_text.delta\"}")
        },
        ResponsesStreamEvent::Completed { text, usage } => {
            let usage = usage_json("\"input_tokens\":", ",\"output_tokens\":", usage);
            let message = join_texts("msg-", id);
            let json = response_head_json(id, model, created_at);
            let json = join_texts(json.as_str(), "{\"content\":[{\"annotations\":[],\"text\":");
            let json = join_texts(json.as_str(), json_string(text.as_str()).as_str());
            let json = join_texts(json.as_str(), ",\"type\":\"output_text\"}],\"id\":");
            let json = join_texts(json.as_str(), json_string(message.as_str()).as_str());
            let json = join_texts(
                json.as_str(),
                ",\"role\":\"assistant\",\"status\":\"completed\",\"type\":\"message\"}],\"status\":\"completed\",\"usage\":",
            );
            let json = join_texts(json.as_str(), usage.as_str());
            join_texts(json.as_str(), "},\"type\":\"response.completed\"}")
        },
    }
}

/// What is sent at a step of a streamed response: the name of the event, where
/// it has one, and its text. Waits and counts send nothing.
pub open spec fn sent_at(
    kind: StreamKind,
    id: Seq<char>,
    plan: GenerationPlan,
    action: StreamAction,
) -> Option<(Option<Seq<char>>, Seq<char>)> {
    match (kind, action) {
        (StreamKind::Chat, StreamAction::Role) => Some(
            (None, chunk_object(id, plan.model@, ChatStreamChunk::Role)),
        ),
        (StreamKind::Chat, StreamAction::Token { index }) => Some(
            (None, message_object(id, plan.model@, content_delta(token_at(index as nat)), "null"@)),
        ),
        (StreamKind::Chat, StreamAction::Completed) => Some(
            (None, chunk_object(id, plan.model@, ChatStreamChunk::Stop)),
        ),
        (StreamKind::Responses { created_at }, StreamAction::Created) => Some(
            (Some("response.created"@), created_object(id, plan.model@, created_at)),
        ),
        (StreamKind::Responses { .. }, StreamAction::Token { index }) => Some(
            (Some("response.output_text.delta"@), delta_object(id, token_at(index as nat))),
        ),
        (StreamKind::Responses { created_at }, StreamAction::Completed) => Some(
            (
                Some("response.completed"@),
                completed_object(
                    id,
                    plan.model@,
                    created_at,
                    answer_text(plan.output_tokens as nat),
                    plan.usage(),
                ),
            ),
        ),
        (_, StreamAction::Done) => Some((None, "[DONE]"@)),
        _ => None,
    }
}

fn response_event(id: &str, plan: &GenerationPlan, created_at: u64, event: ResponsesStreamEvent) -> (sent: Option<
    (Option<&'static str>, String),
>)
    ensures
        sent matches Some((Some(name), text)) && name@ == event.name_text() && text@ == response_event_object(
            id@,
            plan.model@,
            created_at,
            event,
        ),
{
    Some((Some(event.name()), response_event_json(id, plan.model.as_str(), created_at, &event)))
}

/// The event that is sent at a step of a streamed response: its name, where it
/// has one, and its text.
pub fn stream_event(kind: StreamKind, id: &str, plan: &GenerationPlan, action: StreamAction) -> (event: Option<
    (Option<&'static str>, String),
>)
    requires
        kind is Responses && action is Completed ==> plan.input_tokens + plan.output_tokens <= usize::MAX,
    ensures
        match (event, sent_at(kind, id@, *plan, action)) {
            (Some((Some(name), text)), Some((Some(sent_name), sent_text))) => {
                &&& name@ == sent_name
                &&& text@ == sent_text
            },
            (Some((None, text)), Some((None, sent_text))) => text@ == sent_text,
            (None, None) => true,
            _ => false,
        },
{
    match (kind, action) {
        (StreamKind::Chat, StreamAction::Role) => Some(
            (None, chat_chunk_json(id, plan.model.as_str(), &ChatStreamChunk::Role)),
        ),
        (StreamKind::Chat, StreamAction::Token { index }) => {
            let chunk = ChatStreamChunk::Content(dummy_token(index).to_string());
            Some((None, chat_chunk_json(id, plan.model.as_str(), &chunk)))
        },
        (StreamKind::Chat, StreamAction::Completed) => Some(
            (None, chat_chunk_json(id, plan.model.as_str(), &ChatStreamChunk::Stop)),
        ),
        (StreamKind::Responses { created_at }, StreamAction::Created) => response_event(
            id,
            plan,
            created_at,
            ResponsesStreamEvent::Created,
        ),
        (StreamKind::Responses { created_at }, StreamAction::Token { index }) => response_event(
            id,
            plan,
            created_at,
            ResponsesStreamEvent::Delta(dummy_token(index).to_string()),
        ),
        (StreamKind::Responses { created_at }, StreamAction::Completed) => {
            let usage = chat_usage(plan.input_tokens, plan.output_tokens);
            response_event(
                id,
                plan,
                created_at,
                ResponsesStreamEvent::Completed { text: answer(plan.output_tokens), usage },
            )
        },
        (_, StreamAction::Done) => Some((None, "[DONE]".to_string())),
        _ => None,
    }
}

/// The texts one after the other, with commas between them.
pub open spec fn comma_separated(items: Seq<Seq<char>>) -> Seq<char>
    decreases items.len(),
{
    if items.len() == 0 {
        Seq::empty()
    } else if items.len() == 1 {
        items[0]
    } else {
        comma_separated(items.drop_last()) + ","@ + items.last()
    }
}

fn join_items(items: &Vec<String>) -> (text: String)
    ensures
        text@ == comma_separated(crate::keyed::views(items@)),
{
    let ghost all = crate::keyed::views(items@);
    let mut text = String::new();
    let mut i: usize = 0;
    assert(text@ =~= comma_separated(all.take(0)));
    while i < items.len()
        invariant
            i <= items.len(),
            all == crate::keyed::views(items@),
            text@ == comma_separated(all.take(i as int)),
        decreases items.len() - i,
    {
        proof {
            assert(all.take(i + 1).drop_last() =~= all.take(i as int));
            assert(all.take(i + 1).last() == items[i as int]@);
        }
        if i == 0 {
            text = items[i].clone();
        } else {
            text = join_texts(text.as_str(), ",");
            text = join_texts(text.as_str(), items[i].as_str());
        }
        i += 1;
    }
    assert(all.take(i as int) =~= all);
    text
}

/// One embedding of a list. Its value comes as it is written in JSON.
pub open spec fn embedding_object(value: Seq<char>, index: int) -> Seq<char> {
    "{\"embedding\":"@ + value + ",\"index\":"@ + crate::text::decimal_text(index as nat)
        + ",\"object\":\"embedding\"}"@
}

pub open spec fn embeddings_object(values: Seq<Seq<char>>, model: Seq<char>, prompt_tokens: usize) -> Seq<char> {
    let tokens = crate::text::decimal_text(prompt_tokens as nat);
    "{\"data\":["@ + comma_separated(Seq::new(values.len(), |i: int| embedding_object(values[i], i)))
        + "],\"model\":"@ + crate::json_text::quoted(model) + ",\"object\":\"list\",\"usage\":{\"prompt_tokens\":"@
        + tokens + ",\"total_tokens\":"@ + tokens + "}}"@
}

impl EmbeddingsPlan {
    /// The document that answers a request for embeddings, given their values
    /// as they are written in JSON.
    pub fn embeddings_json(&self, values: &Vec<String>) -> (json: String)
        ensures
            json@ == embeddings_object(crate::keyed::views(values@), self.model@, self.prompt_tokens),
    {
        let ghost given = crate::keyed::views(values@);
        let ghost objects = Seq::new(given.len(), |i: int| embedding_object(given[i], i));
        let mut items: Vec<String> = Vec::new();
        let mut i: usize = 0;
        while i < values.len()
            invariant
                i <= values.len(),
                items.len() == i,
                given == crate::keyed::views(values@),
                forall|j: int| 0 <= j < i ==> (#[trigger] items[j])@ == embedding_object(given[j], j),
            decreases values.len() - i,
        {
            let item = join_texts("{\"embedding\":", values[i].as_str());
            let item = join_texts(item.as_str(), ",\"index\":");
            let item = join_texts(item.as_str(), decimal(i as u64).as_str());
            items.push(join_texts(item.as_str(), ",\"object\":\"embedding\"}"));
            i += 1;
        }
        assert(crate::keyed::views(items@) =~= objects);
        let tokens = decimal(self.prompt_tokens as u64);
        let json = join_texts("{\"data\":[", join_items(&items).as_str());
        let json = join_texts(json.as_str(), "],\"model\":");
        let json = join_texts(json.as_str(), json_string(self.model.as_str()).as_str());
        let json = join_texts(json.as_str(), ",\"object\":\"list\",\"usage\":{\"prompt_tokens\":");
        let json = join_texts(json.as_str(), tokens.as_str());
        let json = join_texts(json.as_str(), ",\"total_tokens\":");
        let json = join_texts(json.as_str(), tokens.as_str());
        join_texts(json.as_str(), "}}")
    }
}

pub open spec fn model_object(id: Seq<char>) -> Seq<char> {
    "{\"id\":"@ + crate::json_text::quoted(id) + ",\"object\":\"model\"}"@
}

/// The models of the engine as JSON.
pub fn model_list_json(ids: &Vec<String>) -> (json: String)
    ensures
        json@ == "{\"object\":\"list\",\"data\":["@ + comma_separated(
            crate::keyed::views(ids@).map_values(|id: Seq<char>| model_object(id)),
        ) + "]}"@,
{
    let ghost objects = crate::keyed::views(ids@).map_values(|id: Seq<char>| model_object(id));
    let mut items: Vec<String> = Vec::new();
    let mut i: usize = 0;
    while i < ids.len()
        invariant
            i <= ids.len(),
            items.len() == i,
            forall|j: int| 0 <= j < i ==> (#[trigger] items[j])@ == model_object(ids[j]@),
        decreases ids.len() - i,
    {
        let item = join_texts("{\"id\":", json_string(ids[i].as_str()).as_str());
        items.push(join_texts(item.as_str(), ",\"object\":\"model\"}"));
        i += 1;
    }
    assert(crate::keyed::views(items@) =~= objects);
    let json = join_texts("{\"object\":\"list\",\"data\":[", join_items(&items).as_str());
    join_texts(json.as_str(), "]}")
}

} // verus!
