//! The mock engine: its prefix cache, its delays, its counts, its streams, its
//! reports and its test controls.

use std::time::Duration;

use http::{HeaderMap, HeaderValue};
use pylon::binary64::Binary64;
use pylon::kv_cache::{insert_kv_cache_headers, KvCacheAccess, KvCacheState};
use pylon::openai::{
    answer, chat_chunk_json, chat_completion_id, chat_completion_json, chat_failure_message, chat_usage,
    counters_event, dummy_token, embeddings_id, model_list_json, response_event_json, response_id, stream_event,
    ChatRequest, ChatStreamChunk, EmbeddingEncodingFormat, EmbeddingsRequest, GenerationPlan, MockEngine,
    ResponsesRequest, ResponsesStreamEvent, StreamAction, StreamCursor, StreamKind,
};
use pylon::relay::{usage_snapshot, DataStatus, WorkerRole};
use pylon::stats_stream::{ndjson_event, LoadAccumulator, StatsStreamEvent, StatsStreamLine};
use pylon::test_control::{
    request_class, ModelTestControl, ModelTestControlUpdate, TestControlSnapshot, TestControlState,
    TestCounterSnapshot, TestEndpoint, TestRequestClass,
};
use pylon::timing::{
    embedding_item_count, jitter_ms, optional_header, prefill_delay, request_embedding_tokens, request_input_tokens,
    request_output_tokens, EmbeddingInput, EmbeddingItem, MockTiming, LONGEST_DELAY,
};
use serde_json::Value;

fn text_length(text: &str) -> usize {
    text.chars().count()
}

fn embedding_input(json: &str) -> EmbeddingInput {
    match serde_json::from_str::<Value>(json).unwrap() {
        Value::String(text) => EmbeddingInput::Text { length: text_length(&text) },
        Value::Array(items) => EmbeddingInput::Batch {
            items: items
                .iter()
                .map(|item| match item {
                    Value::String(text) => EmbeddingItem::Text { length: text_length(text) },
                    Value::Number(_) => EmbeddingItem::Number,
                    Value::Array(tokens) => EmbeddingItem::Tokens { count: tokens.len() },
                    _ => EmbeddingItem::Other,
                })
                .collect(),
        },
        _ => EmbeddingInput::Other,
    }
}

fn embedding_tokens(json: &str) -> usize {
    request_embedding_tokens(&HeaderMap::new(), &embedding_input(json))
}

fn time_for(tokens: u64, rate: Binary64) -> Option<u128> {
    Duration::try_from_secs_f64(tokens as f64 / f64::from_bits(rate.bits)).ok().map(|time| time.as_nanos())
}

fn prefill(input_tokens: usize, rate: f64) -> Duration {
    let nanoseconds = prefill_delay(input_tokens, Binary64 { bits: rate.to_bits() }, &time_for);
    Duration::new((nanoseconds / 1_000_000_000) as u64, (nanoseconds % 1_000_000_000) as u32)
}

fn completed_cache_access(
    cache: &mut KvCacheState,
    cache_affinity_key: Option<&str>,
    input_tokens: usize,
) -> KvCacheAccess {
    let access = cache.access(cache_affinity_key, input_tokens);
    access.with_commit(cache.commit(cache_affinity_key, input_tokens))
}

fn headers(pairs: &[(&'static str, &'static str)]) -> HeaderMap<HeaderValue> {
    let mut headers = HeaderMap::new();
    for (name, value) in pairs {
        headers.append(*name, HeaderValue::from_static(value));
    }
    headers
}

fn engine() -> MockEngine {
    MockEngine {
        model_name: "dummy-model".to_string(),
        num_tokens: 8,
        timing: MockTiming { token_delay: 5, decode_jitter_ms: 0, ttft: 7, ttft_jitter_ms: 0 },
    }
}

#[test]
fn test_controls_isolate_chat_failure_by_model() {
    let mut controls = TestControlState::default();

    controls.update_model(
        "model-b",
        ModelTestControlUpdate { chat_failure: Some(true), ..ModelTestControlUpdate::default() },
    );

    assert!(!controls.chat_failure_enabled("model-a"));
    assert!(controls.chat_failure_enabled("model-b"));

    controls.update_model(
        "model-b",
        ModelTestControlUpdate { chat_failure: Some(false), ..ModelTestControlUpdate::default() },
    );

    assert!(!controls.chat_failure_enabled("model-b"));
}

#[test]
fn test_controls_count_endpoint_model_and_request_class() {
    let mut controls = TestControlState::default();
    let recorded = [
        (TestEndpoint::ChatCompletions, "model-a", TestRequestClass::PylonGenerated),
        (TestEndpoint::ChatCompletions, "model-a", TestRequestClass::ApiGateway),
        (TestEndpoint::Embeddings, "model-b", TestRequestClass::ApiGateway),
    ];
    for (endpoint, model, request_class) in recorded {
        controls.record_request(endpoint, model, request_class);
    }

    let snapshot = controls.snapshot();
    for (endpoint, model, request_class, expected) in recorded
        .map(|(endpoint, model, class)| (endpoint, model, class, 1))
        .into_iter()
        .chain([(TestEndpoint::Responses, "model-a", TestRequestClass::ApiGateway, 0)])
    {
        assert_eq!(snapshot.counter(endpoint, model, request_class), expected);
    }
}

#[test]
fn bringup_gate_is_released_by_the_update_that_opens_it() {
    let mut controls = TestControlState::default();
    let held = ModelTestControlUpdate { bringup_blocked: Some(true), ..ModelTestControlUpdate::default() };
    assert!(!controls.update_model("model-a", held));
    assert!(controls.bringup_blocked("model-a"));
    assert!(!controls.bringup_blocked("model-b"));

    let failing = ModelTestControlUpdate { chat_failure: Some(true), ..ModelTestControlUpdate::default() };
    assert!(!controls.update_model("model-a", failing));
    assert!(controls.bringup_blocked("model-a"));

    let open = ModelTestControlUpdate { bringup_blocked: Some(false), ..ModelTestControlUpdate::default() };
    assert!(controls.update_model("model-a", open));
    assert!(!controls.bringup_blocked("model-a"));
    assert!(controls.chat_failure_enabled("model-a"));

    let snapshot = controls.snapshot();
    assert_eq!(snapshot.models.len(), 1);
    assert_eq!(snapshot.models[0].model, "model-a");
    assert_eq!(snapshot.models[0].control, ModelTestControl { chat_failure: true, bringup_blocked: false });
}

#[test]
fn discovered_models_are_sorted_trimmed_and_replaced_as_a_whole() {
    let mut controls = TestControlState::with_discovered_models(&["dummy-model".to_string()]);
    assert_eq!(controls.record_model_discovery_request(), vec!["dummy-model".to_string()]);

    assert_eq!(
        controls.replace_discovered_models(&[" model-b ".to_string(), "model-a".to_string(), "model-b".to_string()]),
        Ok(())
    );
    assert_eq!(controls.record_model_discovery_request(), vec!["model-a".to_string(), "model-b".to_string()]);
    assert_eq!(controls.snapshot().model_discovery_requests, 2);

    assert_eq!(
        controls.replace_discovered_models(&["model-c".to_string(), "  ".to_string()]),
        Err("model IDs must be non-empty")
    );
    assert_eq!(controls.snapshot().discovered_models, vec!["model-a".to_string(), "model-b".to_string()]);

    assert_eq!(controls.replace_discovered_models(&[]), Ok(()));
    assert!(controls.snapshot().discovered_models.is_empty());
}

#[test]
fn generated_requests_are_told_apart_by_their_identifier() {
    assert_eq!(request_class(&HeaderMap::new()), TestRequestClass::ApiGateway);
    assert_eq!(request_class(&headers(&[("x-request-id", "req-1")])), TestRequestClass::ApiGateway);
    assert_eq!(
        request_class(&headers(&[("x-request-id", "calibration-1")])),
        TestRequestClass::PylonGenerated
    );
    assert_eq!(request_class(&headers(&[("x-request-id", "canary-1")])), TestRequestClass::PylonGenerated);
    assert_eq!(TestEndpoint::ChatCompletions.label(), "chat_completions");
    assert_eq!(TestRequestClass::PylonGenerated.label(), "pylon_generated");
}

#[test]
fn counts_openai_embedding_input_items() {
    assert_eq!(embedding_item_count(&embedding_input(r#""single input""#)), 1);
    assert_eq!(embedding_item_count(&embedding_input(r#"["a", "b"]"#)), 2);
    assert_eq!(embedding_item_count(&embedding_input("[1, 2, 3]")), 1);
    assert_eq!(embedding_item_count(&embedding_input("[[1, 2], [3, 4], [5]]")), 3);
    assert_eq!(embedding_item_count(&embedding_input("[]")), 0);
}

#[test]
fn embedding_token_estimates_follow_input_shape() {
    assert_eq!(embedding_tokens(r#""abcd""#), 4);
    assert_eq!(embedding_tokens("[1, 2, 3]"), 3);
    assert_eq!(embedding_tokens(r#"["alpha", "b"]"#), 6);
    assert_eq!(embedding_tokens("[[1, 2], [3, 4], [5]]"), 5);
    assert_eq!(embedding_tokens(r#"["abc", [1, 2], true]"#), 6);
    assert_eq!(embedding_tokens(r#"{"unexpected": true}"#), 1);
}

#[test]
fn embedding_token_estimates_preserve_empty_batch_item_work() {
    assert_eq!(embedding_tokens(r#"["", "b"]"#), 2);
    assert_eq!(embedding_tokens("[[], [1, 2]]"), 3);
}

#[test]
fn embedding_token_header_override_clamps_to_nonzero() {
    let mut headers = HeaderMap::new();
    headers.insert("x-input-tokens", HeaderValue::from_static("0"));

    assert_eq!(request_embedding_tokens(&headers, &embedding_input(r#"["alpha", "beta"]"#)), 1);
}

#[test]
fn chat_stream_chunks_preserve_delta_and_finish_shapes() {
    for (chunk, delta, finish_reason) in [
        (ChatStreamChunk::Role, r#"{"role": "assistant"}"#, "null"),
        (ChatStreamChunk::Content("token".to_string()), r#"{"content": "token"}"#, "null"),
        (ChatStreamChunk::Stop, "{}", r#""stop""#),
    ] {
        let value: Value = serde_json::from_str(&chat_chunk_json("id", "model", &chunk)).unwrap();
        assert_eq!(value["choices"][0]["delta"], serde_json::from_str::<Value>(delta).unwrap());
        assert_eq!(value["choices"][0]["finish_reason"], serde_json::from_str::<Value>(finish_reason).unwrap());
        assert!(value.get("usage").is_none());
    }
}

#[test]
fn a_completion_is_one_document() {
    let id = chat_completion_id("id");
    assert_eq!(
        chat_completion_json(&id, "model-a", &answer(1), &chat_usage(1, 1)),
        r#"{"id":"chatcmpl-mock-id","object":"chat.completion","model":"model-a","choices":[{"index":0,"message":{"role":"assistant","content":"Hello"},"finish_reason":"stop"}],"usage":{"prompt_tokens":1,"completion_tokens":1,"total_tokens":2}}"#
    );
    let odd: Value =
        serde_json::from_str(&chat_completion_json("a\"b", "m\\n", "\n", &chat_usage(2, 40))).unwrap();
    assert_eq!(odd["id"], "a\"b");
    assert_eq!(odd["model"], "m\\n");
    assert_eq!(odd["choices"][0]["message"]["content"], "\n");
    assert_eq!(odd["usage"]["total_tokens"], 42);
    assert_eq!(embeddings_id("1f"), "embd-mock-1f");
}

#[test]
fn models_and_embeddings_are_listed() {
    assert_eq!(model_list_json(&vec![]), r#"{"object":"list","data":[]}"#);
    assert_eq!(
        model_list_json(&vec!["model-a".to_string(), "b\"".to_string()]),
        r#"{"object":"list","data":[{"id":"model-a","object":"model"},{"id":"b\"","object":"model"}]}"#
    );
    let request = EmbeddingsRequest {
        input: EmbeddingInput::Batch {
            items: vec![EmbeddingItem::Text { length: 3 }, EmbeddingItem::Text { length: 4 }],
        },
        model: Some("model-a".to_string()),
        encoding_format: Some(EmbeddingEncodingFormat::Base64),
    };
    let plan = engine().embeddings(&HeaderMap::new(), &request, "id");
    let values = vec!["[0,0.125,-0.25]".to_string(), r#""AAAAAAAAAAA=""#.to_string()];
    let json: Value = serde_json::from_str(&plan.embeddings_json(&values)).unwrap();
    assert_eq!(json["object"], "list");
    assert_eq!(json["model"], "model-a");
    assert_eq!(json["data"][0]["embedding"][1], 0.125);
    assert_eq!(json["data"][0]["index"], 0);
    assert_eq!(json["data"][1]["embedding"], "AAAAAAAAAAA=");
    assert_eq!(json["data"][1]["index"], 1);
    assert_eq!(json["data"][1]["object"], "embedding");
    assert_eq!(json["usage"]["prompt_tokens"], plan.prompt_tokens);
    assert_eq!(json["usage"]["total_tokens"], plan.prompt_tokens);
}

#[test]
fn a_response_stream_is_created_continued_and_completed() {
    let id = response_id("1f");
    assert_eq!(id, "resp-mock-1f");
    let created = ResponsesStreamEvent::Created;
    assert_eq!(created.name(), "response.created");
    assert_eq!(
        serde_json::from_str::<Value>(&response_event_json(&id, "request-model", 7, &created)).unwrap(),
        serde_json::from_str::<Value>(
            r#"{"type":"response.created","response":{"id":"resp-mock-1f","object":"response","created_at":7,"status":"in_progress","model":"request-model","output":[],"usage":null}}"#
        )
        .unwrap()
    );
    let delta = ResponsesStreamEvent::Delta("Hello".to_string());
    assert_eq!(delta.name(), "response.output_text.delta");
    assert_eq!(
        serde_json::from_str::<Value>(&response_event_json(&id, "request-model", 7, &delta)).unwrap(),
        serde_json::from_str::<Value>(
            r#"{"type":"response.output_text.delta","response_id":"resp-mock-1f","output_index":0,"content_index":0,"delta":"Hello"}"#
        )
        .unwrap()
    );
    let completed = ResponsesStreamEvent::Completed { text: answer(2), usage: chat_usage(7, 2) };
    assert_eq!(completed.name(), "response.completed");
    let json = response_event_json(&id, "request-model", 7, &completed);
    assert_eq!(
        serde_json::from_str::<Value>(&json).unwrap(),
        serde_json::from_str::<Value>(
            r#"{"type":"response.completed","response":{"id":"resp-mock-1f","object":"response","created_at":7,"status":"completed","model":"request-model","output":[{"id":"msg-resp-mock-1f","type":"message","status":"completed","role":"assistant","content":[{"type":"output_text","text":"Hello,","annotations":[]}]}],"usage":{"input_tokens":7,"output_tokens":2,"total_tokens":9}}}"#
        )
        .unwrap()
    );
    assert!(json.contains(r#""type":"response.completed""#));
    assert!(json.contains(r#""object":"response""#));
    assert!(json.contains(r#""total_tokens":9"#));
}

#[test]
fn the_steps_of_a_stream_send_its_events() {
    let plan = GenerationPlan {
        model: "model-a".to_string(),
        stream: true,
        request_id: "req-1".to_string(),
        cache_affinity_key: None,
        input_tokens: 7,
        output_tokens: 2,
        first_token_delay: 0,
    };
    let mut sent = Vec::new();
    let mut cursor = StreamCursor::new(StreamKind::Chat, plan.output_tokens);
    while let Some(action) = cursor.step() {
        if let Some((name, text)) = stream_event(StreamKind::Chat, "id", &plan, action) {
            assert_eq!(name, None);
            sent.push(text);
        }
    }
    assert_eq!(
        sent,
        [
            chat_chunk_json("id", "model-a", &ChatStreamChunk::Role),
            chat_chunk_json("id", "model-a", &ChatStreamChunk::Content("Hello".to_string())),
            chat_chunk_json("id", "model-a", &ChatStreamChunk::Content(",".to_string())),
            chat_chunk_json("id", "model-a", &ChatStreamChunk::Stop),
            "[DONE]".to_string(),
        ]
    );

    let kind = StreamKind::Responses { created_at: 9 };
    let mut named = Vec::new();
    let mut cursor = StreamCursor::new(kind, plan.output_tokens);
    while let Some(action) = cursor.step() {
        if let Some((name, text)) = stream_event(kind, "id", &plan, action) {
            named.push((name.unwrap(), text));
        }
    }
    let events = [
        ResponsesStreamEvent::Created,
        ResponsesStreamEvent::Delta("Hello".to_string()),
        ResponsesStreamEvent::Delta(",".to_string()),
        ResponsesStreamEvent::Completed { text: "Hello,".to_string(), usage: chat_usage(7, 2) },
    ];
    assert_eq!(named.len(), events.len());
    for ((name, text), event) in named.iter().zip(&events) {
        assert_eq!(*name, event.name());
        assert_eq!(*text, response_event_json("id", "model-a", 9, event));
    }
    let long = GenerationPlan { input_tokens: usize::MAX, ..plan };
    assert!(stream_event(StreamKind::Chat, "id", &long, StreamAction::Completed).is_some());
    assert_eq!(stream_event(StreamKind::Chat, "id", &long, StreamAction::WaitFirst), None);
}

#[test]
fn the_first_counter_of_a_kind_counts() {
    let counter = |model: &str, count: u64| TestCounterSnapshot {
        endpoint: TestEndpoint::ChatCompletions,
        model: model.to_string(),
        request_class: TestRequestClass::ApiGateway,
        count,
    };
    let snapshot = TestControlSnapshot {
        discovered_models: vec![],
        model_discovery_requests: 0,
        models: vec![],
        counters: vec![counter("model-b", 1), counter("model-a", 2), counter("model-a", 3)],
    };
    let count = |endpoint, model| snapshot.counter(endpoint, model, TestRequestClass::ApiGateway);
    assert_eq!(count(TestEndpoint::ChatCompletions, "model-a"), 2);
    assert_eq!(count(TestEndpoint::ChatCompletions, "model-c"), 0);
    assert_eq!(count(TestEndpoint::Embeddings, "model-a"), 0);
}

#[test]
fn chunk_contents_are_escaped() {
    let chunk = ChatStreamChunk::Content("a\"b\\c\n\u{1}\u{e9}".to_string());
    let json = chat_chunk_json("id-1", "model", &chunk);
    assert!(json.contains(r#"{"content":"a\"b\\c\n\u0001é"}"#));
    let value: Value = serde_json::from_str(&json).unwrap();
    assert_eq!(value["choices"][0]["delta"]["content"], "a\"b\\c\n\u{1}\u{e9}");
    assert_eq!(value["id"], "id-1");
    assert_eq!(value["object"], "chat.completion.chunk");
}

#[test]
fn output_tokens_prefer_benchmark_header() {
    let mut headers = HeaderMap::new();
    headers.insert("x-output-tokens", HeaderValue::from_static("64"));

    assert_eq!(request_output_tokens(&headers, Some(16), 8), 64);
}

#[test]
fn max_tokens_is_capped_by_default_when_header_absent() {
    assert_eq!(request_output_tokens(&HeaderMap::new(), Some(128), 8), 8);
}

#[test]
fn output_tokens_follow_the_request_below_the_default() {
    assert_eq!(request_output_tokens(&HeaderMap::new(), Some(3), 8), 3);
    assert_eq!(request_output_tokens(&HeaderMap::new(), None, 8), 8);
    assert_eq!(request_output_tokens(&headers(&[("x-output-tokens", "many")]), Some(3), 8), 3);
}

#[test]
fn input_tokens_sum_the_contents_unless_a_header_counts_them() {
    assert_eq!(request_input_tokens(&HeaderMap::new(), &vec![3, 4]), 7);
    assert_eq!(request_input_tokens(&HeaderMap::new(), &vec![]), 1);
    assert_eq!(request_input_tokens(&HeaderMap::new(), &vec![usize::MAX, 4]), usize::MAX);
    assert_eq!(request_input_tokens(&headers(&[("x-input-tokens", "100")]), &vec![3, 4]), 100);
    assert_eq!(optional_header(&headers(&[("x-request-id", "req-1")]), "x-request-id"), Some("req-1".to_string()));
    assert_eq!(optional_header(&HeaderMap::new(), "x-request-id"), None);
}

#[test]
fn prefill_delay_scales_with_input_tokens() {
    assert_eq!(prefill(4_000, 2_000.0), Duration::from_secs(2));
}

#[test]
fn timing_boundaries_saturate_and_keep_deterministic_jitter() {
    assert_eq!(prefill(1, 0.0), Duration::ZERO);
    assert_eq!(prefill(1, f64::NAN), Duration::ZERO);
    assert_eq!(prefill(1, f64::INFINITY), Duration::ZERO);
    assert_eq!(prefill(usize::MAX, 0.5), Duration::MAX);
    assert_eq!(jitter_ms("request-a", "salt", 0), 0);
    assert!(jitter_ms("request-a", "salt", 10) <= 10);
    assert_eq!(jitter_ms("request-a", "salt", u64::MAX), 18_127_296_015_107_935_538);
}

#[test]
fn delays_add_up_over_a_response() {
    let timing = engine().timing;
    assert_eq!(timing.first_token_delay("req-1"), 7);
    assert_eq!(timing.token_delay("req-1", 3), 5);
    assert_eq!(timing.non_streaming_delay("req-1", 7, 1), 7);
    assert_eq!(timing.non_streaming_delay("req-1", 7, 4), 22);
    assert_eq!(timing.non_streaming_delay("req-1", u128::from(u64::MAX), 4), u128::from(u64::MAX) + 15);
    assert_eq!(LONGEST_DELAY, Duration::MAX.as_nanos());
    assert_eq!(timing.non_streaming_delay("req-1", LONGEST_DELAY, 4), LONGEST_DELAY);

    let jittered = MockTiming { ttft_jitter_ms: 10, ..timing };
    assert_eq!(jittered.first_token_delay("req-1"), 7 + 1_000_000 * u128::from(jitter_ms("req-1", "ttft", 10)));
    let far = MockTiming { ttft_jitter_ms: u64::MAX, decode_jitter_ms: u64::MAX, ..timing };
    let first = Duration::from_nanos(7) + Duration::from_millis(jitter_ms("req-1", "ttft", u64::MAX));
    assert!(first.as_nanos() > u128::from(u64::MAX));
    assert_eq!(far.first_token_delay("req-1"), first.as_nanos());
    let second = Duration::from_nanos(5) + Duration::from_millis(jitter_ms("req-1", "decode-1", u64::MAX));
    assert_eq!(far.non_streaming_delay("req-1", first.as_nanos(), 2), (first + second).as_nanos());
}

#[test]
fn kv_cache_hit_skips_subsequent_prefill() {
    let mut cache = KvCacheState::new(1_000);

    assert!(!completed_cache_access(&mut cache, Some("cak-a"), 100).hit);
    assert!(completed_cache_access(&mut cache, Some("cak-a"), 100).hit);
    assert_eq!(cache.stats("dummy-model").kv_cache_used_tokens, 100);
    assert_eq!(cache.stats("dummy-model").kv_cache_free_tokens, 900);
    assert_eq!(cache.stats("dummy-model").kv_cache_hit_count, 1);
    assert_eq!(cache.stats("dummy-model").kv_cache_miss_count, 1);
}

#[test]
fn kv_cache_hit_prefills_only_the_growing_prompt_suffix() {
    let mut cache = KvCacheState::new(200_000);

    let cold = completed_cache_access(&mut cache, Some("coding-session-a"), 100_000);
    assert_eq!(cold.reused_input_tokens, 0);
    assert_eq!(cold.uncached_input_tokens, 100_000);

    let follow_up = completed_cache_access(&mut cache, Some("coding-session-a"), 102_000);
    assert!(follow_up.hit);
    assert_eq!(follow_up.reused_input_tokens, 100_000);
    assert_eq!(follow_up.uncached_input_tokens, 2_000);
    assert_eq!(prefill(follow_up.uncached_input_tokens as usize, 2_000.0), Duration::from_secs(1));
    assert_eq!(cache.stats("dummy-model").kv_cache_used_tokens, 102_000);
}

#[test]
fn kv_cache_does_not_publish_an_in_flight_prefix_as_retained() {
    let mut cache = KvCacheState::new(200_000);

    let first = cache.access(Some("coding-session-a"), 100_000);
    assert!(!first.hit);

    let overlapping = cache.access(Some("coding-session-a"), 100_000);
    assert!(
        !overlapping.hit,
        "a request that has not completed modeled prefill must not warm later work"
    );
    cache.commit(Some("coding-session-a"), 100_000);
    assert!(cache.access(Some("coding-session-a"), 100_000).hit);
}

#[test]
fn kv_cache_shorter_follow_up_does_not_shrink_retained_prefix() {
    let mut cache = KvCacheState::new(200_000);

    assert!(!completed_cache_access(&mut cache, Some("coding-session-a"), 100_000).hit);
    let shorter = completed_cache_access(&mut cache, Some("coding-session-a"), 50_000);
    assert_eq!(shorter.reused_input_tokens, 50_000);

    let longer_again = cache.access(Some("coding-session-a"), 100_000);
    assert_eq!(longer_again.reused_input_tokens, 100_000);
    assert_eq!(longer_again.uncached_input_tokens, 0);
    assert_eq!(cache.stats("dummy-model").kv_cache_used_tokens, 100_000);
}

#[test]
fn kv_cache_evicts_least_recently_used_entry() {
    let mut cache = KvCacheState::new(300);

    assert!(!completed_cache_access(&mut cache, Some("cak-a"), 100).hit);
    assert!(!completed_cache_access(&mut cache, Some("cak-b"), 100).hit);
    assert!(completed_cache_access(&mut cache, Some("cak-a"), 100).hit);
    let access = completed_cache_access(&mut cache, Some("cak-c"), 150);
    assert!(!access.hit);
    assert_eq!(access.evicted_entries, 1);
    assert_eq!(access.evicted_tokens, 100);

    assert!(completed_cache_access(&mut cache, Some("cak-a"), 100).hit);
    assert!(!completed_cache_access(&mut cache, Some("cak-b"), 100).hit);
    assert_eq!(cache.stats("dummy-model").kv_cache_eviction_count, 2);
    assert_eq!(cache.stats("dummy-model").kv_cache_evicted_tokens, 250);
}

#[test]
fn requests_without_a_key_and_prompts_beyond_the_capacity_are_not_retained() {
    let mut cache = KvCacheState::new(100);
    let unkeyed = completed_cache_access(&mut cache, None, 50);
    assert!(!unkeyed.hit);
    assert_eq!(unkeyed.uncached_input_tokens, 50);
    completed_cache_access(&mut cache, Some("cak-a"), 60);
    let large = completed_cache_access(&mut cache, Some("cak-b"), 101);
    assert!(!large.hit);
    assert!(completed_cache_access(&mut cache, Some("cak-a"), 60).hit);
    assert_eq!(cache.stats("dummy-model").kv_cache_entries, 1);
}

#[test]
fn looking_up_a_prefix_keeps_what_is_retained() {
    let mut cache = KvCacheState::new(300);
    cache.commit(Some("cak-a"), 100);
    cache.commit(Some("cak-b"), 120);
    cache.access(Some("cak-a"), 40);
    cache.access(Some("cak-c"), 40);
    assert_eq!(cache.stats("dummy-model").kv_cache_used_tokens, 220);
    assert_eq!(cache.access(Some("cak-b"), 500).reused_input_tokens, 120);
    assert_eq!(cache.access(Some("cak-a"), 500).reused_input_tokens, 100);
}

#[test]
fn cache_headers_tell_what_was_reused() {
    let mut cache = KvCacheState::new(1_000);
    cache.commit(Some("cak-a"), 100);
    let access = cache.access(Some("cak-a"), 130);
    let mut headers = HeaderMap::new();
    assert!(insert_kv_cache_headers(&mut headers, access));
    assert_eq!(headers["x-kv-cache-hit"], "true");
    assert_eq!(headers["x-kv-cache-reused-input-tokens"], "100");
    assert_eq!(headers["x-kv-cache-uncached-input-tokens"], "30");
    assert_eq!(headers.len(), 3);
}

#[test]
fn stats_stream_events_are_ndjson() {
    let event = StatsStreamLine::Stats {
        v: 1,
        request_id: "req-1".to_string(),
        model: "dummy-model".to_string(),
        tokens_processed: Some(11),
        tokens_generated: Some(2),
        finished: true,
    };

    let line = ndjson_event(&event);

    assert_eq!(
        line,
        r#"{"type":"stats","v":1,"request_id":"req-1","model":"dummy-model","tokens_processed":11,"tokens_generated":2,"finished":true}"#
            .to_string()
            + "\n"
    );
}

#[test]
fn an_event_with_line_breaks_in_its_names_is_still_one_line() {
    let line = ndjson_event(&StatsStreamLine::Stats {
        v: 1,
        request_id: "req\n1".to_string(),
        model: "dummy\r\nmodel".to_string(),
        tokens_processed: None,
        tokens_generated: Some(0),
        finished: false,
    });
    assert_eq!(line.matches('\n').count(), 1);
    assert!(line.ends_with("}\n"));
    let value: Value = serde_json::from_str(&line).unwrap();
    assert_eq!(value["request_id"], "req\n1");
    assert_eq!(value["model"], "dummy\r\nmodel");
    assert_eq!(value["tokens_generated"], 0);
}

fn progress(request_id: &str, input_tokens: u64, output_tokens: u64, finished: bool) -> StatsStreamEvent {
    StatsStreamEvent {
        request_id: request_id.to_string(),
        model: "model-a".to_string(),
        input_tokens,
        output_tokens,
        finished,
    }
}

#[test]
fn load_snapshots_replace_window_counters_and_keep_live_gauges() {
    let mut accumulator = LoadAccumulator::default();
    accumulator.observe(&StatsStreamEvent {
        request_id: "req-1".to_string(),
        model: "model-a".to_string(),
        input_tokens: 10,
        output_tokens: 2,
        finished: false,
    });

    let first = accumulator.snapshot("model-a", 7);
    assert_eq!(first.models[0].requests_started, 1);
    assert_eq!(first.models[0].input_tokens, Some(10));
    assert_eq!(first.models[0].output_tokens, 2);
    assert_eq!(first.models[0].output_generation_requests, Some(1));

    let second = accumulator.snapshot("model-a", 7);
    assert_eq!(second.models[0].requests_started, 0);
    assert_eq!(second.models[0].input_tokens, Some(0));
    assert_eq!(second.models[0].output_tokens, 0);
    assert_eq!(second.models[0].output_generation_requests, Some(1));
}

#[test]
fn a_repeated_event_counts_once_and_a_finished_request_leaves() {
    let mut accumulator = LoadAccumulator::default();
    accumulator.observe(&progress("req-1", 10, 0, false));
    accumulator.observe(&progress("req-1", 10, 3, false));
    accumulator.observe(&progress("req-1", 10, 3, false));
    let running = accumulator.snapshot("model-a", 7);
    assert_eq!(running.window_ms, 1_000);
    assert_eq!(running.models.len(), 1);
    assert_eq!(running.models[0].model.model, "model-a");
    assert_eq!(running.models[0].requests_started, 1);
    assert_eq!(running.models[0].input_tokens, Some(10));
    assert_eq!(running.models[0].output_tokens, 3);
    assert_eq!(running.models[0].live_input_tokens, Some(10));

    accumulator.observe(&progress("req-1", 10, 4, true));
    let ended = accumulator.snapshot("model-a", 7);
    assert_eq!(ended.models[0].requests_completed, 1);
    assert_eq!(ended.models[0].output_tokens, 1);
    assert_eq!(ended.models[0].live_input_tokens, Some(0));
    assert_eq!(ended.models[0].output_generation_requests, Some(0));
}

#[test]
fn a_model_without_requests_is_still_reported() {
    let mut accumulator = LoadAccumulator::default();
    accumulator.observe(&progress("req-1", 10, 0, false));
    let snapshot = accumulator.snapshot("model-b", 7);
    assert_eq!(snapshot.models.len(), 2);
    assert_eq!(snapshot.models[0].pending_first_output_requests, Some(1));
    assert_eq!(snapshot.models[0].pending_first_output_input_tokens, Some(10));
    assert_eq!(snapshot.models[1].model.model, "model-b");
    assert_eq!(snapshot.models[1].requests_started, 0);
}

#[test]
fn reports_speak_of_the_only_pool() {
    let mut accumulator = LoadAccumulator::default();
    let report = accumulator.snapshot("model-a", 42);
    assert_eq!(report.metadata.observed_at_unix_ms, 42);
    assert_eq!(report.pools.len(), 1);
    assert_eq!(report.pools[0].role, WorkerRole::Aggregated);
    assert_eq!(report.pools[0].max_concurrency, Some(1));
    assert_eq!(report.models[0].serving_pools[0].cache_semantics_digest, vec![1; 16]);
    assert_eq!(report.models[0].serving_pools[0].routing_scope_digest, vec![2; 16]);
    assert_eq!(report.models[0].ready_frontends, Some(1));
    assert_eq!(report.models[0].status, DataStatus::Complete);
    assert_eq!(report.models[0].source_observed_at_unix_ms, 42);

    let mut cache = KvCacheState::new(1_000);
    cache.commit(Some("cak-a"), 100);
    let usage = usage_snapshot(&cache.stats("model-a"), 43);
    assert_eq!(usage.metadata.observed_at_unix_ms, 43);
    assert_eq!(usage.pools[0].capacity_blocks, Some(1_000));
    assert_eq!(usage.pools[0].used_blocks, Some(100));
    assert_eq!(usage.pools[0].block_size_tokens, 1);
    assert_eq!(usage.pools[0].models[0].base_model, "model-a");
}

fn all_steps(kind: StreamKind, output_tokens: usize) -> Vec<StreamAction> {
    let mut cursor = StreamCursor::new(kind, output_tokens);
    let mut actions = Vec::new();
    while let Some(action) = cursor.step() {
        actions.push(action);
    }
    actions
}

#[test]
fn a_chat_stream_sends_every_token_and_ends() {
    assert_eq!(
        all_steps(StreamKind::Chat, 2),
        vec![
            StreamAction::WaitFirst,
            StreamAction::Count { output_tokens: 0, finished: false },
            StreamAction::Role,
            StreamAction::Token { index: 0 },
            StreamAction::Count { output_tokens: 1, finished: false },
            StreamAction::WaitToken { index: 1 },
            StreamAction::Token { index: 1 },
            StreamAction::Count { output_tokens: 2, finished: false },
            StreamAction::Completed,
            StreamAction::Count { output_tokens: 2, finished: true },
            StreamAction::Done,
        ]
    );
}

#[test]
fn a_response_stream_opens_before_the_first_token_and_has_no_end_mark() {
    assert_eq!(
        all_steps(StreamKind::Responses { created_at: 5 }, 1),
        vec![
            StreamAction::Created,
            StreamAction::WaitFirst,
            StreamAction::Count { output_tokens: 0, finished: false },
            StreamAction::Token { index: 0 },
            StreamAction::Count { output_tokens: 1, finished: false },
            StreamAction::Completed,
            StreamAction::Count { output_tokens: 1, finished: true },
        ]
    );
}

#[test]
fn an_answer_is_made_of_the_words_in_turn() {
    assert_eq!(dummy_token(0), "Hello");
    assert_eq!(dummy_token(30), "Hello");
    assert_eq!(dummy_token(31), ",");
    assert_eq!(answer(9), "Hello, how can I help you today?");
    assert_eq!(answer(0), "");
    assert_eq!(chat_usage(3, 4).total_tokens, 7);
    assert_eq!(chat_failure_message("model-a"), "mock chat failure enabled for model model-a");
}

#[test]
fn a_chat_request_is_planned_from_its_headers_and_its_body() {
    let request = ChatRequest {
        stream: Some(true),
        model: Some("request-model".to_string()),
        max_tokens: Some(3),
        content_lengths: vec![10, 5],
    };
    let plan = engine().chat_completions(&HeaderMap::new(), &request, "generated-id");
    assert_eq!(plan.model, "request-model");
    assert!(plan.stream);
    assert_eq!(plan.request_id, "generated-id");
    assert_eq!(plan.cache_affinity_key, None);
    assert_eq!(plan.input_tokens, 15);
    assert_eq!(plan.output_tokens, 3);
    assert_eq!(plan.first_token_delay, 7);

    let given = headers(&[("x-request-id", "req-1"), ("x-input-tokens", "100"), ("x-cache-affinity-key", "cache-a")]);
    let plan = engine().chat_completions(
        &given,
        &ChatRequest { stream: None, model: None, max_tokens: None, content_lengths: vec![] },
        "generated-id",
    );
    assert_eq!(plan.model, "dummy-model");
    assert_eq!(plan.request_id, "req-1");
    assert_eq!(plan.cache_affinity_key, Some("cache-a".to_string()));
    assert_eq!(plan.input_tokens, 100);
    assert_eq!(plan.output_tokens, 8);
}

#[test]
fn a_response_is_only_planned_as_a_stream() {
    let refused = engine().responses(
        &HeaderMap::new(),
        &ResponsesRequest { stream: Some(false), model: None, max_output_tokens: None, input_lengths: vec![5] },
    );
    assert!(refused.unwrap_err().contains("stream=true"));

    let plan = engine()
        .responses(
            &headers(&[("x-request-id", "req-1")]),
            &ResponsesRequest { stream: Some(true), model: None, max_output_tokens: Some(2), input_lengths: vec![5] },
        )
        .unwrap();
    assert_eq!(plan.request_id, "req-1");
    assert_eq!(plan.input_tokens, 5);
    assert_eq!(plan.output_tokens, 2);
}

#[test]
fn embeddings_are_planned_from_the_shape_of_the_input() {
    let request = EmbeddingsRequest {
        input: embedding_input(r#"["alpha", "beta"]"#),
        model: Some("request-model".to_string()),
        encoding_format: Some(EmbeddingEncodingFormat::Base64),
    };
    let plan = engine().embeddings(&headers(&[("x-input-tokens", "9")]), &request, "generated-id");
    assert_eq!(plan.model, "request-model");
    assert_eq!(plan.item_count, 2);
    assert_eq!(plan.prompt_tokens, 9);
    assert_eq!(plan.encoding_format, EmbeddingEncodingFormat::Base64);
    assert_eq!(plan.request_id, "generated-id");
}

#[test]
fn counters_without_generated_tokens_count_none() {
    let event = counters_event("req-1", "model-a", 10, None, false);
    assert_eq!(event.request_id, "req-1");
    assert_eq!(event.model, "model-a");
    assert_eq!(event.input_tokens, 10);
    assert_eq!(event.output_tokens, 0);
    assert!(!event.finished);
    assert_eq!(counters_event("req-1", "model-a", 10, Some(4), true).output_tokens, 4);
}
