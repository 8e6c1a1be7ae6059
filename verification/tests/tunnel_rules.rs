//! The rules of the tunnel: which headers pass, what a request must carry,
//! how responses are classified and where a tunnel is dialled.

use bytes::{Buf, Bytes};
use http::{HeaderMap, HeaderName, HeaderValue};
use pylon::generated_request_id::GeneratedRequestIds;
use pylon::headers::{header_text, is_valid_name};
use pylon::queue_admission::QueueAdmissionDecision;
use pylon::request_observation::RequestObservationEndpoint;
use pylon::sse_stream::{event_boundary, SseBuffer};
use pylon::tunnel_backend::{
    apply_priority_headers, is_platform_metadata_header, is_stripped_engine_header, request_priority,
    translate_stats_correlation, UpstreamBackend, DEFAULT_PRIORITY_CEILING,
};
use pylon::tunnel_endpoint::{
    derive_sni, reverse_quic_dial_candidates, reverse_quic_sni, target_authority, QuicHttpTunnelConfig,
    ResolvedAddress, ReverseQuicTunnelConfig, TunnelError,
};
use pylon::tunnel_forward::TunnelServerApp;
use pylon::tunnel_headers::{
    build_response_headers, classify_response, is_hop_by_hop_header, local_connect_failure_headers,
    model_generation_unavailable_headers, problem_response_headers, queue_decision_logs_at_info,
    queue_mismatch_response_headers, retry_after_millis, should_forward_header, should_forward_response_header,
    upstream_request_headers, upstream_response_logs_at_info, FailureCount, PylonRetryConfig,
};
use pylon::tunnel_request::{
    check_stream_flag, extend_body_from_buf, health_probe_path_and_query, is_event_stream, is_health_request_path,
    is_nested_within_limit, join_base_path, next_body_len, otel_parent_from_headers, problem_details_body, quality_check_result_label,
    relay_sse_error, request_body_buffer, request_body_capacity, request_observation_endpoint,
    sse_timeout_phase_name, validate_request_body, validate_required_tunnel_headers, InvalidRequestBody,
    JoinBasePathError, QualityCheckOutcome, RequestBodyError, RequiredHeaderError, SseReadTimeoutPhase,
    UpstreamSseReadError, MAX_BODY_NESTING, MAX_SPECULATIVE_REQUEST_BODY_PREALLOC_BYTES,
};
use pylon::upstream_health::UpstreamHealthPaths;

const RETRY_CONTROL_REQUEST_HEADERS: [&str; 5] = [
    "x-stargate-upstream-retryable",
    "x-stargate-retryable",
    "x-stargate-retry-reason",
    "x-stargate-retry-after-ms",
    "x-vendor-retryable",
];

const MILLISECOND: u64 = 1_000_000;

fn headers(pairs: &[(&'static str, &'static str)]) -> HeaderMap<HeaderValue> {
    let mut headers = HeaderMap::new();
    for (name, value) in pairs {
        headers.append(*name, HeaderValue::from_static(value));
    }
    headers
}

fn assert_error_source(error: &TunnelError, expected: &str) {
    assert_eq!(error.source().expect("error should expose its source").to_string(), expected);
}

#[test]
fn reverse_tunnel_error_variants_preserve_source_chains() {
    let tls = TunnelError::Tls { source: "missing trusted cert".to_string() };
    assert_error_source(&tls, "missing trusted cert");

    let connect = TunnelError::Connect {
        context: "resolving reverse tunnel address",
        source: "DNS lookup failed".to_string(),
    };
    assert_error_source(&connect, "DNS lookup failed");

    let handshake = TunnelError::Handshake {
        context: "reading reverse tunnel auth token",
        source: "auth token command failed".to_string(),
    };
    assert_error_source(&handshake, "auth token command failed");

    assert!(
        TunnelError::ConnectTimeout { timeout_ms: 10 }.source().is_none(),
        "timeouts are typed terminal states, not wrapped sources"
    );
    assert!(
        TunnelError::HandshakeRejected { reason: "duplicate reverse tunnel".to_string() }.source().is_none(),
        "peer rejection context should not invent a source error"
    );
}

#[test]
fn direct_and_reverse_configs_share_forwarding_defaults() {
    let direct = QuicHttpTunnelConfig::new("127.0.0.1:0".to_string(), "http://upstream.local".to_string());
    let reverse = ReverseQuicTunnelConfig::new(
        "router.local:443".to_string(),
        "backend-1".to_string(),
        "http://upstream.local".to_string(),
    );

    assert_eq!(direct.upstream_http_base_url, reverse.upstream_http_base_url);
    assert_eq!(direct.forwarding.max_request_body_bytes, reverse.forwarding.max_request_body_bytes);
    assert_eq!(direct.forwarding.max_sse_buffer_bytes, reverse.forwarding.max_sse_buffer_bytes);
    assert_eq!(direct.forwarding.first_output_timeout, reverse.forwarding.first_output_timeout);
    assert_eq!(direct.forwarding.output_chunk_timeout, reverse.forwarding.output_chunk_timeout);
    assert!(!direct.forwarding.metrics_enabled);
    assert!(!reverse.forwarding.metrics_enabled);
}

#[test]
fn reverse_tunnel_app_from_config_preserves_forwarding_settings() {
    let mut config = ReverseQuicTunnelConfig::new(
        "router.local:443".to_string(),
        "backend-1".to_string(),
        "http://upstream.local".to_string(),
    );
    config.forwarding.max_request_body_bytes = 1234;
    config.forwarding.max_sse_buffer_bytes = 321;
    config.forwarding.first_output_timeout = 55 * MILLISECOND;
    config.forwarding.output_chunk_timeout = 77 * MILLISECOND;
    config.forwarding.retry.local_connect_failures_retryable = true;
    config.forwarding.queue_mismatch_retry.enabled = false;
    config.forwarding.metrics_enabled = true;

    let app = TunnelServerApp::from_reverse_config(config);

    assert_eq!(app.inference_server_id, "backend-1");
    assert_eq!(app.upstream_http_base_url, "http://upstream.local");
    assert_eq!(app.max_request_body_bytes, 1234);
    assert_eq!(app.max_sse_buffer_bytes, 321);
    assert_eq!(app.first_output_timeout, 55 * MILLISECOND);
    assert_eq!(app.output_chunk_timeout, 77 * MILLISECOND);
    assert!(app.retry.local_connect_failures_retryable);
    assert!(!app.queue_mismatch_retry.enabled);
    assert!(app.metrics_enabled);
}

#[test]
fn pylon_request_header_filter_strips_tunnel_headers_case_insensitively() {
    let retry = PylonRetryConfig {
        upstream_retry_header: HeaderName::from_static("x-vendor-retryable"),
        ..PylonRetryConfig::default()
    };
    for name in [
        "Connection",
        "Proxy-Connection",
        "Host",
        "X-Method",
        "X-Path",
        "X-Stargate-Expected-Queue-Ms",
        "X-Dynamo-Request-Priority",
        "X-Dynamo-Request-Strict-Priority",
    ]
    .into_iter()
    .chain(RETRY_CONTROL_REQUEST_HEADERS)
    {
        assert!(!should_forward_header(name, &retry, UpstreamBackend::Passthrough));
    }
    for name in ["Request-Id", "X-Dynamo-Request-Id", "X-Model", "X-Routing-Key", "X-Priority"] {
        assert!(should_forward_header(name, &retry, UpstreamBackend::Passthrough));
        assert!(!should_forward_header(name, &retry, UpstreamBackend::Dynamo));
    }
    assert!(should_forward_header("X-Request-Id", &retry, UpstreamBackend::Dynamo));
}

#[test]
fn pylon_dynamo_request_priority_inverts_within_bounded_ceiling() {
    let ceiling = DEFAULT_PRIORITY_CEILING;
    assert_eq!(request_priority(Some(0), ceiling), ceiling as i32);
    assert_eq!(request_priority(Some(7), ceiling), (ceiling - 7) as i32);
    assert_eq!(request_priority(None, ceiling), 0);
    assert_eq!(request_priority(Some(ceiling), ceiling), 0);
    assert_eq!(request_priority(Some(u32::MAX), ceiling), 0);
    assert_eq!(request_priority(Some(0), u32::MAX), i32::MAX);
    assert_eq!(request_priority(None, u32::MAX), 0);
    assert_eq!(request_priority(Some(0), 0), 0);
    assert_eq!(request_priority(None, 0), 0);
}

#[test]
fn a_more_urgent_rank_never_gets_a_lower_engine_priority() {
    let ranks = [0, 1, 7, 3599, 3600, 3601, u32::MAX];
    for pair in ranks.windows(2) {
        let (urgent, late) = (request_priority(Some(pair[0]), 3600), request_priority(Some(pair[1]), 3600));
        assert!(urgent >= late);
    }
    assert!(request_priority(Some(1), 3600) > request_priority(Some(2), 3600));
}

#[test]
fn pylon_dynamo_priority_headers_are_always_emitted() {
    let mut headers = HeaderMap::new();
    let emitted = apply_priority_headers(Some(7), DEFAULT_PRIORITY_CEILING, &mut headers).unwrap();
    assert_eq!(emitted, (DEFAULT_PRIORITY_CEILING - 7) as i32);
    assert_eq!(headers["x-dynamo-request-priority"], emitted.to_string().as_str());
    assert_eq!(headers["x-dynamo-request-strict-priority"], "0");

    let mut headers = HeaderMap::new();
    let emitted = apply_priority_headers(None, DEFAULT_PRIORITY_CEILING, &mut headers).unwrap();
    assert_eq!(emitted, 0);
    assert_eq!(headers["x-dynamo-request-priority"], "0");
    assert_eq!(headers["x-dynamo-request-strict-priority"], "0");
}

#[test]
fn pylon_consumes_platform_metadata_instead_of_forwarding_it_to_dynamo() {
    for name in ["request-id", "x-dynamo-request-id", "x-model", "x-routing-key", "x-priority"] {
        assert!(is_platform_metadata_header(name));
    }
    for name in ["x-request-id", "x-input-tokens"] {
        assert!(!is_platform_metadata_header(name));
    }
}

#[test]
fn pylon_otel_parent_attribute_uses_traceparent_header() {
    let headers = headers(&[("traceparent", "00-4bf92f3577b34da6a3ce929d0e0e4736-00f067aa0ba902b7-01")]);

    assert_eq!(
        otel_parent_from_headers(&headers).as_deref(),
        Some("00-4bf92f3577b34da6a3ce929d0e0e4736-00f067aa0ba902b7-01")
    );
    assert_eq!(otel_parent_from_headers(&HeaderMap::new()), None);
}

#[test]
fn pylon_response_header_filter_strips_internal_headers_case_insensitively() {
    let retry = PylonRetryConfig::default();

    for name in ["Connection", "X-Stargate-Retryable"] {
        assert!(!should_forward_response_header(name, &retry));
    }
    assert!(should_forward_response_header("X-Kv-Cache-Hit", &retry));
}

fn headers_with_content_length(value: &'static str) -> HeaderMap<HeaderValue> {
    headers(&[("content-length", value)])
}

#[test]
fn request_body_buffer_uses_valid_declared_content_length() {
    let headers = headers_with_content_length("4096");

    let body = request_body_buffer(&headers, 8192).unwrap();

    assert_eq!(body.len(), 0);
    assert!(body.capacity() >= 4096);
}

#[test]
fn request_body_buffer_caps_large_valid_declared_content_length() {
    let headers = headers_with_content_length("1048576");

    let capacity = request_body_capacity(&headers, 2 * 1024 * 1024).unwrap();

    assert_eq!(capacity, Some(MAX_SPECULATIVE_REQUEST_BODY_PREALLOC_BYTES));
}

#[test]
fn request_body_buffer_rejects_declared_length_above_limit() {
    let headers = headers_with_content_length("4097");

    let Err(error) = request_body_buffer(&headers, 4096) else {
        panic!("oversized content-length should fail");
    };

    assert!(error.message().contains("request body too large"));
}

#[test]
fn request_body_buffer_ignores_invalid_content_length() {
    let headers = headers_with_content_length("not-a-number");

    let body = request_body_buffer(&headers, 4096).unwrap();

    assert_eq!(body.len(), 0);
    assert_eq!(body.capacity(), 0);
}

#[test]
fn extend_body_from_buf_copies_and_consumes_buffer() {
    let mut body = Vec::with_capacity(5);
    let mut chunk = Bytes::from_static(b"hello");

    extend_body_from_buf(&mut body, &mut chunk);

    assert_eq!(body, b"hello");
    assert!(!chunk.has_remaining());
}

#[test]
fn a_body_grows_up_to_its_limit() {
    let mut body = b"ab".to_vec();
    let mut chunk = Bytes::from_static(b"cde");
    assert_eq!(next_body_len(body.len(), chunk.len(), 5), Ok(5));
    extend_body_from_buf(&mut body, &mut chunk);
    assert_eq!(body, b"abcde");
    assert_eq!(next_body_len(body.len(), 1, 5), Err(RequestBodyError::TooLarge));
    assert_eq!(next_body_len(usize::MAX, 1, 5), Err(RequestBodyError::LengthOverflowed));
}

#[test]
fn health_probe_path_keeps_the_query_string() {
    let mut health_paths = UpstreamHealthPaths::default();
    health_paths.mark_resolved(1);

    assert_eq!(health_probe_path_and_query(&health_paths, "/health?probe=1"), "/v1/health/ready?probe=1");
    assert_eq!(health_probe_path_and_query(&health_paths, "/health"), "/v1/health/ready");
}

#[test]
fn health_request_path_accepts_query_string() {
    assert!(is_health_request_path("/health"));
    assert!(is_health_request_path("/health?probe=1"));
    assert!(!is_health_request_path("/healthz"));
}

#[test]
fn derive_sni_extracts_hostname() {
    assert_eq!(derive_sni("pod-a.stargate.external:50072"), "pod-a.stargate.external");
}

#[test]
fn derive_sni_falls_back_for_ip() {
    assert_eq!(derive_sni("10.0.0.1:50072"), "stargate");
}

#[test]
fn derive_sni_falls_back_for_localhost() {
    assert_eq!(derive_sni("localhost:50072"), "stargate");
}

#[test]
fn derive_sni_falls_back_for_ipv6() {
    assert_eq!(derive_sni("::1:50072"), "stargate");
}

#[test]
fn derive_sni_falls_back_for_bracketed_ipv6() {
    assert_eq!(derive_sni("[::1]:50072"), "stargate");
}

#[test]
fn derive_sni_handles_bare_hostname() {
    assert_eq!(derive_sni("pod-a.stargate.external"), "pod-a.stargate.external");
}

#[test]
fn target_authority_preserves_advertised_hostname() {
    assert_eq!(target_authority("pod-a.stargate.external:50072"), "pod-a.stargate.external:50072");
}

#[test]
fn target_authority_brackets_ipv6_address() {
    assert_eq!(target_authority("::1:50072"), "[::1]:50072");
}

#[test]
fn reverse_quic_sni_prefers_override_and_derives_default() {
    let mut config = ReverseQuicTunnelConfig::new(
        "stargate-quic-lb.stargate.svc.cluster.local:50072".to_string(),
        "backend-a".to_string(),
        "http://127.0.0.1:8000".to_string(),
    );
    assert_eq!(reverse_quic_sni(&config), "stargate-quic-lb.stargate.svc.cluster.local");

    config.sni_override = Some("stargate-0.stargate-headless.stargate.svc.cluster.local".to_string());
    assert_eq!(reverse_quic_sni(&config), "stargate-0.stargate-headless.stargate.svc.cluster.local");
}

fn ipv4(address: u32) -> ResolvedAddress {
    ResolvedAddress::V4 { address, port: 50072 }
}

fn ipv6(long_address: u128) -> ResolvedAddress {
    ResolvedAddress::V6 { long_address, port: 50072, flowinfo: 0, scope_id: 0 }
}

#[test]
fn reverse_quic_dial_candidates_preserve_every_resolved_address() {
    let ipv6_addr = ipv6(0xfd00_0000_0000_0000_0000_0000_0000_0001);
    let ipv4_addr = ipv4(0x0a00_0004);

    let candidates = reverse_quic_dial_candidates(&[ipv6_addr, ipv4_addr]).unwrap();

    assert_eq!(candidates, vec![ipv4_addr, ipv6_addr]);
}

#[test]
fn reverse_quic_resolved_target_keeps_ipv6_when_it_is_the_only_candidate() {
    let ipv6_addr = ipv6(0xfd00_0000_0000_0000_0000_0000_0000_0001);

    let candidates = reverse_quic_dial_candidates(&[ipv6_addr]).unwrap();

    assert_eq!(candidates, vec![ipv6_addr]);
}

#[test]
fn reverse_quic_resolved_target_rejects_empty_resolution() {
    assert!(matches!(reverse_quic_dial_candidates(&[]), Err(TunnelError::NoResolvedAddress)));
}

#[test]
fn every_resolved_address_is_tried_in_a_stable_order() {
    let resolved = [ipv6(2), ipv4(9), ipv6(1), ipv4(3), ipv4(9)];
    let candidates = reverse_quic_dial_candidates(&resolved).unwrap();
    assert_eq!(candidates, vec![ipv4(9), ipv4(3), ipv4(9), ipv6(2), ipv6(1)]);
}

#[test]
fn operational_log_levels_reserve_info_for_rejections_and_failures() {
    for decision in [
        QueueAdmissionDecision::Accepted { expected_ms: 1, actual_ms: 1, threshold_ms: 1 },
        QueueAdmissionDecision::MissingEstimate,
        QueueAdmissionDecision::UnknownLocalEstimate { expected_ms: 1 },
        QueueAdmissionDecision::Disabled,
    ] {
        assert!(!queue_decision_logs_at_info(&decision));
    }
    assert!(queue_decision_logs_at_info(&QueueAdmissionDecision::Rejected {
        expected_ms: 1,
        actual_ms: 2,
        threshold_ms: 1,
        retry_after_ms: None,
    }));

    assert!(!upstream_response_logs_at_info(200, false));
    assert!(upstream_response_logs_at_info(429, true));
    assert!(upstream_response_logs_at_info(500, false));
}

#[test]
fn backends_are_named_in_any_case() {
    assert_eq!(UpstreamBackend::default(), UpstreamBackend::Dynamo);
    assert_eq!(UpstreamBackend::from_name(" Passthrough ").unwrap(), UpstreamBackend::Passthrough);
    assert_eq!(UpstreamBackend::from_name("DYNAMO").unwrap(), UpstreamBackend::Dynamo);
    assert_eq!(UpstreamBackend::from_name("Vllm").unwrap_err().name, "vllm");
    assert_eq!(UpstreamBackend::Passthrough.name(), "passthrough");
}

#[test]
fn engine_headers_of_a_caller_are_replaced() {
    let given = headers(&[
        ("x-dynamo-request-priority", "9999"),
        ("x-dynamo-stats-correlation-id", "forged"),
        ("x-request-id", "req-1"),
        ("x-model", "model-a"),
        ("x-tag", "one"),
        ("x-tag", "two"),
        ("connection", "keep-alive"),
    ]);
    let retry = PylonRetryConfig::default();
    let (upstream, priority) =
        upstream_request_headers(&given, &retry, UpstreamBackend::Dynamo, Some(100), 3600, false).unwrap();
    assert_eq!(priority, Some(3500));
    assert_eq!(upstream.get_all("x-dynamo-request-priority").iter().count(), 1);
    assert_eq!(upstream["x-dynamo-request-priority"], "3500");
    assert_eq!(upstream["x-dynamo-request-strict-priority"], "0");
    assert_eq!(upstream["x-request-id"], "req-1");
    assert!(!upstream.contains_key("x-dynamo-stats-correlation-id"));
    assert!(!upstream.contains_key("x-model"));
    assert!(!upstream.contains_key("connection"));
    let tags: Vec<_> = upstream.get_all("x-tag").iter().collect();
    assert_eq!(tags, ["one", "two"]);

    let (health, priority) =
        upstream_request_headers(&given, &retry, UpstreamBackend::Dynamo, Some(100), 3600, true).unwrap();
    assert_eq!(priority, None);
    assert!(!health.contains_key("x-dynamo-request-priority"));

    let (plain, priority) =
        upstream_request_headers(&given, &retry, UpstreamBackend::Passthrough, Some(100), 3600, false).unwrap();
    assert_eq!(priority, None);
    assert!(!plain.contains_key("x-dynamo-request-priority"));
    assert_eq!(plain["x-model"], "model-a");
    assert!(is_stripped_engine_header("X-Dynamo-Stats-Correlation-Id"));
    assert!(is_hop_by_hop_header("Keep-Alive"));
}

#[test]
fn a_correlation_replaces_the_platform_identity() {
    let mut upstream = headers(&[("x-request-id", "req-1"), ("x-model", "model-a"), ("x-routing-key", "key"), ("a", "b")]);
    let first = translate_stats_correlation(&mut upstream).unwrap();
    assert_eq!(first.len(), 36);
    for (place, c) in first.chars().enumerate() {
        match place {
            8 | 13 | 18 | 23 => assert_eq!(c, '-'),
            14 => assert_eq!(c, '4'),
            19 => assert!("89ab".contains(c)),
            _ => assert!("0123456789abcdef".contains(c)),
        }
    }
    assert!(GeneratedRequestIds::with_scope(&first).is_some());
    assert_eq!(upstream["x-dynamo-stats-correlation-id"], first.as_str());
    assert_eq!(upstream["a"], "b");
    assert_eq!(upstream.len(), 2);
    let second = translate_stats_correlation(&mut upstream).unwrap();
    assert_ne!(first, second);
    assert_eq!(upstream["x-dynamo-stats-correlation-id"], second.as_str());
}

#[test]
fn a_retryable_rejection_is_marked_and_spoofed_marks_are_dropped() {
    let retry = PylonRetryConfig::default();
    let rejected = headers(&[
        ("x-stargate-upstream-retryable", "true"),
        ("retry-after", "2"),
        ("x-stargate-retry-reason", "forged"),
        ("content-type", "application/json"),
    ]);
    let (head, class) = build_response_headers(429, &rejected, &retry, 0).unwrap();
    assert!(class.retryable);
    assert!(class.logs_at_info);
    assert_eq!(class.failure, Some(FailureCount { retryable: true, status: 429 }));
    assert_eq!(head["x-stargate-retryable"], "true");
    assert_eq!(head["x-stargate-retry-reason"], "upstream_admission_rejected");
    assert_eq!(head["x-stargate-retry-after-ms"], "2000");
    assert_eq!(head["content-type"], "application/json");
    assert!(!head.contains_key("x-stargate-upstream-retryable"));

    let spoofed = headers(&[("x-stargate-retryable", "true"), ("x-stargate-retry-after-ms", "7")]);
    let (head, class) = build_response_headers(429, &spoofed, &retry, 0).unwrap();
    assert!(!class.retryable);
    assert!(!head.contains_key("x-stargate-retryable") || head["x-stargate-retryable"] == "false");
    assert!(!head.contains_key("x-stargate-retry-after-ms"));

    assert!(classify_response(200, &HeaderMap::new(), &retry).failure.is_none());
}

#[test]
fn a_wait_is_read_in_seconds_or_as_a_date() {
    assert_eq!(retry_after_millis(&headers(&[("retry-after", "3")]), 0), Some(3_000));
    assert_eq!(retry_after_millis(&headers(&[("retry-after", "soon")]), 0), None);
    assert_eq!(retry_after_millis(&HeaderMap::new(), 0), None);
    // 1994-11-06 08:49:37 is 784111777 seconds after the epoch.
    let date = headers(&[("retry-after", "Sun, 06 Nov 1994 08:49:37 GMT")]);
    assert_eq!(retry_after_millis(&date, 784_111_775_000_000_000), Some(2_000));
    assert_eq!(retry_after_millis(&date, 784_111_777_000_000_000 + 5), Some(0));
}

#[test]
fn a_pylon_marks_its_own_refusals() {
    let mismatch = queue_mismatch_response_headers(&QueueAdmissionDecision::Rejected {
        expected_ms: 1,
        actual_ms: 20,
        threshold_ms: 5,
        retry_after_ms: Some(40),
    });
    assert_eq!(mismatch["x-stargate-retryable"], "true");
    assert_eq!(mismatch["x-stargate-retry-reason"], "queue_estimate_mismatch");
    assert_eq!(mismatch["x-stargate-retry-after-ms"], "40");
    assert_eq!(problem_response_headers()["content-type"], "application/problem+json");
    assert_eq!(local_connect_failure_headers(true)["x-stargate-retry-reason"], "local_connect_failure");
    assert_eq!(local_connect_failure_headers(true)["x-stargate-retryable"], "true");
    assert_eq!(local_connect_failure_headers(false)["x-stargate-retryable"], "false");
    assert_eq!(local_connect_failure_headers(false)["x-stargate-retry-reason"], "local_connect_failure");
    assert_eq!(
        model_generation_unavailable_headers()["x-stargate-retry-reason"],
        "model_generation_unavailable"
    );
}

#[test]
fn only_posts_to_the_inference_paths_are_observed() {
    assert_eq!(
        request_observation_endpoint("POST", "/v1/chat/completions?x=1"),
        Some(RequestObservationEndpoint::ChatCompletions)
    );
    assert_eq!(request_observation_endpoint("POST", "/v1/responses"), Some(RequestObservationEndpoint::Responses));
    assert_eq!(request_observation_endpoint("POST", "/v1/embeddings"), Some(RequestObservationEndpoint::Embeddings));
    assert_eq!(request_observation_endpoint("GET", "/v1/responses"), None);
    assert_eq!(request_observation_endpoint("POST", "/v1/models"), None);
}

#[test]
fn generation_requests_must_stream() {
    let chat = Some(RequestObservationEndpoint::ChatCompletions);
    assert_eq!(validate_request_body(chat, br#"{"a":[1,2],"stream":true}"#), Ok(()));
    assert_eq!(
        validate_request_body(chat, br#"{"stream":false}"#),
        Err(InvalidRequestBody::ChatCompletionsMustStream)
    );
    assert_eq!(validate_request_body(chat, b"{}"), Err(InvalidRequestBody::ChatCompletionsMustStream));
    assert_eq!(
        validate_request_body(Some(RequestObservationEndpoint::Responses), br#"{"stream":1}"#),
        Err(InvalidRequestBody::ResponsesMustStream)
    );
    assert_eq!(
        validate_request_body(Some(RequestObservationEndpoint::Embeddings), br#"{"input":"a"}"#),
        Ok(())
    );
    assert_eq!(validate_request_body(None, b"{}"), Ok(()));
    assert_eq!(validate_request_body(None, b"not json"), Err(InvalidRequestBody::NotJson));
    assert_eq!(check_stream_flag(chat, Some(Some(true))), Ok(()));
    assert_eq!(check_stream_flag(chat, None), Err(InvalidRequestBody::NotJson));
}

#[test]
fn requests_are_sent_below_the_base_address() {
    assert_eq!(
        join_base_path("http://upstream.local:8000", "/v1/chat/completions?x=1").unwrap(),
        "http://upstream.local:8000/v1/chat/completions?x=1"
    );
    assert_eq!(join_base_path("http://upstream.local", "health").unwrap(), "http://upstream.local/health");
    assert_eq!(join_base_path("not a url", "/health"), Err(JoinBasePathError::InvalidBase));
}

#[test]
fn a_request_must_name_itself_its_model_and_its_size() {
    let whole = headers(&[
        ("x-request-id", "req-1"),
        ("x-model", "model-a"),
        ("x-input-tokens", "12"),
        ("x-priority", "3"),
        ("x-routing-key", "key"),
    ]);
    let required = validate_required_tunnel_headers(&whole, 5).unwrap();
    assert_eq!(required.request_id, "req-1");
    assert_eq!(required.model_id, "model-a");
    assert_eq!(required.input_tokens, 12);
    assert_eq!(required.priority, Some(3));
    assert_eq!(required.routing_key, Some("key".to_string()));
    assert_eq!(required.accepted_at, 5);

    for (absent, error) in [
        ("x-request-id", RequiredHeaderError::MissingRequestId),
        ("x-model", RequiredHeaderError::MissingModel),
        ("x-input-tokens", RequiredHeaderError::MissingInputTokens),
    ] {
        let mut partial = whole.clone();
        partial.remove(absent);
        let found = validate_required_tunnel_headers(&partial, 5).unwrap_err();
        assert_eq!(found, error);
        assert!(found.message().contains(absent));
    }
    let mut odd = whole.clone();
    odd.insert("x-input-tokens", HeaderValue::from_static("many"));
    assert_eq!(validate_required_tunnel_headers(&odd, 5).unwrap_err(), RequiredHeaderError::InvalidInputTokens);
}

#[test]
fn problems_are_titled_by_their_status() {
    for (status, title) in [
        (400, "Bad Request"),
        (413, "Payload Too Large"),
        (502, "Bad Gateway"),
        (503, "Service Unavailable"),
        (599, "Error"),
    ] {
        let problem = problem_details_body(status, "the upstream is down");
        assert_eq!(problem.problem_type, "about:blank");
        assert_eq!(problem.title, title);
        assert_eq!(problem.status, status);
        assert_eq!(problem.detail, "the upstream is down");
    }
}

#[test]
fn a_name_that_only_http2_knows_passes_both_ways() {
    let quoted = HeaderName::from_lowercase(b"x-\"quoted\"").unwrap();
    let mut given = HeaderMap::new();
    given.append(quoted.clone(), HeaderValue::from_static("first"));
    given.append(quoted.clone(), HeaderValue::from_static("second"));
    given.append("connection", HeaderValue::from_static("close"));
    let retry = PylonRetryConfig::default();
    let (upstream, _) =
        upstream_request_headers(&given, &retry, UpstreamBackend::Passthrough, None, DEFAULT_PRIORITY_CEILING, false)
            .unwrap();
    let values: Vec<&HeaderValue> = upstream.get_all(&quoted).iter().collect();
    assert_eq!(values, ["first", "second"]);
    assert_eq!(upstream.len(), 2);
    let (head, _) = build_response_headers(200, &given, &retry, 0).unwrap();
    assert_eq!(head[&quoted], "first");
    assert_eq!(head.len(), 2);

    let marking =
        PylonRetryConfig { upstream_retry_header: quoted.clone(), ..PylonRetryConfig::default() };
    let mut marked = HeaderMap::new();
    marked.append(quoted.clone(), HeaderValue::from_static("True"));
    assert!(classify_response(503, &marked, &marking).retryable);
    let (head, _) = build_response_headers(503, &marked, &marking, 0).unwrap();
    assert!(!head.contains_key(&quoted));
    assert!(!classify_response(503, &given, &marking).retryable);
}

#[test]
fn a_text_is_a_header_name_only_without_quotes_and_spaces() {
    assert!(is_valid_name("X-Request-Id"));
    assert!(is_valid_name("!#$%&'*+-.^_`|~09"));
    for text in ["", "a\"b", "a b", "a:b", "na\u{ef}ve"] {
        assert!(!is_valid_name(text));
        assert_eq!(header_text(&headers(&[("a", "1")]), text), None);
    }
    assert_eq!(header_text(&headers(&[("a", "1"), ("a", "2")]), "A"), Some("1".to_string()));
}

fn nested(depth: usize) -> Vec<u8> {
    let mut body = br#"{"stream":true,"a":"#.to_vec();
    body.extend(std::iter::repeat(b'[').take(depth - 1));
    body.extend(std::iter::repeat(b']').take(depth - 1));
    body.push(b'}');
    body
}

#[test]
fn a_body_is_read_as_deep_as_can_be() {
    let chat = Some(RequestObservationEndpoint::ChatCompletions);
    assert_eq!(validate_request_body(chat, &nested(MAX_BODY_NESTING)), Ok(()));
    assert!(is_nested_within_limit(&nested(MAX_BODY_NESTING)));
    assert!(!is_nested_within_limit(&nested(MAX_BODY_NESTING + 1)));
    assert!(!is_nested_within_limit(&vec![b'['; 100_000]));

    let mut quoted = br#"{"stream":true,"a":"\"\\"#.to_vec();
    quoted.extend(std::iter::repeat(b'[').take(MAX_BODY_NESTING + 1));
    quoted.extend(br#""}"#);
    assert_eq!(validate_request_body(chat, &quoted), Ok(()));
    let mut followed = br#"{"stream":true}"#.to_vec();
    followed.extend(std::iter::repeat(b'[').take(MAX_BODY_NESTING + 1));
    assert!(is_nested_within_limit(&followed));
    assert_eq!(validate_request_body(chat, &followed), Ok(()));
    for start in ["1 ", "\"a\" ", "not json ", "]"] {
        let mut other = start.as_bytes().to_vec();
        other.extend(std::iter::repeat(b'[').take(MAX_BODY_NESTING + 1));
        assert!(is_nested_within_limit(&other));
    }
}

#[test]
fn stream_faults_are_told_in_words() {
    assert_ne!(
        sse_timeout_phase_name(SseReadTimeoutPhase::FirstOutput),
        sse_timeout_phase_name(SseReadTimeoutPhase::SubsequentOutput)
    );
    let limit = UpstreamSseReadError::BufferLimitExceeded { max_buffer_bytes: 16, buffered_bytes: 17 };
    assert_eq!(
        relay_sse_error(&limit),
        "upstream SSE buffer exceeded 16 bytes while waiting for an event boundary (buffered 17 bytes)"
    );
    assert_eq!(
        relay_sse_error(&UpstreamSseReadError::Upstream("reset".to_string())),
        "failed to read upstream response message"
    );
    for (evaluated, threshold_matched, label) in
        [(false, true, "skipped"), (true, true, "matched"), (true, false, "clean")]
    {
        assert_eq!(quality_check_result_label(QualityCheckOutcome { evaluated, threshold_matched }), label);
    }
    assert!(is_event_stream(&headers(&[("content-type", "text/event-stream; charset=utf-8")])));
    assert!(!is_event_stream(&headers(&[("content-type", "application/json")])));
}

#[test]
fn a_stream_is_parted_into_its_events_and_nothing_is_lost() {
    assert_eq!(event_boundary(b"data: 1\n\ndata: 2"), Some(9));
    assert_eq!(event_boundary(b"data: 1\r\n\r\ndata: 2"), Some(11));
    assert_eq!(event_boundary(b"data: 1\ndata: 2\n"), None);
    assert_eq!(event_boundary(b""), None);

    let mut buffer = SseBuffer::new(20);
    buffer.extend(&mut Bytes::from_static(b"data: 1\n"));
    assert!(matches!(buffer.next_event(), Ok(None)));
    buffer.extend(&mut Bytes::from_static(b"\nid: 7\ndata: 2\n\nda"));
    assert!(matches!(buffer.next_event(), Ok(Some(event)) if event == b"data: 1\n\n"));
    assert!(matches!(buffer.next_event(), Ok(Some(event)) if event == b"id: 7\ndata: 2\n\n"));
    assert!(matches!(buffer.next_event(), Ok(None)));
    assert_eq!(buffer.remainder(), b"da");
}

#[test]
fn an_event_that_never_ends_is_refused() {
    let mut buffer = SseBuffer::new(4);
    buffer.extend(&mut Bytes::from_static(b"data"));
    assert!(matches!(buffer.next_event(), Ok(None)));
    buffer.extend(&mut Bytes::from_static(b":"));
    assert!(matches!(
        buffer.next_event(),
        Err(UpstreamSseReadError::BufferLimitExceeded { max_buffer_bytes: 4, buffered_bytes: 5 })
    ));

    let mut whole = SseBuffer::new(8);
    whole.extend(&mut Bytes::from_static(b"data: 1\n\n"));
    assert!(matches!(
        whole.next_event(),
        Err(UpstreamSseReadError::BufferLimitExceeded { max_buffer_bytes: 8, buffered_bytes: 9 })
    ));
}
