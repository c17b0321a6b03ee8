use codex_plus_core::framing::{preflight_head, reply_head, stream_head};
use codex_plus_core::helper::{
    answer_locally, answer_request, brief_body, connected_body, diagnostic_detail,
    diagnostic_event_name, diagnostic_event_of, frame_reply,
    helper_bind_host, logs_record, overlay_image_response, read_diagnostic, route_request,
    sanitize_diagnostic_event, unreadable_diagnostic, wants_overlay_image, OverlayImage,
    ProxyPaths, Route,
};
use codex_plus_core::http::{
    content_length_from_headers, find_header_end, header_value_from_request, http_request_body,
    parse_helper_request, read_helper_request, ReadStep, RequestReader, MAX_REQUEST_BYTES,
};
use codex_plus_core::json::json_body;
use codex_plus_core::overlay::{
    image_type_for_name, overlay_image_content_type, overlay_image_path, overlay_source,
    overlay_source_at,
};
use codex_plus_core::proxy::{
    answer_unreachable, forward, is_preflight, is_streamed, plan_proxy_reply, proxied_service, request_json,
    service_preflight_head, upstream_json, BodyHandling, ProxyService, StreamEvent, StreamStep,
    UpstreamHead, UpstreamWireApi,
};
use codex_plus_core::settings::{BackendSettings, RelayMode, RelayProfile};

const NO_PROXY: ProxyPaths = ProxyPaths {
    responses: false,
    chat_completions: false,
    models: false,
};

fn text(bytes: &[u8]) -> String {
    String::from_utf8(bytes.to_vec()).unwrap()
}

#[test]
fn overlay_image_content_type_accepts_common_images_only() {
    assert_eq!(overlay_image_content_type("overlay.PNG"), Some("image/png"));
    assert_eq!(
        overlay_image_content_type("overlay.jpeg"),
        Some("image/jpeg")
    );
    assert_eq!(
        overlay_image_content_type("overlay.webp"),
        Some("image/webp")
    );
    assert_eq!(overlay_image_content_type("overlay.txt"), None);
}

#[test]
fn header_value_from_request_reads_user_agent_case_insensitively() {
    let request = "POST /v1/chat/completions HTTP/1.1\r\nHost: 127.0.0.1\r\nUser-Agent: Codex/26.614\r\nContent-Length: 2\r\n\r\n{}";

    assert_eq!(
        header_value_from_request(request, "user-agent").as_deref(),
        Some("Codex/26.614")
    );
}

#[test]
fn other_images_have_their_types() {
    assert_eq!(overlay_image_content_type("/a/b.jpg"), Some("image/jpeg"));
    assert_eq!(overlay_image_content_type("/a/b.GIF"), Some("image/gif"));
    assert_eq!(overlay_image_content_type("b.bmp"), Some("image/bmp"));
    assert_eq!(overlay_image_content_type(".png"), None);
    assert_eq!(overlay_image_content_type("/a.png/b"), None);
    assert_eq!(overlay_image_content_type("/a/.."), None);
}

#[test]
fn images_are_known_by_windows_paths_too() {
    assert_eq!(
        overlay_image_content_type("C:\\Users\\x\\pic.JPG"),
        Some("image/jpeg")
    );
    assert_eq!(overlay_image_content_type("C:\\Users\\x\\notes.txt"), None);
    assert_eq!(overlay_image_content_type("C:\\Users.png\\x"), None);
    assert_eq!(overlay_image_content_type("\\\\server\\share\\png"), None);
    assert_eq!(overlay_image_content_type("/a/b: c.gif"), Some("image/gif"));
    assert_eq!(image_type_for_name(Some("x.bmp")), Some("image/bmp"));
    assert_eq!(image_type_for_name(Some("bmp")), None);
    assert_eq!(image_type_for_name(None), None);
}

#[test]
fn headers_end_at_the_first_blank_line() {
    assert_eq!(find_header_end(b"GET / HTTP/1.1\r\n\r\nbody\r\n\r\n"), Some(14));
    assert_eq!(find_header_end(b"GET / HTTP/1.1\r\n"), None);
    assert_eq!(find_header_end(b""), None);
}

#[test]
fn content_length_is_read_from_the_first_readable_header() {
    assert_eq!(
        content_length_from_headers(b"GET / HTTP/1.1\r\ncontent-LENGTH :  12 \r\nA: b"),
        Some(12)
    );
    assert_eq!(
        content_length_from_headers(b"Content-Length: x\r\nContent-Length: +7"),
        Some(7)
    );
    assert_eq!(content_length_from_headers(b"GET / HTTP/1.1\r\nA: b"), None);
    assert_eq!(content_length_from_headers(b"Content-Length: -1"), None);
    assert_eq!(
        content_length_from_headers(b"Content-Length: 99999999999999999999999"),
        None
    );
    assert_eq!(content_length_from_headers(b"\xff\r\nContent-Length: 3"), Some(3));
}

#[test]
fn body_stands_behind_the_blank_line() {
    assert_eq!(http_request_body("A: b\r\n\r\nx\r\n\r\ny"), "x\r\n\r\ny");
    assert_eq!(http_request_body("A: b\r\n"), "");
}

#[test]
fn header_values_are_trimmed_and_not_empty() {
    assert_eq!(
        header_value_from_request("GET /\r\nx-y:  a: b \r\n", "X-Y").as_deref(),
        Some("a: b")
    );
    assert_eq!(header_value_from_request("x: first line", "x"), None);
    assert_eq!(header_value_from_request("GET /\r\nx:  \r\nx: b", "x"), None);
    assert_eq!(header_value_from_request("GET /\r\n\r\nx: body", "x"), None);
}

#[test]
fn request_is_taken_apart() {
    let request = parse_helper_request(
        "POST  /backend/status?a=b&c?d HTTP/1.1\r\nUser-Agent: Codex\r\n\r\nhello",
    );
    assert_eq!(request.request_line, "POST  /backend/status?a=b&c?d HTTP/1.1");
    assert_eq!(request.method, "POST");
    assert_eq!(request.path, "/backend/status");
    assert_eq!(request.body, "hello");
    assert_eq!(request.user_agent.as_deref(), Some("Codex"));
    let empty = parse_helper_request("");
    assert_eq!(empty.method, "");
    assert_eq!(empty.path, "");
    assert_eq!(empty.user_agent, None);
    let broken = read_helper_request(b"GET /\xff HTTP/1.1\r\n\r\n");
    assert_eq!(broken.path, "/\u{fffd}");
}

#[test]
fn request_is_complete_with_its_body() {
    let reader = RequestReader::new();
    let (reader, step) = reader.push(b"POST / HTTP/1.1\r\nContent-Length: 5\r\n");
    assert!(matches!(step, ReadStep::More));
    let (reader, step) = reader.push(b"\r\nhel");
    assert!(matches!(step, ReadStep::More));
    let (reader, step) = reader.push(b"lo");
    assert!(matches!(step, ReadStep::Complete));
    assert_eq!(
        text(&reader.into_bytes()),
        "POST / HTTP/1.1\r\nContent-Length: 5\r\n\r\nhello"
    );
    let (_, step) = RequestReader::new().push(b"GET / HTTP/1.1\r\n\r\n");
    assert!(matches!(step, ReadStep::Complete));
    let (_, step) = RequestReader::new().push(b"");
    assert!(matches!(step, ReadStep::Complete));
}

#[test]
fn request_that_is_too_large_is_refused() {
    let chunk = vec![b'a'; MAX_REQUEST_BYTES];
    let (reader, step) = RequestReader::new().push(&chunk);
    assert!(matches!(step, ReadStep::More));
    let (_, step) = reader.push(b"b");
    assert!(matches!(step, ReadStep::TooLarge));
}

#[test]
fn heads_are_written_in_full() {
    assert_eq!(
        reply_head("200 OK", "text/plain", 12),
        "HTTP/1.1 200 OK\r\nContent-Type: text/plain\r\nAccess-Control-Allow-Origin: *\r\nAccess-Control-Allow-Methods: GET, POST, OPTIONS\r\nAccess-Control-Allow-Headers: Content-Type, Authorization\r\nContent-Length: 12\r\nConnection: close\r\n\r\n"
    );
    assert_eq!(
        preflight_head(),
        "HTTP/1.1 204 No Content\r\nAccess-Control-Allow-Origin: *\r\nAccess-Control-Allow-Methods: GET, POST, OPTIONS\r\nAccess-Control-Allow-Headers: Content-Type, Authorization\r\nContent-Length: 0\r\nConnection: close\r\n\r\n"
    );
    assert_eq!(
        stream_head("200 OK", "text/event-stream; charset=utf-8"),
        "HTTP/1.1 200 OK\r\nContent-Type: text/event-stream; charset=utf-8\r\nCache-Control: no-cache\r\nAccess-Control-Allow-Origin: *\r\nAccess-Control-Allow-Methods: GET, POST, OPTIONS\r\nAccess-Control-Allow-Headers: Content-Type, Authorization\r\nConnection: close\r\n\r\n"
    );
    assert_eq!(
        content_length_from_headers(reply_head("200 OK", "text/plain", 120).as_bytes()),
        Some(120)
    );
}

#[test]
fn helper_listens_on_the_loopback_unless_asked() {
    assert_eq!(helper_bind_host(None), "127.0.0.1");
    assert_eq!(helper_bind_host(Some("  ")), "127.0.0.1");
    assert_eq!(helper_bind_host(Some(" 0.0.0.0 ")), "0.0.0.0");
}

#[test]
fn requests_are_routed_by_method_and_path() {
    assert_eq!(route_request("GET", "/backend/status", NO_PROXY), Route::BackendStatus);
    assert_eq!(route_request("POST", "/backend/repair", NO_PROXY), Route::BackendRepair);
    assert_eq!(route_request("PUT", "/backend/repair", NO_PROXY), Route::Unknown);
    assert_eq!(route_request("POST", "/diagnostics/log", NO_PROXY), Route::DiagnosticsLog);
    assert_eq!(route_request("GET", "/diagnostics/log", NO_PROXY), Route::Unknown);
    assert_eq!(route_request("GET", "/overlay/image", NO_PROXY), Route::OverlayImage);
    assert_eq!(route_request("POST", "/overlay/image", NO_PROXY), Route::Unknown);
    assert_eq!(route_request("GET", "/", NO_PROXY), Route::Unknown);
    let all = ProxyPaths { responses: true, chat_completions: true, models: true };
    assert_eq!(route_request("POST", "/backend/status", all), Route::ResponsesProxy);
    assert_eq!(route_request("GET", "/x", all), Route::ModelsProxy);
    let chat = ProxyPaths { responses: false, chat_completions: true, models: false };
    assert_eq!(route_request("POST", "/x", chat), Route::ChatCompletionsProxy);
    assert_eq!(route_request("GET", "/x", chat), Route::Unknown);
}

#[test]
fn json_answers_hold_their_members() {
    let body = brief_body("failed", "a \"b\" \n");
    let value: serde_json::Value = serde_json::from_slice(&body).unwrap();
    assert_eq!(value.get("status").and_then(|v| v.as_str()), Some("failed"));
    assert_eq!(value.get("message").and_then(|v| v.as_str()), Some("a \"b\" \n"));
    assert_eq!(text(&brief_body("ok", "x")), "{\"message\":\"x\",\"status\":\"ok\"}");
    let value: serde_json::Value = serde_json::from_slice(&connected_body("1.2.3")).unwrap();
    assert_eq!(value.get("status").and_then(|v| v.as_str()), Some("ok"));
    assert_eq!(value.get("message").and_then(|v| v.as_str()), Some("后端已连接"));
    assert_eq!(value.get("version").and_then(|v| v.as_str()), Some("1.2.3"));
    assert_eq!(value.get("transport").and_then(|v| v.as_str()), Some("http-helper"));
}

fn message_of(body: &[u8]) -> String {
    let value: serde_json::Value = serde_json::from_slice(body).unwrap();
    value.get("message").unwrap().as_str().unwrap().to_string()
}

#[test]
fn helper_answers_its_own_routes() {
    let status = answer_locally(Route::BackendStatus, "GET", "9", None).unwrap();
    assert_eq!(status.status, "200 OK");
    assert_eq!(status.content_type, "application/json; charset=utf-8");
    assert_eq!(status.log_event, "helper.backend_status_ok");
    assert_eq!(message_of(&status.body), "后端已连接");
    let repair = answer_locally(Route::BackendRepair, "POST", "9", None).unwrap();
    assert_eq!(repair.log_event, "helper.backend_repair_ok");
    let log = answer_locally(Route::DiagnosticsLog, "POST", "9", None).unwrap();
    assert_eq!(log.status, "200 OK");
    assert_eq!(log.log_event, "helper.diagnostics_log_ok");
    assert_eq!(message_of(&log.body), "日志已记录");
    let unknown = answer_locally(Route::Unknown, "GET", "9", None).unwrap();
    assert_eq!(unknown.status, "404 Not Found");
    assert_eq!(unknown.log_event, "helper.unknown_path");
    assert_eq!(message_of(&unknown.body), "未知后端路径");
    assert!(answer_locally(Route::ResponsesProxy, "POST", "9", None).is_none());
    assert!(answer_locally(Route::ChatCompletionsProxy, "POST", "9", None).is_none());
    assert!(answer_locally(Route::ModelsProxy, "GET", "9", None).is_none());
}

#[test]
fn overlay_image_is_answered_or_missing() {
    let options = answer_locally(Route::OverlayImage, "OPTIONS", "9", None).unwrap();
    assert_eq!(options.status, "200 OK");
    assert_eq!(options.content_type, "application/octet-stream");
    assert_eq!(options.log_event, "helper.overlay_image_options");
    assert!(options.body.is_empty());
    let image = OverlayImage { bytes: vec![1, 2, 3], content_type: "image/png" };
    let found = answer_locally(Route::OverlayImage, "GET", "9", Some(image)).unwrap();
    assert_eq!(found.status, "200 OK");
    assert_eq!(found.content_type, "image/png");
    assert_eq!(found.log_event, "helper.overlay_image_ok");
    assert_eq!(found.body, vec![1, 2, 3]);
    let missing = overlay_image_response(None);
    assert_eq!(missing.status, "404 Not Found");
    assert_eq!(missing.log_event, "helper.overlay_image_not_found");
    assert_eq!(message_of(&missing.body), "图片覆盖层未启用或图片不可用");
}

#[test]
fn preflight_requests_get_no_body() {
    let reply = answer_locally(Route::BackendStatus, "OPTIONS", "9", None).unwrap();
    let (head, body) = frame_reply("OPTIONS", reply);
    assert_eq!(head, preflight_head());
    assert!(body.is_empty());
    let reply = answer_locally(Route::Unknown, "GET", "9", None).unwrap();
    let length = reply.body.len();
    let (head, body) = frame_reply("GET", reply);
    assert_eq!(head, reply_head("404 Not Found", "application/json; charset=utf-8", length));
    assert_eq!(body.len(), length);
}

#[test]
fn unknown_paths_are_refused_on_the_wire() {
    let request = read_helper_request(b"GET /nowhere?x HTTP/1.1\r\n\r\n");
    let answer = answer_request(&request, NO_PROXY, "9", None).unwrap();
    assert_eq!(answer.status, "404 Not Found");
    assert_eq!(answer.log_event, "helper.unknown_path");
    assert_eq!(
        content_length_from_headers(answer.head.as_bytes()),
        Some(answer.body.len())
    );
    let message = answer.head + &text(&answer.body);
    assert_eq!(message_of(http_request_body(&message).as_bytes()), "未知后端路径");
    let all = ProxyPaths { responses: true, chat_completions: true, models: true };
    assert!(answer_request(&request, all, "9", None).is_none());
}

#[test]
fn event_names_are_sanitized() {
    assert_eq!(sanitize_diagnostic_event("a.B-c_1"), "a.B-c_1");
    assert_eq!(sanitize_diagnostic_event("a b/é"), "a_b__");
    assert_eq!(sanitize_diagnostic_event(""), "event");
    let once = sanitize_diagnostic_event("x y");
    assert_eq!(sanitize_diagnostic_event(&once), once);
    assert_eq!(diagnostic_event_name(Some("a b")), "renderer.a_b");
    assert_eq!(diagnostic_event_name(None), "renderer.event");
}

#[test]
fn diagnostics_are_logged_under_their_event() {
    let (event, detail) = read_diagnostic("{\"event\":\"page load\",\"x\":1}");
    assert_eq!(event, "renderer.page_load");
    assert_eq!(detail.get("x").and_then(|v| v.as_i64()), Some(1));
    let (event, detail) = read_diagnostic("{\"event\":5}");
    assert_eq!(event, "renderer.event");
    assert_eq!(text(&json_body(&detail)), "{\"event\":5}");
    let (event, detail) = read_diagnostic("not json");
    assert_eq!(event, "renderer.event");
    assert_eq!(detail.get("raw").and_then(|v| v.as_str()), Some("not json"));
    assert_eq!(
        detail.get("parse_error").and_then(|v| v.as_str()),
        Some("expected ident at line 1 column 2")
    );
    assert_eq!(diagnostic_event_of(&detail), "renderer.event");
    let read = diagnostic_detail(Ok(serde_json::Value::Bool(true)), "true");
    assert_eq!(read, serde_json::Value::Bool(true));
    let unread = diagnostic_detail(Err("why".to_string()), "x");
    assert_eq!(unread.get("parse_error").and_then(|v| v.as_str()), Some("why"));
    let logged = unreadable_diagnostic("expected ident", "not json");
    assert_eq!(
        text(&json_body(&logged)),
        "{\"parse_error\":\"expected ident\",\"raw\":\"not json\"}"
    );
    assert!(logs_record(Route::DiagnosticsLog, "POST"));
    assert!(!logs_record(Route::DiagnosticsLog, "OPTIONS"));
    assert!(!logs_record(Route::Unknown, "POST"));
    assert!(wants_overlay_image(Route::OverlayImage, "GET"));
    assert!(!wants_overlay_image(Route::OverlayImage, "OPTIONS"));
    assert!(!wants_overlay_image(Route::Unknown, "GET"));
}

fn overlay_settings(enabled: bool, path: &str) -> BackendSettings {
    BackendSettings {
        codex_app_path: String::new(),
        codex_extra_args: Vec::new(),
        provider_sync_enabled: false,
        enhancements_enabled: true,
        computer_use_guard_enabled: false,
        active_relay_uses_protocol_proxy: false,
        relay_profiles_enabled: false,
        active_relay_profile: RelayProfile {
            relay_mode: RelayMode::Other,
            official_mix_api_key: false,
            auth_contents: String::new(),
        },
        relay_common_config_contents: String::new(),
        relay_context_config_contents: String::new(),
        codex_app_plugin_marketplace_unlock: false,
        codex_app_native_menu_localization: false,
        codex_app_fast_startup: false,
        codex_app_image_overlay_enabled: enabled,
        codex_app_image_overlay_path: path.to_string(),
    }
}

#[test]
fn overlay_source_needs_an_enabled_image() {
    let source = overlay_source(&overlay_settings(true, " /img/a.gif \n")).unwrap();
    assert_eq!(source.path, "/img/a.gif");
    assert_eq!(source.content_type, "image/gif");
    assert!(overlay_source(&overlay_settings(false, "/img/a.gif")).is_none());
    assert!(overlay_source(&overlay_settings(true, "  ")).is_none());
    assert!(overlay_source(&overlay_settings(true, "/img/a.txt")).is_none());
    assert!(overlay_source(&overlay_settings(true, "C:\\img\\gif")).is_none());
    assert_eq!(
        overlay_image_path(&overlay_settings(true, " x ")).as_deref(),
        Some("x")
    );
    assert_eq!(overlay_image_path(&overlay_settings(false, "x")), None);
    assert!(overlay_source_at("x".to_string(), None).is_none());
    let source = overlay_source_at("x".to_string(), Some("image/png")).unwrap();
    assert_eq!((source.path.as_str(), source.content_type), ("x", "image/png"));
}

fn upstream(is_success: bool, is_stream: bool, content_type: &str, wire_api: UpstreamWireApi) -> UpstreamHead {
    UpstreamHead {
        status: if is_success { "200 OK".to_string() } else { "429 Too Many Requests".to_string() },
        is_success,
        is_stream,
        content_type: content_type.to_string(),
        wire_api,
    }
}

#[test]
fn routes_lead_to_their_service() {
    assert_eq!(proxied_service(Route::ResponsesProxy), Some(ProxyService::Responses));
    assert_eq!(proxied_service(Route::ChatCompletionsProxy), Some(ProxyService::ChatCompletions));
    assert_eq!(proxied_service(Route::ModelsProxy), Some(ProxyService::Models));
    assert_eq!(proxied_service(Route::BackendStatus), None);
    assert_eq!(proxied_service(Route::Unknown), None);
}

#[test]
fn models_are_relayed() {
    let plan = plan_proxy_reply(
        ProxyService::Models,
        &upstream(true, true, "", UpstreamWireApi::Chat),
    );
    assert_eq!(plan.status, "200 OK");
    assert_eq!(plan.content_type, "application/json; charset=utf-8");
    assert_eq!(plan.handling, BodyHandling::Relay);
    assert_eq!(plan.log_event, "helper.models_proxy_ok");
    let plan = plan_proxy_reply(
        ProxyService::Models,
        &upstream(false, false, "text/plain", UpstreamWireApi::Chat),
    );
    assert_eq!(plan.status, "429 Too Many Requests");
    assert_eq!(plan.content_type, "text/plain");
    assert_eq!(plan.log_event, "helper.models_proxy_upstream_error");
    assert!(is_preflight(ProxyService::Models, "OPTIONS"));
    assert!(!is_preflight(ProxyService::Models, "GET"));
    assert!(!is_preflight(ProxyService::Responses, "OPTIONS"));
    assert_eq!(
        service_preflight_head(),
        reply_head("204 No Content", "application/json; charset=utf-8", 0)
    );
}

#[test]
fn chat_streams_are_relayed_when_they_succeed() {
    let plan = plan_proxy_reply(
        ProxyService::ChatCompletions,
        &upstream(true, true, "text/event-stream", UpstreamWireApi::Chat),
    );
    assert_eq!(plan.handling, BodyHandling::RelayStrictStream);
    assert_eq!(plan.content_type, "text/event-stream");
    assert_eq!(plan.log_event, "helper.chat_completions_proxy_stream_ok");
    let plan = plan_proxy_reply(
        ProxyService::ChatCompletions,
        &upstream(false, true, "", UpstreamWireApi::Chat),
    );
    assert_eq!(plan.handling, BodyHandling::Relay);
    assert_eq!(plan.content_type, "application/json; charset=utf-8");
    assert_eq!(plan.log_event, "helper.chat_completions_proxy_upstream_error");
    let plan = plan_proxy_reply(
        ProxyService::ChatCompletions,
        &upstream(true, false, "", UpstreamWireApi::Chat),
    );
    assert_eq!(plan.log_event, "helper.chat_completions_proxy_ok");
}

#[test]
fn responses_are_converted_from_chat() {
    let plan = |success, stream, wire| {
        plan_proxy_reply(ProxyService::Responses, &upstream(success, stream, "x/y", wire))
    };
    let failed = plan(false, true, UpstreamWireApi::Responses);
    assert_eq!(failed.status, "429 Too Many Requests");
    assert_eq!(failed.content_type, "application/json; charset=utf-8");
    assert_eq!(failed.handling, BodyHandling::ConvertError);
    assert_eq!(failed.log_event, "helper.protocol_proxy_upstream_error");
    let stream = plan(true, true, UpstreamWireApi::Responses);
    assert_eq!(stream.content_type, "text/event-stream; charset=utf-8");
    assert_eq!(stream.handling, BodyHandling::RelayStream);
    assert_eq!(stream.log_event, "helper.protocol_proxy_stream_ok");
    let converted = plan(true, true, UpstreamWireApi::Chat);
    assert_eq!(converted.handling, BodyHandling::ConvertStream);
    let whole = plan(true, false, UpstreamWireApi::Responses);
    assert_eq!(whole.handling, BodyHandling::Relay);
    assert_eq!(whole.content_type, "x/y");
    assert_eq!(whole.log_event, "helper.protocol_proxy_ok");
    let response = plan(true, false, UpstreamWireApi::Chat);
    assert_eq!(response.handling, BodyHandling::ConvertResponse);
    assert_eq!(response.content_type, "application/json; charset=utf-8");
    assert_eq!(response.log_event, "helper.protocol_proxy_ok");
}

#[test]
fn unreachable_upstreams_are_answered_with_bad_gateway() {
    let reply = answer_unreachable(ProxyService::Responses, "no route");
    assert_eq!(reply.status, "502 Bad Gateway");
    assert_eq!(reply.log_event, "helper.protocol_proxy_failed");
    assert_eq!(message_of(&reply.body), "no route");
    assert_eq!(
        answer_unreachable(ProxyService::ChatCompletions, "x").log_event,
        "helper.chat_completions_proxy_failed"
    );
    assert_eq!(
        answer_unreachable(ProxyService::Models, "x").log_event,
        "helper.models_proxy_failed"
    );
}

#[test]
fn streams_are_forwarded_chunk_by_chunk() {
    assert!(is_streamed(BodyHandling::ConvertStream));
    assert!(is_streamed(BodyHandling::RelayStream));
    assert!(is_streamed(BodyHandling::RelayStrictStream));
    assert!(!is_streamed(BodyHandling::Relay));
    let failed = StreamEvent::Failed("reset".to_string());
    assert!(matches!(forward(BodyHandling::RelayStream, &StreamEvent::Chunk), StreamStep::Write));
    assert!(matches!(forward(BodyHandling::RelayStream, &failed), StreamStep::Finish));
    assert!(matches!(forward(BodyHandling::RelayStrictStream, &failed), StreamStep::Abort));
    assert!(matches!(forward(BodyHandling::RelayStrictStream, &StreamEvent::End), StreamStep::Finish));
    assert!(matches!(forward(BodyHandling::ConvertStream, &StreamEvent::Chunk), StreamStep::Convert));
    assert!(matches!(
        forward(BodyHandling::ConvertStream, &StreamEvent::End),
        StreamStep::FinishConverter
    ));
    match forward(BodyHandling::ConvertStream, &failed) {
        StreamStep::FailConverter { message, code } => {
            assert_eq!(message, "Stream error: reset");
            assert_eq!(code, "stream_error");
        }
        other => panic!("unexpected step {:?}", other),
    }
}

#[test]
fn json_is_read_and_written() {
    let request = request_json("{\"b\":[1,true,null],\"a\":\"x\"}").unwrap();
    assert_eq!(text(&json_body(&request)), "{\"a\":\"x\",\"b\":[1,true,null]}");
    assert!(request_json("{").is_none());
    assert_eq!(upstream_json(b" {\"a\":\"x\"}").unwrap().get("a").and_then(|v| v.as_str()), Some("x"));
    assert!(upstream_json(b"\"\xff\"").is_err());
    assert!(upstream_json(b"").is_err());
}
