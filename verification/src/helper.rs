//! The helper: where a request goes, and what is answered.
use vstd::prelude::*;

use crate::framing;
use crate::http;
use crate::http::HelperRequest;
use crate::json;
use crate::json::Json;
use crate::text;

verus! {

// ---- where the helper listens ------------------------------------------------------------

/// The host at which the helper listens, given what the user asked for.
pub open spec fn bind_host(asked: Option<Seq<char>>) -> Seq<char> {
    match asked {
        Some(value) => if text::trimmed(value).len() > 0 {
            text::trimmed(value)
        } else {
            "127.0.0.1"@
        },
        None => "127.0.0.1"@,
    }
}

/// The host at which the helper listens, given what the user asked for.
pub fn helper_bind_host(asked: Option<&str>) -> (r: String)
    ensures
        r@ == bind_host(asked.deep_view()),
        asked is Some && text::trimmed(asked->0@).len() > 0 ==> r@ == text::trimmed(asked->0@),
        asked is None || text::trimmed(asked->0@).len() == 0 ==> r@ == "127.0.0.1"@,
{
    match asked {
        Some(value) => {
            let host: String = text::trim(value);
            if host.as_str().is_empty() {
                "127.0.0.1".to_string()
            } else {
                host
            }
        },
        None => "127.0.0.1".to_string(),
    }
}

// ---- where a request goes ----------------------------------------------------------------

/// Which proxied services a path belongs to.
#[derive(Debug, Clone, Copy, PartialEq, Eq, Structural)]
pub struct ProxyPaths {
    pub responses: bool,
    pub chat_completions: bool,
    pub models: bool,
}

/// Where a request goes.
#[derive(Debug, Clone, Copy, PartialEq, Eq, Structural)]
pub enum Route {
    ResponsesProxy,
    ChatCompletionsProxy,
    ModelsProxy,
    BackendStatus,
    BackendRepair,
    DiagnosticsLog,
    OverlayImage,
    Unknown,
}

/// Where a request goes: to a proxied service before anything else.
pub open spec fn route_of(method: Seq<char>, path: Seq<char>, proxies: ProxyPaths) -> Route {
    let get = method == "GET"@;
    let post = method == "POST"@;
    let options = method == "OPTIONS"@;
    if proxies.responses && post {
        Route::ResponsesProxy
    } else if proxies.chat_completions && post {
        Route::ChatCompletionsProxy
    } else if proxies.models && (get || options) {
        Route::ModelsProxy
    } else if path == "/backend/status"@ && (get || post || options) {
        Route::BackendStatus
    } else if path == "/backend/repair"@ && (get || post || options) {
        Route::BackendRepair
    } else if path == "/diagnostics/log"@ && (post || options) {
        Route::DiagnosticsLog
    } else if path == "/overlay/image"@ && (get || options) {
        Route::OverlayImage
    } else {
        Route::Unknown
    }
}

/// Where a request goes.
pub fn route_request(method: &str, path: &str, proxies: ProxyPaths) -> (r: Route)
    ensures
        r == route_of(method@, path@, proxies),
        r == Route::ResponsesProxy <==> proxies.responses && method@ == "POST"@,
        r == Route::ChatCompletionsProxy <==> proxies.chat_completions && !proxies.responses
            && method@ == "POST"@,
        r == Route::ModelsProxy <==> proxies.models && (method@ == "GET"@ || method@
            == "OPTIONS"@),
        !is_proxied(r) ==> (r == Route::BackendStatus <==> path@ == "/backend/status"@ && (method@
            == "GET"@ || method@ == "POST"@ || method@ == "OPTIONS"@)),
        !is_proxied(r) ==> (r == Route::BackendRepair <==> path@ == "/backend/repair"@ && (method@
            == "GET"@ || method@ == "POST"@ || method@ == "OPTIONS"@)),
        !is_proxied(r) ==> (r == Route::DiagnosticsLog <==> path@ == "/diagnostics/log"@ && (method@
            == "POST"@ || method@ == "OPTIONS"@)),
        !is_proxied(r) ==> (r == Route::OverlayImage <==> path@ == "/overlay/image"@ && (method@
            == "GET"@ || method@ == "OPTIONS"@)),
{
    proof {
        reveal_strlit("GET");
        reveal_strlit("POST");
        reveal_strlit("OPTIONS");
        reveal_strlit("/backend/status");
        reveal_strlit("/backend/repair");
        reveal_strlit("/diagnostics/log");
        reveal_strlit("/overlay/image");
        assert("GET"@.len() == 3 && "POST"@.len() == 4 && "OPTIONS"@.len() == 7);
        assert("/backend/status"@[9] == 's' && "/backend/repair"@[9] == 'r');
        assert("/backend/status"@[1] == 'b' && "/backend/repair"@[1] == 'b'
            && "/diagnostics/log"@[1] == 'd' && "/overlay/image"@[1] == 'o');
    }
    let get = text::same_text(method, "GET");
    let post = text::same_text(method, "POST");
    let options = text::same_text(method, "OPTIONS");
    if proxies.responses && post {
        Route::ResponsesProxy
    } else if proxies.chat_completions && post {
        Route::ChatCompletionsProxy
    } else if proxies.models && (get || options) {
        Route::ModelsProxy
    } else if (get || post || options) && text::same_text(path, "/backend/status") {
        Route::BackendStatus
    } else if (get || post || options) && text::same_text(path, "/backend/repair") {
        Route::BackendRepair
    } else if (post || options) && text::same_text(path, "/diagnostics/log") {
        Route::DiagnosticsLog
    } else if (get || options) && text::same_text(path, "/overlay/image") {
        Route::OverlayImage
    } else {
        Route::Unknown
    }
}

/// A request with another method than `GET`, `POST` or `OPTIONS` goes nowhere.
pub proof fn other_methods_go_nowhere(method: Seq<char>, path: Seq<char>, proxies: ProxyPaths)
    requires
        method != "GET"@,
        method != "POST"@,
        method != "OPTIONS"@,
    ensures
        route_of(method, path, proxies) == Route::Unknown,
{
}

/// A path of a proxied service goes to that service alone: no answer of the helper's own is
/// given where the service takes the method.
pub proof fn proxied_paths_go_to_their_service(path: Seq<char>, proxies: ProxyPaths)
    ensures
        proxies.responses || proxies.chat_completions ==> is_proxied(
            route_of("POST"@, path, proxies),
        ),
        proxies.models ==> route_of("GET"@, path, proxies) == Route::ModelsProxy,
        proxies.models ==> route_of("OPTIONS"@, path, proxies) == Route::ModelsProxy,
{
    reveal_strlit("GET");
    reveal_strlit("POST");
    reveal_strlit("OPTIONS");
    assert("GET"@.len() != "POST"@.len());
    assert("OPTIONS"@.len() != "POST"@.len());
}

// ---- answers -----------------------------------------------------------------------------

/// What is answered, and the event under which that is logged.
#[derive(Debug)]
pub struct HelperReply {
    pub status: &'static str,
    pub body: Vec<u8>,
    pub content_type: &'static str,
    pub log_event: &'static str,
}

/// `HelperReply`, over sequences.
pub struct Reply {
    pub status: Seq<char>,
    pub body: Seq<u8>,
    pub content_type: Seq<char>,
    pub log_event: Seq<char>,
}

impl View for HelperReply {
    type V = Reply;

    open spec fn view(&self) -> Reply {
        Reply {
            status: self.status@,
            body: self.body@,
            content_type: self.content_type@,
            log_event: self.log_event@,
        }
    }
}

/// The content type of an answer in JSON.
pub open spec fn json_type() -> Seq<char> {
    "application/json; charset=utf-8"@
}

/// An answer in JSON, whose members are texts.
pub open spec fn json_reply(
    status: Seq<char>,
    members: Map<Seq<char>, Seq<char>>,
    log_event: Seq<char>,
) -> Reply {
    Reply {
        status,
        body: json::json_bytes(json::text_object(members)),
        content_type: json_type(),
        log_event,
    }
}

/// The members of a short answer.
pub open spec fn brief(status: Seq<char>, message: Seq<char>) -> Map<Seq<char>, Seq<char>> {
    Map::<Seq<char>, Seq<char>>::empty().insert("status"@, status).insert("message"@, message)
}

/// The members of the answer that the backend is connected.
pub open spec fn connected(version: Seq<char>) -> Map<Seq<char>, Seq<char>> {
    brief("ok"@, "后端已连接"@).insert("version"@, version).insert("transport"@, "http-helper"@)
}

/// Whether bytes are JSON text for an object with the given members.
pub open spec fn is_json_object(bytes: Seq<u8>, members: Map<Seq<char>, Seq<char>>) -> bool {
    &&& vstd::utf8::valid_utf8(bytes)
    &&& json::parsed_json(vstd::utf8::decode_utf8(bytes)) == Some(json::text_object(members))
}

/// The JSON text of a short answer.
pub fn brief_body(status: &str, message: &str) -> (r: Vec<u8>)
    ensures
        r@ == json::json_bytes(json::text_object(brief(status@, message@))),
        is_json_object(r@, brief(status@, message@)),
        json::member_of(json::parsed_json(vstd::utf8::decode_utf8(r@)), "status"@) == Some(
            Json::Text(status@),
        ),
        json::member_of(json::parsed_json(vstd::utf8::decode_utf8(r@)), "message"@) == Some(
            Json::Text(message@),
        ),
{
    let members: Vec<(String, String)> = vec![
        ("status".to_string(), status.to_string()),
        ("message".to_string(), message.to_string()),
    ];
    let ghost list = members.deep_view();
    proof {
        assert(list =~= seq![("status"@, status@), ("message"@, message@)]);
        reveal_with_fuel(json::members_of, 3);
        assert(list.drop_last() =~= seq![("status"@, status@)]);
        assert(list.drop_last().drop_last() =~= seq![]);
        assert(json::members_of(list) =~= brief(status@, message@));
        reveal_strlit("status");
        reveal_strlit("message");
        assert("status"@.len() != "message"@.len());
    }
    json::text_object_body(members)
}

/// The JSON text of the answer that the backend is connected.
pub fn connected_body(version: &str) -> (r: Vec<u8>)
    ensures
        r@ == json::json_bytes(json::text_object(connected(version@))),
        is_json_object(r@, connected(version@)),
        json::member_of(json::parsed_json(vstd::utf8::decode_utf8(r@)), "status"@) == Some(
            Json::Text("ok"@),
        ),
        json::member_of(json::parsed_json(vstd::utf8::decode_utf8(r@)), "message"@) == Some(
            Json::Text("后端已连接"@),
        ),
        json::member_of(json::parsed_json(vstd::utf8::decode_utf8(r@)), "version"@) == Some(
            Json::Text(version@),
        ),
        json::member_of(json::parsed_json(vstd::utf8::decode_utf8(r@)), "transport"@) == Some(
            Json::Text("http-helper"@),
        ),
{
    let members: Vec<(String, String)> = vec![
        ("status".to_string(), "ok".to_string()),
        ("message".to_string(), "后端已连接".to_string()),
        ("version".to_string(), version.to_string()),
        ("transport".to_string(), "http-helper".to_string()),
    ];
    let ghost list = members.deep_view();
    proof {
        let a = ("status"@, "ok"@);
        let b = ("message"@, "后端已连接"@);
        let c = ("version"@, version@);
        let d = ("transport"@, "http-helper"@);
        assert(list =~= seq![a, b, c, d]);
        reveal_with_fuel(json::members_of, 5);
        assert(list.drop_last() =~= seq![a, b, c]);
        assert(seq![a, b, c].drop_last() =~= seq![a, b]);
        assert(seq![a, b].drop_last() =~= seq![a]);
        assert(seq![a].drop_last() =~= seq![]);
        assert(json::members_of(list) =~= connected(version@));
        reveal_strlit("status");
        reveal_strlit("message");
        reveal_strlit("version");
        reveal_strlit("transport");
        assert("status"@[0] == 's' && "message"@[0] == 'm' && "version"@[0] == 'v'
            && "transport"@[0] == 't');
    }
    json::text_object_body(members)
}

// ---- the diagnostics log -----------------------------------------------------------------

/// Whether a character can stand in the name of an event.
pub open spec fn is_event_char(c: char) -> bool {
    ||| 'a' <= c <= 'z'
    ||| 'A' <= c <= 'Z'
    ||| '0' <= c <= '9'
    ||| c == '_'
    ||| c == '-'
    ||| c == '.'
}

/// The name of an event with an underscore for each character that cannot stand in it, and
/// `event` for a name without characters.
pub open spec fn sanitized(event: Seq<char>) -> Seq<char> {
    if event.len() == 0 {
        "event"@
    } else {
        Seq::new(
            event.len(),
            |i: int|
                if is_event_char(event[i]) {
                    event[i]
                } else {
                    '_'
                },
        )
    }
}

/// The name of the event with an underscore for each character that cannot stand in it, and
/// `event` for a name without characters.
pub fn sanitize_diagnostic_event(event: &str) -> (r: String)
    ensures
        r@ == sanitized(event@),
        event@.len() == 0 ==> r@ == "event"@,
        event@.len() > 0 ==> r@.len() == event@.len(),
        forall|k: int|
            0 <= k < event@.len() ==> #[trigger] r@[k] == if ('a' <= event@[k] <= 'z') || ('A'
                <= event@[k] <= 'Z') || ('0' <= event@[k] <= '9') || event@[k] == '_' || event@[k]
                == '-' || event@[k] == '.' {
                event@[k]
            } else {
                '_'
            },
{
    let chars: Vec<char> = text::chars_of(event);
    if chars.len() == 0 {
        return "event".to_string();
    }
    let mut r = String::new();
    for i in 0..chars.len()
        invariant
            chars@ == event@,
            chars@.len() > 0,
            r@.len() == i,
            forall|k: int| 0 <= k < i ==> r@[k] == #[trigger] sanitized(event@)[k],
    {
        let c: char = chars[i];
        if ('a' <= c && c <= 'z') || ('A' <= c && c <= 'Z') || ('0' <= c && c <= '9') || c == '_'
            || c == '-' || c == '.' {
            r.push(c);
        } else {
            r.push('_');
        }
    }
    assert(r@ =~= sanitized(event@));
    r
}

/// The event under which a record of the page is logged.
pub open spec fn diagnostic_event(event: Option<Seq<char>>) -> Seq<char> {
    "renderer."@ + match event {
        Some(name) => sanitized(name),
        None => "event"@,
    }
}

/// The event that a record of the page names, if it does.
pub open spec fn named_event(record: Json) -> Option<Seq<char>> {
    match json::member(record, "event"@) {
        Some(Json::Text(name)) => Some(name),
        _ => None,
    }
}

/// The event under which a record of the page is logged.
pub fn diagnostic_event_name(event: Option<&str>) -> (r: String)
    ensures
        r@ == diagnostic_event(event.deep_view()),
        event is Some ==> r@ == "renderer."@ + sanitized(event->0@),
        event is None ==> r@ == "renderer.event"@,
{
    proof {
        reveal_strlit("renderer.");
        reveal_strlit("event");
        reveal_strlit("renderer.event");
        assert("renderer."@ + "event"@ =~= "renderer.event"@);
    }
    let mut r = "renderer.".to_string();
    match event {
        Some(name) => {
            let name: String = sanitize_diagnostic_event(name);
            r.append(name.as_str());
        },
        None => {
            r.append("event");
        },
    }
    r
}

/// The members of what is logged for a record that is no JSON.
pub open spec fn unreadable(error: Seq<char>, body: Seq<char>) -> Map<Seq<char>, Seq<char>> {
    Map::<Seq<char>, Seq<char>>::empty().insert("parse_error"@, error).insert("raw"@, body)
}

/// What is logged for a record that is no JSON, for the given reason.
pub fn unreadable_diagnostic(error: &str, body: &str) -> (r: serde_json::Value)
    ensures
        json::json_of(r) == json::text_object(unreadable(error@, body@)),
        json::member(json::json_of(r), "parse_error"@) == Some(Json::Text(error@)),
        json::member(json::json_of(r), "raw"@) == Some(Json::Text(body@)),
{
    let members: Vec<(String, String)> = vec![
        ("parse_error".to_string(), error.to_string()),
        ("raw".to_string(), body.to_string()),
    ];
    let ghost list = members.deep_view();
    proof {
        assert(list =~= seq![("parse_error"@, error@), ("raw"@, body@)]);
        reveal_with_fuel(json::members_of, 3);
        assert(list.drop_last() =~= seq![("parse_error"@, error@)]);
        assert(list.drop_last().drop_last() =~= seq![]);
        assert(json::members_of(list) =~= unreadable(error@, body@));
        reveal_strlit("parse_error");
        reveal_strlit("raw");
        assert("parse_error"@.len() != "raw"@.len());
    }
    json::json_object(members)
}

/// What is logged for a record, given what was read from it: that, or else why nothing was, and
/// the record as it came.
pub open spec fn record_of(parsed: Result<Json, Seq<char>>, body: Seq<char>) -> Json {
    match parsed {
        Ok(value) => value,
        Err(error) => json::text_object(unreadable(error, body)),
    }
}

/// The view of what was read from a record.
pub open spec fn parsed_view(parsed: Result<serde_json::Value, String>) -> Result<Json, Seq<char>> {
    match parsed {
        Ok(value) => Ok(json::json_of(value)),
        Err(error) => Err(error@),
    }
}

/// What is logged for a record, given what was read from it, or why nothing was.
pub fn diagnostic_detail(parsed: Result<serde_json::Value, String>, body: &str) -> (r:
    serde_json::Value)
    ensures
        json::json_of(r) == record_of(parsed_view(parsed), body@),
        parsed is Ok ==> json::json_of(r) == json::json_of(parsed->Ok_0),
        parsed is Err ==> json::member(json::json_of(r), "parse_error"@) == Some(
            Json::Text(parsed->Err_0@),
        ) && json::member(json::json_of(r), "raw"@) == Some(Json::Text(body@)),
{
    match parsed {
        Ok(value) => value,
        Err(error) => unreadable_diagnostic(error.as_str(), body),
    }
}

/// The event under which a record with the given detail is logged.
pub fn diagnostic_event_of(detail: &serde_json::Value) -> (r: String)
    ensures
        r@ == diagnostic_event(named_event(json::json_of(*detail))),
        match json::member(json::json_of(*detail), "event"@) {
            Some(Json::Text(name)) => r@ == "renderer."@ + sanitized(name),
            _ => r@ == "renderer.event"@,
        },
{
    match json::json_get(detail, "event") {
        Some(member) => diagnostic_event_name(json::json_as_str(member)),
        None => diagnostic_event_name(None),
    }
}

/// A record of the page: the event under which it is logged, and what is logged for it.
pub fn read_diagnostic(body: &str) -> (r: (String, serde_json::Value))
    ensures
        json::json_of(r.1) == record_of(json::json_parse(body@), body@),
        json::json_parse(body@) is Ok ==> json::json_of(r.1) == json::json_parse(body@)->Ok_0,
        json::json_parse(body@) is Err ==> json::member(json::json_of(r.1), "parse_error"@)
            == Some(Json::Text(json::json_parse(body@)->Err_0)) && json::member(
            json::json_of(r.1),
            "raw"@,
        ) == Some(Json::Text(body@)),
        match json::member(json::json_of(r.1), "event"@) {
            Some(Json::Text(name)) => r.0@ == "renderer."@ + sanitized(name),
            _ => r.0@ == "renderer.event"@,
        },
        r.0@ == diagnostic_event(named_event(record_of(json::json_parse(body@), body@))),
{
    let parsed: Result<serde_json::Value, String> = match json::parse_json(body) {
        Ok(value) => Ok(value),
        Err(error) => Err(json::json_error_text(&error)),
    };
    let detail: serde_json::Value = diagnostic_detail(parsed, body);
    let event: String = diagnostic_event_of(&detail);
    (event, detail)
}

/// Whether the body of a request is logged as a record of the page.
pub fn logs_record(route: Route, method: &str) -> (r: bool)
    ensures
        r == (route == Route::DiagnosticsLog && method@ == "POST"@),
{
    route == Route::DiagnosticsLog && text::same_text(method, "POST")
}

/// A record that is no JSON is logged as one that names no event, whatever it holds.
pub proof fn unreadable_records_name_no_event(error: Seq<char>, body: Seq<char>)
    ensures
        named_event(record_of(Err(error), body)) is None,
{
    reveal_strlit("parse_error");
    reveal_strlit("raw");
    reveal_strlit("event");
    assert("parse_error"@.len() != "event"@.len());
    assert("raw"@.len() != "event"@.len());
}

/// A sanitized name holds characters, and only such as can stand in it.
pub proof fn sanitized_names_are_event_names(event: Seq<char>, k: int)
    requires
        0 <= k < sanitized(event).len(),
    ensures
        is_event_char(sanitized(event)[k]),
        sanitized(event).len() == if event.len() == 0 {
            5
        } else {
            event.len()
        },
{
    reveal_strlit("event");
}

/// A sanitized name is never empty.
pub proof fn sanitized_names_are_not_empty(event: Seq<char>)
    ensures
        sanitized(event).len() > 0,
{
    reveal_strlit("event");
}

/// Sanitizing a sanitized name changes nothing.
pub proof fn sanitizing_is_idempotent(event: Seq<char>)
    ensures
        sanitized(sanitized(event)) == sanitized(event),
{
    let once = sanitized(event);
    sanitized_names_are_not_empty(event);
    assert forall|k: int| 0 <= k < once.len() implies #[trigger] sanitized(once)[k] == once[k] by {
        sanitized_names_are_event_names(event, k);
    }
    assert(sanitized(once) =~= once);
}

// ---- answers of the helper's own ---------------------------------------------------------

/// The image that is laid over the app, with its content type.
#[derive(Debug)]
pub struct OverlayImage {
    pub bytes: Vec<u8>,
    pub content_type: &'static str,
}

/// The members of the answer in JSON to a request that goes to no proxied service, if it is
/// answered in JSON.
pub open spec fn members_for(
    route: Route,
    options: bool,
    version: Seq<char>,
    has_image: bool,
) -> Option<Map<Seq<char>, Seq<char>>> {
    match route {
        Route::BackendStatus => Some(connected(version)),
        Route::BackendRepair => Some(connected(version)),
        Route::DiagnosticsLog => Some(brief("ok"@, "日志已记录"@)),
        Route::OverlayImage => if options || has_image {
            None
        } else {
            Some(brief("failed"@, "图片覆盖层未启用或图片不可用"@))
        },
        Route::Unknown => Some(brief("failed"@, "未知后端路径"@)),
        _ => None,
    }
}

/// The status of the answer to a request that goes to no proxied service.
pub open spec fn status_for(route: Route, options: bool, has_image: bool) -> Seq<char> {
    if route == Route::Unknown || (route == Route::OverlayImage && !options && !has_image) {
        "404 Not Found"@
    } else {
        "200 OK"@
    }
}

/// The event under which the answer to a request that goes to no proxied service is logged.
pub open spec fn event_for(route: Route, options: bool, has_image: bool) -> Seq<char> {
    match route {
        Route::BackendStatus => "helper.backend_status_ok"@,
        Route::BackendRepair => "helper.backend_repair_ok"@,
        Route::DiagnosticsLog => "helper.diagnostics_log_ok"@,
        Route::OverlayImage => if options {
            "helper.overlay_image_options"@
        } else if has_image {
            "helper.overlay_image_ok"@
        } else {
            "helper.overlay_image_not_found"@
        },
        _ => "helper.unknown_path"@,
    }
}

/// Whether a request to a proxied service is answered by the service.
pub open spec fn is_proxied(route: Route) -> bool {
    route == Route::ResponsesProxy || route == Route::ChatCompletionsProxy || route
        == Route::ModelsProxy
}

/// The answer to a request that goes to no proxied service.
pub open spec fn local_reply(
    route: Route,
    options: bool,
    version: Seq<char>,
    image: Option<(Seq<u8>, Seq<char>)>,
) -> Reply {
    let status = status_for(route, options, image is Some);
    let log_event = event_for(route, options, image is Some);
    match members_for(route, options, version, image is Some) {
        Some(members) => json_reply(status, members, log_event),
        None => if options {
            Reply { status, body: seq![], content_type: "application/octet-stream"@, log_event }
        } else {
            Reply { status, body: (image->0).0, content_type: (image->0).1, log_event }
        },
    }
}

/// Whether a request is answered with the image that is laid over the app, where there is one.
pub fn wants_overlay_image(route: Route, method: &str) -> (r: bool)
    ensures
        r == (route == Route::OverlayImage && method@ != "OPTIONS"@),
{
    route == Route::OverlayImage && !text::same_text(method, "OPTIONS")
}

/// The view of what may be an image.
pub open spec fn image_view(image: Option<OverlayImage>) -> Option<(Seq<u8>, Seq<char>)> {
    match image {
        Some(inner) => Some((inner.bytes@, inner.content_type@)),
        None => None,
    }
}

/// The answer to a request for the image that is laid over the app.
pub fn overlay_image_response(image: Option<OverlayImage>) -> (r: HelperReply)
    ensures
        r@ == local_reply(Route::OverlayImage, false, seq![], image_view(image)),
        image is Some ==> r.status@ == "200 OK"@ && r.body@ == image->0.bytes@ && r.content_type@
            == image->0.content_type@,
        image is None ==> r.status@ == "404 Not Found"@ && json::member_of(json::parsed_json(vstd::utf8::decode_utf8(r.body@)), "status"@) == Some(
            Json::Text("failed"@),
        ) && json::member_of(json::parsed_json(vstd::utf8::decode_utf8(r.body@)), "message"@) == Some(
            Json::Text("图片覆盖层未启用或图片不可用"@),
        ),
        image is None ==> is_json_object(
            r.body@,
            brief("failed"@, "图片覆盖层未启用或图片不可用"@),
        ),
{
    match image {
        Some(image) => HelperReply {
            status: "200 OK",
            body: image.bytes,
            content_type: image.content_type,
            log_event: "helper.overlay_image_ok",
        },
        None => HelperReply {
            status: "404 Not Found",
            body: brief_body("failed", "图片覆盖层未启用或图片不可用"),
            content_type: "application/json; charset=utf-8",
            log_event: "helper.overlay_image_not_found",
        },
    }
}

/// The answer to a request that goes to no proxied service.
pub fn answer_locally(route: Route, method: &str, version: &str, image: Option<OverlayImage>) -> (r:
    Option<HelperReply>)
    ensures
        r is None <==> is_proxied(route),
        r is None <==> route == Route::ResponsesProxy || route == Route::ChatCompletionsProxy
            || route == Route::ModelsProxy,
        r is Some ==> (r->0.status@ == "404 Not Found"@ <==> route == Route::Unknown || (route
            == Route::OverlayImage && method@ != "OPTIONS"@ && image is None)),
        r is Some ==> r->0.status@ == "404 Not Found"@ || r->0.status@ == "200 OK"@,
        route == Route::BackendStatus || route == Route::BackendRepair ==> json::member_of(json::parsed_json(vstd::utf8::decode_utf8(r->0.body@)), "status"@) == Some(
            Json::Text("ok"@),
        ) && json::member_of(json::parsed_json(vstd::utf8::decode_utf8(r->0.body@)), "message"@) == Some(
            Json::Text("后端已连接"@),
        ) && json::member_of(json::parsed_json(vstd::utf8::decode_utf8(r->0.body@)), "version"@) == Some(
            Json::Text(version@),
        ) && json::member_of(json::parsed_json(vstd::utf8::decode_utf8(r->0.body@)), "transport"@) == Some(
            Json::Text("http-helper"@),
        ),
        route == Route::DiagnosticsLog ==> json::member_of(json::parsed_json(vstd::utf8::decode_utf8(r->0.body@)), "status"@) == Some(
            Json::Text("ok"@),
        ) && json::member_of(json::parsed_json(vstd::utf8::decode_utf8(r->0.body@)), "message"@) == Some(
            Json::Text("日志已记录"@),
        ),
        route == Route::Unknown ==> json::member_of(json::parsed_json(vstd::utf8::decode_utf8(r->0.body@)), "status"@) == Some(
            Json::Text("failed"@),
        ) && json::member_of(json::parsed_json(vstd::utf8::decode_utf8(r->0.body@)), "message"@) == Some(
            Json::Text("未知后端路径"@),
        ),
        route == Route::OverlayImage && method@ == "OPTIONS"@ ==> r->0.body@.len() == 0,
        route == Route::OverlayImage && method@ != "OPTIONS"@ && image is Some ==> r->0.body@
            == image->0.bytes@ && r->0.content_type@ == image->0.content_type@,
        route == Route::OverlayImage && method@ != "OPTIONS"@ && image is None ==> json::member_of(json::parsed_json(vstd::utf8::decode_utf8(r->0.body@)), "status"@) == Some(
            Json::Text("failed"@),
        ) && json::member_of(json::parsed_json(vstd::utf8::decode_utf8(r->0.body@)), "message"@) == Some(
            Json::Text("图片覆盖层未启用或图片不可用"@),
        ),
        r is Some && route != Route::OverlayImage ==> r->0.content_type@
            == "application/json; charset=utf-8"@,
        route == Route::BackendStatus ==> r->0.log_event@ == "helper.backend_status_ok"@,
        route == Route::BackendRepair ==> r->0.log_event@ == "helper.backend_repair_ok"@,
        route == Route::DiagnosticsLog ==> r->0.log_event@ == "helper.diagnostics_log_ok"@,
        route == Route::Unknown ==> r->0.log_event@ == "helper.unknown_path"@,
        route == Route::OverlayImage && method@ == "OPTIONS"@ ==> r->0.log_event@
            == "helper.overlay_image_options"@ && r->0.content_type@ == "application/octet-stream"@,
        route == Route::OverlayImage && method@ != "OPTIONS"@ ==> r->0.log_event@ == if image
            is Some {
            "helper.overlay_image_ok"@
        } else {
            "helper.overlay_image_not_found"@
        },
        r is Some ==> r->0@ == local_reply(
            route,
            method@ == "OPTIONS"@,
            version@,
            image_view(image),
        ),
        r is Some ==> match members_for(
            route,
            method@ == "OPTIONS"@,
            version@,
            image is Some,
        ) {
            Some(members) => is_json_object(r->0.body@, members),
            None => true,
        },
{
    proof {
        reveal_strlit("200 OK");
        reveal_strlit("404 Not Found");
        assert("200 OK"@[0] == '2' && "404 Not Found"@[0] == '4');
    }
    let json = "application/json; charset=utf-8";
    match route {
        Route::ResponsesProxy => None,
        Route::ChatCompletionsProxy => None,
        Route::ModelsProxy => None,
        Route::BackendStatus => Some(
            HelperReply {
                status: "200 OK",
                body: connected_body(version),
                content_type: json,
                log_event: "helper.backend_status_ok",
            },
        ),
        Route::BackendRepair => Some(
            HelperReply {
                status: "200 OK",
                body: connected_body(version),
                content_type: json,
                log_event: "helper.backend_repair_ok",
            },
        ),
        Route::DiagnosticsLog => Some(
            HelperReply {
                status: "200 OK",
                body: brief_body("ok", "日志已记录"),
                content_type: json,
                log_event: "helper.diagnostics_log_ok",
            },
        ),
        Route::OverlayImage => if text::same_text(method, "OPTIONS") {
            let body: Vec<u8> = Vec::new();
            assert(body@ =~= seq![]);
            Some(
                HelperReply {
                    status: "200 OK",
                    body,
                    content_type: "application/octet-stream",
                    log_event: "helper.overlay_image_options",
                },
            )
        } else {
            Some(overlay_image_response(image))
        },
        Route::Unknown => Some(
            HelperReply {
                status: "404 Not Found",
                body: brief_body("failed", "未知后端路径"),
                content_type: json,
                log_event: "helper.unknown_path",
            },
        ),
    }
}

// ---- answers on the wire -----------------------------------------------------------------

/// The head of an answer: the one to a preflight request, or the answer's own.
pub open spec fn head_lines_of(options: bool, reply: Reply) -> Seq<Seq<char>> {
    if options {
        framing::preflight_lines()
    } else {
        framing::reply_lines(reply.status, reply.content_type, reply.body.len())
    }
}

/// The answer on the wire, as its head and its body. A preflight request is answered without a
/// body.
pub fn frame_reply(method: &str, reply: HelperReply) -> (r: (String, Vec<u8>))
    ensures
        r.0@ == framing::head_with(head_lines_of(method@ == "OPTIONS"@, reply@)),
        method@ == "OPTIONS"@ ==> r.0@ == framing::head_with(framing::preflight_lines()),
        method@ != "OPTIONS"@ ==> r.0@ == framing::head_with(
            framing::reply_lines(reply.status@, reply.content_type@, reply.body@.len()),
        ),
        r.1@ == if method@ == "OPTIONS"@ {
            seq![]
        } else {
            reply@.body
        },
{
    if text::same_text(method, "OPTIONS") {
        let body: Vec<u8> = Vec::new();
        assert(body@ =~= seq![]);
        (framing::preflight_head(), body)
    } else {
        (framing::reply_head(reply.status, reply.content_type, reply.body.len()), reply.body)
    }
}

/// What is sent in answer to a request, and how that is logged.
#[derive(Debug)]
pub struct HelperAnswer {
    pub status: &'static str,
    pub log_event: &'static str,
    pub head: String,
    pub body: Vec<u8>,
}

impl HelperAnswer {
    /// Whether this is sent for a reply, to a preflight request or to another.
    pub open spec fn sends(self, options: bool, reply: Reply) -> bool {
        &&& self.status@ == reply.status
        &&& self.log_event@ == reply.log_event
        &&& self.head@ == framing::head_with(head_lines_of(options, reply))
        &&& self.body@ == if options {
            seq![]
        } else {
            reply.body
        }
    }
}

/// What is sent in answer to the request, unless it goes to a proxied service. The image is the
/// one that is laid over the app, where it was asked for and is there.
pub fn answer_request(
    request: &HelperRequest,
    proxies: ProxyPaths,
    version: &str,
    image: Option<OverlayImage>,
) -> (r: Option<HelperAnswer>)
    ensures
        r is None <==> is_proxied(route_of(request.method@, request.path@, proxies)),
        r is None <==> ((proxies.responses || proxies.chat_completions) && request.method@
            == "POST"@) || (proxies.models && (request.method@ == "GET"@ || request.method@
            == "OPTIONS"@)),
        r is Some && (request.path@ == "/backend/status"@ || request.path@ == "/backend/repair"@)
            && (request.method@ == "GET"@ || request.method@ == "POST"@) ==> r->0.status@
            == "200 OK"@ && json::member_of(json::parsed_json(vstd::utf8::decode_utf8(r->0.body@)), "status"@) == Some(
            Json::Text("ok"@),
        ) && json::member_of(json::parsed_json(vstd::utf8::decode_utf8(r->0.body@)), "message"@) == Some(
            Json::Text("后端已连接"@),
        ) && json::member_of(json::parsed_json(vstd::utf8::decode_utf8(r->0.body@)), "version"@) == Some(
            Json::Text(version@),
        ) && json::member_of(json::parsed_json(vstd::utf8::decode_utf8(r->0.body@)), "transport"@) == Some(
            Json::Text("http-helper"@),
        ),
        r is Some && request.path@ == "/diagnostics/log"@ && request.method@ == "POST"@
            ==> r->0.status@ == "200 OK"@ && json::member_of(json::parsed_json(vstd::utf8::decode_utf8(r->0.body@)), "status"@) == Some(
            Json::Text("ok"@),
        ) && json::member_of(json::parsed_json(vstd::utf8::decode_utf8(r->0.body@)), "message"@) == Some(
            Json::Text("日志已记录"@),
        ),
        r is Some && request.path@ == "/overlay/image"@ && request.method@ == "GET"@ && image
            is Some ==> r->0.status@ == "200 OK"@ && r->0.body@ == image->0.bytes@,
        r is Some && request.path@ == "/overlay/image"@ && request.method@ == "GET"@ && image
            is None ==> r->0.status@ == "404 Not Found"@ && json::member_of(json::parsed_json(vstd::utf8::decode_utf8(r->0.body@)), "status"@) == Some(
            Json::Text("failed"@),
        ) && json::member_of(json::parsed_json(vstd::utf8::decode_utf8(r->0.body@)), "message"@) == Some(
            Json::Text("图片覆盖层未启用或图片不可用"@),
        ),
        r is Some && request.method@ == "OPTIONS"@ ==> r->0.body@.len() == 0,
        r is Some && request.method@ == "OPTIONS"@ ==> r->0.head@ == framing::head_with(
            framing::preflight_lines(),
        ),
        r is Some && request.method@ != "OPTIONS"@ && request.path@ != "/overlay/image"@
            ==> r->0.head@ == framing::head_with(
            framing::reply_lines(
                r->0.status@,
                "application/json; charset=utf-8"@,
                r->0.body@.len(),
            ),
        ),
        r is Some && request.method@ == "GET"@ && request.path@ == "/overlay/image"@ && image
            is Some ==> r->0.head@ == framing::head_with(
            framing::reply_lines("200 OK"@, image->0.content_type@, image->0.bytes@.len()),
        ),
        r is Some && request.method@ == "OPTIONS"@ ==> (r->0.status@ == "200 OK"@ <==> request.path@
            == "/backend/status"@ || request.path@ == "/backend/repair"@ || request.path@
            == "/diagnostics/log"@ || request.path@ == "/overlay/image"@),
        r is Some && !((request.path@ == "/backend/status"@ || request.path@ == "/backend/repair"@)
            && (request.method@ == "GET"@ || request.method@ == "POST"@ || request.method@
            == "OPTIONS"@)) && !(request.path@ == "/diagnostics/log"@ && (request.method@
            == "POST"@ || request.method@ == "OPTIONS"@)) && !(request.path@ == "/overlay/image"@
            && (request.method@ == "GET"@ || request.method@ == "OPTIONS"@)) ==> r->0.status@
            == "404 Not Found"@ && r->0.log_event@ == "helper.unknown_path"@,
        r is Some && r->0.log_event@ == "helper.unknown_path"@ && request.method@ != "OPTIONS"@
            ==> json::member_of(json::parsed_json(vstd::utf8::decode_utf8(r->0.body@)), "status"@) == Some(
            Json::Text("failed"@),
        ) && json::member_of(json::parsed_json(vstd::utf8::decode_utf8(r->0.body@)), "message"@) == Some(
            Json::Text("未知后端路径"@),
        ),
        r is Some ==> r->0.sends(
            request.method@ == "OPTIONS"@,
            local_reply(
                route_of(request.method@, request.path@, proxies),
                request.method@ == "OPTIONS"@,
                version@,
                image_view(image),
            ),
        ),
        r is Some && request.method@ != "OPTIONS"@ ==> match members_for(
            route_of(request.method@, request.path@, proxies),
            false,
            version@,
            image is Some,
        ) {
            Some(members) => is_json_object(r->0.body@, members),
            None => true,
        },
{
    proof {
        reveal_strlit("200 OK");
        reveal_strlit("404 Not Found");
        assert("200 OK"@[0] == '2' && "404 Not Found"@[0] == '4');
        reveal_strlit("GET");
        reveal_strlit("POST");
        reveal_strlit("OPTIONS");
        assert("GET"@.len() == 3 && "POST"@.len() == 4 && "OPTIONS"@.len() == 7);
        reveal_strlit("helper.unknown_path");
        reveal_strlit("helper.backend_status_ok");
        reveal_strlit("helper.backend_repair_ok");
        reveal_strlit("helper.diagnostics_log_ok");
        reveal_strlit("helper.overlay_image_ok");
        reveal_strlit("helper.overlay_image_options");
        reveal_strlit("helper.overlay_image_not_found");
        assert("helper.unknown_path"@[7] == 'u' && "helper.backend_status_ok"@[7] == 'b'
            && "helper.backend_repair_ok"@[7] == 'b' && "helper.diagnostics_log_ok"@[7] == 'd'
            && "helper.overlay_image_ok"@[7] == 'o' && "helper.overlay_image_options"@[7] == 'o'
            && "helper.overlay_image_not_found"@[7] == 'o');
    }
    let route: Route = route_request(request.method.as_str(), request.path.as_str(), proxies);
    match answer_locally(route, request.method.as_str(), version, image) {
        Some(reply) => {
            let status = reply.status;
            let log_event = reply.log_event;
            let (head, body) = frame_reply(request.method.as_str(), reply);
            Some(HelperAnswer { status, log_event, head, body })
        },
        None => None,
    }
}

/// A reader of an answer of the helper's own finds its body behind its head, and the length of
/// the body in the head, whatever the body holds.
pub proof fn local_replies_are_read_back(
    route: Route,
    version: Seq<char>,
    image: Option<(Seq<u8>, Seq<char>)>,
    body: Seq<char>,
)
    requires
        image is Some ==> !(image->0).1.contains('\n'),
        !is_proxied(route),
    ensures
        ({
            let reply = local_reply(route, false, version, image);
            let message = framing::head_with(head_lines_of(false, reply)) + body;
            reply.body.len() <= usize::MAX ==> {
                &&& http::body_of(message) == body
                &&& http::content_length(http::head_of(message)) == Some(reply.body.len() as usize)
            }
        }),
{
    let reply = local_reply(route, false, version, image);
    reveal_strlit("200 OK");
    reveal_strlit("404 Not Found");
    reveal_strlit("application/json; charset=utf-8");
    if reply.body.len() <= usize::MAX {
        framing::reply_declares_its_length(
            reply.status,
            reply.content_type,
            reply.body.len() as usize,
        );
        framing::head_ends_behind_its_lines(head_lines_of(false, reply), body);
    }
}

} // verus!
