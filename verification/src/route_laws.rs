//! What each request to the helper is answered, and what each upstream's reply becomes.
use vstd::prelude::*;

use crate::helper;
use crate::helper::{ProxyPaths, Route};
use crate::json;
use crate::json::Json;
use crate::proxy;
use crate::proxy::{Arrival, BodyHandling, Forwarding, ProxyService, UpstreamHead};
use crate::text;

verus! {

// ---- texts that differ -------------------------------------------------------------------

proof fn lemma_methods_differ()
    ensures
        "GET"@ != "POST"@,
        "GET"@ != "OPTIONS"@,
        "POST"@ != "OPTIONS"@,
{
    reveal_strlit("GET");
    reveal_strlit("POST");
    reveal_strlit("OPTIONS");
    assert("GET"@.len() == 3 && "POST"@.len() == 4 && "OPTIONS"@.len() == 7);
}

proof fn lemma_paths_differ()
    ensures
        "/backend/status"@ != "/backend/repair"@,
        "/backend/status"@ != "/diagnostics/log"@,
        "/backend/status"@ != "/overlay/image"@,
        "/backend/repair"@ != "/diagnostics/log"@,
        "/backend/repair"@ != "/overlay/image"@,
        "/diagnostics/log"@ != "/overlay/image"@,
{
    reveal_strlit("/backend/status");
    reveal_strlit("/backend/repair");
    reveal_strlit("/diagnostics/log");
    reveal_strlit("/overlay/image");
    assert("/backend/status"@[9] == 's' && "/backend/repair"@[9] == 'r');
    assert("/backend/status"@[1] == 'b' && "/backend/repair"@[1] == 'b' && "/diagnostics/log"@[1]
        == 'd' && "/overlay/image"@[1] == 'o');
}

// ---- the backend is connected ------------------------------------------------------------

proof fn lemma_connected(version: Seq<char>)
    ensures
        helper::connected(version) == map!["status"@ => "ok"@, "message"@ => "后端已连接"@, "version"@
            => version, "transport"@ => "http-helper"@],
{
    assert(helper::connected(version) =~= map!["status"@ => "ok"@, "message"@ => "后端已连接"@,
        "version"@ => version, "transport"@ => "http-helper"@]);
}

proof fn lemma_brief(status: Seq<char>, message: Seq<char>)
    ensures
        helper::brief(status, message) == map!["status"@ => status, "message"@ => message],
{
    assert(helper::brief(status, message) =~= map!["status"@ => status, "message"@ => message]);
}

/// `GET /backend/status` is answered that the backend is connected, unless a proxied service
/// takes it.
pub proof fn get_backend_status_tells_connected(
    proxies: ProxyPaths,
    version: Seq<char>,
    image: Option<(Seq<u8>, Seq<char>)>,
)
    requires
        !proxies.models,
    ensures
        ({
            let reply = helper::local_reply(
                helper::route_of("GET"@, "/backend/status"@, proxies),
                false,
                version,
                image,
            );
            &&& reply.status == "200 OK"@
            &&& reply.content_type == "application/json; charset=utf-8"@
            &&& reply.log_event == "helper.backend_status_ok"@
            &&& reply.body == json::json_bytes(
                json::text_object(
                    map!["status"@ => "ok"@, "message"@ => "后端已连接"@, "version"@ => version,
                        "transport"@ => "http-helper"@],
                ),
            )
        }),
{
    lemma_methods_differ();
    lemma_paths_differ();
    lemma_connected(version);
    lemma_brief("ok"@, "日志已记录"@);
    lemma_brief("failed"@, "图片覆盖层未启用或图片不可用"@);
}

/// `POST /backend/status` is answered that the backend is connected, unless a proxied service
/// takes it.
pub proof fn post_backend_status_tells_connected(
    proxies: ProxyPaths,
    version: Seq<char>,
    image: Option<(Seq<u8>, Seq<char>)>,
)
    requires
        !proxies.responses,
        !proxies.chat_completions,
    ensures
        ({
            let reply = helper::local_reply(
                helper::route_of("POST"@, "/backend/status"@, proxies),
                false,
                version,
                image,
            );
            &&& reply.status == "200 OK"@
            &&& reply.content_type == "application/json; charset=utf-8"@
            &&& reply.log_event == "helper.backend_status_ok"@
            &&& reply.body == json::json_bytes(
                json::text_object(
                    map!["status"@ => "ok"@, "message"@ => "后端已连接"@, "version"@ => version,
                        "transport"@ => "http-helper"@],
                ),
            )
        }),
{
    lemma_methods_differ();
    lemma_paths_differ();
    lemma_connected(version);
    lemma_brief("ok"@, "日志已记录"@);
    lemma_brief("failed"@, "图片覆盖层未启用或图片不可用"@);
}

/// `OPTIONS /backend/status` is answered that the backend is connected, unless a proxied service
/// takes it.
pub proof fn options_backend_status_tells_connected(
    proxies: ProxyPaths,
    version: Seq<char>,
    image: Option<(Seq<u8>, Seq<char>)>,
)
    requires
        !proxies.models,
    ensures
        ({
            let reply = helper::local_reply(
                helper::route_of("OPTIONS"@, "/backend/status"@, proxies),
                true,
                version,
                image,
            );
            &&& reply.status == "200 OK"@
            &&& reply.content_type == "application/json; charset=utf-8"@
            &&& reply.log_event == "helper.backend_status_ok"@
            &&& reply.body == json::json_bytes(
                json::text_object(
                    map!["status"@ => "ok"@, "message"@ => "后端已连接"@, "version"@ => version,
                        "transport"@ => "http-helper"@],
                ),
            )
        }),
{
    lemma_methods_differ();
    lemma_paths_differ();
    lemma_connected(version);
    lemma_brief("ok"@, "日志已记录"@);
    lemma_brief("failed"@, "图片覆盖层未启用或图片不可用"@);
}

/// `GET /backend/repair` is answered that the backend is connected, unless a proxied service
/// takes it.
pub proof fn get_backend_repair_tells_connected(
    proxies: ProxyPaths,
    version: Seq<char>,
    image: Option<(Seq<u8>, Seq<char>)>,
)
    requires
        !proxies.models,
    ensures
        ({
            let reply = helper::local_reply(
                helper::route_of("GET"@, "/backend/repair"@, proxies),
                false,
                version,
                image,
            );
            &&& reply.status == "200 OK"@
            &&& reply.content_type == "application/json; charset=utf-8"@
            &&& reply.log_event == "helper.backend_repair_ok"@
            &&& reply.body == json::json_bytes(
                json::text_object(
                    map!["status"@ => "ok"@, "message"@ => "后端已连接"@, "version"@ => version,
                        "transport"@ => "http-helper"@],
                ),
            )
        }),
{
    lemma_methods_differ();
    lemma_paths_differ();
    lemma_connected(version);
    lemma_brief("ok"@, "日志已记录"@);
    lemma_brief("failed"@, "图片覆盖层未启用或图片不可用"@);
}

/// `POST /backend/repair` is answered that the backend is connected, unless a proxied service
/// takes it.
pub proof fn post_backend_repair_tells_connected(
    proxies: ProxyPaths,
    version: Seq<char>,
    image: Option<(Seq<u8>, Seq<char>)>,
)
    requires
        !proxies.responses,
        !proxies.chat_completions,
    ensures
        ({
            let reply = helper::local_reply(
                helper::route_of("POST"@, "/backend/repair"@, proxies),
                false,
                version,
                image,
            );
            &&& reply.status == "200 OK"@
            &&& reply.content_type == "application/json; charset=utf-8"@
            &&& reply.log_event == "helper.backend_repair_ok"@
            &&& reply.body == json::json_bytes(
                json::text_object(
                    map!["status"@ => "ok"@, "message"@ => "后端已连接"@, "version"@ => version,
                        "transport"@ => "http-helper"@],
                ),
            )
        }),
{
    lemma_methods_differ();
    lemma_paths_differ();
    lemma_connected(version);
    lemma_brief("ok"@, "日志已记录"@);
    lemma_brief("failed"@, "图片覆盖层未启用或图片不可用"@);
}

/// `OPTIONS /backend/repair` is answered that the backend is connected, unless a proxied service
/// takes it.
pub proof fn options_backend_repair_tells_connected(
    proxies: ProxyPaths,
    version: Seq<char>,
    image: Option<(Seq<u8>, Seq<char>)>,
)
    requires
        !proxies.models,
    ensures
        ({
            let reply = helper::local_reply(
                helper::route_of("OPTIONS"@, "/backend/repair"@, proxies),
                true,
                version,
                image,
            );
            &&& reply.status == "200 OK"@
            &&& reply.content_type == "application/json; charset=utf-8"@
            &&& reply.log_event == "helper.backend_repair_ok"@
            &&& reply.body == json::json_bytes(
                json::text_object(
                    map!["status"@ => "ok"@, "message"@ => "后端已连接"@, "version"@ => version,
                        "transport"@ => "http-helper"@],
                ),
            )
        }),
{
    lemma_methods_differ();
    lemma_paths_differ();
    lemma_connected(version);
    lemma_brief("ok"@, "日志已记录"@);
    lemma_brief("failed"@, "图片覆盖层未启用或图片不可用"@);
}

// ---- the log and the image ---------------------------------------------------------------

/// `POST /diagnostics/log` is answered that the record was taken, unless a proxied service
/// takes it.
pub proof fn post_diagnostics_log_tells_recorded(
    proxies: ProxyPaths,
    version: Seq<char>,
    image: Option<(Seq<u8>, Seq<char>)>,
)
    requires
        !proxies.responses,
        !proxies.chat_completions,
    ensures
        ({
            let reply = helper::local_reply(
                helper::route_of("POST"@, "/diagnostics/log"@, proxies),
                false,
                version,
                image,
            );
            &&& reply.status == "200 OK"@
            &&& reply.content_type == "application/json; charset=utf-8"@
            &&& reply.log_event == "helper.diagnostics_log_ok"@
            &&& reply.body == json::json_bytes(
                json::text_object(map!["status"@ => "ok"@, "message"@ => "日志已记录"@]),
            )
        }),
{
    lemma_methods_differ();
    lemma_paths_differ();
    lemma_connected(version);
    lemma_brief("ok"@, "日志已记录"@);
    lemma_brief("failed"@, "图片覆盖层未启用或图片不可用"@);
}

/// `OPTIONS /diagnostics/log` is answered that the record was taken, unless a proxied service
/// takes it.
pub proof fn options_diagnostics_log_tells_recorded(
    proxies: ProxyPaths,
    version: Seq<char>,
    image: Option<(Seq<u8>, Seq<char>)>,
)
    requires
        !proxies.models,
    ensures
        ({
            let reply = helper::local_reply(
                helper::route_of("OPTIONS"@, "/diagnostics/log"@, proxies),
                true,
                version,
                image,
            );
            &&& reply.status == "200 OK"@
            &&& reply.content_type == "application/json; charset=utf-8"@
            &&& reply.log_event == "helper.diagnostics_log_ok"@
            &&& reply.body == json::json_bytes(
                json::text_object(map!["status"@ => "ok"@, "message"@ => "日志已记录"@]),
            )
        }),
{
    lemma_methods_differ();
    lemma_paths_differ();
    lemma_connected(version);
    lemma_brief("ok"@, "日志已记录"@);
    lemma_brief("failed"@, "图片覆盖层未启用或图片不可用"@);
}

/// `GET /overlay/image` is answered with the image, or that there is none, unless a proxied
/// service takes it.
pub proof fn get_overlay_image_gives_the_image(
    proxies: ProxyPaths,
    version: Seq<char>,
    image: Option<(Seq<u8>, Seq<char>)>,
)
    requires
        !proxies.models,
    ensures
        ({
            let reply = helper::local_reply(
                helper::route_of("GET"@, "/overlay/image"@, proxies),
                false,
                version,
                image,
            );
            &&& image is Some ==> reply.status == "200 OK"@ && reply.body == (image->0).0
                && reply.content_type == (image->0).1 && reply.log_event
                == "helper.overlay_image_ok"@
            &&& image is None ==> reply.status == "404 Not Found"@ && reply.content_type
                == "application/json; charset=utf-8"@ && reply.log_event
                == "helper.overlay_image_not_found"@ && reply.body == json::json_bytes(
                json::text_object(
                    map!["status"@ => "failed"@, "message"@ => "图片覆盖层未启用或图片不可用"@],
                ),
            )
        }),
{
    lemma_methods_differ();
    lemma_paths_differ();
    lemma_connected(version);
    lemma_brief("ok"@, "日志已记录"@);
    lemma_brief("failed"@, "图片覆盖层未启用或图片不可用"@);
}

/// `OPTIONS /overlay/image` is answered without a body, whether there is an image or not, unless a
/// proxied service takes it.
pub proof fn options_overlay_image_gives_nothing(
    proxies: ProxyPaths,
    version: Seq<char>,
    image: Option<(Seq<u8>, Seq<char>)>,
)
    requires
        !proxies.models,
    ensures
        ({
            let reply = helper::local_reply(
                helper::route_of("OPTIONS"@, "/overlay/image"@, proxies),
                true,
                version,
                image,
            );
            &&& reply.status == "200 OK"@
            &&& reply.content_type == "application/octet-stream"@
            &&& reply.log_event == "helper.overlay_image_options"@
            &&& reply.body == Seq::<u8>::empty()
        }),
{
    lemma_methods_differ();
    lemma_paths_differ();
    lemma_connected(version);
    lemma_brief("ok"@, "日志已记录"@);
    lemma_brief("failed"@, "图片覆盖层未启用或图片不可用"@);
}

// ---- anywhere else -----------------------------------------------------------------------

/// Any other pair of a method and a path is answered that the path is unknown, unless a proxied
/// service takes it.
pub proof fn other_pairs_are_unknown(
    method: Seq<char>,
    path: Seq<char>,
    proxies: ProxyPaths,
    version: Seq<char>,
    image: Option<(Seq<u8>, Seq<char>)>,
)
    requires
        method == "POST"@ ==> !proxies.responses && !proxies.chat_completions,
        method == "GET"@ || method == "OPTIONS"@ ==> !proxies.models,
        path == "/backend/status"@ || path == "/backend/repair"@ ==> method != "GET"@ && method
            != "POST"@ && method != "OPTIONS"@,
        path == "/diagnostics/log"@ ==> method != "POST"@ && method != "OPTIONS"@,
        path == "/overlay/image"@ ==> method != "GET"@ && method != "OPTIONS"@,
    ensures
        helper::route_of(method, path, proxies) is Unknown,
        ({
            let reply = helper::local_reply(
                helper::route_of(method, path, proxies),
                method == "OPTIONS"@,
                version,
                image,
            );
            &&& reply.status == "404 Not Found"@
            &&& reply.content_type == "application/json; charset=utf-8"@
            &&& reply.log_event == "helper.unknown_path"@
            &&& reply.body == json::json_bytes(
                json::text_object(map!["status"@ => "failed"@, "message"@ => "未知后端路径"@]),
            )
        }),
{
    lemma_methods_differ();
    lemma_brief("failed"@, "未知后端路径"@);
}

/// A path of a proxied service goes to that service with the methods that the service takes: the
/// responses before the chat completions, and the models beside them.
pub proof fn services_take_their_methods(path: Seq<char>, proxies: ProxyPaths)
    ensures
        proxies.responses <==> helper::route_of("POST"@, path, proxies) is ResponsesProxy,
        proxies.chat_completions && !proxies.responses <==> helper::route_of("POST"@, path, proxies)
            is ChatCompletionsProxy,
        proxies.models <==> helper::route_of("GET"@, path, proxies) is ModelsProxy,
        proxies.models <==> helper::route_of("OPTIONS"@, path, proxies) is ModelsProxy,
        !(helper::route_of("GET"@, path, proxies) is ResponsesProxy),
        !(helper::route_of("GET"@, path, proxies) is ChatCompletionsProxy),
        !(helper::route_of("OPTIONS"@, path, proxies) is ResponsesProxy),
        !(helper::route_of("OPTIONS"@, path, proxies) is ChatCompletionsProxy),
        !(helper::route_of("POST"@, path, proxies) is ModelsProxy),
{
    lemma_methods_differ();
}

// ---- the host of the helper --------------------------------------------------------------

/// The helper listens where the user asks for, without the white space around that, and at the
/// loopback where the user asks for nothing.
pub proof fn helper_listens_where_asked(asked: Seq<char>)
    ensures
        text::trimmed(asked).len() > 0 ==> helper::bind_host(Some(asked)) == text::trimmed(asked),
        text::trimmed(asked).len() == 0 ==> helper::bind_host(Some(asked)) == "127.0.0.1"@,
        helper::bind_host(None) == "127.0.0.1"@,
{
}

// ---- names of events ---------------------------------------------------------------------

/// A name of an event keeps its length, its letters, digits, underscores, hyphens and dots, and has
/// an underscore in place of anything else.
pub proof fn sanitizing_keeps_what_can_stand(event: Seq<char>, k: int)
    requires
        0 <= k < event.len(),
    ensures
        helper::sanitized(event).len() == event.len(),
        helper::sanitized(event)[k] == if ('a' <= event[k] <= 'z') || ('A' <= event[k] <= 'Z') || (
        '0' <= event[k] <= '9') || event[k] == '_' || event[k] == '-' || event[k] == '.' {
            event[k]
        } else {
            '_'
        },
{
}

/// A record of the page is logged under the name that it gives as a text, behind `renderer.`, and
/// under `renderer.event` where it gives none or an empty one.
pub proof fn records_are_logged_under_their_names(record: Json, name: Seq<char>)
    ensures
        json::member(record, "event"@) == Some(Json::Text(name)) && name.len() > 0
            ==> helper::diagnostic_event(helper::named_event(record)) == "renderer."@
            + helper::sanitized(name),
        json::member(record, "event"@) == Some(Json::Text(name)) && name.len() == 0
            ==> helper::diagnostic_event(helper::named_event(record)) == "renderer.event"@,
        json::member(record, "event"@) is None || !(json::member(record, "event"@)->0 is Text)
            ==> helper::diagnostic_event(helper::named_event(record)) == "renderer.event"@,
{
    reveal_strlit("renderer.");
    reveal_strlit("event");
    reveal_strlit("renderer.event");
    assert("renderer."@ + "event"@ =~= "renderer.event"@);
}

/// A record that is JSON is logged as it is; of one that is not, the reason and the text are kept.
pub proof fn records_are_kept(value: Json, error: Seq<char>, body: Seq<char>)
    ensures
        helper::record_of(Ok(value), body) == value,
        json::member(helper::record_of(Err(error), body), "parse_error"@) == Some(
            Json::Text(error),
        ),
        json::member(helper::record_of(Err(error), body), "raw"@) == Some(Json::Text(body)),
{
    reveal_strlit("parse_error");
    reveal_strlit("raw");
    assert("parse_error"@.len() != "raw"@.len());
}

// ---- the reply of an upstream ------------------------------------------------------------

/// A client is told the status of the upstream, whatever it is; only a success of the responses is
/// told as a plain one.
pub proof fn clients_are_told_the_upstreams_status(service: ProxyService, head: UpstreamHead)
    ensures
        !head.is_success ==> proxy::handover(service, head).status == head.status@,
        proxy::handover(ProxyService::ChatCompletions, head).status == head.status@,
        proxy::handover(ProxyService::Models, head).status == head.status@,
        head.is_success ==> proxy::handover(ProxyService::Responses, head).status == "200 OK"@,
{
}

/// A body that is handed on as it is goes under the content type that the upstream gives, or under
/// that of JSON where it gives none; a converted body goes under that of what it becomes.
pub proof fn bodies_keep_their_content_type(service: ProxyService, head: UpstreamHead)
    ensures
        ({
            let made = proxy::handover(service, head);
            let own = if head.content_type@.len() > 0 {
                head.content_type@
            } else {
                "application/json; charset=utf-8"@
            };
            &&& service is ChatCompletions || service is Models ==> made.content_type == own
            &&& service is Responses && !head.is_success ==> made.content_type
                == "application/json; charset=utf-8"@
            &&& service is Responses && head.is_success && head.is_stream ==> made.content_type
                == "text/event-stream; charset=utf-8"@
            &&& service is Responses && head.is_success && !head.is_stream && head.wire_api is Chat
                ==> made.content_type == "application/json; charset=utf-8"@
            &&& service is Responses && head.is_success && !head.is_stream && head.wire_api
                is Responses ==> made.content_type == own
        }),
{
}

/// A body is handed on as it is, unless it is an error of the responses, a reply of an upstream
/// for chat completions to a client of the responses, or a stream that reports success.
pub proof fn bodies_are_handed_on(service: ProxyService, head: UpstreamHead)
    ensures
        ({
            let made = proxy::handover(service, head).handling;
            &&& service is Models ==> made is Relay
            &&& service is ChatCompletions ==> (made is RelayStrictStream <==> head.is_success
                && head.is_stream) && (made is Relay <==> !(head.is_success && head.is_stream))
            &&& made is ConvertError <==> service is Responses && !head.is_success
            &&& made is ConvertStream <==> service is Responses && head.is_success
                && head.is_stream && head.wire_api is Chat
            &&& made is RelayStream <==> service is Responses && head.is_success && head.is_stream
                && head.wire_api is Responses
            &&& made is ConvertResponse <==> service is Responses && head.is_success
                && !head.is_stream && head.wire_api is Chat
        }),
{
}

/// Each reply of an upstream is logged under an event of its service, which tells an error from a
/// success and a stream from another body.
pub proof fn upstream_replies_are_logged(service: ProxyService, head: UpstreamHead)
    ensures
        ({
            let logged = proxy::handover(service, head).log_event;
            &&& service is Models && head.is_success ==> logged == "helper.models_proxy_ok"@
            &&& service is Models && !head.is_success ==> logged
                == "helper.models_proxy_upstream_error"@
            &&& service is ChatCompletions && !head.is_success ==> logged
                == "helper.chat_completions_proxy_upstream_error"@
            &&& service is ChatCompletions && head.is_success && head.is_stream ==> logged
                == "helper.chat_completions_proxy_stream_ok"@
            &&& service is ChatCompletions && head.is_success && !head.is_stream ==> logged
                == "helper.chat_completions_proxy_ok"@
            &&& service is Responses && !head.is_success ==> logged
                == "helper.protocol_proxy_upstream_error"@
            &&& service is Responses && head.is_success && head.is_stream ==> logged
                == "helper.protocol_proxy_stream_ok"@
            &&& service is Responses && head.is_success && !head.is_stream ==> logged
                == "helper.protocol_proxy_ok"@
        }),
{
}

/// Where no upstream can be reached, the client is told that the gateway failed, and why, and that
/// is logged under an event of the service.
pub proof fn unreachable_upstreams_are_told(service: ProxyService, message: Seq<char>)
    ensures
        ({
            let reply = proxy::unreachable_reply(service, message);
            &&& reply.status == "502 Bad Gateway"@
            &&& reply.content_type == "application/json; charset=utf-8"@
            &&& reply.body == json::json_bytes(
                json::text_object(map!["status"@ => "failed"@, "message"@ => message]),
            )
            &&& service is Responses ==> reply.log_event == "helper.protocol_proxy_failed"@
            &&& service is ChatCompletions ==> reply.log_event
                == "helper.chat_completions_proxy_failed"@
            &&& service is Models ==> reply.log_event == "helper.models_proxy_failed"@
        }),
{
    lemma_brief("failed"@, message);
}

// ---- streams -----------------------------------------------------------------------------

/// A chunk is handed on, through the converter exactly where the stream is converted.
pub proof fn chunks_are_handed_on(handling: BodyHandling)
    ensures
        handling is ConvertStream ==> proxy::forwarding(handling, Arrival::Chunk) is Convert,
        !(handling is ConvertStream) ==> proxy::forwarding(handling, Arrival::Chunk) is Write,
{
}

/// The end of a stream ends the reply, through the converter exactly where the stream is
/// converted.
pub proof fn end_of_stream_ends_the_reply(handling: BodyHandling)
    ensures
        handling is ConvertStream ==> proxy::forwarding(handling, Arrival::End) is FinishConverter,
        !(handling is ConvertStream) ==> proxy::forwarding(handling, Arrival::End) is Finish,
{
}

/// A failure of a stream breaks the connection of a strict one, is told through the converter of a
/// converted one, with its reason, and ends the reply of any other.
pub proof fn failure_of_stream_is_told(handling: BodyHandling, error: Seq<char>)
    ensures
        ({
            let step = proxy::forwarding(handling, Arrival::Failed(error));
            &&& handling is RelayStrictStream ==> step is Abort
            &&& handling is ConvertStream ==> step == (Forwarding::FailConverter {
                message: "Stream error: "@ + error,
                code: "stream_error"@,
            })
            &&& !(handling is RelayStrictStream) && !(handling is ConvertStream) ==> step is Finish
        }),
{
}

} // verus!
