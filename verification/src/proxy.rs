//! The proxied services: what is made of an upstream's reply.
use vstd::prelude::*;

use crate::framing;
use crate::helper;
use crate::helper::{HelperReply, Route};
use crate::json;
use crate::json::Json;
use crate::text;

verus! {

/// A proxied service.
#[derive(Debug, Clone, Copy, PartialEq, Eq, Structural)]
pub enum ProxyService {
    Responses,
    ChatCompletions,
    Models,
}

/// The proxied service that a request goes to, if it goes to one.
pub fn proxied_service(route: Route) -> (r: Option<ProxyService>)
    ensures
        r is Some <==> helper::is_proxied(route),
        route == Route::ResponsesProxy ==> r == Some(ProxyService::Responses),
        route == Route::ChatCompletionsProxy ==> r == Some(ProxyService::ChatCompletions),
        route == Route::ModelsProxy ==> r == Some(ProxyService::Models),
{
    match route {
        Route::ResponsesProxy => Some(ProxyService::Responses),
        Route::ChatCompletionsProxy => Some(ProxyService::ChatCompletions),
        Route::ModelsProxy => Some(ProxyService::Models),
        _ => None,
    }
}

/// The protocol that an upstream speaks.
#[derive(Debug, Clone, Copy, PartialEq, Eq, Structural)]
pub enum UpstreamWireApi {
    Responses,
    Chat,
}

/// What is known of an upstream's reply before its body comes.
#[derive(Debug)]
pub struct UpstreamHead {
    pub status: String,
    pub is_success: bool,
    pub is_stream: bool,
    pub content_type: String,
    pub wire_api: UpstreamWireApi,
}

/// What becomes of an upstream's body.
#[derive(Debug, Clone, Copy, PartialEq, Eq, Structural)]
pub enum BodyHandling {
    /// It is handed on.
    Relay,
    /// It is an error, handed on as the service's own.
    ConvertError,
    /// It is a chat completion, handed on as a response.
    ConvertResponse,
    /// Each chunk is handed on, and a chunk that fails to come breaks the connection.
    RelayStrictStream,
    /// Each chunk is handed on, and a chunk that fails to come ends the reply.
    RelayStream,
    /// The chunks are those of a chat completion, handed on as those of a response.
    ConvertStream,
}

/// What is made of an upstream's reply.
#[derive(Debug)]
pub struct ProxyPlan {
    pub status: String,
    pub content_type: String,
    pub handling: BodyHandling,
    pub log_event: &'static str,
}

/// `ProxyPlan`, over sequences of characters.
pub struct Handover {
    pub status: Seq<char>,
    pub content_type: Seq<char>,
    pub handling: BodyHandling,
    pub log_event: Seq<char>,
}

impl View for ProxyPlan {
    type V = Handover;

    open spec fn view(&self) -> Handover {
        Handover {
            status: self.status@,
            content_type: self.content_type@,
            handling: self.handling,
            log_event: self.log_event@,
        }
    }
}

/// The content type that an upstream gives, or that of JSON where it gives none.
pub open spec fn content_type_or_json(content_type: Seq<char>) -> Seq<char> {
    if content_type.len() == 0 {
        helper::json_type()
    } else {
        content_type
    }
}

/// What is made of the reply of an upstream for the models.
pub open spec fn models_handover(head: UpstreamHead) -> Handover {
    Handover {
        status: head.status@,
        content_type: content_type_or_json(head.content_type@),
        handling: BodyHandling::Relay,
        log_event: if head.is_success {
            "helper.models_proxy_ok"@
        } else {
            "helper.models_proxy_upstream_error"@
        },
    }
}

/// What is made of the reply of an upstream for chat completions: a stream is handed on as one
/// only where it reports success.
pub open spec fn chat_handover(head: UpstreamHead) -> Handover {
    Handover {
        status: head.status@,
        content_type: content_type_or_json(head.content_type@),
        handling: if head.is_stream && head.is_success {
            BodyHandling::RelayStrictStream
        } else {
            BodyHandling::Relay
        },
        log_event: if !head.is_success {
            "helper.chat_completions_proxy_upstream_error"@
        } else if head.is_stream {
            "helper.chat_completions_proxy_stream_ok"@
        } else {
            "helper.chat_completions_proxy_ok"@
        },
    }
}

/// What is made of the reply of an upstream for responses: an error becomes the service's own,
/// and what an upstream for chat completions replies becomes a response.
pub open spec fn responses_handover(head: UpstreamHead) -> Handover {
    if !head.is_success {
        Handover {
            status: head.status@,
            content_type: helper::json_type(),
            handling: BodyHandling::ConvertError,
            log_event: "helper.protocol_proxy_upstream_error"@,
        }
    } else if head.is_stream {
        Handover {
            status: "200 OK"@,
            content_type: "text/event-stream; charset=utf-8"@,
            handling: match head.wire_api {
                UpstreamWireApi::Responses => BodyHandling::RelayStream,
                UpstreamWireApi::Chat => BodyHandling::ConvertStream,
            },
            log_event: "helper.protocol_proxy_stream_ok"@,
        }
    } else {
        match head.wire_api {
            UpstreamWireApi::Responses => Handover {
                status: "200 OK"@,
                content_type: content_type_or_json(head.content_type@),
                handling: BodyHandling::Relay,
                log_event: "helper.protocol_proxy_ok"@,
            },
            UpstreamWireApi::Chat => Handover {
                status: "200 OK"@,
                content_type: helper::json_type(),
                handling: BodyHandling::ConvertResponse,
                log_event: "helper.protocol_proxy_ok"@,
            },
        }
    }
}

/// What is made of an upstream's reply.
pub open spec fn handover(service: ProxyService, head: UpstreamHead) -> Handover {
    match service {
        ProxyService::Responses => responses_handover(head),
        ProxyService::ChatCompletions => chat_handover(head),
        ProxyService::Models => models_handover(head),
    }
}

/// The content type that the upstream gives, or that of JSON where it gives none.
fn relayed_content_type(content_type: &str) -> (r: String)
    ensures
        r@ == content_type_or_json(content_type@),
        content_type@.len() > 0 ==> r@ == content_type@,
        content_type@.len() == 0 ==> r@ == "application/json; charset=utf-8"@,
{
    if content_type.is_empty() {
        "application/json; charset=utf-8".to_string()
    } else {
        content_type.to_string()
    }
}

fn plan_responses_reply(head: &UpstreamHead) -> (r: ProxyPlan)
    ensures
        r@ == responses_handover(*head),
        !head.is_success ==> r.status@ == head.status@,
        head.is_success ==> r.status@ == "200 OK"@,
        r.handling == BodyHandling::ConvertError <==> !head.is_success,
{
    if !head.is_success {
        ProxyPlan {
            status: head.status.clone(),
            content_type: "application/json; charset=utf-8".to_string(),
            handling: BodyHandling::ConvertError,
            log_event: "helper.protocol_proxy_upstream_error",
        }
    } else if head.is_stream {
        let handling: BodyHandling = match head.wire_api {
            UpstreamWireApi::Responses => BodyHandling::RelayStream,
            UpstreamWireApi::Chat => BodyHandling::ConvertStream,
        };
        ProxyPlan {
            status: "200 OK".to_string(),
            content_type: "text/event-stream; charset=utf-8".to_string(),
            handling,
            log_event: "helper.protocol_proxy_stream_ok",
        }
    } else {
        match head.wire_api {
            UpstreamWireApi::Responses => ProxyPlan {
                status: "200 OK".to_string(),
                content_type: relayed_content_type(head.content_type.as_str()),
                handling: BodyHandling::Relay,
                log_event: "helper.protocol_proxy_ok",
            },
            UpstreamWireApi::Chat => ProxyPlan {
                status: "200 OK".to_string(),
                content_type: "application/json; charset=utf-8".to_string(),
                handling: BodyHandling::ConvertResponse,
                log_event: "helper.protocol_proxy_ok",
            },
        }
    }
}

fn plan_chat_reply(head: &UpstreamHead) -> (r: ProxyPlan)
    ensures
        r@ == chat_handover(*head),
        r.status@ == head.status@,
        r.handling == BodyHandling::RelayStrictStream || r.handling == BodyHandling::Relay,
        r.handling == BodyHandling::RelayStrictStream <==> head.is_success && head.is_stream,
{
    let content_type: String = relayed_content_type(head.content_type.as_str());
    let status: String = head.status.clone();
    if head.is_stream && head.is_success {
        ProxyPlan {
            status,
            content_type,
            handling: BodyHandling::RelayStrictStream,
            log_event: "helper.chat_completions_proxy_stream_ok",
        }
    } else {
        ProxyPlan {
            status,
            content_type,
            handling: BodyHandling::Relay,
            log_event: if head.is_success {
                "helper.chat_completions_proxy_ok"
            } else {
                "helper.chat_completions_proxy_upstream_error"
            },
        }
    }
}

fn plan_models_reply(head: &UpstreamHead) -> (r: ProxyPlan)
    ensures
        r@ == models_handover(*head),
        r.status@ == head.status@,
        r.handling == BodyHandling::Relay,
{
    ProxyPlan {
        status: head.status.clone(),
        content_type: relayed_content_type(head.content_type.as_str()),
        handling: BodyHandling::Relay,
        log_event: if head.is_success {
            "helper.models_proxy_ok"
        } else {
            "helper.models_proxy_upstream_error"
        },
    }
}

/// What is made of the upstream's reply.
pub fn plan_proxy_reply(service: ProxyService, head: &UpstreamHead) -> (r: ProxyPlan)
    ensures
        r@ == handover(service, *head),
        !head.is_success ==> r.status@ == head.status@,
        service != ProxyService::Responses ==> r.status@ == head.status@,
        service == ProxyService::Responses && head.is_success ==> r.status@ == "200 OK"@,
        service == ProxyService::Models ==> r.handling == BodyHandling::Relay,
        service == ProxyService::ChatCompletions ==> (r.handling == BodyHandling::RelayStrictStream
            <==> head.is_success && head.is_stream),
        r.handling == BodyHandling::ConvertError <==> service == ProxyService::Responses
            && !head.is_success,
        r.handling == BodyHandling::ConvertStream <==> service == ProxyService::Responses
            && head.is_success && head.is_stream && head.wire_api == UpstreamWireApi::Chat,
        r.handling == BodyHandling::ConvertResponse <==> service == ProxyService::Responses
            && head.is_success && !head.is_stream && head.wire_api == UpstreamWireApi::Chat,
        service != ProxyService::Responses && head.content_type@.len() > 0 ==> r.content_type@
            == head.content_type@,
        service != ProxyService::Responses && head.content_type@.len() == 0 ==> r.content_type@
            == "application/json; charset=utf-8"@,
{
    match service {
        ProxyService::Responses => plan_responses_reply(head),
        ProxyService::ChatCompletions => plan_chat_reply(head),
        ProxyService::Models => plan_models_reply(head),
    }
}

// ---- without an upstream -----------------------------------------------------------------

/// The answer where no upstream could be reached.
pub open spec fn unreachable_reply(service: ProxyService, message: Seq<char>) -> helper::Reply {
    helper::json_reply(
        "502 Bad Gateway"@,
        helper::brief("failed"@, message),
        match service {
            ProxyService::Responses => "helper.protocol_proxy_failed"@,
            ProxyService::ChatCompletions => "helper.chat_completions_proxy_failed"@,
            ProxyService::Models => "helper.models_proxy_failed"@,
        },
    )
}

/// The answer where no upstream could be reached.
pub fn answer_unreachable(service: ProxyService, message: &str) -> (r: HelperReply)
    ensures
        r@ == unreachable_reply(service, message@),
        r.status@ == "502 Bad Gateway"@,
        r.content_type@ == "application/json; charset=utf-8"@,
        json::member_of(json::parsed_json(vstd::utf8::decode_utf8(r.body@)), "status"@) == Some(
            Json::Text("failed"@),
        ),
        json::member_of(json::parsed_json(vstd::utf8::decode_utf8(r.body@)), "message"@) == Some(
            Json::Text(message@),
        ),
        helper::is_json_object(r.body@, helper::brief("failed"@, message@)),
{
    HelperReply {
        status: "502 Bad Gateway",
        body: helper::brief_body("failed", message),
        content_type: "application/json; charset=utf-8",
        log_event: match service {
            ProxyService::Responses => "helper.protocol_proxy_failed",
            ProxyService::ChatCompletions => "helper.chat_completions_proxy_failed",
            ProxyService::Models => "helper.models_proxy_failed",
        },
    }
}

/// Whether a request to a proxied service is a preflight request, for which no upstream is
/// asked.
pub fn is_preflight(service: ProxyService, method: &str) -> (r: bool)
    ensures
        r == (service == ProxyService::Models && method@ == "OPTIONS"@),
{
    service == ProxyService::Models && text::same_text(method, "OPTIONS")
}

/// The head of the answer to a preflight request to a proxied service.
pub fn service_preflight_head() -> (r: String)
    ensures
        r@ == framing::head_with(framing::reply_lines("204 No Content"@, helper::json_type(), 0)),
{
    framing::reply_head("204 No Content", "application/json; charset=utf-8", 0)
}

// ---- requests and replies in JSON --------------------------------------------------------

/// What a client asks for, if that is JSON.
pub fn request_json(body: &str) -> (r: Option<serde_json::Value>)
    ensures
        match r {
            Some(value) => json::parsed_json(body@) == Some(json::json_of(value)),
            None => json::parsed_json(body@) is None,
        },
{
    match json::parse_json(body) {
        Ok(value) => Some(value),
        Err(_) => None,
    }
}

/// What an upstream replied, if that is JSON.
pub fn upstream_json(body: &[u8]) -> (r: Result<serde_json::Value, serde_json::Error>)
    ensures
        match r {
            Ok(value) => vstd::utf8::valid_utf8(body@) && json::parsed_json(
                vstd::utf8::decode_utf8(body@),
            ) == Some(json::json_of(value)),
            Err(_) => !vstd::utf8::valid_utf8(body@) || json::parsed_json(
                vstd::utf8::decode_utf8(body@),
            ) is None,
        },
{
    json::json_from_slice(body)
}

// ---- streams -----------------------------------------------------------------------------

/// What came from an upstream's stream.
#[derive(Debug)]
pub enum StreamEvent {
    Chunk,
    /// A chunk failed to come, for the given reason.
    Failed(String),
    End,
}

/// What is done with it.
#[derive(Debug)]
pub enum StreamStep {
    /// The chunk is handed on.
    Write,
    /// The chunk is put into the converter, and what comes out is handed on.
    Convert,
    /// The converter is told that the stream failed, what comes out is handed on, and the reply
    /// ends.
    FailConverter { message: String, code: &'static str },
    /// The converter is told that the stream ended, what comes out is handed on, and the reply
    /// ends.
    FinishConverter,
    /// The reply ends.
    Finish,
    /// The connection breaks.
    Abort,
}

/// `StreamEvent`, over sequences of characters.
pub enum Arrival {
    Chunk,
    Failed(Seq<char>),
    End,
}

/// `StreamStep`, over sequences of characters.
pub enum Forwarding {
    Write,
    Convert,
    FailConverter { message: Seq<char>, code: Seq<char> },
    FinishConverter,
    Finish,
    Abort,
}

impl View for StreamEvent {
    type V = Arrival;

    open spec fn view(&self) -> Arrival {
        match self {
            StreamEvent::Chunk => Arrival::Chunk,
            StreamEvent::Failed(error) => Arrival::Failed(error@),
            StreamEvent::End => Arrival::End,
        }
    }
}

impl View for StreamStep {
    type V = Forwarding;

    open spec fn view(&self) -> Forwarding {
        match self {
            StreamStep::Write => Forwarding::Write,
            StreamStep::Convert => Forwarding::Convert,
            StreamStep::FailConverter { message, code } => Forwarding::FailConverter {
                message: message@,
                code: code@,
            },
            StreamStep::FinishConverter => Forwarding::FinishConverter,
            StreamStep::Finish => Forwarding::Finish,
            StreamStep::Abort => Forwarding::Abort,
        }
    }
}

/// Whether a body is handed on as a stream.
pub open spec fn streams(handling: BodyHandling) -> bool {
    match handling {
        BodyHandling::RelayStrictStream => true,
        BodyHandling::RelayStream => true,
        BodyHandling::ConvertStream => true,
        _ => false,
    }
}

/// Whether a body is handed on as a stream.
pub fn is_streamed(handling: BodyHandling) -> (r: bool)
    ensures
        r == streams(handling),
        r <==> handling == BodyHandling::RelayStrictStream || handling == BodyHandling::RelayStream
            || handling == BodyHandling::ConvertStream,
{
    match handling {
        BodyHandling::RelayStrictStream => true,
        BodyHandling::RelayStream => true,
        BodyHandling::ConvertStream => true,
        _ => false,
    }
}

/// What is done with what came from a stream.
pub open spec fn forwarding(handling: BodyHandling, arrival: Arrival) -> Forwarding {
    let converts = handling == BodyHandling::ConvertStream;
    match arrival {
        Arrival::Chunk => if converts {
            Forwarding::Convert
        } else {
            Forwarding::Write
        },
        Arrival::Failed(error) => if converts {
            Forwarding::FailConverter {
                message: "Stream error: "@ + error,
                code: "stream_error"@,
            }
        } else if handling == BodyHandling::RelayStrictStream {
            Forwarding::Abort
        } else {
            Forwarding::Finish
        },
        Arrival::End => if converts {
            Forwarding::FinishConverter
        } else {
            Forwarding::Finish
        },
    }
}

/// What is done with what came from the stream.
pub fn forward(handling: BodyHandling, event: &StreamEvent) -> (r: StreamStep)
    ensures
        r@ == forwarding(handling, event@),
        event is Chunk <==> r is Write || r is Convert,
        event is Failed && handling == BodyHandling::RelayStrictStream <==> r is Abort,
        event is Failed && handling == BodyHandling::ConvertStream <==> r is FailConverter,
        event is End && handling == BodyHandling::ConvertStream <==> r is FinishConverter,
        event is Chunk && handling == BodyHandling::ConvertStream <==> r is Convert,
        r is FailConverter ==> r->message@ == "Stream error: "@ + event->Failed_0@ && r->code@
            == "stream_error"@,
{
    let converts = handling == BodyHandling::ConvertStream;
    match event {
        StreamEvent::Chunk => if converts {
            StreamStep::Convert
        } else {
            StreamStep::Write
        },
        StreamEvent::Failed(error) => if converts {
            let mut message = "Stream error: ".to_string();
            message.append(error.as_str());
            StreamStep::FailConverter { message, code: "stream_error" }
        } else if handling == BodyHandling::RelayStrictStream {
            StreamStep::Abort
        } else {
            StreamStep::Finish
        },
        StreamEvent::End => if converts {
            StreamStep::FinishConverter
        } else {
            StreamStep::Finish
        },
    }
}

/// Whether a reply goes on after this.
pub open spec fn goes_on(step: Forwarding) -> bool {
    step is Write || step is Convert
}

/// Whether this closes the converter.
pub open spec fn closes_converter(step: Forwarding) -> bool {
    step is FailConverter || step is FinishConverter
}

/// What is done with all that comes from a stream, up to what ends the reply.
pub open spec fn forwarded(handling: BodyHandling, arrivals: Seq<Arrival>, i: int) -> Seq<
    Forwarding,
>
    decreases arrivals.len() - i,
{
    if i < 0 || i >= arrivals.len() {
        seq![]
    } else {
        let step = forwarding(handling, arrivals[i]);
        if goes_on(step) {
            seq![step] + forwarded(handling, arrivals, i + 1)
        } else {
            seq![step]
        }
    }
}

/// A stream that is handed on goes on exactly as long as chunks come.
pub proof fn stream_goes_on_while_chunks_come(handling: BodyHandling, arrival: Arrival)
    ensures
        goes_on(forwarding(handling, arrival)) <==> arrival is Chunk,
{
}

/// A converted stream of chunks that ends, or fails, is forwarded chunk by chunk, and its
/// converter is closed once, with the last step: with the failure if there was one, else with
/// the end.
pub proof fn converter_is_closed_once(arrivals: Seq<Arrival>, i: int)
    requires
        0 <= i < arrivals.len(),
        forall|k: int| i <= k < arrivals.len() - 1 ==> #[trigger] arrivals[k] is Chunk,
        !(arrivals.last() is Chunk),
    ensures
        ({
            let steps = forwarded(BodyHandling::ConvertStream, arrivals, i);
            &&& steps.len() == arrivals.len() - i
            &&& forall|k: int| 0 <= k < steps.len() - 1 ==> #[trigger] steps[k] is Convert
            &&& closes_converter(steps.last())
            &&& steps.last() is FinishConverter <==> arrivals.last() is End
        }),
    decreases arrivals.len() - i,
{
    let steps = forwarded(BodyHandling::ConvertStream, arrivals, i);
    if i + 1 < arrivals.len() {
        converter_is_closed_once(arrivals, i + 1);
        let rest = forwarded(BodyHandling::ConvertStream, arrivals, i + 1);
        assert(arrivals[i] is Chunk);
        assert(steps =~= seq![Forwarding::Convert] + rest);
        assert forall|k: int| 0 <= k < steps.len() - 1 implies #[trigger] steps[k] is Convert by {
            if k > 0 {
                assert(steps[k] == rest[k - 1]);
            }
        }
        assert(steps.last() == rest.last());
    } else {
        assert(arrivals[i] == arrivals.last());
    }
}

/// An upstream's error never reaches a client of the responses as a success, and an upstream's
/// success never as an error of the service.
pub proof fn responses_keep_errors_apart(head: UpstreamHead)
    ensures
        responses_handover(head).handling == BodyHandling::ConvertError <==> !head.is_success,
        !head.is_success ==> responses_handover(head).status == head.status@,
        head.is_success ==> responses_handover(head).status == "200 OK"@,
{
}

/// Only replies of an upstream that speaks another protocol than the client are converted.
pub proof fn only_foreign_replies_are_converted(service: ProxyService, head: UpstreamHead)
    requires
        head.is_success,
    ensures
        handover(service, head).handling == BodyHandling::ConvertStream || handover(
            service,
            head,
        ).handling == BodyHandling::ConvertResponse <==> service == ProxyService::Responses
            && head.wire_api == UpstreamWireApi::Chat,
        service != ProxyService::Models ==> (streams(handover(service, head).handling)
            <==> head.is_stream),
{
}

} // verus!
