//! The exchange with the API: what is sent, when, and what an answer means.
//!
//! The transport does no I/O. `prepare` books the caller's turn with the rate
//! limiter and says what to send; the caller waits, sends, and hands the
//! answer's status and body back to `on_head` and `on_body`.

use vstd::prelude::*;
use vstd::utf8::encode_utf8;
use serde_json::Value;
use crate::conversation::{EnvelopeView, RequestEnvelope};
use crate::document::{count_at, read_count, read_text, text_at};
use crate::json::{json_document, json_quoted, parse_document, quote};
use crate::limiter::{LimiterView, RateLimiter};
use crate::message::{message_views, role_named, Message, MessageView, Role};

verus! {

/// How many tokens an exchange took.
#[derive(Clone, Copy, Debug, PartialEq, Eq, Structural)]
pub struct Usage {
    pub prompt_tokens: u32,
    pub completion_tokens: u32,
    pub total_tokens: u32,
}

/// An answer that came in one piece.
#[derive(Debug)]
pub struct ResponseEnvelope {
    /// The identifier that the API gave the answer.
    pub id: String,
    /// The model that answered.
    pub model: String,
    /// What the exchange took.
    pub usage: Usage,
    /// The answer: the message of the first choice.
    pub message: Message,
}

/// An answer as a plain value.
pub struct ResponseView {
    pub id: Seq<char>,
    pub model: Seq<char>,
    pub usage: Usage,
    pub message: MessageView,
}

impl View for ResponseEnvelope {
    type V = ResponseView;

    open spec fn view(&self) -> ResponseView {
        ResponseView {
            id: self.id@,
            model: self.model@,
            usage: self.usage,
            message: self.message@,
        }
    }
}

/// Why a request brought no answer.
#[derive(Debug)]
pub enum TransportError {
    /// The exchange failed below HTTP: no connection, a timeout.
    NetworkError { reason: String },
    /// The API answered with a status outside 200 to 299. `body` is the whole
    /// body as it came.
    ApiRejected { status: u16, body: String },
    /// The API answered with success, but the body is not an answer.
    MalformedResponse,
}

/// An error as a plain value.
pub enum ErrorView {
    NetworkError { reason: Seq<char> },
    ApiRejected { status: u16, body: Seq<char> },
    MalformedResponse,
}

impl View for TransportError {
    type V = ErrorView;

    open spec fn view(&self) -> ErrorView {
        match self {
            TransportError::NetworkError { reason } => ErrorView::NetworkError { reason: reason@ },
            TransportError::ApiRejected { status, body } => ErrorView::ApiRejected {
                status: *status,
                body: body@,
            },
            TransportError::MalformedResponse => ErrorView::MalformedResponse,
        }
    }
}

impl PartialEq for TransportError {
    fn eq(&self, other: &Self) -> (same: bool) {
        match (self, other) {
            (
                TransportError::NetworkError { reason: mine },
                TransportError::NetworkError { reason: theirs },
            ) => *mine == *theirs,
            (
                TransportError::ApiRejected { status: my_status, body: my_body },
                TransportError::ApiRejected { status: their_status, body: their_body },
            ) => *my_status == *their_status && *my_body == *their_body,
            (TransportError::MalformedResponse, TransportError::MalformedResponse) => true,
            _ => false,
        }
    }
}

impl vstd::std_specs::cmp::PartialEqSpecImpl for TransportError {
    open spec fn obeys_eq_spec() -> bool {
        true
    }

    open spec fn eq_spec(&self, other: &Self) -> bool {
        self@ == other@
    }
}

/// One header of a request.
#[derive(Debug)]
pub struct Header {
    pub name: String,
    pub value: String,
}

/// A header as a plain value.
pub struct HeaderView {
    pub name: Seq<char>,
    pub value: Seq<char>,
}

impl View for Header {
    type V = HeaderView;

    open spec fn view(&self) -> HeaderView {
        HeaderView { name: self.name@, value: self.value@ }
    }
}

/// The views of a vector of headers.
pub open spec fn header_views(headers: Seq<Header>) -> Seq<HeaderView> {
    headers.map_values(|h: Header| h@)
}

/// What to send, and when.
#[derive(Debug)]
pub struct PreparedRequest {
    /// How long to wait before sending, in milliseconds.
    pub delay_ms: u64,
    /// Where to `POST` the body.
    pub url: String,
    /// The headers, in order.
    pub headers: Vec<Header>,
    /// The body: the envelope as JSON text.
    pub body: String,
}

/// A prepared request as a plain value.
pub struct PreparedView {
    pub delay_ms: u64,
    pub url: Seq<char>,
    pub headers: Seq<HeaderView>,
    pub body: Seq<char>,
}

impl View for PreparedRequest {
    type V = PreparedView;

    open spec fn view(&self) -> PreparedView {
        PreparedView {
            delay_ms: self.delay_ms,
            url: self.url@,
            headers: header_views(self.headers@),
            body: self.body@,
        }
    }
}

/// What to do once the head of an answer has come.
#[derive(Clone, Copy, Debug, PartialEq, Eq, Structural)]
pub enum HeadAction {
    /// Read the whole body and hand it to `on_body`.
    ReadBody,
    /// Feed the body, chunk by chunk as it comes, to a `StreamReader`.
    ReadStream,
}

/// Whether `status` is an HTTP status of success.
pub open spec fn is_success(status: u16) -> bool {
    200 <= status < 300
}

/// One message as a JSON object.
pub open spec fn message_json(message: MessageView) -> Seq<char> {
    "{\"role\":"@ + json_quoted(message.role.spec_name()) + ",\"content\":"@ + json_quoted(
        message.content,
    ) + "}"@
}

/// Messages as JSON objects with commas between them.
pub open spec fn messages_json(messages: Seq<MessageView>) -> Seq<char>
    decreases messages.len(),
{
    if messages.len() == 0 {
        Seq::empty()
    } else if messages.len() == 1 {
        message_json(messages.last())
    } else {
        messages_json(messages.drop_last()) + ","@ + message_json(messages.last())
    }
}

/// The body of a request: the envelope as a JSON object with the members
/// `model`, `messages` and `stream`, in that order and without whitespace.
pub open spec fn body_json(envelope: EnvelopeView) -> Seq<char> {
    "{\"model\":"@ + json_quoted(envelope.model) + ",\"messages\":["@ + messages_json(
        envelope.messages,
    ) + "],\"stream\":"@ + (if envelope.stream {
        "true"@
    } else {
        "false"@
    }) + "}"@
}

/// The headers of a request, in order: the bearer token, the referrer and
/// title of the calling site, the kind of answer that is accepted, and the
/// kind of the body.
pub open spec fn request_headers(
    api_key: Seq<char>,
    site_url: Seq<char>,
    site_name: Seq<char>,
    stream: bool,
) -> Seq<HeaderView> {
    seq![
        HeaderView { name: "Authorization"@, value: "Bearer "@ + api_key },
        HeaderView { name: "HTTP-Referer"@, value: site_url },
        HeaderView { name: "X-Title"@, value: site_name },
        HeaderView {
            name: "Accept"@,
            value: if stream {
                "text/event-stream"@
            } else {
                "application/json"@
            },
        },
        HeaderView { name: "Content-Type"@, value: "application/json"@ },
    ]
}

/// The role named at `choices[0].message.role` of `doc`.
pub open spec fn role_at(doc: Value) -> Option<Role> {
    match text_at(doc, "/choices/0/message/role"@) {
        Some(name) => role_named(name),
        None => None,
    }
}

/// The answer that the JSON document `doc` holds: its `id`, its `model`, the
/// three counts of its `usage` and the message of its first choice. `None`
/// where one of them is missing or of another kind.
pub open spec fn response_in(doc: Value) -> Option<ResponseView> {
    if text_at(doc, "/id"@) is Some && text_at(doc, "/model"@) is Some && count_at(
        doc,
        "/usage/prompt_tokens"@,
    ) is Some && count_at(doc, "/usage/completion_tokens"@) is Some && count_at(
        doc,
        "/usage/total_tokens"@,
    ) is Some && role_at(doc) is Some && text_at(doc, "/choices/0/message/content"@) is Some {
        Some(
            ResponseView {
                id: text_at(doc, "/id"@)->0,
                model: text_at(doc, "/model"@)->0,
                usage: Usage {
                    prompt_tokens: count_at(doc, "/usage/prompt_tokens"@)->0,
                    completion_tokens: count_at(doc, "/usage/completion_tokens"@)->0,
                    total_tokens: count_at(doc, "/usage/total_tokens"@)->0,
                },
                message: MessageView {
                    role: role_at(doc)->0,
                    content: text_at(doc, "/choices/0/message/content"@)->0,
                },
            },
        )
    } else {
        None
    }
}

/// The answer that the text `body` holds; `None` where `body` is no JSON
/// document or the document is no answer.
pub open spec fn decoded_response(body: Seq<char>) -> Option<ResponseView> {
    match json_document(encode_utf8(body)) {
        Some(doc) => response_in(doc),
        None => None,
    }
}

/// What a whole body that came with `status` means: a rejection with the
/// status and the body as it came if the status is not one of success, the
/// answer that the body holds if it holds one, and a malformed response if it
/// does not.
pub open spec fn settled(status: u16, body: Seq<char>) -> Result<ResponseView, ErrorView> {
    if !is_success(status) {
        Err(ErrorView::ApiRejected { status, body })
    } else {
        match decoded_response(body) {
            Some(response) => Ok(response),
            None => Err(ErrorView::MalformedResponse),
        }
    }
}

/// The view of an answer that may be missing.
pub open spec fn response_view(response: Option<ResponseEnvelope>) -> Option<ResponseView> {
    match response {
        Some(r) => Some(r@),
        None => None,
    }
}

/// The view of an answer or of the error in its place.
pub open spec fn outcome_view(outcome: Result<ResponseEnvelope, TransportError>) -> Result<
    ResponseView,
    ErrorView,
> {
    match outcome {
        Ok(r) => Ok(r@),
        Err(e) => Err(e@),
    }
}

/// Whether `status` is an HTTP status of success: 200 to 299.
pub fn status_is_success(status: u16) -> (success: bool)
    ensures
        success == is_success(status),
{
    200 <= status && status < 300
}

/// Writes one message as a JSON object.
fn render_message(message: &Message) -> (text: String)
    ensures
        text@ == message_json(message@),
{
    let mut out = String::from_str("{\"role\":");
    out.append(quote(message.role.name()).as_str());
    out.append(",\"content\":");
    out.append(quote(message.content.as_str()).as_str());
    out.append("}");
    out
}

/// Writes messages as JSON objects with commas between them.
fn render_messages(messages: &Vec<Message>) -> (text: String)
    ensures
        text@ == messages_json(message_views(messages@)),
{
    let ghost views = message_views(messages@);
    let mut out = String::new();
    let mut i: usize = 0;
    while i < messages.len()
        invariant
            i <= messages.len(),
            views == message_views(messages@),
            out@ == messages_json(views.take(i as int)),
        decreases messages.len() - i,
    {
        if i > 0 {
            out.append(",");
        }
        out.append(render_message(&messages[i]).as_str());
        assert(views.take(i + 1).drop_last() =~= views.take(i as int));
        i = i + 1;
    }
    assert(views.take(i as int) =~= views);
    out
}

/// Writes the body of a request.
pub fn render_body(envelope: &RequestEnvelope) -> (body: String)
    ensures
        body@ == body_json(envelope@),
{
    let mut out = String::from_str("{\"model\":");
    out.append(quote(envelope.model.as_str()).as_str());
    out.append(",\"messages\":[");
    out.append(render_messages(&envelope.messages).as_str());
    out.append("],\"stream\":");
    if envelope.stream {
        out.append("true");
    } else {
        out.append("false");
    }
    out.append("}");
    out
}

/// Reads an answer out of a parsed document.
fn read_response(doc: &Value) -> (response: Option<ResponseEnvelope>)
    ensures
        response_view(response) == response_in(*doc),
{
    let id = match read_text(doc, "/id") {
        Some(text) => text,
        None => {
            return None;
        },
    };
    let model = match read_text(doc, "/model") {
        Some(text) => text,
        None => {
            return None;
        },
    };
    let prompt_tokens: u32 = match read_count(doc, "/usage/prompt_tokens") {
        Some(n) => n,
        None => {
            return None;
        },
    };
    let completion_tokens: u32 = match read_count(doc, "/usage/completion_tokens") {
        Some(n) => n,
        None => {
            return None;
        },
    };
    let total_tokens: u32 = match read_count(doc, "/usage/total_tokens") {
        Some(n) => n,
        None => {
            return None;
        },
    };
    let role = match read_text(doc, "/choices/0/message/role") {
        Some(name) => match Role::from_name(name.as_str()) {
            Some(role) => role,
            None => {
                return None;
            },
        },
        None => {
            return None;
        },
    };
    let content = match read_text(doc, "/choices/0/message/content") {
        Some(text) => text,
        None => {
            return None;
        },
    };
    Some(
        ResponseEnvelope {
            id,
            model,
            usage: Usage { prompt_tokens, completion_tokens, total_tokens },
            message: Message { role, content },
        },
    )
}

/// Reads the answer that `body` holds.
pub fn decode_response(body: &str) -> (response: Option<ResponseEnvelope>)
    ensures
        response_view(response) == decoded_response(body@),
{
    match parse_document(body.as_bytes()) {
        Ok(doc) => read_response(&doc),
        Err(_) => None,
    }
}

/// Says how to read the body of an answer whose head has come: as a stream
/// if a stream was asked for and the status is one of success, and whole in
/// any other case.
pub fn on_head(stream: bool, status: u16) -> (action: HeadAction)
    ensures
        action == (if stream && is_success(status) {
            HeadAction::ReadStream
        } else {
            HeadAction::ReadBody
        }),
{
    if stream && status_is_success(status) {
        HeadAction::ReadStream
    } else {
        HeadAction::ReadBody
    }
}

/// Says what a whole body that came with `status` means.
pub fn on_body(status: u16, body: String) -> (outcome: Result<ResponseEnvelope, TransportError>)
    ensures
        outcome_view(outcome) == settled(status, body@),
{
    if !status_is_success(status) {
        return Err(TransportError::ApiRejected { status, body });
    }
    match decode_response(body.as_str()) {
        Some(response) => Ok(response),
        None => Err(TransportError::MalformedResponse),
    }
}

/// A transport as a plain value.
pub struct TransportView {
    pub api_key: Seq<char>,
    pub base_url: Seq<char>,
    pub site_url: Seq<char>,
    pub site_name: Seq<char>,
    pub limiter: LimiterView,
}

impl TransportView {
    /// What the transport prepares for `envelope` when asked at `now`.
    pub open spec fn request_for(self, envelope: EnvelopeView, now: u64) -> PreparedView {
        PreparedView {
            delay_ms: (self.limiter.release_time(now) - now) as u64,
            url: self.base_url + "/chat/completions"@,
            headers: request_headers(self.api_key, self.site_url, self.site_name, envelope.stream),
            body: body_json(envelope),
        }
    }

    /// The transport after it has prepared a request at `now`.
    pub open spec fn after_turn(self, now: u64) -> TransportView {
        TransportView { limiter: self.limiter.after_turn(now), ..self }
    }

    /// The transport after it was told that the request prepared last went
    /// out at `at`.
    pub open spec fn after_release(self, at: u64) -> TransportView {
        TransportView { limiter: self.limiter.after_release(at), ..self }
    }
}

/// The client's end of the API: where it is, who asks, and how often.
pub struct ChatTransport {
    api_key: String,
    base_url: String,
    site_url: String,
    site_name: String,
    limiter: RateLimiter,
}

impl View for ChatTransport {
    type V = TransportView;

    closed spec fn view(&self) -> TransportView {
        TransportView {
            api_key: self.api_key@,
            base_url: self.base_url@,
            site_url: self.site_url@,
            site_name: self.site_name@,
            limiter: self.limiter@,
        }
    }
}

impl ChatTransport {
    /// A transport that has sent nothing yet and spaces its requests
    /// `min_interval` milliseconds apart.
    pub fn new(
        api_key: String,
        base_url: String,
        site_url: String,
        site_name: String,
        min_interval: u64,
    ) -> (transport: Self)
        ensures
            transport@ == (TransportView {
                api_key: api_key@,
                base_url: base_url@,
                site_url: site_url@,
                site_name: site_name@,
                limiter: LimiterView { min_interval, last_request_at: None },
            }),
    {
        ChatTransport {
            api_key,
            base_url,
            site_url,
            site_name,
            limiter: RateLimiter::new(min_interval),
        }
    }

    /// The headers of a request.
    fn headers(&self, stream: bool) -> (headers: Vec<Header>)
        ensures
            header_views(headers@) == request_headers(
                self@.api_key,
                self@.site_url,
                self@.site_name,
                stream,
            ),
    {
        let mut headers: Vec<Header> = Vec::new();
        headers.push(
            Header {
                name: String::from_str("Authorization"),
                value: String::from_str("Bearer ").concat(self.api_key.as_str()),
            },
        );
        headers.push(Header { name: String::from_str("HTTP-Referer"), value: self.site_url.clone() });
        headers.push(Header { name: String::from_str("X-Title"), value: self.site_name.clone() });
        headers.push(
            Header {
                name: String::from_str("Accept"),
                value: if stream {
                    String::from_str("text/event-stream")
                } else {
                    String::from_str("application/json")
                },
            },
        );
        headers.push(
            Header {
                name: String::from_str("Content-Type"),
                value: String::from_str("application/json"),
            },
        );
        headers
    }

    /// Books the turn of a request that is asked for at `now`, in
    /// milliseconds, and says what to send once the turn has come. The turn
    /// is taken whatever becomes of the request.
    pub fn prepare(&mut self, envelope: &RequestEnvelope, now: u64) -> (request: PreparedRequest)
        ensures
            request@ == old(self)@.request_for(envelope@, now),
            final(self)@ == old(self)@.after_turn(now),
    {
        let delay_ms: u64 = self.limiter.wait_turn(now);
        let url = self.base_url.clone().concat("/chat/completions");
        let headers = self.headers(envelope.stream);
        let body = render_body(envelope);
        PreparedRequest { delay_ms, url, headers, body }
    }

    /// Takes note that the request prepared last went out at `at`, in
    /// milliseconds, which may be later than its turn. The requests after it
    /// are spaced from then on.
    pub fn confirm_sent(&mut self, at: u64)
        ensures
            final(self)@ == old(self)@.after_release(at),
    {
        self.limiter.confirm_release(at);
    }
}

} // verus!
