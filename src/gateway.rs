//! The chat gateway: request construction from a settings snapshot, status
//! classification, and normalization of the reply.
use vstd::prelude::*;
use crate::audit::AuditLevel;
use crate::json::{json_parse, parse_json, JsonValue};
use crate::normalize::{extract_reply, reply_text};
use crate::settings::{is_secret_unset, secret_unset, Settings};
use crate::text::{joined, owned, trim, trimmed};
use crate::validate::{
    model_id_verdict, sanitize_text, sanitized, url_verdict, validate_model_id, validate_url,
    ValidationError,
};

verus! {

/// Who wrote a message.
#[derive(Clone, Copy, Debug, PartialEq, Eq, Structural)]
pub enum Role {
    System,
    User,
    Assistant,
}

impl Role {
    /// The name the wire format uses.
    pub fn name(&self) -> (r: &'static str)
        ensures
            r@ == role_name(*self),
    {
        match self {
            Role::System => "system",
            Role::User => "user",
            Role::Assistant => "assistant",
        }
    }
}

/// The name the wire format uses for a role.
pub open spec fn role_name(r: Role) -> Seq<char> {
    match r {
        Role::System => "system"@,
        Role::User => "user"@,
        Role::Assistant => "assistant"@,
    }
}

/// One turn of a conversation.
#[derive(Debug)]
pub struct ConversationMessage {
    pub role: Role,
    pub content: String,
}

/// A message as role and text.
pub open spec fn message_view(m: ConversationMessage) -> (Role, Seq<char>) {
    (m.role, m.content@)
}

/// Messages as roles and texts.
pub open spec fn messages_view(ms: Seq<ConversationMessage>) -> Seq<(Role, Seq<char>)> {
    ms.map_values(|m: ConversationMessage| message_view(m))
}

/// Messages with their contents sanitized.
pub open spec fn sanitized_messages(ms: Seq<ConversationMessage>) -> Seq<(Role, Seq<char>)> {
    ms.map_values(|m: ConversationMessage| (m.role, sanitized(m.content@)))
}

/// The messages sent for a system prompt and a conversation: where the
/// prompt is non-empty, a system message with the sanitized prompt first;
/// then the conversation in its order, each content sanitized.
pub open spec fn outgoing_messages(prompt: Seq<char>, ms: Seq<ConversationMessage>) -> Seq<
    (Role, Seq<char>),
> {
    if prompt.len() > 0 {
        seq![(Role::System, sanitized(prompt))] + sanitized_messages(ms)
    } else {
        sanitized_messages(ms)
    }
}

/// Seconds after which the transport gives up.
pub const REQUEST_TIMEOUT_SECS: u64 = 30;

/// A fully built chat-completion request.
#[derive(Debug)]
pub struct GatewayRequest {
    pub url: String,
    pub model: String,
    pub messages: Vec<ConversationMessage>,
    pub stream: bool,
    /// Header names and values, in the order they are set.
    pub headers: Vec<(String, String)>,
    pub timeout_secs: u64,
}

/// Headers as name and value.
pub open spec fn headers_view(hs: Seq<(String, String)>) -> Seq<(Seq<char>, Seq<char>)> {
    hs.map_values(|h: (String, String)| (h.0@, h.1@))
}

/// The headers of a request: JSON content, and bearer authorization with the
/// secret. Both dialects use them.
pub open spec fn request_headers(secret: Seq<char>) -> Seq<(Seq<char>, Seq<char>)> {
    seq![("Content-Type"@, "application/json"@), ("Authorization"@, "Bearer "@ + secret)]
}

/// Why a gateway call failed.
#[derive(Debug, PartialEq, Eq)]
pub enum GatewayError {
    /// No secret is configured; nothing was sent.
    AuthNotConfigured,
    /// The endpoint or the model identifier was refused; nothing was sent.
    Invalid(ValidationError),
    /// The endpoint answered 401.
    AuthFailed,
    /// The endpoint answered 404.
    EndpointNotFound,
    /// The endpoint answered 429.
    RateLimited,
    /// The endpoint answered another non-success status, with this body.
    RequestFailed(u16, String),
    /// The request did not complete: transport failure or timeout.
    NetworkFailure(String),
    /// A success body matched none of the known shapes; it is kept whole.
    UnparseableResponse(String),
}

/// The messages to send, built from the prompt and the conversation.
pub fn assemble_messages(prompt: &str, messages: &Vec<ConversationMessage>) -> (r: Vec<
    ConversationMessage,
>)
    ensures
        messages_view(r@) == outgoing_messages(prompt@, messages@),
{
    let mut out: Vec<ConversationMessage> = Vec::new();
    if prompt.unicode_len() > 0 {
        let p = sanitize_text(prompt);
        out.push(ConversationMessage { role: Role::System, content: p });
    }
    let ghost head = messages_view(out@);
    assert(messages@.subrange(0, 0) =~= Seq::<ConversationMessage>::empty());
    assert(sanitized_messages(Seq::<ConversationMessage>::empty()) =~= Seq::empty());
    let mut i: usize = 0;
    while i < messages.len()
        invariant
            0 <= i <= messages@.len(),
            head == (if prompt@.len() > 0 {
                seq![(Role::System, sanitized(prompt@))]
            } else {
                Seq::empty()
            }),
            messages_view(out@) == head + sanitized_messages(messages@.subrange(0, i as int)),
        decreases messages.len() - i,
    {
        let m = &messages[i];
        let c = sanitize_text(m.content.as_str());
        let ghost prev = out@;
        out.push(ConversationMessage { role: m.role, content: c });
        proof {
            assert(sanitized_messages(messages@.subrange(0, i + 1)) =~= sanitized_messages(
                messages@.subrange(0, i as int),
            ).push((messages@[i as int].role, sanitized(messages@[i as int].content@))));
            assert(messages_view(out@) =~= messages_view(prev).push(
                (messages@[i as int].role, sanitized(messages@[i as int].content@)),
            ));
        }
        i = i + 1;
    }
    assert(messages@.subrange(0, messages@.len() as int) =~= messages@);
    out
}

/// Which error, if any, stops a request before it is built: the secret is
/// checked first, then the endpoint, then the model identifier.
pub open spec fn request_refusal(s: Settings) -> Option<GatewayError> {
    if secret_unset(s.secret@) {
        Some(GatewayError::AuthNotConfigured)
    } else if url_verdict(s.endpoint_url@) is Err {
        Some(GatewayError::Invalid(url_verdict(s.endpoint_url@)->Err_0))
    } else if model_id_verdict(s.model_id@) is Err {
        Some(GatewayError::Invalid(model_id_verdict(s.model_id@)->Err_0))
    } else {
        None
    }
}

/// Builds the request for a conversation from a settings snapshot. Refuses,
/// before anything is built or sent, an unset secret, then an endpoint or a
/// model identifier that validation refuses.
pub fn prepare_request(settings: &Settings, messages: &Vec<ConversationMessage>) -> (r: Result<
    GatewayRequest,
    GatewayError,
>)
    ensures
        request_refusal(*settings) is Some ==> r == Err::<GatewayRequest, GatewayError>(
            request_refusal(*settings)->Some_0,
        ),
        request_refusal(*settings) is None ==> r is Ok,
        r matches Ok(req) ==> {
            &&& req.url@ == settings.endpoint_url@
            &&& req.model@ == settings.model_id@
            &&& messages_view(req.messages@) == outgoing_messages(
                settings.system_prompt@,
                messages@,
            )
            &&& !req.stream
            &&& headers_view(req.headers@) == request_headers(settings.secret@)
            &&& req.timeout_secs == REQUEST_TIMEOUT_SECS
        },
{
    if is_secret_unset(settings.secret.as_str()) {
        return Err(GatewayError::AuthNotConfigured);
    }
    match validate_url(settings.endpoint_url.as_str()) {
        Err(e) => {
            return Err(GatewayError::Invalid(e));
        },
        Ok(()) => {},
    }
    match validate_model_id(settings.model_id.as_str()) {
        Err(e) => {
            return Err(GatewayError::Invalid(e));
        },
        Ok(()) => {},
    }
    let assembled = assemble_messages(settings.system_prompt.as_str(), messages);
    let mut headers: Vec<(String, String)> = Vec::new();
    headers.push((owned("Content-Type"), owned("application/json")));
    headers.push((owned("Authorization"), joined("Bearer ", settings.secret.as_str())));
    assert(headers_view(headers@) =~= request_headers(settings.secret@));
    Ok(
        GatewayRequest {
            url: owned(settings.endpoint_url.as_str()),
            model: owned(settings.model_id.as_str()),
            messages: assembled,
            stream: false,
            headers,
            timeout_secs: REQUEST_TIMEOUT_SECS,
        },
    )
}

/// Whether a status code is a success.
pub open spec fn is_success(status: u16) -> bool {
    200 <= status <= 299
}

/// Whether `e` is the error a failure status maps to, given its body.
pub open spec fn status_error(status: u16, body: Seq<char>, e: GatewayError) -> bool {
    if status == 401 {
        e == GatewayError::AuthFailed
    } else if status == 404 {
        e == GatewayError::EndpointNotFound
    } else if status == 429 {
        e == GatewayError::RateLimited
    } else {
        e matches GatewayError::RequestFailed(s, b) && s == status && b@ == body
    }
}

/// Maps a non-success status, and the body that came with it, to its error.
pub fn classify_failure(status: u16, body: String) -> (r: GatewayError)
    ensures
        status_error(status, body@, r),
{
    if status == 401 {
        GatewayError::AuthFailed
    } else if status == 404 {
        GatewayError::EndpointNotFound
    } else if status == 429 {
        GatewayError::RateLimited
    } else {
        GatewayError::RequestFailed(status, body)
    }
}

/// The reply text a parse result yields, before sanitizing.
pub open spec fn parsed_reply(parsed: Option<JsonValue>) -> Option<Seq<char>> {
    match parsed {
        Some(v) => reply_text(v),
        None => None,
    }
}

/// Whether `r` is what normalization owes for a parse result and a body: the
/// sanitized reply text, trimmed, where a shape yields one, else the body,
/// unparsed.
pub open spec fn normalized(parsed: Option<JsonValue>, body: Seq<char>, r: Result<
    String,
    GatewayError,
>) -> bool {
    match parsed_reply(parsed) {
        Some(t) => r matches Ok(out) && out@ == trimmed(sanitized(t)),
        None => r matches Err(GatewayError::UnparseableResponse(raw)) && raw@ == body,
    }
}

/// Normalizes a success body that has been parsed (`None` where it is not
/// JSON).
pub fn normalize_parsed(parsed: Option<&JsonValue>, body: &str) -> (r: Result<
    String,
    GatewayError,
>)
    ensures
        normalized(crate::json::deref_opt(parsed), body@, r),
{
    match parsed {
        Some(v) => match extract_reply(v) {
            Some(t) => {
                let clean = sanitize_text(t);
                Ok(owned(trim(clean.as_str())))
            },
            None => Err(GatewayError::UnparseableResponse(owned(body))),
        },
        None => Err(GatewayError::UnparseableResponse(owned(body))),
    }
}

/// Normalizes a success body: the sanitized and trimmed reply text of the
/// first shape that matches, else `UnparseableResponse` with the body.
pub fn normalize_response(body: &str) -> (r: Result<String, GatewayError>)
    ensures
        normalized(json_parse(body@), body@, r),
{
    let parsed = parse_json(body);
    match &parsed {
        Some(v) => normalize_parsed(Some(v), body),
        None => normalize_parsed(None, body),
    }
}

/// Interprets a response: a success status has its body normalized; any
/// other maps to its error.
pub fn interpret_response(status: u16, body: String) -> (r: Result<String, GatewayError>)
    ensures
        is_success(status) ==> normalized(json_parse(body@), body@, r),
        !is_success(status) ==> (r matches Err(e) && status_error(status, body@, e)),
{
    if 200 <= status && status <= 299 {
        normalize_response(body.as_str())
    } else {
        Err(classify_failure(status, body))
    }
}

/// The severity a failure is audited at: a request refused before sending
/// (no secret, or an endpoint or model identifier refused) and a rate limit
/// are warnings; any other failure is an error.
pub open spec fn failure_level(e: GatewayError) -> AuditLevel {
    if e is RateLimited || e is AuthNotConfigured || e is Invalid {
        AuditLevel::Warning
    } else {
        AuditLevel::Error
    }
}

impl GatewayError {
    /// The severity this failure is audited at.
    pub fn audit_level(&self) -> (r: AuditLevel)
        ensures
            r == failure_level(*self),
    {
        match self {
            GatewayError::RateLimited => AuditLevel::Warning,
            GatewayError::AuthNotConfigured => AuditLevel::Warning,
            GatewayError::Invalid(_) => AuditLevel::Warning,
            _ => AuditLevel::Error,
        }
    }
}

} // verus!
