//! Request and response types of the chat operation, and the JSON text of a
//! chat request.

use vstd::prelude::*;

use crate::error::Error;
use crate::json::{
    field, int32, json_of, int32_member, is_absent, json_quoted, json_text_parses, opt_bool,
    opt_bool_member, opt_int32, opt_int32_member, opt_text_is, opt_text_member, opt_text_ok, quote,
    text_equals, text_is, text_member, Json,
};

verus! {

/// The role of the author of a message: system, user or assistant.
#[derive(Debug, Copy, Clone, PartialEq, Eq, Structural)]
pub enum Role {
    System,
    User,
    Assistant,
}

impl Default for Role {
    fn default() -> (r: Role)
        ensures
            r == Role::User,
    {
        Role::User
    }
}

/// Content and role of a message.
#[derive(Debug, Clone)]
pub struct ChatMessage {
    /// The content of the message.
    pub content: String,
    /// The name of the author: a-z, A-Z, 0-9 and underscores, at most 64
    /// characters.
    pub name: Option<String>,
    /// The role of the author.
    pub role: Option<Role>,
}

impl ChatMessage {
    /// Creates a message with `content`, no author name and no role.
    pub fn new(content: &str) -> (r: ChatMessage)
        ensures
            r.content@ == content@,
            r.name is None,
            r.role is None,
    {
        ChatMessage { content: String::from_str(content), name: None, role: None }
    }

    /// Sets the role to [`Role::System`].
    pub fn with_system(self) -> (r: ChatMessage)
        ensures
            r.content == self.content,
            r.name == self.name,
            r.role == Some(Role::System),
    {
        ChatMessage { role: Some(Role::System), ..self }
    }
}

impl From<&str> for ChatMessage {
    fn from(content: &str) -> (r: ChatMessage)
        ensures
            r.content@ == content@,
            r.name is None,
            r.role is None,
    {
        ChatMessage::new(content)
    }
}

impl vstd::std_specs::convert::FromSpecImpl<&str> for ChatMessage {
    open spec fn obeys_from_spec() -> bool {
        false
    }

    open spec fn from_spec(content: &str) -> ChatMessage {
        arbitrary()
    }
}

/// Relies on std's `impl<T> From<T> for T`: "Returns the argument unchanged."
pub assume_specification<T>[ <T as core::convert::From<T>>::from ](t: T) -> (r: T)
    ensures
        r == t,
;

impl From<String> for ChatMessage {
    fn from(content: String) -> (r: ChatMessage)
        ensures
            r.content@ == content@,
            r.name is None,
            r.role is None,
    {
        ChatMessage { content, name: None, role: None }
    }
}

impl vstd::std_specs::convert::FromSpecImpl<String> for ChatMessage {
    open spec fn obeys_from_spec() -> bool {
        true
    }

    open spec fn from_spec(content: String) -> ChatMessage {
        ChatMessage { content, name: None, role: None }
    }
}

/// Override of a single chat request: the message to send to one model.
#[derive(Debug, Clone)]
pub struct ChatRequestOverride {
    pub message: ChatMessage,
    pub model_id: String,
}

/// Unified chat request across all language models.
#[derive(Debug, Clone)]
pub struct ChatRequest {
    pub message: ChatMessage,
    pub message_history: Option<Vec<ChatMessage>>,
    pub override_params: Option<ChatRequestOverride>,
}

impl ChatRequest {
    /// Creates a request for `message` (a [`ChatMessage`], or its content as
    /// a `String` or `&str`), without history or override.
    pub fn new<M: Into<ChatMessage>>(message: M) -> (r: ChatRequest)
        ensures
            call_ensures(M::into, (message,), r.message),
            r.message_history is None,
            r.override_params is None,
    {
        ChatRequest { message: message.into(), message_history: None, override_params: None }
    }
}

impl From<ChatMessage> for ChatRequest {
    fn from(message: ChatMessage) -> (r: ChatRequest)
        ensures
            r.message == message,
            r.message_history is None,
            r.override_params is None,
    {
        ChatRequest { message, message_history: None, override_params: None }
    }
}

impl vstd::std_specs::convert::FromSpecImpl<ChatMessage> for ChatRequest {
    open spec fn obeys_from_spec() -> bool {
        true
    }

    open spec fn from_spec(message: ChatMessage) -> ChatRequest {
        ChatRequest { message, message_history: None, override_params: None }
    }
}

impl From<String> for ChatRequest {
    fn from(content: String) -> (r: ChatRequest)
        ensures
            r.message.content == content,
            r.message.name is None,
            r.message.role is None,
            r.message_history is None,
            r.override_params is None,
    {
        ChatRequest::new(ChatMessage { content, name: None, role: None })
    }
}

impl vstd::std_specs::convert::FromSpecImpl<String> for ChatRequest {
    open spec fn obeys_from_spec() -> bool {
        true
    }

    open spec fn from_spec(content: String) -> ChatRequest {
        ChatRequest {
            message: ChatMessage { content, name: None, role: None },
            message_history: None,
            override_params: None,
        }
    }
}

impl From<&str> for ChatRequest {
    fn from(content: &str) -> (r: ChatRequest)
        ensures
            r.message.content@ == content@,
            r.message.name is None,
            r.message.role is None,
            r.message_history is None,
            r.override_params is None,
    {
        ChatRequest::new(ChatMessage::new(content))
    }
}

impl vstd::std_specs::convert::FromSpecImpl<&str> for ChatRequest {
    open spec fn obeys_from_spec() -> bool {
        false
    }

    open spec fn from_spec(content: &str) -> ChatRequest {
        arbitrary()
    }
}

/// Prompt, response and total token usage.
#[derive(Debug, Clone)]
pub struct TokenUsage {
    pub prompt_tokens: i32,
    pub response_tokens: i32,
    pub total_tokens: i32,
}

/// Unified response from the provider.
#[derive(Debug, Clone)]
pub struct ModelResponse {
    pub message: ChatMessage,
    /// String members of the metadata object, in order; keyed as its member
    /// names, so each key once for a parsed object.
    pub metadata: Option<Vec<(String, String)>>,
    pub token_count: TokenUsage,
}

/// Unified chat response across all language models; the gateway may leave
/// any field out.
#[derive(Debug, Clone)]
pub struct ChatResponse {
    pub cached: Option<bool>,
    pub created_at: Option<i32>,
    pub id: Option<String>,
    pub model_id: Option<String>,
    pub model_name: Option<String>,
    pub model_response: Option<ModelResponse>,
    pub provider_id: Option<String>,
    pub router_id: Option<String>,
}

impl ChatResponse {
    /// The content of the model's message, when the response carries one.
    pub fn content(&self) -> (r: Option<&str>)
        ensures
            r is Some <==> self.model_response is Some,
            r is Some ==> r->0@ == self.model_response->0.message.content@,
    {
        match &self.model_response {
            Some(m) => Some(m.message.content.as_str()),
            None => None,
        }
    }
}

/// JSON text of a role; an absent role is `null`.
pub open spec fn role_json(role: Option<Role>) -> Seq<char> {
    match role {
        None => "null"@,
        Some(Role::System) => "\"system\""@,
        Some(Role::User) => "\"user\""@,
        Some(Role::Assistant) => "\"assistant\""@,
    }
}

/// JSON text of a message: `content`, then `name` where there is one, then
/// `role`.
pub open spec fn message_json(m: ChatMessage) -> Seq<char> {
    "{\"content\":"@ + json_quoted(m.content@) + match m.name {
        Some(n) => ",\"name\":"@ + json_quoted(n@),
        None => Seq::empty(),
    } + ",\"role\":"@ + role_json(m.role) + "}"@
}

/// The messages' JSON texts, separated by commas.
pub open spec fn messages_json(ms: Seq<ChatMessage>) -> Seq<char>
    decreases ms.len(),
{
    if ms.len() == 0 {
        Seq::empty()
    } else if ms.len() == 1 {
        message_json(ms[0])
    } else {
        messages_json(ms.drop_last()) + ","@ + message_json(ms.last())
    }
}

/// JSON text of a chat request: `message`, then `message_history` and
/// `override_params` where they are present.
pub open spec fn request_json(r: ChatRequest) -> Seq<char> {
    "{\"message\":"@ + message_json(r.message) + match r.message_history {
        Some(h) => ",\"message_history\":["@ + messages_json(h@) + "]"@,
        None => Seq::empty(),
    } + match r.override_params {
        Some(o) => ",\"override_params\":{\"message\":"@ + message_json(o.message)
            + ",\"model_id\":"@ + json_quoted(o.model_id@) + "}"@,
        None => Seq::empty(),
    } + "}"@
}

fn push_quoted(out: &mut String, s: &str)
    ensures
        final(out)@ == old(out)@ + json_quoted(s@),
{
    match quote(s) {
        Ok(q) => out.append(q.as_str()),
        Err(_) => {},
    }
}

fn push_message(out: &mut String, m: &ChatMessage)
    ensures
        final(out)@ == old(out)@ + message_json(*m),
{
    let ghost start = out@;
    out.append("{\"content\":");
    push_quoted(out, m.content.as_str());
    match &m.name {
        Some(n) => {
            out.append(",\"name\":");
            push_quoted(out, n.as_str());
        },
        None => {},
    }
    out.append(",\"role\":");
    match m.role {
        None => out.append("null"),
        Some(Role::System) => out.append("\"system\""),
        Some(Role::User) => out.append("\"user\""),
        Some(Role::Assistant) => out.append("\"assistant\""),
    }
    out.append("}");
    assert(out@ =~= start + message_json(*m));
}

impl ChatRequest {
    /// The JSON body of the request.
    pub fn to_json(&self) -> (r: String)
        ensures
            r@ == request_json(*self),
    {
        let mut out = String::new();
        out.append("{\"message\":");
        push_message(&mut out, &self.message);
        match &self.message_history {
            Some(h) => {
                out.append(",\"message_history\":[");
                let ghost before = out@;
                let mut i: usize = 0;
                while i < h.len()
                    invariant
                        i <= h@.len(),
                        out@ == before + messages_json(h@.take(i as int)),
                    decreases h@.len() - i,
                {
                    if i > 0 {
                        out.append(",");
                    }
                    push_message(&mut out, &h[i]);
                    proof {
                        let t = h@.take(i as int + 1);
                        assert(t.drop_last() =~= h@.take(i as int));
                        assert(t.last() == h@[i as int]);
                    }
                    i = i + 1;
                }
                assert(h@.take(h@.len() as int) =~= h@);
                out.append("]");
            },
            None => {},
        }
        match &self.override_params {
            Some(o) => {
                out.append(",\"override_params\":{\"message\":");
                push_message(&mut out, &o.message);
                out.append(",\"model_id\":");
                push_quoted(&mut out, o.model_id.as_str());
                out.append("}");
            },
            None => {},
        }
        out.append("}");
        assert(out@ =~= request_json(*self));
        out
    }
}


/// An optional role member: `None` where it is not one of the three names.
pub open spec fn opt_role(j: Option<Json>) -> Option<Option<Role>> {
    if is_absent(j) {
        Some(None)
    } else {
        match j {
            Some(Json::Str(s)) => if s@ == "system"@ {
                Some(Some(Role::System))
            } else if s@ == "user"@ {
                Some(Some(Role::User))
            } else if s@ == "assistant"@ {
                Some(Some(Role::Assistant))
            } else {
                None
            },
            _ => None,
        }
    }
}

/// A message decodes: a string `content`, optional `name` and `role`.
pub open spec fn message_ok(j: Json) -> bool {
    &&& field(j, "content"@) matches Some(Json::Str(_))
    &&& opt_text_ok(field(j, "name"@))
    &&& opt_role(field(j, "role"@)) is Some
}

/// A message decodes to `m`.
pub open spec fn message_is(j: Json, m: ChatMessage) -> bool {
    &&& text_is(field(j, "content"@), m.content)
    &&& opt_text_is(field(j, "name"@), m.name)
    &&& opt_role(field(j, "role"@)) == Some(m.role)
}

/// Token counts; `None` where one of the three is missing or not an `i32`.
pub open spec fn token_usage(j: Json) -> Option<TokenUsage> {
    match (
        int32(field(j, "prompt_tokens"@)),
        int32(field(j, "response_tokens"@)),
        int32(field(j, "total_tokens"@)),
    ) {
        (Some(p), Some(r), Some(t)) => Some(
            TokenUsage { prompt_tokens: p, response_tokens: r, total_tokens: t },
        ),
        _ => None,
    }
}

/// Every member of an object is a string.
pub open spec fn all_text(fs: Seq<(String, Json)>) -> bool {
    forall|i: int| 0 <= i < fs.len() ==> #[trigger] fs[i].1 is Str
}

/// `ps` holds the names and string values of `fs`, in order.
pub open spec fn text_pairs_are(fs: Seq<(String, Json)>, ps: Seq<(String, String)>) -> bool {
    &&& ps.len() == fs.len()
    &&& forall|i: int|
        0 <= i < fs.len() ==> #[trigger] ps[i].0@ == fs[i].0@ && text_is(Some(fs[i].1), ps[i].1)
}

/// Optional metadata decodes: an object of strings.
pub open spec fn metadata_ok(j: Option<Json>) -> bool {
    is_absent(j) || match j {
        Some(Json::Object(fs)) => all_text(fs@),
        _ => false,
    }
}

/// Optional metadata decodes to `v`.
pub open spec fn metadata_is(j: Option<Json>, v: Option<Vec<(String, String)>>) -> bool {
    if is_absent(j) {
        v is None
    } else {
        match (j, v) {
            (Some(Json::Object(fs)), Some(ps)) => text_pairs_are(fs@, ps@),
            _ => false,
        }
    }
}

/// A model response decodes: a message, optional metadata, token counts.
pub open spec fn model_response_ok(j: Json) -> bool {
    &&& match field(j, "message"@) {
        Some(m) => message_ok(m),
        None => false,
    }
    &&& metadata_ok(field(j, "metadata"@))
    &&& match field(j, "token_count"@) {
        Some(t) => token_usage(t) is Some,
        None => false,
    }
}

/// A model response decodes to `r`.
pub open spec fn model_response_is(j: Json, r: ModelResponse) -> bool {
    &&& match field(j, "message"@) {
        Some(m) => message_is(m, r.message),
        None => false,
    }
    &&& metadata_is(field(j, "metadata"@), r.metadata)
    &&& match field(j, "token_count"@) {
        Some(t) => token_usage(t) == Some(r.token_count),
        None => false,
    }
}

/// An optional model response decodes.
pub open spec fn opt_model_response_ok(j: Option<Json>) -> bool {
    is_absent(j) || match j {
        Some(x) => model_response_ok(x),
        None => false,
    }
}

/// An optional model response decodes to `v`.
pub open spec fn opt_model_response_is(j: Option<Json>, v: Option<ModelResponse>) -> bool {
    if is_absent(j) {
        v is None
    } else {
        match (j, v) {
            (Some(x), Some(r)) => model_response_is(x, r),
            _ => false,
        }
    }
}

/// A chat response decodes: an object whose members, each optional, have
/// their types.
pub open spec fn chat_response_ok(j: Json) -> bool {
    &&& j is Object
    &&& opt_bool(field(j, "cached"@)) is Some
    &&& opt_int32(field(j, "created_at"@)) is Some
    &&& opt_text_ok(field(j, "id"@))
    &&& opt_text_ok(field(j, "model_id"@))
    &&& opt_text_ok(field(j, "model_name"@))
    &&& opt_model_response_ok(field(j, "model_response"@))
    &&& opt_text_ok(field(j, "provider_id"@))
    &&& opt_text_ok(field(j, "router_id"@))
}

/// A chat response decodes to `r`.
pub open spec fn chat_response_is(j: Json, r: ChatResponse) -> bool {
    &&& opt_bool(field(j, "cached"@)) == Some(r.cached)
    &&& opt_int32(field(j, "created_at"@)) == Some(r.created_at)
    &&& opt_text_is(field(j, "id"@), r.id)
    &&& opt_text_is(field(j, "model_id"@), r.model_id)
    &&& opt_text_is(field(j, "model_name"@), r.model_name)
    &&& opt_model_response_is(field(j, "model_response"@), r.model_response)
    &&& opt_text_is(field(j, "provider_id"@), r.provider_id)
    &&& opt_text_is(field(j, "router_id"@), r.router_id)
}

fn role_member(obj: &Json) -> (r: Option<Option<Role>>)
    ensures
        r == opt_role(field(*obj, "role"@)),
{
    match obj.get("role") {
        None => Some(None),
        Some(Json::Null) => Some(None),
        Some(Json::Str(s)) => if text_equals(s, "system") {
            Some(Some(Role::System))
        } else if text_equals(s, "user") {
            Some(Some(Role::User))
        } else if text_equals(s, "assistant") {
            Some(Some(Role::Assistant))
        } else {
            None
        },
        _ => None,
    }
}

fn message_of(j: &Json) -> (r: Option<ChatMessage>)
    ensures
        r is Some <==> message_ok(*j),
        r matches Some(m) ==> message_is(*j, m),
{
    let content = match text_member(j, "content") {
        Some(c) => c,
        None => return None,
    };
    let name = match opt_text_member(j, "name") {
        Some(n) => n,
        None => return None,
    };
    let role = match role_member(j) {
        Some(x) => x,
        None => return None,
    };
    Some(ChatMessage { content, name, role })
}

fn token_usage_of(j: &Json) -> (r: Option<TokenUsage>)
    ensures
        r == token_usage(*j),
{
    match (
        int32_member(j, "prompt_tokens"),
        int32_member(j, "response_tokens"),
        int32_member(j, "total_tokens"),
    ) {
        (Some(p), Some(r), Some(t)) => Some(
            TokenUsage { prompt_tokens: p, response_tokens: r, total_tokens: t },
        ),
        _ => None,
    }
}

fn metadata_of(obj: &Json) -> (r: Option<Option<Vec<(String, String)>>>)
    ensures
        r is Some <==> metadata_ok(field(*obj, "metadata"@)),
        r matches Some(v) ==> metadata_is(field(*obj, "metadata"@), v),
{
    match obj.get("metadata") {
        None => Some(None),
        Some(Json::Null) => Some(None),
        Some(Json::Object(fs)) => {
            let mut out: Vec<(String, String)> = Vec::new();
            let mut i: usize = 0;
            while i < fs.len()
                invariant
                    i <= fs@.len(),
                    field(*obj, "metadata"@) == Some(Json::Object(*fs)),
                    all_text(fs@.take(i as int)),
                    text_pairs_are(fs@.take(i as int), out@),
                decreases fs@.len() - i,
            {
                match &fs[i].1 {
                    Json::Str(t) => {
                        out.push((fs[i].0.clone(), t.clone()));
                    },
                    _ => {
                        assert(!all_text(fs@));
                        return None;
                    },
                }
                proof {
                    assert(fs@.take(i as int + 1) =~= fs@.take(i as int).push(fs@[i as int]));
                }
                i = i + 1;
            }
            assert(fs@.take(fs@.len() as int) =~= fs@);
            Some(Some(out))
        },
        _ => None,
    }
}

fn model_response_of(j: &Json) -> (r: Option<ModelResponse>)
    ensures
        r is Some <==> model_response_ok(*j),
        r matches Some(m) ==> model_response_is(*j, m),
{
    let message = match j.get("message") {
        Some(m) => match message_of(m) {
            Some(x) => x,
            None => return None,
        },
        None => return None,
    };
    let metadata = match metadata_of(j) {
        Some(x) => x,
        None => return None,
    };
    let token_count = match j.get("token_count") {
        Some(t) => match token_usage_of(t) {
            Some(x) => x,
            None => return None,
        },
        None => return None,
    };
    Some(ModelResponse { message, metadata, token_count })
}

fn opt_model_response_of(obj: &Json) -> (r: Option<Option<ModelResponse>>)
    ensures
        r is Some <==> opt_model_response_ok(field(*obj, "model_response"@)),
        r matches Some(v) ==> opt_model_response_is(field(*obj, "model_response"@), v),
{
    match obj.get("model_response") {
        None => Some(None),
        Some(Json::Null) => Some(None),
        Some(x) => match model_response_of(x) {
            Some(m) => Some(Some(m)),
            None => None,
        },
    }
}

impl ChatResponse {
    /// Decodes a chat response. Every member is optional: a missing or `null`
    /// member decodes to `None`; one of the wrong type is a decode error.
    pub fn from_json(j: &Json) -> (r: Result<ChatResponse, Error>)
        ensures
            r is Ok <==> chat_response_ok(*j),
            r matches Ok(x) ==> chat_response_is(*j, x),
            r matches Err(e) ==> e is Decode,
    {
        let shape = Err(Error::Decode(String::from_str("unexpected chat response shape")));
        match j {
            Json::Object(_) => {},
            _ => return shape,
        }
        let cached = match opt_bool_member(j, "cached") {
            Some(x) => x,
            None => return shape,
        };
        let created_at = match opt_int32_member(j, "created_at") {
            Some(x) => x,
            None => return shape,
        };
        let id = match opt_text_member(j, "id") {
            Some(x) => x,
            None => return shape,
        };
        let model_id = match opt_text_member(j, "model_id") {
            Some(x) => x,
            None => return shape,
        };
        let model_name = match opt_text_member(j, "model_name") {
            Some(x) => x,
            None => return shape,
        };
        let model_response = match opt_model_response_of(j) {
            Some(x) => x,
            None => return shape,
        };
        let provider_id = match opt_text_member(j, "provider_id") {
            Some(x) => x,
            None => return shape,
        };
        let router_id = match opt_text_member(j, "router_id") {
            Some(x) => x,
            None => return shape,
        };
        Ok(
            ChatResponse {
                cached,
                created_at,
                id,
                model_id,
                model_name,
                model_response,
                provider_id,
                router_id,
            },
        )
    }

    /// Decodes a chat response from the body text of a successful reply.
    pub fn decode(text: &str) -> (r: Result<ChatResponse, Error>)
        ensures
            r is Ok <==> json_text_parses(text@) && chat_response_ok(json_of(text@)),
            r matches Ok(x) ==> chat_response_is(json_of(text@), x),
            r matches Err(e) ==> e is Decode,
    {
        match Json::parse(text) {
            Ok(j) => ChatResponse::from_json(&j),
            Err(m) => Err(Error::Decode(m)),
        }
    }
}


} // verus!
