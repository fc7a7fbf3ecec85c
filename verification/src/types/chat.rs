//! Chat messages with their multimodal content, agent calls and chat completions.

use crate::error::TwcError;
use crate::json::{JsonModel, JsonNumber, JsonValue};
use crate::text::same_text;
use crate::types::common::{
    FileContent, FinishReason, ImageUrlContent, InputAudioContent, RefusalContent, StreamOptions,
    TextContent, Usage,
};
use crate::wire::{
    field, member_is, member_ok, missing_error, object, optional, optional_is, optional_ok, read,
    read_opt, shape_error, wire_all, FromJson, ObjectWriter, ToJson,
};
use vstd::prelude::*;
use vstd::string::*;

verus! {

/// Who speaks in a chat message.
#[derive(Debug, Clone, PartialEq)]
pub enum Role {
    /// Instructions that frame the conversation.
    System,
    /// The person who asks.
    User,
    /// The model that answers.
    Assistant,
    /// The result of a tool call.
    Tool,
    /// Instructions of the developer, which newer models take in place of system ones.
    Developer,
}

impl Role {
    /// The name of the role on the wire.
    pub open spec fn name(&self) -> Seq<char> {
        match self {
            Role::System => "system"@,
            Role::User => "user"@,
            Role::Assistant => "assistant"@,
            Role::Tool => "tool"@,
            Role::Developer => "developer"@,
        }
    }

    /// The name of the role on the wire.
    pub fn as_str(&self) -> (r: &'static str)
        ensures
            r@ == self.name(),
    {
        match self {
            Role::System => "system",
            Role::User => "user",
            Role::Assistant => "assistant",
            Role::Tool => "tool",
            Role::Developer => "developer",
        }
    }
}

impl ToJson for Role {
    open spec fn wire(&self) -> JsonModel {
        JsonModel::String(self.name())
    }

    fn to_json(&self) -> (r: JsonValue) {
        JsonValue::String(String::from_str(self.as_str()))
    }
}

impl FromJson for Role {
    open spec fn decodable(v: JsonModel) -> bool {
        v matches JsonModel::String(s) && (s == "system"@ || s == "user"@ || s == "assistant"@ || s
            == "tool"@ || s == "developer"@)
    }

    open spec fn decoded_from(&self, v: JsonModel) -> bool {
        v == JsonModel::String(self.name())
    }

    fn from_json(v: &JsonValue) -> (r: Result<Role, TwcError>) {
        match v {
            JsonValue::String(s) => {
                if same_text(s, "system") {
                    Ok(Role::System)
                } else if same_text(s, "user") {
                    Ok(Role::User)
                } else if same_text(s, "assistant") {
                    Ok(Role::Assistant)
                } else if same_text(s, "tool") {
                    Ok(Role::Tool)
                } else if same_text(s, "developer") {
                    Ok(Role::Developer)
                } else {
                    Err(shape_error("a role"))
                }
            },
            _ => Err(shape_error("a role")),
        }
    }
}

/// One part of a multimodal message. The variant decides the discriminant
/// that the part carries on the wire.
#[derive(Debug, Clone, PartialEq)]
pub enum ContentItem {
    /// Text, with the discriminant `text`.
    Text(TextContent),
    /// An image, with the discriminant `image_url`.
    ImageUrl(ImageUrlContent),
    /// Audio, with the discriminant `input_audio`.
    InputAudio(InputAudioContent),
    /// A file, with the discriminant `file`.
    File(FileContent),
    /// A refusal, with the discriminant `refusal`.
    Refusal(RefusalContent),
}

impl ToJson for ContentItem {
    open spec fn wire(&self) -> JsonModel {
        match self {
            ContentItem::Text(c) => c.wire(),
            ContentItem::ImageUrl(c) => c.wire(),
            ContentItem::InputAudio(c) => c.wire(),
            ContentItem::File(c) => c.wire(),
            ContentItem::Refusal(c) => c.wire(),
        }
    }

    fn to_json(&self) -> (r: JsonValue) {
        match self {
            ContentItem::Text(c) => c.to_json(),
            ContentItem::ImageUrl(c) => c.to_json(),
            ContentItem::InputAudio(c) => c.to_json(),
            ContentItem::File(c) => c.to_json(),
            ContentItem::Refusal(c) => c.to_json(),
        }
    }
}

impl FromJson for ContentItem {
    /// A part is decodable where it carries one of the five discriminants and
    /// the members that this discriminant asks for.
    open spec fn decodable(v: JsonModel) -> bool {
        ||| TextContent::decodable(v)
        ||| ImageUrlContent::decodable(v)
        ||| InputAudioContent::decodable(v)
        ||| FileContent::decodable(v)
        ||| RefusalContent::decodable(v)
    }

    open spec fn decoded_from(&self, v: JsonModel) -> bool {
        match self {
            ContentItem::Text(c) => c.decoded_from(v),
            ContentItem::ImageUrl(c) => c.decoded_from(v),
            ContentItem::InputAudio(c) => c.decoded_from(v),
            ContentItem::File(c) => c.decoded_from(v),
            ContentItem::Refusal(c) => c.decoded_from(v),
        }
    }

    /// Decodes by the discriminant; an unknown one is a failure.
    fn from_json(v: &JsonValue) -> (r: Result<ContentItem, TwcError>) {
        proof {
            lemma_discriminants_differ();
        }
        match v.get("type") {
            Some(JsonValue::String(found)) => {
                if same_text(found, "text") {
                    match TextContent::from_json(v) {
                        Ok(c) => Ok(ContentItem::Text(c)),
                        Err(e) => Err(e),
                    }
                } else if same_text(found, "image_url") {
                    match ImageUrlContent::from_json(v) {
                        Ok(c) => Ok(ContentItem::ImageUrl(c)),
                        Err(e) => Err(e),
                    }
                } else if same_text(found, "input_audio") {
                    match InputAudioContent::from_json(v) {
                        Ok(c) => Ok(ContentItem::InputAudio(c)),
                        Err(e) => Err(e),
                    }
                } else if same_text(found, "file") {
                    match FileContent::from_json(v) {
                        Ok(c) => Ok(ContentItem::File(c)),
                        Err(e) => Err(e),
                    }
                } else if same_text(found, "refusal") {
                    match RefusalContent::from_json(v) {
                        Ok(c) => Ok(ContentItem::Refusal(c)),
                        Err(e) => Err(e),
                    }
                } else {
                    Err(shape_error("a known content type"))
                }
            },
            _ => Err(missing_error("type")),
        }
    }
}

/// The five discriminants are different strings.
pub proof fn lemma_discriminants_differ()
    ensures
        "text"@ != "image_url"@,
        "text"@ != "input_audio"@,
        "text"@ != "file"@,
        "text"@ != "refusal"@,
        "image_url"@ != "input_audio"@,
        "image_url"@ != "file"@,
        "image_url"@ != "refusal"@,
        "input_audio"@ != "file"@,
        "input_audio"@ != "refusal"@,
        "file"@ != "refusal"@,
{
    reveal_strlit("text");
    reveal_strlit("image_url");
    reveal_strlit("input_audio");
    reveal_strlit("file");
    reveal_strlit("refusal");
    assert("text"@[0] != "file"@[0]);
    assert("image_url"@.len() == 9);
    assert("input_audio"@.len() == 11);
    assert("refusal"@.len() == 7);
}

/// The content of a chat message: plain text, or a sequence of parts.
#[derive(Debug, Clone, PartialEq)]
pub enum ChatContent {
    /// Plain text, written as a bare JSON string.
    Text(String),
    /// Parts in order, written as a JSON array, also where there is one part only.
    Array(Vec<ContentItem>),
}

impl ToJson for ChatContent {
    open spec fn wire(&self) -> JsonModel {
        match self {
            ChatContent::Text(s) => s.wire(),
            ChatContent::Array(items) => items.wire(),
        }
    }

    fn to_json(&self) -> (r: JsonValue) {
        match self {
            ChatContent::Text(s) => s.to_json(),
            ChatContent::Array(items) => items.to_json(),
        }
    }
}

impl FromJson for ChatContent {
    open spec fn decodable(v: JsonModel) -> bool {
        String::decodable(v) || Vec::<ContentItem>::decodable(v)
    }

    open spec fn decoded_from(&self, v: JsonModel) -> bool {
        match self {
            ChatContent::Text(s) => s.decoded_from(v),
            ChatContent::Array(items) => items.decoded_from(v),
        }
    }

    /// Decodes by the shape of the value: a string is plain text, an array is
    /// a sequence of parts, everything else is a failure.
    fn from_json(v: &JsonValue) -> (r: Result<ChatContent, TwcError>) {
        match v {
            JsonValue::String(s) => Ok(ChatContent::Text(s.clone())),
            JsonValue::Array(_) => match Vec::<ContentItem>::from_json(v) {
                Ok(items) => Ok(ChatContent::Array(items)),
                Err(e) => Err(e),
            },
            _ => Err(shape_error("a string or an array")),
        }
    }
}

impl ContentItem {
    /// A part survives the wire: its wire form decodes, and whatever it decodes
    /// to has the same wire form.
    pub proof fn lemma_round_trip(self, back: ContentItem)
        ensures
            ContentItem::decodable(self.wire()),
            back.decoded_from(self.wire()) ==> back.wire() == self.wire(),
    {
        lemma_discriminants_differ();
        match self {
            ContentItem::Text(c) => {
                c.lemma_round_trip(c);
                if let ContentItem::Text(d) = back {
                    c.lemma_round_trip(d);
                }
            },
            ContentItem::ImageUrl(c) => {
                c.lemma_round_trip(c);
                if let ContentItem::ImageUrl(d) = back {
                    c.lemma_round_trip(d);
                }
            },
            ContentItem::InputAudio(c) => {
                c.lemma_round_trip(c);
                if let ContentItem::InputAudio(d) = back {
                    c.lemma_round_trip(d);
                }
            },
            ContentItem::File(c) => {
                c.lemma_round_trip(c);
                if let ContentItem::File(d) = back {
                    c.lemma_round_trip(d);
                }
            },
            ContentItem::Refusal(c) => {
                c.lemma_round_trip(c);
                if let ContentItem::Refusal(d) = back {
                    c.lemma_round_trip(d);
                }
            },
        }
    }
}

impl ChatContent {
    /// Plain text survives the wire: a bare string decodes, and only to plain
    /// text with the same characters.
    pub proof fn lemma_text_round_trip(text: String, back: ChatContent)
        ensures
            ChatContent::decodable(ChatContent::Text(text).wire()),
            back.decoded_from(ChatContent::Text(text).wire()) ==> back.wire() == ChatContent::Text(
                text,
            ).wire(),
    {
    }

    /// A sequence of parts survives the wire: the array decodes, and only to a
    /// sequence of parts with the same wire form.
    pub proof fn lemma_array_round_trip(items: Vec<ContentItem>, back: ChatContent)
        ensures
            ChatContent::decodable(ChatContent::Array(items).wire()),
            back.decoded_from(ChatContent::Array(items).wire()) ==> back.wire()
                == ChatContent::Array(items).wire(),
    {
        let sent = wire_all(items@);
        assert forall|i: int| 0 <= i < sent.len() implies ContentItem::decodable(
            #[trigger] sent[i],
        ) by {
            items@[i].lemma_round_trip(items@[i]);
        }
        if back.decoded_from(ChatContent::Array(items).wire()) {
            let received = back->Array_0;
            assert forall|i: int| 0 <= i < sent.len() implies received@[i].wire() == sent[i] by {
                items@[i].lemma_round_trip(received@[i]);
            }
            assert(wire_all(received@) =~= sent);
        }
    }

    /// Encoding is stable under a round trip: the wire form of any content
    /// decodes, and whatever it decodes to is encoded as the same wire form.
    pub proof fn lemma_round_trip(self, back: ChatContent)
        ensures
            ChatContent::decodable(self.wire()),
            back.decoded_from(self.wire()) ==> back.wire() == self.wire(),
    {
        match self {
            ChatContent::Text(text) => {
                ChatContent::lemma_text_round_trip(text, back);
            },
            ChatContent::Array(items) => {
                ChatContent::lemma_array_round_trip(items, back);
            },
        }
    }

    /// A sequence of parts is written as an array with one item for each part,
    /// in order. In particular a single part gives an array of one item, never
    /// a bare string.
    pub proof fn lemma_array_stays_array(items: Vec<ContentItem>)
        ensures
            ChatContent::Array(items).wire() matches JsonModel::Array(a) && a.len() == items@.len()
                && forall|i: int| 0 <= i < a.len() ==> a[i] == items@[i].wire(),
            items@.len() == 1 ==> ChatContent::Array(items).wire() == JsonModel::Array(
                seq![items@[0].wire()],
            ),
    {
        if items@.len() == 1 {
            assert(wire_all(items@) =~= seq![items@[0].wire()]);
        }
    }
}

/// One message of a chat: who speaks and what is said.
#[derive(Debug, Clone, PartialEq)]
pub struct ChatMessage {
    /// Who speaks.
    pub role: Role,
    /// What is said.
    pub content: ChatContent,
}

impl ToJson for ChatMessage {
    open spec fn wire(&self) -> JsonModel {
        object(
            Seq::empty()
                .push(field("role", self.role))
                .push(field("content", self.content)),
        )
    }

    fn to_json(&self) -> (r: JsonValue) {
        ObjectWriter::new()
            .put("role", &self.role)
            .put("content", &self.content)
            .finish()
    }
}

impl FromJson for ChatMessage {
    open spec fn decodable(v: JsonModel) -> bool {
        &&& member_ok::<Role>(v, "role")
        &&& member_ok::<ChatContent>(v, "content")
    }

    open spec fn decoded_from(&self, v: JsonModel) -> bool {
        &&& member_is(self.role, v, "role")
        &&& member_is(self.content, v, "content")
    }

    fn from_json(v: &JsonValue) -> (r: Result<ChatMessage, TwcError>) {
        let role = match read::<Role>(v, "role") {
            Ok(x) => x,
            Err(e) => {
                return Err(e);
            },
        };
        let content = match read::<ChatContent>(v, "content") {
            Ok(x) => x,
            Err(e) => {
                return Err(e);
            },
        };
        Ok(ChatMessage { role, content })
    }
}

impl ChatMessage {
    /// A message of the user with plain text.
    pub fn user(text: &str) -> (m: ChatMessage)
        ensures
            m.role == Role::User,
            m.content matches ChatContent::Text(s) && s@ == text@,
    {
        ChatMessage { role: Role::User, content: ChatContent::Text(String::from_str(text)) }
    }

    /// A system message with plain text.
    pub fn system(text: &str) -> (m: ChatMessage)
        ensures
            m.role == Role::System,
            m.content matches ChatContent::Text(s) && s@ == text@,
    {
        ChatMessage { role: Role::System, content: ChatContent::Text(String::from_str(text)) }
    }

    /// A message of the assistant with plain text.
    pub fn assistant(text: &str) -> (m: ChatMessage)
        ensures
            m.role == Role::Assistant,
            m.content matches ChatContent::Text(s) && s@ == text@,
    {
        ChatMessage { role: Role::Assistant, content: ChatContent::Text(String::from_str(text)) }
    }

    /// A message of the user made of parts. The parts are taken as they are:
    /// neither their number nor their order is checked.
    pub fn user_multimodal(items: Vec<ContentItem>) -> (m: ChatMessage)
        ensures
            m.role == Role::User,
            m.content == ChatContent::Array(items),
    {
        ChatMessage { role: Role::User, content: ChatContent::Array(items) }
    }
}

/// A single-turn call of an agent.
#[derive(Debug, Clone, PartialEq)]
pub struct AgentCallRequest {
    /// The message for the agent.
    pub message: Option<String>,
    /// The message that this one continues.
    pub parent_message_id: Option<String>,
    /// The files attached to the message.
    pub file_ids: Option<Vec<String>>,
}

impl ToJson for AgentCallRequest {
    open spec fn wire(&self) -> JsonModel {
        object(
            Seq::empty()
                .push(optional("message", self.message))
                .push(optional("parent_message_id", self.parent_message_id))
                .push(optional("file_ids", self.file_ids)),
        )
    }

    fn to_json(&self) -> (r: JsonValue) {
        ObjectWriter::new()
            .put_opt("message", &self.message)
            .put_opt("parent_message_id", &self.parent_message_id)
            .put_opt("file_ids", &self.file_ids)
            .finish()
    }
}

impl FromJson for AgentCallRequest {
    open spec fn decodable(v: JsonModel) -> bool {
        &&& v is Object
        &&& optional_ok::<String>(v, "message")
        &&& optional_ok::<String>(v, "parent_message_id")
        &&& optional_ok::<Vec<String>>(v, "file_ids")
    }

    open spec fn decoded_from(&self, v: JsonModel) -> bool {
        &&& v is Object
        &&& optional_is(self.message, v, "message")
        &&& optional_is(self.parent_message_id, v, "parent_message_id")
        &&& optional_is(self.file_ids, v, "file_ids")
    }

    fn from_json(v: &JsonValue) -> (r: Result<AgentCallRequest, TwcError>) {
        match v {
            JsonValue::Object(_) => {},
            _ => {
                return Err(shape_error("an object"));
            },
        }
        let message = match read_opt::<String>(v, "message") {
            Ok(x) => x,
            Err(e) => {
                return Err(e);
            },
        };
        let parent_message_id = match read_opt::<String>(v, "parent_message_id") {
            Ok(x) => x,
            Err(e) => {
                return Err(e);
            },
        };
        let file_ids = match read_opt::<Vec<String>>(v, "file_ids") {
            Ok(x) => x,
            Err(e) => {
                return Err(e);
            },
        };
        Ok(AgentCallRequest { message, parent_message_id, file_ids })
    }
}

impl Default for AgentCallRequest {
    fn default() -> (r: AgentCallRequest)
        ensures
            r.message is None,
            r.parent_message_id is None,
            r.file_ids is None,
    {
        AgentCallRequest { message: None, parent_message_id: None, file_ids: None }
    }
}

/// The answer of an agent to a single-turn call.
#[derive(Debug, Clone, PartialEq)]
pub struct AgentCallResponse {
    /// The answer.
    pub message: String,
    /// The identifier of the answer, to continue from.
    pub id: String,
    /// Why the agent stopped, as the service reports it.
    pub finish_reason: Option<JsonValue>,
}

impl ToJson for AgentCallResponse {
    open spec fn wire(&self) -> JsonModel {
        object(
            Seq::empty()
                .push(field("message", self.message))
                .push(field("id", self.id))
                .push(optional("finish_reason", self.finish_reason)),
        )
    }

    fn to_json(&self) -> (r: JsonValue) {
        ObjectWriter::new()
            .put("message", &self.message)
            .put("id", &self.id)
            .put_opt("finish_reason", &self.finish_reason)
            .finish()
    }
}

impl FromJson for AgentCallResponse {
    open spec fn decodable(v: JsonModel) -> bool {
        &&& member_ok::<String>(v, "message")
        &&& member_ok::<String>(v, "id")
        &&& optional_ok::<JsonValue>(v, "finish_reason")
    }

    open spec fn decoded_from(&self, v: JsonModel) -> bool {
        &&& member_is(self.message, v, "message")
        &&& member_is(self.id, v, "id")
        &&& optional_is(self.finish_reason, v, "finish_reason")
    }

    fn from_json(v: &JsonValue) -> (r: Result<AgentCallResponse, TwcError>) {
        let message = match read::<String>(v, "message") {
            Ok(x) => x,
            Err(e) => {
                return Err(e);
            },
        };
        let id = match read::<String>(v, "id") {
            Ok(x) => x,
            Err(e) => {
                return Err(e);
            },
        };
        let finish_reason = match read_opt::<JsonValue>(v, "finish_reason") {
            Ok(x) => x,
            Err(e) => {
                return Err(e);
            },
        };
        Ok(AgentCallResponse { message, id, finish_reason })
    }
}

/// A request for a chat completion.
#[derive(Debug, Clone, PartialEq)]
pub struct ChatCompletionRequest {
    /// The model to use; the agent's own configuration takes precedence.
    pub model: Option<String>,
    /// The conversation so far.
    pub messages: Vec<ChatMessage>,
    /// The sampling temperature, from 0 to 2.
    pub temperature: Option<JsonNumber>,
    /// The nucleus sampling parameter, from 0 to 1.
    pub top_p: Option<JsonNumber>,
    /// How many choices to generate.
    pub n: Option<u32>,
    /// Whether the answer is streamed.
    pub stream: Option<bool>,
    /// Options of a streamed answer.
    pub stream_options: Option<StreamOptions>,
    /// Sequences at which generation stops.
    pub stop: Option<Vec<String>>,
    /// The most tokens to generate (older name).
    pub max_tokens: Option<u32>,
    /// The most tokens to generate.
    pub max_completion_tokens: Option<u32>,
    /// The presence penalty, from -2 to 2.
    pub presence_penalty: Option<JsonNumber>,
    /// The frequency penalty, from -2 to 2.
    pub frequency_penalty: Option<JsonNumber>,
    /// An identifier of the end user.
    pub user: Option<String>,
}

impl ToJson for ChatCompletionRequest {
    open spec fn wire(&self) -> JsonModel {
        object(
            Seq::empty()
                .push(optional("model", self.model))
                .push(field("messages", self.messages))
                .push(optional("temperature", self.temperature))
                .push(optional("top_p", self.top_p))
                .push(optional("n", self.n))
                .push(optional("stream", self.stream))
                .push(optional("stream_options", self.stream_options))
                .push(optional("stop", self.stop))
                .push(optional("max_tokens", self.max_tokens))
                .push(optional("max_completion_tokens", self.max_completion_tokens))
                .push(optional("presence_penalty", self.presence_penalty))
                .push(optional("frequency_penalty", self.frequency_penalty))
                .push(optional("user", self.user)),
        )
    }

    fn to_json(&self) -> (r: JsonValue) {
        ObjectWriter::new()
            .put_opt("model", &self.model)
            .put("messages", &self.messages)
            .put_opt("temperature", &self.temperature)
            .put_opt("top_p", &self.top_p)
            .put_opt("n", &self.n)
            .put_opt("stream", &self.stream)
            .put_opt("stream_options", &self.stream_options)
            .put_opt("stop", &self.stop)
            .put_opt("max_tokens", &self.max_tokens)
            .put_opt("max_completion_tokens", &self.max_completion_tokens)
            .put_opt("presence_penalty", &self.presence_penalty)
            .put_opt("frequency_penalty", &self.frequency_penalty)
            .put_opt("user", &self.user)
            .finish()
    }
}

impl FromJson for ChatCompletionRequest {
    open spec fn decodable(v: JsonModel) -> bool {
        &&& optional_ok::<String>(v, "model")
        &&& member_ok::<Vec<ChatMessage>>(v, "messages")
        &&& optional_ok::<JsonNumber>(v, "temperature")
        &&& optional_ok::<JsonNumber>(v, "top_p")
        &&& optional_ok::<u32>(v, "n")
        &&& optional_ok::<bool>(v, "stream")
        &&& optional_ok::<StreamOptions>(v, "stream_options")
        &&& optional_ok::<Vec<String>>(v, "stop")
        &&& optional_ok::<u32>(v, "max_tokens")
        &&& optional_ok::<u32>(v, "max_completion_tokens")
        &&& optional_ok::<JsonNumber>(v, "presence_penalty")
        &&& optional_ok::<JsonNumber>(v, "frequency_penalty")
        &&& optional_ok::<String>(v, "user")
    }

    open spec fn decoded_from(&self, v: JsonModel) -> bool {
        &&& optional_is(self.model, v, "model")
        &&& member_is(self.messages, v, "messages")
        &&& optional_is(self.temperature, v, "temperature")
        &&& optional_is(self.top_p, v, "top_p")
        &&& optional_is(self.n, v, "n")
        &&& optional_is(self.stream, v, "stream")
        &&& optional_is(self.stream_options, v, "stream_options")
        &&& optional_is(self.stop, v, "stop")
        &&& optional_is(self.max_tokens, v, "max_tokens")
        &&& optional_is(self.max_completion_tokens, v, "max_completion_tokens")
        &&& optional_is(self.presence_penalty, v, "presence_penalty")
        &&& optional_is(self.frequency_penalty, v, "frequency_penalty")
        &&& optional_is(self.user, v, "user")
    }

    fn from_json(v: &JsonValue) -> (r: Result<ChatCompletionRequest, TwcError>) {
        let model = match read_opt::<String>(v, "model") {
            Ok(x) => x,
            Err(e) => {
                return Err(e);
            },
        };
        let messages = match read::<Vec<ChatMessage>>(v, "messages") {
            Ok(x) => x,
            Err(e) => {
                return Err(e);
            },
        };
        let temperature = match read_opt::<JsonNumber>(v, "temperature") {
            Ok(x) => x,
            Err(e) => {
                return Err(e);
            },
        };
        let top_p = match read_opt::<JsonNumber>(v, "top_p") {
            Ok(x) => x,
            Err(e) => {
                return Err(e);
            },
        };
        let n = match read_opt::<u32>(v, "n") {
            Ok(x) => x,
            Err(e) => {
                return Err(e);
            },
        };
        let stream = match read_opt::<bool>(v, "stream") {
            Ok(x) => x,
            Err(e) => {
                return Err(e);
            },
        };
        let stream_options = match read_opt::<StreamOptions>(v, "stream_options") {
            Ok(x) => x,
            Err(e) => {
                return Err(e);
            },
        };
        let stop = match read_opt::<Vec<String>>(v, "stop") {
            Ok(x) => x,
            Err(e) => {
                return Err(e);
            },
        };
        let max_tokens = match read_opt::<u32>(v, "max_tokens") {
            Ok(x) => x,
            Err(e) => {
                return Err(e);
            },
        };
        let max_completion_tokens = match read_opt::<u32>(v, "max_completion_tokens") {
            Ok(x) => x,
            Err(e) => {
                return Err(e);
            },
        };
        let presence_penalty = match read_opt::<JsonNumber>(v, "presence_penalty") {
            Ok(x) => x,
            Err(e) => {
                return Err(e);
            },
        };
        let frequency_penalty = match read_opt::<JsonNumber>(v, "frequency_penalty") {
            Ok(x) => x,
            Err(e) => {
                return Err(e);
            },
        };
        let user = match read_opt::<String>(v, "user") {
            Ok(x) => x,
            Err(e) => {
                return Err(e);
            },
        };
        Ok(ChatCompletionRequest {
            model,
            messages,
            temperature,
            top_p,
            n,
            stream,
            stream_options,
            stop,
            max_tokens,
            max_completion_tokens,
            presence_penalty,
            frequency_penalty,
            user,
        })
    }
}

impl Default for ChatCompletionRequest {
    fn default() -> (r: ChatCompletionRequest)
        ensures
            r.model is None,
            r.messages@.len() == 0,
            r.temperature is None,
            r.top_p is None,
            r.n is None,
            r.stream is None,
            r.stream_options is None,
            r.stop is None,
            r.max_tokens is None,
            r.max_completion_tokens is None,
            r.presence_penalty is None,
            r.frequency_penalty is None,
            r.user is None,
    {
        ChatCompletionRequest {
            model: None,
            messages: Vec::new(),
            temperature: None,
            top_p: None,
            n: None,
            stream: None,
            stream_options: None,
            stop: None,
            max_tokens: None,
            max_completion_tokens: None,
            presence_penalty: None,
            frequency_penalty: None,
            user: None,
        }
    }
}

/// One generated answer.
#[derive(Debug, Clone, PartialEq)]
pub struct ChatCompletionChoice {
    /// The place of the choice among the choices.
    pub index: u32,
    /// The generated message.
    pub message: ChatMessage,
    /// Why the model stopped.
    pub finish_reason: Option<FinishReason>,
}

impl ToJson for ChatCompletionChoice {
    open spec fn wire(&self) -> JsonModel {
        object(
            Seq::empty()
                .push(field("index", self.index))
                .push(field("message", self.message))
                .push(field("finish_reason", self.finish_reason)),
        )
    }

    fn to_json(&self) -> (r: JsonValue) {
        ObjectWriter::new()
            .put("index", &self.index)
            .put("message", &self.message)
            .put("finish_reason", &self.finish_reason)
            .finish()
    }
}

impl FromJson for ChatCompletionChoice {
    open spec fn decodable(v: JsonModel) -> bool {
        &&& member_ok::<u32>(v, "index")
        &&& member_ok::<ChatMessage>(v, "message")
        &&& optional_ok::<FinishReason>(v, "finish_reason")
    }

    open spec fn decoded_from(&self, v: JsonModel) -> bool {
        &&& member_is(self.index, v, "index")
        &&& member_is(self.message, v, "message")
        &&& optional_is(self.finish_reason, v, "finish_reason")
    }

    fn from_json(v: &JsonValue) -> (r: Result<ChatCompletionChoice, TwcError>) {
        let index = match read::<u32>(v, "index") {
            Ok(x) => x,
            Err(e) => {
                return Err(e);
            },
        };
        let message = match read::<ChatMessage>(v, "message") {
            Ok(x) => x,
            Err(e) => {
                return Err(e);
            },
        };
        let finish_reason = match read_opt::<FinishReason>(v, "finish_reason") {
            Ok(x) => x,
            Err(e) => {
                return Err(e);
            },
        };
        Ok(ChatCompletionChoice { index, message, finish_reason })
    }
}

/// The answer to a chat completion request.
#[derive(Debug, Clone, PartialEq)]
pub struct ChatCompletionResponse {
    /// The identifier of the completion.
    pub id: String,
    /// The kind of object: `chat.completion`.
    pub object: String,
    /// When the completion was created, in seconds since the Unix epoch.
    pub created: i64,
    /// The model that answered.
    pub model: String,
    /// The generated answers.
    pub choices: Vec<ChatCompletionChoice>,
    /// The token counts.
    pub usage: Usage,
}

impl ToJson for ChatCompletionResponse {
    open spec fn wire(&self) -> JsonModel {
        object(
            Seq::empty()
                .push(field("id", self.id))
                .push(field("object", self.object))
                .push(field("created", self.created))
                .push(field("model", self.model))
                .push(field("choices", self.choices))
                .push(field("usage", self.usage)),
        )
    }

    fn to_json(&self) -> (r: JsonValue) {
        ObjectWriter::new()
            .put("id", &self.id)
            .put("object", &self.object)
            .put("created", &self.created)
            .put("model", &self.model)
            .put("choices", &self.choices)
            .put("usage", &self.usage)
            .finish()
    }
}

impl FromJson for ChatCompletionResponse {
    open spec fn decodable(v: JsonModel) -> bool {
        &&& member_ok::<String>(v, "id")
        &&& member_ok::<String>(v, "object")
        &&& member_ok::<i64>(v, "created")
        &&& member_ok::<String>(v, "model")
        &&& member_ok::<Vec<ChatCompletionChoice>>(v, "choices")
        &&& member_ok::<Usage>(v, "usage")
    }

    open spec fn decoded_from(&self, v: JsonModel) -> bool {
        &&& member_is(self.id, v, "id")
        &&& member_is(self.object, v, "object")
        &&& member_is(self.created, v, "created")
        &&& member_is(self.model, v, "model")
        &&& member_is(self.choices, v, "choices")
        &&& member_is(self.usage, v, "usage")
    }

    fn from_json(v: &JsonValue) -> (r: Result<ChatCompletionResponse, TwcError>) {
        let id = match read::<String>(v, "id") {
            Ok(x) => x,
            Err(e) => {
                return Err(e);
            },
        };
        let object = match read::<String>(v, "object") {
            Ok(x) => x,
            Err(e) => {
                return Err(e);
            },
        };
        let created = match read::<i64>(v, "created") {
            Ok(x) => x,
            Err(e) => {
                return Err(e);
            },
        };
        let model = match read::<String>(v, "model") {
            Ok(x) => x,
            Err(e) => {
                return Err(e);
            },
        };
        let choices = match read::<Vec<ChatCompletionChoice>>(v, "choices") {
            Ok(x) => x,
            Err(e) => {
                return Err(e);
            },
        };
        let usage = match read::<Usage>(v, "usage") {
            Ok(x) => x,
            Err(e) => {
                return Err(e);
            },
        };
        Ok(ChatCompletionResponse { id, object, created, model, choices, usage })
    }
}

} // verus!
