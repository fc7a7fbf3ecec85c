//! Responses.

use crate::error::TwcError;
use crate::json::{JsonModel, JsonNumber, JsonValue};
use crate::query::{
    flag_pairs, list_pairs, number_pairs, pairs_view, push_flag, push_list, push_number, ToQuery,
};
use crate::text::same_text;
use crate::wire::{
    field, member_is, member_ok, object, optional, optional_is, optional_ok, read, read_opt,
    shape_error, FromJson, ObjectWriter, ToJson,
};
use vstd::prelude::*;
use vstd::string::*;

verus! {

/// The input of a response: plain text, or a list of messages.
#[derive(Debug, Clone, PartialEq)]
pub enum ResponseInput {
    /// Plain text, written as a bare JSON string.
    Text(String),
    /// Messages, each passed through as it is, written as a JSON array.
    Messages(Vec<JsonValue>),
}

impl ToJson for ResponseInput {
    open spec fn wire(&self) -> JsonModel {
        match self {
            ResponseInput::Text(s) => s.wire(),
            ResponseInput::Messages(items) => items.wire(),
        }
    }

    fn to_json(&self) -> (r: JsonValue) {
        match self {
            ResponseInput::Text(s) => s.to_json(),
            ResponseInput::Messages(items) => items.to_json(),
        }
    }
}

impl FromJson for ResponseInput {
    open spec fn decodable(v: JsonModel) -> bool {
        v is String || v is Array
    }

    open spec fn decoded_from(&self, v: JsonModel) -> bool {
        match self {
            ResponseInput::Text(s) => s.decoded_from(v),
            ResponseInput::Messages(items) => items.decoded_from(v),
        }
    }

    /// Decodes by the shape of the value: a string is plain text, an array is
    /// a list of messages, everything else is a failure.
    fn from_json(v: &JsonValue) -> (r: Result<ResponseInput, TwcError>) {
        match v {
            JsonValue::String(s) => Ok(ResponseInput::Text(s.clone())),
            JsonValue::Array(_) => match Vec::<JsonValue>::from_json(v) {
                Ok(items) => Ok(ResponseInput::Messages(items)),
                Err(e) => Err(e),
            },
            _ => Err(shape_error("a string or an array")),
        }
    }
}

/// A request to create a response.
#[derive(Debug, Clone, PartialEq)]
pub struct CreateResponseRequest {
    /// The model to use; the agent's own configuration takes precedence.
    pub model: Option<String>,
    /// Instructions for the answer.
    pub instructions: Option<String>,
    /// The input: text or messages.
    pub input: Option<ResponseInput>,
    /// The most tokens to generate.
    pub max_output_tokens: Option<u32>,
    /// The sampling temperature.
    pub temperature: Option<JsonNumber>,
    /// Key-value pairs attached to the response.
    pub metadata: Option<JsonValue>,
    /// The tools offered to the model.
    pub tools: Option<JsonValue>,
    /// Whether the answer is streamed.
    pub stream: Option<bool>,
    /// Options of a streamed answer.
    pub stream_options: Option<JsonValue>,
    /// Whether the model runs in the background.
    pub background: Option<bool>,
    /// The configuration of the text output.
    pub text: Option<JsonValue>,
    /// How the model chooses among the tools.
    pub tool_choice: Option<JsonValue>,
    /// Whether tool calls may run in parallel.
    pub parallel_tool_calls: Option<bool>,
    /// The most calls of built-in tools.
    pub max_tool_calls: Option<u32>,
    /// The response that this one continues.
    pub previous_response_id: Option<String>,
    /// The conversation that the response belongs to.
    pub conversation: Option<JsonValue>,
    /// Additional output to include.
    pub includes: Option<Vec<String>>,
    /// Whether the response is kept for later retrieval.
    pub store: Option<bool>,
    /// The nucleus sampling parameter.
    pub top_p: Option<JsonNumber>,
    /// How many of the likeliest tokens to report at each position.
    pub top_logprobs: Option<u32>,
    /// The truncation strategy.
    pub truncation: Option<String>,
    /// The service tier.
    pub service_tier: Option<String>,
    /// A stable identifier of the end user, for the detection of abuse.
    pub safety_identifier: Option<String>,
    /// A key by which similar requests are cached.
    pub prompt_cache_key: Option<String>,
    /// A prompt template and its variables.
    pub prompt: Option<JsonValue>,
    /// The configuration of reasoning models.
    pub reasoning: Option<JsonValue>,
    /// An identifier of the end user (older name).
    pub user: Option<String>,
}

impl ToJson for CreateResponseRequest {
    open spec fn wire(&self) -> JsonModel {
        object(
            Seq::empty()
                .push(optional("model", self.model))
                .push(optional("instructions", self.instructions))
                .push(optional("input", self.input))
                .push(optional("max_output_tokens", self.max_output_tokens))
                .push(optional("temperature", self.temperature))
                .push(optional("metadata", self.metadata))
                .push(optional("tools", self.tools))
                .push(optional("stream", self.stream))
                .push(optional("stream_options", self.stream_options))
                .push(optional("background", self.background))
                .push(optional("text", self.text))
                .push(optional("tool_choice", self.tool_choice))
                .push(optional("parallel_tool_calls", self.parallel_tool_calls))
                .push(optional("max_tool_calls", self.max_tool_calls))
                .push(optional("previous_response_id", self.previous_response_id))
                .push(optional("conversation", self.conversation))
                .push(optional("include", self.includes))
                .push(optional("store", self.store))
                .push(optional("top_p", self.top_p))
                .push(optional("top_logprobs", self.top_logprobs))
                .push(optional("truncation", self.truncation))
                .push(optional("service_tier", self.service_tier))
                .push(optional("safety_identifier", self.safety_identifier))
                .push(optional("prompt_cache_key", self.prompt_cache_key))
                .push(optional("prompt", self.prompt))
                .push(optional("reasoning", self.reasoning))
                .push(optional("user", self.user)),
        )
    }

    fn to_json(&self) -> (r: JsonValue) {
        ObjectWriter::new()
            .put_opt("model", &self.model)
            .put_opt("instructions", &self.instructions)
            .put_opt("input", &self.input)
            .put_opt("max_output_tokens", &self.max_output_tokens)
            .put_opt("temperature", &self.temperature)
            .put_opt("metadata", &self.metadata)
            .put_opt("tools", &self.tools)
            .put_opt("stream", &self.stream)
            .put_opt("stream_options", &self.stream_options)
            .put_opt("background", &self.background)
            .put_opt("text", &self.text)
            .put_opt("tool_choice", &self.tool_choice)
            .put_opt("parallel_tool_calls", &self.parallel_tool_calls)
            .put_opt("max_tool_calls", &self.max_tool_calls)
            .put_opt("previous_response_id", &self.previous_response_id)
            .put_opt("conversation", &self.conversation)
            .put_opt("include", &self.includes)
            .put_opt("store", &self.store)
            .put_opt("top_p", &self.top_p)
            .put_opt("top_logprobs", &self.top_logprobs)
            .put_opt("truncation", &self.truncation)
            .put_opt("service_tier", &self.service_tier)
            .put_opt("safety_identifier", &self.safety_identifier)
            .put_opt("prompt_cache_key", &self.prompt_cache_key)
            .put_opt("prompt", &self.prompt)
            .put_opt("reasoning", &self.reasoning)
            .put_opt("user", &self.user)
            .finish()
    }
}

impl FromJson for CreateResponseRequest {
    open spec fn decodable(v: JsonModel) -> bool {
        &&& v is Object
        &&& optional_ok::<String>(v, "model")
        &&& optional_ok::<String>(v, "instructions")
        &&& optional_ok::<ResponseInput>(v, "input")
        &&& optional_ok::<u32>(v, "max_output_tokens")
        &&& optional_ok::<JsonNumber>(v, "temperature")
        &&& optional_ok::<JsonValue>(v, "metadata")
        &&& optional_ok::<JsonValue>(v, "tools")
        &&& optional_ok::<bool>(v, "stream")
        &&& optional_ok::<JsonValue>(v, "stream_options")
        &&& optional_ok::<bool>(v, "background")
        &&& optional_ok::<JsonValue>(v, "text")
        &&& optional_ok::<JsonValue>(v, "tool_choice")
        &&& optional_ok::<bool>(v, "parallel_tool_calls")
        &&& optional_ok::<u32>(v, "max_tool_calls")
        &&& optional_ok::<String>(v, "previous_response_id")
        &&& optional_ok::<JsonValue>(v, "conversation")
        &&& optional_ok::<Vec<String>>(v, "include")
        &&& optional_ok::<bool>(v, "store")
        &&& optional_ok::<JsonNumber>(v, "top_p")
        &&& optional_ok::<u32>(v, "top_logprobs")
        &&& optional_ok::<String>(v, "truncation")
        &&& optional_ok::<String>(v, "service_tier")
        &&& optional_ok::<String>(v, "safety_identifier")
        &&& optional_ok::<String>(v, "prompt_cache_key")
        &&& optional_ok::<JsonValue>(v, "prompt")
        &&& optional_ok::<JsonValue>(v, "reasoning")
        &&& optional_ok::<String>(v, "user")
    }

    open spec fn decoded_from(&self, v: JsonModel) -> bool {
        &&& v is Object
        &&& optional_is(self.model, v, "model")
        &&& optional_is(self.instructions, v, "instructions")
        &&& optional_is(self.input, v, "input")
        &&& optional_is(self.max_output_tokens, v, "max_output_tokens")
        &&& optional_is(self.temperature, v, "temperature")
        &&& optional_is(self.metadata, v, "metadata")
        &&& optional_is(self.tools, v, "tools")
        &&& optional_is(self.stream, v, "stream")
        &&& optional_is(self.stream_options, v, "stream_options")
        &&& optional_is(self.background, v, "background")
        &&& optional_is(self.text, v, "text")
        &&& optional_is(self.tool_choice, v, "tool_choice")
        &&& optional_is(self.parallel_tool_calls, v, "parallel_tool_calls")
        &&& optional_is(self.max_tool_calls, v, "max_tool_calls")
        &&& optional_is(self.previous_response_id, v, "previous_response_id")
        &&& optional_is(self.conversation, v, "conversation")
        &&& optional_is(self.includes, v, "include")
        &&& optional_is(self.store, v, "store")
        &&& optional_is(self.top_p, v, "top_p")
        &&& optional_is(self.top_logprobs, v, "top_logprobs")
        &&& optional_is(self.truncation, v, "truncation")
        &&& optional_is(self.service_tier, v, "service_tier")
        &&& optional_is(self.safety_identifier, v, "safety_identifier")
        &&& optional_is(self.prompt_cache_key, v, "prompt_cache_key")
        &&& optional_is(self.prompt, v, "prompt")
        &&& optional_is(self.reasoning, v, "reasoning")
        &&& optional_is(self.user, v, "user")
    }

    fn from_json(v: &JsonValue) -> (r: Result<CreateResponseRequest, TwcError>) {
        match v {
            JsonValue::Object(_) => {},
            _ => {
                return Err(shape_error("an object"));
            },
        }
        let model = match read_opt::<String>(v, "model") {
            Ok(x) => x,
            Err(e) => {
                return Err(e);
            },
        };
        let instructions = match read_opt::<String>(v, "instructions") {
            Ok(x) => x,
            Err(e) => {
                return Err(e);
            },
        };
        let input = match read_opt::<ResponseInput>(v, "input") {
            Ok(x) => x,
            Err(e) => {
                return Err(e);
            },
        };
        let max_output_tokens = match read_opt::<u32>(v, "max_output_tokens") {
            Ok(x) => x,
            Err(e) => {
                return Err(e);
            },
        };
        let temperature = match read_opt::<JsonNumber>(v, "temperature") {
            Ok(x) => x,
            Err(e) => {
                return Err(e);
            },
        };
        let metadata = match read_opt::<JsonValue>(v, "metadata") {
            Ok(x) => x,
            Err(e) => {
                return Err(e);
            },
        };
        let tools = match read_opt::<JsonValue>(v, "tools") {
            Ok(x) => x,
            Err(e) => {
                return Err(e);
            },
        };
        let stream = match read_opt::<bool>(v, "stream") {
            Ok(x) => x,
            Err(e) => {
                return Err(e);
            },
        };
        let stream_options = match read_opt::<JsonValue>(v, "stream_options") {
            Ok(x) => x,
            Err(e) => {
                return Err(e);
            },
        };
        let background = match read_opt::<bool>(v, "background") {
            Ok(x) => x,
            Err(e) => {
                return Err(e);
            },
        };
        let text = match read_opt::<JsonValue>(v, "text") {
            Ok(x) => x,
            Err(e) => {
                return Err(e);
            },
        };
        let tool_choice = match read_opt::<JsonValue>(v, "tool_choice") {
            Ok(x) => x,
            Err(e) => {
                return Err(e);
            },
        };
        let parallel_tool_calls = match read_opt::<bool>(v, "parallel_tool_calls") {
            Ok(x) => x,
            Err(e) => {
                return Err(e);
            },
        };
        let max_tool_calls = match read_opt::<u32>(v, "max_tool_calls") {
            Ok(x) => x,
            Err(e) => {
                return Err(e);
            },
        };
        let previous_response_id = match read_opt::<String>(v, "previous_response_id") {
            Ok(x) => x,
            Err(e) => {
                return Err(e);
            },
        };
        let conversation = match read_opt::<JsonValue>(v, "conversation") {
            Ok(x) => x,
            Err(e) => {
                return Err(e);
            },
        };
        let includes = match read_opt::<Vec<String>>(v, "include") {
            Ok(x) => x,
            Err(e) => {
                return Err(e);
            },
        };
        let store = match read_opt::<bool>(v, "store") {
            Ok(x) => x,
            Err(e) => {
                return Err(e);
            },
        };
        let top_p = match read_opt::<JsonNumber>(v, "top_p") {
            Ok(x) => x,
            Err(e) => {
                return Err(e);
            },
        };
        let top_logprobs = match read_opt::<u32>(v, "top_logprobs") {
            Ok(x) => x,
            Err(e) => {
                return Err(e);
            },
        };
        let truncation = match read_opt::<String>(v, "truncation") {
            Ok(x) => x,
            Err(e) => {
                return Err(e);
            },
        };
        let service_tier = match read_opt::<String>(v, "service_tier") {
            Ok(x) => x,
            Err(e) => {
                return Err(e);
            },
        };
        let safety_identifier = match read_opt::<String>(v, "safety_identifier") {
            Ok(x) => x,
            Err(e) => {
                return Err(e);
            },
        };
        let prompt_cache_key = match read_opt::<String>(v, "prompt_cache_key") {
            Ok(x) => x,
            Err(e) => {
                return Err(e);
            },
        };
        let prompt = match read_opt::<JsonValue>(v, "prompt") {
            Ok(x) => x,
            Err(e) => {
                return Err(e);
            },
        };
        let reasoning = match read_opt::<JsonValue>(v, "reasoning") {
            Ok(x) => x,
            Err(e) => {
                return Err(e);
            },
        };
        let user = match read_opt::<String>(v, "user") {
            Ok(x) => x,
            Err(e) => {
                return Err(e);
            },
        };
        Ok(CreateResponseRequest {
            model,
            instructions,
            input,
            max_output_tokens,
            temperature,
            metadata,
            tools,
            stream,
            stream_options,
            background,
            text,
            tool_choice,
            parallel_tool_calls,
            max_tool_calls,
            previous_response_id,
            conversation,
            includes,
            store,
            top_p,
            top_logprobs,
            truncation,
            service_tier,
            safety_identifier,
            prompt_cache_key,
            prompt,
            reasoning,
            user,
        })
    }
}

impl Default for CreateResponseRequest {
    fn default() -> (r: CreateResponseRequest)
        ensures
            r.model is None,
            r.instructions is None,
            r.input is None,
            r.max_output_tokens is None,
            r.temperature is None,
            r.metadata is None,
            r.tools is None,
            r.stream is None,
            r.stream_options is None,
            r.background is None,
            r.text is None,
            r.tool_choice is None,
            r.parallel_tool_calls is None,
            r.max_tool_calls is None,
            r.previous_response_id is None,
            r.conversation is None,
            r.includes is None,
            r.store is None,
            r.top_p is None,
            r.top_logprobs is None,
            r.truncation is None,
            r.service_tier is None,
            r.safety_identifier is None,
            r.prompt_cache_key is None,
            r.prompt is None,
            r.reasoning is None,
            r.user is None,
    {
        CreateResponseRequest {
            model: None,
            instructions: None,
            input: None,
            max_output_tokens: None,
            temperature: None,
            metadata: None,
            tools: None,
            stream: None,
            stream_options: None,
            background: None,
            text: None,
            tool_choice: None,
            parallel_tool_calls: None,
            max_tool_calls: None,
            previous_response_id: None,
            conversation: None,
            includes: None,
            store: None,
            top_p: None,
            top_logprobs: None,
            truncation: None,
            service_tier: None,
            safety_identifier: None,
            prompt_cache_key: None,
            prompt: None,
            reasoning: None,
            user: None,
        }
    }
}

/// Token counts of a response.
#[derive(Debug, Clone, PartialEq)]
pub struct ResponseUsage {
    /// Tokens in the prompt.
    pub prompt_tokens: u32,
    /// Tokens in the answer.
    pub completion_tokens: u32,
    /// Tokens in all.
    pub total_tokens: u32,
}

impl ToJson for ResponseUsage {
    open spec fn wire(&self) -> JsonModel {
        object(
            Seq::empty()
                .push(field("prompt_tokens", self.prompt_tokens))
                .push(field("completion_tokens", self.completion_tokens))
                .push(field("total_tokens", self.total_tokens)),
        )
    }

    fn to_json(&self) -> (r: JsonValue) {
        ObjectWriter::new()
            .put("prompt_tokens", &self.prompt_tokens)
            .put("completion_tokens", &self.completion_tokens)
            .put("total_tokens", &self.total_tokens)
            .finish()
    }
}

impl FromJson for ResponseUsage {
    open spec fn decodable(v: JsonModel) -> bool {
        &&& member_ok::<u32>(v, "prompt_tokens")
        &&& member_ok::<u32>(v, "completion_tokens")
        &&& member_ok::<u32>(v, "total_tokens")
    }

    open spec fn decoded_from(&self, v: JsonModel) -> bool {
        &&& member_is(self.prompt_tokens, v, "prompt_tokens")
        &&& member_is(self.completion_tokens, v, "completion_tokens")
        &&& member_is(self.total_tokens, v, "total_tokens")
    }

    fn from_json(v: &JsonValue) -> (r: Result<ResponseUsage, TwcError>) {
        let prompt_tokens = match read::<u32>(v, "prompt_tokens") {
            Ok(x) => x,
            Err(e) => {
                return Err(e);
            },
        };
        let completion_tokens = match read::<u32>(v, "completion_tokens") {
            Ok(x) => x,
            Err(e) => {
                return Err(e);
            },
        };
        let total_tokens = match read::<u32>(v, "total_tokens") {
            Ok(x) => x,
            Err(e) => {
                return Err(e);
            },
        };
        Ok(ResponseUsage { prompt_tokens, completion_tokens, total_tokens })
    }
}

/// The query parameters of a request for a response.
#[derive(Debug, Clone, PartialEq)]
pub struct GetResponseQuery {
    /// Additional fields to include in the answer.
    pub includes: Option<Vec<String>>,
    /// Whether the stream is obfuscated against side channels.
    pub include_obfuscation: Option<bool>,
    /// The sequence number of the event after which the stream starts.
    pub starting_after: Option<u32>,
    /// Whether the answer is streamed.
    pub stream: Option<bool>,
}

impl Default for GetResponseQuery {
    fn default() -> (r: GetResponseQuery)
        ensures
            r.includes is None,
            r.include_obfuscation is None,
            r.starting_after is None,
            r.stream is None,
    {
        GetResponseQuery {
            includes: None,
            include_obfuscation: None,
            starting_after: None,
            stream: None,
        }
    }
}

impl ToQuery for GetResponseQuery {
    open spec fn pairs(&self) -> Seq<(Seq<char>, Seq<char>)> {
        list_pairs("include", self.includes) + flag_pairs(
            "include_obfuscation",
            self.include_obfuscation,
        ) + number_pairs("starting_after", self.starting_after) + flag_pairs("stream", self.stream)
    }

    fn to_pairs(&self) -> (r: Vec<(String, String)>) {
        let mut pairs: Vec<(String, String)> = Vec::new();
        push_list(&mut pairs, "include", &self.includes);
        push_flag(&mut pairs, "include_obfuscation", self.include_obfuscation);
        push_number(&mut pairs, "starting_after", self.starting_after);
        push_flag(&mut pairs, "stream", self.stream);
        assert(pairs_view(pairs@) =~= self.pairs());
        pairs
    }
}

/// A response kept by the service. The client does not track the state of a
/// response: whether it can still be cancelled is for the service to say.
#[derive(Debug, Clone, PartialEq)]
pub struct Response {
    /// The identifier of the response.
    pub id: String,
    /// The kind of object: `response`.
    pub object: String,
    /// When the response was created, in seconds since the Unix epoch.
    pub created_at: i64,
    /// The model that answered.
    pub model: String,
    /// The status of the response.
    pub status: String,
    /// The token counts.
    pub usage: ResponseUsage,
    /// Every other member that the service sent, as an object, in the order
    /// in which the members came.
    pub extra: JsonValue,
}

/// Whether `key` names one of the members of a response that have a field of
/// their own.
pub open spec fn response_member(key: Seq<char>) -> bool {
    key == "id"@ || key == "object"@ || key == "created_at"@ || key == "model"@ || key == "status"@
        || key == "usage"@
}

/// The members of `members` that have no field of their own, in order.
pub open spec fn other_members(members: Seq<(Seq<char>, JsonModel)>) -> Seq<
    (Seq<char>, JsonModel),
>
    decreases members.len(),
{
    if members.len() == 0 {
        Seq::empty()
    } else {
        let rest = other_members(members.drop_last());
        if response_member(members.last().0) {
            rest
        } else {
            rest.push(members.last())
        }
    }
}

fn is_response_member(key: &String) -> (r: bool)
    ensures
        r == response_member(key@),
{
    same_text(key, "id") || same_text(key, "object") || same_text(key, "created_at") || same_text(
        key,
        "model",
    ) || same_text(key, "status") || same_text(key, "usage")
}

impl FromJson for Response {
    open spec fn decodable(v: JsonModel) -> bool {
        &&& member_ok::<String>(v, "id")
        &&& member_ok::<String>(v, "object")
        &&& member_ok::<i64>(v, "created_at")
        &&& member_ok::<String>(v, "model")
        &&& member_ok::<String>(v, "status")
        &&& member_ok::<ResponseUsage>(v, "usage")
    }

    open spec fn decoded_from(&self, v: JsonModel) -> bool {
        &&& member_is(self.id, v, "id")
        &&& member_is(self.object, v, "object")
        &&& member_is(self.created_at, v, "created_at")
        &&& member_is(self.model, v, "model")
        &&& member_is(self.status, v, "status")
        &&& member_is(self.usage, v, "usage")
        &&& v matches JsonModel::Object(members) && self.extra@ == JsonModel::Object(
            other_members(members),
        )
    }

    /// Decodes the members that have a field of their own and keeps all
    /// others, unchanged, in `extra`.
    fn from_json(v: &JsonValue) -> (r: Result<Response, TwcError>) {
        let id = match read::<String>(v, "id") {
            Ok(x) => x,
            Err(e) => {
                return Err(e);
            },
        };
        let object = match read::<String>(v, "object") {
            Ok(x) => x,
            Err(e) => {
                return Err(e);
            },
        };
        let created_at = match read::<i64>(v, "created_at") {
            Ok(x) => x,
            Err(e) => {
                return Err(e);
            },
        };
        let model = match read::<String>(v, "model") {
            Ok(x) => x,
            Err(e) => {
                return Err(e);
            },
        };
        let status = match read::<String>(v, "status") {
            Ok(x) => x,
            Err(e) => {
                return Err(e);
            },
        };
        let usage = match read::<ResponseUsage>(v, "usage") {
            Ok(x) => x,
            Err(e) => {
                return Err(e);
            },
        };
        match v {
            JsonValue::Object(members) => {
                let ghost all = v@->Object_0;
                let mut others: Vec<(String, JsonValue)> = Vec::new();
                let mut i: usize = 0;
                assert(all.subrange(0, 0) =~= Seq::empty());
                assert(JsonValue::Object(others)@->Object_0 =~= Seq::empty());
                while i < members.len()
                    invariant
                        i <= members.len(),
                        all.len() == members.len(),
                        forall|j: int|
                            0 <= j < members.len() ==> all[j] == (members[j].0@, members[j].1@),
                        JsonValue::Object(others)@ == JsonModel::Object(
                            other_members(all.subrange(0, i as int)),
                        ),
                    decreases members.len() - i,
                {
                    let ghost seen = all.subrange(0, i + 1);
                    assert(seen.drop_last() =~= all.subrange(0, i as int));
                    assert(seen.last() == all[i as int]);
                    if !is_response_member(&members[i].0) {
                        let ghost before = others;
                        others.push((members[i].0.clone(), members[i].1.clone()));
                        assert(JsonValue::Object(others)@->Object_0 =~= JsonValue::Object(
                            before,
                        )@->Object_0.push(all[i as int]));
                    }
                    i += 1;
                }
                assert(all.subrange(0, all.len() as int) =~= all);
                Ok(
                    Response {
                        id,
                        object,
                        created_at,
                        model,
                        status,
                        usage,
                        extra: JsonValue::Object(others),
                    },
                )
            },
            _ => Err(shape_error("an object")),
        }
    }
}

} // verus!
