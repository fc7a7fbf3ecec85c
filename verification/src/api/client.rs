//! The operations on an agent itself: the simple call, chat and text
//! completions, the list of models and the embed code of the widget.

use crate::api::{agent_path, agent_target};
use crate::client::CloudAIClient;
use crate::error::TwcError;
use crate::json::{JsonModel, JsonNumber, JsonValue};
use crate::query::pairs_view;
use crate::transport::{client_header, described, HttpRequest, Method, RequestModel};
use crate::types::{AgentCallRequest, ChatCompletionRequest};
use crate::wire::{
    field, member_is, member_ok, object, optional, optional_is, optional_ok, read, read_opt,
    FromJson, ObjectWriter, ToJson,
};
use vstd::prelude::*;
use vstd::string::*;

verus! {

impl CloudAIClient {
    /// Calls an agent with a single message.
    ///
    /// `POST /api/v1/cloud-ai/agents/{agent_access_id}/call`, answered by an
    /// [`AgentCallResponse`](crate::types::AgentCallResponse).
    pub fn call_agent(&self, agent_access_id: &str, request: AgentCallRequest) -> (r: HttpRequest)
        ensures
            r@ == described(
                self.config(),
                Method::Post,
                agent_path(agent_access_id@) + "/call"@,
                true,
                Some(request.wire()),
            ),
    {
        let path = agent_target(agent_access_id, "/call");
        self.request(Method::Post, path.as_str(), true, Some(request.to_json()))
    }

    /// Asks for a chat completion.
    ///
    /// `POST /api/v1/cloud-ai/agents/{agent_access_id}/v1/chat/completions`,
    /// answered by a [`ChatCompletionResponse`](crate::types::ChatCompletionResponse).
    pub fn chat_completions(&self, agent_access_id: &str, request: ChatCompletionRequest) -> (r:
        HttpRequest)
        ensures
            r@ == described(
                self.config(),
                Method::Post,
                agent_path(agent_access_id@) + "/v1/chat/completions"@,
                true,
                Some(request.wire()),
            ),
    {
        let path = agent_target(agent_access_id, "/v1/chat/completions");
        self.request(Method::Post, path.as_str(), true, Some(request.to_json()))
    }

    /// Asks for a text completion. The operation is a legacy of the protocol
    /// and `chat_completions` is preferred; it is sent like any other.
    ///
    /// `POST /api/v1/cloud-ai/agents/{agent_access_id}/v1/completions`,
    /// answered by a [`TextCompletionResponse`].
    pub fn text_completions(&self, agent_access_id: &str, request: TextCompletionRequest) -> (r:
        HttpRequest)
        ensures
            r@ == described(
                self.config(),
                Method::Post,
                agent_path(agent_access_id@) + "/v1/completions"@,
                true,
                Some(request.wire()),
            ),
    {
        let path = agent_target(agent_access_id, "/v1/completions");
        self.request(Method::Post, path.as_str(), true, Some(request.to_json()))
    }

    /// Lists the models of an agent.
    ///
    /// `GET /api/v1/cloud-ai/agents/{agent_access_id}/v1/models`, answered by
    /// a [`ModelsResponse`](crate::types::ModelsResponse).
    pub fn list_models(&self, agent_access_id: &str) -> (r: HttpRequest)
        ensures
            r@ == described(
                self.config(),
                Method::Get,
                agent_path(agent_access_id@) + "/v1/models"@,
                true,
                None,
            ),
    {
        let path = agent_target(agent_access_id, "/v1/models");
        self.request(Method::Get, path.as_str(), true, None)
    }

    /// Asks for the JavaScript that embeds the widget of an agent. The request
    /// carries no credential: the service goes by the `referer` and `origin`
    /// headers. The answer is plain text.
    ///
    /// `GET /api/v1/cloud-ai/agents/{agent_access_id}/embed.js`, with
    /// `?collapsed=true` or `?collapsed=false` where `collapsed` is given.
    pub fn get_embed_code(
        &self,
        agent_access_id: &str,
        collapsed: Option<bool>,
        referer: &str,
        origin: &str,
    ) -> (r: HttpRequest)
        ensures
            r@ == (RequestModel {
                method: Method::Get,
                url: self.config().base_url@ + (agent_path(agent_access_id@) + embed_file(
                    collapsed,
                )),
                headers: seq![client_header(), ("referer"@, referer@), ("origin"@, origin@)],
                body: None,
            }),
    {
        let file = match collapsed {
            Some(true) => "/embed.js?collapsed=true",
            Some(false) => "/embed.js?collapsed=false",
            None => "/embed.js",
        };
        let path = agent_target(agent_access_id, file);
        let request = self.request(Method::Get, path.as_str(), false, None);
        let mut headers = request.headers;
        let ghost first = headers@;
        assert(pairs_view(first) == request@.headers);
        assert(first.len() == pairs_view(first).len());
        assert(pairs_view(first)[0] == client_header());
        headers.push((String::from_str("referer"), String::from_str(referer)));
        headers.push((String::from_str("origin"), String::from_str(origin)));
        assert(pairs_view(headers@) =~= seq![
            client_header(),
            ("referer"@, referer@),
            ("origin"@, origin@),
        ]);
        HttpRequest { method: request.method, url: request.url, headers, body: request.body }
    }
}

/// The file of the embed code below the path of an agent, with the
/// `collapsed` parameter where it is given.
pub open spec fn embed_file(collapsed: Option<bool>) -> Seq<char> {
    match collapsed {
        Some(true) => "/embed.js?collapsed=true"@,
        Some(false) => "/embed.js?collapsed=false"@,
        None => "/embed.js"@,
    }
}

/// A request for a text completion (legacy).
#[derive(Debug, Clone, PartialEq)]
pub struct TextCompletionRequest {
    /// The prompt to complete.
    pub prompt: String,
    /// The model to use.
    pub model: Option<String>,
    /// The most tokens to generate.
    pub max_tokens: Option<u32>,
    /// The sampling temperature, from 0 to 2.
    pub temperature: Option<JsonNumber>,
    /// The nucleus sampling parameter, from 0 to 1.
    pub top_p: Option<JsonNumber>,
    /// How many completions to generate.
    pub n: Option<u32>,
    /// Whether partial progress is streamed back.
    pub stream: Option<bool>,
    /// How many of the likeliest tokens to report with their log probabilities.
    pub logprobs: Option<u32>,
    /// Whether the prompt is echoed before the completion.
    pub echo: Option<bool>,
    /// Up to four sequences at which generation stops.
    pub stop: Option<Vec<String>>,
    /// The presence penalty, from -2 to 2.
    pub presence_penalty: Option<JsonNumber>,
    /// The frequency penalty, from -2 to 2.
    pub frequency_penalty: Option<JsonNumber>,
    /// How many completions the service generates to return the best of them.
    pub best_of: Option<u32>,
    /// An identifier of the end user.
    pub user: Option<String>,
}

impl ToJson for TextCompletionRequest {
    open spec fn wire(&self) -> JsonModel {
        object(
            Seq::empty()
                .push(field("prompt", self.prompt))
                .push(optional("model", self.model))
                .push(optional("max_tokens", self.max_tokens))
                .push(optional("temperature", self.temperature))
                .push(optional("top_p", self.top_p))
                .push(optional("n", self.n))
                .push(optional("stream", self.stream))
                .push(optional("logprobs", self.logprobs))
                .push(optional("echo", self.echo))
                .push(optional("stop", self.stop))
                .push(optional("presence_penalty", self.presence_penalty))
                .push(optional("frequency_penalty", self.frequency_penalty))
                .push(optional("best_of", self.best_of))
                .push(optional("user", self.user)),
        )
    }

    fn to_json(&self) -> (r: JsonValue) {
        ObjectWriter::new()
            .put("prompt", &self.prompt)
            .put_opt("model", &self.model)
            .put_opt("max_tokens", &self.max_tokens)
            .put_opt("temperature", &self.temperature)
            .put_opt("top_p", &self.top_p)
            .put_opt("n", &self.n)
            .put_opt("stream", &self.stream)
            .put_opt("logprobs", &self.logprobs)
            .put_opt("echo", &self.echo)
            .put_opt("stop", &self.stop)
            .put_opt("presence_penalty", &self.presence_penalty)
            .put_opt("frequency_penalty", &self.frequency_penalty)
            .put_opt("best_of", &self.best_of)
            .put_opt("user", &self.user)
            .finish()
    }
}

impl FromJson for TextCompletionRequest {
    open spec fn decodable(v: JsonModel) -> bool {
        &&& member_ok::<String>(v, "prompt")
        &&& optional_ok::<String>(v, "model")
        &&& optional_ok::<u32>(v, "max_tokens")
        &&& optional_ok::<JsonNumber>(v, "temperature")
        &&& optional_ok::<JsonNumber>(v, "top_p")
        &&& optional_ok::<u32>(v, "n")
        &&& optional_ok::<bool>(v, "stream")
        &&& optional_ok::<u32>(v, "logprobs")
        &&& optional_ok::<bool>(v, "echo")
        &&& optional_ok::<Vec<String>>(v, "stop")
        &&& optional_ok::<JsonNumber>(v, "presence_penalty")
        &&& optional_ok::<JsonNumber>(v, "frequency_penalty")
        &&& optional_ok::<u32>(v, "best_of")
        &&& optional_ok::<String>(v, "user")
    }

    open spec fn decoded_from(&self, v: JsonModel) -> bool {
        &&& member_is(self.prompt, v, "prompt")
        &&& optional_is(self.model, v, "model")
        &&& optional_is(self.max_tokens, v, "max_tokens")
        &&& optional_is(self.temperature, v, "temperature")
        &&& optional_is(self.top_p, v, "top_p")
        &&& optional_is(self.n, v, "n")
        &&& optional_is(self.stream, v, "stream")
        &&& optional_is(self.logprobs, v, "logprobs")
        &&& optional_is(self.echo, v, "echo")
        &&& optional_is(self.stop, v, "stop")
        &&& optional_is(self.presence_penalty, v, "presence_penalty")
        &&& optional_is(self.frequency_penalty, v, "frequency_penalty")
        &&& optional_is(self.best_of, v, "best_of")
        &&& optional_is(self.user, v, "user")
    }

    fn from_json(v: &JsonValue) -> (r: Result<TextCompletionRequest, TwcError>) {
        let prompt = match read::<String>(v, "prompt") {
            Ok(x) => x,
            Err(e) => {
                return Err(e);
            },
        };
        let model = match read_opt::<String>(v, "model") {
            Ok(x) => x,
            Err(e) => {
                return Err(e);
            },
        };
        let max_tokens = match read_opt::<u32>(v, "max_tokens") {
            Ok(x) => x,
            Err(e) => {
                return Err(e);
            },
        };
        let temperature = match read_opt::<JsonNumber>(v, "temperature") {
            Ok(x) => x,
            Err(e) => {
                return Err(e);
            },
        };
        let top_p = match read_opt::<JsonNumber>(v, "top_p") {
            Ok(x) => x,
            Err(e) => {
                return Err(e);
            },
        };
        let n = match read_opt::<u32>(v, "n") {
            Ok(x) => x,
            Err(e) => {
                return Err(e);
            },
        };
        let stream = match read_opt::<bool>(v, "stream") {
            Ok(x) => x,
            Err(e) => {
                return Err(e);
            },
        };
        let logprobs = match read_opt::<u32>(v, "logprobs") {
            Ok(x) => x,
            Err(e) => {
                return Err(e);
            },
        };
        let echo = match read_opt::<bool>(v, "echo") {
            Ok(x) => x,
            Err(e) => {
                return Err(e);
            },
        };
        let stop = match read_opt::<Vec<String>>(v, "stop") {
            Ok(x) => x,
            Err(e) => {
                return Err(e);
            },
        };
        let presence_penalty = match read_opt::<JsonNumber>(v, "presence_penalty") {
            Ok(x) => x,
            Err(e) => {
                return Err(e);
            },
        };
        let frequency_penalty = match read_opt::<JsonNumber>(v, "frequency_penalty") {
            Ok(x) => x,
            Err(e) => {
                return Err(e);
            },
        };
        let best_of = match read_opt::<u32>(v, "best_of") {
            Ok(x) => x,
            Err(e) => {
                return Err(e);
            },
        };
        let user = match read_opt::<String>(v, "user") {
            Ok(x) => x,
            Err(e) => {
                return Err(e);
            },
        };
        Ok(TextCompletionRequest {
            prompt,
            model,
            max_tokens,
            temperature,
            top_p,
            n,
            stream,
            logprobs,
            echo,
            stop,
            presence_penalty,
            frequency_penalty,
            best_of,
            user,
        })
    }
}

/// Log probabilities of a text completion.
#[derive(Debug, Clone, PartialEq)]
pub struct TextCompletionLogprobs {
    /// The tokens that the model chose.
    pub tokens: Vec<String>,
    /// The log probability of each token.
    pub token_logprobs: Vec<JsonNumber>,
    /// The likeliest tokens at each position, as the service reports them.
    pub top_logprobs: JsonValue,
    /// The offset of each token in the text, in characters.
    pub text_offset: Vec<u32>,
}

impl ToJson for TextCompletionLogprobs {
    open spec fn wire(&self) -> JsonModel {
        object(
            Seq::empty()
                .push(field("tokens", self.tokens))
                .push(field("token_logprobs", self.token_logprobs))
                .push(field("top_logprobs", self.top_logprobs))
                .push(field("text_offset", self.text_offset)),
        )
    }

    fn to_json(&self) -> (r: JsonValue) {
        ObjectWriter::new()
            .put("tokens", &self.tokens)
            .put("token_logprobs", &self.token_logprobs)
            .put("top_logprobs", &self.top_logprobs)
            .put("text_offset", &self.text_offset)
            .finish()
    }
}

impl FromJson for TextCompletionLogprobs {
    open spec fn decodable(v: JsonModel) -> bool {
        &&& member_ok::<Vec<String>>(v, "tokens")
        &&& member_ok::<Vec<JsonNumber>>(v, "token_logprobs")
        &&& member_ok::<JsonValue>(v, "top_logprobs")
        &&& member_ok::<Vec<u32>>(v, "text_offset")
    }

    open spec fn decoded_from(&self, v: JsonModel) -> bool {
        &&& member_is(self.tokens, v, "tokens")
        &&& member_is(self.token_logprobs, v, "token_logprobs")
        &&& member_is(self.top_logprobs, v, "top_logprobs")
        &&& member_is(self.text_offset, v, "text_offset")
    }

    fn from_json(v: &JsonValue) -> (r: Result<TextCompletionLogprobs, TwcError>) {
        let tokens = match read::<Vec<String>>(v, "tokens") {
            Ok(x) => x,
            Err(e) => {
                return Err(e);
            },
        };
        let token_logprobs = match read::<Vec<JsonNumber>>(v, "token_logprobs") {
            Ok(x) => x,
            Err(e) => {
                return Err(e);
            },
        };
        let top_logprobs = match read::<JsonValue>(v, "top_logprobs") {
            Ok(x) => x,
            Err(e) => {
                return Err(e);
            },
        };
        let text_offset = match read::<Vec<u32>>(v, "text_offset") {
            Ok(x) => x,
            Err(e) => {
                return Err(e);
            },
        };
        Ok(TextCompletionLogprobs { tokens, token_logprobs, top_logprobs, text_offset })
    }
}

/// One generated completion.
#[derive(Debug, Clone, PartialEq)]
pub struct TextCompletionChoice {
    /// The generated text.
    pub text: String,
    /// The place of the choice among the choices.
    pub index: u32,
    /// The log probabilities, where they were asked for.
    pub logprobs: Option<TextCompletionLogprobs>,
    /// Why the model stopped.
    pub finish_reason: String,
}

impl ToJson for TextCompletionChoice {
    open spec fn wire(&self) -> JsonModel {
        object(
            Seq::empty()
                .push(field("text", self.text))
                .push(field("index", self.index))
                .push(optional("logprobs", self.logprobs))
                .push(field("finish_reason", self.finish_reason)),
        )
    }

    fn to_json(&self) -> (r: JsonValue) {
        ObjectWriter::new()
            .put("text", &self.text)
            .put("index", &self.index)
            .put_opt("logprobs", &self.logprobs)
            .put("finish_reason", &self.finish_reason)
            .finish()
    }
}

impl FromJson for TextCompletionChoice {
    open spec fn decodable(v: JsonModel) -> bool {
        &&& member_ok::<String>(v, "text")
        &&& member_ok::<u32>(v, "index")
        &&& optional_ok::<TextCompletionLogprobs>(v, "logprobs")
        &&& member_ok::<String>(v, "finish_reason")
    }

    open spec fn decoded_from(&self, v: JsonModel) -> bool {
        &&& member_is(self.text, v, "text")
        &&& member_is(self.index, v, "index")
        &&& optional_is(self.logprobs, v, "logprobs")
        &&& member_is(self.finish_reason, v, "finish_reason")
    }

    fn from_json(v: &JsonValue) -> (r: Result<TextCompletionChoice, TwcError>) {
        let text = match read::<String>(v, "text") {
            Ok(x) => x,
            Err(e) => {
                return Err(e);
            },
        };
        let index = match read::<u32>(v, "index") {
            Ok(x) => x,
            Err(e) => {
                return Err(e);
            },
        };
        let logprobs = match read_opt::<TextCompletionLogprobs>(v, "logprobs") {
            Ok(x) => x,
            Err(e) => {
                return Err(e);
            },
        };
        let finish_reason = match read::<String>(v, "finish_reason") {
            Ok(x) => x,
            Err(e) => {
                return Err(e);
            },
        };
        Ok(TextCompletionChoice { text, index, logprobs, finish_reason })
    }
}

/// Token counts of a text completion.
#[derive(Debug, Clone, PartialEq)]
pub struct TextCompletionUsage {
    /// Tokens in the prompt.
    pub prompt_tokens: u32,
    /// Tokens in the generated completion.
    pub completion_tokens: u32,
    /// Tokens in all.
    pub total_tokens: u32,
}

impl ToJson for TextCompletionUsage {
    open spec fn wire(&self) -> JsonModel {
        object(
            Seq::empty()
                .push(field("prompt_tokens", self.prompt_tokens))
                .push(field("completion_tokens", self.completion_tokens))
                .push(field("total_tokens", self.total_tokens)),
        )
    }

    fn to_json(&self) -> (r: JsonValue) {
        ObjectWriter::new()
            .put("prompt_tokens", &self.prompt_tokens)
            .put("completion_tokens", &self.completion_tokens)
            .put("total_tokens", &self.total_tokens)
            .finish()
    }
}

impl FromJson for TextCompletionUsage {
    open spec fn decodable(v: JsonModel) -> bool {
        &&& member_ok::<u32>(v, "prompt_tokens")
        &&& member_ok::<u32>(v, "completion_tokens")
        &&& member_ok::<u32>(v, "total_tokens")
    }

    open spec fn decoded_from(&self, v: JsonModel) -> bool {
        &&& member_is(self.prompt_tokens, v, "prompt_tokens")
        &&& member_is(self.completion_tokens, v, "completion_tokens")
        &&& member_is(self.total_tokens, v, "total_tokens")
    }

    fn from_json(v: &JsonValue) -> (r: Result<TextCompletionUsage, TwcError>) {
        let prompt_tokens = match read::<u32>(v, "prompt_tokens") {
            Ok(x) => x,
            Err(e) => {
                return Err(e);
            },
        };
        let completion_tokens = match read::<u32>(v, "completion_tokens") {
            Ok(x) => x,
            Err(e) => {
                return Err(e);
            },
        };
        let total_tokens = match read::<u32>(v, "total_tokens") {
            Ok(x) => x,
            Err(e) => {
                return Err(e);
            },
        };
        Ok(TextCompletionUsage { prompt_tokens, completion_tokens, total_tokens })
    }
}

/// The answer to a text completion request (legacy).
#[derive(Debug, Clone, PartialEq)]
pub struct TextCompletionResponse {
    /// The identifier of the completion.
    pub id: String,
    /// The kind of object: `text_completion`.
    pub object: String,
    /// When the completion was created, in seconds since the Unix epoch.
    pub created: i64,
    /// The model that answered.
    pub model: String,
    /// The generated completions.
    pub choices: Vec<TextCompletionChoice>,
    /// The token counts.
    pub usage: TextCompletionUsage,
}

impl ToJson for TextCompletionResponse {
    open spec fn wire(&self) -> JsonModel {
        object(
            Seq::empty()
                .push(field("id", self.id))
                .push(field("object", self.object))
                .push(field("created", self.created))
                .push(field("model", self.model))
                .push(field("choices", self.choices))
                .push(field("usage", self.usage)),
        )
    }

    fn to_json(&self) -> (r: JsonValue) {
        ObjectWriter::new()
            .put("id", &self.id)
            .put("object", &self.object)
            .put("created", &self.created)
            .put("model", &self.model)
            .put("choices", &self.choices)
            .put("usage", &self.usage)
            .finish()
    }
}

impl FromJson for TextCompletionResponse {
    open spec fn decodable(v: JsonModel) -> bool {
        &&& member_ok::<String>(v, "id")
        &&& member_ok::<String>(v, "object")
        &&& member_ok::<i64>(v, "created")
        &&& member_ok::<String>(v, "model")
        &&& member_ok::<Vec<TextCompletionChoice>>(v, "choices")
        &&& member_ok::<TextCompletionUsage>(v, "usage")
    }

    open spec fn decoded_from(&self, v: JsonModel) -> bool {
        &&& member_is(self.id, v, "id")
        &&& member_is(self.object, v, "object")
        &&& member_is(self.created, v, "created")
        &&& member_is(self.model, v, "model")
        &&& member_is(self.choices, v, "choices")
        &&& member_is(self.usage, v, "usage")
    }

    fn from_json(v: &JsonValue) -> (r: Result<TextCompletionResponse, TwcError>) {
        let id = match read::<String>(v, "id") {
            Ok(x) => x,
            Err(e) => {
                return Err(e);
            },
        };
        let object = match read::<String>(v, "object") {
            Ok(x) => x,
            Err(e) => {
                return Err(e);
            },
        };
        let created = match read::<i64>(v, "created") {
            Ok(x) => x,
            Err(e) => {
                return Err(e);
            },
        };
        let model = match read::<String>(v, "model") {
            Ok(x) => x,
            Err(e) => {
                return Err(e);
            },
        };
        let choices = match read::<Vec<TextCompletionChoice>>(v, "choices") {
            Ok(x) => x,
            Err(e) => {
                return Err(e);
            },
        };
        let usage = match read::<TextCompletionUsage>(v, "usage") {
            Ok(x) => x,
            Err(e) => {
                return Err(e);
            },
        };
        Ok(TextCompletionResponse { id, object, created, model, choices, usage })
    }
}

} // verus!
