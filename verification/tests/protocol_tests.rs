//! The requests that the client describes and the replies that it interprets.

use std::time::Duration;
use twcai::api::client::{TextCompletionRequest, TextCompletionResponse};
use twcai::json::{JsonNumber, JsonValue};
use twcai::query::{append_query, with_query, ToQuery};
use twcai::text::{decimal_string, same_text};
use twcai::transport::{decode_json, json_body, no_body, text_body, HttpRequest, Method, Reply};
use twcai::types::{
    AgentCallRequest, ChatCompletionRequest, ChatCompletionResponse, ChatContent, ChatMessage,
    ContentItem, Conversation, ConversationDeleted, ConversationItemContentInput,
    ConversationItemList, ConversationItemMessage, CreateConversationRequest, CreateItemsQuery,
    CreateItemsRequest, FileContent, FinishReason, GetItemQuery, GetResponseQuery, ImageUrl,
    ImageUrlContent, InputAudio, InputAudioContent, ListItemsQuery, RefusalContent, Response,
    Role, TextContent, UpdateConversationRequest,
};
use twcai::wire::{FromJson, ToJson};
use twcai::{CloudAIClient, ErrorKind, TwcError};

fn client() -> CloudAIClient {
    CloudAIClient::builder().base_url("https://api.test").token("secret").build().unwrap()
}

fn text(s: &str) -> JsonValue {
    JsonValue::String(s.to_string())
}

fn number(n: u64) -> JsonValue {
    JsonValue::Number(JsonNumber::Unsigned(n))
}

fn object(members: Vec<(&str, JsonValue)>) -> JsonValue {
    JsonValue::Object(members.into_iter().map(|(k, v)| (k.to_string(), v)).collect())
}

fn header(name: &str, value: &str) -> (String, String) {
    (name.to_string(), value.to_string())
}

fn authorized() -> Vec<(String, String)> {
    vec![header("authorization", "Bearer secret"), header("x-proxy-source", "twcai-rust")]
}

fn json_text(value: &JsonValue) -> String {
    fn convert(value: &JsonValue) -> serde_json::Value {
        match value {
            JsonValue::Null => serde_json::Value::Null,
            JsonValue::Bool(b) => serde_json::Value::Bool(*b),
            JsonValue::Number(JsonNumber::Unsigned(n)) => serde_json::Value::from(*n),
            JsonValue::Number(JsonNumber::Signed(n)) => serde_json::Value::from(*n),
            JsonValue::Number(JsonNumber::Real(bits)) => {
                serde_json::Value::from(f64::from_bits(*bits))
            }
            JsonValue::String(s) => serde_json::Value::String(s.clone()),
            JsonValue::Array(items) => {
                serde_json::Value::Array(items.iter().map(convert).collect())
            }
            JsonValue::Object(members) => serde_json::Value::Object(
                members.iter().map(|(key, value)| (key.clone(), convert(value))).collect(),
            ),
        }
    }
    serde_json::to_string(&convert(value)).unwrap()
}

fn parse(text: &str) -> Result<JsonValue, String> {
    fn convert(value: serde_json::Value) -> JsonValue {
        match value {
            serde_json::Value::Null => JsonValue::Null,
            serde_json::Value::Bool(b) => JsonValue::Bool(b),
            serde_json::Value::Number(n) => {
                if let Some(u) = n.as_u64() {
                    JsonValue::Number(JsonNumber::Unsigned(u))
                } else if let Some(i) = n.as_i64() {
                    JsonValue::Number(JsonNumber::Signed(i))
                } else {
                    JsonValue::Number(JsonNumber::Real(n.as_f64().unwrap_or(0.0).to_bits()))
                }
            }
            serde_json::Value::String(s) => JsonValue::String(s),
            serde_json::Value::Array(items) => {
                JsonValue::Array(items.into_iter().map(convert).collect())
            }
            serde_json::Value::Object(members) => {
                JsonValue::Object(members.into_iter().map(|(k, v)| (k, convert(v))).collect())
            }
        }
    }
    serde_json::from_str::<serde_json::Value>(text).map(convert).map_err(|e| e.to_string())
}

fn user_message(text: &str) -> ConversationItemMessage {
    ConversationItemMessage {
        item_type: "message".to_string(),
        role: "user".to_string(),
        content: vec![ConversationItemContentInput {
            content_type: "input_text".to_string(),
            text: text.to_string(),
        }],
    }
}

#[test]
fn classify_unauthorized_whatever_the_body() {
    assert_eq!(TwcError::from_status(401, None), TwcError::Unauthorized);
    assert_eq!(TwcError::from_status(401, Some("anything".to_string())), TwcError::Unauthorized);
}

#[test]
fn classify_forbidden() {
    assert_eq!(TwcError::from_status(403, Some("no".to_string())), TwcError::Forbidden);
}

#[test]
fn classify_not_found_without_body() {
    assert_eq!(
        TwcError::from_status(404, None),
        TwcError::NotFound("Resource not found".to_string())
    );
}

#[test]
fn classify_not_found_with_body() {
    assert_eq!(
        TwcError::from_status(404, Some("no such agent".to_string())),
        TwcError::NotFound("no such agent".to_string())
    );
}

#[test]
fn classify_server_error_with_body() {
    assert_eq!(
        TwcError::from_status(500, Some("boom".to_string())),
        TwcError::ServerError { status: 500, message: "boom".to_string() }
    );
}

#[test]
fn classify_server_error_range() {
    assert_eq!(
        TwcError::from_status(599, None),
        TwcError::ServerError { status: 599, message: "Internal server error".to_string() }
    );
    assert_eq!(TwcError::from_status(600, None), TwcError::InvalidRequest("Bad request".to_string()));
    assert_eq!(TwcError::from_status(499, None), TwcError::InvalidRequest("Bad request".to_string()));
}

#[test]
fn classify_unmapped_status_is_invalid_request() {
    assert_eq!(TwcError::from_status(402, None), TwcError::InvalidRequest("Bad request".to_string()));
    assert_eq!(
        TwcError::from_status(400, Some("bad field".to_string())),
        TwcError::InvalidRequest("bad field".to_string())
    );
}

#[test]
fn classify_is_deterministic() {
    for status in [400u16, 401, 402, 403, 404, 418, 500, 503, 599] {
        let first = TwcError::from_status(status, Some("m".to_string()));
        let second = TwcError::from_status(status, Some("m".to_string()));
        assert_eq!(first, second);
        assert_eq!(first.kind(), TwcError::from_status(status, None).kind());
    }
}

#[test]
fn error_kinds() {
    assert_eq!(TwcError::Unauthorized.kind(), ErrorKind::Unauthorized);
    assert_eq!(TwcError::Http("x".to_string()).kind(), ErrorKind::Http);
    assert_eq!(TwcError::Cancelled.kind(), ErrorKind::Cancelled);
}

#[test]
fn error_messages() {
    assert_eq!(TwcError::Http("timed out".to_string()).message(), "HTTP request failed: timed out");
    assert_eq!(TwcError::Json("eof".to_string()).message(), "JSON error: eof");
    assert_eq!(TwcError::Url("empty host".to_string()).message(), "URL error: empty host");
    assert_eq!(
        TwcError::Unauthorized.message(),
        "Authentication failed - invalid or expired token"
    );
    assert_eq!(TwcError::NotFound("x".to_string()).message(), "Resource not found: x");
    assert_eq!(
        TwcError::Forbidden.message(),
        "Access forbidden - domain not whitelisted or agent suspended"
    );
    assert_eq!(TwcError::InvalidRequest("x".to_string()).message(), "Invalid request: x");
    assert_eq!(
        TwcError::ServerError { status: 502, message: "bad gateway".to_string() }.message(),
        "Server error: 502 - bad gateway"
    );
    assert_eq!(
        TwcError::Configuration("Token is required".to_string()).message(),
        "Client configuration error: Token is required"
    );
    assert_eq!(TwcError::Cancelled.message(), "Response was cancelled");
}

#[test]
fn decimal_text() {
    assert_eq!(decimal_string(0), "0");
    assert_eq!(decimal_string(7), "7");
    assert_eq!(decimal_string(10), "10");
    assert_eq!(decimal_string(4294967295), "4294967295");
    assert_eq!(decimal_string(u64::MAX), "18446744073709551615");
}

#[test]
fn build_without_token_is_a_configuration_error() {
    let result = CloudAIClient::builder().build();
    assert_eq!(result.err(), Some(TwcError::Configuration("Token is required".to_string())));
}

#[test]
fn build_keeps_the_settings() {
    let client = CloudAIClient::builder()
        .base_url("https://custom.example.com")
        .token("secret-token")
        .timeout(Duration::from_secs(30))
        .build()
        .unwrap();
    assert_eq!(client.config().base_url, "https://custom.example.com");
    assert_eq!(client.config().token, "secret-token");
    assert_eq!(client.config().timeout, Duration::from_secs(30));
    assert_eq!(client.config().auth_header(), "Bearer secret-token");
}

#[test]
fn build_defaults() {
    let client = CloudAIClient::builder().token("t").build().unwrap();
    assert_eq!(client.config().base_url, "https://agent.timeweb.cloud");
    assert_eq!(client.config().timeout, Duration::from_secs(120));
}

#[test]
fn client_from_environment_values() {
    let client = CloudAIClient::from_env_values(None, Some("t".to_string())).unwrap();
    assert_eq!(client.config().base_url, "https://agent.timeweb.cloud");
    assert_eq!(client.config().token, "t");

    let client =
        CloudAIClient::from_env_values(Some("http://local".to_string()), Some("t".to_string()))
            .unwrap();
    assert_eq!(client.config().base_url, "http://local");

    let missing = CloudAIClient::from_env_values(Some("http://local".to_string()), None);
    assert_eq!(
        missing.err(),
        Some(TwcError::Configuration("TWCAI_API_TOKEN environment variable not set".to_string()))
    );
}

#[test]
fn query_with_limit() {
    let query = ListItemsQuery { limit: Some(10), ..Default::default() };
    let request = client().list_conversation_items("a1", "c1", Some(query)).unwrap();
    assert_eq!(
        request.url,
        "https://api.test/api/v1/cloud-ai/agents/a1/v1/conversations/c1/items?limit=10"
    );
    assert_eq!(request.method, Method::Get);
    assert_eq!(request.headers, authorized());
    assert_eq!(request.body, None);
}

#[test]
fn empty_query_appends_no_question_mark() {
    let request =
        client().list_conversation_items("a1", "c1", Some(ListItemsQuery::default())).unwrap();
    assert_eq!(
        request.url,
        "https://api.test/api/v1/cloud-ai/agents/a1/v1/conversations/c1/items"
    );
    let request = client().list_conversation_items("a1", "c1", None).unwrap();
    assert_eq!(
        request.url,
        "https://api.test/api/v1/cloud-ai/agents/a1/v1/conversations/c1/items"
    );
}

#[test]
fn query_with_a_list_holds_every_value() {
    let query = GetItemQuery { includes: Some(vec!["a".to_string(), "b".to_string()]) };
    let request = client().get_conversation_item("a1", "c1", "i1", Some(query)).unwrap();
    assert_eq!(
        request.url,
        "https://api.test/api/v1/cloud-ai/agents/a1/v1/conversations/c1/items/i1?include%5B%5D=a&include%5B%5D=b"
    );
}

#[test]
fn query_with_an_empty_list_appends_nothing() {
    let query = CreateItemsQuery { includes: Some(vec![]) };
    let request = client()
        .create_conversation_items("a1", "c1", CreateItemsRequest { items: vec![] }, Some(query))
        .unwrap();
    assert_eq!(
        request.url,
        "https://api.test/api/v1/cloud-ai/agents/a1/v1/conversations/c1/items"
    );
    assert_eq!(request.method, Method::Post);
    assert_eq!(json_text(&request.body.unwrap()), r#"{"items":[]}"#);
}

#[test]
fn query_values_are_percent_encoded_in_field_order() {
    let query = ListItemsQuery {
        after: Some("a b&c".to_string()),
        includes: None,
        limit: Some(5),
        order: Some("desc".to_string()),
    };
    let request = client().list_conversation_items("a1", "c1", Some(query)).unwrap();
    assert_eq!(
        request.url,
        "https://api.test/api/v1/cloud-ai/agents/a1/v1/conversations/c1/items?after=a+b%26c&limit=5&order=desc"
    );
}

#[test]
fn response_query_parameters() {
    let query = GetResponseQuery {
        includes: Some(vec!["usage".to_string()]),
        include_obfuscation: Some(false),
        starting_after: Some(12),
        stream: Some(true),
    };
    let request = client().get_response("a1", "r1", Some(query)).unwrap();
    assert_eq!(
        request.url,
        "https://api.test/api/v1/cloud-ai/agents/a1/v1/responses/r1?include%5B%5D=usage&include_obfuscation=false&starting_after=12&stream=true"
    );
}

#[test]
fn agent_call_request() {
    let request = AgentCallRequest { message: Some("Hi".to_string()), ..Default::default() };
    let described = client().call_agent("a1", request);
    assert_eq!(described.method, Method::Post);
    assert_eq!(described.url, "https://api.test/api/v1/cloud-ai/agents/a1/call");
    assert_eq!(described.headers, authorized());
    assert_eq!(json_text(&described.body.unwrap()), r#"{"message":"Hi"}"#);
}

#[test]
fn chat_completion_request() {
    let request = ChatCompletionRequest {
        model: Some("deepseek-reason".to_string()),
        messages: vec![
            ChatMessage::system("You are a helpful assistant."),
            ChatMessage::user("What is the capital of France?"),
        ],
        temperature: Some(JsonNumber::Real(0.5f64.to_bits())),
        max_completion_tokens: Some(150),
        ..Default::default()
    };
    let described = client().chat_completions("a1", request);
    assert_eq!(described.method, Method::Post);
    assert_eq!(described.url, "https://api.test/api/v1/cloud-ai/agents/a1/v1/chat/completions");
    assert_eq!(described.headers, authorized());
    assert_eq!(
        json_text(&described.body.unwrap()),
        r#"{"model":"deepseek-reason","messages":[{"role":"system","content":"You are a helpful assistant."},{"role":"user","content":"What is the capital of France?"}],"temperature":0.5,"max_completion_tokens":150}"#
    );
}

#[test]
fn chat_completion_response() {
    let body = r#"{"id":"cmpl-1","object":"chat.completion","created":1700000000,"model":"m","choices":[{"index":0,"message":{"role":"assistant","content":"Paris"},"finish_reason":"stop"}],"usage":{"prompt_tokens":10,"completion_tokens":20,"total_tokens":30},"system_fingerprint":"fp"}"#;
    let text = json_body(Reply::Received { status: 200, body: Some(body.to_string()) }).unwrap();
    let response: ChatCompletionResponse = decode_json(parse(&text)).unwrap();
    assert_eq!(response.id, "cmpl-1");
    assert_eq!(response.created, 1700000000);
    assert_eq!(response.choices.len(), 1);
    assert_eq!(response.choices[0].index, 0);
    assert_eq!(response.choices[0].message.role, Role::Assistant);
    assert_eq!(response.choices[0].message.content, ChatContent::Text("Paris".to_string()));
    assert_eq!(response.choices[0].finish_reason, Some(FinishReason::Stop));
    assert_eq!(response.usage.total_tokens, 30);
    assert_eq!(
        response.usage.total_tokens,
        response.usage.prompt_tokens + response.usage.completion_tokens
    );
}

#[test]
fn text_completions_dispatch_like_any_other() {
    let request = TextCompletionRequest {
        prompt: "Once".to_string(),
        model: None,
        max_tokens: Some(16),
        temperature: None,
        top_p: None,
        n: None,
        stream: None,
        logprobs: None,
        echo: None,
        stop: None,
        presence_penalty: None,
        frequency_penalty: None,
        best_of: None,
        user: None,
    };
    let described = client().text_completions("a1", request);
    assert_eq!(described.method, Method::Post);
    assert_eq!(described.url, "https://api.test/api/v1/cloud-ai/agents/a1/v1/completions");
    assert_eq!(described.headers, authorized());
    assert_eq!(json_text(&described.body.unwrap()), r#"{"prompt":"Once","max_tokens":16}"#);

    let body = r#"{"id":"c1","object":"text_completion","created":5,"model":"m","choices":[{"text":" upon a time","index":0,"finish_reason":"length"}],"usage":{"prompt_tokens":1,"completion_tokens":3,"total_tokens":4}}"#;
    let text = json_body(Reply::Received { status: 200, body: Some(body.to_string()) }).unwrap();
    let response: TextCompletionResponse = decode_json(parse(&text)).unwrap();
    assert_eq!(response.choices[0].text, " upon a time");
    assert_eq!(response.choices[0].logprobs, None);
    assert_eq!(response.usage.total_tokens, 4);
}

#[test]
fn list_models_request() {
    let described = client().list_models("a1");
    assert_eq!(described.method, Method::Get);
    assert_eq!(described.url, "https://api.test/api/v1/cloud-ai/agents/a1/v1/models");
    assert_eq!(described.headers, authorized());
    assert_eq!(described.body, None);
}

#[test]
fn embed_code_request_is_unauthenticated() {
    let described = client().get_embed_code("a1", Some(true), "https://site/page", "https://site");
    assert_eq!(described.method, Method::Get);
    assert_eq!(described.url, "https://api.test/api/v1/cloud-ai/agents/a1/embed.js?collapsed=true");
    assert_eq!(
        described.headers,
        vec![
            header("x-proxy-source", "twcai-rust"),
            header("referer", "https://site/page"),
            header("origin", "https://site"),
        ]
    );
    assert_eq!(described.body, None);

    let described = client().get_embed_code("a1", Some(false), "r", "o");
    assert_eq!(described.url, "https://api.test/api/v1/cloud-ai/agents/a1/embed.js?collapsed=false");
    let described = client().get_embed_code("a1", None, "r", "o");
    assert_eq!(described.url, "https://api.test/api/v1/cloud-ai/agents/a1/embed.js");
}

#[test]
fn embed_code_reply_is_plain_text() {
    let reply = Reply::Received { status: 200, body: Some("console.log(1)".to_string()) };
    assert_eq!(text_body(reply), Ok("console.log(1)".to_string()));
    let reply = Reply::Received { status: 404, body: Some("gone".to_string()) };
    assert_eq!(text_body(reply), Err(TwcError::NotFound("Resource not found".to_string())));
}

#[test]
fn conversation_scenario() {
    let client = client();

    let create = CreateConversationRequest {
        items: Some(vec![user_message("Hello, let's discuss Rust programming.")]),
        metadata: None,
    };
    let request = client.create_conversation("a1", create);
    assert_eq!(request.method, Method::Post);
    assert_eq!(request.url, "https://api.test/api/v1/cloud-ai/agents/a1/v1/conversations");
    assert_eq!(
        json_text(&request.body.unwrap()),
        r#"{"items":[{"type":"message","role":"user","content":[{"type":"input_text","text":"Hello, let's discuss Rust programming."}]}]}"#
    );
    let body = r#"{"id":"conv_1","object":"conversation","created_at":1700000000}"#;
    let text = json_body(Reply::Received { status: 200, body: Some(body.to_string()) }).unwrap();
    let conversation: Conversation = decode_json(parse(&text)).unwrap();
    assert_eq!(conversation.id, "conv_1");
    assert_eq!(conversation.object, "conversation");
    assert_eq!(conversation.metadata, None);

    let query = ListItemsQuery { limit: Some(10), ..Default::default() };
    let request = client.list_conversation_items("a1", &conversation.id, Some(query)).unwrap();
    assert_eq!(
        request.url,
        "https://api.test/api/v1/cloud-ai/agents/a1/v1/conversations/conv_1/items?limit=10"
    );
    let body = r#"{"object":"list","data":[{"type":"message","id":"msg_1","status":"completed","role":"user","content":[{"type":"input_text","text":"Hello, let's discuss Rust programming."}]}],"first_id":"msg_1","last_id":"msg_1","has_more":false}"#;
    let text = json_body(Reply::Received { status: 200, body: Some(body.to_string()) }).unwrap();
    let list: ConversationItemList = decode_json(parse(&text)).unwrap();
    assert!(list.data.len() <= 10);
    assert!(!list.has_more);
    assert_eq!(list.data[0].id, "msg_1");
    assert_eq!(list.data[0].content[0].text, "Hello, let's discuss Rust programming.");
    assert_eq!(list.last_id, "msg_1");

    let request = client.delete_conversation("a1", &conversation.id);
    assert_eq!(request.method, Method::Delete);
    assert_eq!(
        request.url,
        "https://api.test/api/v1/cloud-ai/agents/a1/v1/conversations/conv_1"
    );
    assert_eq!(request.body, None);
    let body = r#"{"id":"conv_1","object":"conversation.deleted","deleted":true}"#;
    let text = json_body(Reply::Received { status: 200, body: Some(body.to_string()) }).unwrap();
    let deleted: ConversationDeleted = decode_json(parse(&text)).unwrap();
    assert!(deleted.deleted);
    assert_eq!(deleted.id, "conv_1");
}

#[test]
fn list_without_has_more_is_a_decoding_failure() {
    let body = r#"{"object":"list","data":[],"first_id":"","last_id":""}"#;
    let result: Result<ConversationItemList, TwcError> = decode_json(parse(body));
    assert_eq!(result.unwrap_err().kind(), ErrorKind::Json);
}

#[test]
fn more_than_twenty_items_are_sent_as_they_are() {
    let items: Vec<ConversationItemMessage> =
        (0..21).map(|i| user_message(&format!("m{}", i))).collect();
    let create = CreateConversationRequest { items: Some(items), metadata: None };
    let request = client().create_conversation("a1", create);
    match request.body {
        Some(JsonValue::Object(members)) => match &members[0].1 {
            JsonValue::Array(sent) => assert_eq!(sent.len(), 21),
            other => panic!("unexpected {:?}", other),
        },
        other => panic!("unexpected {:?}", other),
    }
}

#[test]
fn other_conversation_requests() {
    let client = client();
    let request = client.get_conversation("a1", "c1");
    assert_eq!(request.method, Method::Get);
    assert_eq!(request.url, "https://api.test/api/v1/cloud-ai/agents/a1/v1/conversations/c1");

    let update =
        UpdateConversationRequest { metadata: object(vec![("topic", text("rust-async"))]) };
    let request = client.update_conversation("a1", "c1", update);
    assert_eq!(request.method, Method::Post);
    assert_eq!(request.url, "https://api.test/api/v1/cloud-ai/agents/a1/v1/conversations/c1");
    assert_eq!(json_text(&request.body.unwrap()), r#"{"metadata":{"topic":"rust-async"}}"#);

    let request = client.delete_conversation_item("a1", "c1", "i1");
    assert_eq!(request.method, Method::Delete);
    assert_eq!(
        request.url,
        "https://api.test/api/v1/cloud-ai/agents/a1/v1/conversations/c1/items/i1"
    );
    assert_eq!(request.headers, authorized());
}

#[test]
fn response_requests() {
    let client = client();
    let request = client.create_response("a1", Default::default());
    assert_eq!(request.method, Method::Post);
    assert_eq!(request.url, "https://api.test/api/v1/cloud-ai/agents/a1/v1/responses");
    assert_eq!(json_text(&request.body.unwrap()), "{}");

    let request = client.get_response("a1", "r1", None).unwrap();
    assert_eq!(request.method, Method::Get);
    assert_eq!(request.url, "https://api.test/api/v1/cloud-ai/agents/a1/v1/responses/r1");

    let request = client.delete_response("a1", "r1");
    assert_eq!(request.method, Method::Delete);
    assert_eq!(request.url, "https://api.test/api/v1/cloud-ai/agents/a1/v1/responses/r1");

    let request = client.cancel_response("a1", "r1");
    assert_eq!(request.method, Method::Post);
    assert_eq!(request.url, "https://api.test/api/v1/cloud-ai/agents/a1/v1/responses/r1/cancel");
    assert_eq!(request.body, None);
    assert_eq!(request.headers, authorized());
}

#[test]
fn response_keeps_unmodelled_members() {
    let body = r#"{"id":"resp_1","object":"response","output":[{"type":"message"}],"created_at":7,"model":"m","status":"completed","usage":{"prompt_tokens":1,"completion_tokens":2,"total_tokens":3},"store":true}"#;
    let response: Response = decode_json(parse(body)).unwrap();
    assert_eq!(response.id, "resp_1");
    assert_eq!(response.status, "completed");
    assert_eq!(response.usage.total_tokens, 3);
    assert_eq!(
        response.extra,
        object(vec![
            ("output", JsonValue::Array(vec![object(vec![("type", text("message"))])])),
            ("store", JsonValue::Bool(true)),
        ])
    );
}

#[test]
fn delete_response_reply() {
    assert_eq!(no_body(Reply::Received { status: 204, body: None }), Ok(()));
    assert_eq!(no_body(Reply::Received { status: 200, body: Some("{}".to_string()) }), Ok(()));
    assert_eq!(
        no_body(Reply::Received { status: 404, body: Some("gone".to_string()) }),
        Err(TwcError::NotFound("Resource not found".to_string()))
    );
    assert_eq!(
        no_body(Reply::Failed("connection reset".to_string())),
        Err(TwcError::Http("connection reset".to_string()))
    );
}

#[test]
fn transport_failure_is_surfaced() {
    assert_eq!(
        json_body(Reply::Failed("dns error".to_string())),
        Err(TwcError::Http("dns error".to_string()))
    );
    assert_eq!(
        text_body(Reply::Failed("dns error".to_string())),
        Err(TwcError::Http("dns error".to_string()))
    );
}

#[test]
fn failure_status_uses_the_body_as_message() {
    assert_eq!(
        json_body(Reply::Received { status: 500, body: Some("boom".to_string()) }),
        Err(TwcError::ServerError { status: 500, message: "boom".to_string() })
    );
    assert_eq!(
        json_body(Reply::Received { status: 404, body: None }),
        Err(TwcError::NotFound("Resource not found".to_string()))
    );
    assert_eq!(
        json_body(Reply::Received { status: 401, body: Some("x".to_string()) }),
        Err(TwcError::Unauthorized)
    );
    assert_eq!(
        json_body(Reply::Received { status: 302, body: None }),
        Err(TwcError::InvalidRequest("Bad request".to_string()))
    );
}

#[test]
fn success_without_readable_body() {
    assert_eq!(
        json_body(Reply::Received { status: 200, body: None }),
        Err(TwcError::Http("response body could not be read".to_string()))
    );
}

#[test]
fn success_boundaries() {
    assert!(json_body(Reply::Received { status: 200, body: Some("1".to_string()) }).is_ok());
    assert!(json_body(Reply::Received { status: 299, body: Some("1".to_string()) }).is_ok());
    assert!(json_body(Reply::Received { status: 199, body: Some("1".to_string()) }).is_err());
    assert!(json_body(Reply::Received { status: 300, body: Some("1".to_string()) }).is_err());
}

#[test]
fn unparsable_body_is_a_decoding_failure() {
    let result: Result<Conversation, TwcError> = decode_json(Err("expected value".to_string()));
    assert_eq!(result, Err(TwcError::Json("expected value".to_string())));
    let result: Result<Conversation, TwcError> = decode_json(parse("{not json"));
    assert_eq!(result.unwrap_err().kind(), ErrorKind::Json);
}

#[test]
fn wrong_shape_is_a_decoding_failure() {
    let result: Result<Conversation, TwcError> = decode_json(parse(r#"{"id":5}"#));
    assert_eq!(result.unwrap_err().kind(), ErrorKind::Json);
    let result: Result<Conversation, TwcError> = decode_json(parse(r#"["conv_1"]"#));
    assert_eq!(result.unwrap_err().kind(), ErrorKind::Json);
}

#[test]
fn plain_content_is_a_bare_string() {
    let content = ChatContent::Text("Hello".to_string());
    assert_eq!(json_text(&content.to_json()), r#""Hello""#);
    assert_eq!(
        json_text(&ChatMessage::user("Hello").to_json()),
        r#"{"role":"user","content":"Hello"}"#
    );
}

#[test]
fn single_part_content_stays_an_array() {
    let content = ChatContent::Array(vec![ContentItem::Text(TextContent {
        content_type: "text".to_string(),
        text: "Hi".to_string(),
    })]);
    assert_eq!(json_text(&content.to_json()), r#"[{"type":"text","text":"Hi"}]"#);
    assert_eq!(ChatContent::from_json(&content.to_json()), Ok(content));
}

#[test]
fn empty_array_content_stays_an_array() {
    let content = ChatContent::Array(vec![]);
    assert_eq!(json_text(&content.to_json()), "[]");
    assert_eq!(ChatContent::from_json(&content.to_json()), Ok(content));
}

#[test]
fn every_part_carries_its_discriminant() {
    let parts = vec![
        ContentItem::Text(TextContent { content_type: "text".to_string(), text: "t".to_string() }),
        ContentItem::ImageUrl(ImageUrlContent {
            content_type: "image_url".to_string(),
            image_url: ImageUrl { url: "https://x/i.png".to_string(), detail: None },
        }),
        ContentItem::InputAudio(InputAudioContent {
            content_type: "input_audio".to_string(),
            input_audio: InputAudio { data: "AAAA".to_string(), format: "wav".to_string() },
        }),
        ContentItem::File(FileContent {
            content_type: "file".to_string(),
            file: object(vec![("file_id", text("f1"))]),
        }),
        ContentItem::Refusal(RefusalContent {
            content_type: "refusal".to_string(),
            refusal: "no".to_string(),
        }),
    ];
    let content = ChatContent::Array(parts);
    assert_eq!(
        json_text(&content.to_json()),
        r#"[{"type":"text","text":"t"},{"type":"image_url","image_url":{"url":"https://x/i.png","detail":null}},{"type":"input_audio","input_audio":{"data":"AAAA","format":"wav"}},{"type":"file","file":{"file_id":"f1"}},{"type":"refusal","refusal":"no"}]"#
    );
    let back = ChatContent::from_json(&content.to_json()).unwrap();
    assert_eq!(back, content);
    assert_eq!(back.to_json(), content.to_json());
}

#[test]
fn round_trip_is_stable_for_a_wrong_discriminant_field() {
    let content = ChatContent::Array(vec![ContentItem::Text(TextContent {
        content_type: "banana".to_string(),
        text: "Hi".to_string(),
    })]);
    let sent = content.to_json();
    assert_eq!(json_text(&sent), r#"[{"type":"text","text":"Hi"}]"#);
    let back = ChatContent::from_json(&sent).unwrap();
    assert_eq!(back.to_json(), sent);
}

#[test]
fn unknown_discriminant_is_rejected() {
    let value = object(vec![("type", text("video")), ("video", text("v"))]);
    assert_eq!(ContentItem::from_json(&value).unwrap_err().kind(), ErrorKind::Json);
    let array = JsonValue::Array(vec![value]);
    assert_eq!(ChatContent::from_json(&array).unwrap_err().kind(), ErrorKind::Json);
}

#[test]
fn missing_discriminant_is_rejected() {
    let value = object(vec![("text", text("t"))]);
    assert_eq!(ContentItem::from_json(&value).unwrap_err().kind(), ErrorKind::Json);
}

#[test]
fn part_without_its_required_member_is_rejected() {
    let value = object(vec![("type", text("image_url")), ("text", text("t"))]);
    assert_eq!(ContentItem::from_json(&value).unwrap_err().kind(), ErrorKind::Json);
    let value = object(vec![("type", text("image_url")), ("image_url", object(vec![]))]);
    assert_eq!(ContentItem::from_json(&value).unwrap_err().kind(), ErrorKind::Json);
    let value = object(vec![("type", text("input_audio")), ("input_audio", text("x"))]);
    assert_eq!(ContentItem::from_json(&value).unwrap_err().kind(), ErrorKind::Json);
}

#[test]
fn content_of_another_shape_is_rejected() {
    assert_eq!(ChatContent::from_json(&number(3)).unwrap_err().kind(), ErrorKind::Json);
    assert_eq!(ChatContent::from_json(&JsonValue::Null).unwrap_err().kind(), ErrorKind::Json);
}

#[test]
fn roles_on_the_wire() {
    assert_eq!(Role::Tool.to_json(), text("tool"));
    assert_eq!(Role::Developer.to_json(), text("developer"));
    assert_eq!(Role::from_json(&text("assistant")), Ok(Role::Assistant));
    assert_eq!(Role::from_json(&text("robot")).unwrap_err().kind(), ErrorKind::Json);
}

#[test]
fn finish_reasons_on_the_wire() {
    assert_eq!(FinishReason::ContentFilter.to_json(), text("content_filter"));
    assert_eq!(FinishReason::from_json(&text("tool_calls")), Ok(FinishReason::ToolCalls));
    assert_eq!(FinishReason::from_json(&text("length")), Ok(FinishReason::Length));
    assert_eq!(FinishReason::from_json(&text("other")).unwrap_err().kind(), ErrorKind::Json);
}

#[test]
fn integers_are_checked_for_their_range() {
    assert_eq!(u32::from_json(&number(4294967295)), Ok(4294967295));
    assert_eq!(u32::from_json(&number(4294967296)).unwrap_err().kind(), ErrorKind::Json);
    assert_eq!(
        u32::from_json(&JsonValue::Number(JsonNumber::Signed(-1))).unwrap_err().kind(),
        ErrorKind::Json
    );
    assert_eq!(i64::from_json(&JsonValue::Number(JsonNumber::Signed(-5))), Ok(-5));
    assert_eq!(i64::from_json(&number(u64::MAX)).unwrap_err().kind(), ErrorKind::Json);
    assert_eq!(
        u32::from_json(&JsonValue::Number(JsonNumber::Real(1.0f64.to_bits()))).unwrap_err().kind(),
        ErrorKind::Json
    );
    assert_eq!((-5i64).to_json(), JsonValue::Number(JsonNumber::Signed(-5)));
    assert_eq!(5i64.to_json(), number(5));
}

#[test]
fn first_member_with_a_key_is_found() {
    let value = object(vec![("a", number(1)), ("b", number(2)), ("a", number(3))]);
    assert_eq!(value.get("a"), Some(&number(1)));
    assert_eq!(value.get("b"), Some(&number(2)));
    assert_eq!(value.get("c"), None);
    assert_eq!(number(1).get("a"), None);
}

#[test]
fn request_description_can_be_compared() {
    let a: HttpRequest = client().list_models("a1");
    let b: HttpRequest = client().list_models("a1");
    assert_eq!(a, b);
}

#[test]
fn encoded_query_goes_behind_a_question_mark() {
    assert_eq!(
        with_query("http://h/p".to_string(), Ok("a=1&b=2".to_string())),
        Ok("http://h/p?a=1&b=2".to_string())
    );
    assert_eq!(with_query("http://h/p".to_string(), Ok(String::new())), Ok("http://h/p".to_string()));
}

#[test]
fn failed_encoding_is_an_invalid_request() {
    assert_eq!(
        with_query("http://h/p".to_string(), Err("unsupported value".to_string())),
        Err(TwcError::InvalidRequest("unsupported value".to_string()))
    );
}

#[test]
fn pairs_are_encoded_behind_the_address() {
    let pairs = vec![("q".to_string(), "caf\u{e9} au lait".to_string()), (String::new(), String::new())];
    assert_eq!(
        append_query("http://h/p".to_string(), &pairs),
        Ok("http://h/p?q=caf%C3%A9+au+lait&=".to_string())
    );
    assert_eq!(append_query("http://h/p".to_string(), &vec![]), Ok("http://h/p".to_string()));
}

#[test]
fn query_pairs_follow_the_field_order() {
    let query = ListItemsQuery {
        after: Some("i9".to_string()),
        includes: Some(vec!["x".to_string(), "y".to_string()]),
        limit: Some(100),
        order: Some("asc".to_string()),
    };
    assert_eq!(
        query.to_pairs(),
        vec![
            ("after".to_string(), "i9".to_string()),
            ("include[]".to_string(), "x".to_string()),
            ("include[]".to_string(), "y".to_string()),
            ("limit".to_string(), "100".to_string()),
            ("order".to_string(), "asc".to_string()),
        ]
    );
    assert_eq!(ListItemsQuery::default().to_pairs(), vec![]);
}

#[test]
fn text_comparison() {
    assert!(same_text(&"text".to_string(), "text"));
    assert!(!same_text(&"text".to_string(), "file"));
    assert!(!same_text(&"text".to_string(), "text "));
}
