//! Types shared by the resource families.

use crate::error::TwcError;
use crate::json::{JsonModel, JsonValue};
use crate::text::same_text;
use crate::wire::{
    check_tag, field, lemma_object_get_two, member_is, member_ok, object, optional_is,
    optional_ok, read, read_opt, shape_error, tag, tagged, FromJson, ObjectWriter, ToJson,
};
use vstd::prelude::*;
use vstd::string::*;

verus! {

/// Token counts of one request.
#[derive(Debug, Clone, PartialEq)]
pub struct Usage {
    /// Tokens in the prompt.
    pub prompt_tokens: u32,
    /// Tokens in the generated completion.
    pub completion_tokens: u32,
    /// Tokens used by the request in all. The service reports the sum of the other two; the
    /// client does not recompute it.
    pub total_tokens: u32,
}

impl ToJson for Usage {
    open spec fn wire(&self) -> JsonModel {
        object(
            Seq::empty()
                .push(field("prompt_tokens", self.prompt_tokens))
                .push(field("completion_tokens", self.completion_tokens))
                .push(field("total_tokens", self.total_tokens)),
        )
    }

    fn to_json(&self) -> (r: JsonValue) {
        ObjectWriter::new()
            .put("prompt_tokens", &self.prompt_tokens)
            .put("completion_tokens", &self.completion_tokens)
            .put("total_tokens", &self.total_tokens)
            .finish()
    }
}

impl FromJson for Usage {
    open spec fn decodable(v: JsonModel) -> bool {
        &&& member_ok::<u32>(v, "prompt_tokens")
        &&& member_ok::<u32>(v, "completion_tokens")
        &&& member_ok::<u32>(v, "total_tokens")
    }

    open spec fn decoded_from(&self, v: JsonModel) -> bool {
        &&& member_is(self.prompt_tokens, v, "prompt_tokens")
        &&& member_is(self.completion_tokens, v, "completion_tokens")
        &&& member_is(self.total_tokens, v, "total_tokens")
    }

    fn from_json(v: &JsonValue) -> (r: Result<Usage, TwcError>) {
        let prompt_tokens = match read::<u32>(v, "prompt_tokens") {
            Ok(x) => x,
            Err(e) => {
                return Err(e);
            },
        };
        let completion_tokens = match read::<u32>(v, "completion_tokens") {
            Ok(x) => x,
            Err(e) => {
                return Err(e);
            },
        };
        let total_tokens = match read::<u32>(v, "total_tokens") {
            Ok(x) => x,
            Err(e) => {
                return Err(e);
            },
        };
        Ok(Usage { prompt_tokens, completion_tokens, total_tokens })
    }
}

/// A function that the model is asked to call.
#[derive(Debug, Clone, PartialEq)]
pub struct FunctionCall {
    /// The name of the function.
    pub name: String,
}

impl ToJson for FunctionCall {
    open spec fn wire(&self) -> JsonModel {
        object(
            Seq::empty()
                .push(field("name", self.name)),
        )
    }

    fn to_json(&self) -> (r: JsonValue) {
        ObjectWriter::new()
            .put("name", &self.name)
            .finish()
    }
}

impl FromJson for FunctionCall {
    open spec fn decodable(v: JsonModel) -> bool {
        &&& member_ok::<String>(v, "name")
    }

    open spec fn decoded_from(&self, v: JsonModel) -> bool {
        &&& member_is(self.name, v, "name")
    }

    fn from_json(v: &JsonValue) -> (r: Result<FunctionCall, TwcError>) {
        let name = match read::<String>(v, "name") {
            Ok(x) => x,
            Err(e) => {
                return Err(e);
            },
        };
        Ok(FunctionCall { name })
    }
}

/// Asks for plain text output.
#[derive(Debug, Clone, PartialEq)]
pub struct ResponseFormatText {
    /// The kind of format: `text`.
    pub format_type: String,
}

impl ToJson for ResponseFormatText {
    open spec fn wire(&self) -> JsonModel {
        object(
            Seq::empty()
                .push(field("type", self.format_type)),
        )
    }

    fn to_json(&self) -> (r: JsonValue) {
        ObjectWriter::new()
            .put("type", &self.format_type)
            .finish()
    }
}

impl FromJson for ResponseFormatText {
    open spec fn decodable(v: JsonModel) -> bool {
        &&& member_ok::<String>(v, "type")
    }

    open spec fn decoded_from(&self, v: JsonModel) -> bool {
        &&& member_is(self.format_type, v, "type")
    }

    fn from_json(v: &JsonValue) -> (r: Result<ResponseFormatText, TwcError>) {
        let format_type = match read::<String>(v, "type") {
            Ok(x) => x,
            Err(e) => {
                return Err(e);
            },
        };
        Ok(ResponseFormatText { format_type })
    }
}

impl Default for ResponseFormatText {
    fn default() -> (r: ResponseFormatText)
        ensures
            r.format_type@ == "text"@,
    {
        ResponseFormatText { format_type: String::from_str("text") }
    }
}

/// Asks for a JSON object as output.
#[derive(Debug, Clone, PartialEq)]
pub struct ResponseFormatJsonObject {
    /// The kind of format: `json_object`.
    pub format_type: String,
}

impl ToJson for ResponseFormatJsonObject {
    open spec fn wire(&self) -> JsonModel {
        object(
            Seq::empty()
                .push(field("type", self.format_type)),
        )
    }

    fn to_json(&self) -> (r: JsonValue) {
        ObjectWriter::new()
            .put("type", &self.format_type)
            .finish()
    }
}

impl FromJson for ResponseFormatJsonObject {
    open spec fn decodable(v: JsonModel) -> bool {
        &&& member_ok::<String>(v, "type")
    }

    open spec fn decoded_from(&self, v: JsonModel) -> bool {
        &&& member_is(self.format_type, v, "type")
    }

    fn from_json(v: &JsonValue) -> (r: Result<ResponseFormatJsonObject, TwcError>) {
        let format_type = match read::<String>(v, "type") {
            Ok(x) => x,
            Err(e) => {
                return Err(e);
            },
        };
        Ok(ResponseFormatJsonObject { format_type })
    }
}

impl Default for ResponseFormatJsonObject {
    fn default() -> (r: ResponseFormatJsonObject)
        ensures
            r.format_type@ == "json_object"@,
    {
        ResponseFormatJsonObject { format_type: String::from_str("json_object") }
    }
}

/// Asks for output that follows a JSON schema.
#[derive(Debug, Clone, PartialEq)]
pub struct ResponseFormatJsonSchema {
    /// The kind of format: `json_schema`.
    pub format_type: String,
    /// The schema.
    pub json_schema: JsonValue,
}

impl ToJson for ResponseFormatJsonSchema {
    open spec fn wire(&self) -> JsonModel {
        object(
            Seq::empty()
                .push(field("type", self.format_type))
                .push(field("json_schema", self.json_schema)),
        )
    }

    fn to_json(&self) -> (r: JsonValue) {
        ObjectWriter::new()
            .put("type", &self.format_type)
            .put("json_schema", &self.json_schema)
            .finish()
    }
}

impl FromJson for ResponseFormatJsonSchema {
    open spec fn decodable(v: JsonModel) -> bool {
        &&& member_ok::<String>(v, "type")
        &&& member_ok::<JsonValue>(v, "json_schema")
    }

    open spec fn decoded_from(&self, v: JsonModel) -> bool {
        &&& member_is(self.format_type, v, "type")
        &&& member_is(self.json_schema, v, "json_schema")
    }

    fn from_json(v: &JsonValue) -> (r: Result<ResponseFormatJsonSchema, TwcError>) {
        let format_type = match read::<String>(v, "type") {
            Ok(x) => x,
            Err(e) => {
                return Err(e);
            },
        };
        let json_schema = match read::<JsonValue>(v, "json_schema") {
            Ok(x) => x,
            Err(e) => {
                return Err(e);
            },
        };
        Ok(ResponseFormatJsonSchema { format_type, json_schema })
    }
}

/// A function offered to the model as a tool.
#[derive(Debug, Clone, PartialEq)]
pub struct FunctionTool {
    /// The kind of tool: `function`.
    pub tool_type: String,
    /// The definition of the function.
    pub function: JsonValue,
}

impl ToJson for FunctionTool {
    open spec fn wire(&self) -> JsonModel {
        object(
            Seq::empty()
                .push(field("type", self.tool_type))
                .push(field("function", self.function)),
        )
    }

    fn to_json(&self) -> (r: JsonValue) {
        ObjectWriter::new()
            .put("type", &self.tool_type)
            .put("function", &self.function)
            .finish()
    }
}

impl FromJson for FunctionTool {
    open spec fn decodable(v: JsonModel) -> bool {
        &&& member_ok::<String>(v, "type")
        &&& member_ok::<JsonValue>(v, "function")
    }

    open spec fn decoded_from(&self, v: JsonModel) -> bool {
        &&& member_is(self.tool_type, v, "type")
        &&& member_is(self.function, v, "function")
    }

    fn from_json(v: &JsonValue) -> (r: Result<FunctionTool, TwcError>) {
        let tool_type = match read::<String>(v, "type") {
            Ok(x) => x,
            Err(e) => {
                return Err(e);
            },
        };
        let function = match read::<JsonValue>(v, "function") {
            Ok(x) => x,
            Err(e) => {
                return Err(e);
            },
        };
        Ok(FunctionTool { tool_type, function })
    }
}

/// A custom tool offered to the model.
#[derive(Debug, Clone, PartialEq)]
pub struct CustomTool {
    /// The kind of tool: `custom`.
    pub tool_type: String,
    /// The definition of the tool.
    pub custom: JsonValue,
}

impl ToJson for CustomTool {
    open spec fn wire(&self) -> JsonModel {
        object(
            Seq::empty()
                .push(field("type", self.tool_type))
                .push(field("custom", self.custom)),
        )
    }

    fn to_json(&self) -> (r: JsonValue) {
        ObjectWriter::new()
            .put("type", &self.tool_type)
            .put("custom", &self.custom)
            .finish()
    }
}

impl FromJson for CustomTool {
    open spec fn decodable(v: JsonModel) -> bool {
        &&& member_ok::<String>(v, "type")
        &&& member_ok::<JsonValue>(v, "custom")
    }

    open spec fn decoded_from(&self, v: JsonModel) -> bool {
        &&& member_is(self.tool_type, v, "type")
        &&& member_is(self.custom, v, "custom")
    }

    fn from_json(v: &JsonValue) -> (r: Result<CustomTool, TwcError>) {
        let tool_type = match read::<String>(v, "type") {
            Ok(x) => x,
            Err(e) => {
                return Err(e);
            },
        };
        let custom = match read::<JsonValue>(v, "custom") {
            Ok(x) => x,
            Err(e) => {
                return Err(e);
            },
        };
        Ok(CustomTool { tool_type, custom })
    }
}

/// A text part of a multimodal message.
#[derive(Debug, Clone, PartialEq)]
pub struct TextContent {
    /// The discriminant. The wire form always carries `text`, whatever this field holds.
    pub content_type: String,
    /// The text.
    pub text: String,
}

impl ToJson for TextContent {
    open spec fn wire(&self) -> JsonModel {
        object(
            Seq::empty()
                .push(tag("text"))
                .push(field("text", self.text)),
        )
    }

    fn to_json(&self) -> (r: JsonValue) {
        ObjectWriter::new()
            .put_tag("text")
            .put("text", &self.text)
            .finish()
    }
}

impl FromJson for TextContent {
    open spec fn decodable(v: JsonModel) -> bool {
        &&& tagged(v, "text")
        &&& member_ok::<String>(v, "text")
    }

    open spec fn decoded_from(&self, v: JsonModel) -> bool {
        &&& tagged(v, "text")
        &&& self.content_type@ == "text"@
        &&& member_is(self.text, v, "text")
    }

    fn from_json(v: &JsonValue) -> (r: Result<TextContent, TwcError>) {
        match check_tag(v, "text") {
            Ok(_) => {},
            Err(e) => {
                return Err(e);
            },
        }
        let text = match read::<String>(v, "text") {
            Ok(x) => x,
            Err(e) => {
                return Err(e);
            },
        };
        Ok(TextContent { content_type: String::from_str("text"), text })
    }
}

/// Where an image is found and how closely it is to be looked at.
#[derive(Debug, Clone, PartialEq)]
pub struct ImageUrl {
    /// The address of the image.
    pub url: String,
    /// The level of detail (`low`, `high`, `auto`); written as null where absent.
    pub detail: Option<String>,
}

impl ToJson for ImageUrl {
    open spec fn wire(&self) -> JsonModel {
        object(
            Seq::empty()
                .push(field("url", self.url))
                .push(field("detail", self.detail)),
        )
    }

    fn to_json(&self) -> (r: JsonValue) {
        ObjectWriter::new()
            .put("url", &self.url)
            .put("detail", &self.detail)
            .finish()
    }
}

impl FromJson for ImageUrl {
    open spec fn decodable(v: JsonModel) -> bool {
        &&& member_ok::<String>(v, "url")
        &&& optional_ok::<String>(v, "detail")
    }

    open spec fn decoded_from(&self, v: JsonModel) -> bool {
        &&& member_is(self.url, v, "url")
        &&& optional_is(self.detail, v, "detail")
    }

    fn from_json(v: &JsonValue) -> (r: Result<ImageUrl, TwcError>) {
        let url = match read::<String>(v, "url") {
            Ok(x) => x,
            Err(e) => {
                return Err(e);
            },
        };
        let detail = match read_opt::<String>(v, "detail") {
            Ok(x) => x,
            Err(e) => {
                return Err(e);
            },
        };
        Ok(ImageUrl { url, detail })
    }
}

/// An image part of a multimodal message.
#[derive(Debug, Clone, PartialEq)]
pub struct ImageUrlContent {
    /// The discriminant. The wire form always carries `image_url`, whatever this field
    /// holds.
    pub content_type: String,
    /// The image.
    pub image_url: ImageUrl,
}

impl ToJson for ImageUrlContent {
    open spec fn wire(&self) -> JsonModel {
        object(
            Seq::empty()
                .push(tag("image_url"))
                .push(field("image_url", self.image_url)),
        )
    }

    fn to_json(&self) -> (r: JsonValue) {
        ObjectWriter::new()
            .put_tag("image_url")
            .put("image_url", &self.image_url)
            .finish()
    }
}

impl FromJson for ImageUrlContent {
    open spec fn decodable(v: JsonModel) -> bool {
        &&& tagged(v, "image_url")
        &&& member_ok::<ImageUrl>(v, "image_url")
    }

    open spec fn decoded_from(&self, v: JsonModel) -> bool {
        &&& tagged(v, "image_url")
        &&& self.content_type@ == "image_url"@
        &&& member_is(self.image_url, v, "image_url")
    }

    fn from_json(v: &JsonValue) -> (r: Result<ImageUrlContent, TwcError>) {
        match check_tag(v, "image_url") {
            Ok(_) => {},
            Err(e) => {
                return Err(e);
            },
        }
        let image_url = match read::<ImageUrl>(v, "image_url") {
            Ok(x) => x,
            Err(e) => {
                return Err(e);
            },
        };
        Ok(ImageUrlContent { content_type: String::from_str("image_url"), image_url })
    }
}

/// Audio data and its format.
#[derive(Debug, Clone, PartialEq)]
pub struct InputAudio {
    /// The audio, base64 encoded.
    pub data: String,
    /// The format of the audio (`wav`, `mp3`, `m4a`, `ogg`, `flac`, `webm`).
    pub format: String,
}

impl ToJson for InputAudio {
    open spec fn wire(&self) -> JsonModel {
        object(
            Seq::empty()
                .push(field("data", self.data))
                .push(field("format", self.format)),
        )
    }

    fn to_json(&self) -> (r: JsonValue) {
        ObjectWriter::new()
            .put("data", &self.data)
            .put("format", &self.format)
            .finish()
    }
}

impl FromJson for InputAudio {
    open spec fn decodable(v: JsonModel) -> bool {
        &&& member_ok::<String>(v, "data")
        &&& member_ok::<String>(v, "format")
    }

    open spec fn decoded_from(&self, v: JsonModel) -> bool {
        &&& member_is(self.data, v, "data")
        &&& member_is(self.format, v, "format")
    }

    fn from_json(v: &JsonValue) -> (r: Result<InputAudio, TwcError>) {
        let data = match read::<String>(v, "data") {
            Ok(x) => x,
            Err(e) => {
                return Err(e);
            },
        };
        let format = match read::<String>(v, "format") {
            Ok(x) => x,
            Err(e) => {
                return Err(e);
            },
        };
        Ok(InputAudio { data, format })
    }
}

/// An audio part of a multimodal message.
#[derive(Debug, Clone, PartialEq)]
pub struct InputAudioContent {
    /// The discriminant. The wire form always carries `input_audio`, whatever this field
    /// holds.
    pub content_type: String,
    /// The audio.
    pub input_audio: InputAudio,
}

impl ToJson for InputAudioContent {
    open spec fn wire(&self) -> JsonModel {
        object(
            Seq::empty()
                .push(tag("input_audio"))
                .push(field("input_audio", self.input_audio)),
        )
    }

    fn to_json(&self) -> (r: JsonValue) {
        ObjectWriter::new()
            .put_tag("input_audio")
            .put("input_audio", &self.input_audio)
            .finish()
    }
}

impl FromJson for InputAudioContent {
    open spec fn decodable(v: JsonModel) -> bool {
        &&& tagged(v, "input_audio")
        &&& member_ok::<InputAudio>(v, "input_audio")
    }

    open spec fn decoded_from(&self, v: JsonModel) -> bool {
        &&& tagged(v, "input_audio")
        &&& self.content_type@ == "input_audio"@
        &&& member_is(self.input_audio, v, "input_audio")
    }

    fn from_json(v: &JsonValue) -> (r: Result<InputAudioContent, TwcError>) {
        match check_tag(v, "input_audio") {
            Ok(_) => {},
            Err(e) => {
                return Err(e);
            },
        }
        let input_audio = match read::<InputAudio>(v, "input_audio") {
            Ok(x) => x,
            Err(e) => {
                return Err(e);
            },
        };
        Ok(InputAudioContent { content_type: String::from_str("input_audio"), input_audio })
    }
}

/// A file part of a multimodal message.
#[derive(Debug, Clone, PartialEq)]
pub struct FileContent {
    /// The discriminant. The wire form always carries `file`, whatever this field holds.
    pub content_type: String,
    /// The reference to the file, passed through as it is.
    pub file: JsonValue,
}

impl ToJson for FileContent {
    open spec fn wire(&self) -> JsonModel {
        object(
            Seq::empty()
                .push(tag("file"))
                .push(field("file", self.file)),
        )
    }

    fn to_json(&self) -> (r: JsonValue) {
        ObjectWriter::new()
            .put_tag("file")
            .put("file", &self.file)
            .finish()
    }
}

impl FromJson for FileContent {
    open spec fn decodable(v: JsonModel) -> bool {
        &&& tagged(v, "file")
        &&& member_ok::<JsonValue>(v, "file")
    }

    open spec fn decoded_from(&self, v: JsonModel) -> bool {
        &&& tagged(v, "file")
        &&& self.content_type@ == "file"@
        &&& member_is(self.file, v, "file")
    }

    fn from_json(v: &JsonValue) -> (r: Result<FileContent, TwcError>) {
        match check_tag(v, "file") {
            Ok(_) => {},
            Err(e) => {
                return Err(e);
            },
        }
        let file = match read::<JsonValue>(v, "file") {
            Ok(x) => x,
            Err(e) => {
                return Err(e);
            },
        };
        Ok(FileContent { content_type: String::from_str("file"), file })
    }
}

/// A refusal in place of an answer.
#[derive(Debug, Clone, PartialEq)]
pub struct RefusalContent {
    /// The discriminant. The wire form always carries `refusal`, whatever this field holds.
    pub content_type: String,
    /// The message of the refusal.
    pub refusal: String,
}

impl ToJson for RefusalContent {
    open spec fn wire(&self) -> JsonModel {
        object(
            Seq::empty()
                .push(tag("refusal"))
                .push(field("refusal", self.refusal)),
        )
    }

    fn to_json(&self) -> (r: JsonValue) {
        ObjectWriter::new()
            .put_tag("refusal")
            .put("refusal", &self.refusal)
            .finish()
    }
}

impl FromJson for RefusalContent {
    open spec fn decodable(v: JsonModel) -> bool {
        &&& tagged(v, "refusal")
        &&& member_ok::<String>(v, "refusal")
    }

    open spec fn decoded_from(&self, v: JsonModel) -> bool {
        &&& tagged(v, "refusal")
        &&& self.content_type@ == "refusal"@
        &&& member_is(self.refusal, v, "refusal")
    }

    fn from_json(v: &JsonValue) -> (r: Result<RefusalContent, TwcError>) {
        match check_tag(v, "refusal") {
            Ok(_) => {},
            Err(e) => {
                return Err(e);
            },
        }
        let refusal = match read::<String>(v, "refusal") {
            Ok(x) => x,
            Err(e) => {
                return Err(e);
            },
        };
        Ok(RefusalContent { content_type: String::from_str("refusal"), refusal })
    }
}

/// Options of a streamed answer.
#[derive(Debug, Clone, PartialEq)]
pub struct StreamOptions {
    /// Whether the stream ends with the token counts; written as null where absent.
    pub include_usage: Option<bool>,
}

impl ToJson for StreamOptions {
    open spec fn wire(&self) -> JsonModel {
        object(
            Seq::empty()
                .push(field("include_usage", self.include_usage)),
        )
    }

    fn to_json(&self) -> (r: JsonValue) {
        ObjectWriter::new()
            .put("include_usage", &self.include_usage)
            .finish()
    }
}

impl FromJson for StreamOptions {
    open spec fn decodable(v: JsonModel) -> bool {
        &&& v is Object
        &&& optional_ok::<bool>(v, "include_usage")
    }

    open spec fn decoded_from(&self, v: JsonModel) -> bool {
        &&& v is Object
        &&& optional_is(self.include_usage, v, "include_usage")
    }

    fn from_json(v: &JsonValue) -> (r: Result<StreamOptions, TwcError>) {
        match v {
            JsonValue::Object(_) => {},
            _ => {
                return Err(shape_error("an object"));
            },
        }
        let include_usage = match read_opt::<bool>(v, "include_usage") {
            Ok(x) => x,
            Err(e) => {
                return Err(e);
            },
        };
        Ok(StreamOptions { include_usage })
    }
}

/// A model that an agent can use.
#[derive(Debug, Clone, PartialEq)]
pub struct Model {
    /// The identifier of the model.
    pub id: String,
    /// The kind of object: `model`.
    pub object: String,
    /// When the model was created, in seconds since the Unix epoch.
    pub created: i64,
    /// The organisation that owns the model.
    pub owned_by: String,
}

impl ToJson for Model {
    open spec fn wire(&self) -> JsonModel {
        object(
            Seq::empty()
                .push(field("id", self.id))
                .push(field("object", self.object))
                .push(field("created", self.created))
                .push(field("owned_by", self.owned_by)),
        )
    }

    fn to_json(&self) -> (r: JsonValue) {
        ObjectWriter::new()
            .put("id", &self.id)
            .put("object", &self.object)
            .put("created", &self.created)
            .put("owned_by", &self.owned_by)
            .finish()
    }
}

impl FromJson for Model {
    open spec fn decodable(v: JsonModel) -> bool {
        &&& member_ok::<String>(v, "id")
        &&& member_ok::<String>(v, "object")
        &&& member_ok::<i64>(v, "created")
        &&& member_ok::<String>(v, "owned_by")
    }

    open spec fn decoded_from(&self, v: JsonModel) -> bool {
        &&& member_is(self.id, v, "id")
        &&& member_is(self.object, v, "object")
        &&& member_is(self.created, v, "created")
        &&& member_is(self.owned_by, v, "owned_by")
    }

    fn from_json(v: &JsonValue) -> (r: Result<Model, TwcError>) {
        let id = match read::<String>(v, "id") {
            Ok(x) => x,
            Err(e) => {
                return Err(e);
            },
        };
        let object = match read::<String>(v, "object") {
            Ok(x) => x,
            Err(e) => {
                return Err(e);
            },
        };
        let created = match read::<i64>(v, "created") {
            Ok(x) => x,
            Err(e) => {
                return Err(e);
            },
        };
        let owned_by = match read::<String>(v, "owned_by") {
            Ok(x) => x,
            Err(e) => {
                return Err(e);
            },
        };
        Ok(Model { id, object, created, owned_by })
    }
}

/// The models of an agent.
#[derive(Debug, Clone, PartialEq)]
pub struct ModelsResponse {
    /// The kind of object: `list`.
    pub object: String,
    /// The models.
    pub data: Vec<Model>,
}

impl ToJson for ModelsResponse {
    open spec fn wire(&self) -> JsonModel {
        object(
            Seq::empty()
                .push(field("object", self.object))
                .push(field("data", self.data)),
        )
    }

    fn to_json(&self) -> (r: JsonValue) {
        ObjectWriter::new()
            .put("object", &self.object)
            .put("data", &self.data)
            .finish()
    }
}

impl FromJson for ModelsResponse {
    open spec fn decodable(v: JsonModel) -> bool {
        &&& member_ok::<String>(v, "object")
        &&& member_ok::<Vec<Model>>(v, "data")
    }

    open spec fn decoded_from(&self, v: JsonModel) -> bool {
        &&& member_is(self.object, v, "object")
        &&& member_is(self.data, v, "data")
    }

    fn from_json(v: &JsonValue) -> (r: Result<ModelsResponse, TwcError>) {
        let object = match read::<String>(v, "object") {
            Ok(x) => x,
            Err(e) => {
                return Err(e);
            },
        };
        let data = match read::<Vec<Model>>(v, "data") {
            Ok(x) => x,
            Err(e) => {
                return Err(e);
            },
        };
        Ok(ModelsResponse { object, data })
    }
}

impl TextContent {
    /// A text part survives the wire: its wire form decodes, and whatever it
    /// decodes to has the same wire form.
    pub proof fn lemma_round_trip(self, back: TextContent)
        ensures
            TextContent::decodable(self.wire()),
            back.decoded_from(self.wire()) ==> back.wire() == self.wire(),
    {
        reveal_strlit("type");
        reveal_strlit("text");
        assert("type"@[1] != "text"@[1]);
        lemma_object_get_two(tag("text"), field("text", self.text), "type"@);
        lemma_object_get_two(tag("text"), field("text", self.text), "text"@);
    }
}

impl ImageUrl {
    /// An image reference survives the wire: its wire form decodes, and whatever
    /// it decodes to has the same wire form.
    pub proof fn lemma_round_trip(self, back: ImageUrl)
        ensures
            ImageUrl::decodable(self.wire()),
            back.decoded_from(self.wire()) ==> back.wire() == self.wire(),
    {
        reveal_strlit("url");
        reveal_strlit("detail");
        assert("url"@.len() != "detail"@.len());
        lemma_object_get_two(field("url", self.url), field("detail", self.detail), "url"@);
        lemma_object_get_two(field("url", self.url), field("detail", self.detail), "detail"@);
    }
}

impl ImageUrlContent {
    /// An image part survives the wire: its wire form decodes, and whatever it
    /// decodes to has the same wire form.
    pub proof fn lemma_round_trip(self, back: ImageUrlContent)
        ensures
            ImageUrlContent::decodable(self.wire()),
            back.decoded_from(self.wire()) ==> back.wire() == self.wire(),
    {
        reveal_strlit("type");
        reveal_strlit("image_url");
        assert("type"@.len() != "image_url"@.len());
        lemma_object_get_two(tag("image_url"), field("image_url", self.image_url), "type"@);
        lemma_object_get_two(tag("image_url"), field("image_url", self.image_url), "image_url"@);
        self.image_url.lemma_round_trip(back.image_url);
    }
}

impl InputAudio {
    /// Audio data survives the wire: its wire form decodes, and whatever it
    /// decodes to has the same wire form.
    pub proof fn lemma_round_trip(self, back: InputAudio)
        ensures
            InputAudio::decodable(self.wire()),
            back.decoded_from(self.wire()) ==> back.wire() == self.wire(),
    {
        reveal_strlit("data");
        reveal_strlit("format");
        assert("data"@.len() != "format"@.len());
        lemma_object_get_two(field("data", self.data), field("format", self.format), "data"@);
        lemma_object_get_two(field("data", self.data), field("format", self.format), "format"@);
    }
}

impl InputAudioContent {
    /// An audio part survives the wire: its wire form decodes, and whatever it
    /// decodes to has the same wire form.
    pub proof fn lemma_round_trip(self, back: InputAudioContent)
        ensures
            InputAudioContent::decodable(self.wire()),
            back.decoded_from(self.wire()) ==> back.wire() == self.wire(),
    {
        reveal_strlit("type");
        reveal_strlit("input_audio");
        assert("type"@.len() != "input_audio"@.len());
        lemma_object_get_two(tag("input_audio"), field("input_audio", self.input_audio), "type"@);
        lemma_object_get_two(
            tag("input_audio"),
            field("input_audio", self.input_audio),
            "input_audio"@,
        );
        self.input_audio.lemma_round_trip(back.input_audio);
    }
}

impl FileContent {
    /// A file part survives the wire: its wire form decodes, and whatever it
    /// decodes to has the same wire form.
    pub proof fn lemma_round_trip(self, back: FileContent)
        ensures
            FileContent::decodable(self.wire()),
            back.decoded_from(self.wire()) ==> back.wire() == self.wire(),
    {
        reveal_strlit("type");
        reveal_strlit("file");
        assert("type"@[0] != "file"@[0]);
        lemma_object_get_two(tag("file"), field("file", self.file), "type"@);
        lemma_object_get_two(tag("file"), field("file", self.file), "file"@);
    }
}

impl RefusalContent {
    /// A refusal survives the wire: its wire form decodes, and whatever it
    /// decodes to has the same wire form.
    pub proof fn lemma_round_trip(self, back: RefusalContent)
        ensures
            RefusalContent::decodable(self.wire()),
            back.decoded_from(self.wire()) ==> back.wire() == self.wire(),
    {
        reveal_strlit("type");
        reveal_strlit("refusal");
        assert("type"@.len() != "refusal"@.len());
        lemma_object_get_two(tag("refusal"), field("refusal", self.refusal), "type"@);
        lemma_object_get_two(tag("refusal"), field("refusal", self.refusal), "refusal"@);
    }
}

/// Why the model stopped generating.
#[derive(Debug, Clone, PartialEq)]
pub enum FinishReason {
    /// A natural end or a stop sequence.
    Stop,
    /// The token limit was reached.
    Length,
    /// The content was filtered.
    ContentFilter,
    /// The model called a tool.
    ToolCalls,
}

impl FinishReason {
    /// The name of the reason on the wire.
    pub open spec fn name(&self) -> Seq<char> {
        match self {
            FinishReason::Stop => "stop"@,
            FinishReason::Length => "length"@,
            FinishReason::ContentFilter => "content_filter"@,
            FinishReason::ToolCalls => "tool_calls"@,
        }
    }

    /// The name of the reason on the wire.
    pub fn as_str(&self) -> (r: &'static str)
        ensures
            r@ == self.name(),
    {
        match self {
            FinishReason::Stop => "stop",
            FinishReason::Length => "length",
            FinishReason::ContentFilter => "content_filter",
            FinishReason::ToolCalls => "tool_calls",
        }
    }
}

impl ToJson for FinishReason {
    open spec fn wire(&self) -> JsonModel {
        JsonModel::String(self.name())
    }

    fn to_json(&self) -> (r: JsonValue) {
        JsonValue::String(String::from_str(self.as_str()))
    }
}

impl FromJson for FinishReason {
    open spec fn decodable(v: JsonModel) -> bool {
        v matches JsonModel::String(s) && (s == "stop"@ || s == "length"@ || s == "content_filter"@
            || s == "tool_calls"@)
    }

    open spec fn decoded_from(&self, v: JsonModel) -> bool {
        v == JsonModel::String(self.name())
    }

    fn from_json(v: &JsonValue) -> (r: Result<FinishReason, TwcError>) {
        match v {
            JsonValue::String(s) => {
                if same_text(s, "stop") {
                    Ok(FinishReason::Stop)
                } else if same_text(s, "length") {
                    Ok(FinishReason::Length)
                } else if same_text(s, "content_filter") {
                    Ok(FinishReason::ContentFilter)
                } else if same_text(s, "tool_calls") {
                    Ok(FinishReason::ToolCalls)
                } else {
                    Err(shape_error("a finish reason"))
                }
            },
            _ => Err(shape_error("a finish reason")),
        }
    }
}

} // verus!
