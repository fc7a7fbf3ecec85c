//! Conversations and their items.

use crate::error::TwcError;
use crate::json::{JsonModel, JsonValue};
use crate::query::{
    list_pairs, number_pairs, pairs_view, push_list, push_number, push_text, text_pairs, ToQuery,
};
use crate::wire::{
    field, member_is, member_ok, object, optional, optional_is, optional_ok, read, read_opt,
    shape_error, FromJson, ObjectWriter, ToJson,
};
use vstd::prelude::*;
use vstd::string::*;

verus! {

/// One piece of content of a stored conversation item. Stored items hold text only.
#[derive(Debug, Clone, PartialEq)]
pub struct ConversationItemContent {
    /// The kind of content, such as `input_text` or `output_text`.
    pub content_type: String,
    /// The text.
    pub text: String,
}

impl ToJson for ConversationItemContent {
    open spec fn wire(&self) -> JsonModel {
        object(
            Seq::empty()
                .push(field("type", self.content_type))
                .push(field("text", self.text)),
        )
    }

    fn to_json(&self) -> (r: JsonValue) {
        ObjectWriter::new()
            .put("type", &self.content_type)
            .put("text", &self.text)
            .finish()
    }
}

impl FromJson for ConversationItemContent {
    open spec fn decodable(v: JsonModel) -> bool {
        &&& member_ok::<String>(v, "type")
        &&& member_ok::<String>(v, "text")
    }

    open spec fn decoded_from(&self, v: JsonModel) -> bool {
        &&& member_is(self.content_type, v, "type")
        &&& member_is(self.text, v, "text")
    }

    fn from_json(v: &JsonValue) -> (r: Result<ConversationItemContent, TwcError>) {
        let content_type = match read::<String>(v, "type") {
            Ok(x) => x,
            Err(e) => {
                return Err(e);
            },
        };
        let text = match read::<String>(v, "text") {
            Ok(x) => x,
            Err(e) => {
                return Err(e);
            },
        };
        Ok(ConversationItemContent { content_type, text })
    }
}

/// A message stored in a conversation. The service creates it and gives it its identifier;
/// it is never changed afterwards, only deleted.
#[derive(Debug, Clone, PartialEq)]
pub struct ConversationItem {
    /// The kind of item: `message`.
    pub item_type: String,
    /// The identifier of the item.
    pub id: String,
    /// The status of the item.
    pub status: String,
    /// The role of the speaker (`user` or `assistant`).
    pub role: String,
    /// The content, in order.
    pub content: Vec<ConversationItemContent>,
}

impl ToJson for ConversationItem {
    open spec fn wire(&self) -> JsonModel {
        object(
            Seq::empty()
                .push(field("type", self.item_type))
                .push(field("id", self.id))
                .push(field("status", self.status))
                .push(field("role", self.role))
                .push(field("content", self.content)),
        )
    }

    fn to_json(&self) -> (r: JsonValue) {
        ObjectWriter::new()
            .put("type", &self.item_type)
            .put("id", &self.id)
            .put("status", &self.status)
            .put("role", &self.role)
            .put("content", &self.content)
            .finish()
    }
}

impl FromJson for ConversationItem {
    open spec fn decodable(v: JsonModel) -> bool {
        &&& member_ok::<String>(v, "type")
        &&& member_ok::<String>(v, "id")
        &&& member_ok::<String>(v, "status")
        &&& member_ok::<String>(v, "role")
        &&& member_ok::<Vec<ConversationItemContent>>(v, "content")
    }

    open spec fn decoded_from(&self, v: JsonModel) -> bool {
        &&& member_is(self.item_type, v, "type")
        &&& member_is(self.id, v, "id")
        &&& member_is(self.status, v, "status")
        &&& member_is(self.role, v, "role")
        &&& member_is(self.content, v, "content")
    }

    fn from_json(v: &JsonValue) -> (r: Result<ConversationItem, TwcError>) {
        let item_type = match read::<String>(v, "type") {
            Ok(x) => x,
            Err(e) => {
                return Err(e);
            },
        };
        let id = match read::<String>(v, "id") {
            Ok(x) => x,
            Err(e) => {
                return Err(e);
            },
        };
        let status = match read::<String>(v, "status") {
            Ok(x) => x,
            Err(e) => {
                return Err(e);
            },
        };
        let role = match read::<String>(v, "role") {
            Ok(x) => x,
            Err(e) => {
                return Err(e);
            },
        };
        let content = match read::<Vec<ConversationItemContent>>(v, "content") {
            Ok(x) => x,
            Err(e) => {
                return Err(e);
            },
        };
        Ok(ConversationItem { item_type, id, status, role, content })
    }
}

/// A request to create a conversation.
#[derive(Debug, Clone, PartialEq)]
pub struct CreateConversationRequest {
    /// The items that the conversation starts with. The service takes up to 20; the client
    /// does not count them.
    pub items: Option<Vec<ConversationItemMessage>>,
    /// Free-form key-value pairs attached to the conversation. The service takes up to 16;
    /// the client does not count them.
    pub metadata: Option<JsonValue>,
}

impl ToJson for CreateConversationRequest {
    open spec fn wire(&self) -> JsonModel {
        object(
            Seq::empty()
                .push(optional("items", self.items))
                .push(optional("metadata", self.metadata)),
        )
    }

    fn to_json(&self) -> (r: JsonValue) {
        ObjectWriter::new()
            .put_opt("items", &self.items)
            .put_opt("metadata", &self.metadata)
            .finish()
    }
}

impl FromJson for CreateConversationRequest {
    open spec fn decodable(v: JsonModel) -> bool {
        &&& v is Object
        &&& optional_ok::<Vec<ConversationItemMessage>>(v, "items")
        &&& optional_ok::<JsonValue>(v, "metadata")
    }

    open spec fn decoded_from(&self, v: JsonModel) -> bool {
        &&& v is Object
        &&& optional_is(self.items, v, "items")
        &&& optional_is(self.metadata, v, "metadata")
    }

    fn from_json(v: &JsonValue) -> (r: Result<CreateConversationRequest, TwcError>) {
        match v {
            JsonValue::Object(_) => {},
            _ => {
                return Err(shape_error("an object"));
            },
        }
        let items = match read_opt::<Vec<ConversationItemMessage>>(v, "items") {
            Ok(x) => x,
            Err(e) => {
                return Err(e);
            },
        };
        let metadata = match read_opt::<JsonValue>(v, "metadata") {
            Ok(x) => x,
            Err(e) => {
                return Err(e);
            },
        };
        Ok(CreateConversationRequest { items, metadata })
    }
}

impl Default for CreateConversationRequest {
    fn default() -> (r: CreateConversationRequest)
        ensures
            r.items is None,
            r.metadata is None,
    {
        CreateConversationRequest { items: None, metadata: None }
    }
}

/// A message that a new conversation starts with.
#[derive(Debug, Clone, PartialEq)]
pub struct ConversationItemMessage {
    /// The kind of item: `message`.
    pub item_type: String,
    /// The role of the speaker (`user` or `assistant`).
    pub role: String,
    /// The content, in order.
    pub content: Vec<ConversationItemContentInput>,
}

impl ToJson for ConversationItemMessage {
    open spec fn wire(&self) -> JsonModel {
        object(
            Seq::empty()
                .push(field("type", self.item_type))
                .push(field("role", self.role))
                .push(field("content", self.content)),
        )
    }

    fn to_json(&self) -> (r: JsonValue) {
        ObjectWriter::new()
            .put("type", &self.item_type)
            .put("role", &self.role)
            .put("content", &self.content)
            .finish()
    }
}

impl FromJson for ConversationItemMessage {
    open spec fn decodable(v: JsonModel) -> bool {
        &&& member_ok::<String>(v, "type")
        &&& member_ok::<String>(v, "role")
        &&& member_ok::<Vec<ConversationItemContentInput>>(v, "content")
    }

    open spec fn decoded_from(&self, v: JsonModel) -> bool {
        &&& member_is(self.item_type, v, "type")
        &&& member_is(self.role, v, "role")
        &&& member_is(self.content, v, "content")
    }

    fn from_json(v: &JsonValue) -> (r: Result<ConversationItemMessage, TwcError>) {
        let item_type = match read::<String>(v, "type") {
            Ok(x) => x,
            Err(e) => {
                return Err(e);
            },
        };
        let role = match read::<String>(v, "role") {
            Ok(x) => x,
            Err(e) => {
                return Err(e);
            },
        };
        let content = match read::<Vec<ConversationItemContentInput>>(v, "content") {
            Ok(x) => x,
            Err(e) => {
                return Err(e);
            },
        };
        Ok(ConversationItemMessage { item_type, role, content })
    }
}

/// One piece of content of a message that a new conversation starts with.
#[derive(Debug, Clone, PartialEq)]
pub struct ConversationItemContentInput {
    /// The kind of content: `input_text`.
    pub content_type: String,
    /// The text.
    pub text: String,
}

impl ToJson for ConversationItemContentInput {
    open spec fn wire(&self) -> JsonModel {
        object(
            Seq::empty()
                .push(field("type", self.content_type))
                .push(field("text", self.text)),
        )
    }

    fn to_json(&self) -> (r: JsonValue) {
        ObjectWriter::new()
            .put("type", &self.content_type)
            .put("text", &self.text)
            .finish()
    }
}

impl FromJson for ConversationItemContentInput {
    open spec fn decodable(v: JsonModel) -> bool {
        &&& member_ok::<String>(v, "type")
        &&& member_ok::<String>(v, "text")
    }

    open spec fn decoded_from(&self, v: JsonModel) -> bool {
        &&& member_is(self.content_type, v, "type")
        &&& member_is(self.text, v, "text")
    }

    fn from_json(v: &JsonValue) -> (r: Result<ConversationItemContentInput, TwcError>) {
        let content_type = match read::<String>(v, "type") {
            Ok(x) => x,
            Err(e) => {
                return Err(e);
            },
        };
        let text = match read::<String>(v, "text") {
            Ok(x) => x,
            Err(e) => {
                return Err(e);
            },
        };
        Ok(ConversationItemContentInput { content_type, text })
    }
}

/// A request to replace the metadata of a conversation.
#[derive(Debug, Clone, PartialEq)]
pub struct UpdateConversationRequest {
    /// The new key-value pairs.
    pub metadata: JsonValue,
}

impl ToJson for UpdateConversationRequest {
    open spec fn wire(&self) -> JsonModel {
        object(
            Seq::empty()
                .push(field("metadata", self.metadata)),
        )
    }

    fn to_json(&self) -> (r: JsonValue) {
        ObjectWriter::new()
            .put("metadata", &self.metadata)
            .finish()
    }
}

impl FromJson for UpdateConversationRequest {
    open spec fn decodable(v: JsonModel) -> bool {
        &&& member_ok::<JsonValue>(v, "metadata")
    }

    open spec fn decoded_from(&self, v: JsonModel) -> bool {
        &&& member_is(self.metadata, v, "metadata")
    }

    fn from_json(v: &JsonValue) -> (r: Result<UpdateConversationRequest, TwcError>) {
        let metadata = match read::<JsonValue>(v, "metadata") {
            Ok(x) => x,
            Err(e) => {
                return Err(e);
            },
        };
        Ok(UpdateConversationRequest { metadata })
    }
}

/// A conversation kept by the service.
#[derive(Debug, Clone, PartialEq)]
pub struct Conversation {
    /// The identifier of the conversation.
    pub id: String,
    /// The kind of object: `conversation`.
    pub object: String,
    /// When the conversation was created, in seconds since the Unix epoch.
    pub created_at: i64,
    /// The key-value pairs attached to the conversation.
    pub metadata: Option<JsonValue>,
}

impl ToJson for Conversation {
    open spec fn wire(&self) -> JsonModel {
        object(
            Seq::empty()
                .push(field("id", self.id))
                .push(field("object", self.object))
                .push(field("created_at", self.created_at))
                .push(optional("metadata", self.metadata)),
        )
    }

    fn to_json(&self) -> (r: JsonValue) {
        ObjectWriter::new()
            .put("id", &self.id)
            .put("object", &self.object)
            .put("created_at", &self.created_at)
            .put_opt("metadata", &self.metadata)
            .finish()
    }
}

impl FromJson for Conversation {
    open spec fn decodable(v: JsonModel) -> bool {
        &&& member_ok::<String>(v, "id")
        &&& member_ok::<String>(v, "object")
        &&& member_ok::<i64>(v, "created_at")
        &&& optional_ok::<JsonValue>(v, "metadata")
    }

    open spec fn decoded_from(&self, v: JsonModel) -> bool {
        &&& member_is(self.id, v, "id")
        &&& member_is(self.object, v, "object")
        &&& member_is(self.created_at, v, "created_at")
        &&& optional_is(self.metadata, v, "metadata")
    }

    fn from_json(v: &JsonValue) -> (r: Result<Conversation, TwcError>) {
        let id = match read::<String>(v, "id") {
            Ok(x) => x,
            Err(e) => {
                return Err(e);
            },
        };
        let object = match read::<String>(v, "object") {
            Ok(x) => x,
            Err(e) => {
                return Err(e);
            },
        };
        let created_at = match read::<i64>(v, "created_at") {
            Ok(x) => x,
            Err(e) => {
                return Err(e);
            },
        };
        let metadata = match read_opt::<JsonValue>(v, "metadata") {
            Ok(x) => x,
            Err(e) => {
                return Err(e);
            },
        };
        Ok(Conversation { id, object, created_at, metadata })
    }
}

/// The confirmation that a conversation was deleted.
#[derive(Debug, Clone, PartialEq)]
pub struct ConversationDeleted {
    /// The identifier of the deleted conversation.
    pub id: String,
    /// The kind of object.
    pub object: String,
    /// Whether the conversation was deleted.
    pub deleted: bool,
}

impl ToJson for ConversationDeleted {
    open spec fn wire(&self) -> JsonModel {
        object(
            Seq::empty()
                .push(field("id", self.id))
                .push(field("object", self.object))
                .push(field("deleted", self.deleted)),
        )
    }

    fn to_json(&self) -> (r: JsonValue) {
        ObjectWriter::new()
            .put("id", &self.id)
            .put("object", &self.object)
            .put("deleted", &self.deleted)
            .finish()
    }
}

impl FromJson for ConversationDeleted {
    open spec fn decodable(v: JsonModel) -> bool {
        &&& member_ok::<String>(v, "id")
        &&& member_ok::<String>(v, "object")
        &&& member_ok::<bool>(v, "deleted")
    }

    open spec fn decoded_from(&self, v: JsonModel) -> bool {
        &&& member_is(self.id, v, "id")
        &&& member_is(self.object, v, "object")
        &&& member_is(self.deleted, v, "deleted")
    }

    fn from_json(v: &JsonValue) -> (r: Result<ConversationDeleted, TwcError>) {
        let id = match read::<String>(v, "id") {
            Ok(x) => x,
            Err(e) => {
                return Err(e);
            },
        };
        let object = match read::<String>(v, "object") {
            Ok(x) => x,
            Err(e) => {
                return Err(e);
            },
        };
        let deleted = match read::<bool>(v, "deleted") {
            Ok(x) => x,
            Err(e) => {
                return Err(e);
            },
        };
        Ok(ConversationDeleted { id, object, deleted })
    }
}

/// One page of the items of a conversation. Where `has_more` is set, the next page is asked
/// for with `after` set to `last_id`.
#[derive(Debug, Clone, PartialEq)]
pub struct ConversationItemList {
    /// The kind of object: `list`.
    pub object: String,
    /// The items of the page.
    pub data: Vec<ConversationItem>,
    /// The identifier of the first item of the page.
    pub first_id: String,
    /// The identifier of the last item of the page.
    pub last_id: String,
    /// Whether more items follow.
    pub has_more: bool,
}

impl ToJson for ConversationItemList {
    open spec fn wire(&self) -> JsonModel {
        object(
            Seq::empty()
                .push(field("object", self.object))
                .push(field("data", self.data))
                .push(field("first_id", self.first_id))
                .push(field("last_id", self.last_id))
                .push(field("has_more", self.has_more)),
        )
    }

    fn to_json(&self) -> (r: JsonValue) {
        ObjectWriter::new()
            .put("object", &self.object)
            .put("data", &self.data)
            .put("first_id", &self.first_id)
            .put("last_id", &self.last_id)
            .put("has_more", &self.has_more)
            .finish()
    }
}

impl FromJson for ConversationItemList {
    open spec fn decodable(v: JsonModel) -> bool {
        &&& member_ok::<String>(v, "object")
        &&& member_ok::<Vec<ConversationItem>>(v, "data")
        &&& member_ok::<String>(v, "first_id")
        &&& member_ok::<String>(v, "last_id")
        &&& member_ok::<bool>(v, "has_more")
    }

    open spec fn decoded_from(&self, v: JsonModel) -> bool {
        &&& member_is(self.object, v, "object")
        &&& member_is(self.data, v, "data")
        &&& member_is(self.first_id, v, "first_id")
        &&& member_is(self.last_id, v, "last_id")
        &&& member_is(self.has_more, v, "has_more")
    }

    fn from_json(v: &JsonValue) -> (r: Result<ConversationItemList, TwcError>) {
        let object = match read::<String>(v, "object") {
            Ok(x) => x,
            Err(e) => {
                return Err(e);
            },
        };
        let data = match read::<Vec<ConversationItem>>(v, "data") {
            Ok(x) => x,
            Err(e) => {
                return Err(e);
            },
        };
        let first_id = match read::<String>(v, "first_id") {
            Ok(x) => x,
            Err(e) => {
                return Err(e);
            },
        };
        let last_id = match read::<String>(v, "last_id") {
            Ok(x) => x,
            Err(e) => {
                return Err(e);
            },
        };
        let has_more = match read::<bool>(v, "has_more") {
            Ok(x) => x,
            Err(e) => {
                return Err(e);
            },
        };
        Ok(ConversationItemList { object, data, first_id, last_id, has_more })
    }
}

/// A request to add items to a conversation.
#[derive(Debug, Clone, PartialEq)]
pub struct CreateItemsRequest {
    /// The items to add. The service takes up to 20; the client does not count them.
    pub items: Vec<CreateItemRequest>,
}

impl ToJson for CreateItemsRequest {
    open spec fn wire(&self) -> JsonModel {
        object(
            Seq::empty()
                .push(field("items", self.items)),
        )
    }

    fn to_json(&self) -> (r: JsonValue) {
        ObjectWriter::new()
            .put("items", &self.items)
            .finish()
    }
}

impl FromJson for CreateItemsRequest {
    open spec fn decodable(v: JsonModel) -> bool {
        &&& member_ok::<Vec<CreateItemRequest>>(v, "items")
    }

    open spec fn decoded_from(&self, v: JsonModel) -> bool {
        &&& member_is(self.items, v, "items")
    }

    fn from_json(v: &JsonValue) -> (r: Result<CreateItemsRequest, TwcError>) {
        let items = match read::<Vec<CreateItemRequest>>(v, "items") {
            Ok(x) => x,
            Err(e) => {
                return Err(e);
            },
        };
        Ok(CreateItemsRequest { items })
    }
}

/// One item to add to a conversation.
#[derive(Debug, Clone, PartialEq)]
pub struct CreateItemRequest {
    /// The kind of item: `message`.
    pub item_type: String,
    /// The role of the speaker (`user` or `assistant`).
    pub role: String,
    /// The content, in order.
    pub content: Vec<ItemContentInput>,
}

impl ToJson for CreateItemRequest {
    open spec fn wire(&self) -> JsonModel {
        object(
            Seq::empty()
                .push(field("type", self.item_type))
                .push(field("role", self.role))
                .push(field("content", self.content)),
        )
    }

    fn to_json(&self) -> (r: JsonValue) {
        ObjectWriter::new()
            .put("type", &self.item_type)
            .put("role", &self.role)
            .put("content", &self.content)
            .finish()
    }
}

impl FromJson for CreateItemRequest {
    open spec fn decodable(v: JsonModel) -> bool {
        &&& member_ok::<String>(v, "type")
        &&& member_ok::<String>(v, "role")
        &&& member_ok::<Vec<ItemContentInput>>(v, "content")
    }

    open spec fn decoded_from(&self, v: JsonModel) -> bool {
        &&& member_is(self.item_type, v, "type")
        &&& member_is(self.role, v, "role")
        &&& member_is(self.content, v, "content")
    }

    fn from_json(v: &JsonValue) -> (r: Result<CreateItemRequest, TwcError>) {
        let item_type = match read::<String>(v, "type") {
            Ok(x) => x,
            Err(e) => {
                return Err(e);
            },
        };
        let role = match read::<String>(v, "role") {
            Ok(x) => x,
            Err(e) => {
                return Err(e);
            },
        };
        let content = match read::<Vec<ItemContentInput>>(v, "content") {
            Ok(x) => x,
            Err(e) => {
                return Err(e);
            },
        };
        Ok(CreateItemRequest { item_type, role, content })
    }
}

/// One piece of content of an item to add.
#[derive(Debug, Clone, PartialEq)]
pub struct ItemContentInput {
    /// The kind of content: `input_text`.
    pub content_type: String,
    /// The text.
    pub text: String,
}

impl ToJson for ItemContentInput {
    open spec fn wire(&self) -> JsonModel {
        object(
            Seq::empty()
                .push(field("type", self.content_type))
                .push(field("text", self.text)),
        )
    }

    fn to_json(&self) -> (r: JsonValue) {
        ObjectWriter::new()
            .put("type", &self.content_type)
            .put("text", &self.text)
            .finish()
    }
}

impl FromJson for ItemContentInput {
    open spec fn decodable(v: JsonModel) -> bool {
        &&& member_ok::<String>(v, "type")
        &&& member_ok::<String>(v, "text")
    }

    open spec fn decoded_from(&self, v: JsonModel) -> bool {
        &&& member_is(self.content_type, v, "type")
        &&& member_is(self.text, v, "text")
    }

    fn from_json(v: &JsonValue) -> (r: Result<ItemContentInput, TwcError>) {
        let content_type = match read::<String>(v, "type") {
            Ok(x) => x,
            Err(e) => {
                return Err(e);
            },
        };
        let text = match read::<String>(v, "text") {
            Ok(x) => x,
            Err(e) => {
                return Err(e);
            },
        };
        Ok(ItemContentInput { content_type, text })
    }
}

/// The query parameters of a listing of items.
#[derive(Debug, Clone, PartialEq)]
pub struct ListItemsQuery {
    /// The item after which the page starts.
    pub after: Option<String>,
    /// Additional output to include.
    pub includes: Option<Vec<String>>,
    /// The most items to return (1 to 100; the service takes 20 where absent).
    pub limit: Option<u32>,
    /// The order of the items: `asc` or `desc`; ascending where absent.
    pub order: Option<String>,
}

impl Default for ListItemsQuery {
    fn default() -> (r: ListItemsQuery)
        ensures
            r.after is None,
            r.includes is None,
            r.limit is None,
            r.order is None,
    {
        ListItemsQuery { after: None, includes: None, limit: None, order: None }
    }
}

/// The query parameters of a request for one item.
#[derive(Debug, Clone, PartialEq)]
pub struct GetItemQuery {
    /// Additional output to include.
    pub includes: Option<Vec<String>>,
}

impl Default for GetItemQuery {
    fn default() -> (r: GetItemQuery)
        ensures
            r.includes is None,
    {
        GetItemQuery { includes: None }
    }
}

/// The query parameters of a request that adds items.
#[derive(Debug, Clone, PartialEq)]
pub struct CreateItemsQuery {
    /// Additional fields to include in the answer.
    pub includes: Option<Vec<String>>,
}

impl Default for CreateItemsQuery {
    fn default() -> (r: CreateItemsQuery)
        ensures
            r.includes is None,
    {
        CreateItemsQuery { includes: None }
    }
}

impl ToQuery for ListItemsQuery {
    open spec fn pairs(&self) -> Seq<(Seq<char>, Seq<char>)> {
        text_pairs("after", self.after) + list_pairs("include", self.includes) + number_pairs(
            "limit",
            self.limit,
        ) + text_pairs("order", self.order)
    }

    fn to_pairs(&self) -> (r: Vec<(String, String)>) {
        let mut pairs: Vec<(String, String)> = Vec::new();
        push_text(&mut pairs, "after", &self.after);
        push_list(&mut pairs, "include", &self.includes);
        push_number(&mut pairs, "limit", self.limit);
        push_text(&mut pairs, "order", &self.order);
        assert(pairs_view(pairs@) =~= self.pairs());
        pairs
    }
}

impl ToQuery for GetItemQuery {
    open spec fn pairs(&self) -> Seq<(Seq<char>, Seq<char>)> {
        list_pairs("include", self.includes)
    }

    fn to_pairs(&self) -> (r: Vec<(String, String)>) {
        let mut pairs: Vec<(String, String)> = Vec::new();
        push_list(&mut pairs, "include", &self.includes);
        assert(pairs_view(pairs@) =~= self.pairs());
        pairs
    }
}

impl ToQuery for CreateItemsQuery {
    open spec fn pairs(&self) -> Seq<(Seq<char>, Seq<char>)> {
        list_pairs("include", self.includes)
    }

    fn to_pairs(&self) -> (r: Vec<(String, String)>) {
        let mut pairs: Vec<(String, String)> = Vec::new();
        push_list(&mut pairs, "include", &self.includes);
        assert(pairs_view(pairs@) =~= self.pairs());
        pairs
    }
}

} // verus!
