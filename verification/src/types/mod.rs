//! The values that travel to and from the service.

pub mod chat;
pub mod common;
pub mod conversation;
pub mod response;

pub use chat::{
    AgentCallRequest, AgentCallResponse, ChatCompletionChoice, ChatCompletionRequest,
    ChatCompletionResponse, ChatContent, ChatMessage, ContentItem, Role,
};
pub use common::{
    CustomTool, FileContent, FinishReason, FunctionCall, FunctionTool, ImageUrl, ImageUrlContent,
    InputAudio, InputAudioContent, Model, ModelsResponse, RefusalContent, ResponseFormatJsonObject,
    ResponseFormatJsonSchema, ResponseFormatText, StreamOptions, TextContent, Usage,
};
pub use conversation::{
    Conversation, ConversationDeleted, ConversationItem, ConversationItemContent,
    ConversationItemContentInput, ConversationItemList, ConversationItemMessage,
    CreateConversationRequest, CreateItemRequest, CreateItemsQuery, CreateItemsRequest,
    GetItemQuery, ItemContentInput, ListItemsQuery, UpdateConversationRequest,
};
pub use response::{
    CreateResponseRequest, GetResponseQuery, Response, ResponseInput, ResponseUsage,
};
