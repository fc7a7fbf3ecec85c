//! The operations on conversations and their items.
//!
//! A listing returns one page. Where the page says that more items follow, the
//! caller asks again with `after` set to the last identifier of the page; the
//! client never continues by itself.

use crate::api::{agent_path, agent_target};
use crate::client::CloudAIClient;
use crate::error::TwcError;
use crate::transport::{described, query_text, HttpRequest, Method};
use crate::types::{
    CreateConversationRequest, CreateItemsQuery, CreateItemsRequest, GetItemQuery, ListItemsQuery,
    UpdateConversationRequest,
};
use crate::wire::ToJson;
use vstd::prelude::*;
use vstd::string::*;

verus! {

/// The path of the conversations of an agent.
pub open spec fn conversations_path(agent: Seq<char>) -> Seq<char> {
    agent_path(agent) + "/v1/conversations"@
}

/// The path of one conversation.
pub open spec fn conversation_path(agent: Seq<char>, conversation: Seq<char>) -> Seq<char> {
    conversations_path(agent) + "/"@ + conversation
}

/// The path of the items of a conversation.
pub open spec fn items_path(agent: Seq<char>, conversation: Seq<char>) -> Seq<char> {
    conversation_path(agent, conversation) + "/items"@
}

/// The path of one item of a conversation.
pub open spec fn item_path(agent: Seq<char>, conversation: Seq<char>, item: Seq<char>) -> Seq<
    char,
> {
    items_path(agent, conversation) + "/"@ + item
}

fn conversation_target(agent_access_id: &str, conversation_id: &str) -> (r: String)
    ensures
        r@ == conversation_path(agent_access_id@, conversation_id@),
{
    let mut path = agent_target(agent_access_id, "/v1/conversations");
    path.append("/");
    path.append(conversation_id);
    path
}

fn items_target(agent_access_id: &str, conversation_id: &str) -> (r: String)
    ensures
        r@ == items_path(agent_access_id@, conversation_id@),
{
    let mut path = conversation_target(agent_access_id, conversation_id);
    path.append("/items");
    path
}

fn item_target(agent_access_id: &str, conversation_id: &str, item_id: &str) -> (r: String)
    ensures
        r@ == item_path(agent_access_id@, conversation_id@, item_id@),
{
    let mut path = items_target(agent_access_id, conversation_id);
    path.append("/");
    path.append(item_id);
    path
}

impl CloudAIClient {
    /// Creates a conversation. The answer describes the conversation alone:
    /// the items it was created with are not sent back.
    ///
    /// `POST /api/v1/cloud-ai/agents/{agent_access_id}/v1/conversations`,
    /// answered by a [`Conversation`](crate::types::Conversation).
    pub fn create_conversation(
        &self,
        agent_access_id: &str,
        request: CreateConversationRequest,
    ) -> (r: HttpRequest)
        ensures
            r@ == described(
                self.config(),
                Method::Post,
                conversations_path(agent_access_id@),
                true,
                Some(request.wire()),
            ),
    {
        let path = agent_target(agent_access_id, "/v1/conversations");
        self.request(Method::Post, path.as_str(), true, Some(request.to_json()))
    }

    /// Asks for a conversation.
    ///
    /// `GET /api/v1/cloud-ai/agents/{agent_access_id}/v1/conversations/{conversation_id}`,
    /// answered by a [`Conversation`](crate::types::Conversation).
    pub fn get_conversation(&self, agent_access_id: &str, conversation_id: &str) -> (r:
        HttpRequest)
        ensures
            r@ == described(
                self.config(),
                Method::Get,
                conversation_path(agent_access_id@, conversation_id@),
                true,
                None,
            ),
    {
        let path = conversation_target(agent_access_id, conversation_id);
        self.request(Method::Get, path.as_str(), true, None)
    }

    /// Replaces the metadata of a conversation.
    ///
    /// `POST /api/v1/cloud-ai/agents/{agent_access_id}/v1/conversations/{conversation_id}`,
    /// answered by a [`Conversation`](crate::types::Conversation).
    pub fn update_conversation(
        &self,
        agent_access_id: &str,
        conversation_id: &str,
        request: UpdateConversationRequest,
    ) -> (r: HttpRequest)
        ensures
            r@ == described(
                self.config(),
                Method::Post,
                conversation_path(agent_access_id@, conversation_id@),
                true,
                Some(request.wire()),
            ),
    {
        let path = conversation_target(agent_access_id, conversation_id);
        self.request(Method::Post, path.as_str(), true, Some(request.to_json()))
    }

    /// Deletes a conversation.
    ///
    /// `DELETE /api/v1/cloud-ai/agents/{agent_access_id}/v1/conversations/{conversation_id}`,
    /// answered by a [`ConversationDeleted`](crate::types::ConversationDeleted).
    pub fn delete_conversation(&self, agent_access_id: &str, conversation_id: &str) -> (r:
        HttpRequest)
        ensures
            r@ == described(
                self.config(),
                Method::Delete,
                conversation_path(agent_access_id@, conversation_id@),
                true,
                None,
            ),
    {
        let path = conversation_target(agent_access_id, conversation_id);
        self.request(Method::Delete, path.as_str(), true, None)
    }

    /// Lists the items of a conversation, one page at a time.
    ///
    /// `GET /api/v1/cloud-ai/agents/{agent_access_id}/v1/conversations/{conversation_id}/items`
    /// with the parameters of `query`, answered by a
    /// [`ConversationItemList`](crate::types::ConversationItemList).
    pub fn list_conversation_items(
        &self,
        agent_access_id: &str,
        conversation_id: &str,
        query: Option<ListItemsQuery>,
    ) -> (r: Result<HttpRequest, TwcError>)
        ensures
            r matches Ok(req) && req@ == described(
                self.config(),
                Method::Get,
                items_path(agent_access_id@, conversation_id@) + query_text(query),
                true,
                None,
            ),
    {
        let path = items_target(agent_access_id, conversation_id);
        self.dispatch(Method::Get, path.as_str(), true, None, &query)
    }

    /// Adds items to a conversation.
    ///
    /// `POST /api/v1/cloud-ai/agents/{agent_access_id}/v1/conversations/{conversation_id}/items`
    /// with the parameters of `query`, answered by a
    /// [`ConversationItemList`](crate::types::ConversationItemList).
    pub fn create_conversation_items(
        &self,
        agent_access_id: &str,
        conversation_id: &str,
        request: CreateItemsRequest,
        query: Option<CreateItemsQuery>,
    ) -> (r: Result<HttpRequest, TwcError>)
        ensures
            r matches Ok(req) && req@ == described(
                self.config(),
                Method::Post,
                items_path(agent_access_id@, conversation_id@) + query_text(query),
                true,
                Some(request.wire()),
            ),
    {
        let path = items_target(agent_access_id, conversation_id);
        self.dispatch(Method::Post, path.as_str(), true, Some(request.to_json()), &query)
    }

    /// Asks for one item of a conversation.
    ///
    /// `GET /api/v1/cloud-ai/agents/{agent_access_id}/v1/conversations/{conversation_id}/items/{item_id}`
    /// with the parameters of `query`, answered by a
    /// [`ConversationItem`](crate::types::ConversationItem).
    pub fn get_conversation_item(
        &self,
        agent_access_id: &str,
        conversation_id: &str,
        item_id: &str,
        query: Option<GetItemQuery>,
    ) -> (r: Result<HttpRequest, TwcError>)
        ensures
            r matches Ok(req) && req@ == described(
                self.config(),
                Method::Get,
                item_path(agent_access_id@, conversation_id@, item_id@) + query_text(query),
                true,
                None,
            ),
    {
        let path = item_target(agent_access_id, conversation_id, item_id);
        self.dispatch(Method::Get, path.as_str(), true, None, &query)
    }

    /// Deletes one item of a conversation.
    ///
    /// `DELETE /api/v1/cloud-ai/agents/{agent_access_id}/v1/conversations/{conversation_id}/items/{item_id}`,
    /// answered by the [`Conversation`](crate::types::Conversation) that the item belonged to.
    pub fn delete_conversation_item(
        &self,
        agent_access_id: &str,
        conversation_id: &str,
        item_id: &str,
    ) -> (r: HttpRequest)
        ensures
            r@ == described(
                self.config(),
                Method::Delete,
                item_path(agent_access_id@, conversation_id@, item_id@),
                true,
                None,
            ),
    {
        let path = item_target(agent_access_id, conversation_id, item_id);
        self.request(Method::Delete, path.as_str(), true, None)
    }
}

} // verus!
