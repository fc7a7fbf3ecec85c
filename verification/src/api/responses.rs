//! The operations on responses.
//!
//! Cancelling is an operation of its own, answered by the service; whether a
//! response can still be cancelled is for the service to say.

use crate::api::{agent_path, agent_target};
use crate::client::CloudAIClient;
use crate::error::TwcError;
use crate::transport::{described, query_text, HttpRequest, Method};
use crate::types::{CreateResponseRequest, GetResponseQuery};
use crate::wire::ToJson;
use vstd::prelude::*;
use vstd::string::*;

verus! {

/// The path of the responses of an agent.
pub open spec fn responses_path(agent: Seq<char>) -> Seq<char> {
    agent_path(agent) + "/v1/responses"@
}

/// The path of one response.
pub open spec fn response_path(agent: Seq<char>, response: Seq<char>) -> Seq<char> {
    responses_path(agent) + "/"@ + response
}

fn response_target(agent_access_id: &str, response_id: &str) -> (r: String)
    ensures
        r@ == response_path(agent_access_id@, response_id@),
{
    let mut path = agent_target(agent_access_id, "/v1/responses");
    path.append("/");
    path.append(response_id);
    path
}

impl CloudAIClient {
    /// Creates a response.
    ///
    /// `POST /api/v1/cloud-ai/agents/{agent_access_id}/v1/responses`, answered
    /// by a [`Response`](crate::types::Response).
    pub fn create_response(&self, agent_access_id: &str, request: CreateResponseRequest) -> (r:
        HttpRequest)
        ensures
            r@ == described(
                self.config(),
                Method::Post,
                responses_path(agent_access_id@),
                true,
                Some(request.wire()),
            ),
    {
        let path = agent_target(agent_access_id, "/v1/responses");
        self.request(Method::Post, path.as_str(), true, Some(request.to_json()))
    }

    /// Asks for a response.
    ///
    /// `GET /api/v1/cloud-ai/agents/{agent_access_id}/v1/responses/{response_id}`
    /// with the parameters of `query`, answered by a
    /// [`Response`](crate::types::Response).
    pub fn get_response(
        &self,
        agent_access_id: &str,
        response_id: &str,
        query: Option<GetResponseQuery>,
    ) -> (r: Result<HttpRequest, TwcError>)
        ensures
            r matches Ok(req) && req@ == described(
                self.config(),
                Method::Get,
                response_path(agent_access_id@, response_id@) + query_text(query),
                true,
                None,
            ),
    {
        let path = response_target(agent_access_id, response_id);
        self.dispatch(Method::Get, path.as_str(), true, None, &query)
    }

    /// Deletes a response. The answer has no body.
    ///
    /// `DELETE /api/v1/cloud-ai/agents/{agent_access_id}/v1/responses/{response_id}`.
    pub fn delete_response(&self, agent_access_id: &str, response_id: &str) -> (r: HttpRequest)
        ensures
            r@ == described(
                self.config(),
                Method::Delete,
                response_path(agent_access_id@, response_id@),
                true,
                None,
            ),
    {
        let path = response_target(agent_access_id, response_id);
        self.request(Method::Delete, path.as_str(), true, None)
    }

    /// Asks the service to cancel a response. The request has no body.
    ///
    /// `POST /api/v1/cloud-ai/agents/{agent_access_id}/v1/responses/{response_id}/cancel`,
    /// answered by the [`Response`](crate::types::Response).
    pub fn cancel_response(&self, agent_access_id: &str, response_id: &str) -> (r: HttpRequest)
        ensures
            r@ == described(
                self.config(),
                Method::Post,
                response_path(agent_access_id@, response_id@) + "/cancel"@,
                true,
                None,
            ),
    {
        let mut path = response_target(agent_access_id, response_id);
        path.append("/cancel");
        self.request(Method::Post, path.as_str(), true, None)
    }
}

} // verus!
