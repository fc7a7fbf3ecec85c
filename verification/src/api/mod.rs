//! The operations of the service. Each one describes the request to send; the
//! reply is interpreted by the functions of [`transport`](crate::transport).

use vstd::prelude::*;
use vstd::string::*;

pub mod client;
pub mod conversations;
pub mod responses;

verus! {

/// The path of an agent.
pub open spec fn agent_path(agent: Seq<char>) -> Seq<char> {
    "/api/v1/cloud-ai/agents/"@ + agent
}

/// Builds the path of an agent followed by `rest`.
pub fn agent_target(agent_access_id: &str, rest: &str) -> (r: String)
    ensures
        r@ == agent_path(agent_access_id@) + rest@,
{
    let mut path = String::from_str("/api/v1/cloud-ai/agents/");
    path.append(agent_access_id);
    path.append(rest);
    path
}

} // verus!
