//! The messages that cross the agent's boundary.

use crate::sys::secrets::ProviderCredential;
use vstd::prelude::*;
use vstd::string::*;

verus! {

/// The answer to a unary call.
#[derive(Debug)]
pub struct AgentResponse {
    pub success: bool,
    pub exit_code: i32,
    pub stdout: String,
    pub stderr: String,
    pub error_message: String,
}

/// One piece of a deployment's log, with the trace id of its request.
#[derive(Debug)]
pub struct LogChunk {
    pub content: String,
    pub trace_id: String,
}

#[derive(Debug)]
pub struct PackageRequest {
    pub command: String,
    pub args: Vec<String>,
}

#[derive(Debug)]
pub struct ServiceRequest {
    pub service_name: String,
    pub action: i32,
}

#[derive(Debug)]
pub struct DeleteRequest {
    pub app_id: String,
    pub domain_name: String,
}

pub struct DeployRequest {
    pub trace_id: String,
    pub app_id: String,
    pub domain_name: String,
    pub repo_url: String,
    pub branch: String,
    pub build_command: String,
    /// Environment of the build: name and value, in the caller's order.
    pub env_vars: Vec<(String, String)>,
    /// The key that opens the repository, where it takes one.
    pub ssh_key: Option<ProviderCredential>,
}

impl LogChunk {
    /// A chunk with this content for the request with this trace id.
    pub fn new(content: String, trace_id: &str) -> (c: Self)
        ensures
            c.content == content,
            c.trace_id@ == trace_id@,
    {
        LogChunk { content, trace_id: String::from_str(trace_id) }
    }
}

} // verus!
