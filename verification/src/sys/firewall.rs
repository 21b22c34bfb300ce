//! Firewall policies as values.

use crate::error::AgentError;
use vstd::prelude::*;

verus! {

#[derive(Debug, Clone, Copy, PartialEq, Eq, Structural)]
pub enum FirewallAction {
    Allow,
    Deny,
    Reject,
}

#[derive(Debug, Clone, Copy, PartialEq, Eq, Structural)]
pub enum Protocol {
    Tcp,
    Udp,
    Both,
}

#[derive(Debug)]
pub struct FirewallPolicy {
    pub action: FirewallAction,
    pub port: u16,
    pub protocol: Protocol,
    /// The address that the policy is limited to, as text.
    pub source_ip: Option<String>,
}

/// What the agent asks of a firewall: the command line that puts a policy in
/// force. The agent keeps no firewall state of its own.
pub trait FirewallManager {
    fn apply_policy(&self, policy: &FirewallPolicy) -> (r: Result<Vec<String>, AgentError>);
}

} // verus!
