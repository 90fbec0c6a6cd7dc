//! The command that starts a chat session.
use crate::agent::AgentConfig;
use crate::text;
use vstd::prelude::*;

verus! {

/// Start the interactive agent for hardware control.
#[derive(Debug, PartialEq)]
pub struct AgentCommand {
    /// Model to use.
    pub model: Option<String>,
    /// Provider to use: `ollama`, or the provider of the hosted model, which is also used if
    /// none is given.
    pub provider: Option<String>,
    /// Endpoint of the bus to connect to.
    pub zenoh_endpoint: Option<String>,
    /// Name for routing messages to this agent's inbox.
    pub name: Option<String>,
}

impl AgentCommand {
    /// What the chat session is asked for.
    pub fn config(&self) -> (r: AgentConfig)
        ensures
            r.model == self.model,
            r.provider == self.provider,
            r.name == self.name,
    {
        AgentConfig {
            model: text::copy_opt(&self.model),
            provider: text::copy_opt(&self.provider),
            name: text::copy_opt(&self.name),
        }
    }
}

} // verus!
