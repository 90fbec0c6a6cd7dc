//! Chat sessions in which a language model works the nodes.
pub mod conversation;
pub mod laws;
pub mod llm;
pub mod ollama;
pub mod repl;
pub mod session;

use crate::agent::ollama::{OllamaError, OllamaErrorView};
use crate::text;
use vstd::prelude::*;

verus! {

/// Why a chat session ended or could not begin.
#[derive(Debug)]
pub enum AgentError {
    /// The hosted model failed.
    Hosted {
        /// What the provider is called.
        label: String,
        /// Its own words.
        message: String,
    },
    /// A model on an Ollama server failed.
    Ollama(OllamaError),
    /// The stored memory failed, with its own words.
    Memory(String),
    /// The bus could not be reached, with its own words.
    Zenoh(String),
    /// Reading or writing failed, with the system's own words.
    Io(String),
    /// There is no provider of this name.
    InvalidProvider(String),
}

/// The contents of an [`AgentError`].
pub enum AgentErrorView {
    Hosted { label: Seq<char>, message: Seq<char> },
    Ollama(OllamaErrorView),
    Memory(Seq<char>),
    Zenoh(Seq<char>),
    Io(Seq<char>),
    InvalidProvider(Seq<char>),
}

impl View for AgentError {
    type V = AgentErrorView;

    open spec fn view(&self) -> AgentErrorView {
        match self {
            AgentError::Hosted { label, message } => AgentErrorView::Hosted {
                label: label@,
                message: message@,
            },
            AgentError::Ollama(e) => AgentErrorView::Ollama(e@),
            AgentError::Memory(s) => AgentErrorView::Memory(s@),
            AgentError::Zenoh(s) => AgentErrorView::Zenoh(s@),
            AgentError::Io(s) => AgentErrorView::Io(s@),
            AgentError::InvalidProvider(s) => AgentErrorView::InvalidProvider(s@),
        }
    }
}

impl AgentErrorView {
    /// The error in words.
    pub open spec fn text(self) -> Seq<char> {
        match self {
            AgentErrorView::Hosted { label, message } => label + " API error: "@ + message,
            AgentErrorView::Ollama(e) => "Ollama API error: "@ + e.text(),
            AgentErrorView::Memory(s) => "Memory error: "@ + s,
            AgentErrorView::Zenoh(s) => "Zenoh connection failed: "@ + s,
            AgentErrorView::Io(s) => "IO error: "@ + s,
            AgentErrorView::InvalidProvider(s) => "Unknown provider: "@ + s,
        }
    }
}

impl AgentError {
    /// The error in words.
    pub fn to_string(&self) -> (r: String)
        ensures
            r@ == self@.text(),
    {
        match self {
            AgentError::Hosted { label, message } => {
                let mut r = text::concat(label.as_str(), " API error: ");
                r.append(message.as_str());
                r
            },
            AgentError::Ollama(e) => text::concat("Ollama API error: ", e.to_string().as_str()),
            AgentError::Memory(s) => text::concat("Memory error: ", s.as_str()),
            AgentError::Zenoh(s) => text::concat("Zenoh connection failed: ", s.as_str()),
            AgentError::Io(s) => text::concat("IO error: ", s.as_str()),
            AgentError::InvalidProvider(s) => text::concat("Unknown provider: ", s.as_str()),
        }
    }
}

/// What a chat session is asked for.
#[derive(Debug)]
pub struct AgentConfig {
    /// The model, if one is asked for.
    pub model: Option<String>,
    /// Who provides the model: `ollama`, or the provider of the hosted model.
    pub provider: Option<String>,
    /// Name under which others send messages.
    pub name: Option<String>,
}

} // verus!
