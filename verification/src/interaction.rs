//! Chat interactions and the operations that a client can submit.

use vstd::prelude::*;

use crate::identity::PublicKey;

verus! {

/// A single interaction with the AI chat.
#[derive(Clone, Debug, Eq, PartialEq)]
pub struct ChatInteraction {
    pub prompt: String,
    pub response: String,
}

/// The text of a [`ChatInteraction`].
pub struct ChatInteractionView {
    pub prompt: Seq<char>,
    pub response: Seq<char>,
}

impl View for ChatInteraction {
    type V = ChatInteractionView;

    open spec fn view(&self) -> ChatInteractionView {
        ChatInteractionView { prompt: self.prompt@, response: self.response@ }
    }
}

/// The texts of a sequence of interactions, in the same order.
pub open spec fn log_view(entries: Seq<ChatInteraction>) -> Seq<ChatInteractionView> {
    Seq::new(entries.len(), |i: int| entries[i]@)
}

impl ChatInteraction {
    /// An interaction with the given prompt and response.
    pub fn new(prompt: String, response: String) -> (interaction: Self)
        ensures
            interaction@ == (ChatInteractionView { prompt: prompt@, response: response@ }),
    {
        ChatInteraction { prompt, response }
    }
}

/// Operations that the contract can execute.
#[derive(Clone, Debug, Eq, PartialEq)]
pub enum Operation {
    /// Update the set of active nodes.
    UpdateNodes { add: Vec<PublicKey>, remove: Vec<PublicKey> },
    /// Log an interaction with the AI.
    LogChatInteraction { interaction: ChatInteraction },
}

/// The mathematical content of an [`Operation`].
pub enum OperationView {
    UpdateNodes { add: Seq<PublicKey>, remove: Seq<PublicKey> },
    LogChatInteraction { interaction: ChatInteractionView },
}

impl View for Operation {
    type V = OperationView;

    open spec fn view(&self) -> OperationView {
        match *self {
            Operation::UpdateNodes { add, remove } => OperationView::UpdateNodes {
                add: add@,
                remove: remove@,
            },
            Operation::LogChatInteraction { interaction } => OperationView::LogChatInteraction {
                interaction: interaction@,
            },
        }
    }
}

} // verus!
