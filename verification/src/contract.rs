//! The contract: what a chain does with an operation or a delivered message.
//!
//! The contract decides and changes its own state. It sends nothing itself:
//! the messages to send are handed back to the caller, which owns the channel
//! between the chains.

use vstd::prelude::*;

use crate::identity::{ChainId, PublicKey};
use crate::interaction::{log_view, ChatInteraction, Operation};
use crate::protocol::{
    confirmation, genesis, key_sets_are_disjoint, lemma_disjointness_by_members, message_result,
    operation_result, update_nodes_result, verification_request, ChainState, ExecutionError,
    MessageView, OutboundMessageView,
};
use crate::state::{position, Application};

verus! {

/// Cross-chain messages sent between the chains that run the application.
#[derive(Clone, Debug, Eq, PartialEq)]
pub enum Message {
    /// Request to verify a [`ChatInteraction`]'s signature.
    VerifySignature(ChatInteraction),
    /// Response indicating that the [`ChatInteraction`]'s signature was verified and approved.
    LogVerifiedChatInteraction(ChatInteraction),
}

impl View for Message {
    type V = MessageView;

    open spec fn view(&self) -> MessageView {
        match *self {
            Message::VerifySignature(interaction) => MessageView::VerifySignature(interaction@),
            Message::LogVerifiedChatInteraction(interaction) => MessageView::LogVerifiedChatInteraction(
                interaction@,
            ),
        }
    }
}

/// A message that the contract wants sent, and the chain to send it to.
#[derive(Clone, Debug, Eq, PartialEq)]
pub struct OutboundMessage {
    pub destination: ChainId,
    pub message: Message,
}

impl View for OutboundMessage {
    type V = OutboundMessageView;

    open spec fn view(&self) -> OutboundMessageView {
        OutboundMessageView { destination: self.destination, message: self.message@ }
    }
}

/// The contents of a list of outbound messages, in the same order.
pub open spec fn outbox_view(outbox: Seq<OutboundMessage>) -> Seq<OutboundMessageView> {
    Seq::new(outbox.len(), |i: int| outbox[i]@)
}

impl ExecutionError {
    /// The reason in words.
    pub fn message(&self) -> (text: String)
        ensures
            text@ == match *self {
                ExecutionError::NotCreationChain =>
                    "Only the chain that created the application can manage the set of active nodes"@,
                ExecutionError::ConflictingNodes =>
                    "Conflicting request to add and remove the same node"@,
            },
    {
        match self {
            ExecutionError::NotCreationChain => String::from_str(
                "Only the chain that created the application can manage the set of active nodes",
            ),
            ExecutionError::ConflictingNodes => String::from_str(
                "Conflicting request to add and remove the same node",
            ),
        }
    }
}

/// The application on one chain: its state, the chain it runs on, and the chain
/// that created the application.
#[derive(Clone, Debug)]
pub struct ApplicationContract {
    state: Application,
    chain_id: ChainId,
    creation_chain_id: ChainId,
}

impl View for ApplicationContract {
    type V = ChainState;

    closed spec fn view(&self) -> ChainState {
        ChainState {
            chain_id: self.chain_id,
            creation_chain_id: self.creation_chain_id,
            active_atoma_nodes: self.state@.active_atoma_nodes,
            chat_log: self.state@.chat_log,
        }
    }
}

impl ApplicationContract {
    /// The contract on chain `chain_id`, with the state that the chain stored, for
    /// an application that chain `creation_chain_id` created.
    pub fn new(state: Application, chain_id: ChainId, creation_chain_id: ChainId) -> (contract:
        Self)
        ensures
            contract@ == (ChainState {
                chain_id,
                creation_chain_id,
                active_atoma_nodes: state@.active_atoma_nodes,
                chat_log: state@.chat_log,
            }),
    {
        ApplicationContract { state, chain_id, creation_chain_id }
    }

    /// The contract on chain `chain_id` at that chain's beginning: no node is active
    /// and nothing is logged.
    pub fn at_genesis(chain_id: ChainId, creation_chain_id: ChainId) -> (contract: Self)
        ensures
            contract@ == genesis(chain_id, creation_chain_id),
    {
        ApplicationContract { state: Application::new(), chain_id, creation_chain_id }
    }

    /// The chain that the contract runs on.
    pub fn chain_id(&self) -> (id: ChainId)
        ensures
            id == self@.chain_id,
    {
        self.chain_id
    }

    /// The chain that created the application.
    pub fn creation_chain_id(&self) -> (id: ChainId)
        ensures
            id == self@.creation_chain_id,
    {
        self.creation_chain_id
    }

    /// The state of the chain.
    pub fn state(&self) -> (state: &Application)
        ensures
            state@.active_atoma_nodes == self@.active_atoma_nodes,
            state@.chat_log == self@.chat_log,
    {
        &self.state
    }

    /// Gives up the contract for the state to store.
    pub fn into_state(self) -> (state: Application)
        ensures
            state@.active_atoma_nodes == self@.active_atoma_nodes,
            state@.chat_log == self@.chat_log,
    {
        self.state
    }

    /// Executes an operation that a client submitted on this chain.
    ///
    /// Returns the messages to send. A rejected operation changes nothing.
    pub fn execute_operation(&mut self, operation: Operation) -> (result: Result<
        Vec<OutboundMessage>,
        ExecutionError,
    >)
        ensures
            match operation_result(old(self)@, operation@) {
                Ok(step) => {
                    &&& result is Ok
                    &&& final(self)@ == step.state
                    &&& outbox_view(result->Ok_0@) == step.outbox
                },
                Err(error) => {
                    &&& result == Err::<Vec<OutboundMessage>, ExecutionError>(error)
                    &&& final(self)@ == old(self)@
                },
            },
    {
        match operation {
            Operation::UpdateNodes { add, remove } => {
                match self.update_nodes(add, remove) {
                    Ok(()) => {
                        let outbox: Vec<OutboundMessage> = Vec::new();
                        assert(outbox_view(outbox@) =~= Seq::<OutboundMessageView>::empty());
                        Ok(outbox)
                    },
                    Err(error) => Err(error),
                }
            },
            Operation::LogChatInteraction { interaction } => {
                let ghost request = verification_request(self@, interaction@);
                let message = self.log_chat_interaction(interaction);
                let mut outbox: Vec<OutboundMessage> = Vec::new();
                outbox.push(message);
                assert(outbox_view(outbox@) =~= seq![request]);
                Ok(outbox)
            },
        }
    }

    /// Executes a message that the chain `sender` sent to this chain.
    ///
    /// Returns the messages to send.
    pub fn execute_message(&mut self, sender: ChainId, message: Message) -> (outbox: Vec<
        OutboundMessage,
    >)
        ensures
            final(self)@ == message_result(old(self)@, sender, message@).state,
            outbox_view(outbox@) == message_result(old(self)@, sender, message@).outbox,
    {
        match message {
            Message::VerifySignature(interaction) => {
                let ghost reply = confirmation(sender, interaction@);
                let message = self.verify_signature(sender, interaction);
                let mut outbox: Vec<OutboundMessage> = Vec::new();
                outbox.push(message);
                assert(outbox_view(outbox@) =~= seq![reply]);
                outbox
            },
            Message::LogVerifiedChatInteraction(interaction) => {
                self.log_verified_chat_interaction(interaction);
                let outbox: Vec<OutboundMessage> = Vec::new();
                assert(outbox_view(outbox@) =~= Seq::<OutboundMessageView>::empty());
                outbox
            },
        }
    }

    /// Handles an [`Operation::UpdateNodes`] by removing the `nodes_to_remove` and then
    /// adding the `nodes_to_add`.
    ///
    /// Only the chain that created the application accepts the request, and only
    /// if no node is both added and removed. A rejected request changes nothing.
    pub fn update_nodes(
        &mut self,
        nodes_to_add: Vec<PublicKey>,
        nodes_to_remove: Vec<PublicKey>,
    ) -> (result: Result<(), ExecutionError>)
        ensures
            match update_nodes_result(old(self)@, nodes_to_add@, nodes_to_remove@) {
                Ok(state) => result is Ok && final(self)@ == state,
                Err(error) => result == Err::<(), ExecutionError>(error) && final(self)@ == old(
                    self,
                )@,
            },
    {
        if self.chain_id != self.creation_chain_id {
            return Err(ExecutionError::NotCreationChain);
        }
        match Self::assert_key_sets_are_disjoint(
            nodes_to_add.as_slice(),
            nodes_to_remove.as_slice(),
        ) {
            Ok(()) => {},
            Err(error) => {
                return Err(error);
            },
        }
        let ghost nodes_before = self@.active_atoma_nodes;

        let mut removed: usize = 0;
        while removed < nodes_to_remove.len()
            invariant
                removed <= nodes_to_remove.len(),
                self.chain_id == old(self).chain_id,
                self.creation_chain_id == old(self).creation_chain_id,
                self.state.chat_log == old(self).state.chat_log,
                self.state.active_atoma_nodes@ == nodes_before.difference(
                    nodes_to_remove@.take(removed as int).to_set(),
                ),
            decreases nodes_to_remove.len() - removed,
        {
            self.state.active_atoma_nodes.remove(&nodes_to_remove[removed]);
            proof {
                lemma_take_next_to_set(nodes_to_remove@, removed as int);
                assert(self.state.active_atoma_nodes@ =~= nodes_before.difference(
                    nodes_to_remove@.take(removed as int + 1).to_set(),
                ));
            }
            removed += 1;
        }
        assert(nodes_to_remove@.take(removed as int) =~= nodes_to_remove@);
        let ghost nodes_between = nodes_before.difference(nodes_to_remove@.to_set());

        let mut added: usize = 0;
        while added < nodes_to_add.len()
            invariant
                added <= nodes_to_add.len(),
                self.chain_id == old(self).chain_id,
                self.creation_chain_id == old(self).creation_chain_id,
                self.state.chat_log == old(self).state.chat_log,
                self.state.active_atoma_nodes@ == nodes_between.union(
                    nodes_to_add@.take(added as int).to_set(),
                ),
            decreases nodes_to_add.len() - added,
        {
            self.state.active_atoma_nodes.insert(nodes_to_add[added]);
            proof {
                lemma_take_next_to_set(nodes_to_add@, added as int);
                assert(self.state.active_atoma_nodes@ =~= nodes_between.union(
                    nodes_to_add@.take(added as int + 1).to_set(),
                ));
            }
            added += 1;
        }
        assert(nodes_to_add@.take(added as int) =~= nodes_to_add@);
        Ok(())
    }

    /// Checks that two sets of [`PublicKey`]s are disjoint.
    ///
    /// The keys of the longer list are looked up in the shorter one. The answer
    /// does not depend on which list is which.
    pub fn assert_key_sets_are_disjoint(left: &[PublicKey], right: &[PublicKey]) -> (result:
        Result<(), ExecutionError>)
        ensures
            result == if key_sets_are_disjoint(left@, right@) {
                Ok::<(), ExecutionError>(())
            } else {
                Err::<(), ExecutionError>(ExecutionError::ConflictingNodes)
            },
    {
        let (smallest_set, largest_set) = if left.len() < right.len() {
            (left, right)
        } else {
            (right, left)
        };
        proof {
            lemma_disjointness_by_members(largest_set@, smallest_set@);
        }
        let mut index: usize = 0;
        while index < largest_set.len()
            invariant
                index <= largest_set.len(),
                key_sets_are_disjoint(left@, right@) == key_sets_are_disjoint(
                    largest_set@,
                    smallest_set@,
                ),
                forall|i: int, j: int|
                    0 <= i < index && 0 <= j < smallest_set.len() ==> largest_set[i]
                        != smallest_set[j],
            decreases largest_set.len() - index,
        {
            if position(smallest_set, &largest_set[index]).is_some() {
                proof {
                    let key = largest_set[index as int];
                    assert(largest_set@.to_set().contains(key));
                    assert(smallest_set@.to_set().contains(key));
                }
                return Err(ExecutionError::ConflictingNodes);
            }
            index += 1;
        }
        Ok(())
    }

    /// Handles an [`Operation::LogChatInteraction`] by requesting the [`ChatInteraction`]'s
    /// signature to be verified on the creation chain. The log is left as it is.
    pub fn log_chat_interaction(&self, interaction: ChatInteraction) -> (request: OutboundMessage)
        ensures
            request@ == verification_request(self@, interaction@),
    {
        OutboundMessage {
            destination: self.creation_chain_id,
            message: Message::VerifySignature(interaction),
        }
    }

    /// Handles a [`Message::VerifySignature`] from the chain `requester` by responding to
    /// that chain with a [`Message::LogVerifiedChatInteraction`].
    ///
    /// That the request arrived is taken as proof that it is authentic.
    pub fn verify_signature(&self, requester: ChainId, interaction: ChatInteraction) -> (reply:
        OutboundMessage)
        ensures
            reply@ == confirmation(requester, interaction@),
    {
        OutboundMessage {
            destination: requester,
            message: Message::LogVerifiedChatInteraction(interaction),
        }
    }

    /// Handles a [`Message::LogVerifiedChatInteraction`] by adding the [`ChatInteraction`] to
    /// the end of the chat log.
    pub fn log_verified_chat_interaction(&mut self, interaction: ChatInteraction)
        ensures
            final(self)@ == (ChainState {
                chat_log: old(self)@.chat_log.push(interaction@),
                ..old(self)@
            }),
    {
        let ghost log_before = self.state.chat_log@;
        self.state.chat_log.push(interaction);
        assert(log_view(self.state.chat_log@) =~= log_view(log_before).push(interaction@));
    }
}

/// The set of the first `count + 1` elements is the set of the first `count`
/// elements with the next one added.
proof fn lemma_take_next_to_set(keys: Seq<PublicKey>, count: int)
    requires
        0 <= count < keys.len(),
    ensures
        keys.take(count + 1).to_set() == keys.take(count).to_set().insert(keys[count]),
{
    assert(keys.take(count + 1) =~= keys.take(count).push(keys[count]));
    keys.take(count).lemma_push_to_set_commute(keys[count]);
}

} // verus!
