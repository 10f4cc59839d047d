//! The protocol as mathematics: what one chain holds, and what an operation
//! or a delivered message makes of it.
//!
//! The executable contract is specified against the functions of this module.
//! The theorems at the end are stated over the same functions, so they hold of
//! every run of the executable contract.

use vstd::prelude::*;

use crate::identity::{ChainId, PublicKey};
use crate::interaction::{ChatInteractionView, OperationView};

verus! {

/// Why an operation was rejected.
#[derive(Clone, Copy, Debug, PartialEq, Eq, Structural)]
pub enum ExecutionError {
    /// The set of active nodes was to be changed on a chain that did not create
    /// the application.
    NotCreationChain,
    /// One request asked to add and to remove the same node.
    ConflictingNodes,
}

/// The content of a cross-chain message.
pub enum MessageView {
    VerifySignature(ChatInteractionView),
    LogVerifiedChatInteraction(ChatInteractionView),
}

/// A message together with the chain it is sent to.
pub struct OutboundMessageView {
    pub destination: ChainId,
    pub message: MessageView,
}

/// What one chain holds of the application.
pub struct ChainState {
    /// The chain that holds this state.
    pub chain_id: ChainId,
    /// The chain that created the application.
    pub creation_chain_id: ChainId,
    /// This chain's copy of the set of active nodes.
    pub active_atoma_nodes: Set<PublicKey>,
    /// This chain's chat log, oldest entry first.
    pub chat_log: Seq<ChatInteractionView>,
}

/// What handling one input leaves behind: the new state and the messages to send.
pub struct Step {
    pub state: ChainState,
    pub outbox: Seq<OutboundMessageView>,
}

/// An input to a chain: an operation that a client submits, or a message that
/// another chain sent.
pub enum Input {
    Operation(OperationView),
    Message { sender: ChainId, message: MessageView },
}

/// No key occurs in both sequences.
pub open spec fn key_sets_are_disjoint(left: Seq<PublicKey>, right: Seq<PublicKey>) -> bool {
    left.to_set().disjoint(right.to_set())
}

/// The set of nodes after the keys of `remove` have left it and the keys of
/// `add` have then joined it.
pub open spec fn nodes_after_update(
    nodes: Set<PublicKey>,
    add: Seq<PublicKey>,
    remove: Seq<PublicKey>,
) -> Set<PublicKey> {
    nodes.difference(remove.to_set()).union(add.to_set())
}

/// What a request to update the nodes makes of a chain's state. Only the
/// creation chain accepts it, and only if no key is both added and removed.
pub open spec fn update_nodes_result(
    state: ChainState,
    add: Seq<PublicKey>,
    remove: Seq<PublicKey>,
) -> Result<ChainState, ExecutionError> {
    if state.chain_id != state.creation_chain_id {
        Err(ExecutionError::NotCreationChain)
    } else if !key_sets_are_disjoint(add, remove) {
        Err(ExecutionError::ConflictingNodes)
    } else {
        Ok(
            ChainState {
                active_atoma_nodes: nodes_after_update(state.active_atoma_nodes, add, remove),
                ..state
            },
        )
    }
}

/// The request, sent to the creation chain, to verify an interaction.
pub open spec fn verification_request(
    state: ChainState,
    interaction: ChatInteractionView,
) -> OutboundMessageView {
    OutboundMessageView {
        destination: state.creation_chain_id,
        message: MessageView::VerifySignature(interaction),
    }
}

/// The confirmation of an interaction, sent back to the chain that asked.
pub open spec fn confirmation(
    requester: ChainId,
    interaction: ChatInteractionView,
) -> OutboundMessageView {
    OutboundMessageView {
        destination: requester,
        message: MessageView::LogVerifiedChatInteraction(interaction),
    }
}

/// What an operation makes of a chain's state, or why it is rejected.
pub open spec fn operation_result(state: ChainState, operation: OperationView) -> Result<
    Step,
    ExecutionError,
> {
    match operation {
        OperationView::UpdateNodes { add, remove } => match update_nodes_result(
            state,
            add,
            remove,
        ) {
            Ok(updated) => Ok(Step { state: updated, outbox: Seq::empty() }),
            Err(error) => Err(error),
        },
        OperationView::LogChatInteraction { interaction } => Ok(
            Step { state, outbox: seq![verification_request(state, interaction)] },
        ),
    }
}

/// What a message from `sender` makes of a chain's state.
pub open spec fn message_result(state: ChainState, sender: ChainId, message: MessageView) -> Step {
    match message {
        MessageView::VerifySignature(interaction) => Step {
            state,
            outbox: seq![confirmation(sender, interaction)],
        },
        MessageView::LogVerifiedChatInteraction(interaction) => Step {
            state: ChainState { chat_log: state.chat_log.push(interaction), ..state },
            outbox: Seq::empty(),
        },
    }
}

/// The state after an input. A rejected operation leaves the state as it was.
pub open spec fn state_after(state: ChainState, input: Input) -> ChainState {
    match input {
        Input::Operation(operation) => match operation_result(state, operation) {
            Ok(step) => step.state,
            Err(_) => state,
        },
        Input::Message { sender, message } => message_result(state, sender, message).state,
    }
}

/// The state after a sequence of inputs, handled one at a time in order.
pub open spec fn state_after_all(state: ChainState, inputs: Seq<Input>) -> ChainState
    decreases inputs.len(),
{
    if inputs.len() == 0 {
        state
    } else {
        state_after(state_after_all(state, inputs.drop_last()), inputs.last())
    }
}

/// The state of a chain on which nothing has happened yet.
pub open spec fn genesis(chain_id: ChainId, creation_chain_id: ChainId) -> ChainState {
    ChainState {
        chain_id,
        creation_chain_id,
        active_atoma_nodes: Set::empty(),
        chat_log: Seq::empty(),
    }
}

/// The request to add `add` and remove `remove`, as an input.
pub open spec fn update_nodes_input(add: Seq<PublicKey>, remove: Seq<PublicKey>) -> Input {
    Input::Operation(OperationView::UpdateNodes { add, remove })
}

/// The confirmations of `interactions`, each from the chain `sender`, as inputs.
pub open spec fn confirmation_inputs(
    sender: ChainId,
    interactions: Seq<ChatInteractionView>,
) -> Seq<Input> {
    Seq::new(
        interactions.len(),
        |i: int|
            Input::Message {
                sender,
                message: MessageView::LogVerifiedChatInteraction(interactions[i]),
            },
    )
}

/// The interactions that the inputs confirm, in the order of the inputs.
pub open spec fn confirmed_interactions(inputs: Seq<Input>) -> Seq<ChatInteractionView>
    decreases inputs.len(),
{
    if inputs.len() == 0 {
        Seq::empty()
    } else {
        let earlier = confirmed_interactions(inputs.drop_last());
        match inputs.last() {
            Input::Message { message: MessageView::LogVerifiedChatInteraction(interaction), .. } => earlier.push(
                interaction,
            ),
            _ => earlier,
        }
    }
}

/// Whether two sets of keys are disjoint does not depend on which is named first.
pub proof fn lemma_disjointness_is_symmetric(left: Seq<PublicKey>, right: Seq<PublicKey>)
    ensures
        key_sets_are_disjoint(left, right) == key_sets_are_disjoint(right, left),
{
}

/// Two sequences of keys are disjoint exactly when no key of one occurs in the other.
pub proof fn lemma_disjointness_by_members(left: Seq<PublicKey>, right: Seq<PublicKey>)
    ensures
        key_sets_are_disjoint(left, right) <==> forall|i: int, j: int|
            0 <= i < left.len() && 0 <= j < right.len() ==> left[i] != right[j],
{
    if key_sets_are_disjoint(left, right) {
        assert forall|i: int, j: int|
            0 <= i < left.len() && 0 <= j < right.len() implies left[i] != right[j] by {
            assert(left.to_set().contains(left[i]));
            assert(right.to_set().contains(right[j]));
        }
    }
}

/// Adding one node twice in a row leaves the same set of nodes as adding it once.
pub proof fn lemma_adding_twice_is_adding_once(state: ChainState, node: PublicKey)
    ensures
        ({
            let add_node = update_nodes_input(seq![node], Seq::empty());
            let once = state_after(state, add_node);
            let twice = state_after(once, add_node);
            twice.active_atoma_nodes == once.active_atoma_nodes
        }),
{
    let add_node = update_nodes_input(seq![node], Seq::empty());
    let once = state_after(state, add_node);
    let twice = state_after(once, add_node);
    assert(twice.active_atoma_nodes =~= once.active_atoma_nodes);
}

/// Any accepted update, applied a second time, changes nothing more.
pub proof fn lemma_update_is_idempotent(
    state: ChainState,
    add: Seq<PublicKey>,
    remove: Seq<PublicKey>,
)
    ensures
        ({
            let update = update_nodes_input(add, remove);
            state_after(state_after(state, update), update) == state_after(state, update)
        }),
{
    let update = update_nodes_input(add, remove);
    let once = state_after(state, update);
    let twice = state_after(once, update);
    assert(twice.active_atoma_nodes =~= once.active_atoma_nodes);
}

/// A request that adds and removes the same node is rejected on every chain,
/// and the nodes stay as they were. On the creation chain the reason is the
/// conflict.
pub proof fn lemma_add_and_remove_same_node_is_rejected(state: ChainState, node: PublicKey)
    ensures
        update_nodes_result(state, seq![node], seq![node]) is Err,
        state.chain_id == state.creation_chain_id ==> update_nodes_result(
            state,
            seq![node],
            seq![node],
        ) == Err::<ChainState, ExecutionError>(ExecutionError::ConflictingNodes),
        state_after(state, update_nodes_input(seq![node], seq![node])) == state,
{
    assert(seq![node].to_set().contains(seq![node][0]));
}

/// A request whose two lists share a key is rejected on every chain.
pub proof fn lemma_conflicting_update_is_rejected(
    state: ChainState,
    add: Seq<PublicKey>,
    remove: Seq<PublicKey>,
    node: PublicKey,
)
    requires
        add.contains(node),
        remove.contains(node),
    ensures
        update_nodes_result(state, add, remove) is Err,
        state_after(state, update_nodes_input(add, remove)) == state,
{
    assert(add.to_set().contains(node) && remove.to_set().contains(node));
}

/// On a chain other than the creation chain, a request to update the nodes is
/// rejected whatever it adds or removes, and the chain's state stays as it was.
pub proof fn lemma_only_creation_chain_updates_nodes(
    state: ChainState,
    add: Seq<PublicKey>,
    remove: Seq<PublicKey>,
)
    requires
        state.chain_id != state.creation_chain_id,
    ensures
        update_nodes_result(state, add, remove) == Err::<ChainState, ExecutionError>(
            ExecutionError::NotCreationChain,
        ),
        operation_result(state, OperationView::UpdateNodes { add, remove }) is Err,
        state_after(state, update_nodes_input(add, remove)) == state,
{
}

/// No sequence of inputs changes the nodes of a chain other than the creation chain.
pub proof fn lemma_nodes_fixed_off_creation_chain(state: ChainState, inputs: Seq<Input>)
    requires
        state.chain_id != state.creation_chain_id,
    ensures
        state_after_all(state, inputs).active_atoma_nodes == state.active_atoma_nodes,
        state_after_all(state, inputs).chain_id == state.chain_id,
        state_after_all(state, inputs).creation_chain_id == state.creation_chain_id,
    decreases inputs.len(),
{
    if inputs.len() > 0 {
        lemma_nodes_fixed_off_creation_chain(state, inputs.drop_last());
    }
}

/// A chain other than the creation chain never has an active node, whatever
/// inputs it has handled since its beginning.
pub proof fn lemma_no_nodes_off_creation_chain(
    chain_id: ChainId,
    creation_chain_id: ChainId,
    inputs: Seq<Input>,
)
    requires
        chain_id != creation_chain_id,
    ensures
        state_after_all(genesis(chain_id, creation_chain_id), inputs).active_atoma_nodes
            == Set::<PublicKey>::empty(),
{
    lemma_nodes_fixed_off_creation_chain(genesis(chain_id, creation_chain_id), inputs);
}

/// One input never alters or removes an entry of the log: the log before is
/// the beginning of the log after.
pub proof fn lemma_input_keeps_log_entries(state: ChainState, input: Input)
    ensures
        state.chat_log.is_prefix_of(state_after(state, input).chat_log),
{
}

/// No sequence of inputs alters or removes an entry of the log.
pub proof fn lemma_log_is_append_only(state: ChainState, inputs: Seq<Input>)
    ensures
        state.chat_log.is_prefix_of(state_after_all(state, inputs).chat_log),
    decreases inputs.len(),
{
    if inputs.len() > 0 {
        let before_last = state_after_all(state, inputs.drop_last());
        lemma_log_is_append_only(state, inputs.drop_last());
        lemma_input_keeps_log_entries(before_last, inputs.last());
        let after = state_after(before_last, inputs.last());
        assert(state.chat_log.is_prefix_of(after.chat_log)) by {
            assert(state.chat_log =~= before_last.chat_log.subrange(
                0,
                state.chat_log.len() as int,
            ));
            assert(before_last.chat_log =~= after.chat_log.subrange(
                0,
                before_last.chat_log.len() as int,
            ));
            assert(state.chat_log =~= after.chat_log.subrange(0, state.chat_log.len() as int));
        }
    }
}

/// After any sequence of inputs, the log is the log before followed by the
/// interactions that were confirmed, in the order of their confirmation.
pub proof fn lemma_log_grows_by_confirmations(state: ChainState, inputs: Seq<Input>)
    ensures
        state_after_all(state, inputs).chat_log == state.chat_log + confirmed_interactions(inputs),
    decreases inputs.len(),
{
    if inputs.len() == 0 {
        assert(state.chat_log + confirmed_interactions(inputs) =~= state.chat_log);
    } else {
        lemma_log_grows_by_confirmations(state, inputs.drop_last());
        let earlier = confirmed_interactions(inputs.drop_last());
        match inputs.last() {
            Input::Message { message: MessageView::LogVerifiedChatInteraction(interaction), .. } => {
                assert((state.chat_log + earlier).push(interaction) =~= state.chat_log
                    + earlier.push(interaction));
            },
            _ => {},
        }
    }
}

/// After a sequence of confirmations, the log is the log before followed by the
/// confirmed interactions in the order of their confirmation. Nothing else
/// of the state changes.
pub proof fn lemma_confirmations_extend_log(
    state: ChainState,
    sender: ChainId,
    interactions: Seq<ChatInteractionView>,
)
    ensures
        confirmed_interactions(confirmation_inputs(sender, interactions)) == interactions,
        state_after_all(state, confirmation_inputs(sender, interactions)) == (ChainState {
            chat_log: state.chat_log + interactions,
            ..state
        }),
    decreases interactions.len(),
{
    let inputs = confirmation_inputs(sender, interactions);
    if interactions.len() == 0 {
        assert(state.chat_log + interactions =~= state.chat_log);
        assert(confirmed_interactions(inputs) =~= interactions);
    } else {
        let earlier = interactions.drop_last();
        lemma_confirmations_extend_log(state, sender, earlier);
        assert(inputs.drop_last() =~= confirmation_inputs(sender, earlier));
        assert(earlier.push(interactions.last()) =~= interactions);
        assert((state.chat_log + earlier).push(interactions.last()) =~= state.chat_log
            + interactions);
    }
}

/// The round trip of one interaction between a chain and the creation chain.
///
/// Submitting the interaction on the requesting chain changes nothing there and
/// sends one request to the creation chain. Handling that request changes
/// nothing on the creation chain and sends one confirmation back to the
/// requesting chain. Handling the confirmation appends the interaction to the
/// requesting chain's log, as its one new entry, and sends nothing.
pub proof fn lemma_round_trip(
    requester: ChainState,
    creation: ChainState,
    interaction: ChatInteractionView,
)
    requires
        requester.creation_chain_id == creation.chain_id,
        requester.chain_id != creation.chain_id,
    ensures
        ({
            let submission = operation_result(
                requester,
                OperationView::LogChatInteraction { interaction },
            );
            &&& submission is Ok
            &&& submission->Ok_0.state == requester
            &&& submission->Ok_0.outbox.len() == 1
            &&& submission->Ok_0.outbox[0].destination == creation.chain_id
            &&& submission->Ok_0.outbox[0].message == MessageView::VerifySignature(interaction)
            &&& {
                let verification = message_result(
                    creation,
                    requester.chain_id,
                    submission->Ok_0.outbox[0].message,
                );
                &&& verification.state == creation
                &&& verification.outbox.len() == 1
                &&& verification.outbox[0].destination == requester.chain_id
                &&& verification.outbox[0].message == MessageView::LogVerifiedChatInteraction(
                    interaction,
                )
                &&& {
                    let logging = message_result(
                        submission->Ok_0.state,
                        creation.chain_id,
                        verification.outbox[0].message,
                    );
                    &&& logging.outbox.len() == 0
                    &&& logging.state.chat_log == requester.chat_log.push(interaction)
                    &&& logging.state.active_atoma_nodes == requester.active_atoma_nodes
                    &&& logging.state.chain_id == requester.chain_id
                    &&& logging.state.creation_chain_id == requester.creation_chain_id
                }
            }
        }),
{
}

} // verus!
