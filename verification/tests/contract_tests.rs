//! Tests of the contract: node updates, the verification round trip, the log.

use std::collections::HashSet;

use atoma_demo::contract::{ApplicationContract, Message, OutboundMessage};
use atoma_demo::protocol::ExecutionError;
use atoma_demo::{Application, ChainId, ChatInteraction, Operation, PublicKey};

fn key(byte: u8) -> PublicKey {
    PublicKey::from([byte; 32])
}

fn chain(byte: u8) -> ChainId {
    ChainId::from([byte; 32])
}

fn interaction(prompt: &str, response: &str) -> ChatInteraction {
    ChatInteraction {
        prompt: prompt.to_owned(),
        response: response.to_owned(),
    }
}

/// The contract on chain `chain_id`, with nothing stored yet, of an application
/// that `creation` created.
fn setup_contract(chain_id: ChainId, creation: ChainId) -> ApplicationContract {
    ApplicationContract::at_genesis(chain_id, creation)
}

fn active_nodes(contract: &ApplicationContract) -> HashSet<PublicKey> {
    let keys = contract.state().active_atoma_nodes.to_vec();
    let count = keys.len();
    let nodes: HashSet<PublicKey> = keys.into_iter().collect();
    assert_eq!(nodes.len(), count, "the node set should not have duplicate elements");
    assert_eq!(contract.state().active_atoma_nodes.len(), count);
    nodes
}

/// A small generator of numbers, the same on every run.
struct Numbers(u64);

impl Numbers {
    fn next(&mut self) -> u64 {
        self.0 = self
            .0
            .wrapping_mul(6364136223846793005)
            .wrapping_add(1442695040888963407);
        self.0 >> 33
    }

    fn in_range(&mut self, low: usize, high: usize) -> usize {
        low + (self.next() as usize) % (high - low)
    }
}

/// Lists of nodes to add and to remove, for `operation_count` operations in a row:
/// a node is added, later removed, later added again, and so on.
fn alternating_operations(
    numbers: &mut Numbers,
    node_count: u8,
    operation_count: usize,
) -> Vec<(Vec<PublicKey>, Vec<PublicKey>)> {
    let mut operations = vec![(vec![], vec![]); operation_count];
    for node in 0..node_count {
        let mut is_active = false;
        let mut index = numbers.in_range(0, operation_count);
        while index < operation_count {
            if is_active {
                operations[index].1.push(key(node));
            } else {
                operations[index].0.push(key(node));
            }
            is_active = !is_active;
            index = numbers.in_range(index, operation_count) + 1;
        }
    }
    operations
}

#[test]
fn updating_nodes() {
    let mut numbers = Numbers(7);
    for round in 0..20 {
        let creation = chain(round);
        let mut contract = setup_contract(creation, creation);
        let mut expected_nodes = HashSet::new();
        let operation_count = numbers.in_range(1, 10);
        let node_count = numbers.in_range(1, 100) as u8;

        for (add, remove) in alternating_operations(&mut numbers, node_count, operation_count) {
            for node in &remove {
                expected_nodes.remove(node);
            }
            expected_nodes.extend(add.iter().copied());

            let outbox = contract
                .execute_operation(Operation::UpdateNodes { add, remove })
                .expect("an update on the creation chain with disjoint lists is accepted");

            assert!(outbox.is_empty());
            assert_eq!(active_nodes(&contract), expected_nodes);
        }
    }
}

#[test]
fn only_creation_chain_can_track_nodes() {
    let creation = chain(1);
    for chain_byte in 0..4 {
        let chain_id = chain(chain_byte);
        let mut contract = setup_contract(chain_id, creation);
        let add = vec![key(10), key(11), key(12)];
        let remove = vec![key(20), key(21)];

        let result = contract.execute_operation(Operation::UpdateNodes {
            add: add.clone(),
            remove,
        });

        match result {
            Ok(outbox) => {
                assert_eq!(chain_id, creation);
                assert!(outbox.is_empty());
                assert_eq!(active_nodes(&contract), add.into_iter().collect());
            }
            Err(error) => {
                assert_ne!(chain_id, creation);
                assert_eq!(error, ExecutionError::NotCreationChain);
                assert!(active_nodes(&contract).is_empty());
            }
        }
    }
}

#[test]
fn cant_add_and_remove_node_in_the_same_operation() {
    let creation = chain(3);
    for conflict_count in 1..5u8 {
        let mut contract = setup_contract(creation, creation);
        contract
            .execute_operation(Operation::UpdateNodes {
                add: vec![key(100), key(50)],
                remove: vec![],
            })
            .expect("the first update is accepted");
        let before = active_nodes(&contract);

        let mut add = vec![key(1), key(2), key(100)];
        let mut remove = vec![key(3), key(50)];
        for conflicting in 0..conflict_count {
            add.push(key(200 + conflicting));
            remove.push(key(200 + conflicting));
        }

        let result = contract.execute_operation(Operation::UpdateNodes { add, remove });

        assert_eq!(result, Err(ExecutionError::ConflictingNodes));
        assert_eq!(active_nodes(&contract), before);
    }
}

#[test]
fn add_and_remove_of_one_node_is_rejected_in_either_order() {
    let creation = chain(3);
    for present_before in [false, true] {
        let mut contract = setup_contract(creation, creation);
        if present_before {
            contract
                .execute_operation(Operation::UpdateNodes {
                    add: vec![key(9)],
                    remove: vec![],
                })
                .expect("the first update is accepted");
        }
        let before = active_nodes(&contract);

        let result = contract.execute_operation(Operation::UpdateNodes {
            add: vec![key(9)],
            remove: vec![key(9)],
        });

        assert_eq!(result, Err(ExecutionError::ConflictingNodes));
        assert_eq!(active_nodes(&contract), before);
    }
}

#[test]
fn an_unauthorized_conflicting_update_is_unauthorized() {
    let mut contract = setup_contract(chain(2), chain(1));

    let result = contract.execute_operation(Operation::UpdateNodes {
        add: vec![key(9)],
        remove: vec![key(9)],
    });

    assert_eq!(result, Err(ExecutionError::NotCreationChain));
    assert!(active_nodes(&contract).is_empty());
}

#[test]
fn adding_a_node_twice_is_adding_it_once() {
    let creation = chain(4);
    let mut contract = setup_contract(creation, creation);
    let add_node = Operation::UpdateNodes {
        add: vec![key(5)],
        remove: vec![],
    };

    contract
        .execute_operation(add_node.clone())
        .expect("the update is accepted");
    let once = active_nodes(&contract);
    contract
        .execute_operation(add_node)
        .expect("the update is accepted again");

    assert_eq!(active_nodes(&contract), once);
    assert_eq!(once, HashSet::from([key(5)]));
    assert_eq!(contract.state().active_atoma_nodes.len(), 1);
}

#[test]
fn a_node_listed_twice_is_added_once() {
    let creation = chain(4);
    let mut contract = setup_contract(creation, creation);

    contract
        .execute_operation(Operation::UpdateNodes {
            add: vec![key(5), key(6), key(5)],
            remove: vec![key(7), key(7)],
        })
        .expect("the update is accepted");

    assert_eq!(active_nodes(&contract), HashSet::from([key(5), key(6)]));
}

#[test]
fn removing_an_absent_node_changes_nothing() {
    let creation = chain(4);
    let mut contract = setup_contract(creation, creation);
    contract
        .update_nodes(vec![key(1)], vec![])
        .expect("the update is accepted");

    contract
        .update_nodes(vec![], vec![key(2)])
        .expect("removing an absent node is no error");

    assert_eq!(active_nodes(&contract), HashSet::from([key(1)]));
}

#[test]
fn nodes_are_removed_before_nodes_are_added() {
    let creation = chain(4);
    let mut contract = setup_contract(creation, creation);
    contract
        .update_nodes(vec![key(1), key(2)], vec![])
        .expect("the update is accepted");

    contract
        .update_nodes(vec![key(3)], vec![key(1)])
        .expect("the update is accepted");

    assert_eq!(active_nodes(&contract), HashSet::from([key(2), key(3)]));
}

#[test]
fn roster_scenario_on_creation_chain_and_elsewhere() {
    let creation = chain(0xC0);
    let mut contract = setup_contract(creation, creation);
    assert!(active_nodes(&contract).is_empty());

    let outbox = contract
        .execute_operation(Operation::UpdateNodes {
            add: vec![key(1), key(2)],
            remove: vec![],
        })
        .expect("the creation chain accepts the update");
    assert!(outbox.is_empty());
    assert_eq!(active_nodes(&contract), HashSet::from([key(1), key(2)]));

    contract
        .execute_operation(Operation::UpdateNodes {
            add: vec![],
            remove: vec![key(1)],
        })
        .expect("the creation chain accepts the update");
    assert_eq!(active_nodes(&contract), HashSet::from([key(2)]));

    let mut elsewhere = setup_contract(chain(0x0D), creation);
    let result = elsewhere.execute_operation(Operation::UpdateNodes {
        add: vec![key(1), key(2)],
        remove: vec![],
    });
    assert_eq!(result, Err(ExecutionError::NotCreationChain));
    assert!(active_nodes(&elsewhere).is_empty());
    assert!(elsewhere.state().active_atoma_nodes.is_empty());
}

#[test]
fn disjointness_does_not_depend_on_the_order_of_the_sets() {
    let cases: Vec<(Vec<PublicKey>, Vec<PublicKey>, bool)> = vec![
        (vec![], vec![], true),
        (vec![key(1)], vec![], true),
        (vec![key(1), key(2), key(3)], vec![key(4)], true),
        (vec![key(1), key(2), key(3)], vec![key(3)], false),
        (vec![key(1)], vec![key(2), key(3), key(1)], false),
        (vec![key(1), key(2)], vec![key(3), key(4)], true),
        (vec![key(1), key(2)], vec![key(2), key(1)], false),
        (vec![key(1), key(1)], vec![key(2)], true),
    ];
    for (left, right, disjoint) in cases {
        let expected = if disjoint {
            Ok(())
        } else {
            Err(ExecutionError::ConflictingNodes)
        };
        assert_eq!(
            ApplicationContract::assert_key_sets_are_disjoint(&left, &right),
            expected
        );
        assert_eq!(
            ApplicationContract::assert_key_sets_are_disjoint(&right, &left),
            expected
        );
    }
}

#[test]
fn keys_that_differ_in_one_byte_are_different_nodes() {
    let mut bytes = [7u8; 32];
    let first = PublicKey::from(bytes);
    bytes[31] = 8;
    let second = PublicKey::from(bytes);
    assert!(first != second);
    assert!(first == first);
    assert!(first < second);
    assert!(second > first);
    assert_eq!(first.to_bytes()[31], 7);
    assert_eq!(second.to_bytes()[31], 8);

    assert_eq!(
        ApplicationContract::assert_key_sets_are_disjoint(&[first], &[second]),
        Ok(())
    );

    let creation = chain(1);
    let mut contract = setup_contract(creation, creation);
    contract
        .update_nodes(vec![first, second], vec![])
        .expect("the update is accepted");
    contract
        .update_nodes(vec![], vec![first])
        .expect("the update is accepted");
    assert_eq!(active_nodes(&contract), HashSet::from([second]));

    let mut other_chain = [1u8; 32];
    other_chain[0] = 2;
    assert!(creation != ChainId::from(other_chain));
    assert!(creation == ChainId::from([1u8; 32]));
    let mut elsewhere = setup_contract(ChainId::from(other_chain), creation);
    assert_eq!(
        elsewhere.update_nodes(vec![first], vec![]),
        Err(ExecutionError::NotCreationChain)
    );
}

#[test]
fn chat_interaction_is_requested_to_be_verified() {
    let creation = chain(9);
    for chain_id in [chain(9), chain(10)] {
        let mut contract = setup_contract(chain_id, creation);
        let interaction = interaction("Is the sky blue?", "Mostly.");

        let messages = contract
            .execute_operation(Operation::LogChatInteraction {
                interaction: interaction.clone(),
            })
            .expect("an interaction can be submitted on any chain");

        assert_eq!(messages.len(), 1);
        assert_eq!(
            messages[0],
            OutboundMessage {
                destination: creation,
                message: Message::VerifySignature(interaction),
            }
        );
        assert!(contract.state().chat_log.is_empty());
        assert_eq!(contract.chain_id(), chain_id);
        assert_eq!(contract.creation_chain_id(), creation);
    }
}

#[test]
fn verification_is_confirmed_to_the_sender() {
    let creation = chain(9);
    let mut contract = setup_contract(creation, creation);
    contract
        .update_nodes(vec![key(1)], vec![])
        .expect("the update is accepted");

    for requester in [chain(1), chain(2), chain(9)] {
        let interaction = interaction("ping", "pong");

        let messages =
            contract.execute_message(requester, Message::VerifySignature(interaction.clone()));

        assert_eq!(
            messages,
            vec![OutboundMessage {
                destination: requester,
                message: Message::LogVerifiedChatInteraction(interaction),
            }]
        );
        assert!(contract.state().chat_log.is_empty());
        assert_eq!(active_nodes(&contract), HashSet::from([key(1)]));
    }
}

#[test]
fn verified_chat_interactions_are_logged_on_chain() {
    let interactions = vec![
        interaction("", ""),
        interaction("What is one plus one?", "2"),
        interaction("a, b. c", "A, B. C"),
        interaction("What is one plus one?", "2"),
    ];
    let mut contract = setup_contract(chain(5), chain(6));

    for interaction in interactions.clone() {
        let outbox =
            contract.execute_message(chain(6), Message::LogVerifiedChatInteraction(interaction));
        assert!(outbox.is_empty());
    }

    assert_eq!(contract.state().chat_log, interactions);
}

#[test]
fn the_log_only_grows_at_its_end() {
    let creation = chain(6);
    let mut contract = setup_contract(creation, creation);
    let mut expected: Vec<ChatInteraction> = vec![];

    for round in 0..5u8 {
        let entry = interaction(&format!("prompt {round}"), &format!("response {round}"));
        contract.log_verified_chat_interaction(entry.clone());
        expected.push(entry);
        assert_eq!(contract.state().chat_log, expected);

        contract
            .execute_operation(Operation::UpdateNodes {
                add: vec![key(round)],
                remove: vec![],
            })
            .expect("the update is accepted");
        contract
            .execute_operation(Operation::LogChatInteraction {
                interaction: interaction("not yet verified", "so not logged"),
            })
            .expect("an interaction can be submitted");
        contract.execute_message(
            chain(round),
            Message::VerifySignature(interaction("to verify", "for another chain")),
        );
        assert_eq!(contract.state().chat_log, expected);
    }

    let state = contract.into_state();
    assert_eq!(state.chat_log, expected);
    assert_eq!(state.active_atoma_nodes.len(), 5);
}

/// Delivers the messages of `outbox`, which `sender` sent, to the contract they
/// are addressed to, and returns what those contracts want sent in turn.
fn deliver(
    outbox: Vec<OutboundMessage>,
    sender: ChainId,
    contracts: &mut [ApplicationContract],
) -> Vec<(ChainId, Vec<OutboundMessage>)> {
    let mut replies = vec![];
    for OutboundMessage {
        destination,
        message,
    } in outbox
    {
        let receiver = contracts
            .iter_mut()
            .find(|contract| contract.chain_id() == destination)
            .expect("the message is addressed to a known chain");
        replies.push((destination, receiver.execute_message(sender, message)));
    }
    replies
}

#[test]
fn round_trip_scenario_between_two_chains() {
    let creation = chain(0xC0);
    let requester = chain(0x0A);
    let mut contracts = [
        setup_contract(creation, creation),
        setup_contract(requester, creation),
    ];

    let requests = contracts[1]
        .execute_operation(Operation::LogChatInteraction {
            interaction: interaction("2+2", "4"),
        })
        .expect("an interaction can be submitted on any chain");
    assert_eq!(
        requests,
        vec![OutboundMessage {
            destination: creation,
            message: Message::VerifySignature(interaction("2+2", "4")),
        }]
    );
    assert!(contracts[1].state().chat_log.is_empty());

    let mut confirmations = deliver(requests, requester, &mut contracts);
    assert_eq!(confirmations.len(), 1);
    let (verifier, confirmation) = confirmations.remove(0);
    assert_eq!(verifier, creation);
    assert_eq!(
        confirmation,
        vec![OutboundMessage {
            destination: requester,
            message: Message::LogVerifiedChatInteraction(interaction("2+2", "4")),
        }]
    );
    assert!(contracts[0].state().chat_log.is_empty());
    assert!(contracts[1].state().chat_log.is_empty());

    let rest = deliver(confirmation, verifier, &mut contracts);
    assert_eq!(rest, vec![(requester, vec![])]);

    assert_eq!(
        contracts[1].state().chat_log,
        vec![interaction("2+2", "4")]
    );
    assert!(contracts[0].state().chat_log.is_empty());
}

#[test]
fn chat_interaction_verification_and_logging() {
    let creation = chain(0);
    let chat = chain(1);
    let mut creation_chain = setup_contract(creation, creation);
    let mut chat_chain = setup_contract(chat, creation);

    let fake_node = PublicKey::from([0_u8; 32]);
    let chat_prompt = "What is one plus one?";
    let chat_response = "2";

    creation_chain
        .execute_operation(Operation::UpdateNodes {
            add: vec![fake_node],
            remove: vec![],
        })
        .expect("the creation chain can add a node");

    let mut requests = chat_chain
        .execute_operation(Operation::LogChatInteraction {
            interaction: ChatInteraction {
                prompt: chat_prompt.to_owned(),
                response: chat_response.to_owned(),
            },
        })
        .expect("the chat chain can submit an interaction");
    assert_eq!(requests.len(), 1);
    let request = requests.remove(0);
    assert_eq!(request.destination, creation);

    let mut verifications = creation_chain.execute_message(chat, request.message);
    assert_eq!(verifications.len(), 1);
    let verification = verifications.remove(0);
    assert_eq!(verification.destination, chat);

    let rest = chat_chain.execute_message(creation, verification.message);
    assert!(rest.is_empty());

    assert_eq!(
        chat_chain.state().chat_log,
        vec![ChatInteraction {
            prompt: chat_prompt.to_owned(),
            response: chat_response.to_owned(),
        }]
    );
    assert!(creation_chain.state().chat_log.is_empty());
    assert!(chat_chain.state().active_atoma_nodes.is_empty());
    assert!(creation_chain.state().active_atoma_nodes.contains(&fake_node));
}

#[test]
fn rejections_say_why() {
    assert_eq!(
        ExecutionError::NotCreationChain.message(),
        "Only the chain that created the application can manage the set of active nodes"
    );
    assert_eq!(
        ExecutionError::ConflictingNodes.message(),
        "Conflicting request to add and remove the same node"
    );
}

#[test]
fn a_contract_continues_from_the_stored_state() {
    let creation = chain(1);
    let mut stored = Application::new();
    stored.active_atoma_nodes.insert(key(1));
    stored.active_atoma_nodes.insert(key(2));
    stored.chat_log.push(interaction("before", "the restart"));

    let mut contract = ApplicationContract::new(stored, creation, creation);
    assert_eq!(contract.chain_id(), creation);
    assert_eq!(contract.creation_chain_id(), creation);
    assert_eq!(active_nodes(&contract), HashSet::from([key(1), key(2)]));

    contract
        .update_nodes(vec![key(3)], vec![key(2)])
        .expect("the update is accepted");
    contract.execute_message(
        chain(2),
        Message::LogVerifiedChatInteraction(interaction("after", "the restart")),
    );

    let state = contract.into_state();
    let mut nodes = state.active_atoma_nodes.to_vec();
    nodes.sort();
    assert_eq!(nodes, vec![key(1), key(3)]);
    assert_eq!(
        state.chat_log,
        vec![
            interaction("before", "the restart"),
            interaction("after", "the restart")
        ]
    );
}

#[test]
fn a_chain_that_did_not_create_the_application_never_has_nodes() {
    let creation = chain(1);
    let mut contract = setup_contract(chain(2), creation);

    for round in 0..10u8 {
        let result = contract.execute_operation(Operation::UpdateNodes {
            add: vec![key(round), key(round + 100)],
            remove: vec![key(round + 50)],
        });
        assert_eq!(result, Err(ExecutionError::NotCreationChain));
        contract
            .execute_operation(Operation::LogChatInteraction {
                interaction: interaction("hello", "world"),
            })
            .expect("an interaction can be submitted on any chain");
        contract.execute_message(
            creation,
            Message::LogVerifiedChatInteraction(interaction("hello", "world")),
        );
        assert!(active_nodes(&contract).is_empty());
    }
    assert_eq!(contract.state().chat_log.len(), 10);
}
