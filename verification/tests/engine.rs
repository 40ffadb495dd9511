//! End-to-end scenario tests of the engine: the happy signing path, audit
//! misses, duplicate sign commands, key-generation vote handling, and the
//! event dispatcher's edges.

use stacks_signer::blocks::Block;
use stacks_signer::engine::{Command, RoundStart, Signer, SignerConfig, State};
use stacks_signer::messages::{
    Action, BlockResponse, BlockValidateOk, BlockValidateReject, BlockValidateResponse,
    NonceRequest, Packet, PacketMessage, ProtocolMessage, RejectCode, SignatureShareRequest,
    SignerEvent, SignerMessage,
};
use stacks_signer::results::{OperationResult, SignError, StacksEpochId};
use stacks_signer::stale_view::StaleNodeNackPolicy;
use stacks_signer::transactions::{
    ClarityValue, ContractCallPayload, SignerTransaction, TransactionPayload, TxChainFacts,
};
use stacks_signer::types::{ClientError, CoordinatorMetadata, StacksAddress};

fn addr(i: u8) -> StacksAddress {
    StacksAddress { version: 26, bytes: vec![i + 1; 20] }
}

fn boot_address() -> StacksAddress {
    StacksAddress { version: 26, bytes: vec![0; 20] }
}

fn meta(hash_byte: u8, height: u64) -> CoordinatorMetadata {
    CoordinatorMetadata { pox_consensus_hash: vec![hash_byte; 20], burn_block_height: height }
}

/// Five signers, five keys: a signing threshold of three.
fn test_config() -> SignerConfig {
    SignerConfig {
        reward_cycle: 1,
        signer_id: 0,
        signer_set: 0,
        signer_slot_id: 0,
        mainnet: false,
        tx_fee_ms: 10,
        signer_ids: (0..5).collect(),
        key_ids: (1..=5).collect(),
        signer_address_ids: (0..5u32).map(|i| (addr(i as u8), i)).collect(),
        coordinator_ids: (0..5).collect(),
        coordinator_keys: (0..5u8).map(|i| vec![i; 33]).collect(),
        coordinator_metadata: meta(0, 100),
        operation_timeout_ms: 1000,
        stale_node_nack_policy: Some(StaleNodeNackPolicy {
            nack_threshold_percent: 60,
            back_off_duration_ms: 100,
        }),
    }
}

fn block_b() -> Block {
    Block { signer_signature_hash: vec![0x11; 32], tx_ids: vec![] }
}

fn vote_tx(txid_byte: u8, index: u64, point: Vec<u8>, round: u64) -> SignerTransaction {
    SignerTransaction {
        txid: vec![txid_byte; 32],
        origin_address: addr(index as u8),
        origin_nonce: 1,
        mainnet: false,
        payload: TransactionPayload::ContractCall(ContractCallPayload {
            address: boot_address(),
            contract_name: "signers-voting".to_string(),
            function_name: "vote-for-aggregate-public-key".to_string(),
            function_args: vec![
                ClarityValue::UInt(index as u128),
                ClarityValue::Buff(point),
                ClarityValue::UInt(round as u128),
            ],
        }),
    }
}

fn fresh_facts() -> TxChainFacts {
    TxChainFacts {
        account_nonce: Some(1),
        prior_vote_exists: Some(false),
        last_round: Some(None),
        has_aggregate_key: Some(false),
    }
}

#[test]
fn signer_thresholds_from_key_count() {
    let signer = Signer::new(test_config());
    assert_eq!(signer.num_signers, 5);
    assert_eq!(signer.num_keys, 5);
    assert_eq!(signer.threshold, 3);
    assert_eq!(signer.dkg_threshold, 4);
    assert_eq!(signer.nack_threshold, Some(3));
    assert_eq!(signer.state, State::Idle);
}

#[test]
fn happy_signing_flow() {
    let mut signer = Signer::new(test_config());
    let block = block_b();
    let hash = block.signer_signature_hash.clone();

    // The miner proposes the block; the engine caches it and asks for
    // validation.
    let out = signer
        .process_event(Some(1), None, Some(SignerEvent::ProposedBlocks(vec![block.clone()])), None, 0)
        .unwrap();
    assert_eq!(out.actions, vec![Action::SubmitValidation(block.clone())]);

    // The chain node accepts it and the audit finds nothing missing; as
    // coordinator, the engine queues a signing round.
    let response =
        BlockValidateResponse::Valid(BlockValidateOk { signer_signature_hash: hash.clone() });
    let out = signer
        .process_event(
            Some(1),
            None,
            Some(SignerEvent::BlockValidationResponse(response)),
            Some(vec![]),
            0,
        )
        .unwrap();
    assert_eq!(out.actions, vec![]);
    assert_eq!(signer.commands.len(), 1);

    // The queued command opens a signing round over the block.
    let start = signer.process_next_command(0, None).unwrap();
    match &start {
        RoundStart::Sign { block: b, is_taproot, merkle_root } => {
            assert_eq!(b, &block);
            assert!(!is_taproot);
            assert!(merkle_root.is_none());
        },
        other => panic!("unexpected round start: {:?}", other),
    }
    signer.confirm_round_start(&start, 0);
    assert_eq!(signer.state, State::OperationInProgress);

    // The round finishes with a signature over the bare hash: the engine
    // broadcasts the acceptance once and drops the block from its cache.
    let signature: Vec<u8> = vec![0x77; 65];
    let results = vec![OperationResult::Sign {
        message: hash.clone(),
        has_aggregate_key: true,
        signature_valid: true,
        signature: signature.clone(),
    }];
    let out = signer.apply_round_outcome(true, false, results, 0);
    assert_eq!(
        out.actions,
        vec![Action::Send(SignerMessage::BlockResponse(BlockResponse::Accepted(
            hash.clone(),
            signature
        )))]
    );
    assert_eq!(signer.state, State::Idle);
    assert!(signer.blocks.get(&hash).is_none());
}

#[test]
fn audit_miss_rejects_block() {
    let mut signer = Signer::new(test_config());
    let block = block_b();
    let hash = block.signer_signature_hash.clone();

    signer
        .process_event(Some(1), None, Some(SignerEvent::ProposedBlocks(vec![block])), None, 0)
        .unwrap();

    // The bulletin holds an admitted vote transaction the block lacks.
    let t_vote = vote_tx(0xaa, 0, vec![0x42; 33], 0);
    let response =
        BlockValidateResponse::Valid(BlockValidateOk { signer_signature_hash: hash.clone() });
    let out = signer
        .process_event(
            Some(1),
            None,
            Some(SignerEvent::BlockValidationResponse(response)),
            Some(vec![(t_vote.clone(), fresh_facts())]),
            0,
        )
        .unwrap();
    assert_eq!(out.actions.len(), 1);
    match &out.actions[0] {
        Action::Send(SignerMessage::BlockResponse(BlockResponse::Rejected(rej))) => {
            assert_eq!(rej.signer_signature_hash, hash);
            assert_eq!(rej.reason_code, RejectCode::MissingTransactions(vec![t_vote]));
        },
        other => panic!("unexpected action: {:?}", other),
    }
    // No vote is recorded, no signing round is queued.
    assert!(signer.blocks.get(&hash).unwrap().vote.is_none());
    assert_eq!(signer.blocks.get(&hash).unwrap().valid, Some(false));
    assert_eq!(signer.commands.len(), 0);
}

#[test]
fn duplicate_sign_command_is_ignored() {
    let mut signer = Signer::new(test_config());
    let block = block_b();
    let hash = block.signer_signature_hash.clone();
    let sign = Command::Sign { block: block.clone(), is_taproot: false, merkle_root: None };
    signer.enqueue_command(sign.clone());
    signer.enqueue_command(sign);

    // The first command opens the round and marks the block signed over.
    let start = signer.process_next_command(0, None).unwrap();
    signer.confirm_round_start(&start, 0);
    assert!(signer.blocks.get(&hash).unwrap().signed_over);

    // Let the round finish, so the engine is idle again.
    let results = vec![OperationResult::SignErr { error: SignError::NonceTimeout }];
    signer.apply_round_outcome(true, false, results, 0);
    assert_eq!(signer.state, State::Idle);

    // The second command finds the block already signed over: a no-op, no
    // new round opens.
    assert_eq!(signer.commands.len(), 1);
    assert!(signer.process_next_command(0, None).is_none());
    assert_eq!(signer.commands.len(), 0);
}

#[test]
fn dkg_vote_dedup() {
    // A key generation result during the voting epoch: the vote goes to the
    // mempool and onto the bulletin.
    let mut signer = Signer::new(test_config());
    signer.current_dkg_id = 0;
    let point: Vec<u8> = vec![0x42; 33];
    let built = vote_tx(0xbb, 0, point.clone(), 0);

    let out = signer.process_dkg(&point, StacksEpochId::Epoch25, Some(built.clone()), vec![]);
    assert!(out.submit_to_mempool);
    let slot = out.bulletin_rewrite.unwrap();
    assert_eq!(slot, vec![built.clone()]);

    // The same point and round again: the bulletin already carries the
    // vote, so nothing is submitted to the mempool again.
    let out = signer.process_dkg(&point, StacksEpochId::Epoch25, Some(built.clone()), slot.clone());
    assert!(!out.submit_to_mempool);
    assert_eq!(out.bulletin_rewrite.unwrap(), slot);
}

#[test]
fn dkg_vote_outside_voting_epochs_is_dropped() {
    let signer = Signer::new(test_config());
    let point: Vec<u8> = vec![0x42; 33];
    let built = vote_tx(0xbb, 0, point.clone(), 0);
    let out = signer.process_dkg(&point, StacksEpochId::Pre25, Some(built.clone()), vec![]);
    assert!(!out.submit_to_mempool);
    assert!(out.bulletin_rewrite.is_none());

    // After the voting epoch the vote goes to the bulletin only.
    let out = signer.process_dkg(&point, StacksEpochId::Epoch30, Some(built.clone()), vec![]);
    assert!(!out.submit_to_mempool);
    assert_eq!(out.bulletin_rewrite.unwrap(), vec![built]);
}

#[test]
fn dkg_round_start_takes_last_round() {
    let mut signer = Signer::new(test_config());
    signer.enqueue_command(Command::Dkg);
    let start = signer.process_next_command(0, Some(Some(7))).unwrap();
    assert_eq!(start, RoundStart::Dkg { dkg_id: 7 });
    assert_eq!(signer.current_dkg_id, 7);

    // Without a recorded round, the vote starts at round zero.
    signer.enqueue_command(Command::Dkg);
    let start = signer.process_next_command(0, Some(None)).unwrap();
    assert_eq!(start, RoundStart::Dkg { dkg_id: 0 });

    // A failed last-round lookup drops the command.
    signer.enqueue_command(Command::Dkg);
    assert!(signer.process_next_command(0, None).is_none());
    assert_eq!(signer.commands.len(), 0);
}

#[test]
fn share_request_message_is_overwritten_with_cached_vote() {
    let mut signer = Signer::new(test_config());
    let block = block_b();
    let hash = block.signer_signature_hash.clone();

    // Cache the block and judge it valid; answer a nonce request to record
    // the yes vote.
    signer
        .process_event(Some(1), None, Some(SignerEvent::ProposedBlocks(vec![block.clone()])), None, 0)
        .unwrap();
    let response =
        BlockValidateResponse::Valid(BlockValidateOk { signer_signature_hash: hash.clone() });
    signer
        .process_event(Some(1), None, Some(SignerEvent::BlockValidationResponse(response)), Some(vec![]), 0)
        .unwrap();

    // A nonce request over the judged block is admitted carrying the vote.
    let nonce_request = NonceRequest {
        dkg_id: 0,
        sign_id: 1,
        message: vec![0xde; 40],
        parsed_block: Some(block.clone()),
    };
    let msgs = vec![SignerMessage::Packet(PacketMessage {
        packet: Packet { msg: ProtocolMessage::NonceRequest(nonce_request) },
        packet_signer_id: 1,
        coordinator_metadata: meta(0, 100),
        sig_valid: true,
    })];
    let out = signer.handle_signer_messages(msgs, 0);
    assert_eq!(out.admitted.len(), 1);
    match &out.admitted[0].msg {
        ProtocolMessage::NonceRequest(req) => assert_eq!(req.message, hash),
        other => panic!("unexpected message: {:?}", other),
    }

    // A dishonest coordinator ships a share request with a shifted message:
    // the engine rewrites it to the cached vote.
    let mut request =
        SignatureShareRequest { dkg_id: 0, sign_id: 1, message: hash.clone() };
    request.message[0] ^= 0xff;
    // An unknown hash is rejected outright.
    assert!(!signer.validate_signature_share_request(&mut request));

    let mut request = SignatureShareRequest { dkg_id: 0, sign_id: 1, message: hash.clone() };
    assert!(signer.validate_signature_share_request(&mut request));
    assert_eq!(request.message, hash);

    // The no-vote form of the same hash also resolves to the cached (yes)
    // vote.
    let mut no_form = hash.clone();
    no_form.push(b'n');
    let mut request = SignatureShareRequest { dkg_id: 0, sign_id: 1, message: no_form };
    assert!(signer.validate_signature_share_request(&mut request));
    assert_eq!(request.message, hash);
}

#[test]
fn nonce_request_over_unknown_block_is_cached_and_validated() {
    let mut signer = Signer::new(test_config());
    let block = block_b();
    let hash = block.signer_signature_hash.clone();
    let nonce_request = NonceRequest {
        dkg_id: 0,
        sign_id: 1,
        message: vec![0xde; 40],
        parsed_block: Some(block.clone()),
    };
    let msgs = vec![SignerMessage::Packet(PacketMessage {
        packet: Packet { msg: ProtocolMessage::NonceRequest(nonce_request) },
        packet_signer_id: 1,
        coordinator_metadata: meta(0, 100),
        sig_valid: true,
    })];
    let out = signer.handle_signer_messages(msgs, 0);
    // Not admitted yet: the block first goes to the chain node.
    assert_eq!(out.admitted.len(), 0);
    assert_eq!(out.actions, vec![Action::SubmitValidation(block)]);
    let entry = signer.blocks.get(&hash).unwrap();
    assert!(entry.signed_over);
    assert!(entry.nonce_request.is_some());

    // When the verdict arrives, the stashed request is revived, carrying
    // the (yes) vote.
    let response =
        BlockValidateResponse::Valid(BlockValidateOk { signer_signature_hash: hash.clone() });
    let out = signer
        .process_event(Some(1), None, Some(SignerEvent::BlockValidationResponse(response)), Some(vec![]), 0)
        .unwrap();
    match &out.revived.unwrap().msg {
        ProtocolMessage::NonceRequest(req) => assert_eq!(req.message, hash),
        other => panic!("unexpected message: {:?}", other),
    }
}

#[test]
fn rejected_block_yields_no_vote_form() {
    let mut signer = Signer::new(test_config());
    let block = block_b();
    let hash = block.signer_signature_hash.clone();
    let nonce_request = NonceRequest {
        dkg_id: 0,
        sign_id: 1,
        message: vec![0xde; 40],
        parsed_block: Some(block.clone()),
    };
    let msgs = vec![SignerMessage::Packet(PacketMessage {
        packet: Packet { msg: ProtocolMessage::NonceRequest(nonce_request) },
        packet_signer_id: 1,
        coordinator_metadata: meta(0, 100),
        sig_valid: true,
    })];
    signer.handle_signer_messages(msgs, 0);

    // The chain node rejects the block: the rejection is forwarded and the
    // revived request votes no (hash plus the marker byte).
    let response = BlockValidateResponse::Reject(BlockValidateReject {
        signer_signature_hash: hash.clone(),
    });
    let out = signer
        .process_event(Some(1), None, Some(SignerEvent::BlockValidationResponse(response)), None, 0)
        .unwrap();
    assert_eq!(out.actions.len(), 1);
    let mut expected_vote = hash.clone();
    expected_vote.push(b'n');
    match &out.revived.unwrap().msg {
        ProtocolMessage::NonceRequest(req) => assert_eq!(req.message, expected_vote),
        other => panic!("unexpected message: {:?}", other),
    }
    assert_eq!(signer.blocks.get(&hash).unwrap().vote, Some(expected_vote));
}

#[test]
fn signature_over_no_vote_form_broadcasts_rejection() {
    let mut signer = Signer::new(test_config());
    let hash: Vec<u8> = vec![0x11; 32];
    let mut message = hash.clone();
    message.push(b'n');
    let signature: Vec<u8> = vec![0x77; 65];
    let out =
        signer.process_signature(&message, true, true, &signature).unwrap();
    match out {
        Action::Send(SignerMessage::BlockResponse(BlockResponse::Rejected(rej))) => {
            assert_eq!(rej.signer_signature_hash, hash);
            assert_eq!(rej.reason_code, RejectCode::SignedRejection(signature.clone()));
        },
        other => panic!("unexpected action: {:?}", other),
    }

    // Without an aggregate key, or with a bad signature, nothing goes out.
    assert!(signer.process_signature(&message, false, true, &signature).is_none());
    assert!(signer.process_signature(&message, true, false, &signature).is_none());
}

#[test]
fn insufficient_signers_broadcasts_rejection() {
    let mut signer = Signer::new(test_config());
    let block = block_b();
    let hash = block.signer_signature_hash.clone();
    signer
        .process_event(Some(1), None, Some(SignerEvent::ProposedBlocks(vec![block])), None, 0)
        .unwrap();

    let error = SignError::InsufficientSigners {
        malicious_signer_ids: vec![3, 4],
        message: hash.clone(),
        parsed_block: None,
    };
    let out = signer.process_sign_error(error).unwrap();
    match out {
        Action::Send(SignerMessage::BlockResponse(BlockResponse::Rejected(rej))) => {
            assert_eq!(rej.signer_signature_hash, hash);
            assert_eq!(rej.reason_code, RejectCode::InsufficientSigners(vec![3, 4]));
        },
        other => panic!("unexpected action: {:?}", other),
    }
    // The failed block left the cache.
    assert!(signer.blocks.get(&hash).is_none());
}

#[test]
fn chain_unavailable_errors() {
    let mut signer = Signer::new(test_config());
    let r = signer.process_event(None, None, Some(SignerEvent::StatusCheck), None, 0);
    assert_eq!(r.err(), Some(ClientError::ChainUnavailable));
    let r = signer.update_dkg(None, &Vec::new(), Some(false), &addr(0), 0);
    assert_eq!(r.err(), Some(ClientError::ChainUnavailable));
}

#[test]
fn tenure_ends_only_with_successor_key() {
    let mut signer = Signer::new(test_config());
    // The cycle moved on but no successor key stands: keep working.
    let out = signer.process_event(Some(2), Some(false), Some(SignerEvent::StatusCheck), None, 0);
    assert!(out.is_ok());
    assert_eq!(signer.state, State::Idle);

    // With a confirmed successor key, the tenure is over.
    let out = signer.process_event(Some(2), Some(true), Some(SignerEvent::StatusCheck), None, 0);
    assert!(out.is_ok());
    assert_eq!(signer.state, State::TenureExceeded);

    // A finished tenure processes no more commands.
    signer.enqueue_command(Command::Dkg);
    assert!(signer.process_next_command(0, Some(None)).is_none());
}

#[test]
fn proposals_for_another_cycle_are_ignored() {
    let mut signer = Signer::new(test_config());
    let block = block_b();
    let hash = block.signer_signature_hash.clone();
    let out = signer
        .process_event(Some(2), None, Some(SignerEvent::ProposedBlocks(vec![block])), None, 0)
        .unwrap();
    assert_eq!(out.actions.len(), 0);
    assert!(signer.blocks.get(&hash).is_none());
}

#[test]
fn messages_for_another_signer_set_are_ignored() {
    let mut signer = Signer::new(test_config());
    let msgs = vec![SignerMessage::Packet(PacketMessage {
        packet: Packet { msg: ProtocolMessage::Other },
        packet_signer_id: 1,
        coordinator_metadata: meta(5, 105),
        sig_valid: true,
    })];
    let out = signer
        .process_event(Some(1), None, Some(SignerEvent::SignerMessages(9, msgs)), None, 0)
        .unwrap();
    assert_eq!(out.admitted.len(), 0);
}

#[test]
fn bad_packet_signature_drops_packet() {
    let mut signer = Signer::new(test_config());
    let msgs = vec![SignerMessage::Packet(PacketMessage {
        packet: Packet { msg: ProtocolMessage::Other },
        packet_signer_id: 1,
        coordinator_metadata: meta(0, 100),
        sig_valid: false,
    })];
    let out = signer.handle_signer_messages(msgs, 0);
    assert_eq!(out.admitted.len(), 0);
}

#[test]
fn coordinator_rotates_after_timeouts() {
    let mut signer = Signer::new(test_config());
    // With no operation under way, the first candidate coordinates.
    assert_eq!(signer.coordinator_selector.get_coordinator(0).0, 0);
    // After progress at time zero, each elapsed window moves to the next
    // candidate, wrapping around the order.
    signer.coordinator_selector.last_message_time = Some(0);
    assert_eq!(signer.coordinator_selector.get_coordinator(999).0, 0);
    assert_eq!(signer.coordinator_selector.get_coordinator(1000).0, 1);
    assert_eq!(signer.coordinator_selector.get_coordinator(4500).0, 4);
    assert_eq!(signer.coordinator_selector.get_coordinator(5000).0, 0);

    // A signer that is not the coordinator processes no commands.
    signer.enqueue_command(Command::Dkg);
    assert!(signer.process_next_command(1000, Some(None)).is_none());
    assert_eq!(signer.commands.len(), 1);
}

#[test]
fn update_dkg_skips_when_vote_already_placed() {
    let mut signer = Signer::new(test_config());
    let own_address = addr(0);
    let point: Vec<u8> = vec![0x42; 33];

    // A fresh chain key only updates the cache; nothing is queued.
    let r = signer.update_dkg(Some(Some(point.clone())), &Vec::new(), Some(false), &own_address, 0);
    assert!(r.is_ok());
    assert_eq!(signer.aggregate_public_key, Some(point.clone()));
    assert_eq!(signer.commands.len(), 0);

    // Without a chain key, a pending bulletin vote for the cached key and
    // round suppresses a new round.
    let own_vote = vote_tx(0xcc, 0, point.clone(), 0);
    let r = signer.update_dkg(Some(None), &vec![own_vote], Some(false), &own_address, 0);
    assert!(r.is_ok());
    assert_eq!(signer.commands.len(), 0);

    // An on-chain vote suppresses it too.
    let r = signer.update_dkg(Some(None), &Vec::new(), Some(true), &own_address, 0);
    assert!(r.is_ok());
    assert_eq!(signer.commands.len(), 0);

    // Otherwise the key generation command goes to the front of the queue,
    // once.
    signer.enqueue_command(Command::Sign {
        block: block_b(),
        is_taproot: false,
        merkle_root: None,
    });
    let r = signer.update_dkg(Some(None), &Vec::new(), Some(false), &own_address, 0);
    assert!(r.is_ok());
    assert_eq!(signer.commands.len(), 2);
    assert!(matches!(signer.commands[0], Command::Dkg));
    let r = signer.update_dkg(Some(None), &Vec::new(), Some(false), &own_address, 0);
    assert!(r.is_ok());
    assert_eq!(signer.commands.len(), 2);
}

#[test]
fn no_round_opens_while_backed_off() {
    let mut signer = Signer::new(test_config());
    signer.enqueue_command(Command::Sign {
        block: block_b(),
        is_taproot: false,
        merkle_root: None,
    });

    // Three inbound NACKs aimed at us put the engine into back-off.
    let policy = signer.stale_node_nack_policy.clone().unwrap();
    let behind = meta(0, 100);
    for i in 1..=3 {
        signer.process_nack_message(
            &stacks_signer::messages::NackMessage {
                sender_signer_id: i,
                target_signer_id: 0,
                coordinator_metadata: meta(0x22, 101),
            },
            &behind,
            &policy,
            0,
        );
    }
    assert!(signer.apply_back_off_delay);

    // While the back-off is in force, the idle coordinator opens nothing
    // and keeps its queue.
    assert!(signer.process_next_command(0, None).is_none());
    assert_eq!(signer.commands.len(), 1);
}

#[test]
fn share_request_through_message_handler() {
    let mut signer = Signer::new(test_config());
    let block = block_b();
    let hash = block.signer_signature_hash.clone();
    signer
        .process_event(Some(1), None, Some(SignerEvent::ProposedBlocks(vec![block])), None, 0)
        .unwrap();
    let response =
        BlockValidateResponse::Valid(BlockValidateOk { signer_signature_hash: hash.clone() });
    signer
        .process_event(Some(1), None, Some(SignerEvent::BlockValidationResponse(response)), Some(vec![]), 0)
        .unwrap();

    // Record the vote by answering a nonce request first.
    let nonce = NonceRequest {
        dkg_id: 0,
        sign_id: 1,
        message: vec![0; 4],
        parsed_block: Some(block_b()),
    };
    let msgs = vec![SignerMessage::Packet(PacketMessage {
        packet: Packet { msg: ProtocolMessage::NonceRequest(nonce) },
        packet_signer_id: 1,
        coordinator_metadata: meta(0, 100),
        sig_valid: true,
    })];
    signer.handle_signer_messages(msgs, 0);

    // A share request with a shifted message comes back carrying the vote;
    // one with a bad transport signature is dropped.
    let mut wrong = hash.clone();
    wrong.push(b'n');
    let share = |sig_valid: bool| {
        vec![SignerMessage::Packet(PacketMessage {
            packet: Packet {
                msg: ProtocolMessage::SignatureShareRequest(SignatureShareRequest {
                    dkg_id: 0,
                    sign_id: 1,
                    message: wrong.clone(),
                }),
            },
            packet_signer_id: 1,
            coordinator_metadata: meta(0, 100),
            sig_valid,
        })]
    };
    let out = signer.handle_signer_messages(share(true), 0);
    assert_eq!(out.admitted.len(), 1);
    match &out.admitted[0].msg {
        ProtocolMessage::SignatureShareRequest(req) => assert_eq!(req.message, hash),
        other => panic!("unexpected message: {:?}", other),
    }
    let out = signer.handle_signer_messages(share(false), 0);
    assert_eq!(out.admitted.len(), 0);
}

#[test]
fn dkg_vote_fee_per_epoch() {
    let signer = Signer::new(test_config());
    // Before the free epoch the configured fee is paid; from it on, none.
    assert_eq!(signer.dkg_vote_fee(StacksEpochId::Pre25), Some(10));
    assert_eq!(signer.dkg_vote_fee(StacksEpochId::Epoch25), Some(10));
    assert_eq!(signer.dkg_vote_fee(StacksEpochId::Epoch30), None);
}
