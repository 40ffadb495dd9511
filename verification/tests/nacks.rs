//! Tests of the stale-view governor: NACK recording, the back-off
//! threshold, the sent-registry reset on view changes, and the NACK storm
//! behavior seen through the message handler.

use stacks_signer::engine::{Signer, SignerConfig};
use stacks_signer::messages::{
    Action, BlockRejection, BlockResponse, NackMessage, Packet, PacketMessage, ProtocolMessage,
    RejectCode, SignerMessage,
};
use stacks_signer::stale_view::{get_nack_threshold, StaleNodeNackPolicy};
use stacks_signer::types::{CoordinatorMetadata, StacksAddress};

fn addr(i: u8) -> StacksAddress {
    StacksAddress { version: 26, bytes: vec![i + 1; 20] }
}

fn meta(hash_byte: u8, height: u64) -> CoordinatorMetadata {
    CoordinatorMetadata { pox_consensus_hash: vec![hash_byte; 20], burn_block_height: height }
}

fn test_config() -> SignerConfig {
    SignerConfig {
        reward_cycle: 1,
        signer_id: 0,
        signer_set: 0,
        signer_slot_id: 0,
        mainnet: false,
        tx_fee_ms: 10,
        signer_ids: (0..5).collect(),
        key_ids: (1..=20).collect(),
        signer_address_ids: (0..5u32).map(|i| (addr(i as u8), i)).collect(),
        coordinator_ids: (0..5).collect(),
        coordinator_keys: (0..5u8).map(|i| vec![i; 33]).collect(),
        coordinator_metadata: meta(0, 100),
        operation_timeout_ms: 1000,
        stale_node_nack_policy: Some(StaleNodeNackPolicy {
            nack_threshold_percent: 60,
            back_off_duration_ms: 100,
        }),
    }
}

#[test]
fn nack_threshold_formula() {
    assert_eq!(get_nack_threshold(5, 60), 3);
    assert_eq!(get_nack_threshold(5, 0), 0);
    assert_eq!(get_nack_threshold(5, 100), 5);
    assert_eq!(get_nack_threshold(101, 33), 33);
    assert_eq!(get_nack_threshold(u32::MAX, 100), u32::MAX);
}

#[test]
fn test_process_nack_message() {
    let mut signer = Signer::new(test_config());

    let current_coordinator_metadata = meta(0, 100);
    let remote_coordinator_metadata_higher = meta(1, 101);
    let policy = signer.stale_node_nack_policy.clone().unwrap();

    // A NACK from remote signer 1 to local signer 0 is recorded.
    signer.process_nack_message(
        &NackMessage {
            coordinator_metadata: remote_coordinator_metadata_higher.clone(),
            target_signer_id: 0,
            sender_signer_id: 1,
        },
        &current_coordinator_metadata,
        &policy,
        0,
    );
    assert_eq!(
        signer.nack_messages_received.get(&remote_coordinator_metadata_higher).unwrap().len(),
        1
    );

    // With a 60 percent threshold over 5 signers, the third distinct sender
    // reaches the threshold.
    signer.process_nack_message(
        &NackMessage {
            coordinator_metadata: remote_coordinator_metadata_higher.clone(),
            target_signer_id: 0,
            sender_signer_id: 2,
        },
        &current_coordinator_metadata,
        &policy,
        0,
    );
    assert_eq!(
        signer.nack_messages_received.get(&remote_coordinator_metadata_higher).unwrap().len(),
        2
    );

    signer.process_nack_message(
        &NackMessage {
            coordinator_metadata: remote_coordinator_metadata_higher.clone(),
            target_signer_id: 0,
            sender_signer_id: 3,
        },
        &current_coordinator_metadata,
        &policy,
        0,
    );
    assert!(signer.apply_back_off_delay);
    assert!(signer.back_off_until.is_some());
}

#[test]
fn test_process_signer_consensus_hash_view() {
    let mut signer = Signer::new(test_config());

    let current_signer_coordinator_metadata_1 = meta(1, 101);
    let current_signer_coordinator_metadata_2 = meta(2, 102);
    let remote_signer_coordinator_metadata_1 = meta(0, 100);
    let remote_signer_coordinator_metadata_2 = meta(0, 100);

    // A remote signer behind our view gets a NACK, recorded under our view.
    let nack = signer.process_signer_consensus_hash_view(
        &current_signer_coordinator_metadata_1,
        &remote_signer_coordinator_metadata_1,
        1,
    );
    assert!(nack.is_some());
    assert!(
        signer
            .nack_messages_sent
            .get(&current_signer_coordinator_metadata_1)
            .map_or(false, |signers| signers.contains(&1)),
        "Expected current signer's coordinator metadata in broadcasted Nack set and to contain the packet sender's signer ID"
    );

    let nack = signer.process_signer_consensus_hash_view(
        &current_signer_coordinator_metadata_1,
        &remote_signer_coordinator_metadata_2,
        2,
    );
    assert!(nack.is_some());
    assert!(
        signer
            .nack_messages_sent
            .get(&current_signer_coordinator_metadata_1)
            .map_or(false, |signers| signers.contains(&2)),
        "Expected current signer's coordinator metadata in broadcasted Nack set and to contain the packet sender's signer ID"
    );

    // The local view moved on: the old record is dropped before the new one
    // is made.
    let nack = signer.process_signer_consensus_hash_view(
        &current_signer_coordinator_metadata_2,
        &remote_signer_coordinator_metadata_2,
        2,
    );
    assert!(nack.is_some());
    assert!(
        signer.nack_messages_sent.get(&current_signer_coordinator_metadata_1).is_none(),
        "Expected outdated NACK metadata to be removed"
    );
    assert!(
        signer
            .nack_messages_sent
            .get(&current_signer_coordinator_metadata_2)
            .map_or(false, |signers| signers.contains(&2)),
        "Expected local signer's coordinator metadata in broadcasted Nack set and to contain the packet sender's signer ID"
    );
}

fn packet_from(sender: u32, sender_meta: CoordinatorMetadata) -> SignerMessage {
    SignerMessage::Packet(PacketMessage {
        packet: Packet { msg: ProtocolMessage::Other },
        packet_signer_id: sender,
        coordinator_metadata: sender_meta,
        sig_valid: true,
    })
}

#[test]
fn stale_view_nack_storm() {
    // The local view is (0x00.., height 100).
    let mut signer = Signer::new(test_config());

    // Senders ahead of us (height 101): we are the stale one, so no NACK
    // leaves and no back-off applies.
    let msgs: Vec<SignerMessage> =
        (1..=3).map(|i| packet_from(i, meta(0x11, 101))).collect();
    let out = signer.handle_signer_messages(msgs, 0);
    let nacks_sent =
        out.actions.iter().filter(|a| matches!(a, Action::Send(SignerMessage::Nack(_)))).count();
    assert_eq!(nacks_sent, 0);
    assert!(!signer.apply_back_off_delay);
    assert_eq!(signer.nack_messages_sent.len(), 0);

    // Senders behind us (height 99): each gets exactly one NACK.
    let msgs: Vec<SignerMessage> =
        (1..=3).map(|i| packet_from(i, meta(0x11, 99))).collect();
    let out = signer.handle_signer_messages(msgs, 0);
    let nacks_sent: Vec<&Action> = out
        .actions
        .iter()
        .filter(|a| matches!(a, Action::Send(SignerMessage::Nack(_))))
        .collect();
    assert_eq!(nacks_sent.len(), 3);
    let local = meta(0, 100);
    assert_eq!(signer.nack_messages_sent.get(&local).unwrap().len(), 3);

    // The same senders again: already NACKed under this view, nothing new.
    let msgs: Vec<SignerMessage> =
        (1..=3).map(|i| packet_from(i, meta(0x11, 99))).collect();
    let out = signer.handle_signer_messages(msgs, 0);
    let nacks_sent =
        out.actions.iter().filter(|a| matches!(a, Action::Send(SignerMessage::Nack(_)))).count();
    assert_eq!(nacks_sent, 0);

    // Only a change of the local view clears the sent record.
    signer.coordinator_selector.coordinator_metadata = meta(9, 110);
    let out = signer.handle_signer_messages(vec![packet_from(1, meta(0x11, 99))], 0);
    let nacks_sent =
        out.actions.iter().filter(|a| matches!(a, Action::Send(SignerMessage::Nack(_)))).count();
    assert_eq!(nacks_sent, 1);
    assert!(signer.nack_messages_sent.get(&local).is_none());
    assert_eq!(signer.nack_messages_sent.get(&meta(9, 110)).unwrap().len(), 1);
}

#[test]
fn inbound_nack_threshold_backoff() {
    // The local view sits at height 99.
    let mut config = test_config();
    config.coordinator_metadata = meta(0, 99);
    let mut signer = Signer::new(config);
    let own_address = addr(0);

    // Three inbound NACKs aimed at us, each from a view at height 100.
    let msgs: Vec<SignerMessage> = (1..=3)
        .map(|i| {
            SignerMessage::Nack(NackMessage {
                sender_signer_id: i,
                target_signer_id: 0,
                coordinator_metadata: meta(0x22, 100),
            })
        })
        .collect();
    signer.handle_signer_messages(msgs, 1000);
    assert!(signer.apply_back_off_delay);
    assert_eq!(signer.back_off_until, Some(1100));

    // While backed off, the key-generation pass queues nothing.
    let r = signer.update_dkg(Some(None), &Vec::new(), Some(false), &own_address, 1050);
    assert!(r.is_ok());
    assert_eq!(signer.commands.len(), 0);
    assert!(signer.apply_back_off_delay);

    // Once the window has elapsed, the pass clears the back-off state...
    let r = signer.update_dkg(Some(None), &Vec::new(), Some(false), &own_address, 1100);
    assert!(r.is_ok());
    assert!(!signer.apply_back_off_delay);
    assert!(signer.back_off_until.is_none());
    assert_eq!(signer.nack_messages_received.len(), 0);

    // ...and the next pass queues the key generation round.
    let r = signer.update_dkg(Some(None), &Vec::new(), Some(false), &own_address, 1101);
    assert!(r.is_ok());
    assert_eq!(signer.commands.len(), 1);
}

#[test]
fn backoff_deadline_saturates() {
    let mut signer = Signer::new(test_config());
    let policy = StaleNodeNackPolicy { nack_threshold_percent: 60, back_off_duration_ms: 500 };
    let current = meta(0, 99);
    for i in 1..=3 {
        signer.process_nack_message(
            &NackMessage {
                coordinator_metadata: meta(0x22, 100),
                target_signer_id: 0,
                sender_signer_id: i,
            },
            &current,
            &policy,
            u64::MAX,
        );
    }
    assert_eq!(signer.back_off_until, Some(u64::MAX));
}

#[test]
fn verdicts_and_transaction_lists_are_ignored() {
    let mut signer = Signer::new(test_config());
    let msgs = vec![
        SignerMessage::BlockResponse(BlockResponse::Rejected(BlockRejection {
            signer_signature_hash: vec![0x11; 32],
            reason_code: RejectCode::ValidationFailed,
        })),
        SignerMessage::Transactions(vec![]),
    ];
    let out = signer.handle_signer_messages(msgs, 0);
    assert!(out.actions.is_empty());
    assert!(out.admitted.is_empty());
    assert_eq!(signer.nack_messages_sent.len(), 0);
    assert_eq!(signer.nack_messages_received.len(), 0);
}
