//! Tests of the vote-transaction audit: payload admission, filtering, and
//! the block transaction audit.

use stacks_signer::engine::{Signer, SignerConfig};
use stacks_signer::blocks::Block;
use stacks_signer::stale_view::StaleNodeNackPolicy;
use stacks_signer::transactions::{
    parse_function_args, verify_payload, ClarityValue, ContractCallPayload, SignerTransaction,
    TransactionPayload, TxChainFacts,
};
use stacks_signer::types::{CoordinatorMetadata, StacksAddress};

fn addr(i: u8) -> StacksAddress {
    StacksAddress { version: 26, bytes: vec![i + 1; 20] }
}

fn boot_address(mainnet: bool) -> StacksAddress {
    StacksAddress { version: if mainnet { 22 } else { 26 }, bytes: vec![0; 20] }
}

fn meta(hash_byte: u8, height: u64) -> CoordinatorMetadata {
    CoordinatorMetadata { pox_consensus_hash: vec![hash_byte; 20], burn_block_height: height }
}

fn test_config() -> SignerConfig {
    SignerConfig {
        reward_cycle: 1,
        signer_id: 0,
        signer_set: 0,
        signer_slot_id: 0,
        mainnet: false,
        tx_fee_ms: 10,
        signer_ids: (0..5).collect(),
        key_ids: (1..=20).collect(),
        signer_address_ids: (0..5u32).map(|i| (addr(i as u8), i)).collect(),
        coordinator_ids: (0..5).collect(),
        coordinator_keys: (0..5u8).map(|i| vec![i; 33]).collect(),
        coordinator_metadata: meta(0, 100),
        operation_timeout_ms: 1000,
        stale_node_nack_policy: Some(StaleNodeNackPolicy {
            nack_threshold_percent: 60,
            back_off_duration_ms: 100,
        }),
    }
}

fn vote_call(callee: StacksAddress, contract: &str, function: &str, args: Vec<ClarityValue>) -> TransactionPayload {
    TransactionPayload::ContractCall(ContractCallPayload {
        address: callee,
        contract_name: contract.to_string(),
        function_name: function.to_string(),
        function_args: args,
    })
}

fn vote_args(index: u64, point: Vec<u8>, round: u64) -> Vec<ClarityValue> {
    vec![
        ClarityValue::UInt(index as u128),
        ClarityValue::Buff(point),
        ClarityValue::UInt(round as u128),
    ]
}

fn make_tx(
    txid_byte: u8,
    origin: StacksAddress,
    nonce: u64,
    payload: TransactionPayload,
) -> SignerTransaction {
    SignerTransaction {
        txid: vec![txid_byte; 32],
        origin_address: origin,
        origin_nonce: nonce,
        mainnet: false,
        payload,
    }
}

fn fresh_facts() -> TxChainFacts {
    TxChainFacts {
        account_nonce: Some(1),
        prior_vote_exists: Some(false),
        last_round: Some(None),
        has_aggregate_key: Some(false),
    }
}

fn point() -> Vec<u8> {
    vec![0x42; 33]
}

#[test]
fn get_filtered_transaction_filters_out_invalid_transactions() {
    let signer = Signer::new(test_config());
    let contract = "signers-voting";
    let function = "vote-for-aggregate-public-key";
    let args = || vote_args(0, point(), 0);

    let valid_tx = make_tx(1, addr(0), 1, vote_call(boot_address(false), contract, function, args()));
    let invalid_tx_outdated_nonce =
        make_tx(2, addr(0), 0, vote_call(boot_address(false), contract, function, args()));
    // An origin that is not a registered signer of this cycle.
    let invalid_tx_bad_signer =
        make_tx(3, addr(9), 1, vote_call(boot_address(false), contract, function, args()));
    // The mainnet boot address is not this (testnet) cycle's contract owner.
    let invalid_tx_bad_contract_addr =
        make_tx(4, addr(0), 1, vote_call(boot_address(true), contract, function, args()));
    let invalid_tx_bad_contract_name =
        make_tx(5, addr(0), 1, vote_call(boot_address(false), "wrong", function, args()));
    let invalid_tx_bad_function =
        make_tx(6, addr(0), 1, vote_call(boot_address(false), contract, "fake-function", args()));
    let invalid_tx_bad_function_args =
        make_tx(7, addr(0), 1, vote_call(boot_address(false), contract, function, vec![]));

    let transactions = vec![
        valid_tx.clone(),
        invalid_tx_outdated_nonce,
        invalid_tx_bad_signer,
        invalid_tx_bad_contract_addr,
        invalid_tx_bad_contract_name,
        invalid_tx_bad_function,
        invalid_tx_bad_function_args,
    ];
    let candidates: Vec<(SignerTransaction, TxChainFacts)> =
        transactions.into_iter().map(|t| (t, fresh_facts())).collect();

    let filtered_txs = signer.get_filtered_transactions(candidates);
    assert_eq!(filtered_txs, vec![valid_tx]);
}

#[test]
fn verify_block_transactions_valid() {
    let signer = Signer::new(test_config());
    let valid_tx = make_tx(
        1,
        addr(0),
        1,
        vote_call(boot_address(false), "signers-voting", "vote-for-aggregate-public-key", vote_args(0, point(), 0)),
    );

    // The block carries the expected transaction.
    let block = Block { signer_signature_hash: vec![0x06; 32], tx_ids: vec![valid_tx.txid.clone()] };

    let outcome = signer.verify_block_transactions(&block, Some(vec![(valid_tx, fresh_facts())]));
    assert!(outcome.is_valid);
    assert!(outcome.rejection.is_none());
}

#[test]
fn verify_transaction_payload_filters_invalid_payloads() {
    let signer = Signer::new(test_config());
    let contract = "signers-voting";
    let function = "vote-for-aggregate-public-key";

    let invalid_not_contract_call = make_tx(1, addr(0), 1, TransactionPayload::Other);
    let invalid_signers_contract_addr =
        make_tx(2, addr(0), 1, vote_call(addr(3), contract, function, vote_args(0, point(), 0)));
    let invalid_signers_contract_name = make_tx(
        3,
        addr(0),
        1,
        vote_call(boot_address(false), "bad-signers-contract-name", function, vote_args(0, point(), 0)),
    );
    let invalid_signers_vote_function = make_tx(
        4,
        addr(0),
        1,
        vote_call(boot_address(false), contract, "some-other-function", vote_args(0, point(), 0)),
    );
    // Voting for another signer's index.
    let invalid_signer_id_argument = make_tx(
        5,
        addr(0),
        1,
        vote_call(boot_address(false), contract, function, vote_args(1, point(), 0)),
    );

    for tx in [
        invalid_not_contract_call,
        invalid_signers_contract_addr,
        invalid_signers_contract_name,
        invalid_signers_vote_function,
        invalid_signer_id_argument,
    ] {
        let result = verify_payload(&tx, signer.signer_id, signer.mainnet, &fresh_facts()).unwrap();
        assert!(!result);
    }

    // An origin that already voted for this round and cycle.
    let invalid_already_voted = make_tx(
        6,
        addr(0),
        1,
        vote_call(boot_address(false), contract, function, vote_args(0, point(), 0)),
    );
    let facts = TxChainFacts { prior_vote_exists: Some(true), ..fresh_facts() };
    assert!(!verify_payload(&invalid_already_voted, signer.signer_id, signer.mainnet, &facts).unwrap());

    // Voting for a round past the last one after the key is confirmed.
    let invalid_round_number = make_tx(
        7,
        addr(0),
        1,
        vote_call(boot_address(false), contract, function, vote_args(0, point(), 11)),
    );
    let facts = TxChainFacts {
        last_round: Some(Some(10)),
        has_aggregate_key: Some(true),
        ..fresh_facts()
    };
    assert!(!verify_payload(&invalid_round_number, signer.signer_id, signer.mainnet, &facts).unwrap());

    // The same round is still acceptable.
    let valid_same_round = make_tx(
        8,
        addr(0),
        1,
        vote_call(boot_address(false), contract, function, vote_args(0, point(), 10)),
    );
    assert!(verify_payload(&valid_same_round, signer.signer_id, signer.mainnet, &facts).unwrap());
}

#[test]
fn payload_rejects_far_future_round() {
    let signer = Signer::new(test_config());
    // Anti-spam: the round may run at most two past the last recorded one.
    let tx_ok = make_tx(
        1,
        addr(0),
        1,
        vote_call(
            boot_address(false),
            "signers-voting",
            "vote-for-aggregate-public-key",
            vote_args(0, point(), 2),
        ),
    );
    let tx_far = make_tx(
        2,
        addr(0),
        1,
        vote_call(
            boot_address(false),
            "signers-voting",
            "vote-for-aggregate-public-key",
            vote_args(0, point(), 3),
        ),
    );
    assert!(verify_payload(&tx_ok, 0, false, &fresh_facts()).unwrap());
    assert!(!verify_payload(&tx_far, 0, false, &fresh_facts()).unwrap());
}

#[test]
fn payload_lookup_failure_is_an_error() {
    // A failed chain lookup needed by the rules surfaces as an error, which
    // filters the transaction.
    let tx = make_tx(
        1,
        addr(0),
        1,
        vote_call(
            boot_address(false),
            "signers-voting",
            "vote-for-aggregate-public-key",
            vote_args(0, point(), 0),
        ),
    );
    let facts = TxChainFacts { prior_vote_exists: None, ..fresh_facts() };
    assert!(verify_payload(&tx, 0, false, &facts).is_err());

    let signer = Signer::new(test_config());
    assert!(signer.verify_signer_transaction(tx, &facts).is_none());
}

#[test]
fn audit_reports_missing_transactions() {
    let signer = Signer::new(test_config());
    let t_vote = make_tx(
        1,
        addr(0),
        1,
        vote_call(
            boot_address(false),
            "signers-voting",
            "vote-for-aggregate-public-key",
            vote_args(0, point(), 0),
        ),
    );
    // The block does not carry the admitted vote transaction.
    let block = Block { signer_signature_hash: vec![0x06; 32], tx_ids: vec![vec![0xaa; 32]] };
    let outcome =
        signer.verify_block_transactions(&block, Some(vec![(t_vote.clone(), fresh_facts())]));
    assert!(!outcome.is_valid);
    let rejection = outcome.rejection.unwrap();
    assert_eq!(rejection.signer_signature_hash, block.signer_signature_hash);
    match rejection.reason_code {
        stacks_signer::messages::RejectCode::MissingTransactions(txs) => {
            assert_eq!(txs, vec![t_vote]);
        },
        other => panic!("unexpected reason code: {:?}", other),
    }
}

#[test]
fn audit_without_bulletin_rejects_for_connectivity() {
    let signer = Signer::new(test_config());
    let block = Block { signer_signature_hash: vec![0x06; 32], tx_ids: vec![] };
    let outcome = signer.verify_block_transactions(&block, None);
    assert!(!outcome.is_valid);
    let rejection = outcome.rejection.unwrap();
    assert!(matches!(
        rejection.reason_code,
        stacks_signer::messages::RejectCode::ConnectivityIssues
    ));
}

#[test]
fn argument_parsing_edges() {
    // A signer index that does not fit in 64 bits is rejected.
    let too_big = vec![
        ClarityValue::UInt(u128::from(u64::MAX) + 1),
        ClarityValue::Buff(point()),
        ClarityValue::UInt(0),
    ];
    assert!(parse_function_args(&too_big).is_none());
    // A point of the wrong length is rejected.
    let short_point =
        vec![ClarityValue::UInt(0), ClarityValue::Buff(vec![0x42; 32]), ClarityValue::UInt(0)];
    assert!(parse_function_args(&short_point).is_none());
    // The reserved reward-cycle slot parses as zero.
    let good = vec![ClarityValue::UInt(7), ClarityValue::Buff(point()), ClarityValue::UInt(9)];
    let (ix, pt, round, cycle) = parse_function_args(&good).unwrap();
    assert_eq!((ix, round, cycle), (7, 9, 0));
    assert_eq!(pt, point());
}
