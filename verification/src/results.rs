//! Handling what comes back from the round library — signatures, key
//! generation results, and round errors — and the periodic key-generation
//! update pass.

use vstd::prelude::*;

use crate::blocks::Block;
use crate::engine::{Command, Signer, State};
use crate::selector::Selector;
use crate::messages::{
    Action, BlockRejection, BlockResponse, RejectCode, SignerMessage,
};
use crate::transactions::{
    is_vote_call, parse_function_args, spec_is_vote_call, spec_parse_function_args,
    SignerTransaction,
};
use crate::assoc::MapKey;
use crate::types::{bytes_eq, clone_bytes, ClientError, StacksAddress, HASH_LEN};

verus! {

/// The chain epochs the engine distinguishes: before the voting epoch,
/// the voting epoch (votes also go to the mempool, with a fee), and the
/// epoch after (bulletin only, free).
#[derive(Clone, Copy, Debug, PartialEq, Eq, Structural)]
pub enum StacksEpochId {
    Pre25,
    Epoch25,
    Epoch30,
}

/// A round error reported by the round library. For too few signers, the
/// driver attaches the round's message and the block it decodes to, if any.
#[derive(Clone, Debug, PartialEq, Eq)]
pub enum SignError {
    NonceTimeout,
    InsufficientSigners { malicious_signer_ids: Vec<u32>, message: Vec<u8>, parsed_block: Option<Block> },
    Aggregator,
}

/// One result of a finished round, as reported by the driver: for a
/// signature, the round's message together with the driver's checks —
/// whether an aggregate key was set at all, and whether the signature
/// verifies under it over that message.
#[derive(Clone, Debug, PartialEq, Eq)]
pub enum OperationResult {
    Sign { message: Vec<u8>, has_aggregate_key: bool, signature_valid: bool, signature: Vec<u8> },
    SignTaproot,
    Dkg { point: Vec<u8> },
    SignErr { error: SignError },
    DkgErr,
}

/// The hash a signed message refers to: its first 32 bytes when longer (a
/// no-vote form), else the message itself.
pub open spec fn spec_signed_hash(msg: Seq<u8>) -> Seq<u8> {
    if msg.len() > HASH_LEN {
        msg.take(HASH_LEN as int)
    } else {
        msg
    }
}

/// The compressed points of the key generation results, in order.
pub open spec fn spec_dkg_points(rs: Seq<OperationResult>) -> Seq<Vec<u8>>
    decreases rs.len(),
{
    if rs.len() == 0 {
        Seq::empty()
    } else {
        let prefix = spec_dkg_points(rs.drop_last());
        match rs.last() {
            OperationResult::Dkg { point } => prefix.push(point),
            _ => prefix,
        }
    }
}

/// Whether the list holds a vote-function call for exactly this point and
/// round.
pub open spec fn spec_has_vote_for(
    txs: Seq<SignerTransaction>,
    point: Seq<u8>,
    round: u64,
    mainnet: bool,
) -> bool {
    exists|i: int|
        0 <= i < txs.len() && spec_is_vote_call((#[trigger] txs[i]).payload, mainnet) && (match txs[i].payload {
            crate::transactions::TransactionPayload::ContractCall(p) => (
            spec_parse_function_args(p.function_args@) matches Some(t) && t.1 == point && t.2
                == round),
            _ => false,
        })
}

/// Whether the list holds this signer's own pending vote: a vote call from
/// `owner` for the currently cached aggregate key and round.
pub open spec fn spec_pending_own_vote(
    txs: Seq<SignerTransaction>,
    owner: crate::types::AddressV,
    key: Option<Vec<u8>>,
    round: u64,
    mainnet: bool,
) -> bool {
    exists|i: int|
        0 <= i < txs.len() && (#[trigger] txs[i]).origin_address@ == owner && spec_is_vote_call(
            txs[i].payload,
            mainnet,
        ) && (match txs[i].payload {
            crate::transactions::TransactionPayload::ContractCall(p) => (
            spec_parse_function_args(p.function_args@) matches Some(t) && (key matches Some(ak)
                && ak@ == t.1) && t.2 == round),
            _ => false,
        })
}

/// What the driver must do with a key generation result: maybe submit the
/// vote transaction to the mempool, and maybe rewrite this signer's
/// bulletin slot with the given list.
pub struct DkgVoteOutcome {
    pub submit_to_mempool: bool,
    pub bulletin_rewrite: Option<Vec<SignerTransaction>>,
}

/// What the driver must do after a batch of operation results: broadcasts
/// to send, and the key generation points still to be turned into vote
/// transactions through [`Signer::process_dkg`].
pub struct ResultsOutcome {
    pub actions: Vec<Action>,
    pub dkg_points: Vec<Vec<u8>>,
}


/// Exactly what handling one finished signature changes and emits: only the
/// block store moves; without an aggregate key or a hash-shaped message
/// nothing is broadcast; otherwise the block leaves the store and, for a
/// verifying signature, the acceptance or signed rejection goes out.
pub open spec fn signature_post(
    pre: Signer,
    post: Signer,
    message: Vec<u8>,
    has_aggregate_key: bool,
    signature_valid: bool,
    signature: Vec<u8>,
    out: Option<Action>,
) -> bool {
    &&& post == (Signer { blocks: post.blocks, ..pre })
    &&& ((!has_aggregate_key || spec_signed_hash(message@).len() != HASH_LEN) ==> out is None
        && post.blocks@ == pre.blocks@)
    &&& ((has_aggregate_key && spec_signed_hash(message@).len() == HASH_LEN) ==> {
        let h = spec_signed_hash(message@);
        &&& post.blocks@ == pre.blocks@.remove(h)
        &&& (!signature_valid ==> out is None)
        &&& (signature_valid ==> (out matches Some(a) && a matches Action::Send(m) && (
        match m {
            SignerMessage::BlockResponse(BlockResponse::Accepted(ah, sig)) => message@.len()
                == HASH_LEN && ah@ == h && sig@ == signature@,
            SignerMessage::BlockResponse(BlockResponse::Rejected(rej)) => message@.len()
                != HASH_LEN && rej.signer_signature_hash@ == h && (
            rej.reason_code matches RejectCode::SignedRejection(sig) && sig@ == signature@),
            _ => false,
        })))
    })
}

/// Exactly what handling one round error changes and emits: only the block
/// store moves; only a too-few-signers error broadcasts, rejecting the
/// block it decodes to or, failing that, the cached block its message
/// names, which then leaves the store.
pub open spec fn sign_error_post(
    pre: Signer,
    post: Signer,
    error: SignError,
    out: Option<Action>,
) -> bool {
    &&& post == (Signer { blocks: post.blocks, ..pre })
    &&& (!(error is InsufficientSigners) ==> out is None && post.blocks@ == pre.blocks@)
    &&& (error matches SignError::InsufficientSigners {
        malicious_signer_ids,
        message,
        parsed_block,
    } ==> (match parsed_block {
        Some(b) => {
            &&& post.blocks@ == pre.blocks@
            &&& (out matches Some(a) && a matches Action::Send(m) && (
            m matches SignerMessage::BlockResponse(br) && (
            br matches BlockResponse::Rejected(rej) && rej.signer_signature_hash@
                == b.signer_signature_hash@ && (
            rej.reason_code matches RejectCode::InsufficientSigners(ids) && ids@
                == malicious_signer_ids@))))
        },
        None => {
            let h = spec_signed_hash(message@);
            if h.len() == HASH_LEN && pre.blocks@.contains_key(h) {
                &&& post.blocks@ == pre.blocks@.remove(h)
                &&& (out matches Some(a) && a matches Action::Send(m) && (
                m matches SignerMessage::BlockResponse(br) && (
                br matches BlockResponse::Rejected(rej) && rej.signer_signature_hash@ == h && (
                rej.reason_code matches RejectCode::InsufficientSigners(ids) && ids@
                    == malicious_signer_ids@))))
            } else {
                out is None && post.blocks@ == pre.blocks@
            }
        },
    }))
}

/// An optional broadcast, as the sequence it appends to the action log.
pub open spec fn opt_action(out: Option<Action>) -> Seq<Action> {
    match out {
        Some(a) => seq![a],
        None => Seq::empty(),
    }
}

/// One result's step: what it does to the engine and what it appends to the
/// outputs gathered so far.
pub open spec fn result_step(
    pre: Signer,
    post: Signer,
    result: OperationResult,
    actions_pre: Seq<Action>,
    actions_post: Seq<Action>,
    points_pre: Seq<Vec<u8>>,
    points_post: Seq<Vec<u8>>,
) -> bool {
    match result {
        OperationResult::Sign { message, has_aggregate_key, signature_valid, signature } => exists|
            out: Option<Action>,
        |
            {
                &&& #[trigger] signature_post(
                    pre,
                    post,
                    message,
                    has_aggregate_key,
                    signature_valid,
                    signature,
                    out,
                )
                &&& actions_post == actions_pre + opt_action(out)
                &&& points_post == points_pre
            },
        OperationResult::SignTaproot => post == pre && actions_post == actions_pre && points_post
            == points_pre,
        OperationResult::Dkg { point } => post == pre && actions_post == actions_pre
            && points_post == points_pre.push(point),
        OperationResult::SignErr { error } => exists|out: Option<Action>|
            {
                &&& #[trigger] sign_error_post(pre, post, error, out)
                &&& actions_post == actions_pre + opt_action(out)
                &&& points_post == points_pre
            },
        OperationResult::DkgErr => post == pre && actions_post == actions_pre && points_post
            == points_pre,
    }
}

/// Extends the batch relation by one handled result.
proof fn lemma_results_post_extend(
    pre: Signer,
    mid: Signer,
    post: Signer,
    results: Seq<OperationResult>,
    acts: Seq<Action>,
    actions: Seq<Action>,
    pts: Seq<Vec<u8>>,
    points: Seq<Vec<u8>>,
)
    requires
        results.len() > 0,
        results_post(pre, mid, results.drop_last(), acts, pts),
        result_step(mid, post, results.last(), acts, actions, pts, points),
    ensures
        results_post(pre, post, results, actions, points),
{
    reveal_with_fuel(results_post, 2);
    assert(result_step(mid, post, results.last(), acts, actions, pts, points));
}

/// The batch relation: the final engine state and the gathered outputs come
/// from handling every result in order, each step as [`result_step`] fixes
/// it.
pub open spec fn results_post(
    pre: Signer,
    post: Signer,
    results: Seq<OperationResult>,
    actions: Seq<Action>,
    dkg_points: Seq<Vec<u8>>,
) -> bool
    decreases results.len(),
{
    if results.len() == 0 {
        post == pre && actions == Seq::<Action>::empty() && dkg_points == Seq::<Vec<u8>>::empty()
    } else {
        exists|mid: Signer, acts: Seq<Action>, pts: Seq<Vec<u8>>|
            {
                &&& results_post(pre, mid, results.drop_last(), acts, pts)
                &&& #[trigger] result_step(mid, post, results.last(), acts, actions, pts, dkg_points)
            }
    }
}

impl Signer {
    /// Handles a finished signature: the signed block leaves the store, and
    /// the signature is broadcast as an acceptance of the block when the
    /// message was the bare hash, else as a rejection. Nothing is broadcast
    /// without an aggregate key, or when the signature does not verify.
    pub fn process_signature(
        &mut self,
        message: &Vec<u8>,
        has_aggregate_key: bool,
        signature_valid: bool,
        signature: &Vec<u8>,
    ) -> (out: Option<Action>)
        requires
            old(self).inv(),
        ensures
            final(self).inv(),
            signature_post(
                *old(self),
                *final(self),
                *message,
                has_aggregate_key,
                signature_valid,
                *signature,
                out,
            ),
    {
        if !has_aggregate_key {
            // Without an aggregate key the signature cannot be checked;
            // nothing is broadcast.
            return None;
        }
        let len = message.len();
        let hash: Vec<u8>;
        if len > HASH_LEN {
            let mut h = clone_bytes(message);
            h.truncate(HASH_LEN);
            proof {
                assert(h@ =~= message@.take(HASH_LEN as int));
            }
            hash = h;
        } else if len == HASH_LEN {
            hash = clone_bytes(message);
        } else {
            // The round was not over a block hash; nothing to broadcast.
            return None;
        }
        let _ = self.blocks.remove(&hash);
        if !signature_valid {
            // An invalid signature is not worth broadcasting.
            return None;
        }
        let response: BlockResponse = if len == HASH_LEN {
            BlockResponse::Accepted(hash, clone_bytes(signature))
        } else {
            BlockResponse::Rejected(
                BlockRejection {
                    signer_signature_hash: hash,
                    reason_code: RejectCode::SignedRejection(clone_bytes(signature)),
                },
            )
        };
        Some(Action::Send(SignerMessage::BlockResponse(response)))
    }

    /// Handles a round error: for too few signers, the affected block is
    /// named from the round's message — decoded as a block, or else looked
    /// up (and dropped) by hash — and its rejection is broadcast.
    pub fn process_sign_error(&mut self, error: SignError) -> (out: Option<Action>)
        requires
            old(self).inv(),
        ensures
            final(self).inv(),
            sign_error_post(*old(self), *final(self), error, out),
    {
        let (malicious_signer_ids, message, parsed_block) = match error {
            SignError::InsufficientSigners { malicious_signer_ids, message, parsed_block } => (
                malicious_signer_ids,
                message,
                parsed_block,
            ),
            SignError::NonceTimeout => {
                return None;
            },
            SignError::Aggregator => {
                return None;
            },
        };
        let block: Block = match parsed_block {
            Some(b) => b,
            None => {
                // The round message was not a block: find the block by the
                // hash the message refers to, and drop it from the store.
                let len = message.len();
                let hash: Vec<u8>;
                if len > HASH_LEN {
                    let mut h = clone_bytes(&message);
                    h.truncate(HASH_LEN);
                    proof {
                        assert(h@ =~= message@.take(HASH_LEN as int));
                    }
                    hash = h;
                } else if len == HASH_LEN {
                    hash = message;
                } else {
                    return None;
                }
                match self.blocks.remove(&hash) {
                    Some(block_info) => block_info.block,
                    None => {
                        proof {
                            assert(self.blocks@ =~= old(self).blocks@);
                        }
                        return None;
                    },
                }
            },
        };
        Some(
            Action::Send(
                SignerMessage::BlockResponse(
                    BlockResponse::Rejected(
                        BlockRejection {
                            signer_signature_hash: clone_bytes(&block.signer_signature_hash),
                            reason_code: RejectCode::InsufficientSigners(malicious_signer_ids),
                        },
                    ),
                ),
            ),
        )
    }

    /// The fee to attach to a key generation vote: before the epoch that
    /// carries signer votes for free, the configured fee is paid; from that
    /// epoch on, none.
    pub fn dkg_vote_fee(&self, epoch: StacksEpochId) -> (fee: Option<u64>)
        ensures
            fee == (if epoch is Epoch30 {
                Option::<u64>::None
            } else {
                Some(self.tx_fee_ms)
            }),
    {
        match epoch {
            StacksEpochId::Epoch30 => None,
            _ => Some(self.tx_fee_ms),
        }
    }

    /// Turns a key generation result into the driver's duties for the vote
    /// transaction the driver built (`built_tx`, `None` when building
    /// failed): in the voting epoch the vote also goes to the mempool —
    /// unless this signer's bulletin slot (`own_prior_txs`) already holds a
    /// vote for the same point and round — and from the voting epoch on the
    /// slot is rewritten with the vote appended.
    pub fn process_dkg(
        &self,
        point: &Vec<u8>,
        epoch: StacksEpochId,
        built_tx: Option<SignerTransaction>,
        own_prior_txs: Vec<SignerTransaction>,
    ) -> (out: DkgVoteOutcome)
        requires
            self.inv(),
        ensures
            (built_tx is None || epoch is Pre25) ==> !out.submit_to_mempool
                && out.bulletin_rewrite is None,
            built_tx matches Some(tx) ==> !(epoch is Pre25) ==> {
                let dup = spec_has_vote_for(
                    own_prior_txs@,
                    point@,
                    self.current_dkg_id,
                    self.mainnet,
                );
                &&& out.submit_to_mempool == (epoch is Epoch25 && !dup)
                &&& (dup ==> out.bulletin_rewrite == Some(own_prior_txs))
                &&& (!dup ==> (out.bulletin_rewrite matches Some(txs) && txs@
                    == own_prior_txs@.push(tx)))
            },
    {
        let tx = match built_tx {
            Some(tx) => tx,
            None => {
                return DkgVoteOutcome { submit_to_mempool: false, bulletin_rewrite: None };
            },
        };
        match epoch {
            StacksEpochId::Pre25 => {
                // Before the voting epoch there is nowhere to put the vote.
                DkgVoteOutcome { submit_to_mempool: false, bulletin_rewrite: None }
            },
            StacksEpochId::Epoch25 | StacksEpochId::Epoch30 => {
                let dup = has_vote_for(&own_prior_txs, point, self.current_dkg_id, self.mainnet);
                if dup {
                    // The same vote is already on the bulletin; do not pay
                    // for it again.
                    DkgVoteOutcome {
                        submit_to_mempool: false,
                        bulletin_rewrite: Some(own_prior_txs),
                    }
                } else {
                    let submit = match epoch {
                        StacksEpochId::Epoch25 => true,
                        _ => false,
                    };
                    let mut txs = own_prior_txs;
                    txs.push(tx);
                    DkgVoteOutcome { submit_to_mempool: submit, bulletin_rewrite: Some(txs) }
                }
            },
        }
    }

    /// Processes a batch of operation results, gathering the broadcasts and
    /// the key generation points that still need vote transactions.
    pub fn process_operation_results(&mut self, results: Vec<OperationResult>) -> (out:
        ResultsOutcome)
        requires
            old(self).inv(),
        ensures
            final(self).inv(),
            *final(self) == (Signer { blocks: final(self).blocks, ..*old(self) }),
            out.dkg_points@ == spec_dkg_points(results@),
            // Results only ever broadcast block responses.
            forall|i: int|
                0 <= i < out.actions@.len() ==> ((#[trigger] out.actions@[i]) matches Action::Send(
                    m,
                ) && m is BlockResponse),
            // The state and both outputs come from handling each result in
            // order.
            results_post(*old(self), *final(self), results@, out.actions@, out.dkg_points@),
    {
        let mut actions: Vec<Action> = Vec::new();
        let mut dkg_points: Vec<Vec<u8>> = Vec::new();
        let mut rest = results;
        let ghost all = rest@;
        let ghost mut i: int = 0;
        proof {
            assert(actions@ =~= Seq::<Action>::empty());
            assert(dkg_points@ =~= Seq::<Vec<u8>>::empty());
            assert(all.take(0) =~= Seq::<OperationResult>::empty());
        }
        while rest.len() > 0
            invariant
                self.inv(),
                *self == (Signer { blocks: self.blocks, ..*old(self) }),
                0 <= i <= all.len(),
                rest@ == all.subrange(i, all.len() as int),
                dkg_points@ == spec_dkg_points(all.take(i)),
                forall|j: int|
                    0 <= j < actions@.len() ==> ((#[trigger] actions@[j]) matches Action::Send(m)
                        && m is BlockResponse),
                results_post(*old(self), *self, all.take(i), actions@, dkg_points@),
            decreases rest@.len(),
        {
            let result = rest.remove(0);
            let ghost pre_step = *self;
            let ghost acts_pre = actions@;
            let ghost pts_pre = dkg_points@;
            proof {
                assert(all.take(i + 1).drop_last() =~= all.take(i));
                assert(all.take(i + 1).last() == all[i]);
                assert(rest@ =~= all.subrange(i + 1, all.len() as int));
            }
            match result {
                OperationResult::Sign { message, has_aggregate_key, signature_valid, signature } => {
                    let out = self.process_signature(
                        &message,
                        has_aggregate_key,
                        signature_valid,
                        &signature,
                    );
                    match out {
                        Some(a) => {
                            actions.push(a);
                        },
                        None => {},
                    }
                    proof {
                        assert(actions@ =~= acts_pre + opt_action(out));
                        assert(result_step(
                            pre_step,
                            *self,
                            all[i],
                            acts_pre,
                            actions@,
                            pts_pre,
                            dkg_points@,
                        ));
                    }
                },
                OperationResult::SignTaproot => {
                    // Only plain threshold signatures ratify blocks; a
                    // taproot result carries nothing to broadcast.
                    proof {
                        assert(result_step(
                            pre_step,
                            *self,
                            all[i],
                            acts_pre,
                            actions@,
                            pts_pre,
                            dkg_points@,
                        ));
                    }
                },
                OperationResult::Dkg { point } => {
                    dkg_points.push(point);
                    proof {
                        assert(result_step(
                            pre_step,
                            *self,
                            all[i],
                            acts_pre,
                            actions@,
                            pts_pre,
                            dkg_points@,
                        ));
                    }
                },
                OperationResult::SignErr { error } => {
                    let out = self.process_sign_error(error);
                    match out {
                        Some(a) => {
                            actions.push(a);
                        },
                        None => {},
                    }
                    proof {
                        assert(actions@ =~= acts_pre + opt_action(out));
                        assert(result_step(
                            pre_step,
                            *self,
                            all[i],
                            acts_pre,
                            actions@,
                            pts_pre,
                            dkg_points@,
                        ));
                    }
                },
                OperationResult::DkgErr => {
                    // A failed key generation round is only logged by the
                    // driver; the engine waits for the next attempt.
                    proof {
                        assert(result_step(
                            pre_step,
                            *self,
                            all[i],
                            acts_pre,
                            actions@,
                            pts_pre,
                            dkg_points@,
                        ));
                    }
                },
            }
            proof {
                assert(results_post(*old(self), pre_step, all.take(i + 1).drop_last(), acts_pre, pts_pre));
                assert(result_step(
                    pre_step,
                    *self,
                    all.take(i + 1).last(),
                    acts_pre,
                    actions@,
                    pts_pre,
                    dkg_points@,
                ));
                lemma_results_post_extend(
                    *old(self),
                    pre_step,
                    *self,
                    all.take(i + 1),
                    acts_pre,
                    actions@,
                    pts_pre,
                    dkg_points@,
                );
                i = i + 1;
            }
        }
        proof {
            assert(all.take(all.len() as int) =~= all);
        }
        ResultsOutcome { actions, dkg_points }
    }

    /// Applies the round library's step to the engine state: a non-empty
    /// result batch ends the running operation and is processed; otherwise,
    /// packets flowing while the round machinery is active record progress.
    pub fn apply_round_outcome(
        &mut self,
        had_packets: bool,
        coordinator_active: bool,
        results: Vec<OperationResult>,
        now_ms: u64,
    ) -> (out: ResultsOutcome)
        requires
            old(self).inv(),
        ensures
            final(self).inv(),
            results@.len() > 0 ==> final(self).state is Idle && out.dkg_points@ == spec_dkg_points(
                results@,
            ),
            // A non-empty batch is handled result by result, after which the
            // running operation ends.
            results@.len() > 0 ==> exists|mid: Signer|
                {
                    &&& #[trigger] results_post(
                        *old(self),
                        mid,
                        results@,
                        out.actions@,
                        out.dkg_points@,
                    )
                    &&& *final(self) == (Signer {
                        state: State::Idle,
                        coordinator_selector: (Selector {
                            last_message_time: None,
                            ..mid.coordinator_selector
                        }),
                        ..mid
                    })
                },
            results@.len() == 0 ==> out.actions@.len() == 0 && out.dkg_points@.len() == 0 && final(self).blocks@ == old(self).blocks@ && (if had_packets && coordinator_active {
                final(self).state is OperationInProgress
            } else {
                final(self).state == old(self).state
            }),
    {
        if results.len() > 0 {
            let out = self.process_operation_results(results);
            let ghost mid = *self;
            self.finish_operation();
            proof {
                assert(*self == (Signer {
                    state: State::Idle,
                    coordinator_selector: (Selector {
                        last_message_time: None,
                        ..mid.coordinator_selector
                    }),
                    ..mid
                }));
            }
            out
        } else {
            if had_packets && coordinator_active {
                self.update_operation(now_ms);
            }
            ResultsOutcome { actions: Vec::new(), dkg_points: Vec::new() }
        }
    }

    /// The periodic key-generation pass. `new_key` is the chain's aggregate
    /// key for this cycle (`None` when the lookup failed); a fresh key
    /// overwrites the cached one. Without a chain key, the idle coordinator
    /// outside back-off queues a key generation round at the front — unless
    /// its bulletin slot already holds its pending vote (`own_txs`, already
    /// filtered; `own_address` names this signer's account), or its vote is
    /// already on chain (`own_vote_exists`, `None` when the lookup failed).
    /// The back-off reset rule runs on the paths that fall through.
    pub fn update_dkg(
        &mut self,
        new_key: Option<Option<Vec<u8>>>,
        own_txs: &Vec<SignerTransaction>,
        own_vote_exists: Option<bool>,
        own_address: &StacksAddress,
        now_ms: u64,
    ) -> (r: Result<(), ClientError>)
        requires
            old(self).inv(),
        ensures
            final(self).inv(),
            *final(self) == (Signer {
                aggregate_public_key: final(self).aggregate_public_key,
                commands: final(self).commands,
                nack_messages_received: final(self).nack_messages_received,
                apply_back_off_delay: final(self).apply_back_off_delay,
                back_off_until: final(self).back_off_until,
                ..*old(self)
            }),
            new_key is None ==> r is Err && *final(self) == *old(self),
            (new_key matches Some(k) ==> {
                let updated = k matches Some(kb) && !(old(self).aggregate_public_key matches Some(
                    ob,
                ) && ob@ == kb@);
                &&& (updated ==> final(self).aggregate_public_key == k)
                &&& (!updated ==> final(self).aggregate_public_key == old(self).aggregate_public_key)
                &&& {
                    let eligible = k is None && old(self).is_coordinator(now_ms) && old(self).state is Idle && !old(self).apply_back_off_delay;
                    let pending = spec_pending_own_vote(
                        own_txs@,
                        own_address@,
                        old(self).aggregate_public_key,
                        old(self).current_dkg_id,
                        old(self).mainnet,
                    );
                    if !eligible {
                        r is Ok && final(self).commands@ == old(self).commands@
                    } else if pending {
                        // A pending vote already sits on the bulletin.
                        r is Ok && *final(self) == *old(self)
                    } else if own_vote_exists is None {
                        r is Err && *final(self) == *old(self)
                    } else if own_vote_exists == Some(true) {
                        // The vote is already on chain; wait for the rest.
                        r is Ok && *final(self) == *old(self)
                    } else {
                        r is Ok && (if old(self).commands@.len() > 0 && old(self).commands@[0] is Dkg {
                            final(self).commands@ == old(self).commands@
                        } else {
                            final(self).commands@ == seq![Command::Dkg] + old(self).commands@
                        })
                    }
                }
            }),
    {
        let k: Option<Vec<u8>> = match new_key {
            Some(k) => k,
            None => {
                return Err(ClientError::ChainUnavailable);
            },
        };
        let has_new_key = k.is_some();
        let updated: bool = match (&k, &self.aggregate_public_key) {
            (Some(kb), Some(ob)) => !bytes_eq(ob, kb),
            (Some(_), None) => true,
            (None, _) => false,
        };
        if updated {
            self.aggregate_public_key = k;
        }
        let (coordinator_id, _key) = self.coordinator_selector.get_coordinator(now_ms);
        let idle = matches!(self.state, State::Idle);
        if !has_new_key && coordinator_id == self.signer_id && idle
            && !self.apply_back_off_delay {
            if has_pending_own_vote(
                own_txs,
                own_address,
                &self.aggregate_public_key,
                self.current_dkg_id,
                self.mainnet,
            ) {
                return Ok(());
            }
            match own_vote_exists {
                None => {
                    return Err(ClientError::ChainUnavailable);
                },
                Some(true) => {
                    return Ok(());
                },
                Some(false) => {},
            }
            let front_is_dkg: bool = if self.commands.len() > 0 {
                matches!(&self.commands[0], Command::Dkg)
            } else {
                false
            };
            if !front_is_dkg {
                self.commands.push_front(Command::Dkg);
                proof {
                    assert(self.commands@ =~= seq![Command::Dkg] + old(self).commands@);
                }
            }
        }
        self.reset_nack_back_off(now_ms);
        Ok(())
    }
}

/// Whether the list holds a vote call for exactly this point and round.
pub fn has_vote_for(txs: &Vec<SignerTransaction>, point: &Vec<u8>, round: u64, mainnet: bool) -> (r:
    bool)
    ensures
        r == spec_has_vote_for(txs@, point@, round, mainnet),
{
    let n = txs.len();
    let mut i: usize = 0;
    while i < n
        invariant
            n == txs@.len(),
            i <= n,
            !spec_has_vote_for(txs@.take(i as int), point@, round, mainnet),
            forall|j: int| 0 <= j < i ==> !(spec_is_vote_call(
                (#[trigger] txs@[j]).payload,
                mainnet,
            ) && (match txs@[j].payload {
                crate::transactions::TransactionPayload::ContractCall(p) => (
                spec_parse_function_args(p.function_args@) matches Some(t) && t.1 == point@ && t.2
                    == round),
                _ => false,
            })),
        decreases n - i,
    {
        if is_vote_call(&txs[i].payload, mainnet) {
            let p = match &txs[i].payload {
                crate::transactions::TransactionPayload::ContractCall(p) => p,
                _ => {
                    proof {
                        assert(false);
                    }
                    return false;
                },
            };
            match parse_function_args(&p.function_args) {
                Some(t) => {
                    let (_ix, pt, rd, _cycle): (u64, Vec<u8>, u64, u64) = t;
                    if bytes_eq(&pt, point) && rd == round {
                        return true;
                    }
                },
                None => {},
            }
        }
        i = i + 1;
    }
    false
}

/// Whether the list holds `owner`'s vote call for the cached key and round.
pub fn has_pending_own_vote(
    txs: &Vec<SignerTransaction>,
    owner: &StacksAddress,
    key: &Option<Vec<u8>>,
    round: u64,
    mainnet: bool,
) -> (r: bool)
    ensures
        r == spec_pending_own_vote(txs@, owner@, *key, round, mainnet),
{
    let n = txs.len();
    let mut i: usize = 0;
    while i < n
        invariant
            n == txs@.len(),
            i <= n,
            forall|j: int| 0 <= j < i ==> !((#[trigger] txs@[j]).origin_address@ == owner@
                && spec_is_vote_call(txs@[j].payload, mainnet) && (match txs@[j].payload {
                crate::transactions::TransactionPayload::ContractCall(p) => (
                spec_parse_function_args(p.function_args@) matches Some(t) && (*key matches Some(
                    ak,
                ) && ak@ == t.1) && t.2 == round),
                _ => false,
            })),
        decreases n - i,
    {
        if txs[i].origin_address.key_eq(owner) && is_vote_call(&txs[i].payload, mainnet) {
            let p = match &txs[i].payload {
                crate::transactions::TransactionPayload::ContractCall(p) => p,
                _ => {
                    proof {
                        assert(false);
                    }
                    return false;
                },
            };
            match parse_function_args(&p.function_args) {
                Some(t) => {
                    let (_ix, pt, rd, _cycle): (u64, Vec<u8>, u64, u64) = t;
                    let key_matches = match key {
                        Some(ak) => bytes_eq(ak, &pt),
                        None => false,
                    };
                    if key_matches && rd == round {
                        return true;
                    }
                },
                None => {},
            }
        }
        i = i + 1;
    }
    false
}

} // verus!
