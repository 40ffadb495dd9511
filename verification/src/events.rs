//! The engine's event loop surface: miner block proposals, bulletin
//! messages, and the top-level event dispatcher with the tenure rule.

use vstd::prelude::*;

use crate::blocks::{Block, BlockInfo, BlockV};
use crate::engine::Signer;
use crate::messages::{
    Action, NackMessage, Packet, ProtocolMessage, SignerEvent, SignerMessage,
};
use crate::packets::{message_is_cached_vote, verify_packet_post, votes_preserved};
use crate::validation::validate_response_post;
use crate::results::opt_action;
use crate::stale_view::{consensus_view_post, nack_message_post};
use crate::types::MetadataV;
use crate::transactions::{SignerTransaction, TxChainFacts};
use crate::types::{clone_bytes, ClientError};

verus! {

/// The two maps agree about the key: both lack it, or both hold the same
/// entry for it.
pub open spec fn entry_same(
    a: Map<Seq<u8>, BlockInfo>,
    b: Map<Seq<u8>, BlockInfo>,
    h: Seq<u8>,
) -> bool {
    b.contains_key(h) == a.contains_key(h) && (a.contains_key(h) ==> b[h] == a[h])
}

/// A just-created block entry: nothing decided yet, not signed over.
pub open spec fn fresh_block_entry(bi: BlockInfo, b: BlockV) -> bool {
    &&& bi.vote is None
    &&& bi.valid is None
    &&& bi.nonce_request is None
    &&& !bi.signed_over
    &&& bi.block@ == b
}

/// Every nonce request among the messages carries a well-formed decoded
/// block, as the transport's types guarantee.
pub open spec fn messages_wf(msgs: Seq<SignerMessage>) -> bool {
    forall|i: int|
        0 <= i < msgs.len() ==> (#[trigger] msgs[i] matches SignerMessage::Packet(pm) ==> (
        pm.packet.msg matches ProtocolMessage::NonceRequest(nr) ==> (nr.parsed_block matches Some(
            b,
        ) ==> b.wf())))
}

/// What the transport's types guarantee of an event's payload: 32-byte
/// hashes on proposed blocks, and well-formed decoded blocks in requests.
pub open spec fn event_wf(event: Option<SignerEvent>) -> bool {
    match event {
        Some(SignerEvent::ProposedBlocks(blocks)) => forall|i: int|
            0 <= i < blocks@.len() ==> (#[trigger] blocks@[i]).wf(),
        Some(SignerEvent::SignerMessages(_, msgs)) => messages_wf(msgs@),
        _ => true,
    }
}

/// Everything the driver must carry out after one engine step: broadcasts
/// and submissions, the admitted packets to feed to the round library, and
/// a revived nonce request answered after block validation.
pub struct EventOutput {
    pub actions: Vec<Action>,
    pub admitted: Vec<Packet>,
    pub revived: Option<Packet>,
}

/// How one message's processing extends the gathered outputs: an emitted
/// NACK broadcast, then the packet validator's action, and the admitted
/// packet, each appended in order.
pub open spec fn message_outputs(
    nack: Option<NackMessage>,
    action: Option<Action>,
    packet: Option<Packet>,
    acts_pre: Seq<Action>,
    acts_post: Seq<Action>,
    adm_pre: Seq<Packet>,
    adm_post: Seq<Packet>,
) -> bool {
    &&& acts_post == acts_pre + (match nack {
        Some(n) => seq![Action::Send(SignerMessage::Nack(n))],
        None => Seq::<Action>::empty(),
    }) + opt_action(action)
    &&& adm_post == adm_pre + (match packet {
        Some(p) => seq![p],
        None => Seq::<Packet>::empty(),
    })
}

/// One message's step: a packet first passes the chain-view comparison,
/// whose NACK (if any) is broadcast, then packet validation, whose admitted
/// packet and action are appended; an inbound NACK is recorded under the
/// configured policy; verdicts and transaction lists change nothing.
pub open spec fn message_step(
    pre: Signer,
    post: Signer,
    msg: SignerMessage,
    local: MetadataV,
    now_ms: u64,
    acts_pre: Seq<Action>,
    acts_post: Seq<Action>,
    adm_pre: Seq<Packet>,
    adm_post: Seq<Packet>,
) -> bool {
    match msg {
        SignerMessage::Packet(pm) => exists|
            mid: Signer,
            nack: Option<NackMessage>,
            packet: Option<Packet>,
            action: Option<Action>,
        |
            #![trigger consensus_view_post(
                pre,
                mid,
                local,
                pm.coordinator_metadata@,
                pm.packet_signer_id,
                nack,
            ), verify_packet_post(mid, post, pm.packet, pm.sig_valid, packet, action)]
            {
                &&& consensus_view_post(
                    pre,
                    mid,
                    local,
                    pm.coordinator_metadata@,
                    pm.packet_signer_id,
                    nack,
                )
                &&& verify_packet_post(mid, post, pm.packet, pm.sig_valid, packet, action)
                &&& message_outputs(
                    nack,
                    action,
                    packet,
                    acts_pre,
                    acts_post,
                    adm_pre,
                    adm_post,
                )
            },
        SignerMessage::Nack(n) => (match pre.stale_node_nack_policy {
            Some(policy) => nack_message_post(pre, post, n, local, policy, now_ms),
            None => post == pre,
        }) && acts_post == acts_pre && adm_post == adm_pre,
        SignerMessage::BlockResponse(_) => post == pre && acts_post == acts_pre && adm_post
            == adm_pre,
        SignerMessage::Transactions(_) => post == pre && acts_post == acts_pre && adm_post
            == adm_pre,
    }
}

/// The batch relation: the final engine state and the gathered outputs come
/// from handling every message in order, each as [`message_step`] fixes it,
/// all against the local chain view held when the batch began.
pub open spec fn messages_post(
    pre: Signer,
    post: Signer,
    msgs: Seq<SignerMessage>,
    local: MetadataV,
    now_ms: u64,
    actions: Seq<Action>,
    admitted: Seq<Packet>,
) -> bool
    decreases msgs.len(),
{
    if msgs.len() == 0 {
        post == pre && actions == Seq::<Action>::empty() && admitted == Seq::<Packet>::empty()
    } else {
        exists|mid: Signer, acts: Seq<Action>, adm: Seq<Packet>|
            {
                &&& messages_post(pre, mid, msgs.drop_last(), local, now_ms, acts, adm)
                &&& #[trigger] message_step(
                    mid,
                    post,
                    msgs.last(),
                    local,
                    now_ms,
                    acts,
                    actions,
                    adm,
                    admitted,
                )
            }
    }
}

/// Extends the batch relation by one handled message.
proof fn lemma_messages_post_extend(
    pre: Signer,
    mid: Signer,
    post: Signer,
    msgs: Seq<SignerMessage>,
    local: MetadataV,
    now_ms: u64,
    acts: Seq<Action>,
    actions: Seq<Action>,
    adm: Seq<Packet>,
    admitted: Seq<Packet>,
)
    requires
        msgs.len() > 0,
        messages_post(pre, mid, msgs.drop_last(), local, now_ms, acts, adm),
        message_step(mid, post, msgs.last(), local, now_ms, acts, actions, adm, admitted),
    ensures
        messages_post(pre, post, msgs, local, now_ms, actions, admitted),
{
    assert(message_step(mid, post, msgs.last(), local, now_ms, acts, actions, adm, admitted));
}

proof fn lemma_cached_vote_mono(
    a: Map<Seq<u8>, BlockInfo>,
    b: Map<Seq<u8>, BlockInfo>,
    msg: Seq<u8>,
)
    requires
        votes_preserved(a, b),
        message_is_cached_vote(a, msg),
    ensures
        message_is_cached_vote(b, msg),
{
    let h = choose|h: Seq<u8>|
        a.contains_key(h) && ((#[trigger] a[h]).vote matches Some(v) && v@ == msg);
    assert(b.contains_key(h) && (b[h].vote matches Some(v) && v@ == msg));
}

/// Carries the cached-vote property of every admitted request forward
/// across a step that preserves votes.
proof fn lemma_admitted_mono(admitted: Seq<Packet>, a: Map<Seq<u8>, BlockInfo>, b: Map<Seq<u8>, BlockInfo>)
    requires
        votes_preserved(a, b),
        forall|j: int|
            0 <= j < admitted.len() ==> ((#[trigger] admitted[j]).msg matches
                ProtocolMessage::SignatureShareRequest(req) ==> message_is_cached_vote(
                a,
                req.message@,
            )),
        forall|j: int|
            0 <= j < admitted.len() ==> ((#[trigger] admitted[j]).msg matches
                ProtocolMessage::NonceRequest(req) ==> message_is_cached_vote(a, req.message@)),
    ensures
        forall|j: int|
            0 <= j < admitted.len() ==> ((#[trigger] admitted[j]).msg matches
                ProtocolMessage::SignatureShareRequest(req) ==> message_is_cached_vote(
                b,
                req.message@,
            )),
        forall|j: int|
            0 <= j < admitted.len() ==> ((#[trigger] admitted[j]).msg matches
                ProtocolMessage::NonceRequest(req) ==> message_is_cached_vote(b, req.message@)),
{
    assert forall|j: int| 0 <= j < admitted.len() implies ((#[trigger] admitted[j]).msg matches
        ProtocolMessage::SignatureShareRequest(req) ==> message_is_cached_vote(
        b,
        req.message@,
    )) && (admitted[j].msg matches ProtocolMessage::NonceRequest(req2)
        ==> message_is_cached_vote(b, req2.message@)) by {
        match admitted[j].msg {
            ProtocolMessage::SignatureShareRequest(req) => {
                if message_is_cached_vote(a, req.message@) {
                    lemma_cached_vote_mono(a, b, req.message@);
                }
            },
            ProtocolMessage::NonceRequest(req2) => {
                if message_is_cached_vote(a, req2.message@) {
                    lemma_cached_vote_mono(a, b, req2.message@);
                }
            },
            ProtocolMessage::Other => {},
        }
    }
}

/// Exactly what caching a batch of proposals changes and emits: only the
/// block store moves; each proposal yields one validation submission, in
/// order; only keys named by some proposal can have changed; and each
/// proposal's last occurrence is cached afresh under its hash.
pub open spec fn proposed_blocks_post(
    pre: Signer,
    post: Signer,
    proposals: Seq<Block>,
    actions: Seq<Action>,
) -> bool {
    &&& post == (Signer { blocks: post.blocks, ..pre })
    &&& actions.len() == proposals.len()
    &&& forall|i: int|
        0 <= i < proposals.len() ==> ((#[trigger] actions[i]) matches Action::SubmitValidation(b)
            && b == proposals[i])
    &&& forall|h: Seq<u8>|
        !entry_same(pre.blocks@, post.blocks@, h) ==> exists|j: int|
            0 <= j < proposals.len() && (#[trigger] proposals[j]).signer_signature_hash@ == h
    &&& forall|j: int|
        0 <= j < proposals.len() && (forall|k: int|
            j < k < proposals.len() ==> (#[trigger] proposals[k]).signer_signature_hash@
                != proposals[j].signer_signature_hash@) ==> {
            let h = (#[trigger] proposals[j]).signer_signature_hash@;
            post.blocks@.contains_key(h) && fresh_block_entry(post.blocks@[h], proposals[j]@)
        }
}

impl Signer {
    /// Caches each proposed block afresh — replacing whatever was recorded
    /// for its hash — and asks the driver to submit each for validation.
    pub fn handle_proposed_blocks(&mut self, proposals: Vec<Block>) -> (actions: Vec<Action>)
        requires
            old(self).inv(),
            forall|i: int| 0 <= i < proposals@.len() ==> (#[trigger] proposals@[i]).wf(),
        ensures
            final(self).inv(),
            proposed_blocks_post(*old(self), *final(self), proposals@, actions@),
    {
        let mut actions: Vec<Action> = Vec::new();
        let mut rest = proposals;
        let ghost all = rest@;
        let ghost mut i: int = 0;
        while rest.len() > 0
            invariant
                self.inv(),
                *self == (Signer { blocks: self.blocks, ..*old(self) }),
                0 <= i <= all.len(),
                rest@ == all.subrange(i, all.len() as int),
                forall|j: int| 0 <= j < all.len() ==> (#[trigger] all[j]).wf(),
                actions@.len() == i,
                forall|j: int|
                    0 <= j < i ==> ((#[trigger] actions@[j]) matches Action::SubmitValidation(b)
                        && b == all[j]),
                forall|h: Seq<u8>|
                    !entry_same(old(self).blocks@, self.blocks@, h) ==> exists|j: int|
                        0 <= j < i && (#[trigger] all[j]).signer_signature_hash@ == h,
                forall|j: int|
                    0 <= j < i && (forall|k: int|
                        j < k < i ==> (#[trigger] all[k]).signer_signature_hash@
                            != all[j].signer_signature_hash@) ==> {
                        let h = (#[trigger] all[j]).signer_signature_hash@;
                        self.blocks@.contains_key(h) && fresh_block_entry(
                            self.blocks@[h],
                            all[j]@,
                        )
                    },
            decreases rest@.len(),
        {
            let block = rest.remove(0);
            proof {
                assert(rest@ =~= all.subrange(i + 1, all.len() as int));
                assert(all[i] == block);
            }
            let hash = clone_bytes(&block.signer_signature_hash);
            let ghost prev = self.blocks@;
            self.blocks.insert(hash, BlockInfo::new(block.duplicate()));
            actions.push(Action::SubmitValidation(block));
            proof {
                assert forall|h: Seq<u8>|
                    !entry_same(old(self).blocks@, self.blocks@, h) implies exists|j: int|
                        0 <= j <= i && (#[trigger] all[j]).signer_signature_hash@ == h by {
                    if all[i].signer_signature_hash@ == h {
                        assert(0 <= i <= i && all[i].signer_signature_hash@ == h);
                    } else {
                        assert(entry_same(prev, self.blocks@, h));
                        assert(!entry_same(old(self).blocks@, prev, h));
                    }
                }
                i = i + 1;
            }
        }
        actions
    }

    /// Processes one batch of bulletin messages: packets pass through the
    /// chain-view comparison (possibly emitting NACKs) and packet
    /// validation; inbound NACKs are recorded under the configured policy;
    /// verdicts and transaction lists are not this layer's concern. The
    /// admitted packets go on to the round library, each request among them
    /// carrying this signer's cached vote as its message.
    pub fn handle_signer_messages(&mut self, messages: Vec<SignerMessage>, now_ms: u64) -> (out:
        EventOutput)
        requires
            old(self).inv(),
            messages_wf(messages@),
        ensures
            final(self).inv(),
            *final(self) == (Signer {
                blocks: final(self).blocks,
                nack_messages_sent: final(self).nack_messages_sent,
                nack_messages_received: final(self).nack_messages_received,
                apply_back_off_delay: final(self).apply_back_off_delay,
                back_off_until: final(self).back_off_until,
                ..*old(self)
            }),
            votes_preserved(old(self).blocks@, final(self).blocks@),
            out.revived is None,
            // The state and both outputs come from handling each message in
            // order, against the local chain view held when the batch began.
            messages_post(
                *old(self),
                *final(self),
                messages@,
                old(self).coordinator_selector.coordinator_metadata@,
                now_ms,
                out.actions@,
                out.admitted@,
            ),
            // This layer only emits NACKs and validation submissions.
            forall|i: int|
                0 <= i < out.actions@.len() ==> ((#[trigger] out.actions@[i]) matches Action::Send(
                    m,
                ) && m is Nack || out.actions@[i] is SubmitValidation),
            // Every admitted request carries a vote this signer has cached.
            forall|i: int|
                0 <= i < out.admitted@.len() ==> ((#[trigger] out.admitted@[i]).msg matches
                    ProtocolMessage::SignatureShareRequest(req) ==> message_is_cached_vote(
                    final(self).blocks@,
                    req.message@,
                )),
            forall|i: int|
                0 <= i < out.admitted@.len() ==> ((#[trigger] out.admitted@[i]).msg matches
                    ProtocolMessage::NonceRequest(req) ==> message_is_cached_vote(
                    final(self).blocks@,
                    req.message@,
                )),
    {
        let local_metadata = self.coordinator_selector.coordinator_metadata.duplicate();
        let policy = self.stale_node_nack_policy;
        let mut actions: Vec<Action> = Vec::new();
        let mut admitted: Vec<Packet> = Vec::new();
        let mut rest = messages;
        let ghost all = rest@;
        let ghost mut i: int = 0;
        proof {
            assert(actions@ =~= Seq::<Action>::empty());
            assert(admitted@ =~= Seq::<Packet>::empty());
            assert(all.take(0) =~= Seq::<SignerMessage>::empty());
        }
        while rest.len() > 0
            invariant
                self.inv(),
                *self == (Signer {
                    blocks: self.blocks,
                    nack_messages_sent: self.nack_messages_sent,
                    nack_messages_received: self.nack_messages_received,
                    apply_back_off_delay: self.apply_back_off_delay,
                    back_off_until: self.back_off_until,
                    ..*old(self)
                }),
                votes_preserved(old(self).blocks@, self.blocks@),
                0 <= i <= all.len(),
                rest@ == all.subrange(i, all.len() as int),
                messages_wf(all),
                local_metadata@ == old(self).coordinator_selector.coordinator_metadata@,
                policy == old(self).stale_node_nack_policy,
                messages_post(
                    *old(self),
                    *self,
                    all.take(i),
                    old(self).coordinator_selector.coordinator_metadata@,
                    now_ms,
                    actions@,
                    admitted@,
                ),
                forall|j: int|
                    0 <= j < actions@.len() ==> ((#[trigger] actions@[j]) matches Action::Send(m)
                        && m is Nack || actions@[j] is SubmitValidation),
                forall|j: int|
                    0 <= j < admitted@.len() ==> ((#[trigger] admitted@[j]).msg matches
                        ProtocolMessage::SignatureShareRequest(req) ==> message_is_cached_vote(
                        self.blocks@,
                        req.message@,
                    )),
                forall|j: int|
                    0 <= j < admitted@.len() ==> ((#[trigger] admitted@[j]).msg matches
                        ProtocolMessage::NonceRequest(req) ==> message_is_cached_vote(
                        self.blocks@,
                        req.message@,
                    )),
            decreases rest@.len(),
        {
            let message = rest.remove(0);
            proof {
                assert(rest@ =~= all.subrange(i + 1, all.len() as int));
                assert(all[i] == message);
            }
            let ghost blocks_before = self.blocks@;
            let ghost pre_step = *self;
            let ghost acts_pre = actions@;
            let ghost adm_pre = admitted@;
            let ghost local_view = old(self).coordinator_selector.coordinator_metadata@;
            match message {
                SignerMessage::Packet(packet_message) => {
                    let ghost pm = all[i]->Packet_0;
                    let nack_opt = self.process_signer_consensus_hash_view(
                        &local_metadata,
                        &packet_message.coordinator_metadata,
                        packet_message.packet_signer_id,
                    );
                    let ghost mid = *self;
                    let ghost nack_g = nack_opt;
                    match nack_opt {
                        Some(nack) => {
                            actions.push(Action::Send(SignerMessage::Nack(nack)));
                        },
                        None => {},
                    }
                    let (packet, action) = self.verify_packet(
                        packet_message.packet,
                        packet_message.sig_valid,
                    );
                    let ghost packet_g = packet;
                    let ghost action_g = action;
                    match action {
                        Some(a) => {
                            actions.push(a);
                        },
                        None => {},
                    }
                    proof {
                        lemma_admitted_mono(admitted@, blocks_before, self.blocks@);
                    }
                    match packet {
                        Some(p) => {
                            admitted.push(p);
                        },
                        None => {},
                    }
                    proof {
                        assert(actions@ =~= acts_pre + (match nack_g {
                            Some(n) => seq![Action::Send(SignerMessage::Nack(n))],
                            None => Seq::<Action>::empty(),
                        }) + opt_action(action_g));
                        assert(admitted@ =~= adm_pre + (match packet_g {
                            Some(p) => seq![p],
                            None => Seq::<Packet>::empty(),
                        }));
                        assert(consensus_view_post(
                            pre_step,
                            mid,
                            local_view,
                            pm.coordinator_metadata@,
                            pm.packet_signer_id,
                            nack_g,
                        ));
                        assert(verify_packet_post(
                            mid,
                            *self,
                            pm.packet,
                            pm.sig_valid,
                            packet_g,
                            action_g,
                        ));
                        assert(message_step(
                            pre_step,
                            *self,
                            all[i],
                            local_view,
                            now_ms,
                            acts_pre,
                            actions@,
                            adm_pre,
                            admitted@,
                        ));
                    }
                },
                SignerMessage::Nack(nack) => {
                    match &policy {
                        Some(p) => {
                            self.process_nack_message(&nack, &local_metadata, p, now_ms);
                        },
                        None => {
                            // Without a policy, peers' NACKs are ignored.
                        },
                    }
                    proof {
                        assert(message_step(
                            pre_step,
                            *self,
                            all[i],
                            local_view,
                            now_ms,
                            acts_pre,
                            actions@,
                            adm_pre,
                            admitted@,
                        ));
                    }
                },
                SignerMessage::BlockResponse(_) => {
                    // Peers' verdicts are for miners to consume.
                    proof {
                        assert(message_step(
                            pre_step,
                            *self,
                            all[i],
                            local_view,
                            now_ms,
                            acts_pre,
                            actions@,
                            adm_pre,
                            admitted@,
                        ));
                    }
                },
                SignerMessage::Transactions(_) => {
                    // Transaction lists are read on demand during audits.
                    proof {
                        assert(message_step(
                            pre_step,
                            *self,
                            all[i],
                            local_view,
                            now_ms,
                            acts_pre,
                            actions@,
                            adm_pre,
                            admitted@,
                        ));
                    }
                },
            }
            proof {
                assert(all.take(i + 1).drop_last() =~= all.take(i));
                assert(all.take(i + 1).last() == all[i]);
                lemma_messages_post_extend(
                    *old(self),
                    pre_step,
                    *self,
                    all.take(i + 1),
                    local_view,
                    now_ms,
                    acts_pre,
                    actions@,
                    adm_pre,
                    admitted@,
                );
                i = i + 1;
            }
        }
        proof {
            assert(all.take(all.len() as int) =~= all);
        }
        EventOutput { actions, admitted, revived: None }
    }

    /// The top-level event step. The driver pre-fetches the current reward
    /// cycle (`None` when the lookup failed, which is an error), and — when
    /// the cycle has moved past this engine's — whether the new cycle has a
    /// confirmed aggregate key (`None` when that lookup failed): with a
    /// confirmed successor key the tenure is over and the engine stops
    /// working; without one it keeps helping. `expected` feeds the audit of
    /// a validation response, as in [`Signer::verify_block_transactions`].
    pub fn process_event(
        &mut self,
        current_reward_cycle: Option<u64>,
        tenure_key_exists: Option<bool>,
        event: Option<SignerEvent>,
        expected: Option<Vec<(SignerTransaction, TxChainFacts)>>,
        now_ms: u64,
    ) -> (r: Result<EventOutput, ClientError>)
        requires
            old(self).inv(),
            event_wf(event),
        ensures
            final(self).inv(),
            current_reward_cycle is None ==> r is Err && *final(self) == *old(self),
            (current_reward_cycle matches Some(cycle) ==> {
                if cycle > old(self).reward_cycle && tenure_key_exists == Some(true) {
                    // The cycle has moved on and a successor key stands.
                    &&& final(self).state is TenureExceeded
                    &&& *final(self) == (Signer { state: final(self).state, ..*old(self) })
                    &&& (r matches Ok(out) && out.actions@.len() == 0 && out.admitted@.len() == 0
                        && out.revived is None)
                } else {
                    &&& final(self).state == old(self).state
                    &&& (match event {
                        None | Some(SignerEvent::StatusCheck) => r matches Ok(out)
                            && out.actions@.len() == 0 && out.admitted@.len() == 0
                            && out.revived is None && *final(self) == *old(self),
                        Some(SignerEvent::SignerMessages(set, msgs)) => r matches Ok(out) && (
                        if set != old(self).signer_set {
                            *final(self) == *old(self) && out.actions@.len() == 0
                                && out.admitted@.len() == 0 && out.revived is None
                        } else {
                            // The bulletin batch is handled message by
                            // message.
                            out.revived is None && messages_post(
                                *old(self),
                                *final(self),
                                msgs@,
                                old(self).coordinator_selector.coordinator_metadata@,
                                now_ms,
                                out.actions@,
                                out.admitted@,
                            )
                        }),
                        Some(SignerEvent::ProposedBlocks(blocks)) => r matches Ok(out) && (
                        if cycle != old(self).reward_cycle {
                            *final(self) == *old(self) && out.actions@.len() == 0
                                && out.admitted@.len() == 0 && out.revived is None
                        } else {
                            // The proposals are cached and submitted for
                            // validation.
                            out.admitted@.len() == 0 && out.revived is None
                                && proposed_blocks_post(
                                *old(self),
                                *final(self),
                                blocks@,
                                out.actions@,
                            )
                        }),
                        Some(SignerEvent::BlockValidationResponse(resp)) => r matches Ok(out)
                            && out.admitted@.len() == 0
                            // The verdict is handled in full.
                            && validate_response_post(
                            *old(self),
                            *final(self),
                            resp,
                            expected,
                            now_ms,
                            out.actions@,
                            out.revived,
                        ),
                    })
                }
            }),
            // Every admitted request carries a vote this signer has cached.
            (r matches Ok(out) ==> {
                &&& forall|i: int|
                    0 <= i < out.admitted@.len() ==> ((#[trigger] out.admitted@[i]).msg matches
                        ProtocolMessage::SignatureShareRequest(req) ==> message_is_cached_vote(
                        final(self).blocks@,
                        req.message@,
                    ))
                &&& forall|i: int|
                    0 <= i < out.admitted@.len() ==> ((#[trigger] out.admitted@[i]).msg matches
                        ProtocolMessage::NonceRequest(req) ==> message_is_cached_vote(
                        final(self).blocks@,
                        req.message@,
                    ))
                &&& (out.revived matches Some(p) ==> (p.msg matches ProtocolMessage::NonceRequest(
                    req,
                ) && message_is_cached_vote(final(self).blocks@, req.message@)))
            }),
    {
        let cycle: u64 = match current_reward_cycle {
            Some(c) => c,
            None => {
                return Err(ClientError::ChainUnavailable);
            },
        };
        if cycle > self.reward_cycle {
            match tenure_key_exists {
                Some(true) => {
                    // A successor signer set holds a confirmed key; this
                    // engine's tenure is over.
                    self.state = crate::engine::State::TenureExceeded;
                    return Ok(
                        EventOutput { actions: Vec::new(), admitted: Vec::new(), revived: None },
                    );
                },
                _ => {
                    // No successor key yet (or the lookup failed): keep
                    // working so the key generation can finish.
                },
            }
        }
        match event {
            Some(SignerEvent::BlockValidationResponse(response)) => {
                let outcome = self.handle_block_validate_response(&response, expected, now_ms);
                Ok(
                    EventOutput {
                        actions: outcome.actions,
                        admitted: Vec::new(),
                        revived: outcome.revived,
                    },
                )
            },
            Some(SignerEvent::SignerMessages(signer_set, msgs)) => {
                if signer_set != self.signer_set {
                    // Another signer set's bulletin; not ours to process.
                    return Ok(
                        EventOutput { actions: Vec::new(), admitted: Vec::new(), revived: None },
                    );
                }
                Ok(self.handle_signer_messages(msgs, now_ms))
            },
            Some(SignerEvent::ProposedBlocks(blocks)) => {
                if cycle != self.reward_cycle {
                    // This engine's cycle is not current; it could never
                    // contribute a signature over these blocks.
                    return Ok(
                        EventOutput { actions: Vec::new(), admitted: Vec::new(), revived: None },
                    );
                }
                let actions = self.handle_proposed_blocks(blocks);
                Ok(EventOutput { actions, admitted: Vec::new(), revived: None })
            },
            Some(SignerEvent::StatusCheck) => Ok(
                EventOutput { actions: Vec::new(), admitted: Vec::new(), revived: None },
            ),
            None => Ok(EventOutput { actions: Vec::new(), admitted: Vec::new(), revived: None }),
        }
    }
}

} // verus!
