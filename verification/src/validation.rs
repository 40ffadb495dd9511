//! Handling the chain node's verdict on a previously submitted block:
//! recording the judgement, answering a stashed nonce request with this
//! signer's vote, and, as coordinator, queueing a signing round over an
//! accepted block.

use vstd::prelude::*;

use crate::audit::{spec_filtered, spec_missing};
use crate::blocks::vote_of;
use crate::engine::{Command, Signer};
use crate::messages::{
    Action, BlockRejection, BlockResponse, BlockValidateResponse, Packet, ProtocolMessage,
    RejectCode, SignerMessage,
};
use crate::packets::{determine_vote, message_is_cached_vote, votes_preserved};
use crate::transactions::{SignerTransaction, TxChainFacts};
use crate::types::clone_bytes;

verus! {

/// The signer signature hash a validation response speaks about.
pub open spec fn spec_response_hash(r: BlockValidateResponse) -> Seq<u8> {
    match r {
        BlockValidateResponse::Valid(ok) => ok.signer_signature_hash@,
        BlockValidateResponse::Reject(rej) => rej.signer_signature_hash@,
    }
}

/// What the driver must do after a validation response: broadcasts to send,
/// and a request packet to feed back into the round library when a stashed
/// nonce request was answered.
pub struct ValidationOutcome {
    pub actions: Vec<Action>,
    pub revived: Option<Packet>,
}

/// Exactly what one validation verdict changes and emits: the judgement
/// recorded over the audited block, the rejection broadcasts, the revived
/// nonce request carrying the cached vote, the signing round queued under
/// the coordinator conditions, and the back-off reset rule at the end.
pub open spec fn validate_response_post(
    pre: Signer,
    post: Signer,
    response: BlockValidateResponse,
    expected: Option<Vec<(SignerTransaction, TxChainFacts)>>,
    now_ms: u64,
    actions: Seq<Action>,
    revived: Option<Packet>,
) -> bool {
    &&& post == (Signer {
        blocks: post.blocks,
        commands: post.commands,
        nack_messages_received: post.nack_messages_received,
        apply_back_off_delay: post.apply_back_off_delay,
        back_off_until: post.back_off_until,
        ..pre
    })
    &&& votes_preserved(pre.blocks@, post.blocks@)
    &&& (!pre.blocks@.contains_key(spec_response_hash(response)) ==> actions.len() == 0
        && revived is None && post == pre)
    &&& (pre.blocks@.contains_key(spec_response_hash(response)) ==> {
        let h = spec_response_hash(response);
        let bi0 = pre.blocks@[h];
        let verdict = match response {
            BlockValidateResponse::Valid(_) => match expected {
                None => false,
                Some(c) => spec_missing(
                    spec_filtered(c@, pre.signer_address_ids@, pre.mainnet),
                    bi0.block@.tx_ids,
                ).len() == 0,
            },
            BlockValidateResponse::Reject(_) => false,
        };
        &&& post.blocks@.contains_key(h)
        &&& post.blocks@ =~= pre.blocks@.insert(h, post.blocks@[h])
        &&& post.blocks@[h].valid == Some(verdict)
        &&& post.blocks@[h].block == bi0.block
        &&& post.blocks@[h].signed_over == bi0.signed_over
        &&& post.blocks@[h].nonce_request is None
        &&& (bi0.nonce_request is Some ==> (revived matches Some(p) && (
        p.msg matches ProtocolMessage::NonceRequest(req) && (
        post.blocks@[h].vote matches Some(v) && req.message@ == v@)
            && message_is_cached_vote(post.blocks@, req.message@))))
        &&& (bi0.nonce_request is None ==> revived is None)
        &&& (bi0.nonce_request is Some ==> ((bi0.vote is Some ==> post.blocks@[h].vote
            == bi0.vote) && (bi0.vote is None ==> (post.blocks@[h].vote matches Some(v) && v@
            == vote_of(Some(verdict), h)))))
        &&& (bi0.nonce_request is None ==> post.blocks@[h].vote == bi0.vote)
        &&& (if bi0.nonce_request is None && verdict && !bi0.signed_over && pre.is_coordinator(
            now_ms,
        ) && !pre.apply_back_off_delay {
            &&& post.commands@.len() == pre.commands@.len() + 1
            &&& post.commands@.take(pre.commands@.len() as int) =~= pre.commands@
            &&& (post.commands@.last() matches Command::Sign { block, is_taproot, merkle_root }
                && block@ == bi0.block@ && !is_taproot && merkle_root is None)
        } else {
            post.commands@ == pre.commands@
        })
        &&& (match response {
            BlockValidateResponse::Valid(_) => {
                if verdict {
                    actions.len() == 0
                } else {
                    actions.len() == 1 && (actions[0] matches Action::Send(m) && (
                    m matches SignerMessage::BlockResponse(br) && (
                    br matches BlockResponse::Rejected(rej) && rej.signer_signature_hash@ == h
                        && (match expected {
                        None => rej.reason_code is ConnectivityIssues,
                        Some(c) => (rej.reason_code matches RejectCode::MissingTransactions(txs)
                            && txs@ == spec_missing(
                            spec_filtered(c@, pre.signer_address_ids@, pre.mainnet),
                            bi0.block@.tx_ids,
                        )),
                    }))))
                }
            },
            BlockValidateResponse::Reject(_) => {
                actions.len() == 1 && (actions[0] matches Action::Send(m) && (
                m matches SignerMessage::BlockResponse(br) && (
                br matches BlockResponse::Rejected(rej) && rej.signer_signature_hash@ == h
                    && rej.reason_code is ValidationFailed)))
            },
        })
        &&& ((pre.apply_back_off_delay && (pre.back_off_until matches Some(u) && u <= now_ms))
            ==> !post.apply_back_off_delay && post.back_off_until is None)
        &&& (!(pre.apply_back_off_delay && (pre.back_off_until matches Some(u) && u <= now_ms))
            ==> post.apply_back_off_delay == pre.apply_back_off_delay && post.back_off_until
            == pre.back_off_until && post.nack_messages_received@
            == pre.nack_messages_received@)
    })
}

impl Signer {
    /// Processes the chain node's verdict for a block this signer has seen.
    /// An accepted block is audited against the expected transactions
    /// (`expected` as in [`Signer::verify_block_transactions`]); a rejected
    /// one is judged invalid and the rejection is broadcast. A stashed
    /// nonce request is answered with this signer's vote; otherwise, as
    /// idle coordinator outside a back-off window, a signing round over an
    /// accepted, not yet signed-over block is queued. Finally the back-off
    /// reset rule runs.
    pub fn handle_block_validate_response(
        &mut self,
        response: &BlockValidateResponse,
        expected: Option<Vec<(SignerTransaction, TxChainFacts)>>,
        now_ms: u64,
    ) -> (out: ValidationOutcome)
        requires
            old(self).inv(),
        ensures
            final(self).inv(),
            validate_response_post(
                *old(self),
                *final(self),
                *response,
                expected,
                now_ms,
                out.actions@,
                out.revived,
            ),
    {
        let hash: Vec<u8> = match response {
            BlockValidateResponse::Valid(ok) => clone_bytes(&ok.signer_signature_hash),
            BlockValidateResponse::Reject(rej) => clone_bytes(&rej.signer_signature_hash),
        };
        if !self.blocks.contains_key(&hash) {
            // A verdict for a block this signer never saw: nothing to
            // update.
            return ValidationOutcome { actions: Vec::new(), revived: None };
        }
        let mut block_info = match self.blocks.remove(&hash) {
            Some(bi) => bi,
            None => {
                return ValidationOutcome { actions: Vec::new(), revived: None };
            },
        };
        let mut actions: Vec<Action> = Vec::new();
        match response {
            BlockValidateResponse::Valid(_) => {
                let audit = self.verify_block_transactions(&block_info.block, expected);
                block_info.valid = Some(audit.is_valid);
                match audit.rejection {
                    Some(rejection) => {
                        actions.push(
                            Action::Send(
                                SignerMessage::BlockResponse(BlockResponse::Rejected(rejection)),
                            ),
                        );
                    },
                    None => {},
                }
            },
            BlockValidateResponse::Reject(_) => {
                block_info.valid = Some(false);
                // Forward the chain node's rejection for miners to observe.
                actions.push(
                    Action::Send(
                        SignerMessage::BlockResponse(
                            BlockResponse::Rejected(
                                BlockRejection {
                                    signer_signature_hash: clone_bytes(&hash),
                                    reason_code: RejectCode::ValidationFailed,
                                },
                            ),
                        ),
                    ),
                );
            },
        }
        let mut revived: Option<Packet> = None;
        let stashed = block_info.nonce_request.take();
        match stashed {
            Some(mut request) => {
                // The verdict arrived after the round opened: answer the
                // stashed request with the decided vote.
                determine_vote(&mut block_info, &mut request);
                revived = Some(Packet { msg: ProtocolMessage::NonceRequest(request) });
                self.blocks.insert(hash, block_info);
            },
            None => {
                let verdict = match block_info.valid {
                    Some(true) => true,
                    _ => false,
                };
                let signed_over = block_info.signed_over;
                let block_copy = block_info.block.duplicate();
                self.blocks.insert(hash, block_info);
                let (coordinator_id, _key) = self.coordinator_selector.get_coordinator(now_ms);
                if verdict && !signed_over && coordinator_id == self.signer_id
                    && !self.apply_back_off_delay {
                    self.commands.push_back(
                        Command::Sign { block: block_copy, is_taproot: false, merkle_root: None },
                    );
                }
            },
        }
        self.reset_nack_back_off(now_ms);
        ValidationOutcome { actions, revived }
    }
}

} // verus!
