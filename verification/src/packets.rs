//! Packet admission: checking nonce requests and signature share requests
//! against the signer's own block state, and overwriting their message with
//! this signer's cached vote, so a dishonest coordinator cannot shift the
//! message mid-round.

use vstd::prelude::*;

use crate::blocks::{vote_of, BlockInfo};
use crate::engine::Signer;
use crate::messages::{
    Action, NonceRequest, Packet, ProtocolMessage, SignatureShareRequest, NO_VOTE_BYTE,
};
use crate::types::{clone_bytes, HASH_LEN};

verus! {

/// The block hash a signature share request refers to: its 32-byte message,
/// or the first 32 bytes of its 33-byte no-vote form.
pub open spec fn spec_share_request_hash(msg: Seq<u8>) -> Option<Seq<u8>> {
    if msg.len() == HASH_LEN + 1 && msg[HASH_LEN as int] == NO_VOTE_BYTE {
        Some(msg.take(HASH_LEN as int))
    } else if msg.len() == HASH_LEN {
        Some(msg)
    } else {
        None
    }
}

/// The message equals a vote this signer has cached for some block.
pub open spec fn message_is_cached_vote(m: Map<Seq<u8>, BlockInfo>, msg: Seq<u8>) -> bool {
    exists|h: Seq<u8>|
        m.contains_key(h) && ((#[trigger] m[h]).vote matches Some(v) && v@ == msg)
}

/// Every vote cached in `a` survives unchanged into `b`.
pub open spec fn votes_preserved(a: Map<Seq<u8>, BlockInfo>, b: Map<Seq<u8>, BlockInfo>) -> bool {
    forall|h: Seq<u8>|
        a.contains_key(h) && (#[trigger] a[h]).vote is Some ==> b.contains_key(h) && b[h].vote
            == a[h].vote
}

/// Decides this signer's vote for a judged block and writes it into the
/// nonce request's message. A vote already recorded is never replaced: the
/// request is overwritten with the cached value.
pub fn determine_vote(block_info: &mut BlockInfo, nonce_request: &mut NonceRequest)
    requires
        old(block_info).wf(),
    ensures
        final(block_info).wf(),
        final(block_info).block == old(block_info).block,
        final(block_info).valid == old(block_info).valid,
        final(block_info).signed_over == old(block_info).signed_over,
        final(block_info).nonce_request == old(block_info).nonce_request,
        (old(block_info).vote is Some ==> final(block_info).vote == old(block_info).vote),
        (old(block_info).vote is None ==> (final(block_info).vote matches Some(v) && v@
            == vote_of(
            old(block_info).valid,
            old(block_info).block.signer_signature_hash@,
        ))),
        (final(block_info).vote matches Some(v) && final(nonce_request).message@ == v@),
        final(nonce_request).dkg_id == old(nonce_request).dkg_id,
        final(nonce_request).sign_id == old(nonce_request).sign_id,
        final(nonce_request).parsed_block == old(nonce_request).parsed_block,
{
    let vote: Vec<u8> = match &block_info.vote {
        Some(v) => clone_bytes(v),
        None => {
            let accept = match block_info.valid {
                Some(true) => true,
                _ => false,
            };
            let v = crate::blocks::compute_vote(&block_info.block.signer_signature_hash, accept);
            block_info.vote = Some(clone_bytes(&v));
            v
        },
    };
    nonce_request.message = vote;
}

/// Exactly what admitting one packet changes and yields: only the block
/// store moves; a failed transport signature drops the packet; any other
/// protocol message passes through; a share request passes, rewritten to
/// the cached vote, exactly when it names a block this signer has voted on;
/// a nonce request follows the three-way rule of
/// [`Signer::validate_nonce_request`], passing — rewritten to the vote —
/// exactly when its block is known and judged.
pub open spec fn verify_packet_post(
    pre: Signer,
    post: Signer,
    packet: Packet,
    sig_valid: bool,
    r0: Option<Packet>,
    r1: Option<Action>,
) -> bool {
    &&& post == (Signer { blocks: post.blocks, ..pre })
    &&& votes_preserved(pre.blocks@, post.blocks@)
    &&& (r1 matches Some(a) ==> a is SubmitValidation)
    &&& (!sig_valid ==> r0 is None && r1 is None && post.blocks@ == pre.blocks@)
    &&& ((sig_valid && packet.msg is Other) ==> r0 == Some(packet) && r1 is None && post.blocks@
        == pre.blocks@)
    &&& (sig_valid ==> (packet.msg matches ProtocolMessage::SignatureShareRequest(req0) ==> {
        &&& r1 is None
        &&& post.blocks@ == pre.blocks@
        &&& ((r0 is Some) == (spec_share_request_hash(req0.message@) matches Some(h)
            && pre.blocks@.contains_key(h) && pre.blocks@[h].vote is Some))
        &&& (r0 matches Some(p) ==> (p.msg matches ProtocolMessage::SignatureShareRequest(req)
            && req.dkg_id == req0.dkg_id && req.sign_id == req0.sign_id && (
        spec_share_request_hash(req0.message@) matches Some(h) && (
        pre.blocks@[h].vote matches Some(v) && req.message@ == v@))))
    }))
    &&& (sig_valid ==> (packet.msg matches ProtocolMessage::NonceRequest(req0) ==> {
        &&& ((r0 is Some) == (req0.parsed_block matches Some(b) && pre.blocks@.contains_key(
            b.signer_signature_hash@,
        ) && pre.blocks@[b.signer_signature_hash@].valid is Some))
        &&& (req0.parsed_block is None ==> r0 is None && r1 is None && post.blocks@
            == pre.blocks@)
        &&& (req0.parsed_block matches Some(b) ==> {
            let h = b.signer_signature_hash@;
            if !pre.blocks@.contains_key(h) {
                &&& (r1 matches Some(a) && a matches Action::SubmitValidation(b2) && b2@ == b@)
                &&& post.blocks@.contains_key(h)
                &&& post.blocks@ == pre.blocks@.insert(h, post.blocks@[h])
                &&& post.blocks@[h].block@ == b@
                &&& post.blocks@[h].vote is None
                &&& post.blocks@[h].valid is None
                &&& post.blocks@[h].signed_over
                &&& (post.blocks@[h].nonce_request matches Some(nr) && nr@ == req0@)
            } else if pre.blocks@[h].valid is None {
                &&& r1 is None
                &&& post.blocks@ == pre.blocks@.insert(h, post.blocks@[h])
                &&& (post.blocks@[h].nonce_request matches Some(nr) && nr@ == req0@)
                &&& post.blocks@[h].vote == pre.blocks@[h].vote
                &&& post.blocks@[h].valid == pre.blocks@[h].valid
                &&& post.blocks@[h].signed_over == pre.blocks@[h].signed_over
                &&& post.blocks@[h].block == pre.blocks@[h].block
            } else {
                &&& r1 is None
                &&& post.blocks@ == pre.blocks@.insert(h, post.blocks@[h])
                &&& (pre.blocks@[h].vote is Some ==> post.blocks@[h].vote
                    == pre.blocks@[h].vote)
                &&& (pre.blocks@[h].vote is None ==> (post.blocks@[h].vote matches Some(v) && v@
                    == vote_of(pre.blocks@[h].valid, h)))
                &&& post.blocks@[h].valid == pre.blocks@[h].valid
                &&& post.blocks@[h].signed_over == pre.blocks@[h].signed_over
                &&& post.blocks@[h].block == pre.blocks@[h].block
                &&& (r0 matches Some(p) ==> (p.msg matches ProtocolMessage::NonceRequest(req)
                    && req.dkg_id == req0.dkg_id && req.sign_id == req0.sign_id
                    && req.parsed_block == req0.parsed_block && (
                post.blocks@[h].vote matches Some(v) && req.message@ == v@)))
            }
        })
    }))
    &&& (r0 matches Some(p) ==> (p.msg matches ProtocolMessage::SignatureShareRequest(req)
        ==> message_is_cached_vote(post.blocks@, req.message@)))
    &&& (r0 matches Some(p) ==> (p.msg matches ProtocolMessage::NonceRequest(req)
        ==> message_is_cached_vote(post.blocks@, req.message@)))
}

impl Signer {
    /// Validates a signature share request. It is admitted exactly when its
    /// message is the yes or no form over a known block for which this
    /// signer has a cached vote; the message is then overwritten with that
    /// vote before the request goes on to the round library.
    pub fn validate_signature_share_request(&self, request: &mut SignatureShareRequest) -> (r:
        bool)
        requires
            self.inv(),
        ensures
            r == (spec_share_request_hash(old(request).message@) matches Some(h)
                && self.blocks@.contains_key(h) && self.blocks@[h].vote is Some),
            r ==> (spec_share_request_hash(old(request).message@) matches Some(h)
                && self.blocks@[h].vote matches Some(v) && final(request).message@ == v@),
            r ==> message_is_cached_vote(self.blocks@, final(request).message@),
            !r ==> final(request).message@ == old(request).message@,
            final(request).dkg_id == old(request).dkg_id,
            final(request).sign_id == old(request).sign_id,
    {
        let len = request.message.len();
        let hash: Vec<u8>;
        if len == HASH_LEN + 1 && request.message[HASH_LEN] == NO_VOTE_BYTE {
            let mut h = clone_bytes(&request.message);
            h.truncate(HASH_LEN);
            proof {
                assert(h@ =~= old(request).message@.take(HASH_LEN as int));
            }
            hash = h;
        } else if len == HASH_LEN {
            hash = clone_bytes(&request.message);
        } else {
            // Only block hashes and their no-vote forms are ever signed.
            return false;
        }
        match self.blocks.get(&hash) {
            Some(block_info) => match &block_info.vote {
                Some(vote) => {
                    // Overwrite with the agreed-upon value, in case the
                    // coordinator shifted the message.
                    request.message = clone_bytes(vote);
                    proof {
                        assert(message_is_cached_vote(self.blocks@, request.message@));
                    }
                    true
                },
                None => {
                    // This signer never judged the block; it cannot sign.
                    false
                },
            },
            None => {
                // An unknown block; there is no context to sign against.
                false
            },
        }
    }

    /// Validates a nonce request. A request over an unknown block caches
    /// the block and asks the driver to submit it for validation; one over
    /// a block still awaiting validation is stashed; one over a judged
    /// block is admitted with this signer's vote written into its message.
    pub fn validate_nonce_request(&mut self, request: &mut NonceRequest) -> (r: (
        bool,
        Option<Action>,
    ))
        requires
            old(self).inv(),
            (old(request).parsed_block matches Some(b) ==> b.wf()),
        ensures
            final(self).inv(),
            *final(self) == (Signer { blocks: final(self).blocks, ..*old(self) }),
            votes_preserved(old(self).blocks@, final(self).blocks@),
            final(request).dkg_id == old(request).dkg_id,
            final(request).sign_id == old(request).sign_id,
            final(request).parsed_block == old(request).parsed_block,
            (old(request).parsed_block is None ==> !r.0 && r.1 is None && final(self).blocks@
                == old(self).blocks@),
            (old(request).parsed_block matches Some(b) ==> {
                let h = b.signer_signature_hash@;
                if !old(self).blocks@.contains_key(h) {
                    // First sight: cache it as signed over with the stashed
                    // request, and have the block validated.
                    &&& !r.0
                    &&& (r.1 matches Some(a) && a matches Action::SubmitValidation(b2) && b2@
                        == b@)
                    &&& final(self).blocks@.contains_key(h)
                    &&& final(self).blocks@ == old(self).blocks@.insert(
                        h,
                        final(self).blocks@[h],
                    )
                    &&& final(self).blocks@[h].block@ == b@
                    &&& final(self).blocks@[h].vote is None
                    &&& final(self).blocks@[h].valid is None
                    &&& final(self).blocks@[h].signed_over
                    &&& (final(self).blocks@[h].nonce_request matches Some(nr) && nr@ == old(request)@)
                } else if old(self).blocks@[h].valid is None {
                    // Still awaiting the chain node: stash the request.
                    &&& !r.0
                    &&& r.1 is None
                    &&& final(self).blocks@ == old(self).blocks@.insert(
                        h,
                        final(self).blocks@[h],
                    )
                    &&& (final(self).blocks@[h].nonce_request matches Some(nr) && nr@ == old(request)@)
                    &&& final(self).blocks@[h].vote == old(self).blocks@[h].vote
                    &&& final(self).blocks@[h].valid == old(self).blocks@[h].valid
                    &&& final(self).blocks@[h].signed_over == old(self).blocks@[h].signed_over
                    &&& final(self).blocks@[h].block == old(self).blocks@[h].block
                } else {
                    // Judged: admit the request carrying this signer's vote.
                    &&& r.0
                    &&& r.1 is None
                    &&& final(self).blocks@ == old(self).blocks@.insert(
                        h,
                        final(self).blocks@[h],
                    )
                    &&& (final(self).blocks@[h].vote matches Some(v) && final(request).message@
                        == v@)
                    &&& (old(self).blocks@[h].vote is Some ==> final(self).blocks@[h].vote
                        == old(self).blocks@[h].vote)
                    &&& (old(self).blocks@[h].vote is None ==> (final(self).blocks@[h].vote matches Some(v) && v@ == vote_of(
                        old(self).blocks@[h].valid,
                        h,
                    )))
                    &&& final(self).blocks@[h].valid == old(self).blocks@[h].valid
                    &&& final(self).blocks@[h].signed_over == old(self).blocks@[h].signed_over
                    &&& final(self).blocks@[h].block == old(self).blocks@[h].block
                    &&& message_is_cached_vote(final(self).blocks@, final(request).message@)
                }
            }),
    {
        let parsed: &Option<crate::blocks::Block> = &request.parsed_block;
        let block = match parsed {
            Some(b) => b.duplicate(),
            None => {
                // Only blocks are signed; anything else is rejected.
                return (false, None);
            },
        };
        let hash = clone_bytes(&block.signer_signature_hash);
        let mut block_info = match self.blocks.remove(&hash) {
            Some(bi) => bi,
            None => {
                // Never seen: cache it and ask for validation.
                let stored = BlockInfo::new_with_request(block.duplicate(), request.duplicate());
                self.blocks.insert(hash, stored);
                return (false, Some(Action::SubmitValidation(block)));
            },
        };
        if block_info.valid.is_none() {
            // No verdict from the chain node yet: stash the request and
            // wait.
            block_info.nonce_request = Some(request.duplicate());
            self.blocks.insert(hash, block_info);
            return (false, None);
        }
        determine_vote(&mut block_info, request);
        self.blocks.insert(hash, block_info);
        proof {
            assert(message_is_cached_vote(self.blocks@, request.message@));
        }
        (true, None)
    }

    /// Admits or drops one packet: dropped when its transport signature
    /// failed, or when an inner request fails validation; an admitted
    /// request carries this signer's cached vote in its message.
    pub fn verify_packet(&mut self, packet: Packet, sig_valid: bool) -> (r: (
        Option<Packet>,
        Option<Action>,
    ))
        requires
            old(self).inv(),
            (packet.msg matches ProtocolMessage::NonceRequest(nr) ==> (nr.parsed_block matches
                Some(b) ==> b.wf())),
        ensures
            final(self).inv(),
            verify_packet_post(*old(self), *final(self), packet, sig_valid, r.0, r.1),
    {
        if !sig_valid {
            return (None, None);
        }
        match packet.msg {
            ProtocolMessage::SignatureShareRequest(mut req) => {
                if self.validate_signature_share_request(&mut req) {
                    (Some(Packet { msg: ProtocolMessage::SignatureShareRequest(req) }), None)
                } else {
                    (None, None)
                }
            },
            ProtocolMessage::NonceRequest(mut req) => {
                let (ok, action) = self.validate_nonce_request(&mut req);
                if ok {
                    (Some(Packet { msg: ProtocolMessage::NonceRequest(req) }), action)
                } else {
                    (None, action)
                }
            },
            ProtocolMessage::Other => (Some(Packet { msg: ProtocolMessage::Other }), None),
        }
    }
}

} // verus!
