//! The block model and the per-block state the signer keeps while deciding
//! its vote.

use vstd::prelude::*;

use crate::messages::{NonceRequest, NonceRequestV, NO_VOTE_BYTE};
use crate::types::{clone_bytes, HASH_LEN};

verus! {

/// A proposed block, reduced to what the signer's decisions read: the
/// 32-byte signer signature hash from its header, and the ids of the
/// transactions it carries.
#[derive(Clone, Debug, PartialEq, Eq)]
pub struct Block {
    pub signer_signature_hash: Vec<u8>,
    pub tx_ids: Vec<Vec<u8>>,
}

/// The mathematical value of a [`Block`].
pub ghost struct BlockV {
    pub signer_signature_hash: Seq<u8>,
    pub tx_ids: Seq<Seq<u8>>,
}

impl View for Block {
    type V = BlockV;

    open spec fn view(&self) -> BlockV {
        BlockV { signer_signature_hash: self.signer_signature_hash@, tx_ids: self.tx_ids.deep_view() }
    }
}

impl Block {
    /// A block is well formed when its signature hash has the full length.
    pub open spec fn wf(&self) -> bool {
        self.signer_signature_hash@.len() == HASH_LEN
    }

    /// A structural copy whose view equals the original's.
    pub fn duplicate(&self) -> (r: Block)
        ensures
            r@ == self@,
            r.wf() == self.wf(),
    {
        let r = Block {
            signer_signature_hash: clone_bytes(&self.signer_signature_hash),
            tx_ids: clone_byte_vec_list(&self.tx_ids),
        };
        r
    }
}

/// Copies a list of byte vectors, keeping every element's view.
pub fn clone_byte_vec_list(v: &Vec<Vec<u8>>) -> (r: Vec<Vec<u8>>)
    ensures
        r.deep_view() == v.deep_view(),
{
    let mut r: Vec<Vec<u8>> = Vec::new();
    let n = v.len();
    let mut i: usize = 0;
    while i < n
        invariant
            n == v@.len(),
            i <= n,
            r@.len() == i,
            forall|j: int| 0 <= j < i ==> r@[j]@ == v@[j]@,
        decreases n - i,
    {
        r.push(clone_bytes(&v[i]));
        i = i + 1;
    }
    proof {
        assert(r.deep_view() =~= v.deep_view());
    }
    r
}

/// The "yes" vote over a block: its signer signature hash itself.
pub open spec fn yes_vote(hash: Seq<u8>) -> Seq<u8> {
    hash
}

/// The "no" vote over a block: its signer signature hash followed by a
/// marker byte.
pub open spec fn no_vote(hash: Seq<u8>) -> Seq<u8> {
    hash.push(NO_VOTE_BYTE)
}

/// The vote the signer casts for a block it has judged: yes exactly when the
/// judgement is `Some(true)`.
pub open spec fn vote_of(valid: Option<bool>, hash: Seq<u8>) -> Seq<u8> {
    if valid == Some(true) {
        yes_vote(hash)
    } else {
        no_vote(hash)
    }
}

/// Builds the vote bytes for a block hash; yes exactly when `accept`.
pub fn compute_vote(hash: &Vec<u8>, accept: bool) -> (v: Vec<u8>)
    ensures
        accept ==> v@ == yes_vote(hash@),
        !accept ==> v@ == no_vote(hash@),
{
    let mut v = clone_bytes(hash);
    if !accept {
        v.push(NO_VOTE_BYTE);
    }
    v
}

/// Everything the signer keeps about one proposed block: the block, its own
/// vote once decided, the chain node's validity verdict, a nonce request
/// stashed while validation is pending, and whether a signing round has been
/// entered over the block.
#[derive(Clone, Debug, PartialEq, Eq)]
pub struct BlockInfo {
    pub block: Block,
    pub vote: Option<Vec<u8>>,
    pub valid: Option<bool>,
    pub nonce_request: Option<NonceRequest>,
    pub signed_over: bool,
}

/// The mathematical value of a [`BlockInfo`].
pub ghost struct BlockInfoV {
    pub block: BlockV,
    pub vote: Option<Seq<u8>>,
    pub valid: Option<bool>,
    pub nonce_request: Option<NonceRequestV>,
    pub signed_over: bool,
}

impl View for BlockInfo {
    type V = BlockInfoV;

    open spec fn view(&self) -> BlockInfoV {
        BlockInfoV {
            block: self.block@,
            vote: match self.vote {
                Some(v) => Some(v@),
                None => None,
            },
            valid: self.valid,
            nonce_request: match self.nonce_request {
                Some(r) => Some(r@),
                None => None,
            },
            signed_over: self.signed_over,
        }
    }
}

impl BlockInfo {
    /// A recorded vote is absent, the block's hash (yes), or the hash with
    /// the marker byte appended (no).
    pub open spec fn vote_wf(&self) -> bool {
        match self.vote {
            None => true,
            Some(v) => v@ == yes_vote(self.block.signer_signature_hash@) || v@ == no_vote(
                self.block.signer_signature_hash@,
            ),
        }
    }

    /// The per-block invariant: a well-formed block and a well-formed vote.
    pub open spec fn wf(&self) -> bool {
        self.block.wf() && self.vote_wf()
    }

    /// Creates the state for a newly observed block.
    pub fn new(block: Block) -> (r: Self)
        ensures
            r == (BlockInfo {
                block,
                vote: None,
                valid: None,
                nonce_request: None,
                signed_over: false,
            }),
            r.block == block,
            r.vote is None,
            r.valid is None,
            r.nonce_request is None,
            !r.signed_over,
    {
        BlockInfo { block, vote: None, valid: None, nonce_request: None, signed_over: false }
    }

    /// Creates the state for a block first seen inside a nonce request; the
    /// round over it is already under way, so it counts as signed over.
    pub fn new_with_request(block: Block, nonce_request: NonceRequest) -> (r: Self)
        ensures
            r.block == block,
            r.vote is None,
            r.valid is None,
            r.nonce_request == Some(nonce_request),
            r.signed_over,
    {
        BlockInfo {
            block,
            vote: None,
            valid: None,
            nonce_request: Some(nonce_request),
            signed_over: true,
        }
    }

    /// A structural copy whose view equals the original's.
    pub fn duplicate(&self) -> (r: BlockInfo)
        ensures
            r@ == self@,
    {
        let vote: Option<Vec<u8>> = match &self.vote {
            Some(v) => Some(clone_bytes(v)),
            None => None,
        };
        let nonce_request: Option<NonceRequest> = match &self.nonce_request {
            Some(n) => Some(n.duplicate()),
            None => None,
        };
        let r = BlockInfo {
            block: self.block.duplicate(),
            vote,
            valid: self.valid,
            nonce_request,
            signed_over: self.signed_over,
        };
        r
    }
}

impl NonceRequest {
    /// A structural copy whose view equals the original's.
    pub fn duplicate(&self) -> (r: NonceRequest)
        ensures
            r@ == self@,
    {
        let parsed_block: Option<Block> = match &self.parsed_block {
            Some(b) => Some(b.duplicate()),
            None => None,
        };
        NonceRequest {
            dkg_id: self.dkg_id,
            sign_id: self.sign_id,
            message: clone_bytes(&self.message),
            parsed_block,
        }
    }
}

} // verus!
