//! Models of the messages the signer exchanges: protocol packets from the
//! round library, bulletin-board messages, chain-node validation responses,
//! and the events and actions of the engine's driver loop.
//!
//! The driver (the unverified shell around this crate) decodes transport
//! bytes into these values and carries the returned actions out. Outcomes
//! that only the outside world can compute — a packet's signature check, a
//! block deserialized from a request's message — arrive as fields filled in
//! by the driver.

use vstd::prelude::*;

use crate::blocks::{Block, BlockV};
use crate::transactions::SignerTransaction;
use crate::types::CoordinatorMetadata;

verus! {

/// The byte appended to a signer signature hash to form a "no" vote.
pub const NO_VOTE_BYTE: u8 = 110u8;

/// A nonce request from the round coordinator, opening a signing round over
/// `message`. `parsed_block` is the block the driver decoded from `message`,
/// or `None` when the message is not a block.
#[derive(Clone, Debug, PartialEq, Eq)]
pub struct NonceRequest {
    pub dkg_id: u64,
    pub sign_id: u64,
    pub message: Vec<u8>,
    pub parsed_block: Option<Block>,
}

/// The mathematical value of a [`NonceRequest`].
pub ghost struct NonceRequestV {
    pub dkg_id: u64,
    pub sign_id: u64,
    pub message: Seq<u8>,
    pub parsed_block: Option<BlockV>,
}

impl View for NonceRequest {
    type V = NonceRequestV;

    open spec fn view(&self) -> NonceRequestV {
        NonceRequestV {
            dkg_id: self.dkg_id,
            sign_id: self.sign_id,
            message: self.message@,
            parsed_block: match self.parsed_block {
                Some(b) => Some(b@),
                None => None,
            },
        }
    }
}

/// A signature share request from the round coordinator over `message`.
#[derive(Clone, Debug, PartialEq, Eq)]
pub struct SignatureShareRequest {
    pub dkg_id: u64,
    pub sign_id: u64,
    pub message: Vec<u8>,
}

/// The protocol messages whose contents this engine inspects; every other
/// message of the round library passes through untouched as `Other`.
#[derive(Clone, Debug, PartialEq, Eq)]
pub enum ProtocolMessage {
    NonceRequest(NonceRequest),
    SignatureShareRequest(SignatureShareRequest),
    Other,
}

/// A round-library packet. The transport signature is checked by the driver;
/// see [`PacketMessage::sig_valid`].
#[derive(Clone, Debug, PartialEq, Eq)]
pub struct Packet {
    pub msg: ProtocolMessage,
}

/// A packet as read from the bulletin: the packet itself, the sending
/// signer, that signer's chain-view token, and the driver's verdict on the
/// packet signature under the known public keys and the current coordinator
/// key.
#[derive(Clone, Debug, PartialEq, Eq)]
pub struct PacketMessage {
    pub packet: Packet,
    pub packet_signer_id: u32,
    pub coordinator_metadata: CoordinatorMetadata,
    pub sig_valid: bool,
}

/// A point-to-point message telling `target_signer_id` that the sender holds
/// a more recent chain view.
#[derive(Clone, Debug, PartialEq, Eq)]
pub struct NackMessage {
    pub sender_signer_id: u32,
    pub target_signer_id: u32,
    pub coordinator_metadata: CoordinatorMetadata,
}

/// Why a block was rejected.
#[derive(Clone, Debug, PartialEq, Eq)]
pub enum RejectCode {
    /// The chain node rejected the block as invalid.
    ValidationFailed,
    /// The block lacks transactions the signer set expects to see in it.
    MissingTransactions(Vec<SignerTransaction>),
    /// The chain node could not be reached while auditing the block.
    ConnectivityIssues,
    /// Too few honest signers participated; the listed ids misbehaved.
    InsufficientSigners(Vec<u32>),
    /// The signer set signed the block's no-vote form; the signature is
    /// carried as proof.
    SignedRejection(Vec<u8>),
}

/// A rejection of the block with the given signer signature hash.
#[derive(Clone, Debug, PartialEq, Eq)]
pub struct BlockRejection {
    pub signer_signature_hash: Vec<u8>,
    pub reason_code: RejectCode,
}

/// The signer set's verdict on a block, broadcast for miners to observe.
#[derive(Clone, Debug, PartialEq, Eq)]
pub enum BlockResponse {
    /// The threshold signature over the block's signature hash.
    Accepted(Vec<u8>, Vec<u8>),
    Rejected(BlockRejection),
}

/// A message on the shared per-cycle bulletin board.
#[derive(Clone, Debug, PartialEq, Eq)]
pub enum SignerMessage {
    Packet(PacketMessage),
    BlockResponse(BlockResponse),
    Transactions(Vec<SignerTransaction>),
    Nack(NackMessage),
}

/// The chain node accepted the block as valid.
#[derive(Clone, Debug, PartialEq, Eq)]
pub struct BlockValidateOk {
    pub signer_signature_hash: Vec<u8>,
}

/// The chain node rejected the block.
#[derive(Clone, Debug, PartialEq, Eq)]
pub struct BlockValidateReject {
    pub signer_signature_hash: Vec<u8>,
}

/// The chain node's answer to a block validation submission.
#[derive(Clone, Debug, PartialEq, Eq)]
pub enum BlockValidateResponse {
    Valid(BlockValidateOk),
    Reject(BlockValidateReject),
}

/// An external event fed to the engine by the driver.
#[derive(Clone, Debug, PartialEq, Eq)]
pub enum SignerEvent {
    /// A validation verdict for a block previously submitted to the chain node.
    BlockValidationResponse(BlockValidateResponse),
    /// Messages read from the bulletin of the given signer set.
    SignerMessages(u32, Vec<SignerMessage>),
    /// Blocks proposed by the miner.
    ProposedBlocks(Vec<Block>),
    /// A periodic liveness tick.
    StatusCheck,
}

/// Work the driver must carry out after an engine step.
#[derive(Clone, Debug, PartialEq, Eq)]
pub enum Action {
    /// Broadcast a message on the bulletin board.
    Send(SignerMessage),
    /// Submit a block to the chain node for validation.
    SubmitValidation(Block),
    /// Submit a vote transaction to the chain node's mempool.
    SubmitMempool(SignerTransaction),
}

} // verus!
