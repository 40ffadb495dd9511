//! The per-cycle signer engine: its state, command queue, and the
//! coordinator-side command processing.
//!
//! The engine is a state machine. The driver around it fetches chain
//! answers, hands them in as arguments, and carries out the returned round
//! starts and actions: it runs the round library and the transports, which
//! this crate does not see.

use vstd::prelude::*;
use std::collections::VecDeque;

use crate::assoc::{keys_unique, AssocMap};
use crate::blocks::{Block, BlockInfo};
use crate::selector::Selector;
use crate::stale_view::{get_nack_threshold, ids_unique, StaleNodeNackPolicy};
use crate::types::{clone_bytes, CoordinatorMetadata, MetadataV, StacksAddress};

verus! {

/// The engine's lifecycle state.
#[derive(Clone, Copy, Debug, PartialEq, Eq, Structural)]
pub enum State {
    /// Waiting for messages and commands.
    Idle,
    /// A distributed key generation or signing round is under way.
    OperationInProgress,
    /// The reward cycle has passed and a successor key is confirmed.
    TenureExceeded,
}

/// A pending operation for the engine to run as coordinator.
#[derive(Clone, Debug, PartialEq, Eq)]
pub enum Command {
    /// Run a distributed key generation round.
    Dkg,
    /// Run a signing round over the block.
    Sign { block: Block, is_taproot: bool, merkle_root: Option<Vec<u8>> },
}

/// A round the driver must open through the round library, then report
/// back through [`Signer::confirm_round_start`] once the opening packet is
/// published.
#[derive(Clone, Debug, PartialEq, Eq)]
pub enum RoundStart {
    /// Open a key generation round under this round id.
    Dkg { dkg_id: u64 },
    /// Open a signing round over this block.
    Sign { block: Block, is_taproot: bool, merkle_root: Option<Vec<u8>> },
}

/// The per-cycle configuration the engine is built from.
pub struct SignerConfig {
    pub reward_cycle: u64,
    pub signer_id: u32,
    pub signer_set: u32,
    pub signer_slot_id: u32,
    pub mainnet: bool,
    /// Fee in micro-units paid for the vote transaction before the epoch
    /// that makes it free.
    pub tx_fee_ms: u64,
    /// All signer ids of the cycle.
    pub signer_ids: Vec<u32>,
    /// All key ids of the cycle, across signers.
    pub key_ids: Vec<u32>,
    /// Registered signers' account addresses and their signer ids.
    pub signer_address_ids: Vec<(StacksAddress, u32)>,
    pub coordinator_ids: Vec<u32>,
    pub coordinator_keys: Vec<Vec<u8>>,
    pub coordinator_metadata: CoordinatorMetadata,
    pub operation_timeout_ms: u64,
    pub stale_node_nack_policy: Option<StaleNodeNackPolicy>,
}

/// The signer engine for one reward cycle.
pub struct Signer {
    pub state: State,
    /// Observed blocks, keyed by signer signature hash.
    pub blocks: AssocMap<Vec<u8>, BlockInfo>,
    /// Commands waiting to be run when this signer is coordinator.
    pub commands: VecDeque<Command>,
    pub mainnet: bool,
    pub signer_id: u32,
    pub signer_set: u32,
    pub signer_slot_id: u32,
    /// All signer ids of the cycle.
    pub signer_ids: Vec<u32>,
    /// Registered signers' addresses, mapped to their signer ids.
    pub signer_address_ids: AssocMap<StacksAddress, u32>,
    pub reward_cycle: u64,
    pub tx_fee_ms: u64,
    pub num_signers: u32,
    pub num_keys: u32,
    /// Shares needed to produce a signature.
    pub threshold: u32,
    /// Shares needed to complete key generation.
    pub dkg_threshold: u32,
    pub coordinator_selector: Selector,
    /// NACKs received from peers, keyed by the peer's chain-view token.
    pub nack_messages_received: AssocMap<CoordinatorMetadata, Vec<u32>>,
    /// NACKs this signer sent, keyed by its own chain-view token.
    pub nack_messages_sent: AssocMap<CoordinatorMetadata, Vec<u32>>,
    pub stale_node_nack_policy: Option<StaleNodeNackPolicy>,
    /// NACK count that triggers a back-off, from the policy.
    pub nack_threshold: Option<u32>,
    /// When the running back-off window ends, in milliseconds.
    pub back_off_until: Option<u64>,
    /// Whether a back-off window is in force.
    pub apply_back_off_delay: bool,
    /// The round id of the running or last key generation vote.
    pub current_dkg_id: u64,
    /// The aggregate public key, once confirmed on chain (compressed).
    pub aggregate_public_key: Option<Vec<u8>>,
}

/// Every stored block entry is well formed and filed under its own hash.
pub open spec fn blocks_wf(m: Map<Seq<u8>, BlockInfo>) -> bool {
    forall|h: Seq<u8>| m.contains_key(h) ==> (#[trigger] m[h]).wf()
        && m[h].block.signer_signature_hash@ == h
}

/// Every queued sign command carries a well-formed block.
pub open spec fn commands_wf(s: Seq<Command>) -> bool {
    forall|i: int| 0 <= i < s.len() ==> match #[trigger] s[i] {
        Command::Sign { block, .. } => block.wf(),
        Command::Dkg => true,
    }
}

impl Signer {
    /// The engine invariant.
    pub open spec fn inv(&self) -> bool {
        &&& self.blocks.wf()
        &&& blocks_wf(self.blocks@)
        &&& commands_wf(self.commands@)
        &&& self.signer_address_ids.wf()
        &&& self.coordinator_selector.wf()
        &&& self.nack_messages_received.wf()
        &&& self.nack_messages_sent.wf()
        // The sent registry never tracks more than one local chain view.
        &&& self.nack_messages_sent.spec_len() <= 1
        &&& forall|m: MetadataV| self.nack_messages_received@.contains_key(m) ==> ids_unique(
            (#[trigger] self.nack_messages_received@[m])@,
        )
        &&& forall|m: MetadataV| self.nack_messages_sent@.contains_key(m) ==> ids_unique(
            (#[trigger] self.nack_messages_sent@[m])@,
        )
        // The policy decides whether a threshold is configured.
        &&& (self.nack_threshold is Some <==> self.stale_node_nack_policy is Some)
        // A back-off deadline exists exactly while the back-off is in force.
        &&& (self.apply_back_off_delay <==> self.back_off_until is Some)
        // Until the threshold is reached, no recorded view has enough NACKs.
        &&& (match self.nack_threshold {
            Some(t) => !self.apply_back_off_delay ==> forall|m: MetadataV|
                self.nack_messages_received@.contains_key(m)
                    ==> (#[trigger] self.nack_messages_received@[m])@.len() < t,
            None => !self.apply_back_off_delay,
        })
    }

    /// Every vote this engine has recorded is well formed: for each cached
    /// block, the vote is absent, the block's own signature hash (yes), or
    /// that hash followed by the marker byte (no).
    pub proof fn law_votes_well_formed(&self)
        requires
            self.inv(),
        ensures
            forall|h: Seq<u8>|
                self.blocks@.contains_key(h) ==> match (#[trigger] self.blocks@[h]).vote {
                    None => true,
                    Some(v) => v@ == crate::blocks::yes_vote(h) || v@ == crate::blocks::no_vote(
                        h,
                    ),
                },
    {
    }

    /// Whether this signer is the coordinator at the given time.
    pub open spec fn is_coordinator(&self, now_ms: u64) -> bool {
        self.coordinator_selector.spec_coordinator_id(now_ms) == self.signer_id
    }

    /// Builds the engine for one reward cycle. The threshold fields follow
    /// the configured key count: seven tenths to sign, nine tenths to
    /// complete key generation.
    pub fn new(config: SignerConfig) -> (s: Signer)
        requires
            config.signer_ids@.len() <= u32::MAX,
            config.key_ids@.len() <= u32::MAX,
            keys_unique(config.signer_address_ids@),
            config.coordinator_ids@.len() > 0,
            config.coordinator_ids@.len() == config.coordinator_keys@.len(),
            config.operation_timeout_ms > 0,
            (config.stale_node_nack_policy matches Some(p)
                ==> p.nack_threshold_percent <= 100),
        ensures
            s.inv(),
            s.state is Idle,
            s.blocks@ == Map::<Seq<u8>, BlockInfo>::empty(),
            s.commands@ == Seq::<Command>::empty(),
            s.mainnet == config.mainnet,
            s.signer_id == config.signer_id,
            s.signer_set == config.signer_set,
            s.signer_slot_id == config.signer_slot_id,
            s.signer_ids == config.signer_ids,
            s.signer_address_ids.entries == config.signer_address_ids,
            s.signer_address_ids@ == crate::assoc::seq_to_map(config.signer_address_ids@),
            s.reward_cycle == config.reward_cycle,
            s.tx_fee_ms == config.tx_fee_ms,
            s.num_signers == config.signer_ids@.len(),
            s.num_keys == config.key_ids@.len(),
            s.threshold == s.num_keys * 7 / 10,
            s.dkg_threshold == s.num_keys * 9 / 10,
            s.coordinator_selector.coordinator_ids == config.coordinator_ids,
            s.coordinator_selector.coordinator_metadata == config.coordinator_metadata,
            s.coordinator_selector.last_message_time is None,
            s.stale_node_nack_policy == config.stale_node_nack_policy,
            (match config.stale_node_nack_policy {
                Some(p) => s.nack_threshold matches Some(t) && t == (config.signer_ids@.len()
                    as u32) * p.nack_threshold_percent / 100,
                None => s.nack_threshold is None,
            }),
            s.nack_messages_received@ == Map::<MetadataV, Vec<u32>>::empty(),
            s.nack_messages_sent@ == Map::<MetadataV, Vec<u32>>::empty(),
            s.back_off_until is None,
            !s.apply_back_off_delay,
            s.current_dkg_id == 0,
            s.aggregate_public_key is None,
    {
        let num_signers: u32 = config.signer_ids.len() as u32;
        let num_keys: u32 = config.key_ids.len() as u32;
        proof {
            assert((num_keys as u64) * 7 <= (u32::MAX as u64) * 10 && num_keys * 7 / 10
                <= u32::MAX && (num_keys as u64) * 9 <= (u32::MAX as u64) * 10 && num_keys * 9
                / 10 <= u32::MAX) by (nonlinear_arith)
                requires
                    num_keys <= u32::MAX,
            ;
        }
        let threshold: u32 = ((num_keys as u64) * 7 / 10) as u32;
        let dkg_threshold: u32 = ((num_keys as u64) * 9 / 10) as u32;
        let nack_threshold: Option<u32> = match &config.stale_node_nack_policy {
            Some(policy) => Some(get_nack_threshold(num_signers, policy.nack_threshold_percent)),
            None => None,
        };
        let selector = Selector {
            coordinator_ids: config.coordinator_ids,
            coordinator_keys: config.coordinator_keys,
            coordinator_metadata: config.coordinator_metadata,
            last_message_time: None,
            operation_timeout_ms: config.operation_timeout_ms,
        };
        Signer {
            state: State::Idle,
            blocks: AssocMap::new(),
            commands: VecDeque::new(),
            mainnet: config.mainnet,
            signer_id: config.signer_id,
            signer_set: config.signer_set,
            signer_slot_id: config.signer_slot_id,
            signer_ids: config.signer_ids,
            signer_address_ids: AssocMap { entries: config.signer_address_ids },
            reward_cycle: config.reward_cycle,
            tx_fee_ms: config.tx_fee_ms,
            num_signers,
            num_keys,
            threshold,
            dkg_threshold,
            coordinator_selector: selector,
            nack_messages_received: AssocMap::new(),
            nack_messages_sent: AssocMap::new(),
            stale_node_nack_policy: config.stale_node_nack_policy,
            nack_threshold,
            back_off_until: None,
            apply_back_off_delay: false,
            current_dkg_id: 0,
            aggregate_public_key: None,
        }
    }

    /// Queues a command behind the pending ones.
    pub fn enqueue_command(&mut self, command: Command)
        requires
            old(self).inv(),
            (command matches Command::Sign { block, .. } ==> block.wf()),
        ensures
            final(self).inv(),
            final(self).commands@ == old(self).commands@.push(command),
            *final(self) == (Signer { commands: final(self).commands, ..*old(self) }),
    {
        self.commands.push_back(command);
    }

    /// Leaves the operating state after a finished round and stops the
    /// coordinator rotation clock.
    pub fn finish_operation(&mut self)
        ensures
            final(self).state is Idle,
            final(self).coordinator_selector.last_message_time is None,
            *final(self) == (Signer {
                state: State::Idle,
                coordinator_selector: final(self).coordinator_selector,
                ..*old(self)
            }),
            final(self).coordinator_selector == (Selector {
                last_message_time: None,
                ..old(self).coordinator_selector
            }),
            old(self).inv() ==> final(self).inv(),
    {
        self.state = State::Idle;
        self.coordinator_selector.last_message_time = None;
    }

    /// Records progress of a running operation: stays in the operating
    /// state and restarts the coordinator rotation clock.
    pub fn update_operation(&mut self, now_ms: u64)
        ensures
            final(self).state is OperationInProgress,
            *final(self) == (Signer {
                state: State::OperationInProgress,
                coordinator_selector: final(self).coordinator_selector,
                ..*old(self)
            }),
            final(self).coordinator_selector == (Selector {
                last_message_time: Some(now_ms),
                ..old(self).coordinator_selector
            }),
            old(self).inv() ==> final(self).inv(),
    {
        self.state = State::OperationInProgress;
        self.coordinator_selector.last_message_time = Some(now_ms);
    }

    /// Takes the next command off the queue and decides the round to open,
    /// if any. Runs only when idle and currently coordinator; while a
    /// back-off window is in force it opens nothing and leaves the queue
    /// untouched. A sign command over a block already signed over is
    /// consumed without opening a round. `last_round` is the chain's last
    /// recorded voting round, pre-fetched by the driver, with the outer
    /// `None` recording a failed lookup, which drops the key generation
    /// command.
    pub fn process_next_command(&mut self, now_ms: u64, last_round: Option<Option<u64>>) -> (r:
        Option<RoundStart>)
        requires
            old(self).inv(),
        ensures
            final(self).inv(),
            // Nothing moves unless idle, coordinator, and free of back-off.
            !(old(self).state is Idle && old(self).is_coordinator(now_ms) && !old(self).apply_back_off_delay) ==> r is None && *final(self) == *old(self),
            // While backed off or misplaced, no round opens at all.
            (old(self).apply_back_off_delay || !(old(self).state is Idle)) ==> r is None,
            // When eligible, the head of the queue decides.
            (old(self).state is Idle && old(self).is_coordinator(now_ms) && !old(self).apply_back_off_delay) ==> {
                if old(self).commands@.len() == 0 {
                    r is None && final(self).commands@ == old(self).commands@ && *final(self)
                        == (Signer { commands: final(self).commands, ..*old(self) })
                } else {
                    final(self).commands@ == old(self).commands@.drop_first() && match old(self).commands@[0] {
                        Command::Dkg => match last_round {
                            None => r is None && *final(self) == (Signer {
                                commands: final(self).commands,
                                ..*old(self)
                            }),
                            Some(lr) => {
                                let id = match lr {
                                    Some(v) => v,
                                    None => 0u64,
                                };
                                r == Some((RoundStart::Dkg { dkg_id: id })) && *final(self)
                                    == (Signer {
                                    commands: final(self).commands,
                                    current_dkg_id: id,
                                    ..*old(self)
                                })
                            },
                        },
                        Command::Sign { block, is_taproot, merkle_root } => {
                            let h = block.signer_signature_hash@;
                            if old(self).blocks@.contains_key(h) && old(self).blocks@[h].signed_over {
                                // An active round over this block already
                                // exists; the duplicate is dropped.
                                r is None && *final(self) == (Signer {
                                    commands: final(self).commands,
                                    ..*old(self)
                                })
                            } else {
                                r == Some(
                                    (RoundStart::Sign { block, is_taproot, merkle_root }),
                                ) && final(self).blocks@.contains_key(h) && !final(self).blocks@[h].signed_over && *final(self) == (Signer {
                                    commands: final(self).commands,
                                    blocks: final(self).blocks,
                                    ..*old(self)
                                }) && (old(self).blocks@.contains_key(h) ==> final(self).blocks@
                                    == old(self).blocks@) && (!old(self).blocks@.contains_key(h)
                                    ==> final(self).blocks@ == old(self).blocks@.insert(
                                    h,
                                    final(self).blocks@[h],
                                ))
                            }
                        },
                    }
                }
            },
    {
        if !(matches!(self.state, State::Idle)) {
            return None;
        }
        let (coordinator_id, _key) = self.coordinator_selector.get_coordinator(now_ms);
        if coordinator_id != self.signer_id {
            return None;
        }
        if self.apply_back_off_delay {
            // Cooperative back-off: peers consider this signer's chain view
            // stale, so it must not open new rounds as coordinator.
            return None;
        }
        let command = match self.commands.pop_front() {
            Some(c) => c,
            None => {
                return None;
            },
        };
        match command {
            Command::Dkg => {
                let lr = match last_round {
                    Some(lr) => lr,
                    None => {
                        // The chain could not say which round to vote in;
                        // the command is dropped.
                        return None;
                    },
                };
                let vote_round: u64 = match lr {
                    Some(v) => v,
                    None => 0u64,
                };
                self.current_dkg_id = vote_round;
                Some(RoundStart::Dkg { dkg_id: vote_round })
            },
            Command::Sign { block, is_taproot, merkle_root } => {
                let hash = clone_bytes(&block.signer_signature_hash);
                let already = match self.blocks.get(&hash) {
                    Some(block_info) => block_info.signed_over,
                    None => false,
                };
                if already {
                    return None;
                }
                if !self.blocks.contains_key(&hash) {
                    self.blocks.insert(hash, BlockInfo::new(block.duplicate()));
                }
                Some(RoundStart::Sign { block, is_taproot, merkle_root })
            },
        }
    }

    /// Records that the driver opened the round and published its opening
    /// packet: a signing round's block becomes signed over, and the engine
    /// enters the operating state.
    pub fn confirm_round_start(&mut self, start: &RoundStart, now_ms: u64)
        requires
            old(self).inv(),
            (start matches RoundStart::Sign { block, .. } ==> block.wf()),
        ensures
            final(self).inv(),
            final(self).state is OperationInProgress,
            (start matches RoundStart::Sign { block, .. } ==> {
                let h = block.signer_signature_hash@;
                &&& final(self).blocks@.contains_key(h)
                &&& final(self).blocks@[h].signed_over
                &&& final(self).blocks@ == old(self).blocks@.insert(h, final(self).blocks@[h])
                &&& (old(self).blocks@.contains_key(h) ==> {
                    &&& final(self).blocks@[h].vote == old(self).blocks@[h].vote
                    &&& final(self).blocks@[h].valid == old(self).blocks@[h].valid
                    &&& final(self).blocks@[h].nonce_request == old(
                        self,
                    ).blocks@[h].nonce_request
                    &&& final(self).blocks@[h].block == old(self).blocks@[h].block
                })
                &&& (!old(self).blocks@.contains_key(h) ==> {
                    &&& final(self).blocks@[h].vote is None
                    &&& final(self).blocks@[h].valid is None
                    &&& final(self).blocks@[h].nonce_request is None
                    &&& final(self).blocks@[h].block@ == block@
                })
            }),
            (start matches RoundStart::Dkg { .. } ==> final(self).blocks@ == old(self).blocks@),
            *final(self) == (Signer {
                blocks: final(self).blocks,
                state: final(self).state,
                coordinator_selector: final(self).coordinator_selector,
                ..*old(self)
            }),
            final(self).coordinator_selector == (Selector {
                last_message_time: Some(now_ms),
                ..old(self).coordinator_selector
            }),
    {
        match start {
            RoundStart::Sign { block, .. } => {
                let hash = clone_bytes(&block.signer_signature_hash);
                let mut block_info = match self.blocks.remove(&hash) {
                    Some(bi) => bi,
                    None => BlockInfo::new(block.duplicate()),
                };
                block_info.signed_over = true;
                proof {
                    assert(block_info.wf());
                }
                self.blocks.insert(hash, block_info);
            },
            RoundStart::Dkg { .. } => {},
        }
        self.update_operation(now_ms);
    }
}

} // verus!
