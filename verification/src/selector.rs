//! The coordinator selector: a deterministic rotation over the cycle's
//! ordered coordinator candidates, driven by the time elapsed since the
//! engine last saw progress in an operation.

use vstd::prelude::*;

use crate::types::{clone_bytes, CoordinatorMetadata};

verus! {

/// The ordered coordinator candidates for a reward cycle, their public
/// keys, the local signer's chain-view token, and the progress clock.
pub struct Selector {
    /// Candidate signer ids, in rotation order.
    pub coordinator_ids: Vec<u32>,
    /// The candidates' public keys, aligned with `coordinator_ids`.
    pub coordinator_keys: Vec<Vec<u8>>,
    /// The local signer's latest chain-view token.
    pub coordinator_metadata: CoordinatorMetadata,
    /// When the engine last saw progress in an operation, in milliseconds.
    pub last_message_time: Option<u64>,
    /// How long a candidate keeps the role without progress, in milliseconds.
    pub operation_timeout_ms: u64,
}

impl Selector {
    /// Non-empty aligned candidate lists and a positive rotation window.
    pub open spec fn wf(&self) -> bool {
        &&& self.coordinator_ids@.len() > 0
        &&& self.coordinator_ids@.len() == self.coordinator_keys@.len()
        &&& self.operation_timeout_ms > 0
    }

    /// How many whole timeout windows have passed without progress.
    pub open spec fn spec_rotations(&self, now_ms: u64) -> int {
        match self.last_message_time {
            None => 0int,
            Some(last) => if now_ms >= last {
                (now_ms - last) / (self.operation_timeout_ms as int)
            } else {
                0int
            },
        }
    }

    /// The position of the current coordinator in the candidate order.
    pub open spec fn spec_coordinator_index(&self, now_ms: u64) -> int {
        self.spec_rotations(now_ms) % (self.coordinator_ids@.len() as int)
    }

    /// The id of the current coordinator.
    pub open spec fn spec_coordinator_id(&self, now_ms: u64) -> u32 {
        self.coordinator_ids@[self.spec_coordinator_index(now_ms)]
    }

    /// Returns the current coordinator's id and public key: the candidate
    /// reached after one rotation step per elapsed timeout window, ties
    /// broken by position.
    pub fn get_coordinator(&self, now_ms: u64) -> (r: (u32, Vec<u8>))
        requires
            self.wf(),
        ensures
            r.0 == self.spec_coordinator_id(now_ms),
            r.1@ == self.coordinator_keys@[self.spec_coordinator_index(now_ms)]@,
    {
        let rotations: u64 = match self.last_message_time {
            None => 0u64,
            Some(last) => {
                if now_ms >= last {
                    (now_ms - last) / self.operation_timeout_ms
                } else {
                    0u64
                }
            },
        };
        let len: u64 = self.coordinator_ids.len() as u64;
        let index: usize = (rotations % len) as usize;
        proof {
            assert(self.coordinator_ids@.len() <= usize::MAX);
            assert(0 <= self.spec_coordinator_index(now_ms) < self.coordinator_ids@.len());
        }
        (self.coordinator_ids[index], clone_bytes(&self.coordinator_keys[index]))
    }
}

} // verus!
