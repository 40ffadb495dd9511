//! Peer chain-view reconciliation: the NACK policy, the threshold formula,
//! and the duplicate-free sender sets kept per chain-view token.

use vstd::prelude::*;

use crate::engine::Signer;
use crate::messages::NackMessage;
use crate::types::{bytes_eq, CoordinatorMetadata, MetadataV};

verus! {

/// The local policy for reacting to NACKs about a stale chain view.
#[derive(Clone, Copy, Debug, PartialEq, Eq)]
pub struct StaleNodeNackPolicy {
    /// Percentage of all signers whose NACKs trigger a back-off, 0 to 100.
    pub nack_threshold_percent: u8,
    /// How long the triggered back-off lasts, in milliseconds.
    pub back_off_duration_ms: u64,
}

/// Computes the number of inbound NACK messages that triggers a back-off
/// delay, as a percentage of the total number of signers, rounded down.
pub fn get_nack_threshold(total_signers: u32, nack_threshold_percent: u8) -> (t: u32)
    requires
        nack_threshold_percent <= 100,
    ensures
        t == total_signers * nack_threshold_percent / 100,
{
    proof {
        assert((total_signers as u64) * (nack_threshold_percent as u64) <= (u32::MAX as u64) * 100
            && total_signers * nack_threshold_percent / 100 <= u32::MAX) by (nonlinear_arith)
            requires
                total_signers <= u32::MAX,
                nack_threshold_percent <= 100,
        ;
    }
    let wide: u64 = (total_signers as u64) * (nack_threshold_percent as u64) / 100;
    wide as u32
}

/// No id occurs twice.
pub open spec fn ids_unique(s: Seq<u32>) -> bool {
    forall|i: int, j: int| 0 <= i < j < s.len() ==> s[i] != s[j]
}

/// Whether the list holds the id.
pub fn ids_contain(v: &Vec<u32>, id: u32) -> (r: bool)
    ensures
        r == v@.contains(id),
{
    let n = v.len();
    let mut i: usize = 0;
    while i < n
        invariant
            n == v@.len(),
            i <= n,
            forall|j: int| 0 <= j < i ==> v@[j] != id,
        decreases n - i,
    {
        if v[i] == id {
            return true;
        }
        i = i + 1;
    }
    false
}

/// Adds the id unless already present; keeps the list duplicate-free.
pub fn ids_insert(v: &mut Vec<u32>, id: u32) -> (added: bool)
    requires
        ids_unique(old(v)@),
    ensures
        ids_unique(final(v)@),
        added == !old(v)@.contains(id),
        added ==> final(v)@ == old(v)@.push(id),
        !added ==> final(v)@ == old(v)@,
        final(v)@.contains(id),
        final(v)@.len() == old(v)@.len() + (if added {
            1int
        } else {
            0int
        }),
{
    if ids_contain(v, id) {
        false
    } else {
        v.push(id);
        proof {
            assert(v@[v@.len() - 1] == id);
        }
        true
    }
}

/// Exactly what comparing the local chain view against a packet sender's
/// changes and emits: only the sent registry moves; agreement or a local
/// lag yields nothing; otherwise the registry — cleared first if it tracked
/// an older local view — gains the sender under the local view, and a NACK
/// for the sender goes out unless one was already recorded for this pair.
pub open spec fn consensus_view_post(
    pre: Signer,
    post: Signer,
    current: MetadataV,
    sender: MetadataV,
    sender_id: u32,
    r: Option<NackMessage>,
) -> bool {
    &&& post == (Signer { nack_messages_sent: post.nack_messages_sent, ..pre })
    &&& ((current.pox_consensus_hash == sender.pox_consensus_hash) ==> r is None
        && post.nack_messages_sent@ == pre.nack_messages_sent@)
    &&& ((current.pox_consensus_hash != sender.pox_consensus_hash && current.burn_block_height
        < sender.burn_block_height) ==> r is None && post.nack_messages_sent@
        == pre.nack_messages_sent@)
    &&& ((current.pox_consensus_hash != sender.pox_consensus_hash && current.burn_block_height
        >= sender.burn_block_height) ==> {
        let base = if pre.nack_messages_sent@.contains_key(current) {
            pre.nack_messages_sent@
        } else {
            Map::<MetadataV, Vec<u32>>::empty()
        };
        let prior = if base.contains_key(current) {
            base[current]@
        } else {
            Seq::<u32>::empty()
        };
        &&& post.nack_messages_sent@.contains_key(current)
        &&& post.nack_messages_sent@ == base.insert(current, post.nack_messages_sent@[current])
        &&& (prior.contains(sender_id) ==> r is None && post.nack_messages_sent@[current]@
            == prior)
        &&& (!prior.contains(sender_id) ==> {
            &&& post.nack_messages_sent@[current]@ == prior.push(sender_id)
            &&& r matches Some(n)
            &&& n.sender_signer_id == pre.signer_id
            &&& n.target_signer_id == sender_id
            &&& n.coordinator_metadata@ == current
        })
    })
}

/// Exactly what recording one inbound NACK changes: only the received
/// registry and the back-off state move; a NACK not aimed at this signer,
/// or from a view no newer than the local one, changes nothing; otherwise
/// the sender joins the set for that view, and the back-off window starts
/// exactly when the set's size reaches the configured threshold.
pub open spec fn nack_message_post(
    pre: Signer,
    post: Signer,
    nack: NackMessage,
    current: MetadataV,
    policy: StaleNodeNackPolicy,
    now_ms: u64,
) -> bool {
    &&& post == (Signer {
        nack_messages_received: post.nack_messages_received,
        apply_back_off_delay: post.apply_back_off_delay,
        back_off_until: post.back_off_until,
        ..pre
    })
    &&& (!(nack.target_signer_id == pre.signer_id && nack.coordinator_metadata@.burn_block_height
        > current.burn_block_height) ==> post.nack_messages_received@
        == pre.nack_messages_received@ && post.apply_back_off_delay == pre.apply_back_off_delay
        && post.back_off_until == pre.back_off_until)
    &&& ((nack.target_signer_id == pre.signer_id && nack.coordinator_metadata@.burn_block_height
        > current.burn_block_height) ==> {
        let m = nack.coordinator_metadata@;
        let prior = if pre.nack_messages_received@.contains_key(m) {
            pre.nack_messages_received@[m]@
        } else {
            Seq::<u32>::empty()
        };
        let next = if prior.contains(nack.sender_signer_id) {
            prior
        } else {
            prior.push(nack.sender_signer_id)
        };
        &&& post.nack_messages_received@.contains_key(m)
        &&& post.nack_messages_received@[m]@ == next
        &&& post.nack_messages_received@ == pre.nack_messages_received@.insert(
            m,
            post.nack_messages_received@[m],
        )
        &&& (match pre.nack_threshold {
            Some(t) => {
                if next.len() >= t {
                    &&& post.apply_back_off_delay
                    &&& post.back_off_until matches Some(u)
                    &&& u == (if now_ms + policy.back_off_duration_ms > u64::MAX {
                        u64::MAX as int
                    } else {
                        now_ms + policy.back_off_duration_ms
                    })
                } else {
                    &&& post.apply_back_off_delay == pre.apply_back_off_delay
                    &&& post.back_off_until == pre.back_off_until
                }
            },
            None => post.apply_back_off_delay == pre.apply_back_off_delay
                && post.back_off_until == pre.back_off_until,
        })
    })
}

impl Signer {
    /// Compares the local chain-view token against a packet sender's. When
    /// the consensus hashes agree, or the sender is ahead, nothing happens.
    /// When the local view is at least as high, a NACK carrying the local
    /// token is returned for the sender — at most once per (local token,
    /// sender) pair — and, on a change of local token, the record of
    /// earlier NACKs is dropped first, so the sent registry never tracks
    /// more than the current local view.
    pub fn process_signer_consensus_hash_view(
        &mut self,
        current: &CoordinatorMetadata,
        sender: &CoordinatorMetadata,
        sender_id: u32,
    ) -> (r: Option<NackMessage>)
        requires
            old(self).inv(),
        ensures
            final(self).inv(),
            consensus_view_post(*old(self), *final(self), current@, sender@, sender_id, r),
    {
        if bytes_eq(&current.pox_consensus_hash, &sender.pox_consensus_hash) {
            return None;
        }
        if current.burn_block_height < sender.burn_block_height {
            // The local node lags the sender; the sender will hear nothing
            // from us, and our own node has catching up to do.
            return None;
        }
        if !self.nack_messages_sent.contains_key(current) {
            // The local view moved on; NACKs recorded for the old view are
            // obsolete.
            self.nack_messages_sent.clear();
        }
        let ghost base = self.nack_messages_sent@;
        let mut ids: Vec<u32> = match self.nack_messages_sent.remove(current) {
            Some(v) => v,
            None => Vec::new(),
        };
        let added = ids_insert(&mut ids, sender_id);
        self.nack_messages_sent.insert(current.duplicate(), ids);
        proof {
            assert(final(self).nack_messages_sent@ =~= base.insert(
                current@,
                final(self).nack_messages_sent@[current@],
            ));
        }
        if added {
            Some(NackMessage {
                sender_signer_id: self.signer_id,
                target_signer_id: sender_id,
                coordinator_metadata: current.duplicate(),
            })
        } else {
            None
        }
    }

    /// Records an inbound NACK aimed at this signer from a peer whose chain
    /// view is ahead of the local one, and starts the back-off window once
    /// the count of distinct complaining peers for that view reaches the
    /// configured threshold.
    pub fn process_nack_message(
        &mut self,
        nack: &NackMessage,
        current: &CoordinatorMetadata,
        policy: &StaleNodeNackPolicy,
        now_ms: u64,
    )
        requires
            old(self).inv(),
        ensures
            final(self).inv(),
            nack_message_post(*old(self), *final(self), *nack, current@, *policy, now_ms),
    {
        if !(nack.target_signer_id == self.signer_id
            && nack.coordinator_metadata.burn_block_height > current.burn_block_height) {
            return ;
        }
        let mut ids: Vec<u32> = match self.nack_messages_received.remove(
            &nack.coordinator_metadata,
        ) {
            Some(v) => v,
            None => Vec::new(),
        };
        let _ = ids_insert(&mut ids, nack.sender_signer_id);
        let count = ids.len();
        self.nack_messages_received.insert(nack.coordinator_metadata.duplicate(), ids);
        proof {
            assert(self.nack_messages_received@ =~= old(self).nack_messages_received@.insert(
                nack.coordinator_metadata@,
                self.nack_messages_received@[nack.coordinator_metadata@],
            ));
        }
        if let Some(threshold) = self.nack_threshold {
            if count >= threshold as usize {
                // Enough peers hold a newer view: pause coordinating until
                // the window ends, so a stale coordinator cannot stall the
                // set.
                self.apply_back_off_delay = true;
                self.back_off_until = Some(now_ms.saturating_add(policy.back_off_duration_ms));
            }
        }
    }

    /// Clears the NACK back-off state once its window has elapsed, letting
    /// key generation and signing proceed again.
    pub fn reset_nack_back_off(&mut self, now_ms: u64)
        requires
            old(self).inv(),
        ensures
            final(self).inv(),
            *final(self) == (Signer {
                nack_messages_received: final(self).nack_messages_received,
                apply_back_off_delay: final(self).apply_back_off_delay,
                back_off_until: final(self).back_off_until,
                ..*old(self)
            }),
            (old(self).apply_back_off_delay && (old(self).back_off_until matches Some(u) && u
                <= now_ms)) ==> {
                &&& !final(self).apply_back_off_delay
                &&& final(self).back_off_until is None
                &&& final(self).nack_messages_received@ == Map::<MetadataV, Vec<u32>>::empty()
            },
            !(old(self).apply_back_off_delay && (old(self).back_off_until matches Some(u) && u
                <= now_ms)) ==> final(self).apply_back_off_delay == old(self).apply_back_off_delay && final(self).back_off_until == old(self).back_off_until
                && final(self).nack_messages_received@ == old(self).nack_messages_received@,
    {
        let expired = match self.back_off_until {
            Some(until) => until <= now_ms,
            None => false,
        };
        if self.apply_back_off_delay && expired {
            self.back_off_until = None;
            self.apply_back_off_delay = false;
            self.nack_messages_received.clear();
        }
    }
}

/// The sent-NACK registry tracks at most one chain view: any two tokens it
/// holds are the same.
pub proof fn law_nack_sent_single_view(s: &Signer)
    requires
        s.inv(),
    ensures
        forall|m1: MetadataV, m2: MetadataV|
            s.nack_messages_sent@.contains_key(m1) && s.nack_messages_sent@.contains_key(m2)
                ==> m1 == m2,
{
    s.nack_messages_sent.lemma_len_dom();
}

/// A back-off deadline exists exactly while the back-off is in force: the
/// engine's refusal to open rounds and the window's end always travel
/// together.
pub proof fn law_back_off_window(s: &Signer)
    requires
        s.inv(),
    ensures
        s.apply_back_off_delay <==> s.back_off_until is Some,
{
}

/// Until a back-off is in force, no recorded chain view has gathered NACKs
/// from as many distinct peers as the configured threshold; as soon as one
/// does, the back-off is in force.
pub proof fn law_back_off_at_threshold(s: &Signer, t: u32)
    requires
        s.inv(),
        s.nack_threshold == Some(t),
    ensures
        !s.apply_back_off_delay ==> forall|m: MetadataV|
            s.nack_messages_received@.contains_key(m)
                ==> (#[trigger] s.nack_messages_received@[m])@.len() < t,
{
}

} // verus!
