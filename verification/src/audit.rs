//! The signer-side audit: filtering peers' vote transactions and checking
//! that a proposed block carries every admitted one.

use vstd::prelude::*;

use crate::blocks::Block;
use crate::engine::Signer;
use crate::messages::{BlockRejection, RejectCode};
use crate::transactions::{spec_tx_admitted, verify_payload, SignerTransaction, TxChainFacts};
use crate::types::{bytes_eq, clone_bytes, AddressV};

verus! {

/// The signer id registered for an address, if any.
pub open spec fn spec_origin_id(addresses: Map<AddressV, u32>, origin: AddressV) -> Option<u32> {
    if addresses.contains_key(origin) {
        Some(addresses[origin])
    } else {
        None
    }
}

/// The admitted transactions of a candidate list, in order.
pub open spec fn spec_filtered(
    s: Seq<(SignerTransaction, TxChainFacts)>,
    addresses: Map<AddressV, u32>,
    mainnet: bool,
) -> Seq<SignerTransaction>
    decreases s.len(),
{
    if s.len() == 0 {
        Seq::empty()
    } else {
        let prefix = spec_filtered(s.drop_last(), addresses, mainnet);
        let (tx, facts) = s.last();
        if spec_tx_admitted(tx, spec_origin_id(addresses, tx.origin_address@), mainnet, facts) {
            prefix.push(tx)
        } else {
            prefix
        }
    }
}

/// The expected transactions that the block does not carry, in order.
pub open spec fn spec_missing(expected: Seq<SignerTransaction>, tx_ids: Seq<Seq<u8>>) -> Seq<
    SignerTransaction,
>
    decreases expected.len(),
{
    if expected.len() == 0 {
        Seq::empty()
    } else {
        let prefix = spec_missing(expected.drop_last(), tx_ids);
        if tx_ids.contains(expected.last().txid@) {
            prefix
        } else {
            prefix.push(expected.last())
        }
    }
}

/// Whether the list holds a byte string equal to `id`.
pub fn ids_contain_bytes(v: &Vec<Vec<u8>>, id: &Vec<u8>) -> (r: bool)
    ensures
        r == v.deep_view().contains(id@),
{
    let n = v.len();
    let mut i: usize = 0;
    while i < n
        invariant
            n == v@.len(),
            i <= n,
            forall|j: int| 0 <= j < i ==> v@[j]@ != id@,
        decreases n - i,
    {
        if bytes_eq(&v[i], id) {
            proof {
                assert(v.deep_view()[i as int] == id@);
            }
            return true;
        }
        i = i + 1;
    }
    proof {
        if v.deep_view().contains(id@) {
            let j = choose|j: int| 0 <= j < v.deep_view().len() && v.deep_view()[j] == id@;
            assert(v@[j]@ == id@);
        }
    }
    false
}

/// The outcome of auditing a block's transactions.
pub struct AuditOutcome {
    /// Whether the block carries every expected transaction.
    pub is_valid: bool,
    /// The rejection to broadcast when it does not, or when the expected
    /// set could not be read at all.
    pub rejection: Option<BlockRejection>,
}

impl Signer {
    /// Judges one harvested transaction: admitted exactly under
    /// [`spec_tx_admitted`], with the origin's signer id looked up among
    /// the registered signers.
    pub fn verify_signer_transaction(&self, tx: SignerTransaction, facts: &TxChainFacts) -> (r:
        Option<SignerTransaction>)
        requires
            self.inv(),
        ensures
            r matches Some(t) ==> t == tx,
            (r is Some) == spec_tx_admitted(
                tx,
                spec_origin_id(self.signer_address_ids@, tx.origin_address@),
                self.mainnet,
                *facts,
            ),
    {
        let origin_signer_id: u32 = match self.signer_address_ids.get(&tx.origin_address) {
            Some(id) => *id,
            None => {
                return None;
            },
        };
        let account_nonce: u64 = match facts.account_nonce {
            Some(n) => n,
            None => {
                return None;
            },
        };
        if tx.origin_nonce < account_nonce {
            return None;
        }
        if tx.mainnet != self.mainnet {
            return None;
        }
        let valid = match verify_payload(&tx, origin_signer_id, self.mainnet, facts) {
            Ok(v) => v,
            Err(_) => {
                return None;
            },
        };
        if !valid {
            return None;
        }
        Some(tx)
    }

    /// Filters a harvested candidate list down to the admitted
    /// transactions, keeping their order.
    pub fn get_filtered_transactions(
        &self,
        candidates: Vec<(SignerTransaction, TxChainFacts)>,
    ) -> (r: Vec<SignerTransaction>)
        requires
            self.inv(),
        ensures
            r@ == spec_filtered(candidates@, self.signer_address_ids@, self.mainnet),
    {
        let mut rest = candidates;
        let ghost all = rest@;
        let mut out: Vec<SignerTransaction> = Vec::new();
        let ghost mut i: int = 0;
        while rest.len() > 0
            invariant
                self.inv(),
                0 <= i <= all.len(),
                rest@ == all.subrange(i, all.len() as int),
                out@ == spec_filtered(all.take(i), self.signer_address_ids@, self.mainnet),
            decreases rest@.len(),
        {
            let (tx, facts) = rest.remove(0);
            proof {
                assert(all.take(i + 1).drop_last() =~= all.take(i));
                assert(all.take(i + 1).last() == all[i]);
                assert(rest@ =~= all.subrange(i + 1, all.len() as int));
            }
            match self.verify_signer_transaction(tx, &facts) {
                Some(tx) => {
                    out.push(tx);
                },
                None => {},
            }
            proof {
                i = i + 1;
            }
        }
        proof {
            assert(all.take(all.len() as int) =~= all);
        }
        out
    }

    /// Audits a block against the expected transactions: valid exactly when
    /// none is missing. `expected` is `None` when the expected set could
    /// not be read, which rejects the block for connectivity reasons.
    pub fn verify_block_transactions(
        &self,
        block: &Block,
        expected: Option<Vec<(SignerTransaction, TxChainFacts)>>,
    ) -> (r: AuditOutcome)
        requires
            self.inv(),
        ensures
            (match expected {
                None => {
                    &&& !r.is_valid
                    &&& r.rejection matches Some(rej)
                    &&& rej.signer_signature_hash@ == block.signer_signature_hash@
                    &&& rej.reason_code is ConnectivityIssues
                },
                Some(candidates) => {
                    let missing = spec_missing(
                        spec_filtered(candidates@, self.signer_address_ids@, self.mainnet),
                        block@.tx_ids,
                    );
                    &&& r.is_valid == (missing.len() == 0)
                    &&& (r.is_valid ==> r.rejection is None)
                    &&& (!r.is_valid ==> {
                        &&& r.rejection matches Some(rej)
                        &&& rej.signer_signature_hash@ == block.signer_signature_hash@
                        &&& rej.reason_code matches RejectCode::MissingTransactions(txs)
                            && txs@ == missing
                    })
                },
            }),
    {
        let candidates = match expected {
            Some(c) => c,
            None => {
                // Without the bulletin there is nothing to audit against;
                // reject so that peers see the connectivity trouble.
                return AuditOutcome {
                    is_valid: false,
                    rejection: Some(
                        BlockRejection {
                            signer_signature_hash: clone_bytes(&block.signer_signature_hash),
                            reason_code: RejectCode::ConnectivityIssues,
                        },
                    ),
                };
            },
        };
        let ghost candidate_seq = candidates@;
        let expected_txs = self.get_filtered_transactions(candidates);
        let ghost expected_seq = expected_txs@;
        let mut missing: Vec<SignerTransaction> = Vec::new();
        let mut rest = expected_txs;
        let ghost mut i: int = 0;
        while rest.len() > 0
            invariant
                0 <= i <= expected_seq.len(),
                rest@ == expected_seq.subrange(i, expected_seq.len() as int),
                missing@ == spec_missing(expected_seq.take(i), block@.tx_ids),
                block@.tx_ids == block.tx_ids.deep_view(),
            decreases rest@.len(),
        {
            let tx = rest.remove(0);
            proof {
                assert(expected_seq.take(i + 1).drop_last() =~= expected_seq.take(i));
                assert(expected_seq.take(i + 1).last() == expected_seq[i]);
                assert(rest@ =~= expected_seq.subrange(i + 1, expected_seq.len() as int));
            }
            if !ids_contain_bytes(&block.tx_ids, &tx.txid) {
                missing.push(tx);
            }
            proof {
                i = i + 1;
            }
        }
        proof {
            assert(expected_seq.take(expected_seq.len() as int) =~= expected_seq);
        }
        if missing.len() == 0 {
            AuditOutcome { is_valid: true, rejection: None }
        } else {
            AuditOutcome {
                is_valid: false,
                rejection: Some(
                    BlockRejection {
                        signer_signature_hash: clone_bytes(&block.signer_signature_hash),
                        reason_code: RejectCode::MissingTransactions(missing),
                    },
                ),
            }
        }
    }
}

} // verus!
