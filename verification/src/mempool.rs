//! Atomic block elements as the mempool hands them over: a single signed
//! transaction, or a batch that must be executed together.

use vstd::prelude::*;
use crate::ops::FranklinOp;

verus! {

/// Hash identifying one signed transaction.
#[derive(Clone, Copy, PartialEq, Eq, Structural, Debug)]
pub struct TxHash {
    pub data: u64,
}

/// A signed layer-2 transaction: its operation content and its hash.
pub struct SignedFranklinTx {
    pub tx: FranklinOp,
    pub tx_hash: TxHash,
}

impl SignedFranklinTx {
    /// The transaction's hash.
    pub fn hash(&self) -> (h: TxHash)
        ensures
            h == self.tx_hash,
    {
        self.tx_hash
    }
}

/// A collection of transactions that must be executed together: all included
/// in the same block, succeeding or failing as one.
pub struct SignedTxsBatch {
    pub txs: Vec<SignedFranklinTx>,
    pub batch_id: i64,
}

/// A wrapper around possible atomic block elements: either a single
/// transaction or a transactions batch.
pub enum SignedTxVariant {
    Tx(SignedFranklinTx),
    Batch(SignedTxsBatch),
}

/// The hashes an atomic element contributes, in order.
pub open spec fn hashes_spec(v: &SignedTxVariant) -> Seq<TxHash> {
    match v {
        SignedTxVariant::Tx(tx) => seq![tx.tx_hash],
        SignedTxVariant::Batch(batch) => Seq::new(
            batch.txs@.len(),
            |i: int| batch.txs@[i].tx_hash,
        ),
    }
}

impl SignedTxVariant {
    /// Wraps a list of transactions as one batch.
    pub fn batch(txs: Vec<SignedFranklinTx>, batch_id: i64) -> (v: SignedTxVariant)
        ensures
            v matches SignedTxVariant::Batch(b) && b.txs@ == txs@ && b.batch_id == batch_id,
    {
        SignedTxVariant::Batch(SignedTxsBatch { txs, batch_id })
    }

    /// The hashes of all transactions this element carries.
    pub fn hashes(&self) -> (r: Vec<TxHash>)
        ensures
            r@ == hashes_spec(self),
    {
        match self {
            SignedTxVariant::Tx(tx) => {
                let mut r: Vec<TxHash> = Vec::new();
                r.push(tx.hash());
                proof {
                    assert(r@ =~= hashes_spec(self));
                }
                r
            },
            SignedTxVariant::Batch(batch) => {
                let mut r: Vec<TxHash> = Vec::new();
                let mut i: usize = 0;
                while i < batch.txs.len()
                    invariant
                        i <= batch.txs@.len(),
                        r@.len() == i,
                        forall|k: int| 0 <= k < i ==> r@[k] == batch.txs@[k].tx_hash,
                    decreases batch.txs@.len() - i,
                {
                    r.push(batch.txs[i].hash());
                    i = i + 1;
                }
                proof {
                    assert(r@ =~= hashes_spec(self));
                }
                r
            },
        }
    }
}

impl From<SignedFranklinTx> for SignedTxVariant {
    /// A single transaction is itself an atomic element.
    fn from(tx: SignedFranklinTx) -> (v: SignedTxVariant) {
        SignedTxVariant::Tx(tx)
    }
}

impl vstd::std_specs::convert::FromSpecImpl<SignedFranklinTx> for SignedTxVariant {
    open spec fn obeys_from_spec() -> bool {
        true
    }

    open spec fn from_spec(tx: SignedFranklinTx) -> SignedTxVariant {
        SignedTxVariant::Tx(tx)
    }
}

} // verus!
