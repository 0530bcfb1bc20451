//! The circuit-side conformance checker: a finished circuit instance is
//! re-examined purely from the data it carries — roots are re-derived from
//! leaf contents and audit paths, pubdata chunks are re-read from the block's
//! pubdata blob, the commitment is re-hashed — with no tolerance for
//! mismatch. It is the test-context stand-in for the proving circuit.

use vstd::prelude::*;
use vstd::arithmetic::power2::lemma2_to64;
use crate::account::{
    leaf_hash_parts, mix_leaf_parts, account_leaf_hash, balance_leaf_hashes, balance_root,
    EMPTY_LEAF_HASH, N_TOKENS, BALANCE_TREE_DEPTH,
};
use crate::hash::{hash_u128, mix_u128, hash_bytes_seq, hash_bytes};
use crate::merkle::{recompute_path, fold_path, path_spec, lemma_path_recovers_root};
use crate::tree::{
    AccountLeafView, AccountLeafViewV, LedgerV, ledger_wf, leaf_view_spec, leaf_hashes,
    balances_or_empty, tree_root_spec, ACCOUNT_TREE_DEPTH,
};
use crate::witness::{CircuitOperation, chunk_value, PUBDATA_FRAGMENT_WIDTH, CHUNKS_PER_OP};

verus! {

/// The root hash a leaf's audit view implies: its balance leaf hashed up the
/// balance path gives the balance root, the account leaf built from the
/// captured contents (or the empty-leaf constant) is hashed up the account
/// path.
pub open spec fn leaf_root_recomputed(w: AccountLeafViewV, id: nat, token: nat) -> u64 {
    let bal_root = recompute_path(hash_u128(w.balance), token, w.balance_path);
    let leaf = match w.account {
        Option::None => EMPTY_LEAF_HASH,
        Option::Some(c) => leaf_hash_parts(c.address, c.pub_key_hash, c.nonce, bal_root),
    };
    recompute_path(leaf, id, w.account_path)
}

/// Computes `leaf_root_recomputed`.
pub fn recompute_leaf_root(w: &AccountLeafView, id: u32, token: u16) -> (r: u64)
    ensures
        r == leaf_root_recomputed(w@, id as nat, token as nat),
{
    let bal_leaf = mix_u128(w.balance);
    let bal_root = fold_path(bal_leaf, token as u64, &w.balance_path);
    let leaf = match &w.account {
        Option::None => EMPTY_LEAF_HASH,
        Option::Some(c) => mix_leaf_parts(c.address, c.pub_key_hash, c.nonce, bal_root),
    };
    fold_path(leaf, id as u64, &w.account_path)
}

/// Soundness of captured leaf views: re-deriving the root from the contents
/// and audit paths `get_leaf` captures yields exactly the ledger's root hash
/// — for occupied and vacant slots alike.
pub proof fn lemma_leaf_view_recovers_root(s: LedgerV, id: int, token: int)
    requires
        ledger_wf(s),
        0 <= id < s.len(),
        0 <= token < N_TOKENS,
    ensures
        leaf_root_recomputed(leaf_view_spec(s, id, token), id as nat, token as nat)
            == tree_root_spec(s),
{
    lemma2_to64();
    let balances = balances_or_empty(s[id]);
    assert(s[id] matches Some(a) ==> a.wf());
    assert(balances.len() == N_TOKENS);
    let bal_leaves = balance_leaf_hashes(balances);
    lemma_path_recovers_root(bal_leaves, BALANCE_TREE_DEPTH as nat, token as nat);
    let bal_root = recompute_path(
        hash_u128(balances[token]),
        token as nat,
        path_spec(bal_leaves, BALANCE_TREE_DEPTH as nat, token as nat),
    );
    assert(bal_leaves[token] == hash_u128(balances[token]));
    assert(bal_root == balance_root(balances));
    let leaves = leaf_hashes(s);
    assert(leaves[id] == account_leaf_hash(s[id]));
    lemma_path_recovers_root(leaves, ACCOUNT_TREE_DEPTH as nat, id as nat);
}

/// The finished, immutable bundle of one block: root-hash timeline, ordered
/// circuit operations, the concatenated pubdata blob with its commitment,
/// and the fee account's audit view after fee collection.
pub struct CircuitInstance {
    pub initial_root: u64,
    pub block_size: usize,
    pub fee_account_id: u32,
    pub roots: Vec<u64>,
    pub root_after_fees: u64,
    pub operations: Vec<CircuitOperation>,
    pub pubdata: Vec<u8>,
    pub pubdata_commitment: u64,
    pub fee_account_witness: AccountLeafView,
}

/// Mathematical content of `CircuitInstance`.
pub ghost struct CircuitInstanceV {
    pub initial_root: u64,
    pub block_size: usize,
    pub fee_account_id: u32,
    pub roots: Seq<u64>,
    pub root_after_fees: u64,
    pub operations: Seq<CircuitOperation>,
    pub pubdata: Seq<u8>,
    pub pubdata_commitment: u64,
    pub fee_account_witness: AccountLeafViewV,
}

impl View for CircuitInstance {
    type V = CircuitInstanceV;

    open spec fn view(&self) -> CircuitInstanceV {
        CircuitInstanceV {
            initial_root: self.initial_root,
            block_size: self.block_size,
            fee_account_id: self.fee_account_id,
            roots: self.roots@,
            root_after_fees: self.root_after_fees,
            operations: self.operations@,
            pubdata: self.pubdata@,
            pubdata_commitment: self.pubdata_commitment,
            fee_account_witness: self.fee_account_witness@,
        }
    }
}

/// What the conformance checker holds an instance to: full-capacity pubdata,
/// a commitment that re-hashes, a fee-account audit view whose recomputed
/// root is exactly the recorded root after fees, and chunk values that
/// re-read from the pubdata blob.
pub open spec fn circuit_ok(c: CircuitInstanceV) -> bool {
    &&& c.pubdata.len() == PUBDATA_FRAGMENT_WIDTH * c.block_size
    &&& c.pubdata_commitment == hash_bytes_seq(c.pubdata)
    &&& c.fee_account_witness.root == c.root_after_fees
    &&& leaf_root_recomputed(c.fee_account_witness, c.fee_account_id as nat, 0)
        == c.root_after_fees
    &&& c.operations.len() * 8 <= c.pubdata.len()
    &&& forall|j: int|
        0 <= j < c.operations.len() ==> (#[trigger] c.operations[j]).chunk == (j % (
        CHUNKS_PER_OP as int)) as u8 && c.operations[j].pubdata_chunk == chunk_value(c.pubdata, j)
}

/// Re-derives every recorded value of a circuit instance and reports whether
/// all of them check out.
pub fn check_circuit(c: &CircuitInstance) -> (r: bool)
    ensures
        r == circuit_ok(c@),
{
    if (c.pubdata.len() as u128) != (PUBDATA_FRAGMENT_WIDTH as u128) * (c.block_size as u128) {
        return false;
    }
    let commitment = hash_bytes(&c.pubdata);
    if commitment != c.pubdata_commitment {
        return false;
    }
    if c.fee_account_witness.root != c.root_after_fees {
        return false;
    }
    let fee_root = recompute_leaf_root(&c.fee_account_witness, c.fee_account_id, 0);
    if fee_root != c.root_after_fees {
        return false;
    }
    if (c.operations.len() as u128) * 8 > (c.pubdata.len() as u128) {
        return false;
    }
    let mut j: usize = 0;
    while j < c.operations.len()
        invariant
            j <= c.operations@.len(),
            c.operations@.len() * 8 <= c.pubdata@.len(),
            c.pubdata@.len() <= usize::MAX,
            forall|i: int|
                0 <= i < j ==> (#[trigger] c.operations@[i]).chunk == (i % (
                CHUNKS_PER_OP as int)) as u8 && c.operations@[i].pubdata_chunk == chunk_value(
                    c.pubdata@,
                    i,
                ),
        decreases c.operations@.len() - j,
    {
        let entry = c.operations[j];
        if entry.chunk != (j % CHUNKS_PER_OP) as u8 {
            return false;
        }
        let value = crate::witness::compute_chunk(&c.pubdata, j);
        if entry.pubdata_chunk != value {
            return false;
        }
        j = j + 1;
    }
    true
}

} // verus!
