//! The block witness accumulator. It owns the witness-side tree, collects
//! each operation's circuit operations and pubdata fragment in submission
//! order, tracks the root-hash timeline, credits collected fees to the
//! designated fee account, pads unused capacity with canonical no-op
//! fragments, and hands the finished block off as one immutable circuit
//! instance.

use vstd::prelude::*;
use crate::circuit::CircuitInstance;
use crate::hash::{hash_bytes_seq, hash_bytes};
use crate::state::{collect_fees_spec, fees_valid, credit};
use crate::tree::{AccountTree, AccountLeafView, leaf_view_spec, tree_root_spec, N_ACCOUNTS};
use crate::witness::{CircuitOperation, PUBDATA_FRAGMENT_WIDTH};

verus! {

/// Largest supported block capacity; keeps every pubdata length computation
/// inside `usize`.
pub const MAX_BLOCK_SIZE: usize = 0x0010_0000;

/// The all-zero padding appended for `n` unused operation slots: each one a
/// canonical no-op pubdata fragment.
pub open spec fn noop_padding(n: nat) -> Seq<u8> {
    Seq::new(n * PUBDATA_FRAGMENT_WIDTH as nat, |i: int| 0u8)
}

/// Accumulates one block's witnesses. The lifecycle is: accumulating
/// operations, then fee collection (which fixes `root_after_fees`), then the
/// pubdata commitment (which pads and freezes the instance).
pub struct WitnessBuilder {
    /// The witness-side tree; operation generators advance it in place.
    pub account_tree: AccountTree,
    pub fee_account_id: u32,
    /// Operation-slot budget of the block, fixed at construction.
    pub block_size: usize,
    /// Root hash before the first operation.
    pub initial_root: u64,
    /// Root hash after each accumulated operation, in order.
    pub roots: Vec<u64>,
    /// Root hash recorded by fee collection; `None` while accumulating.
    pub root_after_fees: Option<u64>,
    /// Fee account's audit view after fee collection.
    pub fee_account_witness: Option<AccountLeafView>,
    pub operations: Vec<CircuitOperation>,
    pub pubdata: Vec<u8>,
    pub op_count: usize,
    /// Commitment over the padded pubdata; `None` until finalized.
    pub pubdata_commitment: Option<u64>,
}

impl WitnessBuilder {
    /// Internal consistency of the accumulator across its lifecycle.
    pub open spec fn wf(&self) -> bool {
        &&& self.account_tree.wf()
        &&& self.fee_account_id < N_ACCOUNTS
        &&& self.op_count <= self.block_size
        &&& self.block_size <= MAX_BLOCK_SIZE
        &&& if self.pubdata_commitment is Some {
            &&& self.root_after_fees is Some
            &&& self.pubdata@.len() == PUBDATA_FRAGMENT_WIDTH * self.block_size
        } else {
            self.pubdata@.len() == PUBDATA_FRAGMENT_WIDTH * self.op_count
        }
        &&& self.pubdata_commitment is Some ==> self.pubdata_commitment->Some_0
            == hash_bytes_seq(self.pubdata@)
    }

    /// Still accepting operations: fees not yet collected, not committed.
    pub open spec fn accumulating(&self) -> bool {
        self.root_after_fees is None && self.pubdata_commitment is None
    }

    /// A fresh accumulator over the given tree, fee account, and capacity.
    pub fn new(account_tree: AccountTree, fee_account_id: u32, block_size: usize) -> (b:
        WitnessBuilder)
        requires
            account_tree.wf(),
            fee_account_id < N_ACCOUNTS,
            0 < block_size <= MAX_BLOCK_SIZE,
        ensures
            b.wf(),
            b.accumulating(),
            b.account_tree == account_tree,
            b.fee_account_id == fee_account_id,
            b.block_size == block_size,
            b.initial_root == tree_root_spec(account_tree@),
            b.roots@ == Seq::<u64>::empty(),
            b.operations@ == Seq::<CircuitOperation>::empty(),
            b.pubdata@ == Seq::<u8>::empty(),
            b.op_count == 0,
    {
        let initial_root = account_tree.root_hash();
        WitnessBuilder {
            account_tree,
            fee_account_id,
            block_size,
            initial_root,
            roots: Vec::new(),
            root_after_fees: Option::None,
            fee_account_witness: Option::None,
            operations: Vec::new(),
            pubdata: Vec::new(),
            op_count: 0,
            pubdata_commitment: Option::None,
        }
    }

    /// Appends one operation's circuit operations and pubdata fragment, in
    /// strict submission order, and records the tree root it left behind.
    /// Exceeding the block capacity is a construction error and is excluded
    /// by contract.
    pub fn add_operation_with_pubdata(
        &mut self,
        ops: Vec<CircuitOperation>,
        pubdata: Vec<u8>,
    )
        requires
            old(self).wf(),
            old(self).accumulating(),
            old(self).op_count < old(self).block_size,
            pubdata@.len() == PUBDATA_FRAGMENT_WIDTH,
        ensures
            final(self).wf(),
            final(self).accumulating(),
            final(self).account_tree == old(self).account_tree,
            final(self).fee_account_id == old(self).fee_account_id,
            final(self).block_size == old(self).block_size,
            final(self).initial_root == old(self).initial_root,
            final(self).op_count == old(self).op_count + 1,
            final(self).operations@ == old(self).operations@ + ops@,
            final(self).pubdata@ == old(self).pubdata@ + pubdata@,
            final(self).roots@ == old(self).roots@.push(tree_root_spec(old(self).account_tree@)),
            final(self).fee_account_witness == old(self).fee_account_witness,
    {
        let mut ops = ops;
        let mut pubdata = pubdata;
        self.operations.append(&mut ops);
        self.pubdata.append(&mut pubdata);
        let root = self.account_tree.root_hash();
        self.roots.push(root);
        self.op_count = self.op_count + 1;
    }

    /// Credits each collected (token, fee) pair to the designated fee
    /// account, in order, and records the resulting root. An empty list is a
    /// valid no-op credit and still records the root transition.
    pub fn collect_fees(&mut self, fees: &Vec<(u16, u128)>)
        requires
            old(self).wf(),
            old(self).accumulating(),
            fees_valid(old(self).account_tree@, fees@, old(self).fee_account_id as int),
        ensures
            final(self).wf(),
            final(self).account_tree.wf(),
            final(self).account_tree@ == collect_fees_spec(
                old(self).account_tree@,
                fees@,
                old(self).fee_account_id as int,
            ),
            final(self).root_after_fees == Option::Some(
                tree_root_spec(final(self).account_tree@),
            ),
            final(self).fee_account_witness is Some,
            final(self).fee_account_witness->Some_0@ == leaf_view_spec(
                final(self).account_tree@,
                old(self).fee_account_id as int,
                0,
            ),
            final(self).pubdata_commitment is None,
            final(self).fee_account_id == old(self).fee_account_id,
            final(self).block_size == old(self).block_size,
            final(self).initial_root == old(self).initial_root,
            final(self).op_count == old(self).op_count,
            final(self).operations@ == old(self).operations@,
            final(self).pubdata@ == old(self).pubdata@,
            final(self).roots@ == old(self).roots@,
    {
        let ghost s0 = self.account_tree@;
        let mut i: usize = 0;
        proof {
            assert(fees@.skip(0) =~= fees@);
        }
        while i < fees.len()
            invariant
                i <= fees@.len(),
                self.account_tree.wf(),
                self.fee_account_id == old(self).fee_account_id,
                self.block_size == old(self).block_size,
                self.initial_root == old(self).initial_root,
                self.op_count == old(self).op_count,
                self.operations@ == old(self).operations@,
                self.pubdata@ == old(self).pubdata@,
                self.roots@ == old(self).roots@,
                self.root_after_fees == old(self).root_after_fees,
                self.fee_account_witness == old(self).fee_account_witness,
                self.pubdata_commitment == old(self).pubdata_commitment,
                old(self).wf(),
                old(self).accumulating(),
                self.fee_account_id < N_ACCOUNTS,
                fees_valid(self.account_tree@, fees@.skip(i as int), self.fee_account_id as int),
                collect_fees_spec(
                    self.account_tree@,
                    fees@.skip(i as int),
                    self.fee_account_id as int,
                ) == collect_fees_spec(s0, fees@, self.fee_account_id as int),
            decreases fees@.len() - i,
        {
            proof {
                assert(fees@.skip(i as int).drop_first() =~= fees@.skip(i + 1));
                assert(fees@.skip(i as int)[0] == fees@[i as int]);
            }
            let entry = fees[i];
            credit(&mut self.account_tree, self.fee_account_id, entry.0, entry.1);
            i = i + 1;
        }
        proof {
            assert(fees@.skip(fees@.len() as int) =~= Seq::<(u16, u128)>::empty());
        }
        let root = self.account_tree.root_hash();
        self.root_after_fees = Option::Some(root);
        let leaf = self.account_tree.get_leaf(self.fee_account_id, 0);
        self.fee_account_witness = Option::Some(leaf);
    }

    /// Pads the block's pubdata with canonical no-op fragments up to the full
    /// capacity — the total is always `block_size * PUBDATA_FRAGMENT_WIDTH` —
    /// and commits to it. From here on the accumulator is immutable.
    pub fn calculate_pubdata_commitment(&mut self)
        requires
            old(self).wf(),
            old(self).root_after_fees is Some,
            old(self).pubdata_commitment is None,
        ensures
            final(self).wf(),
            final(self).pubdata@ == old(self).pubdata@ + noop_padding(
                (old(self).block_size - old(self).op_count) as nat,
            ),
            final(self).pubdata@.len() == PUBDATA_FRAGMENT_WIDTH * final(self).block_size,
            final(self).pubdata_commitment == Option::Some(hash_bytes_seq(final(self).pubdata@)),
            final(self).account_tree == old(self).account_tree,
            final(self).fee_account_id == old(self).fee_account_id,
            final(self).block_size == old(self).block_size,
            final(self).initial_root == old(self).initial_root,
            final(self).op_count == old(self).op_count,
            final(self).operations@ == old(self).operations@,
            final(self).roots@ == old(self).roots@,
            final(self).root_after_fees == old(self).root_after_fees,
            final(self).fee_account_witness == old(self).fee_account_witness,
    {
        let target: usize = PUBDATA_FRAGMENT_WIDTH * self.block_size;
        while self.pubdata.len() < target
            invariant
                old(self).pubdata@.len() <= self.pubdata@.len() <= target,
                target == PUBDATA_FRAGMENT_WIDTH * self.block_size,
                self.pubdata@ == old(self).pubdata@ + Seq::new(
                    (self.pubdata@.len() - old(self).pubdata@.len()) as nat,
                    |i: int| 0u8,
                ),
                self.account_tree == old(self).account_tree,
                self.fee_account_id == old(self).fee_account_id,
                self.block_size == old(self).block_size,
                self.initial_root == old(self).initial_root,
                self.op_count == old(self).op_count,
                self.operations@ == old(self).operations@,
                self.roots@ == old(self).roots@,
                self.root_after_fees == old(self).root_after_fees,
                self.fee_account_witness == old(self).fee_account_witness,
                self.pubdata_commitment == old(self).pubdata_commitment,
            decreases target - self.pubdata@.len(),
        {
            self.pubdata.push(0u8);
            proof {
                assert(self.pubdata@ =~= old(self).pubdata@ + Seq::new(
                    (self.pubdata@.len() - old(self).pubdata@.len()) as nat,
                    |i: int| 0u8,
                ));
            }
        }
        let commitment = hash_bytes(&self.pubdata);
        self.pubdata_commitment = Option::Some(commitment);
        proof {
            assert(self.pubdata@ =~= old(self).pubdata@ + noop_padding(
                (old(self).block_size - old(self).op_count) as nat,
            ));
        }
    }

    /// Hands the finished block off as an immutable circuit instance.
    pub fn into_circuit_instance(self) -> (c: CircuitInstance)
        requires
            self.wf(),
            self.root_after_fees is Some,
            self.fee_account_witness is Some,
            self.pubdata_commitment is Some,
        ensures
            c.initial_root == self.initial_root,
            c.block_size == self.block_size,
            c.fee_account_id == self.fee_account_id,
            c.roots@ == self.roots@,
            c.root_after_fees == self.root_after_fees->Some_0,
            c.operations@ == self.operations@,
            c.pubdata@ == self.pubdata@,
            c.pubdata_commitment == self.pubdata_commitment->Some_0,
            c.fee_account_witness@ == self.fee_account_witness->Some_0@,
    {
        let root_after_fees = match self.root_after_fees {
            Option::Some(r) => r,
            Option::None => unreached(),
        };
        let pubdata_commitment = match self.pubdata_commitment {
            Option::Some(h) => h,
            Option::None => unreached(),
        };
        let fee_account_witness = match self.fee_account_witness {
            Option::Some(w) => w,
            Option::None => unreached(),
        };
        CircuitInstance {
            initial_root: self.initial_root,
            block_size: self.block_size,
            fee_account_id: self.fee_account_id,
            roots: self.roots,
            root_after_fees,
            operations: self.operations,
            pubdata: self.pubdata,
            pubdata_commitment,
            fee_account_witness,
        }
    }
}

} // verus!
