//! The canonical ledger executor: applies operations to its own tree and
//! reports the resulting root hash. It is the ground truth the witness
//! subsystem is cross-checked against; the two must never share a live tree.

use vstd::prelude::*;
use crate::account::Account;
use crate::ops::{FullExitOp, FranklinOp};
use crate::state::{
    apply_full_exit, apply_full_exit_spec, apply_op, apply_op_spec, full_exit_valid, op_valid,
};
use crate::tree::{AccountTree, LedgerV, tree_root_spec, N_ACCOUNTS};

verus! {

/// The canonical, non-witness ledger executor.
pub struct PlasmaState {
    pub tree: AccountTree,
}

impl PlasmaState {
    /// An executor over the given tree.
    pub fn new(tree: AccountTree) -> (s: PlasmaState)
        ensures
            s.tree == tree,
    {
        PlasmaState { tree }
    }

    /// The current ledger root hash.
    pub fn root_hash(&self) -> (r: u64)
        requires
            self.tree.wf(),
        ensures
            r == tree_root_spec(self.tree@),
    {
        self.tree.root_hash()
    }

    /// Applies a full exit. Success is exactly the presence of the
    /// withdrawable amount, which the upstream layer set from the same rule
    /// this core requires of it.
    pub fn apply_full_exit_op(&mut self, op: &FullExitOp)
        requires
            old(self).tree.wf(),
            full_exit_valid(old(self).tree@, *op, op.withdraw_amount is Some),
        ensures
            final(self).tree.wf(),
            final(self).tree@ == apply_full_exit_spec(
                old(self).tree@,
                *op,
                op.withdraw_amount is Some,
            ),
    {
        let success = op.withdraw_amount.is_some();
        apply_full_exit(&mut self.tree, op, success);
    }

    /// Applies one operation and returns the resulting root hash.
    pub fn apply_operation(&mut self, op: &FranklinOp, success: bool) -> (r: u64)
        requires
            old(self).tree.wf(),
            op_valid(old(self).tree@, *op, success),
        ensures
            final(self).tree.wf(),
            final(self).tree@ == apply_op_spec(old(self).tree@, *op, success),
            r == tree_root_spec(final(self).tree@),
    {
        apply_op(&mut self.tree, op, success);
        self.tree.root_hash()
    }
}

/// The ledger state a list of genesis accounts describes: each entry placed
/// at its slot, later entries overriding earlier ones.
pub open spec fn genesis_spec(entries: Seq<(u32, Account)>) -> LedgerV
    decreases entries.len(),
{
    if entries.len() == 0 {
        Seq::new(N_ACCOUNTS as nat, |i: int| Option::None)
    } else {
        genesis_spec(entries.drop_last()).update(
            entries.last().0 as int,
            Option::Some(entries.last().1@),
        )
    }
}

/// Builds, from one list of genesis accounts, a canonical executor and an
/// independent witness-side tree over the same state. The two trees are
/// separate owned instances: the executors are meant to diverge-and-compare,
/// never to alias.
pub fn test_genesis_plasma_state(accounts: Vec<(u32, Account)>) -> (r: (PlasmaState, AccountTree))
    requires
        forall|i: int|
            0 <= i < accounts@.len() ==> (#[trigger] accounts@[i]).0 < N_ACCOUNTS
                && accounts@[i].1@.wf(),
    ensures
        r.0.tree.wf(),
        r.1.wf(),
        r.0.tree@ == genesis_spec(accounts@),
        r.1@ == genesis_spec(accounts@),
{
    let plasma_tree = genesis_tree(&accounts);
    let witness_tree = genesis_tree(&accounts);
    (PlasmaState::new(plasma_tree), witness_tree)
}

/// Builds one owned tree holding the genesis accounts.
pub fn genesis_tree(accounts: &Vec<(u32, Account)>) -> (t: AccountTree)
    requires
        forall|i: int|
            0 <= i < accounts@.len() ==> (#[trigger] accounts@[i]).0 < N_ACCOUNTS
                && accounts@[i].1@.wf(),
    ensures
        t.wf(),
        t@ == genesis_spec(accounts@),
{
    let mut t = AccountTree::new();
    proof {
        assert(t@ =~= genesis_spec(accounts@.take(0)));
    }
    let mut i: usize = 0;
    while i < accounts.len()
        invariant
            forall|k: int|
                0 <= k < accounts@.len() ==> (#[trigger] accounts@[k]).0 < N_ACCOUNTS
                    && accounts@[k].1@.wf(),
            i <= accounts@.len(),
            t.wf(),
            t@ == genesis_spec(accounts@.take(i as int)),
        decreases accounts@.len() - i,
    {
        let entry = &accounts[i];
        let account = entry.1.duplicate();
        t.set_account(entry.0, Option::Some(account));
        proof {
            assert(accounts@.take(i + 1).drop_last() =~= accounts@.take(i as int));
            assert(accounts@.take(i + 1).last() == accounts@[i as int]);
        }
        i = i + 1;
    }
    proof {
        assert(accounts@.take(accounts@.len() as int) =~= accounts@);
    }
    t
}

} // verus!
