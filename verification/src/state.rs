//! The state-transition rules of the ledger: for each operation kind, when it
//! is applicable and what ledger state it produces. The canonical executor
//! and the witness generators are both pinned to these transitions, which is
//! what makes their root hashes provably agree.

use vstd::prelude::*;
use crate::account::{Account, AccountV, empty_balances, N_TOKENS};
use crate::ops::{DepositOp, TransferOp, WithdrawOp, ChangePubKeyOp, FullExitOp, FranklinOp};
use crate::tree::{AccountTree, LedgerV, N_ACCOUNTS};

verus! {

/// The account stored at a slot that is known to be occupied.
pub open spec fn account_at(s: LedgerV, id: int) -> AccountV {
    s[id]->Some_0
}

/// One slot's account with one balance slot overwritten.
pub open spec fn with_balance(a: AccountV, token: int, value: u128) -> AccountV {
    AccountV { balances: a.balances.update(token, value), ..a }
}

// ---------------------------------------------------------------- deposit

/// The account a deposit lands in: the existing one, or a fresh account at
/// the deposit's target address when the slot was vacant.
pub open spec fn deposit_base(s: LedgerV, op: DepositOp) -> AccountV {
    match s[op.account_id as int] {
        Option::Some(a) => a,
        Option::None => AccountV {
            address: op.priority_op.to,
            pub_key_hash: 0,
            nonce: 0,
            balances: empty_balances(),
        },
    }
}

/// A deposit is applicable when its slot and token are in range, the slot (if
/// occupied) belongs to the target address, and the credit fits.
pub open spec fn deposit_valid(s: LedgerV, op: DepositOp) -> bool {
    &&& op.account_id < N_ACCOUNTS
    &&& op.priority_op.token < N_TOKENS
    &&& (s[op.account_id as int] matches Some(a) ==> a.address == op.priority_op.to)
    &&& deposit_base(s, op).balances[op.priority_op.token as int] + op.priority_op.amount
        <= u128::MAX
}

/// Ledger after a deposit: the target balance grows by the amount.
pub open spec fn apply_deposit_spec(s: LedgerV, op: DepositOp) -> LedgerV {
    let base = deposit_base(s, op);
    let t = op.priority_op.token as int;
    s.update(
        op.account_id as int,
        Option::Some(
            with_balance(base, t, (base.balances[t] + op.priority_op.amount) as u128),
        ),
    )
}

// ---------------------------------------------------------------- transfer

/// A transfer is applicable between two distinct occupied slots when the
/// sender covers amount plus fee and neither counter overflows.
pub open spec fn transfer_valid(s: LedgerV, op: TransferOp) -> bool {
    &&& op.from < N_ACCOUNTS
    &&& op.to < N_ACCOUNTS
    &&& op.token < N_TOKENS
    &&& op.from != op.to
    &&& op.amount + op.fee <= u128::MAX
    &&& s[op.from as int] is Some
    &&& s[op.to as int] is Some
    &&& account_at(s, op.from as int).nonce < u32::MAX
    &&& account_at(s, op.from as int).balances[op.token as int] >= op.amount + op.fee
    &&& account_at(s, op.to as int).balances[op.token as int] + op.amount <= u128::MAX
}

/// Ledger after a transfer: the sender pays amount plus fee and its nonce
/// advances; the receiver gains the amount. The fee itself is credited later,
/// by block-level fee collection.
pub open spec fn apply_transfer_spec(s: LedgerV, op: TransferOp) -> LedgerV {
    let t = op.token as int;
    let a = account_at(s, op.from as int);
    let debited = AccountV {
        nonce: (a.nonce + 1) as u32,
        balances: a.balances.update(t, (a.balances[t] - op.amount - op.fee) as u128),
        ..a
    };
    let s1 = s.update(op.from as int, Option::Some(debited));
    let b = account_at(s1, op.to as int);
    s1.update(op.to as int, Option::Some(with_balance(b, t, (b.balances[t] + op.amount) as u128)))
}

// ---------------------------------------------------------------- withdraw

/// A withdrawal is applicable from an occupied slot that covers amount plus
/// fee.
pub open spec fn withdraw_valid(s: LedgerV, op: WithdrawOp) -> bool {
    &&& op.account_id < N_ACCOUNTS
    &&& op.token < N_TOKENS
    &&& op.amount + op.fee <= u128::MAX
    &&& s[op.account_id as int] is Some
    &&& account_at(s, op.account_id as int).nonce < u32::MAX
    &&& account_at(s, op.account_id as int).balances[op.token as int] >= op.amount + op.fee
}

/// Ledger after a withdrawal: the balance shrinks by amount plus fee and the
/// nonce advances.
pub open spec fn apply_withdraw_spec(s: LedgerV, op: WithdrawOp) -> LedgerV {
    let t = op.token as int;
    let a = account_at(s, op.account_id as int);
    s.update(
        op.account_id as int,
        Option::Some(
            AccountV {
                nonce: (a.nonce + 1) as u32,
                balances: a.balances.update(t, (a.balances[t] - op.amount - op.fee) as u128),
                ..a
            },
        ),
    )
}

// ---------------------------------------------------------------- change pubkey

/// A key change is applicable on an occupied slot.
pub open spec fn change_pubkey_valid(s: LedgerV, op: ChangePubKeyOp) -> bool {
    &&& op.account_id < N_ACCOUNTS
    &&& s[op.account_id as int] is Some
    &&& account_at(s, op.account_id as int).nonce < u32::MAX
}

/// Ledger after a key change: the key is replaced and the nonce advances.
pub open spec fn apply_change_pubkey_spec(s: LedgerV, op: ChangePubKeyOp) -> LedgerV {
    let a = account_at(s, op.account_id as int);
    s.update(
        op.account_id as int,
        Option::Some(
            AccountV {
                pub_key_hash: op.new_pub_key_hash,
                nonce: (a.nonce + 1) as u32,
                ..a
            },
        ),
    )
}

// ---------------------------------------------------------------- full exit

/// The success flag the upstream executor passed must match the ledger: a
/// successful full exit names an occupied slot at the claimed address whose
/// full balance is exactly the declared withdrawable amount; a failed one
/// carries no amount and is a witnessed no-op.
pub open spec fn full_exit_valid(s: LedgerV, op: FullExitOp, success: bool) -> bool {
    &&& op.priority_op.account_id < N_ACCOUNTS
    &&& op.priority_op.token < N_TOKENS
    &&& success == (op.withdraw_amount is Some)
    &&& success ==> {
        &&& s[op.priority_op.account_id as int] is Some
        &&& account_at(s, op.priority_op.account_id as int).address == op.priority_op.eth_address
        &&& op.withdraw_amount == Option::Some(
            account_at(s, op.priority_op.account_id as int).balances[op.priority_op.token as int],
        )
    }
}

/// Ledger after a full exit: on success the exited balance is zeroed (the
/// leaf itself persists); on failure nothing changes.
pub open spec fn apply_full_exit_spec(s: LedgerV, op: FullExitOp, success: bool) -> LedgerV {
    if success {
        let id = op.priority_op.account_id as int;
        s.update(
            id,
            Option::Some(with_balance(account_at(s, id), op.priority_op.token as int, 0u128)),
        )
    } else {
        s
    }
}

// ---------------------------------------------------------------- dispatch

/// Applicability of one operation, given the upstream success classification.
/// Only a full exit admits a failure mode; every other kind must have been
/// classified successful to reach this core.
pub open spec fn op_valid(s: LedgerV, op: FranklinOp, success: bool) -> bool {
    match op {
        FranklinOp::Noop => true,
        FranklinOp::Deposit(o) => success && deposit_valid(s, o),
        FranklinOp::Transfer(o) => success && transfer_valid(s, o),
        FranklinOp::Withdraw(o) => success && withdraw_valid(s, o),
        FranklinOp::ChangePubKey(o) => success && change_pubkey_valid(s, o),
        FranklinOp::FullExit(o) => full_exit_valid(s, o, success),
    }
}

/// The ledger transition of one operation.
pub open spec fn apply_op_spec(s: LedgerV, op: FranklinOp, success: bool) -> LedgerV {
    match op {
        FranklinOp::Noop => s,
        FranklinOp::Deposit(o) => apply_deposit_spec(s, o),
        FranklinOp::Transfer(o) => apply_transfer_spec(s, o),
        FranklinOp::Withdraw(o) => apply_withdraw_spec(s, o),
        FranklinOp::ChangePubKey(o) => apply_change_pubkey_spec(s, o),
        FranklinOp::FullExit(o) => apply_full_exit_spec(s, o, success),
    }
}

// ---------------------------------------------------------------- fees

/// One fee credit to the designated fee account.
pub open spec fn credit_spec(s: LedgerV, id: int, token: int, amount: u128) -> LedgerV {
    let a = account_at(s, id);
    s.update(id, Option::Some(with_balance(a, token, (a.balances[token] + amount) as u128)))
}

/// Fee collection is applicable while the fee account exists and every
/// successive credit fits.
pub open spec fn fees_valid(s: LedgerV, fees: Seq<(u16, u128)>, id: int) -> bool
    decreases fees.len(),
{
    if fees.len() == 0 {
        true
    } else {
        &&& 0 <= id < s.len()
        &&& s[id] is Some
        &&& fees[0].0 < N_TOKENS
        &&& account_at(s, id).balances[fees[0].0 as int] + fees[0].1 <= u128::MAX
        &&& fees_valid(credit_spec(s, id, fees[0].0 as int, fees[0].1), fees.drop_first(), id)
    }
}

/// Ledger after crediting a list of collected fees, in order, to the fee
/// account.
pub open spec fn collect_fees_spec(s: LedgerV, fees: Seq<(u16, u128)>, id: int) -> LedgerV
    decreases fees.len(),
{
    if fees.len() == 0 {
        s
    } else {
        collect_fees_spec(credit_spec(s, id, fees[0].0 as int, fees[0].1), fees.drop_first(), id)
    }
}

// ---------------------------------------------------------------- executable transitions

/// Applies a deposit to the tree.
pub fn apply_deposit(tree: &mut AccountTree, op: &DepositOp)
    requires
        old(tree).wf(),
        deposit_valid(old(tree)@, *op),
    ensures
        final(tree).wf(),
        final(tree)@ == apply_deposit_spec(old(tree)@, *op),
{
    let id = op.account_id;
    let slot = &tree.accounts[id as usize];
    proof {
        assert(tree@[id as int] matches Some(x) ==> x.wf());
    }
    let mut base: Account = match slot {
        Option::Some(a) => a.duplicate(),
        Option::None => Account::default_with_address(&op.priority_op.to),
    };
    base.add_balance(op.priority_op.token, op.priority_op.amount);
    tree.set_account(id, Option::Some(base));
}

/// Applies a transfer to the tree.
pub fn apply_transfer(tree: &mut AccountTree, op: &TransferOp)
    requires
        old(tree).wf(),
        transfer_valid(old(tree)@, *op),
    ensures
        final(tree).wf(),
        final(tree)@ == apply_transfer_spec(old(tree)@, *op),
{
    proof {
        assert(tree@[op.from as int] matches Some(x) ==> x.wf());
        assert(tree@[op.to as int] matches Some(x) ==> x.wf());
    }
    let slot = &tree.accounts[op.from as usize];
    let mut sender: Account = match slot {
        Option::Some(a) => a.duplicate(),
        Option::None => unreached(),
    };
    let paid = sender.balance(op.token);
    sender.set_balance(op.token, paid - (op.amount + op.fee));
    sender.nonce = sender.nonce + 1;
    tree.set_account(op.from, Option::Some(sender));

    let slot2 = &tree.accounts[op.to as usize];
    proof {
        assert(tree@[op.to as int] matches Some(x) ==> x.wf());
    }
    let mut receiver: Account = match slot2 {
        Option::Some(a) => a.duplicate(),
        Option::None => unreached(),
    };
    receiver.add_balance(op.token, op.amount);
    tree.set_account(op.to, Option::Some(receiver));
}

/// Applies a withdrawal to the tree.
pub fn apply_withdraw(tree: &mut AccountTree, op: &WithdrawOp)
    requires
        old(tree).wf(),
        withdraw_valid(old(tree)@, *op),
    ensures
        final(tree).wf(),
        final(tree)@ == apply_withdraw_spec(old(tree)@, *op),
{
    proof {
        assert(tree@[op.account_id as int] matches Some(x) ==> x.wf());
    }
    let slot = &tree.accounts[op.account_id as usize];
    let mut account: Account = match slot {
        Option::Some(a) => a.duplicate(),
        Option::None => unreached(),
    };
    let held = account.balance(op.token);
    account.set_balance(op.token, held - (op.amount + op.fee));
    account.nonce = account.nonce + 1;
    tree.set_account(op.account_id, Option::Some(account));
}

/// Applies a key change to the tree.
pub fn apply_change_pubkey(tree: &mut AccountTree, op: &ChangePubKeyOp)
    requires
        old(tree).wf(),
        change_pubkey_valid(old(tree)@, *op),
    ensures
        final(tree).wf(),
        final(tree)@ == apply_change_pubkey_spec(old(tree)@, *op),
{
    proof {
        assert(tree@[op.account_id as int] matches Some(x) ==> x.wf());
    }
    let slot = &tree.accounts[op.account_id as usize];
    let mut account: Account = match slot {
        Option::Some(a) => a.duplicate(),
        Option::None => unreached(),
    };
    account.pub_key_hash = op.new_pub_key_hash;
    account.nonce = account.nonce + 1;
    tree.set_account(op.account_id, Option::Some(account));
}

/// Applies a full exit to the tree: zeroes the exited balance on success,
/// touches nothing on failure.
pub fn apply_full_exit(tree: &mut AccountTree, op: &FullExitOp, success: bool)
    requires
        old(tree).wf(),
        full_exit_valid(old(tree)@, *op, success),
    ensures
        final(tree).wf(),
        final(tree)@ == apply_full_exit_spec(old(tree)@, *op, success),
{
    if success {
        proof {
            assert(tree@[op.priority_op.account_id as int] matches Some(x) ==> x.wf());
        }
        let slot = &tree.accounts[op.priority_op.account_id as usize];
        let mut account: Account = match slot {
            Option::Some(a) => a.duplicate(),
            Option::None => unreached(),
        };
        account.set_balance(op.priority_op.token, 0);
        tree.set_account(op.priority_op.account_id, Option::Some(account));
    }
}

/// Applies one operation to the tree.
pub fn apply_op(tree: &mut AccountTree, op: &FranklinOp, success: bool)
    requires
        old(tree).wf(),
        op_valid(old(tree)@, *op, success),
    ensures
        final(tree).wf(),
        final(tree)@ == apply_op_spec(old(tree)@, *op, success),
{
    match op {
        FranklinOp::Noop => (),
        FranklinOp::Deposit(o) => apply_deposit(tree, o),
        FranklinOp::Transfer(o) => apply_transfer(tree, o),
        FranklinOp::Withdraw(o) => apply_withdraw(tree, o),
        FranklinOp::ChangePubKey(o) => apply_change_pubkey(tree, o),
        FranklinOp::FullExit(o) => apply_full_exit(tree, o, success),
    }
}

/// Credits one collected fee to the fee account.
pub fn credit(tree: &mut AccountTree, id: u32, token: u16, amount: u128)
    requires
        old(tree).wf(),
        id < N_ACCOUNTS,
        token < N_TOKENS,
        old(tree)@[id as int] is Some,
        account_at(old(tree)@, id as int).balances[token as int] + amount <= u128::MAX,
    ensures
        final(tree).wf(),
        final(tree)@ == credit_spec(old(tree)@, id as int, token as int, amount),
{
    proof {
        assert(tree@[id as int] matches Some(x) ==> x.wf());
    }
    let slot = &tree.accounts[id as usize];
    let mut account: Account = match slot {
        Option::Some(a) => a.duplicate(),
        Option::None => unreached(),
    };
    account.add_balance(token, amount);
    tree.set_account(id, Option::Some(account));
}

} // verus!
