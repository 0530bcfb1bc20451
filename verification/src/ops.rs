//! The closed set of layer-2 operations. The operation set is fixed by the
//! circuit's constraint system, so it is a tagged variant type dispatched by
//! exhaustive matching, never open-ended.

use vstd::prelude::*;
use crate::bytes::EthAddress;

verus! {

/// Pubdata tag byte of a padding no-op fragment.
pub const TAG_NOOP: u8 = 0;

/// Pubdata tag byte of a deposit.
pub const TAG_DEPOSIT: u8 = 1;

/// Pubdata tag byte of a withdrawal.
pub const TAG_WITHDRAW: u8 = 3;

/// Pubdata tag byte of a transfer.
pub const TAG_TRANSFER: u8 = 5;

/// Pubdata tag byte of a full exit.
pub const TAG_FULL_EXIT: u8 = 6;

/// Pubdata tag byte of a public-key change.
pub const TAG_CHANGE_PUBKEY: u8 = 7;

/// A priority deposit from the base chain.
#[derive(Clone, Copy, PartialEq, Eq, Structural, Debug)]
pub struct Deposit {
    pub from: EthAddress,
    pub token: u16,
    pub amount: u128,
    pub to: EthAddress,
}

/// A deposit bound to the account slot the upstream layer assigned.
#[derive(Clone, Copy, PartialEq, Eq, Structural, Debug)]
pub struct DepositOp {
    pub priority_op: Deposit,
    pub account_id: u32,
}

/// A balance transfer between two existing accounts.
#[derive(Clone, Copy, PartialEq, Eq, Structural, Debug)]
pub struct TransferOp {
    pub from: u32,
    pub to: u32,
    pub token: u16,
    pub amount: u128,
    pub fee: u128,
}

/// A withdrawal of funds to a base-chain address.
#[derive(Clone, Copy, PartialEq, Eq, Structural, Debug)]
pub struct WithdrawOp {
    pub account_id: u32,
    pub eth_address: EthAddress,
    pub token: u16,
    pub amount: u128,
    pub fee: u128,
}

/// A change of an account's signing key.
#[derive(Clone, Copy, PartialEq, Eq, Structural, Debug)]
pub struct ChangePubKeyOp {
    pub account_id: u32,
    pub new_pub_key_hash: u64,
}

/// A full exit requested on the base chain.
#[derive(Clone, Copy, PartialEq, Eq, Structural, Debug)]
pub struct FullExit {
    pub account_id: u32,
    pub eth_address: EthAddress,
    pub token: u16,
}

/// A full exit together with the withdrawable amount the upstream executor
/// determined: `Some` of the account's full balance when the exit succeeds,
/// `None` when the account is absent or otherwise not exitable, in which case
/// the ledger is untouched but the operation is still witnessed.
#[derive(Clone, Copy, PartialEq, Eq, Structural, Debug)]
pub struct FullExitOp {
    pub priority_op: FullExit,
    pub withdraw_amount: Option<u128>,
}

/// One layer-2 operation.
#[derive(Clone, Copy, PartialEq, Eq, Structural, Debug)]
pub enum FranklinOp {
    Noop,
    Deposit(DepositOp),
    Transfer(TransferOp),
    Withdraw(WithdrawOp),
    ChangePubKey(ChangePubKeyOp),
    FullExit(FullExitOp),
}

} // verus!
