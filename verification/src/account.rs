//! An account leaf of the ledger tree: address, public-key hash, nonce, and a
//! dense per-token balance vector that forms the leaves of the account's
//! nested balance sub-tree.

use vstd::prelude::*;
use crate::bytes::EthAddress;
use crate::hash::{hash_pair, hash_u128, lo64, hi64, mix_pair, mix_u128};
use crate::merkle::{node_hash, compute_root};

verus! {

/// Number of token slots in every account's balance sub-tree.
pub const N_TOKENS: usize = 32;

/// Depth of the balance sub-tree; `2^BALANCE_TREE_DEPTH == N_TOKENS`.
pub const BALANCE_TREE_DEPTH: usize = 5;

/// Leaf hash of the account tree for a slot with no account.
pub const EMPTY_LEAF_HASH: u64 = 0x6d1f_0c5a_83b2_47e9;

/// One ledger account.
pub struct Account {
    pub address: EthAddress,
    pub pub_key_hash: u64,
    pub nonce: u32,
    pub balances: Vec<u128>,
}

/// The mathematical content of an account.
pub ghost struct AccountV {
    pub address: EthAddress,
    pub pub_key_hash: u64,
    pub nonce: u32,
    pub balances: Seq<u128>,
}

impl AccountV {
    /// A well-formed account has exactly one balance slot per token.
    pub open spec fn wf(self) -> bool {
        self.balances.len() == N_TOKENS
    }
}

impl View for Account {
    type V = AccountV;

    open spec fn view(&self) -> AccountV {
        AccountV {
            address: self.address,
            pub_key_hash: self.pub_key_hash,
            nonce: self.nonce,
            balances: self.balances@,
        }
    }
}

/// The balance vector of an account that was never created: all zero.
pub open spec fn empty_balances() -> Seq<u128> {
    Seq::new(N_TOKENS as nat, |i: int| 0u128)
}

/// Leaf hashes of a balance sub-tree.
pub open spec fn balance_leaf_hashes(balances: Seq<u128>) -> Seq<u64> {
    Seq::new(balances.len(), |i: int| hash_u128(balances[i]))
}

/// Root of a balance sub-tree.
pub open spec fn balance_root(balances: Seq<u128>) -> u64 {
    node_hash(balance_leaf_hashes(balances), BALANCE_TREE_DEPTH as nat, 0)
}

/// Leaf hash of a present account, from its plain fields and the root of its
/// balance sub-tree.
pub open spec fn leaf_hash_parts(
    address: EthAddress,
    pub_key_hash: u64,
    nonce: u32,
    bal_root: u64,
) -> u64 {
    hash_pair(
        hash_pair(
            hash_pair(address.hi as u64, lo64(address.lo)),
            hash_pair(hi64(address.lo), pub_key_hash),
        ),
        hash_pair(nonce as u64, bal_root),
    )
}

/// Computes `leaf_hash_parts`.
pub fn mix_leaf_parts(address: EthAddress, pub_key_hash: u64, nonce: u32, bal_root: u64) -> (r:
    u64)
    ensures
        r == leaf_hash_parts(address, pub_key_hash, nonce, bal_root),
{
    let addr_lo: u64 = (address.lo % 0x1_0000_0000_0000_0000) as u64;
    let addr_hi: u64 = (address.lo / 0x1_0000_0000_0000_0000) as u64;
    let left = mix_pair(mix_pair(address.hi as u64, addr_lo), mix_pair(addr_hi, pub_key_hash));
    let right = mix_pair(nonce as u64, bal_root);
    mix_pair(left, right)
}

/// Leaf hash of an account slot in the account tree. An absent account hashes
/// to a fixed empty-leaf constant.
pub open spec fn account_leaf_hash(a: Option<AccountV>) -> u64 {
    match a {
        Option::None => EMPTY_LEAF_HASH,
        Option::Some(a) => leaf_hash_parts(
            a.address,
            a.pub_key_hash,
            a.nonce,
            balance_root(a.balances),
        ),
    }
}

impl Account {
    /// A fresh account at the given address: zero key, zero nonce, all
    /// balances zero.
    pub fn default_with_address(address: &EthAddress) -> (a: Account)
        ensures
            a@ == (AccountV {
                address: *address,
                pub_key_hash: 0,
                nonce: 0,
                balances: empty_balances(),
            }),
            a@.wf(),
    {
        let mut balances: Vec<u128> = Vec::new();
        while balances.len() < N_TOKENS
            invariant
                balances@.len() <= N_TOKENS,
                forall|i: int| 0 <= i < balances@.len() ==> balances@[i] == 0u128,
            decreases N_TOKENS - balances@.len(),
        {
            balances.push(0u128);
        }
        proof {
            assert(balances@ =~= empty_balances());
        }
        Account { address: *address, pub_key_hash: 0, nonce: 0, balances }
    }

    /// An owned copy with the same contents.
    pub fn duplicate(&self) -> (r: Account)
        ensures
            r@ == self@,
    {
        let mut balances: Vec<u128> = Vec::new();
        let mut i: usize = 0;
        while i < self.balances.len()
            invariant
                i <= self.balances@.len(),
                balances@ =~= self.balances@.take(i as int),
            decreases self.balances@.len() - i,
        {
            balances.push(self.balances[i]);
            proof {
                assert(balances@ =~= self.balances@.take(i + 1));
            }
            i = i + 1;
        }
        proof {
            assert(self.balances@.take(self.balances@.len() as int) =~= self.balances@);
        }
        Account {
            address: self.address,
            pub_key_hash: self.pub_key_hash,
            nonce: self.nonce,
            balances,
        }
    }

    /// The balance held for one token.
    pub fn balance(&self, token: u16) -> (b: u128)
        requires
            self@.wf(),
            token < N_TOKENS,
        ensures
            b == self@.balances[token as int],
    {
        self.balances[token as usize]
    }

    /// Adds `amount` to the balance for `token`.
    pub fn add_balance(&mut self, token: u16, amount: u128)
        requires
            old(self)@.wf(),
            token < N_TOKENS,
            old(self)@.balances[token as int] + amount <= u128::MAX,
        ensures
            final(self)@ == (AccountV {
                balances: old(self)@.balances.update(
                    token as int,
                    (old(self)@.balances[token as int] + amount) as u128,
                ),
                ..old(self)@
            }),
            final(self)@.wf(),
    {
        let current = self.balances[token as usize];
        self.balances[token as usize] = current + amount;
    }

    /// Overwrites the balance for `token`.
    pub fn set_balance(&mut self, token: u16, value: u128)
        requires
            old(self)@.wf(),
            token < N_TOKENS,
        ensures
            final(self)@ == (AccountV {
                balances: old(self)@.balances.update(token as int, value),
                ..old(self)@
            }),
            final(self)@.wf(),
    {
        self.balances[token as usize] = value;
    }
}

/// Computes the root of a balance sub-tree.
pub fn compute_balance_root(balances: &Vec<u128>) -> (r: u64)
    requires
        balances@.len() == N_TOKENS,
    ensures
        r == balance_root(balances@),
{
    let leaves = balance_leaf_vec(balances);
    proof {
        vstd::arithmetic::power2::lemma2_to64();
    }
    compute_root(&leaves, BALANCE_TREE_DEPTH)
}

/// Computes the vector of balance leaf hashes.
pub fn balance_leaf_vec(balances: &Vec<u128>) -> (v: Vec<u64>)
    ensures
        v@ == balance_leaf_hashes(balances@),
{
    let mut v: Vec<u64> = Vec::new();
    let mut i: usize = 0;
    while i < balances.len()
        invariant
            i <= balances@.len(),
            v@.len() == i,
            forall|k: int| 0 <= k < i ==> v@[k] == hash_u128(balances@[k]),
        decreases balances@.len() - i,
    {
        let h = mix_u128(balances[i]);
        v.push(h);
        i = i + 1;
    }
    proof {
        assert(v@ =~= balance_leaf_hashes(balances@));
    }
    v
}

/// Computes `account_leaf_hash` for a present account.
pub fn compute_account_leaf_hash(a: &Account) -> (r: u64)
    requires
        a@.wf(),
    ensures
        r == account_leaf_hash(Some(a@)),
{
    let bal_root = compute_balance_root(&a.balances);
    mix_leaf_parts(a.address, a.pub_key_hash, a.nonce, bal_root)
}

} // verus!
