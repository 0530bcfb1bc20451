//! The account ledger tree: a fixed-depth Merkle tree over all account
//! slots. It answers leaf views (contents plus audit paths, with absent
//! accounts rendered as the canonical empty leaf), applies updates, and
//! reports the root hash, which is a pure function of the leaf contents.

use vstd::prelude::*;
use crate::account::{
    Account, AccountV, account_leaf_hash, balance_leaf_hashes, empty_balances,
    compute_account_leaf_hash, balance_leaf_vec, N_TOKENS, BALANCE_TREE_DEPTH, EMPTY_LEAF_HASH,
};
use crate::bytes::EthAddress;
use crate::merkle::{node_hash, path_spec, compute_root, audit_path};

verus! {

/// Number of account slots in the ledger tree.
pub const N_ACCOUNTS: usize = 256;

/// Depth of the account tree; `2^ACCOUNT_TREE_DEPTH == N_ACCOUNTS`.
pub const ACCOUNT_TREE_DEPTH: usize = 8;

/// The ledger state as contracts speak of it: one optional account per slot.
pub type LedgerV = Seq<Option<AccountV>>;

/// The account ledger tree.
pub struct AccountTree {
    pub accounts: Vec<Option<Account>>,
}

/// View of an optional account.
pub open spec fn opt_account_view(a: Option<Account>) -> Option<AccountV> {
    match a {
        Option::None => Option::None,
        Option::Some(x) => Option::Some(x@),
    }
}

impl View for AccountTree {
    type V = LedgerV;

    open spec fn view(&self) -> LedgerV {
        Seq::new(self.accounts@.len(), |i: int| opt_account_view(self.accounts@[i]))
    }
}

/// A well-formed ledger has every slot present and every account well-formed.
pub open spec fn ledger_wf(s: LedgerV) -> bool {
    &&& s.len() == N_ACCOUNTS
    &&& forall|i: int| 0 <= i < s.len() ==> (#[trigger] s[i] matches Some(a) ==> a.wf())
}

/// Leaf hashes of the account tree.
pub open spec fn leaf_hashes(s: LedgerV) -> Seq<u64> {
    Seq::new(s.len(), |i: int| account_leaf_hash(s[i]))
}

/// Root hash of the ledger: a pure function of all leaf contents.
pub open spec fn tree_root_spec(s: LedgerV) -> u64 {
    node_hash(leaf_hashes(s), ACCOUNT_TREE_DEPTH as nat, 0)
}

/// Balances of an account slot; an absent account holds all zeros.
pub open spec fn balances_or_empty(a: Option<AccountV>) -> Seq<u128> {
    match a {
        Option::None => empty_balances(),
        Option::Some(a) => a.balances,
    }
}

/// The balance a slot holds for one token; absent accounts hold zero.
pub open spec fn balance_at(s: LedgerV, id: int, token: int) -> u128 {
    balances_or_empty(s[id])[token]
}

/// Plain contents of an account leaf, as captured into a witness.
#[derive(Clone, Copy, PartialEq, Eq, Structural, Debug)]
pub struct AccountContent {
    pub address: EthAddress,
    pub pub_key_hash: u64,
    pub nonce: u32,
}

/// The audit view of one account slot and one of its balance slots: leaf
/// contents before interpretation, plus both audit paths and the root they
/// hash up to.
pub struct AccountLeafView {
    pub root: u64,
    pub account: Option<AccountContent>,
    pub balance: u128,
    pub account_path: Vec<u64>,
    pub balance_path: Vec<u64>,
}

/// Mathematical content of `AccountLeafView`.
pub ghost struct AccountLeafViewV {
    pub root: u64,
    pub account: Option<AccountContent>,
    pub balance: u128,
    pub account_path: Seq<u64>,
    pub balance_path: Seq<u64>,
}

impl View for AccountLeafView {
    type V = AccountLeafViewV;

    open spec fn view(&self) -> AccountLeafViewV {
        AccountLeafViewV {
            root: self.root,
            account: self.account,
            balance: self.balance,
            account_path: self.account_path@,
            balance_path: self.balance_path@,
        }
    }
}

/// Plain contents of a slot.
pub open spec fn content_of(a: Option<AccountV>) -> Option<AccountContent> {
    match a {
        Option::None => Option::None,
        Option::Some(a) => Option::Some(
            AccountContent { address: a.address, pub_key_hash: a.pub_key_hash, nonce: a.nonce },
        ),
    }
}

/// What `get_leaf` returns for a slot and token of a ledger state.
pub open spec fn leaf_view_spec(s: LedgerV, id: int, token: int) -> AccountLeafViewV {
    AccountLeafViewV {
        root: tree_root_spec(s),
        account: content_of(s[id]),
        balance: balance_at(s, id, token),
        account_path: path_spec(leaf_hashes(s), ACCOUNT_TREE_DEPTH as nat, id as nat),
        balance_path: path_spec(
            balance_leaf_hashes(balances_or_empty(s[id])),
            BALANCE_TREE_DEPTH as nat,
            token as nat,
        ),
    }
}

impl AccountTree {
    /// A well-formed tree: full width, well-formed accounts.
    pub open spec fn wf(&self) -> bool {
        ledger_wf(self@)
    }

    /// An empty ledger: every slot vacant.
    pub fn new() -> (t: AccountTree)
        ensures
            t@ =~= Seq::new(N_ACCOUNTS as nat, |i: int| Option::<AccountV>::None),
            t.wf(),
    {
        let mut accounts: Vec<Option<Account>> = Vec::new();
        while accounts.len() < N_ACCOUNTS
            invariant
                accounts@.len() <= N_ACCOUNTS,
                forall|i: int| 0 <= i < accounts@.len() ==> accounts@[i] is None,
            decreases N_ACCOUNTS - accounts@.len(),
        {
            accounts.push(Option::None);
        }
        AccountTree { accounts }
    }

    /// Leaf hash vector of the whole tree.
    fn leaf_hash_vec(&self) -> (v: Vec<u64>)
        requires
            self.wf(),
        ensures
            v@ == leaf_hashes(self@),
    {
        let mut v: Vec<u64> = Vec::new();
        let mut i: usize = 0;
        while i < self.accounts.len()
            invariant
                self.wf(),
                i <= self.accounts@.len(),
                v@.len() == i,
                forall|k: int| 0 <= k < i ==> v@[k] == account_leaf_hash(self@[k]),
            decreases self.accounts@.len() - i,
        {
            let slot = &self.accounts[i];
            proof {
                assert(self@[i as int] matches Some(x) ==> x.wf());
            }
            let h = match slot {
                Option::Some(a) => compute_account_leaf_hash(a),
                Option::None => EMPTY_LEAF_HASH,
            };
            v.push(h);
            i = i + 1;
        }
        proof {
            assert(v@ =~= leaf_hashes(self@));
        }
        v
    }

    /// The current root hash.
    pub fn root_hash(&self) -> (r: u64)
        requires
            self.wf(),
        ensures
            r == tree_root_spec(self@),
    {
        let leaves = self.leaf_hash_vec();
        proof {
            vstd::arithmetic::power2::lemma2_to64();
        }
        compute_root(&leaves, ACCOUNT_TREE_DEPTH)
    }

    /// Audit view of one account slot and one token slot. An absent account
    /// yields the canonical empty-leaf representation, never an error.
    pub fn get_leaf(&self, account_id: u32, token: u16) -> (w: AccountLeafView)
        requires
            self.wf(),
            account_id < N_ACCOUNTS,
            token < N_TOKENS,
        ensures
            w@ == leaf_view_spec(self@, account_id as int, token as int),
    {
        let leaves = self.leaf_hash_vec();
        proof {
            vstd::arithmetic::power2::lemma2_to64();
        }
        let root = compute_root(&leaves, ACCOUNT_TREE_DEPTH);
        let account_path = audit_path(&leaves, account_id as u64, ACCOUNT_TREE_DEPTH);
        let (content, balance, bal_leaves) = match &self.accounts[account_id as usize] {
            Option::Some(a) => (
                Option::Some(
                    AccountContent {
                        address: a.address,
                        pub_key_hash: a.pub_key_hash,
                        nonce: a.nonce,
                    },
                ),
                a.balances[token as usize],
                balance_leaf_vec(&a.balances),
            ),
            Option::None => {
                let zero = Account::default_with_address(&EthAddress { hi: 0, lo: 0 });
                (Option::None, 0u128, balance_leaf_vec(&zero.balances))
            },
        };
        let balance_path = audit_path(&bal_leaves, token as u64, BALANCE_TREE_DEPTH);
        AccountLeafView { root, account: content, balance, account_path, balance_path }
    }

    /// Overwrites one slot.
    pub fn set_account(&mut self, account_id: u32, value: Option<Account>)
        requires
            old(self).wf(),
            account_id < N_ACCOUNTS,
            value matches Some(a) ==> a@.wf(),
        ensures
            final(self)@ =~= old(self)@.update(account_id as int, opt_account_view(value)),
            final(self).wf(),
    {
        self.accounts[account_id as usize] = value;
        proof {
            assert forall|i: int|
                0 <= i < self@.len() implies (#[trigger] self@[i] matches Some(a) ==> a.wf()) by {
                if i != account_id as int {
                    assert(old(self)@[i] matches Some(a) ==> a.wf());
                }
            }
        }
    }
}

} // verus!
