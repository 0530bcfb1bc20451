//! Per-operation witness generation. Each generator captures the touched
//! leaf's audit view before mutation, applies the operation's transition to
//! the tree it owns (the same transition the canonical executor is pinned
//! to), captures the view after, and derives the operation's fixed-width
//! pubdata fragment. Success and failure variants of one kind produce
//! different fragment contents but the same fragment length.

use vstd::prelude::*;
use crate::bytes::{
    EthAddress, address_bytes, be_bytes, be_value, push_address_bytes, push_be_bytes,
    lemma_be_bytes_len, lemma_address_bytes_len,
};
use crate::ops::{
    DepositOp, TransferOp, WithdrawOp, ChangePubKeyOp, FullExitOp, FranklinOp, TAG_NOOP,
    TAG_DEPOSIT, TAG_WITHDRAW, TAG_TRANSFER, TAG_CHANGE_PUBKEY, TAG_FULL_EXIT,
};
use crate::state::{
    account_at, apply_deposit, apply_deposit_spec, apply_transfer, apply_transfer_spec,
    apply_withdraw, apply_withdraw_spec, apply_change_pubkey, apply_change_pubkey_spec,
    apply_full_exit, apply_full_exit_spec, apply_op_spec, deposit_valid, transfer_valid,
    withdraw_valid, change_pubkey_valid, full_exit_valid, op_valid,
};
use crate::tree::{AccountTree, AccountLeafView, AccountLeafViewV, LedgerV, leaf_view_spec};
use vstd::arithmetic::power2::{
    pow2, lemma2_to64, lemma2_to64_rest, lemma_pow2_adds, lemma_pow2_strictly_increases,
};

verus! {

/// Width in bytes of every operation's pubdata fragment, identical across
/// all kinds so a block's pubdata is always `capacity * PUBDATA_FRAGMENT_WIDTH`.
pub const PUBDATA_FRAGMENT_WIDTH: usize = 48;

/// A fragment feeds the circuit as fixed 8-byte chunks.
pub const CHUNK_BYTES: usize = 8;

/// Chunks per fragment.
pub const CHUNKS_PER_OP: usize = 6;

/// The fixed pubdata layout, shared by every operation kind:
/// tag, account id, second account id (transfers only), token, amount,
/// base-chain address, and one byte of padding.
pub open spec fn fragment_spec(
    tag: u8,
    account_id: u32,
    second_account_id: u32,
    token: u16,
    amount: u128,
    address: EthAddress,
) -> Seq<u8> {
    seq![tag] + be_bytes(account_id as nat, 4) + be_bytes(second_account_id as nat, 4) + be_bytes(
        token as nat,
        2,
    ) + be_bytes(amount as nat, 16) + address_bytes(address) + be_bytes(0, 1)
}

/// Every fragment has the same width, whatever the kind, the values, and the
/// success flag.
pub broadcast proof fn lemma_fragment_len(
    tag: u8,
    account_id: u32,
    second_account_id: u32,
    token: u16,
    amount: u128,
    address: EthAddress,
)
    ensures
        #[trigger] fragment_spec(tag, account_id, second_account_id, token, amount, address).len()
            == PUBDATA_FRAGMENT_WIDTH,
{
    lemma_be_bytes_len(account_id as nat, 4);
    lemma_be_bytes_len(second_account_id as nat, 4);
    lemma_be_bytes_len(token as nat, 2);
    lemma_be_bytes_len(amount as nat, 16);
    lemma_address_bytes_len(address);
    lemma_be_bytes_len(0, 1);
}

/// The audit trail of one operation: its identifying values and the touched
/// leaves' views before and after the transition. Transfers carry the
/// receiving account's views in the secondary slots.
pub struct OperationWitness {
    pub tx_type: u8,
    pub account_id: u32,
    pub second_account_id: u32,
    pub token: u16,
    pub amount: u128,
    pub address: EthAddress,
    pub success: bool,
    pub before: AccountLeafView,
    pub after: AccountLeafView,
    pub second_before: Option<AccountLeafView>,
    pub second_after: Option<AccountLeafView>,
}

/// Mathematical content of `OperationWitness`.
pub ghost struct OperationWitnessV {
    pub tx_type: u8,
    pub account_id: u32,
    pub second_account_id: u32,
    pub token: u16,
    pub amount: u128,
    pub address: EthAddress,
    pub success: bool,
    pub before: AccountLeafViewV,
    pub after: AccountLeafViewV,
    pub second_before: Option<AccountLeafViewV>,
    pub second_after: Option<AccountLeafViewV>,
}

/// View of an optional leaf view.
pub open spec fn opt_leaf_view(x: Option<AccountLeafView>) -> Option<AccountLeafViewV> {
    match x {
        Option::None => Option::None,
        Option::Some(w) => Option::Some(w@),
    }
}

impl View for OperationWitness {
    type V = OperationWitnessV;

    open spec fn view(&self) -> OperationWitnessV {
        OperationWitnessV {
            tx_type: self.tx_type,
            account_id: self.account_id,
            second_account_id: self.second_account_id,
            token: self.token,
            amount: self.amount,
            address: self.address,
            success: self.success,
            before: self.before@,
            after: self.after@,
            second_before: opt_leaf_view(self.second_before),
            second_after: opt_leaf_view(self.second_after),
        }
    }
}

/// The pubdata fragment a witness describes.
pub open spec fn pubdata_of(w: OperationWitnessV) -> Seq<u8> {
    fragment_spec(w.tx_type, w.account_id, w.second_account_id, w.token, w.amount, w.address)
}

impl OperationWitness {
    /// Renders the fixed-width pubdata fragment of this operation.
    pub fn get_pubdata(&self) -> (r: Vec<u8>)
        ensures
            r@ == pubdata_of(self@),
            r@.len() == PUBDATA_FRAGMENT_WIDTH,
    {
        proof {
            lemma_fragment_len(
                self.tx_type,
                self.account_id,
                self.second_account_id,
                self.token,
                self.amount,
                self.address,
            );
            lemma_be_bytes_len(self.account_id as nat, 4);
            lemma_be_bytes_len(self.second_account_id as nat, 4);
            lemma_be_bytes_len(self.token as nat, 2);
            lemma_be_bytes_len(self.amount as nat, 16);
            lemma_address_bytes_len(self.address);
            lemma_be_bytes_len(0, 1);
        }
        let mut r: Vec<u8> = Vec::new();
        r.push(self.tx_type);
        push_be_bytes(&mut r, self.account_id as u128, 4);
        push_be_bytes(&mut r, self.second_account_id as u128, 4);
        push_be_bytes(&mut r, self.token as u128, 2);
        push_be_bytes(&mut r, self.amount, 16);
        push_address_bytes(&mut r, self.address);
        push_be_bytes(&mut r, 0, 1);
        proof {
            assert(r@ =~= pubdata_of(self@));
        }
        r
    }
}

// ---------------------------------------------------------------- per-kind witnesses

/// Witness of a deposit.
pub open spec fn deposit_witness_spec(s: LedgerV, op: DepositOp) -> OperationWitnessV {
    let id = op.account_id as int;
    let token = op.priority_op.token as int;
    let s2 = apply_deposit_spec(s, op);
    OperationWitnessV {
        tx_type: TAG_DEPOSIT,
        account_id: op.account_id,
        second_account_id: 0,
        token: op.priority_op.token,
        amount: op.priority_op.amount,
        address: op.priority_op.to,
        success: true,
        before: leaf_view_spec(s, id, token),
        after: leaf_view_spec(s2, id, token),
        second_before: Option::None,
        second_after: Option::None,
    }
}

/// Applies a deposit to the witness-side tree and emits its witness.
pub fn apply_deposit_tx(tree: &mut AccountTree, op: &DepositOp) -> (w: OperationWitness)
    requires
        old(tree).wf(),
        deposit_valid(old(tree)@, *op),
    ensures
        final(tree).wf(),
        final(tree)@ == apply_deposit_spec(old(tree)@, *op),
        w@ == deposit_witness_spec(old(tree)@, *op),
{
    let before = tree.get_leaf(op.account_id, op.priority_op.token);
    apply_deposit(tree, op);
    let after = tree.get_leaf(op.account_id, op.priority_op.token);
    OperationWitness {
        tx_type: TAG_DEPOSIT,
        account_id: op.account_id,
        second_account_id: 0,
        token: op.priority_op.token,
        amount: op.priority_op.amount,
        address: op.priority_op.to,
        success: true,
        before,
        after,
        second_before: Option::None,
        second_after: Option::None,
    }
}

/// Witness of a transfer: the sender's views in the primary slots, the
/// receiver's in the secondary ones.
pub open spec fn transfer_witness_spec(s: LedgerV, op: TransferOp) -> OperationWitnessV {
    let token = op.token as int;
    let s2 = apply_transfer_spec(s, op);
    OperationWitnessV {
        tx_type: TAG_TRANSFER,
        account_id: op.from,
        second_account_id: op.to,
        token: op.token,
        amount: op.amount,
        address: account_at(s, op.from as int).address,
        success: true,
        before: leaf_view_spec(s, op.from as int, token),
        after: leaf_view_spec(s2, op.from as int, token),
        second_before: Option::Some(leaf_view_spec(s, op.to as int, token)),
        second_after: Option::Some(leaf_view_spec(s2, op.to as int, token)),
    }
}

/// Applies a transfer to the witness-side tree and emits its witness.
pub fn apply_transfer_tx(tree: &mut AccountTree, op: &TransferOp) -> (w: OperationWitness)
    requires
        old(tree).wf(),
        transfer_valid(old(tree)@, *op),
    ensures
        final(tree).wf(),
        final(tree)@ == apply_transfer_spec(old(tree)@, *op),
        w@ == transfer_witness_spec(old(tree)@, *op),
{
    let before = tree.get_leaf(op.from, op.token);
    let second_before = tree.get_leaf(op.to, op.token);
    let sender_address = match &tree.accounts[op.from as usize] {
        Option::Some(a) => a.address,
        Option::None => unreached(),
    };
    apply_transfer(tree, op);
    let after = tree.get_leaf(op.from, op.token);
    let second_after = tree.get_leaf(op.to, op.token);
    OperationWitness {
        tx_type: TAG_TRANSFER,
        account_id: op.from,
        second_account_id: op.to,
        token: op.token,
        amount: op.amount,
        address: sender_address,
        success: true,
        before,
        after,
        second_before: Option::Some(second_before),
        second_after: Option::Some(second_after),
    }
}

/// Witness of a withdrawal.
pub open spec fn withdraw_witness_spec(s: LedgerV, op: WithdrawOp) -> OperationWitnessV {
    let id = op.account_id as int;
    let token = op.token as int;
    let s2 = apply_withdraw_spec(s, op);
    OperationWitnessV {
        tx_type: TAG_WITHDRAW,
        account_id: op.account_id,
        second_account_id: 0,
        token: op.token,
        amount: op.amount,
        address: op.eth_address,
        success: true,
        before: leaf_view_spec(s, id, token),
        after: leaf_view_spec(s2, id, token),
        second_before: Option::None,
        second_after: Option::None,
    }
}

/// Applies a withdrawal to the witness-side tree and emits its witness.
pub fn apply_withdraw_tx(tree: &mut AccountTree, op: &WithdrawOp) -> (w: OperationWitness)
    requires
        old(tree).wf(),
        withdraw_valid(old(tree)@, *op),
    ensures
        final(tree).wf(),
        final(tree)@ == apply_withdraw_spec(old(tree)@, *op),
        w@ == withdraw_witness_spec(old(tree)@, *op),
{
    let before = tree.get_leaf(op.account_id, op.token);
    apply_withdraw(tree, op);
    let after = tree.get_leaf(op.account_id, op.token);
    OperationWitness {
        tx_type: TAG_WITHDRAW,
        account_id: op.account_id,
        second_account_id: 0,
        token: op.token,
        amount: op.amount,
        address: op.eth_address,
        success: true,
        before,
        after,
        second_before: Option::None,
        second_after: Option::None,
    }
}

/// Witness of a key change. The amount field of its pubdata is zero.
pub open spec fn change_pubkey_witness_spec(s: LedgerV, op: ChangePubKeyOp) -> OperationWitnessV {
    let id = op.account_id as int;
    let s2 = apply_change_pubkey_spec(s, op);
    OperationWitnessV {
        tx_type: TAG_CHANGE_PUBKEY,
        account_id: op.account_id,
        second_account_id: 0,
        token: 0,
        amount: 0,
        address: account_at(s, op.account_id as int).address,
        success: true,
        before: leaf_view_spec(s, id, 0),
        after: leaf_view_spec(s2, id, 0),
        second_before: Option::None,
        second_after: Option::None,
    }
}

/// Applies a key change to the witness-side tree and emits its witness.
pub fn apply_change_pubkey_tx(tree: &mut AccountTree, op: &ChangePubKeyOp) -> (w:
    OperationWitness)
    requires
        old(tree).wf(),
        change_pubkey_valid(old(tree)@, *op),
    ensures
        final(tree).wf(),
        final(tree)@ == apply_change_pubkey_spec(old(tree)@, *op),
        w@ == change_pubkey_witness_spec(old(tree)@, *op),
{
    let before = tree.get_leaf(op.account_id, 0);
    let address = match &tree.accounts[op.account_id as usize] {
        Option::Some(a) => a.address,
        Option::None => unreached(),
    };
    apply_change_pubkey(tree, op);
    let after = tree.get_leaf(op.account_id, 0);
    OperationWitness {
        tx_type: TAG_CHANGE_PUBKEY,
        account_id: op.account_id,
        second_account_id: 0,
        token: 0,
        amount: 0,
        address,
        success: true,
        before,
        after,
        second_before: Option::None,
        second_after: Option::None,
    }
}

/// Witness of a full exit. A failed exit (absent account or empty amount)
/// mutates nothing, yet still carries a valid audit path for the referenced
/// slot, and its pubdata amount field is zero.
pub open spec fn full_exit_witness_spec(s: LedgerV, op: FullExitOp, success: bool)
    -> OperationWitnessV {
    let id = op.priority_op.account_id as int;
    let token = op.priority_op.token as int;
    let s2 = apply_full_exit_spec(s, op, success);
    OperationWitnessV {
        tx_type: TAG_FULL_EXIT,
        account_id: op.priority_op.account_id,
        second_account_id: 0,
        token: op.priority_op.token,
        amount: if success {
            op.withdraw_amount->Some_0
        } else {
            0
        },
        address: op.priority_op.eth_address,
        success,
        before: leaf_view_spec(s, id, token),
        after: leaf_view_spec(s2, id, token),
        second_before: Option::None,
        second_after: Option::None,
    }
}

/// Applies a full exit to the witness-side tree and emits its witness. The
/// success flag is the upstream classification and must match the ledger.
pub fn apply_full_exit_tx(tree: &mut AccountTree, op: &FullExitOp, success: bool) -> (w:
    OperationWitness)
    requires
        old(tree).wf(),
        full_exit_valid(old(tree)@, *op, success),
    ensures
        final(tree).wf(),
        final(tree)@ == apply_full_exit_spec(old(tree)@, *op, success),
        w@ == full_exit_witness_spec(old(tree)@, *op, success),
{
    let before = tree.get_leaf(op.priority_op.account_id, op.priority_op.token);
    apply_full_exit(tree, op, success);
    let after = tree.get_leaf(op.priority_op.account_id, op.priority_op.token);
    let amount: u128 = if success {
        match op.withdraw_amount {
            Option::Some(a) => a,
            Option::None => unreached(),
        }
    } else {
        0
    };
    OperationWitness {
        tx_type: TAG_FULL_EXIT,
        account_id: op.priority_op.account_id,
        second_account_id: 0,
        token: op.priority_op.token,
        amount,
        address: op.priority_op.eth_address,
        success,
        before,
        after,
        second_before: Option::None,
        second_after: Option::None,
    }
}

/// The witness any one operation produces.
pub open spec fn op_witness_spec(s: LedgerV, op: FranklinOp, success: bool) -> OperationWitnessV {
    match op {
        FranklinOp::Noop => noop_witness_spec(s),
        FranklinOp::Deposit(o) => deposit_witness_spec(s, o),
        FranklinOp::Transfer(o) => transfer_witness_spec(s, o),
        FranklinOp::Withdraw(o) => withdraw_witness_spec(s, o),
        FranklinOp::ChangePubKey(o) => change_pubkey_witness_spec(s, o),
        FranklinOp::FullExit(o) => full_exit_witness_spec(s, o, success),
    }
}

/// Witness of a no-op: slot zero audited, nothing mutated, all-zero pubdata
/// values under the no-op tag.
pub open spec fn noop_witness_spec(s: LedgerV) -> OperationWitnessV {
    OperationWitnessV {
        tx_type: TAG_NOOP,
        account_id: 0,
        second_account_id: 0,
        token: 0,
        amount: 0,
        address: EthAddress { hi: 0, lo: 0 },
        success: true,
        before: leaf_view_spec(s, 0, 0),
        after: leaf_view_spec(s, 0, 0),
        second_before: Option::None,
        second_after: Option::None,
    }
}

/// Emits the witness of a no-op; the tree is untouched.
pub fn apply_noop_tx(tree: &mut AccountTree) -> (w: OperationWitness)
    requires
        old(tree).wf(),
    ensures
        final(tree).wf(),
        final(tree)@ == old(tree)@,
        w@ == noop_witness_spec(old(tree)@),
{
    let leaf = tree.get_leaf(0, 0);
    let leaf_again = tree.get_leaf(0, 0);
    OperationWitness {
        tx_type: TAG_NOOP,
        account_id: 0,
        second_account_id: 0,
        token: 0,
        amount: 0,
        address: EthAddress { hi: 0, lo: 0 },
        success: true,
        before: leaf,
        after: leaf_again,
        second_before: Option::None,
        second_after: Option::None,
    }
}

/// Applies one operation to the witness-side tree and emits its witness:
/// the per-kind generators behind one exhaustive dispatch.
pub fn apply_and_witness(tree: &mut AccountTree, op: &FranklinOp, success: bool) -> (w:
    OperationWitness)
    requires
        old(tree).wf(),
        op_valid(old(tree)@, *op, success),
    ensures
        final(tree).wf(),
        final(tree)@ == apply_op_spec(old(tree)@, *op, success),
        w@ == op_witness_spec(old(tree)@, *op, success),
{
    match op {
        FranklinOp::Noop => apply_noop_tx(tree),
        FranklinOp::Deposit(o) => apply_deposit_tx(tree, o),
        FranklinOp::Transfer(o) => apply_transfer_tx(tree, o),
        FranklinOp::Withdraw(o) => apply_withdraw_tx(tree, o),
        FranklinOp::ChangePubKey(o) => apply_change_pubkey_tx(tree, o),
        FranklinOp::FullExit(o) => apply_full_exit_tx(tree, o, success),
    }
}

// ---------------------------------------------------------------- circuit operations

/// One 8-byte pubdata chunk of an operation, as the circuit replays it.
#[derive(Clone, Copy, PartialEq, Eq, Structural, Debug)]
pub struct CircuitOperation {
    pub tx_type: u8,
    pub chunk: u8,
    pub pubdata_chunk: u64,
}

/// The big-endian value of chunk `k` of a fragment.
pub open spec fn chunk_value(frag: Seq<u8>, k: int) -> u64 {
    be_value(frag.subrange(8 * k, 8 * k + 8)) as u64
}

/// The chunk sequence a witness expands to.
pub open spec fn circuit_ops_of(w: OperationWitnessV) -> Seq<CircuitOperation> {
    Seq::new(
        CHUNKS_PER_OP as nat,
        |k: int| CircuitOperation {
            tx_type: w.tx_type,
            chunk: k as u8,
            pubdata_chunk: chunk_value(pubdata_of(w), k),
        },
    )
}

/// The big-endian value of `frag[8k .. 8k + 8]`.
pub fn compute_chunk(frag: &Vec<u8>, k: usize) -> (r: u64)
    requires
        8 * k + 8 <= frag@.len(),
    ensures
        r == chunk_value(frag@, k as int),
{
    let _len: usize = frag.len();
    let mut acc: u64 = 0;
    let mut j: usize = 0;
    proof {
        lemma2_to64();
        assert(frag@.subrange(8 * k as int, 8 * k as int) =~= Seq::<u8>::empty());
    }
    while j < CHUNK_BYTES
        invariant
            j <= CHUNK_BYTES,
            8 * k + 8 <= frag@.len(),
            frag@.len() <= usize::MAX,
            acc == be_value(frag@.subrange(8 * k as int, 8 * k + j)),
            acc < pow2((8 * j) as nat),
        decreases CHUNK_BYTES - j,
    {
        proof {
            lemma2_to64();
            lemma2_to64_rest();
            lemma_pow2_adds((8 * j) as nat, 8);
            if 8 * j < 56 {
                lemma_pow2_strictly_increases((8 * j) as nat, 56);
            }
            assert(frag@.subrange(8 * k as int, 8 * k + j + 1).drop_last() =~= frag@.subrange(
                8 * k as int,
                8 * k + j,
            ));
        }
        acc = acc * 256 + (frag[8 * k + j] as u64);
        j = j + 1;
    }
    acc
}

/// Expands a witness into its per-chunk circuit operations.
pub fn calculate_operations_from_witness(w: &OperationWitness) -> (r: Vec<CircuitOperation>)
    ensures
        r@ == circuit_ops_of(w@),
{
    let frag = w.get_pubdata();
    let mut r: Vec<CircuitOperation> = Vec::new();
    let mut k: usize = 0;
    while k < CHUNKS_PER_OP
        invariant
            k <= CHUNKS_PER_OP,
            frag@ == pubdata_of(w@),
            frag@.len() == PUBDATA_FRAGMENT_WIDTH,
            r@.len() == k,
            forall|i: int| 0 <= i < k ==> r@[i] == circuit_ops_of(w@)[i],
        decreases CHUNKS_PER_OP - k,
    {
        let value = compute_chunk(&frag, k);
        r.push(CircuitOperation { tx_type: w.tx_type, chunk: k as u8, pubdata_chunk: value });
        k = k + 1;
    }
    proof {
        assert(r@ =~= circuit_ops_of(w@));
    }
    r
}

/// Expands a full-exit witness into its circuit operations.
pub fn calculate_full_exit_operations_from_witness(w: &OperationWitness) -> (r: Vec<
    CircuitOperation,
>)
    requires
        w.tx_type == TAG_FULL_EXIT,
    ensures
        r@ == circuit_ops_of(w@),
{
    calculate_operations_from_witness(w)
}

} // verus!
