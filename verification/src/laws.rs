//! Block-level laws of the witness subsystem, stated once over the spec
//! functions every executable contract is pinned to.

use vstd::prelude::*;
use crate::builder::noop_padding;
use crate::circuit::{
    circuit_ok, leaf_root_recomputed, lemma_leaf_view_recovers_root, CircuitInstanceV,
};
use crate::state::{apply_op_spec, op_valid, collect_fees_spec, apply_full_exit_spec, full_exit_valid};
use crate::ops::{FranklinOp, FullExitOp};
use crate::tree::{LedgerV, ledger_wf, leaf_view_spec, tree_root_spec, ACCOUNT_TREE_DEPTH, N_ACCOUNTS};
use crate::witness::{
    chunk_value, circuit_ops_of, op_witness_spec, full_exit_witness_spec, pubdata_of,
    CircuitOperation, OperationWitnessV, lemma_fragment_len, CHUNKS_PER_OP,
    PUBDATA_FRAGMENT_WIDTH,
};
use crate::hash::hash_bytes_seq;

verus! {

/// The ledger state after a whole block of classified operations.
pub open spec fn apply_ops_spec(s: LedgerV, ops: Seq<(FranklinOp, bool)>) -> LedgerV
    decreases ops.len(),
{
    if ops.len() == 0 {
        s
    } else {
        apply_ops_spec(apply_op_spec(s, ops[0].0, ops[0].1), ops.drop_first())
    }
}

/// Applicability of a whole block of classified operations, each against the
/// state its predecessors left.
pub open spec fn ops_valid(s: LedgerV, ops: Seq<(FranklinOp, bool)>) -> bool
    decreases ops.len(),
{
    if ops.len() == 0 {
        true
    } else {
        op_valid(s, ops[0].0, ops[0].1) && ops_valid(
            apply_op_spec(s, ops[0].0, ops[0].1),
            ops.drop_first(),
        )
    }
}

/// Determinism: witnessing one operation against equal ledger states yields
/// identical witnesses and identical successor states — the witness and the
/// transition are pure functions of the state, the operation, and the
/// success flag, which the executable generators' contracts pin them to.
pub proof fn lemma_witness_deterministic(s1: LedgerV, s2: LedgerV, op: FranklinOp, success: bool)
    requires
        s1 == s2,
    ensures
        op_witness_spec(s1, op, success) == op_witness_spec(s2, op, success),
        apply_op_spec(s1, op, success) == apply_op_spec(s2, op, success),
        tree_root_spec(apply_op_spec(s1, op, success)) == tree_root_spec(
            apply_op_spec(s2, op, success),
        ),
{
}

/// Cross-consistency: the canonical executor and the witness accumulator are
/// both pinned to the same transition functions, so two trees that start from
/// the same genesis state and replay the same classified operations and fee
/// credits end at the same root hash.
pub proof fn lemma_cross_consistency(
    g1: LedgerV,
    g2: LedgerV,
    ops: Seq<(FranklinOp, bool)>,
    fees: Seq<(u16, u128)>,
    fee_account: int,
)
    requires
        g1 == g2,
    ensures
        tree_root_spec(collect_fees_spec(apply_ops_spec(g1, ops), fees, fee_account))
            == tree_root_spec(collect_fees_spec(apply_ops_spec(g2, ops), fees, fee_account)),
{
}

/// Fixed-width pubdata: every witness's fragment has the one block-wide
/// width, whatever the operation kind, the input values, and the success
/// flag.
pub proof fn lemma_pubdata_fixed_width(w: OperationWitnessV)
    ensures
        pubdata_of(w).len() == PUBDATA_FRAGMENT_WIDTH,
{
    lemma_fragment_len(w.tx_type, w.account_id, w.second_account_id, w.token, w.amount, w.address);
}

/// Failure no-op: a failed full exit leaves the ledger — every account and
/// every balance — unchanged, its witness shows identical before and after
/// leaf views, its pubdata amount is zero, and the witness still carries a
/// full-length, non-empty audit path for the referenced account.
pub proof fn lemma_failed_full_exit_noop(s: LedgerV, op: FullExitOp)
    requires
        full_exit_valid(s, op, false),
    ensures
        apply_full_exit_spec(s, op, false) == s,
        full_exit_witness_spec(s, op, false).after == full_exit_witness_spec(s, op, false).before,
        full_exit_witness_spec(s, op, false).amount == 0,
        full_exit_witness_spec(s, op, false).before.account_path.len() == ACCOUNT_TREE_DEPTH,
        ACCOUNT_TREE_DEPTH > 0,
{
}

/// The audit path a failed full exit carries is not just non-empty but
/// valid: hashing the captured (possibly empty) leaf up that path recovers
/// the ledger's unchanged root.
pub proof fn lemma_failed_full_exit_audit_path(s: LedgerV, op: FullExitOp)
    requires
        ledger_wf(s),
        full_exit_valid(s, op, false),
    ensures
        leaf_root_recomputed(
            full_exit_witness_spec(s, op, false).before,
            op.priority_op.account_id as nat,
            op.priority_op.token as nat,
        ) == tree_root_spec(s),
{
    lemma_leaf_view_recovers_root(
        s,
        op.priority_op.account_id as int,
        op.priority_op.token as int,
    );
}

/// Ledger invariants: no transition ever removes an account, and no account's
/// nonce ever decreases. (Balances cannot go negative by construction: they
/// are unsigned, and every debit is guarded by a sufficiency condition.)
pub proof fn lemma_accounts_persist_and_nonces_grow(
    s: LedgerV,
    op: FranklinOp,
    success: bool,
    id: int,
)
    requires
        ledger_wf(s),
        op_valid(s, op, success),
        0 <= id < s.len(),
        s[id] is Some,
    ensures
        apply_op_spec(s, op, success)[id] is Some,
        crate::state::account_at(apply_op_spec(s, op, success), id).nonce >= crate::state::account_at(
            s,
            id,
        ).nonce,
{
    let s2 = apply_op_spec(s, op, success);
    match op {
        FranklinOp::Noop => {
            assert(s2 == s);
        },
        FranklinOp::Deposit(o) => {
            assert(s2 == crate::state::apply_deposit_spec(s, o));
            if id != o.account_id as int {
                assert(s2[id] == s[id]);
            }
        },
        FranklinOp::Transfer(o) => {
            assert(s2 == crate::state::apply_transfer_spec(s, o));
            if id != o.from as int && id != o.to as int {
                assert(s2[id] == s[id]);
            }
        },
        FranklinOp::Withdraw(o) => {
            assert(s2 == crate::state::apply_withdraw_spec(s, o));
            if id != o.account_id as int {
                assert(s2[id] == s[id]);
            }
        },
        FranklinOp::ChangePubKey(o) => {
            assert(s2 == crate::state::apply_change_pubkey_spec(s, o));
            if id != o.account_id as int {
                assert(s2[id] == s[id]);
            }
        },
        FranklinOp::FullExit(o) => {
            assert(s2 == apply_full_exit_spec(s, o, success));
            if success && id != o.priority_op.account_id as int {
                assert(s2[id] == s[id]);
            }
        },
    }
}

/// The pubdata fragments of a block's witnesses, concatenated in order.
pub open spec fn concat_fragments(ws: Seq<OperationWitnessV>) -> Seq<u8>
    decreases ws.len(),
{
    if ws.len() == 0 {
        Seq::empty()
    } else {
        concat_fragments(ws.drop_last()) + pubdata_of(ws.last())
    }
}

/// The circuit operations of a block's witnesses, concatenated in order.
pub open spec fn concat_circuit_ops(ws: Seq<OperationWitnessV>) -> Seq<CircuitOperation>
    decreases ws.len(),
{
    if ws.len() == 0 {
        Seq::empty()
    } else {
        concat_circuit_ops(ws.drop_last()) + circuit_ops_of(ws.last())
    }
}

pub proof fn lemma_concat_fragments_len(ws: Seq<OperationWitnessV>)
    ensures
        concat_fragments(ws).len() == PUBDATA_FRAGMENT_WIDTH * ws.len(),
    decreases ws.len(),
{
    if ws.len() > 0 {
        lemma_concat_fragments_len(ws.drop_last());
        lemma_pubdata_fixed_width(ws.last());
    }
}

pub proof fn lemma_concat_circuit_ops_len(ws: Seq<OperationWitnessV>)
    ensures
        concat_circuit_ops(ws).len() == CHUNKS_PER_OP * ws.len(),
    decreases ws.len(),
{
    if ws.len() > 0 {
        lemma_concat_circuit_ops_len(ws.drop_last());
    }
}

/// A chunk read inside the front part of a concatenation ignores the back.
proof fn lemma_chunk_in_prefix(front: Seq<u8>, back: Seq<u8>, j: int)
    requires
        0 <= j,
        8 * j + 8 <= front.len(),
    ensures
        chunk_value(front + back, j) == chunk_value(front, j),
{
    assert((front + back).subrange(8 * j, 8 * j + 8) =~= front.subrange(8 * j, 8 * j + 8));
}

/// A chunk read past an 8-aligned front part is a chunk of the back.
proof fn lemma_chunk_in_suffix(front: Seq<u8>, back: Seq<u8>, k: int, j: int)
    requires
        0 <= k,
        8 * k + 8 <= back.len(),
        8 * j == front.len() + 8 * k,
    ensures
        chunk_value(front + back, j) == chunk_value(back, k),
{
    assert((front + back).subrange(8 * j, 8 * j + 8) =~= back.subrange(8 * k, 8 * k + 8));
}

/// Every entry of the concatenated circuit operations re-reads its own chunk
/// of the concatenated pubdata.
proof fn lemma_concat_ops_reread(ws: Seq<OperationWitnessV>, j: int)
    requires
        0 <= j < CHUNKS_PER_OP * ws.len(),
    ensures
        concat_circuit_ops(ws)[j].chunk == (j % (CHUNKS_PER_OP as int)) as u8,
        concat_circuit_ops(ws)[j].pubdata_chunk == chunk_value(concat_fragments(ws), j),
    decreases ws.len(),
{
    let n = ws.len() as int;
    let prefix = ws.drop_last();
    lemma_concat_fragments_len(prefix);
    lemma_concat_circuit_ops_len(prefix);
    lemma_pubdata_fixed_width(ws.last());
    if j < CHUNKS_PER_OP * (n - 1) {
        lemma_concat_ops_reread(prefix, j);
        assert(concat_circuit_ops(ws)[j] == concat_circuit_ops(prefix)[j]);
        lemma_chunk_in_prefix(concat_fragments(prefix), pubdata_of(ws.last()), j);
    } else {
        let k = j - CHUNKS_PER_OP * (n - 1);
        assert(concat_circuit_ops(ws)[j] == circuit_ops_of(ws.last())[k]);
        assert(j % (CHUNKS_PER_OP as int) == k);
        lemma_chunk_in_suffix(concat_fragments(prefix), pubdata_of(ws.last()), k, j);
    }
}

/// Conformance of honest blocks: an instance assembled the canonical way —
/// pubdata is the witnesses' fragments plus no-op padding, the operations
/// are the witnesses' chunk expansions, the commitment re-hashes the
/// pubdata, and the fee-account view and recorded root both come from the
/// final ledger state — always passes the conformance checker.
pub proof fn lemma_assembled_block_checks_out(
    ws: Seq<OperationWitnessV>,
    s_final: LedgerV,
    c: CircuitInstanceV,
)
    requires
        ledger_wf(s_final),
        c.fee_account_id < N_ACCOUNTS,
        ws.len() <= c.block_size,
        c.pubdata == concat_fragments(ws) + noop_padding((c.block_size - ws.len()) as nat),
        c.operations == concat_circuit_ops(ws),
        c.pubdata_commitment == hash_bytes_seq(c.pubdata),
        c.root_after_fees == tree_root_spec(s_final),
        c.fee_account_witness == leaf_view_spec(s_final, c.fee_account_id as int, 0),
    ensures
        circuit_ok(c),
{
    lemma_concat_fragments_len(ws);
    lemma_concat_circuit_ops_len(ws);
    lemma_leaf_view_recovers_root(s_final, c.fee_account_id as int, 0);
    assert forall|j: int|
        0 <= j < c.operations.len() implies (#[trigger] c.operations[j]).chunk == (j % (
    CHUNKS_PER_OP as int)) as u8 && c.operations[j].pubdata_chunk == chunk_value(
        c.pubdata,
        j,
    ) by {
        lemma_concat_ops_reread(ws, j);
        lemma_chunk_in_prefix(
            concat_fragments(ws),
            noop_padding((c.block_size - ws.len()) as nat),
            j,
        );
    }
}

} // verus!
