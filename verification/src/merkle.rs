//! Fixed-depth binary Merkle trees over a sequence of leaf hashes: the root,
//! the audit path of a leaf (its siblings, bottom up), and the circuit-side
//! recomputation of a root from a leaf and its path. Leaves past the end of
//! the sequence count as the zero hash, so a sparse tree and its dense
//! completion have the same root.

use vstd::prelude::*;
use vstd::arithmetic::power2::{
    pow2, lemma_pow2_pos, lemma_pow2_unfold, lemma_pow2_strictly_increases, lemma2_to64,
};
use vstd::arithmetic::div_mod::{lemma_fundamental_div_mod, lemma_div_denominator};
use crate::hash::{hash_pair, mix_pair};

verus! {

/// Hash of the subtree of height `lvl` whose leaves are
/// `leaves[idx * 2^lvl .. (idx + 1) * 2^lvl]`; absent leaves count as 0.
pub open spec fn node_hash(leaves: Seq<u64>, lvl: nat, idx: nat) -> u64
    decreases lvl,
{
    if lvl == 0 {
        if idx < leaves.len() {
            leaves[idx as int]
        } else {
            0
        }
    } else {
        hash_pair(
            node_hash(leaves, (lvl - 1) as nat, 2 * idx),
            node_hash(leaves, (lvl - 1) as nat, 2 * idx + 1),
        )
    }
}

/// Computes `node_hash` by structural recursion over the subtree.
pub fn compute_node(leaves: &Vec<u64>, lvl: usize, idx: u64) -> (r: u64)
    requires
        (idx + 1) * pow2(lvl as nat) <= 0x1_0000_0000_0000,
    ensures
        r == node_hash(leaves@, lvl as nat, idx as nat),
    decreases lvl,
{
    proof {
        lemma_pow2_pos(lvl as nat);
        assert(idx < 0x1_0000_0000_0000) by (nonlinear_arith)
            requires
                (idx + 1) * pow2(lvl as nat) <= 0x1_0000_0000_0000 && pow2(lvl as nat) >= 1,
        ;
    }
    if lvl == 0 {
        if idx < leaves.len() as u64 {
            leaves[idx as usize]
        } else {
            0
        }
    } else {
        proof {
            lemma_pow2_unfold(lvl as nat);
            lemma_pow2_pos((lvl - 1) as nat);
            assert((2 * idx + 2) * pow2((lvl - 1) as nat) == (idx + 1) * pow2(lvl as nat))
                by (nonlinear_arith)
                requires
                    pow2(lvl as nat) == 2 * pow2((lvl - 1) as nat),
            ;
            assert((2 * idx + 1) * pow2((lvl - 1) as nat) <= (2 * idx + 2) * pow2(
                (lvl - 1) as nat,
            )) by (nonlinear_arith)
                requires
                    pow2((lvl - 1) as nat) >= 1,
            ;
        }
        let left = compute_node(leaves, lvl - 1, 2 * idx);
        let right = compute_node(leaves, lvl - 1, 2 * idx + 1);
        mix_pair(left, right)
    }
}

/// Computes the root of the depth-`depth` tree over `leaves`.
pub fn compute_root(leaves: &Vec<u64>, depth: usize) -> (r: u64)
    requires
        pow2(depth as nat) <= 0x1_0000_0000_0000,
    ensures
        r == node_hash(leaves@, depth as nat, 0),
{
    compute_node(leaves, depth, 0)
}

/// Index of the sibling, at height `lvl`, of the ancestor of leaf `idx`.
pub open spec fn sibling_index(idx: nat, lvl: nat) -> nat {
    let c = idx / pow2(lvl);
    if c % 2 == 0 {
        c + 1
    } else {
        (c - 1) as nat
    }
}

/// The audit path of leaf `idx`: its sibling's hash, then the sibling of its
/// parent, and so on up to just below the root.
pub open spec fn path_spec(leaves: Seq<u64>, depth: nat, idx: nat) -> Seq<u64> {
    Seq::new(depth, |k: int| node_hash(leaves, k as nat, sibling_index(idx, k as nat)))
}

/// Computes the audit path of leaf `idx` in the depth-`depth` tree.
pub fn audit_path(leaves: &Vec<u64>, idx: u64, depth: usize) -> (p: Vec<u64>)
    requires
        idx < 0x1000_0000,
        depth <= 32,
    ensures
        p@ == path_spec(leaves@, depth as nat, idx as nat),
{
    let mut p: Vec<u64> = Vec::new();
    let mut cur: u64 = idx;
    let mut lvl: usize = 0;
    proof {
        vstd::arithmetic::power2::lemma2_to64();
    }
    while lvl < depth
        invariant
            lvl <= depth,
            depth <= 32,
            idx < 0x1000_0000,
            cur == idx as nat / pow2(lvl as nat),
            p@.len() == lvl,
            forall|k: int|
                0 <= k < lvl ==> p@[k] == node_hash(
                    leaves@,
                    k as nat,
                    sibling_index(idx as nat, k as nat),
                ),
        decreases depth - lvl,
    {
        proof {
            lemma_pow2_pos(lvl as nat);
            lemma_fundamental_div_mod(idx as int, pow2(lvl as nat) as int);
            if lvl < 33 {
                lemma_pow2_strictly_increases(lvl as nat, 33);
            }
            vstd::arithmetic::power2::lemma2_to64_rest();
            // cur * pow2(lvl) <= idx, so (cur + 2) * pow2(lvl) stays far below 2^48
            assert((cur + 2) * pow2(lvl as nat) == cur * pow2(lvl as nat) + 2 * pow2(lvl as nat))
                by (nonlinear_arith);
            assert(cur * pow2(lvl as nat) <= idx) by (nonlinear_arith)
                requires
                    idx as int == pow2(lvl as nat) * (cur as int) + idx as int % pow2(
                        lvl as nat,
                    ) as int && idx as int % pow2(lvl as nat) as int >= 0,
            ;
        }
        let sib: u64 = if cur % 2 == 0 {
            cur + 1
        } else {
            cur - 1
        };
        let h = compute_node(leaves, lvl, sib);
        p.push(h);
        proof {
            lemma_pow2_unfold((lvl + 1) as nat);
            lemma_div_denominator(idx as int, pow2(lvl as nat) as int, 2);
        }
        cur = cur / 2;
        lvl = lvl + 1;
    }
    proof {
        assert(p@ =~= path_spec(leaves@, depth as nat, idx as nat));
    }
    p
}

/// Root recomputed, circuit-style, from a leaf hash `h` at index `idx` and
/// its audit path: at each step the current hash is combined with the next
/// sibling, on the side the index bit selects.
pub open spec fn recompute_path(h: u64, idx: nat, path: Seq<u64>) -> u64
    decreases path.len(),
{
    if path.len() == 0 {
        h
    } else {
        let joined = if idx % 2 == 0 {
            hash_pair(h, path[0])
        } else {
            hash_pair(path[0], h)
        };
        recompute_path(joined, idx / 2, path.drop_first())
    }
}

/// Appending one more sibling to a path combines it at the top, on the side
/// the index bit at that height selects.
proof fn lemma_recompute_push(h: u64, idx: nat, path: Seq<u64>, x: u64)
    ensures
        recompute_path(h, idx, path.push(x)) == if (idx / pow2(path.len())) % 2 == 0 {
            hash_pair(recompute_path(h, idx, path), x)
        } else {
            hash_pair(x, recompute_path(h, idx, path))
        },
    decreases path.len(),
{
    lemma2_to64();
    if path.len() == 0 {
        assert(path.push(x).drop_first() =~= Seq::<u64>::empty());
        assert(path.push(x)[0] == x);
        assert(idx / pow2(0) == idx);
        assert(recompute_path(h, idx, path) == h);
        let joined = if idx % 2 == 0 {
            hash_pair(h, x)
        } else {
            hash_pair(x, h)
        };
        assert(recompute_path(h, idx, path.push(x)) == recompute_path(
            joined,
            idx / 2,
            path.push(x).drop_first(),
        ));
        assert(recompute_path(joined, idx / 2, path.push(x).drop_first()) == joined);
    } else {
        let n = path.len();
        let joined = if idx % 2 == 0 {
            hash_pair(h, path[0])
        } else {
            hash_pair(path[0], h)
        };
        assert(path.push(x)[0] == path[0]);
        assert(recompute_path(h, idx, path.push(x)) == recompute_path(
            joined,
            idx / 2,
            path.push(x).drop_first(),
        ));
        assert(path.push(x).drop_first() =~= path.drop_first().push(x));
        lemma_recompute_push(joined, idx / 2, path.drop_first(), x);
        assert(recompute_path(joined, idx / 2, path.drop_first()) == recompute_path(
            h,
            idx,
            path,
        ));
        assert(path.drop_first().len() == n - 1);
        lemma_pow2_pos((n - 1) as nat);
        lemma_pow2_unfold(n);
        lemma_div_denominator(idx as int, 2, pow2((n - 1) as nat) as int);
        assert((idx / 2) / pow2((n - 1) as nat) == idx / pow2(n));
    }
}

/// An audit path is sound: hashing a leaf up its own audit path yields
/// exactly the root of the tree the path was drawn from.
pub proof fn lemma_path_recovers_root(leaves: Seq<u64>, depth: nat, idx: nat)
    requires
        leaves.len() == pow2(depth),
        idx < pow2(depth),
    ensures
        recompute_path(leaves[idx as int], idx, path_spec(leaves, depth, idx)) == node_hash(
            leaves,
            depth,
            0,
        ),
{
    lemma_prefix_recovers_node(leaves, depth, idx, depth);
    lemma_pow2_pos(depth);
    assert(idx / pow2(depth) == 0) by (nonlinear_arith)
        requires
            0 <= idx < pow2(depth) && pow2(depth) >= 1,
    ;
}

/// Hashing a leaf up the first `l` siblings of its audit path yields the
/// hash of the height-`l` subtree containing it.
proof fn lemma_prefix_recovers_node(leaves: Seq<u64>, depth: nat, idx: nat, l: nat)
    requires
        leaves.len() == pow2(depth),
        idx < pow2(depth),
        l <= depth,
    ensures
        recompute_path(leaves[idx as int], idx, path_spec(leaves, l, idx)) == node_hash(
            leaves,
            l,
            idx / pow2(l),
        ),
    decreases l,
{
    lemma2_to64();
    lemma_pow2_pos(depth);
    if l == 0 {
        assert(path_spec(leaves, 0, idx) =~= Seq::<u64>::empty());
        assert(idx / pow2(0) == idx);
    } else {
        let k = (l - 1) as nat;
        lemma_prefix_recovers_node(leaves, depth, idx, k);
        let c = idx / pow2(k);
        let sib = sibling_index(idx, k);
        assert(path_spec(leaves, l, idx) =~= path_spec(leaves, k, idx).push(
            node_hash(leaves, k, sib),
        ));
        lemma_recompute_push(
            leaves[idx as int],
            idx,
            path_spec(leaves, k, idx),
            node_hash(leaves, k, sib),
        );
        assert(path_spec(leaves, k, idx).len() == k);
        lemma_pow2_unfold(l);
        lemma_pow2_pos(k);
        lemma_div_denominator(idx as int, pow2(k) as int, 2);
        assert(c / 2 == idx / pow2(l));
        if c % 2 == 0 {
            assert(2 * (c / 2) == c);
            assert(node_hash(leaves, l, c / 2) == hash_pair(
                node_hash(leaves, k, c),
                node_hash(leaves, k, c + 1),
            ));
        } else {
            assert(2 * (c / 2) == c - 1);
            assert(node_hash(leaves, l, c / 2) == hash_pair(
                node_hash(leaves, k, (c - 1) as nat),
                node_hash(leaves, k, c),
            ));
        }
    }
}

/// Computes `recompute_path`.
pub fn fold_path(h: u64, idx: u64, path: &Vec<u64>) -> (r: u64)
    ensures
        r == recompute_path(h, idx as nat, path@),
{
    let mut acc: u64 = h;
    let mut cur: u64 = idx;
    let mut i: usize = 0;
    proof {
        assert(path@.skip(0) =~= path@);
    }
    while i < path.len()
        invariant
            i <= path@.len(),
            recompute_path(acc, cur as nat, path@.skip(i as int)) == recompute_path(
                h,
                idx as nat,
                path@,
            ),
        decreases path@.len() - i,
    {
        proof {
            assert(path@.skip(i as int).drop_first() =~= path@.skip(i + 1));
            assert(path@.skip(i as int)[0] == path@[i as int]);
        }
        acc = if cur % 2 == 0 {
            mix_pair(acc, path[i])
        } else {
            mix_pair(path[i], acc)
        };
        cur = cur / 2;
        i = i + 1;
    }
    proof {
        assert(path@.skip(path@.len() as int) =~= Seq::<u64>::empty());
    }
    acc
}

} // verus!
