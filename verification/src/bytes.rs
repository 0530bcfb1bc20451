//! Fixed-width big-endian byte encodings used by the pubdata layout, and the
//! 20-byte chain address type.

use vstd::prelude::*;

verus! {

/// The `n`-byte big-endian encoding of `x % 256^n`.
pub open spec fn be_bytes(x: nat, n: nat) -> Seq<u8>
    decreases n,
{
    if n == 0 {
        Seq::empty()
    } else {
        be_bytes(x / 256, (n - 1) as nat).push((x % 256) as u8)
    }
}

pub broadcast proof fn lemma_be_bytes_len(x: nat, n: nat)
    ensures
        #[trigger] be_bytes(x, n).len() == n,
    decreases n,
{
    if n > 0 {
        lemma_be_bytes_len(x / 256, (n - 1) as nat);
    }
}

/// Appends the `n`-byte big-endian encoding of `x` to `out`.
pub fn push_be_bytes(out: &mut Vec<u8>, x: u128, n: usize)
    requires
        old(out)@.len() + n <= usize::MAX,
    ensures
        final(out)@ == old(out)@ + be_bytes(x as nat, n as nat),
    decreases n,
{
    if n == 0 {
        proof {
            assert(old(out)@ + be_bytes(x as nat, 0) =~= old(out)@);
        }
    } else {
        push_be_bytes(out, x / 256, n - 1);
        out.push((x % 256) as u8);
        proof {
            assert((old(out)@ + be_bytes(x as nat / 256, (n - 1) as nat)).push(
                (x as nat % 256) as u8,
            ) =~= old(out)@ + be_bytes(x as nat, n as nat));
        }
    }
}

/// The big-endian value of a byte string.
pub open spec fn be_value(s: Seq<u8>) -> nat
    decreases s.len(),
{
    if s.len() == 0 {
        0
    } else {
        be_value(s.drop_last()) * 256 + s.last() as nat
    }
}

/// A 20-byte base-chain address, split into a 4-byte high part and a
/// 16-byte low part so the type stays plain data.
#[derive(Clone, Copy, PartialEq, Eq, Structural, Debug)]
pub struct EthAddress {
    pub hi: u32,
    pub lo: u128,
}

/// The 20-byte big-endian encoding of an address.
pub open spec fn address_bytes(a: EthAddress) -> Seq<u8> {
    be_bytes(a.hi as nat, 4) + be_bytes(a.lo as nat, 16)
}

pub broadcast proof fn lemma_address_bytes_len(a: EthAddress)
    ensures
        #[trigger] address_bytes(a).len() == 20,
{
    lemma_be_bytes_len(a.hi as nat, 4);
    lemma_be_bytes_len(a.lo as nat, 16);
}

/// Appends the 20-byte encoding of an address to `out`.
pub fn push_address_bytes(out: &mut Vec<u8>, a: EthAddress)
    requires
        old(out)@.len() + 20 <= usize::MAX,
    ensures
        final(out)@ == old(out)@ + address_bytes(a),
{
    proof {
        lemma_be_bytes_len(a.hi as nat, 4);
    }
    push_be_bytes(out, a.hi as u128, 4);
    push_be_bytes(out, a.lo, 16);
    proof {
        assert(old(out)@ + be_bytes(a.hi as nat, 4) + be_bytes(a.lo as nat, 16) =~= old(out)@
            + address_bytes(a));
    }
}

} // verus!
