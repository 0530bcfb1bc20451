use rollup_witness::bytes::EthAddress;
use rollup_witness::hash::{hash_bytes, mix_pair, mix_u128};
use rollup_witness::ops::{Deposit, DepositOp};
use rollup_witness::tree::AccountTree;
use rollup_witness::witness::{apply_deposit_tx, calculate_operations_from_witness};

// The pubdata layout, byte for byte: tag, 4-byte account id, 4-byte second
// account id, 2-byte token, 16-byte amount, 20-byte address, one pad byte.
#[test]
fn deposit_pubdata_exact_bytes() {
    let mut tree = AccountTree::new();
    let op = DepositOp {
        priority_op: Deposit {
            from: EthAddress { hi: 0, lo: 0 },
            token: 0x1f,
            amount: 0x0a0b,
            to: EthAddress { hi: 0x11223344, lo: 0x5566_7788_99aa_bbcc_ddee_ff00_1122_3344 },
        },
        account_id: 7,
    };
    let witness = apply_deposit_tx(&mut tree, &op);
    let pubdata = witness.get_pubdata();

    let mut expected: Vec<u8> = Vec::new();
    expected.push(1); // deposit tag
    expected.extend_from_slice(&[0, 0, 0, 7]); // account id
    expected.extend_from_slice(&[0, 0, 0, 0]); // second account id
    expected.extend_from_slice(&[0x00, 0x1f]); // token
    expected.extend_from_slice(&[0, 0, 0, 0, 0, 0, 0, 0, 0, 0, 0, 0, 0, 0, 0x0a, 0x0b]); // amount
    expected.extend_from_slice(&[0x11, 0x22, 0x33, 0x44]); // address, high part
    expected.extend_from_slice(&[
        0x55, 0x66, 0x77, 0x88, 0x99, 0xaa, 0xbb, 0xcc, 0xdd, 0xee, 0xff, 0x00, 0x11, 0x22,
        0x33, 0x44,
    ]); // address, low part
    expected.push(0); // padding
    assert_eq!(pubdata, expected);
}

// Chunks re-read the fragment as big-endian 8-byte values, in order.
#[test]
fn chunks_reread_the_fragment() {
    let mut tree = AccountTree::new();
    let op = DepositOp {
        priority_op: Deposit {
            from: EthAddress { hi: 0, lo: 0 },
            token: 3,
            amount: 500,
            to: EthAddress { hi: 5, lo: 6 },
        },
        account_id: 9,
    };
    let witness = apply_deposit_tx(&mut tree, &op);
    let pubdata = witness.get_pubdata();
    let ops = calculate_operations_from_witness(&witness);

    assert_eq!(ops.len(), 6);
    for (k, entry) in ops.iter().enumerate() {
        assert_eq!(entry.tx_type, 1);
        assert_eq!(entry.chunk, k as u8);
        let mut value: u64 = 0;
        for b in &pubdata[8 * k..8 * k + 8] {
            value = value * 256 + *b as u64;
        }
        assert_eq!(entry.pubdata_chunk, value);
    }
}

// The hash primitives are deterministic and sensitive to their inputs.
#[test]
fn hashing_is_deterministic() {
    assert_eq!(mix_pair(1, 2), mix_pair(1, 2));
    assert_ne!(mix_pair(1, 2), mix_pair(2, 1), "children must stay ordered");
    assert_eq!(mix_u128(77), mix_u128(77));
    let bytes_a: Vec<u8> = vec![1, 2, 3];
    let bytes_b: Vec<u8> = vec![1, 2, 3];
    let bytes_c: Vec<u8> = vec![3, 2, 1];
    assert_eq!(hash_bytes(&bytes_a), hash_bytes(&bytes_b));
    assert_ne!(hash_bytes(&bytes_a), hash_bytes(&bytes_c));
}

// Recomputing the root of one tree twice yields identical hashes, and two
// trees over the same accounts agree.
#[test]
fn root_hash_is_pure() {
    let tree_a = AccountTree::new();
    let tree_b = AccountTree::new();
    assert_eq!(tree_a.root_hash(), tree_a.root_hash());
    assert_eq!(tree_a.root_hash(), tree_b.root_hash());
}
