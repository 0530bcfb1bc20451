use rollup_witness::account::Account;
use rollup_witness::builder::WitnessBuilder;
use rollup_witness::bytes::EthAddress;
use rollup_witness::circuit::check_circuit;
use rollup_witness::ops::{
    ChangePubKeyOp, Deposit, DepositOp, FranklinOp, FullExit, FullExitOp, TransferOp, WithdrawOp,
};
use rollup_witness::plasma::test_genesis_plasma_state;
use rollup_witness::tree::AccountTree;
use rollup_witness::witness::{
    apply_and_witness, apply_deposit_tx, apply_full_exit_tx, apply_noop_tx,
    calculate_operations_from_witness,
};

fn addr(tag: u8) -> EthAddress {
    EthAddress { hi: tag as u32, lo: 0x0101_0202_0303_0404_0505_0606_0707_0808 }
}

fn two_account_genesis() -> Vec<(u32, Account)> {
    let mut first = Account::default_with_address(&addr(1));
    first.add_balance(0, 1_000);
    first.pub_key_hash = 0x1111;
    let mut second = Account::default_with_address(&addr(2));
    second.add_balance(0, 50);
    second.pub_key_hash = 0x2222;
    vec![(1, first), (2, second)]
}

// Witnessing the same operation against the same state twice yields
// byte-identical witnesses and root hashes.
#[test]
fn determinism_twice_from_same_state() {
    let op = FullExitOp {
        priority_op: FullExit { account_id: 1, eth_address: addr(1), token: 0 },
        withdraw_amount: Some(1_000),
    };

    let (_, mut tree_a) = test_genesis_plasma_state(two_account_genesis());
    let (_, mut tree_b) = test_genesis_plasma_state(two_account_genesis());

    let witness_a = apply_full_exit_tx(&mut tree_a, &op, true);
    let witness_b = apply_full_exit_tx(&mut tree_b, &op, true);

    assert_eq!(witness_a.get_pubdata(), witness_b.get_pubdata());
    assert_eq!(witness_a.before.root, witness_b.before.root);
    assert_eq!(witness_a.after.root, witness_b.after.root);
    assert_eq!(witness_a.before.account_path, witness_b.before.account_path);
    assert_eq!(witness_a.after.balance_path, witness_b.after.balance_path);
    assert_eq!(tree_a.root_hash(), tree_b.root_hash());
}

// Every operation kind's pubdata fragment has the same fixed width, across
// success and failure variants and across input values.
#[test]
fn pubdata_fragment_width_is_fixed() {
    let (_, mut tree) = test_genesis_plasma_state(two_account_genesis());

    let deposit = FranklinOp::Deposit(DepositOp {
        priority_op: Deposit { from: addr(9), token: 1, amount: 77, to: addr(3) },
        account_id: 3,
    });
    let transfer = FranklinOp::Transfer(TransferOp { from: 1, to: 2, token: 0, amount: 5, fee: 1 });
    let withdraw = FranklinOp::Withdraw(WithdrawOp {
        account_id: 2,
        eth_address: addr(7),
        token: 0,
        amount: 3,
        fee: 1,
    });
    let change_pubkey = FranklinOp::ChangePubKey(ChangePubKeyOp {
        account_id: 2,
        new_pub_key_hash: 0x3333,
    });
    let failed_exit = FranklinOp::FullExit(FullExitOp {
        priority_op: FullExit { account_id: 200, eth_address: addr(8), token: 0 },
        withdraw_amount: None,
    });
    // Account 2 holds 50 at genesis, gains 5 from the transfer and pays
    // 3 + 1 for the withdrawal, so its full exitable balance is 51.
    let successful_exit = FranklinOp::FullExit(FullExitOp {
        priority_op: FullExit { account_id: 2, eth_address: addr(2), token: 0 },
        withdraw_amount: Some(51),
    });

    let kinds = [
        FranklinOp::Noop,
        deposit,
        transfer,
        withdraw,
        change_pubkey,
        failed_exit,
        successful_exit,
    ];
    for op in kinds.iter() {
        let success = !matches!(
            op,
            FranklinOp::FullExit(FullExitOp { withdraw_amount: None, .. })
        );
        let witness = apply_and_witness(&mut tree, op, success);
        assert_eq!(witness.get_pubdata().len(), 48, "fragment width must not vary");
        assert_eq!(calculate_operations_from_witness(&witness).len(), 6);
    }
}

// A failed full exit leaves every balance unchanged but still carries a
// full-length audit path for the referenced account.
#[test]
fn failed_full_exit_changes_nothing() {
    let (_, mut tree) = test_genesis_plasma_state(two_account_genesis());
    let root_before = tree.root_hash();
    let untouched_before = tree.get_leaf(2, 0).balance;

    let op = FullExitOp {
        priority_op: FullExit { account_id: 7, eth_address: addr(7), token: 0 },
        withdraw_amount: None,
    };
    let witness = apply_full_exit_tx(&mut tree, &op, false);

    assert_eq!(tree.root_hash(), root_before);
    assert_eq!(tree.get_leaf(2, 0).balance, untouched_before);
    assert_eq!(witness.before.account_path.len(), 8);
    assert_eq!(witness.before.balance_path.len(), 5);
    assert_eq!(witness.amount, 0);
}

// A block finalized below capacity pads its pubdata with no-op fragments up
// to exactly capacity times the fragment width.
#[test]
fn padding_fills_unused_capacity() {
    let (_, tree) = test_genesis_plasma_state(two_account_genesis());
    let mut accum = WitnessBuilder::new(tree, 1, 3);

    let deposit = DepositOp {
        priority_op: Deposit { from: addr(9), token: 1, amount: 4, to: addr(3) },
        account_id: 3,
    };
    let witness = apply_deposit_tx(&mut accum.account_tree, &deposit);
    let ops = calculate_operations_from_witness(&witness);
    let pubdata = witness.get_pubdata();
    accum.add_operation_with_pubdata(ops, pubdata.clone());
    accum.collect_fees(&Vec::new());
    accum.calculate_pubdata_commitment();

    assert_eq!(accum.pubdata.len(), 3 * 48);
    assert_eq!(&accum.pubdata[..48], &pubdata[..]);
    assert!(accum.pubdata[48..].iter().all(|b| *b == 0), "padding must be no-op fragments");

    assert!(check_circuit(&accum.into_circuit_instance()));
}

// The canonical executor and the witness accumulator replay one operation
// sequence plus fee collection on their own trees and land on the same root.
#[test]
fn cross_consistency_over_a_block() {
    let (mut plasma, tree) = test_genesis_plasma_state(two_account_genesis());
    let mut accum = WitnessBuilder::new(tree, 1, 8);

    let block: [(FranklinOp, bool); 5] = [
        (
            FranklinOp::Deposit(DepositOp {
                priority_op: Deposit { from: addr(9), token: 1, amount: 77, to: addr(3) },
                account_id: 3,
            }),
            true,
        ),
        (FranklinOp::Transfer(TransferOp { from: 1, to: 2, token: 0, amount: 40, fee: 2 }), true),
        (
            FranklinOp::Withdraw(WithdrawOp {
                account_id: 2,
                eth_address: addr(2),
                token: 0,
                amount: 30,
                fee: 3,
            }),
            true,
        ),
        (
            FranklinOp::ChangePubKey(ChangePubKeyOp { account_id: 1, new_pub_key_hash: 0x4444 }),
            true,
        ),
        (
            FranklinOp::FullExit(FullExitOp {
                priority_op: FullExit { account_id: 250, eth_address: addr(6), token: 0 },
                withdraw_amount: None,
            }),
            false,
        ),
    ];

    for (op, success) in block.iter() {
        plasma.apply_operation(op, *success);
        let witness = apply_and_witness(&mut accum.account_tree, op, *success);
        let ops = calculate_operations_from_witness(&witness);
        let pubdata = witness.get_pubdata();
        accum.add_operation_with_pubdata(ops, pubdata);
    }

    // The canonical side credits the same fees to the same fee account.
    let fees: Vec<(u16, u128)> = vec![(0, 5)];
    rollup_witness::state::credit(&mut plasma.tree, 1, 0, 5);
    accum.collect_fees(&fees);
    accum.calculate_pubdata_commitment();

    assert_eq!(
        plasma.root_hash(),
        accum.root_after_fees.expect("root after fees must be recorded"),
        "state keeper and witness accumulator roots must agree"
    );

    assert!(check_circuit(&accum.into_circuit_instance()));
}

// The witness of a no-op audits slot zero without touching the tree.
#[test]
fn noop_witness_leaves_tree_unchanged() {
    let mut tree = AccountTree::new();
    let root = tree.root_hash();
    let witness = apply_noop_tx(&mut tree);
    assert_eq!(tree.root_hash(), root);
    assert_eq!(witness.before.root, root);
    assert_eq!(witness.get_pubdata(), vec![0u8; 48]);
}
