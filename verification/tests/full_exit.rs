use rollup_witness::account::Account;
use rollup_witness::builder::WitnessBuilder;
use rollup_witness::bytes::EthAddress;
use rollup_witness::circuit::check_circuit;
use rollup_witness::ops::{FullExit, FullExitOp};
use rollup_witness::plasma::test_genesis_plasma_state;
use rollup_witness::witness::calculate_full_exit_operations_from_witness;
use rollup_witness::witness::apply_full_exit_tx;

#[test]
fn test_full_exit_success() {
    let account_id = 1;
    let account_address = EthAddress { hi: 0xdead_beef, lo: 0x1122_3344_5566_7788_99aa_bbcc_ddee_ff00 };
    let account = {
        let mut account = Account::default_with_address(&account_address);
        account.add_balance(0, 10);
        account.pub_key_hash = 0x1234_5678_9abc_def0;
        account
    };

    let (mut plasma_state, circuit_account_tree) =
        test_genesis_plasma_state(vec![(account_id, account)]);
    let fee_account_id = 0;
    let mut witness_accum = WitnessBuilder::new(circuit_account_tree, fee_account_id, 1);

    let full_exit_op = FullExitOp {
        priority_op: FullExit {
            account_id,
            eth_address: account_address,
            token: 0,
        },
        withdraw_amount: Some(10),
    };

    println!("node root hash before op: {:?}", plasma_state.root_hash());
    plasma_state.apply_full_exit_op(&full_exit_op);
    println!("node root hash after op: {:?}", plasma_state.root_hash());

    let full_exit_witness =
        apply_full_exit_tx(&mut witness_accum.account_tree, &full_exit_op, true);
    let full_exit_operations = calculate_full_exit_operations_from_witness(&full_exit_witness);
    let pubdata_from_witness = full_exit_witness.get_pubdata();

    // The pubdata must carry the withdrawn amount, and the exited balance
    // must be zero in the after-leaf.
    assert_eq!(full_exit_witness.amount, 10);
    assert_eq!(full_exit_witness.before.balance, 10);
    assert_eq!(full_exit_witness.after.balance, 0);

    witness_accum.add_operation_with_pubdata(full_exit_operations, pubdata_from_witness);
    witness_accum.collect_fees(&Vec::new());
    witness_accum.calculate_pubdata_commitment();

    assert_eq!(
        plasma_state.root_hash(),
        witness_accum
            .root_after_fees
            .expect("witness accum after root hash empty"),
        "root hash in state keeper and witness generation code mismatch"
    );

    assert!(check_circuit(&witness_accum.into_circuit_instance()));
}

#[test]
fn test_full_exit_failure_no_account_in_tree() {
    let account_id = 1;
    let account_address = EthAddress { hi: 0xdead_beef, lo: 0x1122_3344_5566_7788_99aa_bbcc_ddee_ff00 };

    let (mut plasma_state, circuit_account_tree) = test_genesis_plasma_state(Vec::new());
    let fee_account_id = 0;
    let mut witness_accum = WitnessBuilder::new(circuit_account_tree, fee_account_id, 1);

    let full_exit_op = FullExitOp {
        priority_op: FullExit {
            account_id,
            eth_address: account_address,
            token: 0,
        },
        withdraw_amount: None,
    };

    println!("node root hash before op: {:?}", plasma_state.root_hash());
    plasma_state.apply_full_exit_op(&full_exit_op);
    println!("node root hash after op: {:?}", plasma_state.root_hash());

    let full_exit_witness =
        apply_full_exit_tx(&mut witness_accum.account_tree, &full_exit_op, false);
    let full_exit_operations = calculate_full_exit_operations_from_witness(&full_exit_witness);
    let pubdata_from_witness = full_exit_witness.get_pubdata();

    // An empty-leaf audit view, a zero amount in the pubdata, and a
    // non-empty path for the referenced account id.
    assert!(full_exit_witness.before.account.is_none());
    assert_eq!(full_exit_witness.amount, 0);
    assert!(!full_exit_witness.before.account_path.is_empty());

    witness_accum.add_operation_with_pubdata(full_exit_operations, pubdata_from_witness);
    witness_accum.collect_fees(&Vec::new());
    witness_accum.calculate_pubdata_commitment();

    assert_eq!(
        plasma_state.root_hash(),
        witness_accum
            .root_after_fees
            .expect("witness accum after root hash empty"),
        "root hash in state keeper and witness generation code mismatch"
    );

    assert!(check_circuit(&witness_accum.into_circuit_instance()));
}
