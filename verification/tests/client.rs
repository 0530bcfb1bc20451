use rollup_witness::bytes::EthAddress;
use rollup_witness::error::ClientError;
use rollup_witness::eth::{deposit_approved, load_contract_interface, strip_hex_prefix, Network, U256Val};
use rollup_witness::fee::{closest_packable_fee_amount, is_fee_amount_packable};
use rollup_witness::mempool::{SignedFranklinTx, SignedTxVariant, TxHash};
use rollup_witness::ops::FranklinOp;
use rollup_witness::tokens::{Token, TokenLike, TokensCache};
use rollup_witness::wallet::{signing_key_set, Signer, Wallet};

fn sample_wallet() -> Wallet {
    let tokens = TokensCache::new(vec![
        Token { id: 0, address: EthAddress { hi: 0, lo: 0 } },
        Token { id: 2, address: EthAddress { hi: 7, lo: 8 } },
    ]);
    let signer = Signer::new(0xdead, EthAddress { hi: 1, lo: 2 }, Some(0xbeef));
    Wallet::new(signer, tokens)
}

#[test]
fn chain_ids_of_known_networks() {
    assert_eq!(Network::Mainnet.chain_id(), 1);
    assert_eq!(Network::Ropsten.chain_id(), 3);
    assert_eq!(Network::Rinkeby.chain_id(), 4);
    assert_eq!(Network::Localhost.chain_id(), 9);
}

#[test]
fn fee_rounding_and_packability() {
    // 12345 needs a mantissa over 2047, so one decimal digit is dropped.
    assert_eq!(closest_packable_fee_amount(12345), 12340);
    assert_eq!(closest_packable_fee_amount(100), 100);
    assert_eq!(closest_packable_fee_amount(0), 0);
    // Far beyond the encoding's range the rounding saturates at the largest
    // packable value.
    assert_eq!(
        closest_packable_fee_amount(u128::MAX),
        2047 * 10u128.pow(31)
    );
    assert!(is_fee_amount_packable(12340));
    assert!(!is_fee_amount_packable(12345));
}

#[test]
fn token_cache_lookup() {
    let wallet = sample_wallet();
    let by_id = wallet.tokens.resolve(TokenLike::Id(2)).expect("token 2 is cached");
    assert_eq!(by_id.address, EthAddress { hi: 7, lo: 8 });
    let by_address = wallet
        .tokens
        .resolve(TokenLike::Address(EthAddress { hi: 7, lo: 8 }))
        .expect("address is cached");
    assert_eq!(by_address.id, 2);
    assert!(wallet.tokens.resolve(TokenLike::Id(9)).is_none());
    assert!(wallet.tokens.is_eth(TokenLike::Id(0)));
    assert!(!wallet.tokens.is_eth(TokenLike::Id(2)));
}

#[test]
fn wallet_identity_and_builders() {
    let mut wallet = sample_wallet();
    assert_eq!(wallet.address(), EthAddress { hi: 1, lo: 2 });
    assert_eq!(wallet.account_id(), None);
    wallet.update_account_id(Some(42));
    assert_eq!(wallet.account_id(), Some(42));

    assert!(!signing_key_set(None, 5));
    assert!(!signing_key_set(Some(1), 0));
    assert!(signing_key_set(Some(1), 5));

    let transfer = wallet
        .start_transfer()
        .token(TokenLike::Id(2))
        .expect("token is cached")
        .amount(500)
        .fee(12345)
        .to(EthAddress { hi: 9, lo: 9 })
        .nonce(3);
    assert_eq!(transfer.fee, Some(12340));
    assert_eq!(transfer.amount, Some(500));

    let change_pubkey = wallet
        .start_change_pubkey()
        .fee_token(TokenLike::Id(0))
        .expect("base token is cached")
        .nonce(1);
    assert_eq!(change_pubkey.fee_token.map(|t| t.id), Some(0));

    let withdraw = wallet
        .start_withdraw()
        .token(TokenLike::Id(0))
        .expect("base token is cached")
        .amount(7)
        .eth_address(EthAddress { hi: 3, lo: 4 });
    assert_eq!(withdraw.eth_address, Some(EthAddress { hi: 3, lo: 4 }));
}

#[test]
fn builder_error_cases() {
    let wallet = sample_wallet();
    let unknown = wallet.start_change_pubkey().fee_token(TokenLike::Id(9));
    assert!(matches!(unknown, Err(ClientError::UnknownToken)));

    let unpackable = wallet.start_change_pubkey().fee_exact(12345);
    assert!(matches!(unpackable, Err(ClientError::NotPackableValue)));

    let exact = wallet.start_change_pubkey().fee_exact(12340).expect("12340 is packable");
    assert_eq!(exact.fee, Some(12340));
}

#[test]
fn deposit_approval_threshold() {
    let above = U256Val { hi: 0x8000_0000_0000_0000_0000_0000_0000_0000, lo: 0 };
    let below = U256Val { hi: 0x7fff_ffff_ffff_ffff_ffff_ffff_ffff_ffff, lo: u128::MAX };
    assert!(deposit_approved(above));
    assert!(!deposit_approved(below));
}

#[test]
fn hex_prefix_is_stripped() {
    assert_eq!(strip_hex_prefix(&b"0xabc123".to_vec()), b"abc123".to_vec());
    assert_eq!(strip_hex_prefix(&b"abc123".to_vec()), b"abc123".to_vec());
    assert_eq!(strip_hex_prefix(&b"0x".to_vec()), Vec::<u8>::new());
}

#[test]
fn contract_interface_extraction() {
    let ok = load_contract_interface("{\"abi\": [1, 2]}").expect("document has an abi member");
    assert_eq!(ok, "[1,2]");
    let missing = load_contract_interface("{\"other\": 1}");
    assert!(matches!(missing, Err(ClientError::MalformedResponse(_))));
    let garbage = load_contract_interface("not json at all");
    assert!(matches!(garbage, Err(ClientError::MalformedResponse(_))));
}

#[test]
fn batch_and_hashes() {
    let tx_a = SignedFranklinTx { tx: FranklinOp::Noop, tx_hash: TxHash { data: 11 } };
    let tx_b = SignedFranklinTx { tx: FranklinOp::Noop, tx_hash: TxHash { data: 22 } };

    let single = SignedTxVariant::from(SignedFranklinTx {
        tx: FranklinOp::Noop,
        tx_hash: TxHash { data: 33 },
    });
    assert_eq!(single.hashes(), vec![TxHash { data: 33 }]);

    let batch = SignedTxVariant::batch(vec![tx_a, tx_b], -4);
    assert_eq!(batch.hashes(), vec![TxHash { data: 11 }, TxHash { data: 22 }]);
    match batch {
        SignedTxVariant::Batch(b) => assert_eq!(b.batch_id, -4),
        SignedTxVariant::Tx(_) => panic!("batch constructor must build a batch"),
    }
}
