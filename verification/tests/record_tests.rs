//! Whole-record conversion engines: fail-fast field attribution, nested
//! wrapping, alias reconciliation, and the simple records.

use btcjson::amount::ParseAmountError;
use btcjson::hexbytes::HexError;
use btcjson::address::AddressError;
use btcjson::v17::{
    AddressPurpose, TransactionCategory, Bip125Replacable, CreateWallet, LoadWallet, DumpWallet,
    GetAddressesByLabel, GetAddressesByLabelError, GetTransaction, GetTransactionDetail,
    GetTransactionError, GetTransactionDetailError, GetWalletInfo, GetWalletInfoError,
    GetAddressInfo, GetAddressInfoEmbedded, GetAddressInfoError, GetAddressInfoEmbeddedError,
    GetAddressInfoLabel, BumpFee, SendToAddress, ListLabels, ListWallets, ListLockUnspent,
    ListLockUnspentItem, ListAddressGroupings, ListAddressGroupingsItem, ListAddressGroupingsError,
    ListReceivedbyAddress, ListReceivedbyAddressItem, ListReceivedByAddressError, ListSinceBlock,
    ListSinceBlockTransaction, ListSinceBlockError, ListTransactions, ListTransactionsItem,
    ListTransactionsItemError, ListUnspent, ListUnspentItem, ListUnspentItemError,
    GetUnconfirmedBalance, GetReceivedByAddress,
};
use btcjson::model;

const ADDR: &str = "132F25rTsvBdp9JzLLBHP5mvGY66i1xdiM";

fn sample_tx_hex() -> String {
    let tx = bitcoin::Transaction {
        version: bitcoin::transaction::Version::TWO,
        lock_time: bitcoin::absolute::LockTime::ZERO,
        input: vec![bitcoin::TxIn {
            previous_output: bitcoin::OutPoint::null(),
            script_sig: bitcoin::ScriptBuf::new(),
            sequence: bitcoin::Sequence::MAX,
            witness: bitcoin::Witness::new(),
        }],
        output: vec![bitcoin::TxOut {
            value: bitcoin::Amount::from_sat(1_000),
            script_pubkey: bitcoin::ScriptBuf::new(),
        }],
    };
    bitcoin::consensus::encode::serialize_hex(&tx)
}

fn sample_detail() -> GetTransactionDetail {
    GetTransactionDetail {
        account: String::new(),
        address: ADDR.to_string(),
        category: TransactionCategory::Receive,
        amount: "0.00010000".to_string(),
        label: None,
        vout: 0,
        fee: None,
        abandoned: None,
    }
}

fn sample_transaction() -> GetTransaction {
    GetTransaction {
        account: String::new(),
        amount: "-0.10000000".to_string(),
        fee: Some("-0.00001000".to_string()),
        confirmations: 6,
        block_hash: "00".repeat(32),
        block_index: 1,
        block_time: 1_500_000_000,
        txid: "ab".repeat(32),
        time: 1_500_000_000,
        time_received: 1_500_000_001,
        bip125_replaceable: Bip125Replacable::No,
        details: vec![sample_detail()],
        hex: sample_tx_hex(),
    }
}

#[test]
fn transaction_converts_whole() {
    let model = sample_transaction().into_model().unwrap();
    assert_eq!(model.amount.sats, -10_000_000);
    assert_eq!(model.fee.unwrap().sats, -1_000);
    assert_eq!(model.confirmations, 6);
    assert_eq!(model.txid.bytes, vec![0xabu8; 32]);
    assert_eq!(model.bip125_replaceable, model::Bip125Replaceable::No);
    assert_eq!(model.details.len(), 1);
    assert_eq!(model.details[0].amount.sats, 10_000);
    assert_eq!(model.details[0].address.text, ADDR);
}

#[test]
fn transaction_txid_of_wrong_length_is_tagged_txid() {
    let mut wire = sample_transaction();
    // Thirty decoded bytes instead of thirty-two, plus a later field that
    // would also fail: the error must name the txid, fail-fast.
    wire.txid = "ab".repeat(30);
    wire.hex = "zz".to_string();
    match wire.into_model().unwrap_err() {
        GetTransactionError::Txid(e) => assert_eq!(e, HexError::WrongLength),
        other => panic!("expected a txid error, got {:?}", other),
    }
}

#[test]
fn transaction_amount_failure_comes_first() {
    let mut wire = sample_transaction();
    wire.amount = "bogus".to_string();
    wire.txid = "xy".to_string();
    match wire.into_model().unwrap_err() {
        GetTransactionError::Amount(e) => assert_eq!(e, ParseAmountError::InvalidDecimal),
        other => panic!("expected an amount error, got {:?}", other),
    }
}

#[test]
fn transaction_detail_failure_is_wrapped() {
    let mut wire = sample_transaction();
    let mut bad = sample_detail();
    bad.fee = Some("x".to_string());
    wire.details = vec![sample_detail(), bad];
    match wire.into_model().unwrap_err() {
        GetTransactionError::Details(GetTransactionDetailError::Fee(e)) => {
            assert_eq!(e, ParseAmountError::InvalidDecimal)
        },
        other => panic!("expected a wrapped detail fee error, got {:?}", other),
    }
}

fn sample_wallet_info() -> GetWalletInfo {
    GetWalletInfo {
        wallet_name: "wallet".to_string(),
        wallet_version: 169_900,
        balance: "1.00000000".to_string(),
        unconfirmed_balance: "0.50000000".to_string(),
        immature_balance: "0.00000000".to_string(),
        tx_count: 7,
        keypool_oldest: 1_500_000_000,
        keypool_size: 1000,
        keypool_size_hd_internal: 1000,
        unlocked_until: 0,
        pay_tx_fee: "0.00002000".to_string(),
        hd_seed_id: Some("11".repeat(20)),
        hd_master_key_id: None,
        private_keys_enabled: true,
    }
}

#[test]
fn wallet_info_converts_whole() {
    let model = sample_wallet_info().into_model().unwrap();
    assert_eq!(model.balance.sats, 100_000_000);
    assert_eq!(model.unconfirmed_balance.sats, 50_000_000);
    assert_eq!(model.pay_tx_fee.sat_per_vb, 2);
    assert_eq!(model.hd_seed_id.unwrap().bytes, vec![0x11u8; 20]);
}

#[test]
fn wallet_info_prefers_live_seed_field() {
    let mut wire = sample_wallet_info();
    wire.hd_seed_id = Some("22".repeat(20));
    wire.hd_master_key_id = Some("33".repeat(20));
    let model = wire.into_model().unwrap();
    assert_eq!(model.hd_seed_id.unwrap().bytes, vec![0x22u8; 20]);
}

#[test]
fn wallet_info_falls_back_to_deprecated_alias() {
    let mut wire = sample_wallet_info();
    wire.hd_seed_id = None;
    wire.hd_master_key_id = Some("33".repeat(20));
    let model = wire.into_model().unwrap();
    assert_eq!(model.hd_seed_id.unwrap().bytes, vec![0x33u8; 20]);

    let mut wire = sample_wallet_info();
    wire.hd_seed_id = None;
    wire.hd_master_key_id = None;
    assert!(wire.into_model().unwrap().hd_seed_id.is_none());
}

#[test]
fn wallet_info_balance_errors_in_order() {
    let mut wire = sample_wallet_info();
    wire.unconfirmed_balance = "x".to_string();
    wire.immature_balance = "y".to_string();
    match wire.into_model().unwrap_err() {
        GetWalletInfoError::UnconfirmedBalance(e) => {
            assert_eq!(e, ParseAmountError::InvalidDecimal)
        },
        other => panic!("expected the unconfirmed-balance error, got {:?}", other),
    }
}

fn sample_embedded() -> GetAddressInfoEmbedded {
    GetAddressInfoEmbedded {
        address: ADDR.to_string(),
        script_pubkey: "76a914".to_string(),
        is_script: false,
        is_witness: false,
        witness_version: None,
        witness_program: None,
        script: None,
        hex: None,
        pubkeys: Vec::new(),
        sigs_required: None,
        pubkey: None,
        is_compressed: true,
        label: String::new(),
        labels: Vec::new(),
    }
}

fn sample_address_info() -> GetAddressInfo {
    GetAddressInfo {
        address: ADDR.to_string(),
        script_pubkey: "76a914aabbccddeeff00112233445566778899aabbccdd88ac".to_string(),
        is_mine: true,
        is_watch_only: false,
        is_script: false,
        is_witness: false,
        witness_version: None,
        witness_program: None,
        script: None,
        hex: None,
        pubkeys: Vec::new(),
        sigs_required: None,
        pubkey: None,
        embedded: None,
        is_compressed: true,
        label: "home".to_string(),
        account: String::new(),
        timestamp: Some(1_500_000_000),
        hd_key_path: Some("m/44'/0'/0'".to_string()),
        hd_seed_id: Some("44".repeat(20)),
        hd_master_key_id: None,
        labels: vec![GetAddressInfoLabel {
            name: "home".to_string(),
            purpose: AddressPurpose::Receive,
        }],
    }
}

#[test]
fn address_info_converts_whole() {
    let model = sample_address_info().into_model().unwrap();
    assert_eq!(model.address.text, ADDR);
    assert_eq!(model.script_pubkey.bytes.len(), 25);
    assert_eq!(model.hd_key_path.unwrap().text, "m/44'/0'/0'");
    assert_eq!(model.labels.len(), 1);
    assert_eq!(model.labels[0].purpose, model::AddressPurpose::Receive);
}

#[test]
fn address_info_witness_pair_converts() {
    let mut wire = sample_address_info();
    wire.witness_version = Some(0);
    wire.witness_program = Some("aa".repeat(20));
    let model = wire.into_model().unwrap();
    assert_eq!(model.witness_version.unwrap().num, 0);
    assert_eq!(model.witness_program.unwrap().program, vec![0xaau8; 20]);
}

#[test]
fn address_info_witness_version_too_high_is_tagged() {
    let mut wire = sample_address_info();
    wire.witness_version = Some(300);
    wire.witness_program = Some("aa".repeat(20));
    match wire.into_model().unwrap_err() {
        GetAddressInfoError::WitnessVersionValue(v) => assert_eq!(v, 300),
        other => panic!("expected the witness-version-value error, got {:?}", other),
    }
}

#[test]
fn embedded_script_failure_keeps_both_levels() {
    let mut wire = sample_address_info();
    let mut emb = sample_embedded();
    emb.script_pubkey = "xyz".to_string();
    wire.embedded = Some(emb);
    match wire.into_model().unwrap_err() {
        GetAddressInfoError::Embedded(GetAddressInfoEmbeddedError::ScriptPubkey(e)) => {
            assert_eq!(e, HexError::InvalidHex)
        },
        other => panic!("expected a wrapped embedded script error, got {:?}", other),
    }
}

#[test]
fn embedded_record_converts_whole() {
    let mut wire = sample_address_info();
    wire.embedded = Some(sample_embedded());
    let model = wire.into_model().unwrap();
    let emb = model.embedded.unwrap();
    assert_eq!(emb.address.text, ADDR);
    assert_eq!(emb.script_pubkey.bytes, vec![0x76, 0xa9, 0x14]);
}

#[test]
fn error_messages_name_the_field() {
    let mut wire = sample_transaction();
    wire.txid = "ab".to_string();
    let err = wire.into_model().unwrap_err();
    assert_eq!(err.message(), "conversion of the `txid` field failed");
}

#[test]
fn addresses_by_label_convert_in_order() {
    let wire = GetAddressesByLabel {
        addresses: vec![
            (ADDR.to_string(), AddressPurpose::Receive),
            ("32iVBEu4dxkUQk9dJbZUiBiQdmypcEyJRf".to_string(), AddressPurpose::Send),
        ],
    };
    let model = wire.into_model().unwrap();
    assert_eq!(model.addresses.len(), 2);
    assert_eq!(model.addresses[0].0.text, ADDR);
    assert_eq!(model.addresses[1].1, model::AddressPurpose::Send);

    let bad = GetAddressesByLabel {
        addresses: vec![("junk".to_string(), AddressPurpose::Send)],
    };
    let GetAddressesByLabelError::Address(e) = bad.into_model().unwrap_err();
    assert_eq!(e, AddressError::InvalidAddressSyntax);
}

#[test]
fn simple_records_copy_through() {
    let created = CreateWallet { name: "w".to_string(), warning: "careful".to_string() };
    let model = created.into_model();
    assert_eq!(model.name, "w");
    assert_eq!(model.warnings, vec!["careful".to_string()]);
    assert_eq!(
        CreateWallet { name: "w".to_string(), warning: String::new() }.name(),
        "w"
    );

    let loaded = LoadWallet { name: "x".to_string(), warning: String::new() };
    assert_eq!(loaded.into_model().name, "x");
    assert_eq!(LoadWallet { name: "x".to_string(), warning: String::new() }.name(), "x");

    assert_eq!(
        DumpWallet { file_name: "/w.dat".to_string() }.into_model().file_name,
        "/w.dat"
    );
    assert_eq!(
        ListLabels(vec!["a".to_string()]).into_model().0,
        vec!["a".to_string()]
    );
    assert_eq!(
        ListWallets(vec!["b".to_string()]).into_model().0,
        vec!["b".to_string()]
    );
    assert_eq!(
        GetUnconfirmedBalance("0.00000001".to_string()).into_model().unwrap().0.sats,
        1
    );
    assert_eq!(
        GetReceivedByAddress("0.00000002".to_string()).into_model().unwrap().0.sats,
        2
    );
}

#[test]
fn bump_fee_converts_subunit_fees() {
    let wire = BumpFee {
        txid: "cd".repeat(32),
        original_fee: 150,
        fee: 300,
        errors: vec!["late".to_string()],
    };
    let model = wire.into_model().unwrap();
    assert_eq!(model.original_fee.sats, 150);
    assert_eq!(model.fee.sats, 300);
    assert_eq!(model.errors, vec!["late".to_string()]);
    let bad = BumpFee { txid: "cd".to_string(), original_fee: 0, fee: 0, errors: Vec::new() };
    assert_eq!(bad.into_model().unwrap_err(), HexError::WrongLength);
}

#[test]
fn send_to_address_projection_matches_into_model() {
    let hex = "ef".repeat(32);
    let a = SendToAddress(hex.clone()).txid().unwrap();
    let b = SendToAddress(hex).into_model().unwrap().txid;
    assert_eq!(a, b);
}

#[test]
fn lock_unspent_converts_each_entry() {
    let wire = ListLockUnspent(vec![
        ListLockUnspentItem { txid: "01".repeat(32), vout: 0 },
        ListLockUnspentItem { txid: "02".repeat(32), vout: 3 },
    ]);
    let model = wire.into_model().unwrap();
    assert_eq!(model.0.len(), 2);
    assert_eq!(model.0[1].vout, 3);
    let bad = ListLockUnspent(vec![ListLockUnspentItem { txid: "01".to_string(), vout: 0 }]);
    assert_eq!(bad.into_model().unwrap_err(), HexError::WrongLength);
}

#[test]
fn address_groupings_convert_nested() {
    let wire = ListAddressGroupings(vec![vec![ListAddressGroupingsItem {
        address: ADDR.to_string(),
        amount: "0.10000000".to_string(),
        label: Some("tag".to_string()),
    }]]);
    let model = wire.into_model().unwrap();
    assert_eq!(model.0[0][0].amount.sats, 10_000_000);

    let bad = ListAddressGroupings(vec![vec![ListAddressGroupingsItem {
        address: ADDR.to_string(),
        amount: "x".to_string(),
        label: None,
    }]]);
    match bad.into_model().unwrap_err() {
        ListAddressGroupingsError::Amount(e) => assert_eq!(e, ParseAmountError::InvalidDecimal),
        other => panic!("expected the amount error, got {:?}", other),
    }
}

#[test]
fn received_by_address_reports_failing_txid_index() {
    let wire = ListReceivedbyAddress(vec![ListReceivedbyAddressItem {
        involves_watch_only: false,
        address: ADDR.to_string(),
        account: String::new(),
        amount: "0.00000003".to_string(),
        confirmations: 2,
        label: String::new(),
        txids: vec!["03".repeat(32), "short".to_string()],
    }]);
    match wire.into_model().unwrap_err() {
        ListReceivedByAddressError::Txids(ix, e) => {
            assert_eq!(ix, 1);
            assert_eq!(e, HexError::InvalidHex);
        },
        other => panic!("expected the txids error, got {:?}", other),
    }

    let good = ListReceivedbyAddress(vec![ListReceivedbyAddressItem {
        involves_watch_only: true,
        address: ADDR.to_string(),
        account: String::new(),
        amount: "0.00000003".to_string(),
        confirmations: 2,
        label: "tag".to_string(),
        txids: vec!["03".repeat(32)],
    }]);
    let model = good.into_model().unwrap();
    assert_eq!(model.0[0].amount.sats, 3);
    assert_eq!(model.0[0].txids[0].bytes, vec![0x03u8; 32]);
}

fn sample_since_tx() -> ListSinceBlockTransaction {
    ListSinceBlockTransaction {
        account: String::new(),
        address: ADDR.to_string(),
        category: TransactionCategory::Send,
        amount: "-0.20000000".to_string(),
        vout: 1,
        fee: "-0.00000500".to_string(),
        confirmations: 4,
        block_hash: "05".repeat(32),
        block_index: 2,
        block_time: 1_500_000_000,
        txid: Some("06".repeat(32)),
        time: 1_500_000_000,
        time_received: 1_500_000_001,
        bip125_replaceable: Bip125Replacable::Unknown,
        abandoned: Some(false),
        comment: None,
        label: None,
        to: None,
    }
}

#[test]
fn since_block_converts_both_lists_and_hash() {
    let wire = ListSinceBlock {
        transactions: vec![sample_since_tx()],
        removed: Vec::new(),
        last_block: "07".repeat(32),
    };
    let model = wire.into_model().unwrap();
    assert_eq!(model.transactions[0].amount.sats, -20_000_000);
    assert_eq!(model.transactions[0].fee.sats, -500);
    assert_eq!(model.last_block.bytes, vec![0x07u8; 32]);
}

#[test]
fn since_block_tags_the_failing_list() {
    let mut bad = sample_since_tx();
    bad.fee = "oops".to_string();
    let wire = ListSinceBlock {
        transactions: vec![sample_since_tx()],
        removed: vec![bad],
        last_block: "07".repeat(32),
    };
    match wire.into_model().unwrap_err() {
        ListSinceBlockError::Removed(e) => {
            assert_eq!(e.message(), "conversion of the `fee` field failed")
        },
        other => panic!("expected the removed-list error, got {:?}", other),
    }
}

fn sample_list_tx() -> ListTransactionsItem {
    ListTransactionsItem {
        address: ADDR.to_string(),
        category: TransactionCategory::Receive,
        amount: "0.30000000".to_string(),
        label: None,
        vout: 0,
        fee: "-0.00000200".to_string(),
        confirmations: 10,
        trusted: true,
        block_hash: "08".repeat(32),
        block_index: 0,
        block_time: 1_500_000_000,
        txid: "09".repeat(32),
        time: 1_500_000_000,
        time_received: 1_500_000_000,
        comment: None,
        bip125_replaceable: Bip125Replacable::No,
        abandoned: None,
    }
}

#[test]
fn transactions_listing_converts_in_order() {
    let model = ListTransactions(vec![sample_list_tx()]).into_model().unwrap();
    assert_eq!(model.0[0].amount.sats, 30_000_000);
    let mut bad = sample_list_tx();
    bad.block_hash = "0".to_string();
    match ListTransactions(vec![bad]).into_model().unwrap_err() {
        ListTransactionsItemError::BlockHash(e) => assert_eq!(e, HexError::InvalidHex),
        other => panic!("expected the block-hash error, got {:?}", other),
    }
}

fn sample_unspent() -> ListUnspentItem {
    ListUnspentItem {
        txid: "0a".repeat(32),
        vout: 0,
        address: ADDR.to_string(),
        label: String::new(),
        account: String::new(),
        script_pubkey: "76a914aabbccddeeff00112233445566778899aabbccdd88ac".to_string(),
        amount: "0.40000000".to_string(),
        confirmations: 3,
        redeem_script: None,
        spendable: true,
        solvable: true,
        safe: true,
    }
}

#[test]
fn unspent_listing_converts_in_order() {
    let model = ListUnspent(vec![sample_unspent()]).into_model().unwrap();
    assert_eq!(model.0[0].amount.sats, 40_000_000);
    assert_eq!(model.0[0].script_pubkey.bytes.len(), 25);

    let mut bad = sample_unspent();
    bad.redeem_script = Some("q".to_string());
    match ListUnspent(vec![bad]).into_model().unwrap_err() {
        ListUnspentItemError::RedeemScript(e) => assert_eq!(e, HexError::InvalidHex),
        other => panic!("expected the redeem-script error, got {:?}", other),
    }
}

#[test]
fn address_info_witness_error_chain() {
    // Version fits a byte but is above sixteen.
    let mut wire = sample_address_info();
    wire.witness_version = Some(17);
    wire.witness_program = Some("aa".repeat(20));
    assert!(matches!(
        wire.into_model().unwrap_err(),
        GetAddressInfoError::WitnessVersion(_)
    ));

    // Bad hex in the program bytes.
    let mut wire = sample_address_info();
    wire.witness_version = Some(0);
    wire.witness_program = Some("zz".to_string());
    assert!(matches!(
        wire.into_model().unwrap_err(),
        GetAddressInfoError::WitnessProgramBytes(HexError::InvalidHex)
    ));

    // Well-formed bytes of a length version zero does not accept.
    let mut wire = sample_address_info();
    wire.witness_version = Some(0);
    wire.witness_program = Some("aa".repeat(25));
    assert!(matches!(
        wire.into_model().unwrap_err(),
        GetAddressInfoError::WitnessProgram(_)
    ));

    // One witness field alone converts to absence.
    let mut wire = sample_address_info();
    wire.witness_version = Some(0);
    wire.witness_program = None;
    let model = wire.into_model().unwrap();
    assert!(model.witness_version.is_none());
    assert!(model.witness_program.is_none());
}

#[test]
fn address_info_trailing_field_errors() {
    let mut wire = sample_address_info();
    wire.hd_key_path = Some("m/bad".to_string());
    assert!(matches!(
        wire.into_model().unwrap_err(),
        GetAddressInfoError::HdKeyPath(_)
    ));

    let mut wire = sample_address_info();
    wire.hd_seed_id = Some("44".repeat(10));
    assert!(matches!(
        wire.into_model().unwrap_err(),
        GetAddressInfoError::HdSeedId(HexError::WrongLength)
    ));

    let mut wire = sample_address_info();
    wire.address = "nope".to_string();
    assert!(matches!(
        wire.into_model().unwrap_err(),
        GetAddressInfoError::Address(AddressError::InvalidAddressSyntax)
    ));
}

#[test]
fn transaction_hex_failure_is_tagged_tx() {
    let mut wire = sample_transaction();
    wire.hex = "abcdef".to_string();
    assert!(matches!(wire.into_model().unwrap_err(), GetTransactionError::Tx(_)));
}

#[test]
fn wallet_info_seed_error_names_the_field() {
    let mut wire = sample_wallet_info();
    wire.hd_seed_id = Some("not-hex".to_string());
    let err = wire.into_model().unwrap_err();
    assert!(matches!(err, GetWalletInfoError::HdSeedId(HexError::InvalidHex)));
    assert_eq!(err.message(), "conversion of the `hd_seed_id` field failed");
}
