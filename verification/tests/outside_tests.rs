//! Conversions that lean on the bitcoin crate's parsers: addresses, keys,
//! derivation paths and raw transactions.  Each failing input shows the
//! parser really decides.

use btcjson::address::{AddressError, UncheckedAddress, CheckedAddress};
use btcjson::keys::{PubKey, PrivKey, DerivPath, PublicKeyError, PrivateKeyError,
    DerivationPathError};
use btcjson::tx::{RawTransaction, TransactionError};
use btcjson::v17::{GetNewAddress, GetRawChangeAddress, DumpPrivKey, AddMultisigAddress};

fn sample_tx_hex() -> String {
    let tx = bitcoin::Transaction {
        version: bitcoin::transaction::Version::TWO,
        lock_time: bitcoin::absolute::LockTime::ZERO,
        input: vec![bitcoin::TxIn {
            previous_output: bitcoin::OutPoint::null(),
            script_sig: bitcoin::ScriptBuf::new(),
            sequence: bitcoin::Sequence::MAX,
            witness: bitcoin::Witness::new(),
        }],
        output: vec![bitcoin::TxOut {
            value: bitcoin::Amount::from_sat(1_000),
            script_pubkey: bitcoin::ScriptBuf::new(),
        }],
    };
    bitcoin::consensus::encode::serialize_hex(&tx)
}

#[test]
fn valid_address_converts_checked() {
    let model =
        GetRawChangeAddress("132F25rTsvBdp9JzLLBHP5mvGY66i1xdiM".to_string()).into_model().unwrap();
    assert_eq!(model.0.text, "132F25rTsvBdp9JzLLBHP5mvGY66i1xdiM");
}

#[test]
fn invalid_address_fails_with_syntax_error() {
    let err = GetNewAddress("not-an-address".to_string()).into_model().unwrap_err();
    assert_eq!(err, AddressError::InvalidAddressSyntax);
    assert!(UncheckedAddress::from_text("".to_string()).is_err());
    assert!(CheckedAddress::from_text("not-an-address".to_string()).is_err());
}

#[test]
fn new_address_projection_matches_into_model() {
    let text = "132F25rTsvBdp9JzLLBHP5mvGY66i1xdiM".to_string();
    let a = GetNewAddress(text.clone()).address().unwrap();
    let b = GetNewAddress(text).into_model().unwrap().0;
    assert_eq!(a, b);
}

#[test]
fn assume_checked_keeps_the_text() {
    let a = UncheckedAddress::from_text("132F25rTsvBdp9JzLLBHP5mvGY66i1xdiM".to_string()).unwrap();
    let text = a.text.clone();
    let c = a.assume_checked();
    assert_eq!(c.text, text);
}

#[test]
fn segwit_address_parses_too() {
    // A well-known witness-program address.
    let a = UncheckedAddress::from_text(
        "bc1qw508d6qejxtdg4y5r3zarvary0c5xw7kv8f3t4".to_string(),
    );
    assert!(a.is_ok());
}

#[test]
fn wif_key_round_trips_through_dump() {
    // A classic uncompressed wallet-import-format key.
    let wif = "5HueCGU8rMjxEXxiPuD5BDku4MkFqeZyd4dZ1jvhTVqvbTLvyTJ".to_string();
    let model = DumpPrivKey { key: wif.clone() }.into_model().unwrap();
    assert_eq!(model.key.wif, wif);
    // The projection propagates the same value and error.
    let k = DumpPrivKey { key: wif.clone() }.key().unwrap();
    assert_eq!(k.wif, wif);
}

#[test]
fn invalid_wif_fails() {
    assert_eq!(
        DumpPrivKey { key: "abc".to_string() }.into_model().unwrap_err(),
        PrivateKeyError::InvalidWif
    );
    assert!(PrivKey::from_wif_text("".to_string()).is_err());
}

#[test]
fn public_key_text_is_validated() {
    // The generator point, compressed: a valid public key.
    let good = "0279be667ef9dcbbac55a06295ce870b07029bfcdb2dce28d959f2815b16f81798";
    assert_eq!(PubKey::from_text(good.to_string()).unwrap().text, good);
    assert_eq!(
        PubKey::from_text("02zz".to_string()).unwrap_err(),
        PublicKeyError::InvalidPublicKey
    );
    // Valid hex of the right length that is not a curve point.
    let not_a_point = "020000000000000000000000000000000000000000000000000000000000000000";
    assert!(PubKey::from_text(not_a_point.to_string()).is_err());
}

#[test]
fn derivation_path_text_is_validated() {
    assert!(DerivPath::from_text("m/44'/0'/0'".to_string()).is_ok());
    assert!(DerivPath::from_text("m".to_string()).is_ok());
    assert_eq!(
        DerivPath::from_text("m/xyz".to_string()).unwrap_err(),
        DerivationPathError::InvalidPath
    );
}

#[test]
fn raw_transaction_hex_is_validated_by_the_consensus_decoder() {
    let hex = sample_tx_hex();
    let raw = RawTransaction::from_hex_text(hex.clone()).unwrap();
    assert_eq!(raw.hex, hex);
    assert_eq!(
        RawTransaction::from_hex_text("00".to_string()).unwrap_err(),
        TransactionError::InvalidTransactionHex
    );
    // Valid hex that is not a transaction.
    assert!(RawTransaction::from_hex_text("abcdef".to_string()).is_err());
}

#[test]
fn multisig_address_record_converts() {
    let rec = AddMultisigAddress {
        address: "32iVBEu4dxkUQk9dJbZUiBiQdmypcEyJRf".to_string(),
        redeem_script: "0014aabbccddeeff00112233445566778899aabbccdd".to_string(),
    };
    let model = rec.into_model().unwrap();
    assert_eq!(model.address.text, "32iVBEu4dxkUQk9dJbZUiBiQdmypcEyJRf");
    assert_eq!(model.redeem_script.bytes.len(), 22);
}
