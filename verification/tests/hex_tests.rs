//! Hex-encoded fixed-length fields: success on exactly the documented length,
//! the length-specific error on any other decoded length, and witness data.

use btcjson::hexbytes::HexError;
use btcjson::primitives::{
    Txid, BlockHash, Hash160, Script, WitnessVersion, WitnessVersionError, WitnessProgram,
    WitnessProgramError,
};

#[test]
fn txid_accepts_exactly_thirty_two_bytes() {
    let hex = "ab".repeat(32);
    let txid = Txid::from_hex(&hex).unwrap();
    assert_eq!(txid.bytes, vec![0xabu8; 32]);
}

#[test]
fn txid_rejects_every_other_decoded_length() {
    for n in [0usize, 1, 30, 31, 33, 64] {
        let hex = "ab".repeat(n);
        assert_eq!(Txid::from_hex(&hex).unwrap_err(), HexError::WrongLength);
    }
}

#[test]
fn txid_rejects_malformed_hex() {
    // Odd length.
    assert_eq!(Txid::from_hex("abc").unwrap_err(), HexError::InvalidHex);
    // A character outside the hex alphabet, at the right length.
    let mut hex = "ab".repeat(32);
    hex.replace_range(0..2, "zz");
    assert_eq!(Txid::from_hex(&hex).unwrap_err(), HexError::InvalidHex);
}

#[test]
fn block_hash_mirrors_txid_rules() {
    assert!(BlockHash::from_hex(&"00".repeat(32)).is_ok());
    assert_eq!(BlockHash::from_hex(&"00".repeat(20)).unwrap_err(), HexError::WrongLength);
}

#[test]
fn hash160_accepts_exactly_twenty_bytes() {
    let h = Hash160::from_hex(&"7f".repeat(20)).unwrap();
    assert_eq!(h.bytes, vec![0x7fu8; 20]);
    assert_eq!(Hash160::from_hex(&"7f".repeat(32)).unwrap_err(), HexError::WrongLength);
}

#[test]
fn script_decodes_any_even_hex() {
    let sc = Script::from_hex("0014abcd").unwrap();
    assert_eq!(sc.bytes, vec![0x00, 0x14, 0xab, 0xcd]);
    assert!(Script::from_hex("").unwrap().bytes.is_empty());
    assert_eq!(Script::from_hex("0").unwrap_err(), HexError::InvalidHex);
    assert_eq!(Script::from_hex("gg").unwrap_err(), HexError::InvalidHex);
}

#[test]
fn hex_digits_decode_in_both_cases() {
    let sc = Script::from_hex("AaFf09").unwrap();
    assert_eq!(sc.bytes, vec![0xaa, 0xff, 0x09]);
}

#[test]
fn witness_version_caps_at_sixteen() {
    assert_eq!(WitnessVersion::from_num(0).unwrap().num, 0);
    assert_eq!(WitnessVersion::from_num(16).unwrap().num, 16);
    assert_eq!(WitnessVersion::from_num(17).unwrap_err(), WitnessVersionError::TooHigh);
}

#[test]
fn witness_program_length_rules() {
    let v0 = WitnessVersion::from_num(0).unwrap();
    let v1 = WitnessVersion::from_num(1).unwrap();
    assert!(WitnessProgram::new(v0, vec![0u8; 20]).is_ok());
    assert!(WitnessProgram::new(v0, vec![0u8; 32]).is_ok());
    assert_eq!(
        WitnessProgram::new(v0, vec![0u8; 25]).unwrap_err(),
        WitnessProgramError::InvalidSegwitV0Length
    );
    assert!(WitnessProgram::new(v1, vec![0u8; 25]).is_ok());
    assert_eq!(
        WitnessProgram::new(v1, vec![0u8; 1]).unwrap_err(),
        WitnessProgramError::InvalidLength
    );
    assert_eq!(
        WitnessProgram::new(v1, vec![0u8; 41]).unwrap_err(),
        WitnessProgramError::InvalidLength
    );
}
