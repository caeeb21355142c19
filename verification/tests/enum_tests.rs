//! Enumerated string fields: every documented variant converts, anything else
//! fails carrying the offending string.

use btcjson::v17::{
    AddressPurpose, AddressPurposeError, TransactionCategory, TransactionCategoryError,
    Bip125Replacable, Bip125ReplacableError, GetAddressInfoScriptType,
    GetAddressInfoScriptTypeError,
};
use btcjson::model;

#[test]
fn address_purpose_documented_variants() {
    assert_eq!(AddressPurpose::from_wire_text(&"send".to_string()).unwrap(), AddressPurpose::Send);
    assert_eq!(
        AddressPurpose::from_wire_text(&"receive".to_string()).unwrap(),
        AddressPurpose::Receive
    );
}

#[test]
fn address_purpose_unknown_variant_carries_the_string() {
    let err = AddressPurpose::from_wire_text(&"sending".to_string()).unwrap_err();
    let AddressPurposeError::UnknownVariant(raw) = err;
    assert_eq!(raw, "sending");
}

#[test]
fn address_purpose_into_model() {
    assert_eq!(AddressPurpose::Send.into_model(), model::AddressPurpose::Send);
    assert_eq!(AddressPurpose::Receive.into_model(), model::AddressPurpose::Receive);
}

#[test]
fn transaction_category_documented_variants() {
    assert_eq!(
        TransactionCategory::from_wire_text(&"send".to_string()).unwrap(),
        TransactionCategory::Send
    );
    assert_eq!(
        TransactionCategory::from_wire_text(&"receive".to_string()).unwrap(),
        TransactionCategory::Receive
    );
    let TransactionCategoryError::UnknownVariant(raw) =
        TransactionCategory::from_wire_text(&"move".to_string()).unwrap_err();
    assert_eq!(raw, "move");
}

#[test]
fn transaction_category_into_model() {
    assert_eq!(TransactionCategory::Send.into_model(), model::TransactionCategory::Send);
    assert_eq!(TransactionCategory::Receive.into_model(), model::TransactionCategory::Receive);
}

#[test]
fn replaceable_documented_variants() {
    assert_eq!(
        Bip125Replacable::from_wire_text(&"yes".to_string()).unwrap(),
        Bip125Replacable::Yes
    );
    assert_eq!(Bip125Replacable::from_wire_text(&"no".to_string()).unwrap(), Bip125Replacable::No);
    assert_eq!(
        Bip125Replacable::from_wire_text(&"unknown".to_string()).unwrap(),
        Bip125Replacable::Unknown
    );
    let Bip125ReplacableError::UnknownVariant(raw) =
        Bip125Replacable::from_wire_text(&"maybe".to_string()).unwrap_err();
    assert_eq!(raw, "maybe");
}

#[test]
fn replaceable_into_model() {
    assert_eq!(Bip125Replacable::Yes.into_model(), model::Bip125Replaceable::Yes);
    assert_eq!(Bip125Replacable::No.into_model(), model::Bip125Replaceable::No);
    assert_eq!(Bip125Replacable::Unknown.into_model(), model::Bip125Replaceable::Unknown);
}

#[test]
fn script_type_documented_variants() {
    let cases = [
        ("nonstandard", GetAddressInfoScriptType::NonStandard),
        ("pubkey", GetAddressInfoScriptType::Pubkey),
        ("pubkeyhash", GetAddressInfoScriptType::PubkeyHash),
        ("scripthash", GetAddressInfoScriptType::ScriptHash),
        ("multisig", GetAddressInfoScriptType::Multisig),
        ("nulldata", GetAddressInfoScriptType::NullData),
        ("witness_v0_keyhash", GetAddressInfoScriptType::WitnessV0KeyHash),
        ("witness_v0_scripthash", GetAddressInfoScriptType::WitnessV0ScriptHash),
        ("witness_unknown", GetAddressInfoScriptType::WitnessUnknown),
    ];
    for (text, want) in cases {
        assert_eq!(GetAddressInfoScriptType::from_wire_text(&text.to_string()).unwrap(), want);
    }
    let GetAddressInfoScriptTypeError::UnknownVariant(raw) =
        GetAddressInfoScriptType::from_wire_text(&"p2sh".to_string()).unwrap_err();
    assert_eq!(raw, "p2sh");
}

#[test]
fn script_type_into_model() {
    assert_eq!(GetAddressInfoScriptType::Multisig.into_model(), model::ScriptType::Multisig);
    assert_eq!(
        GetAddressInfoScriptType::WitnessV0KeyHash.into_model(),
        model::ScriptType::WitnessV0KeyHash
    );
}
