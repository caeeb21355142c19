//! Wire records for one service version's wallet methods, and the conversion
//! engine that turns each into its version-independent domain model value.
//!
//! Each record mirrors exactly the field names, types and optionality that
//! this version emits, with currency quoted as base-unit decimal text.  Every
//! `into_model` consumes its record, validates fields in declaration order,
//! and stops at the first failing field, returning the error variant tagged
//! with that field.

use vstd::prelude::*;
use vstd::string::*;
use crate::amount::{
    Amount, SignedAmount, FeeRate, ParseAmountError, amount_text_ok, dec_text_ok, dec_text_sats,
    signed_amount_text_ok, sdec_text_ok, sdec_text_sats,
};
use crate::hexbytes::{HexError, hex_text_ok, hex_bytes, decode_hex};
use crate::primitives::{Txid, BlockHash, Script, Hash160, WitnessVersion, WitnessVersionError, WitnessProgram, WitnessProgramError, witness_program_ok};
use crate::address::{AddressError, UncheckedAddress, CheckedAddress, addr_parse_ok};
use crate::keys::{PrivKey, PrivateKeyError, wif_parse_ok, PubKey, PublicKeyError, pubkey_parse_ok, DerivPath, DerivationPathError, derivation_path_parse_ok};
use crate::tx::{RawTransaction, TransactionError, tx_hex_ok};
use crate::model;

verus! {

// ---------------------------------------------------------------------------
// Enumerated fields.
// ---------------------------------------------------------------------------

/// The purpose of an address, as this version spells it.
#[derive(Debug, Clone, Copy, PartialEq, Eq, Structural)]
pub enum AddressPurpose {
    /// A send-to address.
    Send,
    /// A receive-from address.
    Receive,
}

/// Why an address-purpose string failed to convert.
#[derive(Debug, Clone, PartialEq, Eq)]
pub enum AddressPurposeError {
    /// The string is not a documented purpose; carries the offending string.
    UnknownVariant(String),
}

/// The domain purpose for each wire purpose.
pub open spec fn purpose_model(p: AddressPurpose) -> model::AddressPurpose {
    match p {
        AddressPurpose::Send => model::AddressPurpose::Send,
        AddressPurpose::Receive => model::AddressPurpose::Receive,
    }
}

impl AddressPurpose {
    /// Converts the documented purpose strings; any other string fails,
    /// carrying the offending string.
    pub fn from_wire_text(s: &String) -> (r: Result<AddressPurpose, AddressPurposeError>)
        ensures
            s@ == "send"@ ==> r == Ok::<AddressPurpose, AddressPurposeError>(AddressPurpose::Send),
            s@ == "receive"@ ==> r == Ok::<AddressPurpose, AddressPurposeError>(
                AddressPurpose::Receive,
            ),
            r is Err <==> s@ != "send"@ && s@ != "receive"@,
            r matches Err(AddressPurposeError::UnknownVariant(t)) ==> t@ == s@,
    {
        proof {
            reveal_strlit("send");
            reveal_strlit("receive");
            assert("send"@.len() == 4);
            assert("receive"@.len() == 7);
        }
        if *s == String::from_str("send") {
            Ok(AddressPurpose::Send)
        } else if *s == String::from_str("receive") {
            Ok(AddressPurpose::Receive)
        } else {
            Err(AddressPurposeError::UnknownVariant(s.clone()))
        }
    }

    /// Converts the version-specific purpose to the version-independent one.
    pub fn into_model(self) -> (r: model::AddressPurpose)
        ensures
            r == purpose_model(self),
    {
        match self {
            AddressPurpose::Send => model::AddressPurpose::Send,
            AddressPurpose::Receive => model::AddressPurpose::Receive,
        }
    }
}

/// The category of a transaction, as this version spells it.
#[derive(Debug, Clone, Copy, PartialEq, Eq, Structural)]
pub enum TransactionCategory {
    /// The transaction is a send.
    Send,
    /// The transaction is a receive.
    Receive,
}

/// Why a transaction-category string failed to convert.
#[derive(Debug, Clone, PartialEq, Eq)]
pub enum TransactionCategoryError {
    /// The string is not a documented category; carries the offending string.
    UnknownVariant(String),
}

/// The domain category for each wire category.
pub open spec fn category_model(c: TransactionCategory) -> model::TransactionCategory {
    match c {
        TransactionCategory::Send => model::TransactionCategory::Send,
        TransactionCategory::Receive => model::TransactionCategory::Receive,
    }
}

impl TransactionCategory {
    /// Converts the documented category strings; any other string fails,
    /// carrying the offending string.
    pub fn from_wire_text(s: &String) -> (r: Result<TransactionCategory, TransactionCategoryError>)
        ensures
            s@ == "send"@ ==> r == Ok::<TransactionCategory, TransactionCategoryError>(
                TransactionCategory::Send,
            ),
            s@ == "receive"@ ==> r == Ok::<TransactionCategory, TransactionCategoryError>(
                TransactionCategory::Receive,
            ),
            r is Err <==> s@ != "send"@ && s@ != "receive"@,
            r matches Err(TransactionCategoryError::UnknownVariant(t)) ==> t@ == s@,
    {
        proof {
            reveal_strlit("send");
            reveal_strlit("receive");
            assert("send"@.len() == 4);
            assert("receive"@.len() == 7);
        }
        if *s == String::from_str("send") {
            Ok(TransactionCategory::Send)
        } else if *s == String::from_str("receive") {
            Ok(TransactionCategory::Receive)
        } else {
            Err(TransactionCategoryError::UnknownVariant(s.clone()))
        }
    }

    /// Converts the version-specific category to the version-independent one.
    pub fn into_model(self) -> (r: model::TransactionCategory)
        ensures
            r == category_model(self),
    {
        match self {
            TransactionCategory::Send => model::TransactionCategory::Send,
            TransactionCategory::Receive => model::TransactionCategory::Receive,
        }
    }
}

/// Whether a transaction can be replaced, as this version spells it.
#[derive(Debug, Clone, Copy, PartialEq, Eq, Structural)]
pub enum Bip125Replacable {
    /// The transaction can be replaced.
    Yes,
    /// The transaction cannot be replaced.
    No,
    /// Replaceability is unknown.
    Unknown,
}

/// Why a replaceability string failed to convert.
#[derive(Debug, Clone, PartialEq, Eq)]
pub enum Bip125ReplacableError {
    /// The string is not a documented value; carries the offending string.
    UnknownVariant(String),
}

/// The domain replaceability for each wire value.
pub open spec fn replaceable_model(b: Bip125Replacable) -> model::Bip125Replaceable {
    match b {
        Bip125Replacable::Yes => model::Bip125Replaceable::Yes,
        Bip125Replacable::No => model::Bip125Replaceable::No,
        Bip125Replacable::Unknown => model::Bip125Replaceable::Unknown,
    }
}

impl Bip125Replacable {
    /// Converts the documented replaceability strings; any other string
    /// fails, carrying the offending string.
    pub fn from_wire_text(s: &String) -> (r: Result<Bip125Replacable, Bip125ReplacableError>)
        ensures
            s@ == "yes"@ ==> r == Ok::<Bip125Replacable, Bip125ReplacableError>(
                Bip125Replacable::Yes,
            ),
            s@ == "no"@ ==> r == Ok::<Bip125Replacable, Bip125ReplacableError>(
                Bip125Replacable::No,
            ),
            s@ == "unknown"@ ==> r == Ok::<Bip125Replacable, Bip125ReplacableError>(
                Bip125Replacable::Unknown,
            ),
            r is Err <==> s@ != "yes"@ && s@ != "no"@ && s@ != "unknown"@,
            r matches Err(Bip125ReplacableError::UnknownVariant(t)) ==> t@ == s@,
    {
        proof {
            reveal_strlit("yes");
            reveal_strlit("no");
            reveal_strlit("unknown");
            assert("yes"@.len() == 3);
            assert("no"@.len() == 2);
            assert("unknown"@.len() == 7);
        }
        if *s == String::from_str("yes") {
            Ok(Bip125Replacable::Yes)
        } else if *s == String::from_str("no") {
            Ok(Bip125Replacable::No)
        } else if *s == String::from_str("unknown") {
            Ok(Bip125Replacable::Unknown)
        } else {
            Err(Bip125ReplacableError::UnknownVariant(s.clone()))
        }
    }

    /// Converts the version-specific replaceability to the
    /// version-independent one.
    pub fn into_model(self) -> (r: model::Bip125Replaceable)
        ensures
            r == replaceable_model(self),
    {
        match self {
            Bip125Replacable::Yes => model::Bip125Replaceable::Yes,
            Bip125Replacable::No => model::Bip125Replaceable::No,
            Bip125Replacable::Unknown => model::Bip125Replaceable::Unknown,
        }
    }
}

/// The output script type, as this version spells it.
#[derive(Debug, Clone, Copy, PartialEq, Eq, Structural)]
pub enum GetAddressInfoScriptType {
    /// Non-standard output script.
    NonStandard,
    /// Pubkey output script.
    Pubkey,
    /// Pubkey hash output script.
    PubkeyHash,
    /// Script hash output script.
    ScriptHash,
    /// Multisig output script.
    Multisig,
    /// Null data output script.
    NullData,
    /// Witness version zero key hash output script.
    WitnessV0KeyHash,
    /// Witness version zero script hash output script.
    WitnessV0ScriptHash,
    /// Unknown witness output script.
    WitnessUnknown,
}

/// Why a script-type string failed to convert.
#[derive(Debug, Clone, PartialEq, Eq)]
pub enum GetAddressInfoScriptTypeError {
    /// The string is not a documented script type; carries the offending
    /// string.
    UnknownVariant(String),
}

/// The domain script type for each wire script type.
pub open spec fn script_type_model(t: GetAddressInfoScriptType) -> model::ScriptType {
    match t {
        GetAddressInfoScriptType::NonStandard => model::ScriptType::NonStandard,
        GetAddressInfoScriptType::Pubkey => model::ScriptType::Pubkey,
        GetAddressInfoScriptType::PubkeyHash => model::ScriptType::PubkeyHash,
        GetAddressInfoScriptType::ScriptHash => model::ScriptType::ScriptHash,
        GetAddressInfoScriptType::Multisig => model::ScriptType::Multisig,
        GetAddressInfoScriptType::NullData => model::ScriptType::NullData,
        GetAddressInfoScriptType::WitnessV0KeyHash => model::ScriptType::WitnessV0KeyHash,
        GetAddressInfoScriptType::WitnessV0ScriptHash => model::ScriptType::WitnessV0ScriptHash,
        GetAddressInfoScriptType::WitnessUnknown => model::ScriptType::WitnessUnknown,
    }
}

impl GetAddressInfoScriptType {
    /// Converts the documented script-type strings; any other string fails,
    /// carrying the offending string.
    pub fn from_wire_text(s: &String) -> (r: Result<
        GetAddressInfoScriptType,
        GetAddressInfoScriptTypeError,
    >)
        ensures
            s@ == "nonstandard"@ ==> r == Ok::<GetAddressInfoScriptType,
                GetAddressInfoScriptTypeError,
            >(GetAddressInfoScriptType::NonStandard),
            s@ == "pubkey"@ ==> r == Ok::<GetAddressInfoScriptType, GetAddressInfoScriptTypeError>(
                GetAddressInfoScriptType::Pubkey,
            ),
            s@ == "pubkeyhash"@ ==> r == Ok::<GetAddressInfoScriptType,
                GetAddressInfoScriptTypeError,
            >(GetAddressInfoScriptType::PubkeyHash),
            s@ == "scripthash"@ ==> r == Ok::<GetAddressInfoScriptType,
                GetAddressInfoScriptTypeError,
            >(GetAddressInfoScriptType::ScriptHash),
            s@ == "multisig"@ ==> r == Ok::<GetAddressInfoScriptType,
                GetAddressInfoScriptTypeError,
            >(GetAddressInfoScriptType::Multisig),
            s@ == "nulldata"@ ==> r == Ok::<GetAddressInfoScriptType,
                GetAddressInfoScriptTypeError,
            >(GetAddressInfoScriptType::NullData),
            s@ == "witness_v0_keyhash"@ ==> r == Ok::<GetAddressInfoScriptType,
                GetAddressInfoScriptTypeError,
            >(GetAddressInfoScriptType::WitnessV0KeyHash),
            s@ == "witness_v0_scripthash"@ ==> r == Ok::<GetAddressInfoScriptType,
                GetAddressInfoScriptTypeError,
            >(GetAddressInfoScriptType::WitnessV0ScriptHash),
            s@ == "witness_unknown"@ ==> r == Ok::<GetAddressInfoScriptType,
                GetAddressInfoScriptTypeError,
            >(GetAddressInfoScriptType::WitnessUnknown),
            r is Err <==> (s@ != "nonstandard"@ && s@ != "pubkey"@ && s@ != "pubkeyhash"@ && s@
                != "scripthash"@ && s@ != "multisig"@ && s@ != "nulldata"@ && s@
                != "witness_v0_keyhash"@ && s@ != "witness_v0_scripthash"@ && s@
                != "witness_unknown"@),
            r matches Err(GetAddressInfoScriptTypeError::UnknownVariant(t)) ==> t@ == s@,
    {
        proof {
            reveal_strlit("nonstandard");
            reveal_strlit("pubkey");
            reveal_strlit("pubkeyhash");
            reveal_strlit("scripthash");
            reveal_strlit("multisig");
            reveal_strlit("nulldata");
            reveal_strlit("witness_v0_keyhash");
            reveal_strlit("witness_v0_scripthash");
            reveal_strlit("witness_unknown");
            assert("nonstandard"@.len() == 11);
            assert("pubkey"@.len() == 6);
            assert("pubkeyhash"@.len() == 10);
            assert("scripthash"@.len() == 10);
            assert("multisig"@.len() == 8);
            assert("nulldata"@.len() == 8);
            assert("witness_v0_keyhash"@.len() == 18);
            assert("witness_v0_scripthash"@.len() == 21);
            assert("witness_unknown"@.len() == 15);
            assert("pubkeyhash"@[0] == 'p');
            assert("scripthash"@[0] == 's');
            assert("multisig"@[0] == 'm');
            assert("nulldata"@[0] == 'n');
        }
        if *s == String::from_str("nonstandard") {
            Ok(GetAddressInfoScriptType::NonStandard)
        } else if *s == String::from_str("pubkey") {
            Ok(GetAddressInfoScriptType::Pubkey)
        } else if *s == String::from_str("pubkeyhash") {
            Ok(GetAddressInfoScriptType::PubkeyHash)
        } else if *s == String::from_str("scripthash") {
            Ok(GetAddressInfoScriptType::ScriptHash)
        } else if *s == String::from_str("multisig") {
            Ok(GetAddressInfoScriptType::Multisig)
        } else if *s == String::from_str("nulldata") {
            Ok(GetAddressInfoScriptType::NullData)
        } else if *s == String::from_str("witness_v0_keyhash") {
            Ok(GetAddressInfoScriptType::WitnessV0KeyHash)
        } else if *s == String::from_str("witness_v0_scripthash") {
            Ok(GetAddressInfoScriptType::WitnessV0ScriptHash)
        } else if *s == String::from_str("witness_unknown") {
            Ok(GetAddressInfoScriptType::WitnessUnknown)
        } else {
            Err(GetAddressInfoScriptTypeError::UnknownVariant(s.clone()))
        }
    }

    /// Converts the version-specific script type to the version-independent
    /// one.
    pub fn into_model(self) -> (r: model::ScriptType)
        ensures
            r == script_type_model(self),
    {
        match self {
            GetAddressInfoScriptType::NonStandard => model::ScriptType::NonStandard,
            GetAddressInfoScriptType::Pubkey => model::ScriptType::Pubkey,
            GetAddressInfoScriptType::PubkeyHash => model::ScriptType::PubkeyHash,
            GetAddressInfoScriptType::ScriptHash => model::ScriptType::ScriptHash,
            GetAddressInfoScriptType::Multisig => model::ScriptType::Multisig,
            GetAddressInfoScriptType::NullData => model::ScriptType::NullData,
            GetAddressInfoScriptType::WitnessV0KeyHash => model::ScriptType::WitnessV0KeyHash,
            GetAddressInfoScriptType::WitnessV0ScriptHash => model::ScriptType::WitnessV0ScriptHash,
            GetAddressInfoScriptType::WitnessUnknown => model::ScriptType::WitnessUnknown,
        }
    }
}

// ---------------------------------------------------------------------------
// Simple records.
// ---------------------------------------------------------------------------

/// Reply to creating a wallet: its name and one warning string.
#[derive(Clone, Debug, PartialEq, Eq)]
pub struct CreateWallet {
    /// The wallet name, if created successfully.
    pub name: String,
    /// Warning messages related to creating and loading the wallet.
    pub warning: String,
}

impl CreateWallet {
    /// Converts to the domain result; the single warning string becomes the
    /// domain's warning list.
    pub fn into_model(self) -> (r: model::CreateWallet)
        ensures
            r.name == self.name,
            r.warnings@.len() == 1,
            r.warnings@[0] == self.warning,
    {
        model::CreateWallet { name: self.name, warnings: vec![self.warning] }
    }

    /// The created wallet name, projected from the domain result.
    pub fn name(self) -> (r: String)
        ensures
            r == self.name,
    {
        self.into_model().name
    }
}

/// Reply to loading a wallet: its name and one warning string.
#[derive(Clone, Debug, PartialEq, Eq)]
pub struct LoadWallet {
    /// The wallet name, if loaded successfully.
    pub name: String,
    /// Warning messages related to loading the wallet.
    pub warning: String,
}

impl LoadWallet {
    /// Converts to the domain result; the single warning string becomes the
    /// domain's warning list.
    pub fn into_model(self) -> (r: model::LoadWallet)
        ensures
            r.name == self.name,
            r.warnings@.len() == 1,
            r.warnings@[0] == self.warning,
    {
        model::LoadWallet { name: self.name, warnings: vec![self.warning] }
    }

    /// The loaded wallet name, projected from the domain result.
    pub fn name(self) -> (r: String)
        ensures
            r == self.name,
    {
        self.into_model().name
    }
}

/// Reply to revealing the private key for an address.
#[derive(Clone, Debug, PartialEq, Eq)]
pub struct DumpPrivKey {
    /// The private key in wallet-import format.
    pub key: String,
}

impl DumpPrivKey {
    /// Converts to the domain result; succeeds exactly when the key text is
    /// valid wallet-import format.
    pub fn into_model(self) -> (r: Result<model::DumpPrivKey, PrivateKeyError>)
        ensures
            r is Ok <==> wif_parse_ok(self.key@),
            r matches Ok(m) ==> m.key.wif@ == self.key@,
            r matches Err(e) ==> e == PrivateKeyError::InvalidWif,
    {
        match PrivKey::from_wif_text(self.key) {
            Ok(key) => Ok(model::DumpPrivKey { key }),
            Err(e) => Err(e),
        }
    }

    /// The dumped key, projected from the domain result with the same error.
    pub fn key(self) -> (r: Result<PrivKey, PrivateKeyError>)
        ensures
            r is Ok <==> wif_parse_ok(self.key@),
            r matches Ok(k) ==> k.wif@ == self.key@,
            r matches Err(e) ==> e == PrivateKeyError::InvalidWif,
    {
        match self.into_model() {
            Ok(m) => Ok(m.key),
            Err(e) => Err(e),
        }
    }
}

/// Reply to dumping the wallet to a server-side file.
#[derive(Clone, Debug, PartialEq, Eq)]
pub struct DumpWallet {
    /// The file name with full absolute path.
    pub file_name: String,
}

impl DumpWallet {
    /// Converts to the domain result; nothing requires validation.
    pub fn into_model(self) -> (r: model::DumpWallet)
        ensures
            r.file_name == self.file_name,
    {
        model::DumpWallet { file_name: self.file_name }
    }
}

/// Reply to asking for the total available balance: base-unit decimal text.
#[derive(Clone, Debug, PartialEq, Eq)]
pub struct GetBalance(pub String);

impl GetBalance {
    /// Converts to the domain result; succeeds exactly when the text is a
    /// well-formed non-negative decimal amount that fits the domain type.
    pub fn into_model(self) -> (r: Result<model::GetBalance, ParseAmountError>)
        ensures
            r is Ok <==> amount_text_ok(self.0@),
            r matches Ok(m) ==> m.0.sats == sdec_text_sats(self.0@),
            r matches Err(e) ==> (e == ParseAmountError::InvalidDecimal <==> !sdec_text_ok(self.0@)),
            sdec_text_ok(self.0@) && r is Err ==> r->Err_0 == ParseAmountError::OutOfRange,
    {
        match Amount::from_btc_text(self.0.as_str()) {
            Ok(a) => Ok(model::GetBalance(a)),
            Err(e) => Err(e),
        }
    }

    /// The balance, projected from the domain result with the same error.
    pub fn balance(self) -> (r: Result<Amount, ParseAmountError>)
        ensures
            r is Ok <==> amount_text_ok(self.0@),
            r matches Ok(a) ==> a.sats == sdec_text_sats(self.0@),
            r matches Err(e) ==> (e == ParseAmountError::InvalidDecimal <==> !sdec_text_ok(self.0@)),
            sdec_text_ok(self.0@) && r is Err ==> r->Err_0 == ParseAmountError::OutOfRange,
    {
        match self.into_model() {
            Ok(m) => Ok(m.0),
            Err(e) => Err(e),
        }
    }
}

/// Reply to asking for the total unconfirmed balance: base-unit decimal text.
#[derive(Clone, Debug, PartialEq, Eq)]
pub struct GetUnconfirmedBalance(pub String);

impl GetUnconfirmedBalance {
    /// Converts to the domain result; succeeds exactly when the text is a
    /// well-formed non-negative decimal amount that fits the domain type.
    pub fn into_model(self) -> (r: Result<model::GetUnconfirmedBalance, ParseAmountError>)
        ensures
            r is Ok <==> amount_text_ok(self.0@),
            r matches Ok(m) ==> m.0.sats == sdec_text_sats(self.0@),
            r matches Err(e) ==> (e == ParseAmountError::InvalidDecimal <==> !sdec_text_ok(self.0@)),
            sdec_text_ok(self.0@) && r is Err ==> r->Err_0 == ParseAmountError::OutOfRange,
    {
        match Amount::from_btc_text(self.0.as_str()) {
            Ok(a) => Ok(model::GetUnconfirmedBalance(a)),
            Err(e) => Err(e),
        }
    }
}

/// Reply to asking what an address received: base-unit decimal text.
#[derive(Clone, Debug, PartialEq, Eq)]
pub struct GetReceivedByAddress(pub String);

impl GetReceivedByAddress {
    /// Converts to the domain result; succeeds exactly when the text is a
    /// well-formed non-negative decimal amount that fits the domain type.
    pub fn into_model(self) -> (r: Result<model::GetReceivedByAddress, ParseAmountError>)
        ensures
            r is Ok <==> amount_text_ok(self.0@),
            r matches Ok(m) ==> m.0.sats == sdec_text_sats(self.0@),
            r matches Err(e) ==> (e == ParseAmountError::InvalidDecimal <==> !sdec_text_ok(self.0@)),
            sdec_text_ok(self.0@) && r is Err ==> r->Err_0 == ParseAmountError::OutOfRange,
    {
        match Amount::from_btc_text(self.0.as_str()) {
            Ok(a) => Ok(model::GetReceivedByAddress(a)),
            Err(e) => Err(e),
        }
    }
}

/// Reply to asking for a new receiving address.
#[derive(Clone, Debug, PartialEq, Eq)]
pub struct GetNewAddress(pub String);

impl GetNewAddress {
    /// Converts to the domain result; succeeds exactly when the text is a
    /// syntactically valid address, kept network-unchecked.
    pub fn into_model(self) -> (r: Result<model::GetNewAddress, AddressError>)
        ensures
            r is Ok <==> addr_parse_ok(self.0@),
            r matches Ok(m) ==> m.0.text@ == self.0@,
            r matches Err(e) ==> e == AddressError::InvalidAddressSyntax,
    {
        match UncheckedAddress::from_text(self.0) {
            Ok(a) => Ok(model::GetNewAddress(a)),
            Err(e) => Err(e),
        }
    }

    /// The address, projected from the domain result with the same error.
    pub fn address(self) -> (r: Result<UncheckedAddress, AddressError>)
        ensures
            r is Ok <==> addr_parse_ok(self.0@),
            r matches Ok(a) ==> a.text@ == self.0@,
            r matches Err(e) ==> e == AddressError::InvalidAddressSyntax,
    {
        match self.into_model() {
            Ok(m) => Ok(m.0),
            Err(e) => Err(e),
        }
    }
}

/// Reply to asking for a new change address.
#[derive(Clone, Debug, PartialEq, Eq)]
pub struct GetRawChangeAddress(pub String);

impl GetRawChangeAddress {
    /// Converts to the domain result; succeeds exactly when the text is a
    /// syntactically valid address, then assumed to match the service's
    /// network.
    pub fn into_model(self) -> (r: Result<model::GetRawChangeAddress, AddressError>)
        ensures
            r is Ok <==> addr_parse_ok(self.0@),
            r matches Ok(m) ==> m.0.text@ == self.0@,
            r matches Err(e) ==> e == AddressError::InvalidAddressSyntax,
    {
        match CheckedAddress::from_text(self.0) {
            Ok(a) => Ok(model::GetRawChangeAddress(a)),
            Err(e) => Err(e),
        }
    }
}

/// Reply to sending funds: the sending transaction's id as hex text.
#[derive(Clone, Debug, PartialEq, Eq)]
pub struct SendToAddress(pub String);

impl SendToAddress {
    /// Converts to the domain result; succeeds exactly when the text is hex
    /// of a thirty-two byte id.
    pub fn into_model(self) -> (r: Result<model::SendToAddress, HexError>)
        ensures
            r is Ok <==> hex_text_ok(self.0@) && hex_bytes(self.0@).len() == 32,
            r matches Ok(m) ==> m.txid.bytes@ == hex_bytes(self.0@),
            r matches Err(e) ==> (e == HexError::InvalidHex <==> !hex_text_ok(self.0@)),
            hex_text_ok(self.0@) && r is Err ==> r->Err_0 == HexError::WrongLength,
    {
        match Txid::from_hex(self.0.as_str()) {
            Ok(txid) => Ok(model::SendToAddress { txid }),
            Err(e) => Err(e),
        }
    }

    /// The transaction id, projected from the domain result with the same
    /// error.
    pub fn txid(self) -> (r: Result<Txid, HexError>)
        ensures
            r is Ok <==> hex_text_ok(self.0@) && hex_bytes(self.0@).len() == 32,
            r matches Ok(t) ==> t.bytes@ == hex_bytes(self.0@),
            r matches Err(e) ==> (e == HexError::InvalidHex <==> !hex_text_ok(self.0@)),
            hex_text_ok(self.0@) && r is Err ==> r->Err_0 == HexError::WrongLength,
    {
        match self.into_model() {
            Ok(m) => Ok(m.txid),
            Err(e) => Err(e),
        }
    }
}

/// Reply to listing all labels.
#[derive(Clone, Debug, PartialEq, Eq)]
pub struct ListLabels(pub Vec<String>);

impl ListLabels {
    /// Converts to the domain result; nothing requires validation.
    pub fn into_model(self) -> (r: model::ListLabels)
        ensures
            r.0 == self.0,
    {
        model::ListLabels(self.0)
    }
}

/// Reply to listing currently loaded wallets.
#[derive(Clone, Debug, PartialEq, Eq)]
pub struct ListWallets(pub Vec<String>);

impl ListWallets {
    /// Converts to the domain result; nothing requires validation.
    pub fn into_model(self) -> (r: model::ListWallets)
        ensures
            r.0 == self.0,
    {
        model::ListWallets(self.0)
    }
}

/// Reply to adding a multisignature address to the wallet.
#[derive(Clone, Debug, PartialEq, Eq)]
pub struct AddMultisigAddress {
    /// The new multisig address.
    pub address: String,
    /// The hex-encoded redemption script.
    pub redeem_script: String,
}

/// Why an add-multisig-address record failed to convert.
#[derive(Debug, Clone, PartialEq, Eq)]
pub enum AddMultisigAddressError {
    /// Conversion of the `address` field failed.
    Address(AddressError),
    /// Conversion of the `redeem_script` field failed.
    RedeemScript(HexError),
}

impl AddMultisigAddress {
    /// Converts to the domain result, validating the address and then the
    /// redemption script, failing on the first invalid field.
    pub fn into_model(self) -> (r: Result<model::AddMultisigAddress, AddMultisigAddressError>)
        ensures
            r is Ok <==> addr_parse_ok(self.address@) && hex_text_ok(self.redeem_script@),
            r matches Ok(m) ==> m.address.text@ == self.address@ && m.redeem_script.bytes@
                == hex_bytes(self.redeem_script@),
            r matches Err(e) ==> match e {
                AddMultisigAddressError::Address(ae) => !addr_parse_ok(self.address@) && ae
                    == AddressError::InvalidAddressSyntax,
                AddMultisigAddressError::RedeemScript(he) => addr_parse_ok(self.address@)
                    && !hex_text_ok(self.redeem_script@) && he == HexError::InvalidHex,
            },
    {
        let AddMultisigAddress { address, redeem_script } = self;
        let address = match UncheckedAddress::from_text(address) {
            Ok(a) => a,
            Err(e) => {
                return Err(AddMultisigAddressError::Address(e));
            },
        };
        let redeem_script = match Script::from_hex(redeem_script.as_str()) {
            Ok(sc) => sc,
            Err(e) => {
                return Err(AddMultisigAddressError::RedeemScript(e));
            },
        };
        Ok(model::AddMultisigAddress { address, redeem_script })
    }
}

/// Reply to bumping the fee of a replaceable transaction.  Fees are quoted in
/// integer subunits by this method.
#[derive(Clone, Debug, PartialEq, Eq)]
pub struct BumpFee {
    /// The id of the new transaction, as hex text.
    pub txid: String,
    /// Fee of the replaced transaction, in subunits.
    pub original_fee: u64,
    /// Fee of the new transaction, in subunits.
    pub fee: u64,
    /// Errors encountered during processing; may be empty.
    pub errors: Vec<String>,
}

impl BumpFee {
    /// Converts to the domain result; only the transaction id requires
    /// validation, the subunit fees widen without loss.
    pub fn into_model(self) -> (r: Result<model::BumpFee, HexError>)
        ensures
            r is Ok <==> hex_text_ok(self.txid@) && hex_bytes(self.txid@).len() == 32,
            r matches Ok(m) ==> m.txid.bytes@ == hex_bytes(self.txid@) && m.original_fee.sats
                == self.original_fee && m.fee.sats == self.fee && m.errors == self.errors,
            r matches Err(e) ==> (e == HexError::InvalidHex <==> !hex_text_ok(self.txid@)),
            hex_text_ok(self.txid@) && r is Err ==> r->Err_0 == HexError::WrongLength,
    {
        let BumpFee { txid, original_fee, fee, errors } = self;
        let txid = match Txid::from_hex(txid.as_str()) {
            Ok(t) => t,
            Err(e) => {
                return Err(e);
            },
        };
        Ok(model::BumpFee {
            txid,
            original_fee: Amount::from_sat(original_fee),
            fee: Amount::from_sat(fee),
            errors,
        })
    }
}

// ---------------------------------------------------------------------------
// Addresses grouped by label.
// ---------------------------------------------------------------------------

/// Reply to listing the addresses assigned a label: each address with its
/// purpose, in wire order.
#[derive(Clone, Debug, PartialEq, Eq)]
pub struct GetAddressesByLabel {
    /// Each address with information about it.
    pub addresses: Vec<(String, AddressPurpose)>,
}

/// Why a get-addresses-by-label record failed to convert.
#[derive(Debug, Clone, PartialEq, Eq)]
pub enum GetAddressesByLabelError {
    /// Conversion of an address string failed.
    Address(AddressError),
}

/// Every listed address parses.
pub open spec fn addresses_by_label_ok(w: GetAddressesByLabel) -> bool {
    forall|i: int|
        0 <= i < w.addresses@.len() ==> addr_parse_ok(#[trigger] w.addresses@[i].0@)
}

/// The domain entries carry the same address text, network-assumed, and the
/// converted purpose, in the same order.
pub open spec fn addresses_by_label_model_ok(
    m: model::GetAddressesByLabel,
    w: GetAddressesByLabel,
) -> bool {
    &&& m.addresses@.len() == w.addresses@.len()
    &&& forall|i: int|
        0 <= i < w.addresses@.len() ==> (#[trigger] m.addresses@[i]).0.text@ == w.addresses@[i].0@
            && m.addresses@[i].1 == purpose_model(w.addresses@[i].1)
}

impl GetAddressesByLabel {
    /// Converts to the domain result, validating each address in order and
    /// assuming the service's network; fails on the first invalid address.
    pub fn into_model(self) -> (r: Result<model::GetAddressesByLabel, GetAddressesByLabelError>)
        ensures
            r is Ok <==> addresses_by_label_ok(self),
            r matches Ok(m) ==> addresses_by_label_model_ok(m, self),
            r matches Err(GetAddressesByLabelError::Address(ae)) ==> !addresses_by_label_ok(self)
                && ae == AddressError::InvalidAddressSyntax,
    {
        let GetAddressesByLabel { addresses } = self;
        let ghost orig = addresses@;
        let mut items = addresses;
        let total: usize = items.len();
        let mut out: Vec<(CheckedAddress, model::AddressPurpose)> = Vec::new();
        let mut idx: usize = 0;
        while items.len() > 0
            invariant
                orig == self.addresses@,
                orig.len() == total,
                idx + items@.len() == orig.len(),
                items@ == orig.skip(idx as int),
                out@.len() == idx,
                forall|j: int| 0 <= j < idx ==> addr_parse_ok(#[trigger] orig[j].0@),
                forall|j: int|
                    0 <= j < idx ==> (#[trigger] out@[j]).0.text@ == orig[j].0@ && out@[j].1
                        == purpose_model(orig[j].1),
            decreases items@.len(),
        {
            proof {
                assert(items@[0] == orig[idx as int]);
            }
            let (text, purpose) = items.remove(0);
            proof {
                assert(items@ =~= orig.skip(idx as int + 1));
            }
            let address = match CheckedAddress::from_text(text) {
                Ok(a) => a,
                Err(ae) => {
                    proof {
                        assert(!addr_parse_ok(self.addresses@[idx as int].0@));
                        assert(!addresses_by_label_ok(self));
                    }
                    return Err(GetAddressesByLabelError::Address(ae));
                },
            };
            out.push((address, purpose.into_model()));
            idx += 1;
        }
        proof {
            assert(idx == orig.len());
        }
        Ok(model::GetAddressesByLabel { addresses: out })
    }
}

// ---------------------------------------------------------------------------
// In-wallet transactions.
// ---------------------------------------------------------------------------

/// One movement of funds within a wire transaction record.
#[derive(Clone, Debug, PartialEq, Eq)]
pub struct GetTransactionDetail {
    /// Deprecated account name; ignored by conversion.
    pub account: String,
    /// The address involved in the transaction.
    pub address: String,
    /// Whether funds were sent or received.
    pub category: TransactionCategory,
    /// The amount as base-unit decimal text; negative for sends.
    pub amount: String,
    /// A label for the address or transaction, if any.
    pub label: Option<String>,
    /// The output index.
    pub vout: u32,
    /// The fee as base-unit decimal text; negative, only present for sends.
    pub fee: Option<String>,
    /// Whether the transaction was abandoned; only present for sends.
    pub abandoned: Option<bool>,
}

/// Why a transaction-detail record failed to convert.
#[derive(Debug, Clone, PartialEq, Eq)]
pub enum GetTransactionDetailError {
    /// Conversion of the `address` field failed.
    Address(AddressError),
    /// Conversion of the `amount` field failed.
    Amount(ParseAmountError),
    /// Conversion of the `fee` field failed.
    Fee(ParseAmountError),
}

/// Every fallible field of the detail record converts.
pub open spec fn tx_detail_ok(d: GetTransactionDetail) -> bool {
    &&& addr_parse_ok(d.address@)
    &&& signed_amount_text_ok(d.amount@)
    &&& match d.fee {
        Some(f) => signed_amount_text_ok(f@),
        None => true,
    }
}

/// The domain detail carries the converted fields and copies the rest.
pub open spec fn tx_detail_model_ok(
    m: model::GetTransactionDetail,
    d: GetTransactionDetail,
) -> bool {
    &&& m.address.text@ == d.address@
    &&& m.category == category_model(d.category)
    &&& m.amount.sats == sdec_text_sats(d.amount@)
    &&& match (d.fee, m.fee) {
        (Some(f), Some(mf)) => mf.sats == sdec_text_sats(f@),
        (None, None) => true,
        _ => false,
    }
    &&& m.label == d.label
    &&& m.vout == d.vout
    &&& m.abandoned == d.abandoned
}

/// The error names the first field, in declaration order, that does not
/// convert, wrapping that converter's failure.
pub open spec fn tx_detail_err_ok(e: GetTransactionDetailError, d: GetTransactionDetail) -> bool {
    match e {
        GetTransactionDetailError::Address(ae) => !addr_parse_ok(d.address@) && ae
            == AddressError::InvalidAddressSyntax,
        GetTransactionDetailError::Amount(ae) => addr_parse_ok(d.address@)
            && !signed_amount_text_ok(d.amount@) && (ae == ParseAmountError::InvalidDecimal
            <==> !sdec_text_ok(d.amount@)),
        GetTransactionDetailError::Fee(ae) => addr_parse_ok(d.address@) && signed_amount_text_ok(
            d.amount@,
        ) && (d.fee matches Some(f) && !signed_amount_text_ok(f@) && (ae
            == ParseAmountError::InvalidDecimal <==> !sdec_text_ok(f@))),
    }
}

impl GetTransactionDetail {
    /// Converts to the domain detail, validating the address, the amount and
    /// the fee in that order, failing on the first invalid field.
    pub fn into_model(self) -> (r: Result<model::GetTransactionDetail, GetTransactionDetailError>)
        ensures
            r is Ok <==> tx_detail_ok(self),
            r matches Ok(m) ==> tx_detail_model_ok(m, self),
            r matches Err(e) ==> tx_detail_err_ok(e, self),
    {
        let GetTransactionDetail { account: _, address, category, amount, label, vout, fee, abandoned } =
            self;
        let address = match UncheckedAddress::from_text(address) {
            Ok(a) => a,
            Err(ae) => {
                return Err(GetTransactionDetailError::Address(ae));
            },
        };
        let amount = match SignedAmount::from_btc_text(amount.as_str()) {
            Ok(a) => a,
            Err(ae) => {
                return Err(GetTransactionDetailError::Amount(ae));
            },
        };
        let fee = match fee {
            Some(f) => match SignedAmount::from_btc_text(f.as_str()) {
                Ok(a) => Some(a),
                Err(ae) => {
                    return Err(GetTransactionDetailError::Fee(ae));
                },
            },
            None => None,
        };
        Ok(model::GetTransactionDetail {
            address,
            category: category.into_model(),
            amount,
            label,
            vout,
            fee,
            abandoned,
        })
    }
}

/// Reply to asking for detailed information about an in-wallet transaction.
#[derive(Clone, Debug, PartialEq, Eq)]
pub struct GetTransaction {
    /// Deprecated account name; ignored by conversion.
    pub account: String,
    /// The transaction amount as base-unit decimal text.
    pub amount: String,
    /// The fee as base-unit decimal text; negative, only present for sends.
    pub fee: Option<String>,
    /// The number of confirmations.
    pub confirmations: u32,
    /// The block hash; not part of the domain result for this version.
    pub block_hash: String,
    /// The index of the transaction in its block.
    pub block_index: i64,
    /// The block time in seconds since the epoch.
    pub block_time: u32,
    /// The transaction id as hex text.
    pub txid: String,
    /// The transaction time in seconds since the epoch.
    pub time: u32,
    /// The time received in seconds since the epoch.
    pub time_received: u32,
    /// Whether the transaction signals opt-in replaceability.
    pub bip125_replaceable: Bip125Replacable,
    /// The per-address movements within the transaction.
    pub details: Vec<GetTransactionDetail>,
    /// The raw transaction as hex text.
    pub hex: String,
}

/// Why a transaction record failed to convert.
#[derive(Debug, Clone, PartialEq, Eq)]
pub enum GetTransactionError {
    /// Conversion of the `amount` field failed.
    Amount(ParseAmountError),
    /// Conversion of the `fee` field failed.
    Fee(ParseAmountError),
    /// Conversion of the `txid` field failed.
    Txid(HexError),
    /// Conversion of the transaction `hex` field failed.
    Tx(TransactionError),
    /// Conversion of an entry of the `details` field failed.
    Details(GetTransactionDetailError),
}

/// Every fallible field of the transaction record converts.
pub open spec fn get_transaction_ok(w: GetTransaction) -> bool {
    &&& signed_amount_text_ok(w.amount@)
    &&& match w.fee {
        Some(f) => signed_amount_text_ok(f@),
        None => true,
    }
    &&& hex_text_ok(w.txid@) && hex_bytes(w.txid@).len() == 32
    &&& tx_hex_ok(w.hex@)
    &&& forall|i: int| 0 <= i < w.details@.len() ==> tx_detail_ok(#[trigger] w.details@[i])
}

/// The domain transaction carries the converted fields and copies the rest.
pub open spec fn get_transaction_model_ok(m: model::GetTransaction, w: GetTransaction) -> bool {
    &&& m.amount.sats == sdec_text_sats(w.amount@)
    &&& match (w.fee, m.fee) {
        (Some(f), Some(mf)) => mf.sats == sdec_text_sats(f@),
        (None, None) => true,
        _ => false,
    }
    &&& m.confirmations == w.confirmations
    &&& m.txid.bytes@ == hex_bytes(w.txid@)
    &&& m.time == w.time
    &&& m.time_received == w.time_received
    &&& m.bip125_replaceable == replaceable_model(w.bip125_replaceable)
    &&& m.details@.len() == w.details@.len()
    &&& forall|i: int|
        0 <= i < w.details@.len() ==> tx_detail_model_ok(#[trigger] m.details@[i], w.details@[i])
    &&& m.tx.hex@ == w.hex@
}

/// The error names the first field, in validation order, that does not
/// convert, wrapping that converter's failure; a detail failure names the
/// first failing entry's cause.
pub open spec fn get_transaction_err_ok(e: GetTransactionError, w: GetTransaction) -> bool {
    match e {
        GetTransactionError::Amount(ae) => !signed_amount_text_ok(w.amount@) && (ae
            == ParseAmountError::InvalidDecimal <==> !sdec_text_ok(w.amount@)),
        GetTransactionError::Fee(ae) => signed_amount_text_ok(w.amount@) && (w.fee matches Some(f)
            && !signed_amount_text_ok(f@) && (ae == ParseAmountError::InvalidDecimal
            <==> !sdec_text_ok(f@))),
        GetTransactionError::Txid(he) => signed_amount_text_ok(w.amount@) && match w.fee {
            Some(f) => signed_amount_text_ok(f@),
            None => true,
        } && !(hex_text_ok(w.txid@) && hex_bytes(w.txid@).len() == 32) && (he
            == HexError::InvalidHex <==> !hex_text_ok(w.txid@)),
        GetTransactionError::Tx(te) => signed_amount_text_ok(w.amount@) && match w.fee {
            Some(f) => signed_amount_text_ok(f@),
            None => true,
        } && hex_text_ok(w.txid@) && hex_bytes(w.txid@).len() == 32 && !tx_hex_ok(w.hex@) && te
            == TransactionError::InvalidTransactionHex,
        GetTransactionError::Details(de) => signed_amount_text_ok(w.amount@) && match w.fee {
            Some(f) => signed_amount_text_ok(f@),
            None => true,
        } && hex_text_ok(w.txid@) && hex_bytes(w.txid@).len() == 32 && tx_hex_ok(w.hex@) && exists|
            i: int,
        |
            0 <= i < w.details@.len() && (forall|j: int|
                0 <= j < i ==> tx_detail_ok(#[trigger] w.details@[j])) && !tx_detail_ok(
                #[trigger] w.details@[i],
            ) && tx_detail_err_ok(de, w.details@[i]),
    }
}

impl GetTransaction {
    /// Converts to the domain result, validating the amount, the fee, the
    /// transaction id, the raw transaction, and then each detail in order,
    /// failing on the first invalid field.
    pub fn into_model(self) -> (r: Result<model::GetTransaction, GetTransactionError>)
        ensures
            r is Ok <==> get_transaction_ok(self),
            r matches Ok(m) ==> get_transaction_model_ok(m, self),
            r matches Err(e) ==> get_transaction_err_ok(e, self),
    {
        let GetTransaction {
            account: _,
            amount,
            fee,
            confirmations,
            block_hash: _,
            block_index: _,
            block_time: _,
            txid,
            time,
            time_received,
            bip125_replaceable,
            details,
            hex,
        } = self;
        let amount = match SignedAmount::from_btc_text(amount.as_str()) {
            Ok(a) => a,
            Err(ae) => {
                return Err(GetTransactionError::Amount(ae));
            },
        };
        let fee = match fee {
            Some(f) => match SignedAmount::from_btc_text(f.as_str()) {
                Ok(a) => Some(a),
                Err(ae) => {
                    return Err(GetTransactionError::Fee(ae));
                },
            },
            None => None,
        };
        let txid = match Txid::from_hex(txid.as_str()) {
            Ok(t) => t,
            Err(he) => {
                return Err(GetTransactionError::Txid(he));
            },
        };
        let tx = match RawTransaction::from_hex_text(hex) {
            Ok(t) => t,
            Err(te) => {
                return Err(GetTransactionError::Tx(te));
            },
        };
        let ghost orig = details@;
        let mut items = details;
        let total: usize = items.len();
        let mut out: Vec<model::GetTransactionDetail> = Vec::new();
        let mut idx: usize = 0;
        while items.len() > 0
            invariant
                orig == self.details@,
                signed_amount_text_ok(self.amount@),
                match self.fee {
                    Some(f) => signed_amount_text_ok(f@),
                    None => true,
                },
                hex_text_ok(self.txid@) && hex_bytes(self.txid@).len() == 32,
                tx_hex_ok(self.hex@),
                orig.len() == total,
                idx + items@.len() == orig.len(),
                items@ == orig.skip(idx as int),
                out@.len() == idx,
                forall|j: int| 0 <= j < idx ==> tx_detail_ok(#[trigger] orig[j]),
                forall|j: int|
                    0 <= j < idx ==> tx_detail_model_ok(#[trigger] out@[j], orig[j]),
            decreases items@.len(),
        {
            proof {
                assert(items@[0] == orig[idx as int]);
            }
            let d = items.remove(0);
            proof {
                assert(items@ =~= orig.skip(idx as int + 1));
            }
            match d.into_model() {
                Ok(md) => {
                    out.push(md);
                    idx += 1;
                },
                Err(de) => {
                    proof {
                        assert(!tx_detail_ok(self.details@[idx as int]));
                        assert(tx_detail_err_ok(de, self.details@[idx as int]));
                        assert(forall|j: int|
                            0 <= j < idx ==> tx_detail_ok(#[trigger] self.details@[j]));
                    }
                    return Err(GetTransactionError::Details(de));
                },
            }
        }
        proof {
            assert(idx == orig.len());
        }
        Ok(model::GetTransaction {
            amount,
            fee,
            confirmations,
            txid,
            time,
            time_received,
            bip125_replaceable: bip125_replaceable.into_model(),
            details: out,
            tx,
        })
    }
}

// ---------------------------------------------------------------------------
// Wallet state.
// ---------------------------------------------------------------------------

/// A 160-bit hash quoted as hex text converts.
pub open spec fn hash160_text_ok(s: Seq<char>) -> bool {
    hex_text_ok(s) && hex_bytes(s).len() == 20
}

/// Reply to asking for the wallet's state.
#[derive(Clone, Debug, PartialEq, Eq)]
pub struct GetWalletInfo {
    /// The wallet name.
    pub wallet_name: String,
    /// The wallet version.
    pub wallet_version: i64,
    /// The total confirmed balance as base-unit decimal text.
    pub balance: String,
    /// The total unconfirmed balance as base-unit decimal text.
    pub unconfirmed_balance: String,
    /// The total immature balance as base-unit decimal text.
    pub immature_balance: String,
    /// The total number of transactions in the wallet.
    pub tx_count: i64,
    /// The timestamp of the oldest pre-generated key in the key pool.
    pub keypool_oldest: i64,
    /// How many new keys are pre-generated.
    pub keypool_size: i64,
    /// How many new keys are pre-generated for internal use.
    pub keypool_size_hd_internal: i64,
    /// When the wallet is unlocked for transfers, or zero if locked.
    pub unlocked_until: u32,
    /// The fee rate as decimal coins per thousand size units.
    pub pay_tx_fee: String,
    /// The 160-bit hash of the hierarchical-derivation seed, as hex text.
    pub hd_seed_id: Option<String>,
    /// Deprecated alias for the seed hash, kept for compatibility.
    pub hd_master_key_id: Option<String>,
    /// Whether private keys are disabled for this wallet.
    pub private_keys_enabled: bool,
}

/// Why a wallet-info record failed to convert.
#[derive(Debug, Clone, PartialEq, Eq)]
pub enum GetWalletInfoError {
    /// Conversion of the `balance` field failed.
    Balance(ParseAmountError),
    /// Conversion of the `unconfirmed_balance` field failed.
    UnconfirmedBalance(ParseAmountError),
    /// Conversion of the `immature_balance` field failed.
    ImmatureBalance(ParseAmountError),
    /// Conversion of the `pay_tx_fee` field failed.
    PayTxFee(ParseAmountError),
    /// Conversion of the `hd_seed_id` field (or its deprecated alias) failed.
    HdSeedId(HexError),
}

/// The seed-hash text to convert: the live field when present, otherwise the
/// deprecated alias.
pub open spec fn wallet_seed_text(w: GetWalletInfo) -> Option<String> {
    if w.hd_seed_id is Some {
        w.hd_seed_id
    } else {
        w.hd_master_key_id
    }
}

/// Every fallible field of the wallet-info record converts.
pub open spec fn wallet_info_ok(w: GetWalletInfo) -> bool {
    &&& amount_text_ok(w.balance@)
    &&& amount_text_ok(w.unconfirmed_balance@)
    &&& amount_text_ok(w.immature_balance@)
    &&& amount_text_ok(w.pay_tx_fee@)
    &&& match wallet_seed_text(w) {
        Some(s) => hash160_text_ok(s@),
        None => true,
    }
}

/// The domain wallet info carries the converted fields and copies the rest.
pub open spec fn wallet_info_model_ok(m: model::GetWalletInfo, w: GetWalletInfo) -> bool {
    &&& m.wallet_name == w.wallet_name
    &&& m.wallet_version == w.wallet_version
    &&& m.balance.sats == sdec_text_sats(w.balance@)
    &&& m.unconfirmed_balance.sats == sdec_text_sats(w.unconfirmed_balance@)
    &&& m.immature_balance.sats == sdec_text_sats(w.immature_balance@)
    &&& m.tx_count == w.tx_count
    &&& m.keypool_oldest == w.keypool_oldest
    &&& m.keypool_size == w.keypool_size
    &&& m.keypool_size_hd_internal == w.keypool_size_hd_internal
    &&& m.unlocked_until == w.unlocked_until
    &&& m.pay_tx_fee.sat_per_vb == sdec_text_sats(w.pay_tx_fee@) / 1000
    &&& match (wallet_seed_text(w), m.hd_seed_id) {
        (Some(s), Some(h)) => h.bytes@ == hex_bytes(s@),
        (None, None) => true,
        _ => false,
    }
    &&& m.private_keys_enabled == w.private_keys_enabled
}

/// The error names the first field, in declaration order, that does not
/// convert, wrapping that converter's failure.
pub open spec fn wallet_info_err_ok(e: GetWalletInfoError, w: GetWalletInfo) -> bool {
    match e {
        GetWalletInfoError::Balance(ae) => !amount_text_ok(w.balance@) && (ae
            == ParseAmountError::InvalidDecimal <==> !sdec_text_ok(w.balance@)),
        GetWalletInfoError::UnconfirmedBalance(ae) => amount_text_ok(w.balance@)
            && !amount_text_ok(w.unconfirmed_balance@) && (ae == ParseAmountError::InvalidDecimal
            <==> !sdec_text_ok(w.unconfirmed_balance@)),
        GetWalletInfoError::ImmatureBalance(ae) => amount_text_ok(w.balance@) && amount_text_ok(
            w.unconfirmed_balance@,
        ) && !amount_text_ok(w.immature_balance@) && (ae == ParseAmountError::InvalidDecimal
            <==> !sdec_text_ok(w.immature_balance@)),
        GetWalletInfoError::PayTxFee(ae) => amount_text_ok(w.balance@) && amount_text_ok(
            w.unconfirmed_balance@,
        ) && amount_text_ok(w.immature_balance@) && !amount_text_ok(w.pay_tx_fee@) && (ae
            == ParseAmountError::InvalidDecimal <==> !sdec_text_ok(w.pay_tx_fee@)),
        GetWalletInfoError::HdSeedId(he) => amount_text_ok(w.balance@) && amount_text_ok(
            w.unconfirmed_balance@,
        ) && amount_text_ok(w.immature_balance@) && amount_text_ok(w.pay_tx_fee@) && (
        wallet_seed_text(w) matches Some(s) && !hash160_text_ok(s@) && (he == HexError::InvalidHex
            <==> !hex_text_ok(s@))),
    }
}

impl GetWalletInfo {
    /// Converts to the domain result, validating the three balances, the fee
    /// rate, and the seed hash in that order, failing on the first invalid
    /// field.  The live seed-hash field is preferred; the deprecated alias is
    /// converted only when the live field is absent.
    pub fn into_model(self) -> (r: Result<model::GetWalletInfo, GetWalletInfoError>)
        ensures
            r is Ok <==> wallet_info_ok(self),
            r matches Ok(m) ==> wallet_info_model_ok(m, self),
            r matches Err(e) ==> wallet_info_err_ok(e, self),
    {
        let GetWalletInfo {
            wallet_name,
            wallet_version,
            balance,
            unconfirmed_balance,
            immature_balance,
            tx_count,
            keypool_oldest,
            keypool_size,
            keypool_size_hd_internal,
            unlocked_until,
            pay_tx_fee,
            hd_seed_id,
            hd_master_key_id,
            private_keys_enabled,
        } = self;
        let balance = match Amount::from_btc_text(balance.as_str()) {
            Ok(a) => a,
            Err(ae) => {
                return Err(GetWalletInfoError::Balance(ae));
            },
        };
        let unconfirmed_balance = match Amount::from_btc_text(unconfirmed_balance.as_str()) {
            Ok(a) => a,
            Err(ae) => {
                return Err(GetWalletInfoError::UnconfirmedBalance(ae));
            },
        };
        let immature_balance = match Amount::from_btc_text(immature_balance.as_str()) {
            Ok(a) => a,
            Err(ae) => {
                return Err(GetWalletInfoError::ImmatureBalance(ae));
            },
        };
        let pay_tx_fee = match FeeRate::from_btc_per_kvb_text(pay_tx_fee.as_str()) {
            Ok(f) => f,
            Err(ae) => {
                return Err(GetWalletInfoError::PayTxFee(ae));
            },
        };
        let seed_text = match hd_seed_id {
            Some(s) => Some(s),
            None => hd_master_key_id,
        };
        let hd_seed_id = match seed_text {
            Some(s) => match Hash160::from_hex(s.as_str()) {
                Ok(h) => Some(h),
                Err(he) => {
                    return Err(GetWalletInfoError::HdSeedId(he));
                },
            },
            None => None,
        };
        Ok(model::GetWalletInfo {
            wallet_name,
            wallet_version,
            balance,
            unconfirmed_balance,
            immature_balance,
            tx_count,
            keypool_oldest,
            keypool_size,
            keypool_size_hd_internal,
            unlocked_until,
            pay_tx_fee,
            hd_seed_id,
            private_keys_enabled,
        })
    }
}

// ---------------------------------------------------------------------------
// Address information.
// ---------------------------------------------------------------------------

/// A label entry of an address-info record.
#[derive(Clone, Debug, PartialEq, Eq)]
pub struct GetAddressInfoLabel {
    /// The label text.
    pub name: String,
    /// The address's purpose.
    pub purpose: AddressPurpose,
}

impl GetAddressInfoLabel {
    /// Converts to the domain label; nothing can fail.
    pub fn into_model(self) -> (r: model::AddressLabel)
        ensures
            r.name == self.name,
            r.purpose == purpose_model(self.purpose),
    {
        model::AddressLabel { name: self.name, purpose: self.purpose.into_model() }
    }
}

/// An optional hex field converts when present.
pub open spec fn opt_hex_ok(o: Option<String>) -> bool {
    match o {
        Some(s) => hex_text_ok(s@),
        None => true,
    }
}

/// The optional domain script holds the decoded bytes exactly when the wire
/// field was present.
pub open spec fn opt_script_model_ok(m: Option<Script>, o: Option<String>) -> bool {
    match (o, m) {
        (Some(s), Some(sc)) => sc.bytes@ == hex_bytes(s@),
        (None, None) => true,
        _ => false,
    }
}

/// Every public-key string parses.
pub open spec fn pubkeys_ok(v: Seq<String>) -> bool {
    forall|i: int| 0 <= i < v.len() ==> pubkey_parse_ok(#[trigger] v[i]@)
}

/// The domain keys carry the same texts, in the same order.
pub open spec fn pubkeys_model_ok(m: Seq<PubKey>, v: Seq<String>) -> bool {
    m.len() == v.len() && forall|i: int| 0 <= i < v.len() ==> (#[trigger] m[i]).text@ == v[i]@
}

/// An optional public-key field converts when present.
pub open spec fn opt_pubkey_ok(o: Option<String>) -> bool {
    match o {
        Some(s) => pubkey_parse_ok(s@),
        None => true,
    }
}

/// The optional domain key carries the same text exactly when the wire field
/// was present.
pub open spec fn opt_pubkey_model_ok(m: Option<PubKey>, o: Option<String>) -> bool {
    match (o, m) {
        (Some(s), Some(k)) => k.text@ == s@,
        (None, None) => true,
        _ => false,
    }
}

/// An optional derivation-path field converts when present.
pub open spec fn opt_path_ok(o: Option<String>) -> bool {
    match o {
        Some(s) => derivation_path_parse_ok(s@),
        None => true,
    }
}

/// The optional domain path carries the same text exactly when the wire field
/// was present.
pub open spec fn opt_path_model_ok(m: Option<DerivPath>, o: Option<String>) -> bool {
    match (o, m) {
        (Some(s), Some(p)) => p.text@ == s@,
        (None, None) => true,
        _ => false,
    }
}

/// The domain labels carry the same names and converted purposes, in order.
pub open spec fn labels_model_ok(m: Seq<model::AddressLabel>, v: Seq<GetAddressInfoLabel>) -> bool {
    m.len() == v.len() && forall|i: int|
        0 <= i < v.len() ==> (#[trigger] m[i]).name == v[i].name && m[i].purpose == purpose_model(
            v[i].purpose,
        )
}

/// A witness version and program pair converts: both fields present demand a
/// version that fits a byte and is at most sixteen, and hex program bytes
/// acceptable for that version; any other combination converts to absence.
pub open spec fn witness_fields_ok(v: Option<i32>, p: Option<String>) -> bool {
    match (v, p) {
        (Some(vv), Some(ph)) => {
            &&& 0 <= vv <= 255
            &&& vv <= 16
            &&& hex_text_ok(ph@)
            &&& witness_program_ok(WitnessVersion { num: vv as u8 }, hex_bytes(ph@))
        },
        _ => true,
    }
}

/// The optional domain witness fields hold the converted version and program
/// exactly when both wire fields were present.
pub open spec fn witness_fields_model_ok(
    mv: Option<WitnessVersion>,
    mp: Option<WitnessProgram>,
    v: Option<i32>,
    p: Option<String>,
) -> bool {
    match (v, p) {
        (Some(vv), Some(ph)) => {
            &&& mv == Some(WitnessVersion { num: vv as u8 })
            &&& mp matches Some(w) && w.version.num == vv as u8 && w.program@ == hex_bytes(ph@)
        },
        _ => mv is None && mp is None,
    }
}

/// Converts a list of public-key strings in order, failing on the first
/// invalid entry.
fn convert_pubkeys(keys: Vec<String>) -> (r: Result<Vec<PubKey>, PublicKeyError>)
    ensures
        r is Ok <==> pubkeys_ok(keys@),
        r matches Ok(v) ==> pubkeys_model_ok(v@, keys@),
        r matches Err(e) ==> !pubkeys_ok(keys@) && e == PublicKeyError::InvalidPublicKey,
{
    let ghost orig = keys@;
    let mut items = keys;
    let total: usize = items.len();
    let mut out: Vec<PubKey> = Vec::new();
    let mut idx: usize = 0;
    while items.len() > 0
        invariant
            orig == keys@,
            orig.len() == total,
            idx + items@.len() == orig.len(),
            items@ == orig.skip(idx as int),
            out@.len() == idx,
            forall|j: int| 0 <= j < idx ==> pubkey_parse_ok(#[trigger] orig[j]@),
            forall|j: int| 0 <= j < idx ==> (#[trigger] out@[j]).text@ == orig[j]@,
        decreases items@.len(),
    {
        proof {
            assert(items@[0] == orig[idx as int]);
        }
        let text = items.remove(0);
        proof {
            assert(items@ =~= orig.skip(idx as int + 1));
        }
        match PubKey::from_text(text) {
            Ok(k) => {
                out.push(k);
                idx += 1;
            },
            Err(e) => {
                proof {
                    assert(!pubkey_parse_ok(orig[idx as int]@));
                }
                return Err(e);
            },
        }
    }
    proof {
        assert(idx == orig.len());
    }
    Ok(out)
}

/// Converts a list of label entries in order; nothing can fail.
fn convert_labels(labels: Vec<GetAddressInfoLabel>) -> (r: Vec<model::AddressLabel>)
    ensures
        labels_model_ok(r@, labels@),
{
    let ghost orig = labels@;
    let mut items = labels;
    let total: usize = items.len();
    let mut out: Vec<model::AddressLabel> = Vec::new();
    let mut idx: usize = 0;
    while items.len() > 0
        invariant
            orig == labels@,
            orig.len() == total,
            idx + items@.len() == orig.len(),
            items@ == orig.skip(idx as int),
            out@.len() == idx,
            forall|j: int|
                0 <= j < idx ==> (#[trigger] out@[j]).name == orig[j].name && out@[j].purpose
                    == purpose_model(orig[j].purpose),
        decreases items@.len(),
    {
        proof {
            assert(items@[0] == orig[idx as int]);
        }
        let label = items.remove(0);
        proof {
            assert(items@ =~= orig.skip(idx as int + 1));
        }
        out.push(label.into_model());
        idx += 1;
    }
    proof {
        assert(idx == orig.len());
    }
    out
}

/// Why an embedded address-info record failed to convert.
#[derive(Debug, Clone, PartialEq, Eq)]
pub enum GetAddressInfoEmbeddedError {
    /// Conversion of the `address` field failed.
    Address(AddressError),
    /// Conversion of the `script_pubkey` field failed.
    ScriptPubkey(HexError),
    /// The `witness_version` field's value does not fit a byte.
    WitnessVersionValue(i32),
    /// Conversion of the `witness_version` field failed.
    WitnessVersion(WitnessVersionError),
    /// Decoding the `witness_program` field's hex failed.
    WitnessProgramBytes(HexError),
    /// Conversion of the `witness_program` field failed.
    WitnessProgram(WitnessProgramError),
    /// Conversion of the `hex` field failed.
    Hex(HexError),
    /// Conversion of an entry of the `pubkeys` field failed.
    Pubkeys(PublicKeyError),
    /// Conversion of the `pubkey` field failed.
    Pubkey(PublicKeyError),
}

/// Information about an address embedded in a script-wrapped address, as this
/// version emits it.
#[derive(Clone, Debug, PartialEq, Eq)]
pub struct GetAddressInfoEmbedded {
    /// The address.
    pub address: String,
    /// The hex-encoded output script generated by the address.
    pub script_pubkey: String,
    /// Whether the key is a script.
    pub is_script: bool,
    /// Whether the address is a witness address.
    pub is_witness: bool,
    /// The version number of the witness program.
    pub witness_version: Option<i32>,
    /// The hex value of the witness program.
    pub witness_program: Option<String>,
    /// The output script type, if known.
    pub script: Option<GetAddressInfoScriptType>,
    /// The hex-encoded redeem script for a script-hash address.
    pub hex: Option<String>,
    /// Pubkeys associated with the known redeem script.
    pub pubkeys: Vec<String>,
    /// Signatures required to spend a multisig output.
    pub sigs_required: Option<i32>,
    /// The hex value of the raw public key for single-key addresses.
    pub pubkey: Option<String>,
    /// Whether the address is compressed.
    pub is_compressed: bool,
    /// The label associated with the address.
    pub label: String,
    /// The labels associated with the address.
    pub labels: Vec<GetAddressInfoLabel>,
}

/// The fields before the witness pair convert.
pub open spec fn emb_pre_witness_ok(w: GetAddressInfoEmbedded) -> bool {
    addr_parse_ok(w.address@) && hex_text_ok(w.script_pubkey@)
}

/// The fields before the redeem script convert.
pub open spec fn emb_pre_hex_ok(w: GetAddressInfoEmbedded) -> bool {
    emb_pre_witness_ok(w) && witness_fields_ok(w.witness_version, w.witness_program)
}

/// The fields before the key list convert.
pub open spec fn emb_pre_pubkeys_ok(w: GetAddressInfoEmbedded) -> bool {
    emb_pre_hex_ok(w) && opt_hex_ok(w.hex)
}

/// The fields before the single key convert.
pub open spec fn emb_pre_pubkey_ok(w: GetAddressInfoEmbedded) -> bool {
    emb_pre_pubkeys_ok(w) && pubkeys_ok(w.pubkeys@)
}

/// Every fallible field of the embedded record converts.
pub open spec fn embedded_ok(w: GetAddressInfoEmbedded) -> bool {
    emb_pre_pubkey_ok(w) && opt_pubkey_ok(w.pubkey)
}

/// The domain embedded record carries the converted fields and copies the
/// rest.
pub open spec fn embedded_model_ok(
    m: model::GetAddressInfoEmbedded,
    w: GetAddressInfoEmbedded,
) -> bool {
    &&& m.address.text@ == w.address@
    &&& m.script_pubkey.bytes@ == hex_bytes(w.script_pubkey@)
    &&& m.is_script == w.is_script
    &&& m.is_witness == w.is_witness
    &&& witness_fields_model_ok(
        m.witness_version,
        m.witness_program,
        w.witness_version,
        w.witness_program,
    )
    &&& match (w.script, m.script) {
        (Some(t), Some(mt)) => mt == script_type_model(t),
        (None, None) => true,
        _ => false,
    }
    &&& opt_script_model_ok(m.hex, w.hex)
    &&& pubkeys_model_ok(m.pubkeys@, w.pubkeys@)
    &&& m.sigs_required == w.sigs_required
    &&& opt_pubkey_model_ok(m.pubkey, w.pubkey)
    &&& m.is_compressed == w.is_compressed
    &&& m.label == w.label
    &&& labels_model_ok(m.labels@, w.labels@)
}

/// The error names the first field, in declaration order, that does not
/// convert, wrapping that converter's failure.
pub open spec fn embedded_err_ok(e: GetAddressInfoEmbeddedError, w: GetAddressInfoEmbedded) -> bool {
    match e {
        GetAddressInfoEmbeddedError::Address(ae) => !addr_parse_ok(w.address@) && ae
            == AddressError::InvalidAddressSyntax,
        GetAddressInfoEmbeddedError::ScriptPubkey(he) => addr_parse_ok(w.address@) && !hex_text_ok(
            w.script_pubkey@,
        ) && he == HexError::InvalidHex,
        GetAddressInfoEmbeddedError::WitnessVersionValue(x) => emb_pre_witness_ok(w) && (
        w.witness_version matches Some(vv) && w.witness_program is Some && !(0 <= vv <= 255) && x
            == vv),
        GetAddressInfoEmbeddedError::WitnessVersion(we) => emb_pre_witness_ok(w) && (
        w.witness_version matches Some(vv) && w.witness_program is Some && 0 <= vv <= 255 && vv > 16
            && we == WitnessVersionError::TooHigh),
        GetAddressInfoEmbeddedError::WitnessProgramBytes(he) => emb_pre_witness_ok(w) && (
        w.witness_version matches Some(vv) && w.witness_program matches Some(ph) && 0 <= vv <= 16
            && !hex_text_ok(ph@) && he == HexError::InvalidHex),
        GetAddressInfoEmbeddedError::WitnessProgram(we) => emb_pre_witness_ok(w) && (
        w.witness_version matches Some(vv) && w.witness_program matches Some(ph) && 0 <= vv <= 16
            && hex_text_ok(ph@) && !witness_program_ok(
            WitnessVersion { num: vv as u8 },
            hex_bytes(ph@),
        ) && (we == WitnessProgramError::InvalidLength <==> !(2 <= hex_bytes(ph@).len() <= 40))),
        GetAddressInfoEmbeddedError::Hex(he) => emb_pre_hex_ok(w) && (w.hex matches Some(h)
            && !hex_text_ok(h@) && he == HexError::InvalidHex),
        GetAddressInfoEmbeddedError::Pubkeys(pe) => emb_pre_pubkeys_ok(w) && !pubkeys_ok(w.pubkeys@)
            && pe == PublicKeyError::InvalidPublicKey,
        GetAddressInfoEmbeddedError::Pubkey(pe) => emb_pre_pubkey_ok(w) && (w.pubkey matches Some(p)
            && !pubkey_parse_ok(p@) && pe == PublicKeyError::InvalidPublicKey),
    }
}

impl GetAddressInfoEmbedded {
    /// Converts to the domain embedded record, validating the address, the
    /// output script, the witness pair, the redeem script, the key list and
    /// the single key in that order, failing on the first invalid field.
    pub fn into_model(self) -> (r: Result<
        model::GetAddressInfoEmbedded,
        GetAddressInfoEmbeddedError,
    >)
        ensures
            r is Ok <==> embedded_ok(self),
            r matches Ok(m) ==> embedded_model_ok(m, self),
            r matches Err(e) ==> embedded_err_ok(e, self),
    {
        let GetAddressInfoEmbedded {
            address,
            script_pubkey,
            is_script,
            is_witness,
            witness_version,
            witness_program,
            script,
            hex,
            pubkeys,
            sigs_required,
            pubkey,
            is_compressed,
            label,
            labels,
        } = self;
        let address = match CheckedAddress::from_text(address) {
            Ok(a) => a,
            Err(ae) => {
                return Err(GetAddressInfoEmbeddedError::Address(ae));
            },
        };
        let script_pubkey = match Script::from_hex(script_pubkey.as_str()) {
            Ok(sc) => sc,
            Err(he) => {
                return Err(GetAddressInfoEmbeddedError::ScriptPubkey(he));
            },
        };
        let (witness_version, witness_program) = match (witness_version, witness_program) {
            (Some(v), Some(ph)) => {
                if v < 0 || v > 255 {
                    return Err(GetAddressInfoEmbeddedError::WitnessVersionValue(v));
                }
                let version = match WitnessVersion::from_num(v as u8) {
                    Ok(ver) => ver,
                    Err(we) => {
                        return Err(GetAddressInfoEmbeddedError::WitnessVersion(we));
                    },
                };
                let bytes = match decode_hex(ph.as_str()) {
                    Ok(b) => b,
                    Err(he) => {
                        return Err(GetAddressInfoEmbeddedError::WitnessProgramBytes(he));
                    },
                };
                let program = match WitnessProgram::new(version, bytes) {
                    Ok(p) => p,
                    Err(we) => {
                        return Err(GetAddressInfoEmbeddedError::WitnessProgram(we));
                    },
                };
                (Some(version), Some(program))
            },
            _ => (None, None),
        };
        let hex = match hex {
            Some(h) => match Script::from_hex(h.as_str()) {
                Ok(sc) => Some(sc),
                Err(he) => {
                    return Err(GetAddressInfoEmbeddedError::Hex(he));
                },
            },
            None => None,
        };
        let pubkeys = match convert_pubkeys(pubkeys) {
            Ok(v) => v,
            Err(pe) => {
                return Err(GetAddressInfoEmbeddedError::Pubkeys(pe));
            },
        };
        let pubkey = match pubkey {
            Some(p) => match PubKey::from_text(p) {
                Ok(k) => Some(k),
                Err(pe) => {
                    return Err(GetAddressInfoEmbeddedError::Pubkey(pe));
                },
            },
            None => None,
        };
        let script = match script {
            Some(t) => Some(t.into_model()),
            None => None,
        };
        Ok(model::GetAddressInfoEmbedded {
            address,
            script_pubkey,
            is_script,
            is_witness,
            witness_version,
            witness_program,
            script,
            hex,
            pubkeys,
            sigs_required,
            pubkey,
            is_compressed,
            label,
            labels: convert_labels(labels),
        })
    }
}

/// Why an address-info record failed to convert.
#[derive(Debug, Clone, PartialEq, Eq)]
pub enum GetAddressInfoError {
    /// Conversion of the `address` field failed.
    Address(AddressError),
    /// Conversion of the `script_pubkey` field failed.
    ScriptPubkey(HexError),
    /// The `witness_version` field's value does not fit a byte.
    WitnessVersionValue(i32),
    /// Conversion of the `witness_version` field failed.
    WitnessVersion(WitnessVersionError),
    /// Decoding the `witness_program` field's hex failed.
    WitnessProgramBytes(HexError),
    /// Conversion of the `witness_program` field failed.
    WitnessProgram(WitnessProgramError),
    /// Conversion of the `hex` field failed.
    Hex(HexError),
    /// Conversion of an entry of the `pubkeys` field failed.
    Pubkeys(PublicKeyError),
    /// Conversion of the `pubkey` field failed.
    Pubkey(PublicKeyError),
    /// Conversion of the `embedded` field failed; wraps the embedded
    /// record's own error, so both levels stay visible.
    Embedded(GetAddressInfoEmbeddedError),
    /// Conversion of the `hd_key_path` field failed.
    HdKeyPath(DerivationPathError),
    /// Conversion of the `hd_seed_id` field (or its deprecated alias) failed.
    HdSeedId(HexError),
}

/// Reply to asking for information about an address.
#[derive(Clone, Debug, PartialEq, Eq)]
pub struct GetAddressInfo {
    /// The address.
    pub address: String,
    /// The hex-encoded output script generated by the address.
    pub script_pubkey: String,
    /// Whether the address is the wallet's own.
    pub is_mine: bool,
    /// Whether the address is watch-only.
    pub is_watch_only: bool,
    /// Whether the key is a script.
    pub is_script: bool,
    /// Whether the address is a witness address.
    pub is_witness: bool,
    /// The version number of the witness program.
    pub witness_version: Option<i32>,
    /// The hex value of the witness program.
    pub witness_program: Option<String>,
    /// The output script type, if known.
    pub script: Option<GetAddressInfoScriptType>,
    /// The hex-encoded redeem script for a script-hash address.
    pub hex: Option<String>,
    /// Pubkeys associated with the known redeem script.
    pub pubkeys: Vec<String>,
    /// Signatures required to spend a multisig output.
    pub sigs_required: Option<i32>,
    /// The hex value of the raw public key for single-key addresses.
    pub pubkey: Option<String>,
    /// Information about an address embedded in this one, if relevant.
    pub embedded: Option<GetAddressInfoEmbedded>,
    /// Whether the address is compressed.
    pub is_compressed: bool,
    /// The label associated with the address.
    pub label: String,
    /// Deprecated account name; ignored by conversion.
    pub account: String,
    /// The key's creation time in seconds since the epoch, if available.
    pub timestamp: Option<u32>,
    /// The hierarchical-derivation key path, if available.
    pub hd_key_path: Option<String>,
    /// The 160-bit hash of the hierarchical-derivation seed, as hex text.
    pub hd_seed_id: Option<String>,
    /// Deprecated alias for the seed hash, kept for compatibility.
    pub hd_master_key_id: Option<String>,
    /// The labels associated with the address.
    pub labels: Vec<GetAddressInfoLabel>,
}

/// The fields before the witness pair convert.
pub open spec fn info_pre_witness_ok(w: GetAddressInfo) -> bool {
    addr_parse_ok(w.address@) && hex_text_ok(w.script_pubkey@)
}

/// The fields before the redeem script convert.
pub open spec fn info_pre_hex_ok(w: GetAddressInfo) -> bool {
    info_pre_witness_ok(w) && witness_fields_ok(w.witness_version, w.witness_program)
}

/// The fields before the key list convert.
pub open spec fn info_pre_pubkeys_ok(w: GetAddressInfo) -> bool {
    info_pre_hex_ok(w) && opt_hex_ok(w.hex)
}

/// The fields before the single key convert.
pub open spec fn info_pre_pubkey_ok(w: GetAddressInfo) -> bool {
    info_pre_pubkeys_ok(w) && pubkeys_ok(w.pubkeys@)
}

/// The fields before the embedded record convert.
pub open spec fn info_pre_embedded_ok(w: GetAddressInfo) -> bool {
    info_pre_pubkey_ok(w) && opt_pubkey_ok(w.pubkey)
}

/// The fields before the derivation path convert.
pub open spec fn info_pre_path_ok(w: GetAddressInfo) -> bool {
    info_pre_embedded_ok(w) && match w.embedded {
        Some(e) => embedded_ok(e),
        None => true,
    }
}

/// The fields before the seed hash convert.
pub open spec fn info_pre_seed_ok(w: GetAddressInfo) -> bool {
    info_pre_path_ok(w) && opt_path_ok(w.hd_key_path)
}

/// The seed-hash text to convert: the live field when present, otherwise the
/// deprecated alias.
pub open spec fn info_seed_text(w: GetAddressInfo) -> Option<String> {
    if w.hd_seed_id is Some {
        w.hd_seed_id
    } else {
        w.hd_master_key_id
    }
}

/// Every fallible field of the address-info record converts.
pub open spec fn address_info_ok(w: GetAddressInfo) -> bool {
    info_pre_seed_ok(w) && match info_seed_text(w) {
        Some(s) => hash160_text_ok(s@),
        None => true,
    }
}

/// The domain record carries the converted fields and copies the rest.
pub open spec fn address_info_model_ok(m: model::GetAddressInfo, w: GetAddressInfo) -> bool {
    &&& m.address.text@ == w.address@
    &&& m.script_pubkey.bytes@ == hex_bytes(w.script_pubkey@)
    &&& m.is_mine == w.is_mine
    &&& m.is_watch_only == w.is_watch_only
    &&& m.is_script == w.is_script
    &&& m.is_witness == w.is_witness
    &&& witness_fields_model_ok(
        m.witness_version,
        m.witness_program,
        w.witness_version,
        w.witness_program,
    )
    &&& match (w.script, m.script) {
        (Some(t), Some(mt)) => mt == script_type_model(t),
        (None, None) => true,
        _ => false,
    }
    &&& opt_script_model_ok(m.hex, w.hex)
    &&& pubkeys_model_ok(m.pubkeys@, w.pubkeys@)
    &&& m.sigs_required == w.sigs_required
    &&& opt_pubkey_model_ok(m.pubkey, w.pubkey)
    &&& match (w.embedded, m.embedded) {
        (Some(e), Some(me)) => embedded_model_ok(me, e),
        (None, None) => true,
        _ => false,
    }
    &&& m.is_compressed == w.is_compressed
    &&& m.label == w.label
    &&& m.timestamp == w.timestamp
    &&& opt_path_model_ok(m.hd_key_path, w.hd_key_path)
    &&& match (info_seed_text(w), m.hd_seed_id) {
        (Some(s), Some(h)) => h.bytes@ == hex_bytes(s@),
        (None, None) => true,
        _ => false,
    }
    &&& labels_model_ok(m.labels@, w.labels@)
}

/// The error names the first field, in declaration order, that does not
/// convert, wrapping that converter's failure; an embedded failure wraps the
/// embedded record's own error.
pub open spec fn address_info_err_ok(e: GetAddressInfoError, w: GetAddressInfo) -> bool {
    match e {
        GetAddressInfoError::Address(ae) => !addr_parse_ok(w.address@) && ae
            == AddressError::InvalidAddressSyntax,
        GetAddressInfoError::ScriptPubkey(he) => addr_parse_ok(w.address@) && !hex_text_ok(
            w.script_pubkey@,
        ) && he == HexError::InvalidHex,
        GetAddressInfoError::WitnessVersionValue(x) => info_pre_witness_ok(w) && (
        w.witness_version matches Some(vv) && w.witness_program is Some && !(0 <= vv <= 255) && x
            == vv),
        GetAddressInfoError::WitnessVersion(we) => info_pre_witness_ok(w) && (
        w.witness_version matches Some(vv) && w.witness_program is Some && 0 <= vv <= 255 && vv > 16
            && we == WitnessVersionError::TooHigh),
        GetAddressInfoError::WitnessProgramBytes(he) => info_pre_witness_ok(w) && (
        w.witness_version matches Some(vv) && w.witness_program matches Some(ph) && 0 <= vv <= 16
            && !hex_text_ok(ph@) && he == HexError::InvalidHex),
        GetAddressInfoError::WitnessProgram(we) => info_pre_witness_ok(w) && (
        w.witness_version matches Some(vv) && w.witness_program matches Some(ph) && 0 <= vv <= 16
            && hex_text_ok(ph@) && !witness_program_ok(
            WitnessVersion { num: vv as u8 },
            hex_bytes(ph@),
        ) && (we == WitnessProgramError::InvalidLength <==> !(2 <= hex_bytes(ph@).len() <= 40))),
        GetAddressInfoError::Hex(he) => info_pre_hex_ok(w) && (w.hex matches Some(h)
            && !hex_text_ok(h@) && he == HexError::InvalidHex),
        GetAddressInfoError::Pubkeys(pe) => info_pre_pubkeys_ok(w) && !pubkeys_ok(w.pubkeys@) && pe
            == PublicKeyError::InvalidPublicKey,
        GetAddressInfoError::Pubkey(pe) => info_pre_pubkey_ok(w) && (w.pubkey matches Some(p)
            && !pubkey_parse_ok(p@) && pe == PublicKeyError::InvalidPublicKey),
        GetAddressInfoError::Embedded(ee) => info_pre_embedded_ok(w) && (w.embedded matches Some(
            emb,
        ) && !embedded_ok(emb) && embedded_err_ok(ee, emb)),
        GetAddressInfoError::HdKeyPath(pe) => info_pre_path_ok(w) && (w.hd_key_path matches Some(p)
            && !derivation_path_parse_ok(p@) && pe == DerivationPathError::InvalidPath),
        GetAddressInfoError::HdSeedId(he) => info_pre_seed_ok(w) && (info_seed_text(
            w,
        ) matches Some(s) && !hash160_text_ok(s@) && (he == HexError::InvalidHex <==> !hex_text_ok(
            s@,
        ))),
    }
}

impl GetAddressInfo {
    /// Converts to the domain record, validating the address, the output
    /// script, the witness pair, the redeem script, the key list, the single
    /// key, the embedded record, the derivation path and the seed hash in
    /// that order, failing on the first invalid field.  A failure inside the
    /// embedded record is wrapped, not flattened, so the caller sees the full
    /// field path.  The live seed-hash field is preferred; the deprecated
    /// alias is converted only when the live field is absent.
    pub fn into_model(self) -> (r: Result<model::GetAddressInfo, GetAddressInfoError>)
        ensures
            r is Ok <==> address_info_ok(self),
            r matches Ok(m) ==> address_info_model_ok(m, self),
            r matches Err(e) ==> address_info_err_ok(e, self),
    {
        let GetAddressInfo {
            address,
            script_pubkey,
            is_mine,
            is_watch_only,
            is_script,
            is_witness,
            witness_version,
            witness_program,
            script,
            hex,
            pubkeys,
            sigs_required,
            pubkey,
            embedded,
            is_compressed,
            label,
            account: _,
            timestamp,
            hd_key_path,
            hd_seed_id,
            hd_master_key_id,
            labels,
        } = self;
        let address = match CheckedAddress::from_text(address) {
            Ok(a) => a,
            Err(ae) => {
                return Err(GetAddressInfoError::Address(ae));
            },
        };
        let script_pubkey = match Script::from_hex(script_pubkey.as_str()) {
            Ok(sc) => sc,
            Err(he) => {
                return Err(GetAddressInfoError::ScriptPubkey(he));
            },
        };
        let (witness_version, witness_program) = match (witness_version, witness_program) {
            (Some(v), Some(ph)) => {
                if v < 0 || v > 255 {
                    return Err(GetAddressInfoError::WitnessVersionValue(v));
                }
                let version = match WitnessVersion::from_num(v as u8) {
                    Ok(ver) => ver,
                    Err(we) => {
                        return Err(GetAddressInfoError::WitnessVersion(we));
                    },
                };
                let bytes = match decode_hex(ph.as_str()) {
                    Ok(b) => b,
                    Err(he) => {
                        return Err(GetAddressInfoError::WitnessProgramBytes(he));
                    },
                };
                let program = match WitnessProgram::new(version, bytes) {
                    Ok(p) => p,
                    Err(we) => {
                        return Err(GetAddressInfoError::WitnessProgram(we));
                    },
                };
                (Some(version), Some(program))
            },
            _ => (None, None),
        };
        let hex = match hex {
            Some(h) => match Script::from_hex(h.as_str()) {
                Ok(sc) => Some(sc),
                Err(he) => {
                    return Err(GetAddressInfoError::Hex(he));
                },
            },
            None => None,
        };
        let pubkeys = match convert_pubkeys(pubkeys) {
            Ok(v) => v,
            Err(pe) => {
                return Err(GetAddressInfoError::Pubkeys(pe));
            },
        };
        let pubkey = match pubkey {
            Some(p) => match PubKey::from_text(p) {
                Ok(k) => Some(k),
                Err(pe) => {
                    return Err(GetAddressInfoError::Pubkey(pe));
                },
            },
            None => None,
        };
        let embedded = match embedded {
            Some(emb) => match emb.into_model() {
                Ok(me) => Some(me),
                Err(ee) => {
                    return Err(GetAddressInfoError::Embedded(ee));
                },
            },
            None => None,
        };
        let hd_key_path = match hd_key_path {
            Some(p) => match DerivPath::from_text(p) {
                Ok(dp) => Some(dp),
                Err(pe) => {
                    return Err(GetAddressInfoError::HdKeyPath(pe));
                },
            },
            None => None,
        };
        let seed_text = match hd_seed_id {
            Some(s) => Some(s),
            None => hd_master_key_id,
        };
        let hd_seed_id = match seed_text {
            Some(s) => match Hash160::from_hex(s.as_str()) {
                Ok(h) => Some(h),
                Err(he) => {
                    return Err(GetAddressInfoError::HdSeedId(he));
                },
            },
            None => None,
        };
        let script = match script {
            Some(t) => Some(t.into_model()),
            None => None,
        };
        Ok(model::GetAddressInfo {
            address,
            script_pubkey,
            is_mine,
            is_watch_only,
            is_script,
            is_witness,
            witness_version,
            witness_program,
            script,
            hex,
            pubkeys,
            sigs_required,
            pubkey,
            embedded,
            is_compressed,
            label,
            timestamp,
            hd_key_path,
            hd_seed_id,
            labels: convert_labels(labels),
        })
    }
}

// ---------------------------------------------------------------------------
// Address groupings, locked outputs, and received-by-address listings.
// ---------------------------------------------------------------------------

/// One address within a wire group of commonly-owned addresses.
#[derive(Clone, Debug, PartialEq, Eq)]
pub struct ListAddressGroupingsItem {
    /// The address.
    pub address: String,
    /// The amount held, as base-unit decimal text.
    pub amount: String,
    /// The label, if any.
    pub label: Option<String>,
}

/// Why an address-groupings record failed to convert.
#[derive(Debug, Clone, PartialEq, Eq)]
pub enum ListAddressGroupingsError {
    /// Conversion of an `address` field failed.
    Address(AddressError),
    /// Conversion of an `amount` field failed.
    Amount(ParseAmountError),
}

/// Every fallible field of a grouping entry converts.
pub open spec fn grouping_item_ok(d: ListAddressGroupingsItem) -> bool {
    addr_parse_ok(d.address@) && amount_text_ok(d.amount@)
}

/// The domain entry carries the converted fields and copies the label.
pub open spec fn grouping_item_model_ok(
    m: model::ListAddressGroupingsItem,
    d: ListAddressGroupingsItem,
) -> bool {
    &&& m.address.text@ == d.address@
    &&& m.amount.sats == sdec_text_sats(d.amount@)
    &&& m.label == d.label
}

/// The error names the first field, in declaration order, that does not
/// convert, wrapping that converter's failure.
pub open spec fn grouping_item_err_ok(
    e: ListAddressGroupingsError,
    d: ListAddressGroupingsItem,
) -> bool {
    match e {
        ListAddressGroupingsError::Address(ae) => !addr_parse_ok(d.address@) && ae
            == AddressError::InvalidAddressSyntax,
        ListAddressGroupingsError::Amount(ae) => addr_parse_ok(d.address@) && !amount_text_ok(
            d.amount@,
        ) && (ae == ParseAmountError::InvalidDecimal <==> !sdec_text_ok(d.amount@)),
    }
}

impl ListAddressGroupingsItem {
    /// Converts to the domain entry, validating the address and then the
    /// amount, failing on the first invalid field; the address is assumed to
    /// match the service's network.
    pub fn into_model(self) -> (r: Result<
        model::ListAddressGroupingsItem,
        ListAddressGroupingsError,
    >)
        ensures
            r is Ok <==> grouping_item_ok(self),
            r matches Ok(m) ==> grouping_item_model_ok(m, self),
            r matches Err(e) ==> grouping_item_err_ok(e, self),
    {
        let ListAddressGroupingsItem { address, amount, label } = self;
        let address = match CheckedAddress::from_text(address) {
            Ok(a) => a,
            Err(ae) => {
                return Err(ListAddressGroupingsError::Address(ae));
            },
        };
        let amount = match Amount::from_btc_text(amount.as_str()) {
            Ok(a) => a,
            Err(ae) => {
                return Err(ListAddressGroupingsError::Amount(ae));
            },
        };
        Ok(model::ListAddressGroupingsItem { address, amount, label })
    }
}

/// Every entry of a group converts.
pub open spec fn grouping_ok(g: Seq<ListAddressGroupingsItem>) -> bool {
    forall|j: int| 0 <= j < g.len() ==> grouping_item_ok(#[trigger] g[j])
}

/// The domain group converts entries pointwise, in order.
pub open spec fn grouping_model_ok(
    m: Seq<model::ListAddressGroupingsItem>,
    g: Seq<ListAddressGroupingsItem>,
) -> bool {
    m.len() == g.len() && forall|j: int|
        0 <= j < g.len() ==> grouping_item_model_ok(#[trigger] m[j], g[j])
}

/// Converts one group of addresses in order, failing on the first invalid
/// entry.
fn convert_grouping(group: Vec<ListAddressGroupingsItem>) -> (r: Result<
    Vec<model::ListAddressGroupingsItem>,
    ListAddressGroupingsError,
>)
    ensures
        r is Ok <==> grouping_ok(group@),
        r matches Ok(v) ==> grouping_model_ok(v@, group@),
        r matches Err(e) ==> exists|j: int|
            0 <= j < group@.len() && (forall|k: int|
                0 <= k < j ==> grouping_item_ok(#[trigger] group@[k])) && !grouping_item_ok(
                #[trigger] group@[j],
            ) && grouping_item_err_ok(e, group@[j]),
{
    let ghost orig = group@;
    let mut items = group;
    let total: usize = items.len();
    let mut out: Vec<model::ListAddressGroupingsItem> = Vec::new();
    let mut idx: usize = 0;
    while items.len() > 0
        invariant
            orig == group@,
            orig.len() == total,
            idx + items@.len() == orig.len(),
            items@ == orig.skip(idx as int),
            out@.len() == idx,
            forall|j: int| 0 <= j < idx ==> grouping_item_ok(#[trigger] orig[j]),
            forall|j: int| 0 <= j < idx ==> grouping_item_model_ok(#[trigger] out@[j], orig[j]),
        decreases items@.len(),
    {
        proof {
            assert(items@[0] == orig[idx as int]);
        }
        let d = items.remove(0);
        proof {
            assert(items@ =~= orig.skip(idx as int + 1));
        }
        match d.into_model() {
            Ok(md) => {
                out.push(md);
                idx += 1;
            },
            Err(e) => {
                proof {
                    assert(!grouping_item_ok(group@[idx as int]));
                }
                return Err(e);
            },
        }
    }
    proof {
        assert(idx == orig.len());
    }
    Ok(out)
}

/// Reply to listing groups of addresses with publicly shared ownership.
#[derive(Clone, Debug, PartialEq, Eq)]
pub struct ListAddressGroupings(pub Vec<Vec<ListAddressGroupingsItem>>);

/// Every entry of every group converts.
pub open spec fn groupings_ok(w: ListAddressGroupings) -> bool {
    forall|i: int| 0 <= i < w.0@.len() ==> grouping_ok((#[trigger] w.0@[i])@)
}

/// The domain groups convert pointwise, in order.
pub open spec fn groupings_model_ok(m: model::ListAddressGroupings, w: ListAddressGroupings) -> bool {
    m.0@.len() == w.0@.len() && forall|i: int|
        0 <= i < w.0@.len() ==> grouping_model_ok((#[trigger] m.0@[i])@, w.0@[i]@)
}

impl ListAddressGroupings {
    /// Converts to the domain result, validating every entry of every group
    /// in order, failing on the first invalid entry.
    pub fn into_model(self) -> (r: Result<model::ListAddressGroupings, ListAddressGroupingsError>)
        ensures
            r is Ok <==> groupings_ok(self),
            r matches Ok(m) ==> groupings_model_ok(m, self),
            r matches Err(e) ==> !groupings_ok(self) && exists|i: int, j: int|
                0 <= i < self.0@.len() && 0 <= j < (#[trigger] self.0@[i])@.len()
                    && !grouping_item_ok(#[trigger] self.0@[i]@[j]) && grouping_item_err_ok(
                    e,
                    self.0@[i]@[j],
                ),
    {
        let ListAddressGroupings(groups) = self;
        let ghost orig = groups@;
        let mut items = groups;
        let total: usize = items.len();
        let mut out: Vec<Vec<model::ListAddressGroupingsItem>> = Vec::new();
        let mut idx: usize = 0;
        while items.len() > 0
            invariant
                orig == self.0@,
                orig.len() == total,
                idx + items@.len() == orig.len(),
                items@ == orig.skip(idx as int),
                out@.len() == idx,
                forall|j: int| 0 <= j < idx ==> grouping_ok((#[trigger] orig[j])@),
                forall|j: int| 0 <= j < idx ==> grouping_model_ok((#[trigger] out@[j])@, orig[j]@),
            decreases items@.len(),
        {
            proof {
                assert(items@[0] == orig[idx as int]);
            }
            let g = items.remove(0);
            proof {
                assert(items@ =~= orig.skip(idx as int + 1));
            }
            match convert_grouping(g) {
                Ok(mg) => {
                    out.push(mg);
                    idx += 1;
                },
                Err(e) => {
                    proof {
                        assert(!grouping_ok(self.0@[idx as int]@));
                        assert(!groupings_ok(self));
                        let j = choose|j: int|
                            0 <= j < self.0@[idx as int]@.len() && (forall|k: int|
                                0 <= k < j ==> grouping_item_ok(
                                    #[trigger] self.0@[idx as int]@[k],
                                )) && !grouping_item_ok(#[trigger] self.0@[idx as int]@[j])
                                && grouping_item_err_ok(e, self.0@[idx as int]@[j]);
                        assert(!grouping_item_ok(self.0@[idx as int]@[j]) && grouping_item_err_ok(
                            e,
                            self.0@[idx as int]@[j],
                        ));
                    }
                    return Err(e);
                },
            }
        }
        proof {
            assert(idx == orig.len());
        }
        Ok(model::ListAddressGroupings(out))
    }
}

/// One temporarily unspendable output, as this version emits it.
#[derive(Clone, Debug, PartialEq, Eq)]
pub struct ListLockUnspentItem {
    /// The locked transaction id, as hex text.
    pub txid: String,
    /// The output index.
    pub vout: i64,
}

/// A transaction id quoted as hex text converts.
pub open spec fn txid_text_ok(s: Seq<char>) -> bool {
    hex_text_ok(s) && hex_bytes(s).len() == 32
}

impl ListLockUnspentItem {
    /// Converts to the domain entry; only the transaction id requires
    /// validation.
    pub fn into_model(self) -> (r: Result<model::ListLockUnspentItem, HexError>)
        ensures
            r is Ok <==> txid_text_ok(self.txid@),
            r matches Ok(m) ==> m.txid.bytes@ == hex_bytes(self.txid@) && m.vout == self.vout,
            r matches Err(e) ==> (e == HexError::InvalidHex <==> !hex_text_ok(self.txid@)),
            hex_text_ok(self.txid@) && r is Err ==> r->Err_0 == HexError::WrongLength,
    {
        let ListLockUnspentItem { txid, vout } = self;
        let txid = match Txid::from_hex(txid.as_str()) {
            Ok(t) => t,
            Err(e) => {
                return Err(e);
            },
        };
        Ok(model::ListLockUnspentItem { txid, vout })
    }
}

/// Reply to listing temporarily unspendable outputs.
#[derive(Clone, Debug, PartialEq, Eq)]
pub struct ListLockUnspent(pub Vec<ListLockUnspentItem>);

/// Every listed entry's transaction id converts.
pub open spec fn lock_unspent_ok(w: ListLockUnspent) -> bool {
    forall|i: int| 0 <= i < w.0@.len() ==> txid_text_ok((#[trigger] w.0@[i]).txid@)
}

/// The domain entries convert pointwise, in order.
pub open spec fn lock_unspent_model_ok(m: model::ListLockUnspent, w: ListLockUnspent) -> bool {
    m.0@.len() == w.0@.len() && forall|i: int|
        0 <= i < w.0@.len() ==> (#[trigger] m.0@[i]).txid.bytes@ == hex_bytes(w.0@[i].txid@)
            && m.0@[i].vout == w.0@[i].vout
}

impl ListLockUnspent {
    /// Converts to the domain result, validating each entry in order and
    /// failing on the first invalid transaction id.
    pub fn into_model(self) -> (r: Result<model::ListLockUnspent, HexError>)
        ensures
            r is Ok <==> lock_unspent_ok(self),
            r matches Ok(m) ==> lock_unspent_model_ok(m, self),
            r matches Err(e) ==> !lock_unspent_ok(self) && exists|i: int|
                0 <= i < self.0@.len() && (forall|k: int|
                    0 <= k < i ==> txid_text_ok((#[trigger] self.0@[k]).txid@)) && !txid_text_ok(
                    (#[trigger] self.0@[i]).txid@,
                ) && (e == HexError::InvalidHex <==> !hex_text_ok(self.0@[i].txid@)),
    {
        let ListLockUnspent(entries) = self;
        let ghost orig = entries@;
        let mut items = entries;
        let total: usize = items.len();
        let mut out: Vec<model::ListLockUnspentItem> = Vec::new();
        let mut idx: usize = 0;
        while items.len() > 0
            invariant
                orig == self.0@,
                orig.len() == total,
                idx + items@.len() == orig.len(),
                items@ == orig.skip(idx as int),
                out@.len() == idx,
                forall|j: int| 0 <= j < idx ==> txid_text_ok((#[trigger] orig[j]).txid@),
                forall|j: int|
                    0 <= j < idx ==> (#[trigger] out@[j]).txid.bytes@ == hex_bytes(orig[j].txid@)
                        && out@[j].vout == orig[j].vout,
            decreases items@.len(),
        {
            proof {
                assert(items@[0] == orig[idx as int]);
            }
            let d = items.remove(0);
            proof {
                assert(items@ =~= orig.skip(idx as int + 1));
            }
            match d.into_model() {
                Ok(md) => {
                    out.push(md);
                    idx += 1;
                },
                Err(e) => {
                    proof {
                        assert(!txid_text_ok(self.0@[idx as int].txid@));
                    }
                    return Err(e);
                },
            }
        }
        proof {
            assert(idx == orig.len());
        }
        Ok(model::ListLockUnspent(out))
    }
}

/// Why a received-by-address record failed to convert.
#[derive(Debug, Clone, PartialEq, Eq)]
pub enum ListReceivedByAddressError {
    /// Conversion of the `address` field failed.
    Address(AddressError),
    /// Conversion of the `amount` field failed.
    Amount(ParseAmountError),
    /// Conversion of the transaction id at this index of the `txids` field
    /// failed.
    Txids(usize, HexError),
}

/// One receiving address with its balance, as this version emits it.
#[derive(Clone, Debug, PartialEq, Eq)]
pub struct ListReceivedbyAddressItem {
    /// Whether imported addresses were involved.
    pub involves_watch_only: bool,
    /// The receiving address.
    pub address: String,
    /// Deprecated alias for the label; ignored by conversion.
    pub account: String,
    /// The total amount received, as base-unit decimal text.
    pub amount: String,
    /// Confirmations of the most recent included transaction.
    pub confirmations: i64,
    /// The label of the receiving address.
    pub label: String,
    /// The ids of transactions received with the address, as hex text.
    pub txids: Vec<String>,
}

/// Every fallible field of a received-by-address entry converts.
pub open spec fn received_item_ok(d: ListReceivedbyAddressItem) -> bool {
    &&& addr_parse_ok(d.address@)
    &&& amount_text_ok(d.amount@)
    &&& forall|i: int| 0 <= i < d.txids@.len() ==> txid_text_ok((#[trigger] d.txids@[i])@)
}

/// The domain entry carries the converted fields and copies the rest.
pub open spec fn received_item_model_ok(
    m: model::ListReceivedByAddressItem,
    d: ListReceivedbyAddressItem,
) -> bool {
    &&& m.involves_watch_only == d.involves_watch_only
    &&& m.address.text@ == d.address@
    &&& m.amount.sats == sdec_text_sats(d.amount@)
    &&& m.confirmations == d.confirmations
    &&& m.label == d.label
    &&& m.txids@.len() == d.txids@.len()
    &&& forall|i: int|
        0 <= i < d.txids@.len() ==> (#[trigger] m.txids@[i]).bytes@ == hex_bytes(d.txids@[i]@)
}

/// The error names the first field, in declaration order, that does not
/// convert; a transaction-id failure carries the first failing index.
pub open spec fn received_item_err_ok(
    e: ListReceivedByAddressError,
    d: ListReceivedbyAddressItem,
) -> bool {
    match e {
        ListReceivedByAddressError::Address(ae) => !addr_parse_ok(d.address@) && ae
            == AddressError::InvalidAddressSyntax,
        ListReceivedByAddressError::Amount(ae) => addr_parse_ok(d.address@) && !amount_text_ok(
            d.amount@,
        ) && (ae == ParseAmountError::InvalidDecimal <==> !sdec_text_ok(d.amount@)),
        ListReceivedByAddressError::Txids(ix, he) => addr_parse_ok(d.address@) && amount_text_ok(
            d.amount@,
        ) && ix < d.txids@.len() && (forall|k: int|
            0 <= k < ix ==> txid_text_ok((#[trigger] d.txids@[k])@)) && !txid_text_ok(
            d.txids@[ix as int]@,
        ) && (he == HexError::InvalidHex <==> !hex_text_ok(d.txids@[ix as int]@)),
    }
}

impl ListReceivedbyAddressItem {
    /// Converts to the domain entry, validating the address, the amount and
    /// each transaction id in that order, failing on the first invalid field;
    /// the address is assumed to match the service's network.
    pub fn into_model(self) -> (r: Result<
        model::ListReceivedByAddressItem,
        ListReceivedByAddressError,
    >)
        ensures
            r is Ok <==> received_item_ok(self),
            r matches Ok(m) ==> received_item_model_ok(m, self),
            r matches Err(e) ==> received_item_err_ok(e, self),
    {
        let ListReceivedbyAddressItem {
            involves_watch_only,
            address,
            account: _,
            amount,
            confirmations,
            label,
            txids,
        } = self;
        let address = match CheckedAddress::from_text(address) {
            Ok(a) => a,
            Err(ae) => {
                return Err(ListReceivedByAddressError::Address(ae));
            },
        };
        let amount = match Amount::from_btc_text(amount.as_str()) {
            Ok(a) => a,
            Err(ae) => {
                return Err(ListReceivedByAddressError::Amount(ae));
            },
        };
        let ghost orig = txids@;
        let mut texts = txids;
        let total: usize = texts.len();
        let mut out: Vec<Txid> = Vec::new();
        let mut idx: usize = 0;
        while texts.len() > 0
            invariant
                orig == self.txids@,
                addr_parse_ok(self.address@),
                amount_text_ok(self.amount@),
                orig.len() == total,
                idx + texts@.len() == orig.len(),
                texts@ == orig.skip(idx as int),
                out@.len() == idx,
                forall|j: int| 0 <= j < idx ==> txid_text_ok((#[trigger] orig[j])@),
                forall|j: int|
                    0 <= j < idx ==> (#[trigger] out@[j]).bytes@ == hex_bytes(orig[j]@),
            decreases texts@.len(),
        {
            proof {
                assert(texts@[0] == orig[idx as int]);
            }
            let t = texts.remove(0);
            proof {
                assert(texts@ =~= orig.skip(idx as int + 1));
            }
            match Txid::from_hex(t.as_str()) {
                Ok(txid) => {
                    out.push(txid);
                    idx += 1;
                },
                Err(he) => {
                    proof {
                        assert(!txid_text_ok(self.txids@[idx as int]@));
                    }
                    return Err(ListReceivedByAddressError::Txids(idx, he));
                },
            }
        }
        proof {
            assert(idx == orig.len());
        }
        Ok(model::ListReceivedByAddressItem {
            involves_watch_only,
            address,
            amount,
            confirmations,
            label,
            txids: out,
        })
    }
}

/// Reply to listing balances by receiving address.
#[derive(Clone, Debug, PartialEq, Eq)]
pub struct ListReceivedbyAddress(pub Vec<ListReceivedbyAddressItem>);

/// Every listed entry converts.
pub open spec fn received_ok(w: ListReceivedbyAddress) -> bool {
    forall|i: int| 0 <= i < w.0@.len() ==> received_item_ok(#[trigger] w.0@[i])
}

/// The domain entries convert pointwise, in order.
pub open spec fn received_model_ok(m: model::ListReceivedByAddress, w: ListReceivedbyAddress) -> bool {
    m.0@.len() == w.0@.len() && forall|i: int|
        0 <= i < w.0@.len() ==> received_item_model_ok(#[trigger] m.0@[i], w.0@[i])
}

impl ListReceivedbyAddress {
    /// Converts to the domain result, validating each entry in order and
    /// failing on the first invalid one.
    pub fn into_model(self) -> (r: Result<
        model::ListReceivedByAddress,
        ListReceivedByAddressError,
    >)
        ensures
            r is Ok <==> received_ok(self),
            r matches Ok(m) ==> received_model_ok(m, self),
            r matches Err(e) ==> !received_ok(self) && exists|i: int|
                0 <= i < self.0@.len() && (forall|k: int|
                    0 <= k < i ==> received_item_ok(#[trigger] self.0@[k])) && !received_item_ok(
                    #[trigger] self.0@[i],
                ) && received_item_err_ok(e, self.0@[i]),
    {
        let ListReceivedbyAddress(entries) = self;
        let ghost orig = entries@;
        let mut items = entries;
        let total: usize = items.len();
        let mut out: Vec<model::ListReceivedByAddressItem> = Vec::new();
        let mut idx: usize = 0;
        while items.len() > 0
            invariant
                orig == self.0@,
                orig.len() == total,
                idx + items@.len() == orig.len(),
                items@ == orig.skip(idx as int),
                out@.len() == idx,
                forall|j: int| 0 <= j < idx ==> received_item_ok(#[trigger] orig[j]),
                forall|j: int|
                    0 <= j < idx ==> received_item_model_ok(#[trigger] out@[j], orig[j]),
            decreases items@.len(),
        {
            proof {
                assert(items@[0] == orig[idx as int]);
            }
            let d = items.remove(0);
            proof {
                assert(items@ =~= orig.skip(idx as int + 1));
            }
            match d.into_model() {
                Ok(md) => {
                    out.push(md);
                    idx += 1;
                },
                Err(e) => {
                    proof {
                        assert(!received_item_ok(self.0@[idx as int]));
                        assert(received_item_err_ok(e, self.0@[idx as int]));
                    }
                    return Err(e);
                },
            }
        }
        proof {
            assert(idx == orig.len());
        }
        Ok(model::ListReceivedByAddress(out))
    }
}

// ---------------------------------------------------------------------------
// Transaction listings.
// ---------------------------------------------------------------------------

/// Why a since-block transaction entry failed to convert.
#[derive(Debug, Clone, PartialEq, Eq)]
pub enum ListSinceBlockTransactionError {
    /// Conversion of the `address` field failed.
    Address(AddressError),
    /// Conversion of the `amount` field failed.
    Amount(ParseAmountError),
    /// Conversion of the `fee` field failed.
    Fee(ParseAmountError),
    /// Conversion of the `block_hash` field failed.
    BlockHash(HexError),
    /// Conversion of the `txid` field failed.
    Txid(HexError),
}

/// One transaction reported since a given block, as this version emits it.
#[derive(Clone, Debug, PartialEq, Eq)]
pub struct ListSinceBlockTransaction {
    /// Deprecated account name; ignored by conversion.
    pub account: String,
    /// The address of the transaction.
    pub address: String,
    /// Whether funds were sent or received.
    pub category: TransactionCategory,
    /// The amount as base-unit decimal text; negative for sends.
    pub amount: String,
    /// The output index.
    pub vout: i64,
    /// The fee as base-unit decimal text; negative, present for sends.
    pub fee: String,
    /// The number of confirmations; negative for conflicted transactions.
    pub confirmations: i64,
    /// The hash of the block containing the transaction, as hex text.
    pub block_hash: String,
    /// The index of the transaction in its block.
    pub block_index: i64,
    /// The block time in seconds since the epoch.
    pub block_time: u32,
    /// The transaction id as hex text, when available.
    pub txid: Option<String>,
    /// The transaction time in seconds since the epoch.
    pub time: u32,
    /// The time received in seconds since the epoch.
    pub time_received: u32,
    /// Whether the transaction signals opt-in replaceability.
    pub bip125_replaceable: Bip125Replacable,
    /// Whether the transaction was abandoned; only present for sends.
    pub abandoned: Option<bool>,
    /// A comment on the transaction, if any.
    pub comment: Option<String>,
    /// A label for the address or transaction, if any.
    pub label: Option<String>,
    /// A comment on the recipient, if any.
    pub to: Option<String>,
}

/// A block hash quoted as hex text converts.
pub open spec fn block_hash_text_ok(s: Seq<char>) -> bool {
    hex_text_ok(s) && hex_bytes(s).len() == 32
}

/// Every fallible field of a since-block entry converts.
pub open spec fn since_tx_ok(d: ListSinceBlockTransaction) -> bool {
    &&& addr_parse_ok(d.address@)
    &&& signed_amount_text_ok(d.amount@)
    &&& signed_amount_text_ok(d.fee@)
    &&& block_hash_text_ok(d.block_hash@)
    &&& match d.txid {
        Some(t) => txid_text_ok(t@),
        None => true,
    }
}

/// The domain entry carries the converted fields and copies the rest.
pub open spec fn since_tx_model_ok(
    m: model::ListSinceBlockTransaction,
    d: ListSinceBlockTransaction,
) -> bool {
    &&& m.address.text@ == d.address@
    &&& m.category == category_model(d.category)
    &&& m.amount.sats == sdec_text_sats(d.amount@)
    &&& m.vout == d.vout
    &&& m.fee.sats == sdec_text_sats(d.fee@)
    &&& m.confirmations == d.confirmations
    &&& m.block_hash.bytes@ == hex_bytes(d.block_hash@)
    &&& m.block_index == d.block_index
    &&& m.block_time == d.block_time
    &&& match (d.txid, m.txid) {
        (Some(t), Some(mt)) => mt.bytes@ == hex_bytes(t@),
        (None, None) => true,
        _ => false,
    }
    &&& m.time == d.time
    &&& m.time_received == d.time_received
    &&& m.bip125_replaceable == replaceable_model(d.bip125_replaceable)
    &&& m.abandoned == d.abandoned
    &&& m.comment == d.comment
    &&& m.label == d.label
    &&& m.to == d.to
}

/// The error names the first field, in declaration order, that does not
/// convert, wrapping that converter's failure.
pub open spec fn since_tx_err_ok(
    e: ListSinceBlockTransactionError,
    d: ListSinceBlockTransaction,
) -> bool {
    match e {
        ListSinceBlockTransactionError::Address(ae) => !addr_parse_ok(d.address@) && ae
            == AddressError::InvalidAddressSyntax,
        ListSinceBlockTransactionError::Amount(ae) => addr_parse_ok(d.address@)
            && !signed_amount_text_ok(d.amount@) && (ae == ParseAmountError::InvalidDecimal
            <==> !sdec_text_ok(d.amount@)),
        ListSinceBlockTransactionError::Fee(ae) => addr_parse_ok(d.address@)
            && signed_amount_text_ok(d.amount@) && !signed_amount_text_ok(d.fee@) && (ae
            == ParseAmountError::InvalidDecimal <==> !sdec_text_ok(d.fee@)),
        ListSinceBlockTransactionError::BlockHash(he) => addr_parse_ok(d.address@)
            && signed_amount_text_ok(d.amount@) && signed_amount_text_ok(d.fee@)
            && !block_hash_text_ok(d.block_hash@) && (he == HexError::InvalidHex <==> !hex_text_ok(
            d.block_hash@,
        )),
        ListSinceBlockTransactionError::Txid(he) => addr_parse_ok(d.address@)
            && signed_amount_text_ok(d.amount@) && signed_amount_text_ok(d.fee@)
            && block_hash_text_ok(d.block_hash@) && (d.txid matches Some(t) && !txid_text_ok(t@)
            && (he == HexError::InvalidHex <==> !hex_text_ok(t@))),
    }
}

impl ListSinceBlockTransaction {
    /// Converts to the domain entry, validating the address, the amount, the
    /// fee, the block hash and the transaction id in that order, failing on
    /// the first invalid field.
    pub fn into_model(self) -> (r: Result<
        model::ListSinceBlockTransaction,
        ListSinceBlockTransactionError,
    >)
        ensures
            r is Ok <==> since_tx_ok(self),
            r matches Ok(m) ==> since_tx_model_ok(m, self),
            r matches Err(e) ==> since_tx_err_ok(e, self),
    {
        let ListSinceBlockTransaction {
            account: _,
            address,
            category,
            amount,
            vout,
            fee,
            confirmations,
            block_hash,
            block_index,
            block_time,
            txid,
            time,
            time_received,
            bip125_replaceable,
            abandoned,
            comment,
            label,
            to,
        } = self;
        let address = match UncheckedAddress::from_text(address) {
            Ok(a) => a,
            Err(ae) => {
                return Err(ListSinceBlockTransactionError::Address(ae));
            },
        };
        let amount = match SignedAmount::from_btc_text(amount.as_str()) {
            Ok(a) => a,
            Err(ae) => {
                return Err(ListSinceBlockTransactionError::Amount(ae));
            },
        };
        let fee = match SignedAmount::from_btc_text(fee.as_str()) {
            Ok(a) => a,
            Err(ae) => {
                return Err(ListSinceBlockTransactionError::Fee(ae));
            },
        };
        let block_hash = match BlockHash::from_hex(block_hash.as_str()) {
            Ok(h) => h,
            Err(he) => {
                return Err(ListSinceBlockTransactionError::BlockHash(he));
            },
        };
        let txid = match txid {
            Some(t) => match Txid::from_hex(t.as_str()) {
                Ok(tx) => Some(tx),
                Err(he) => {
                    return Err(ListSinceBlockTransactionError::Txid(he));
                },
            },
            None => None,
        };
        Ok(model::ListSinceBlockTransaction {
            address,
            category: category.into_model(),
            amount,
            vout,
            fee,
            confirmations,
            block_hash,
            block_index,
            block_time,
            txid,
            time,
            time_received,
            bip125_replaceable: bip125_replaceable.into_model(),
            abandoned,
            comment,
            label,
            to,
        })
    }
}

/// Every entry of a since-block list converts.
pub open spec fn since_txs_ok(v: Seq<ListSinceBlockTransaction>) -> bool {
    forall|i: int| 0 <= i < v.len() ==> since_tx_ok(#[trigger] v[i])
}

/// The domain entries convert pointwise, in order.
pub open spec fn since_txs_model_ok(
    m: Seq<model::ListSinceBlockTransaction>,
    v: Seq<ListSinceBlockTransaction>,
) -> bool {
    m.len() == v.len() && forall|i: int| 0 <= i < v.len() ==> since_tx_model_ok(#[trigger] m[i], v[i])
}

/// Converts a list of since-block entries in order, failing on the first
/// invalid one.
fn convert_since_txs(txs: Vec<ListSinceBlockTransaction>) -> (r: Result<
    Vec<model::ListSinceBlockTransaction>,
    ListSinceBlockTransactionError,
>)
    ensures
        r is Ok <==> since_txs_ok(txs@),
        r matches Ok(v) ==> since_txs_model_ok(v@, txs@),
        r matches Err(e) ==> !since_txs_ok(txs@) && exists|i: int|
            0 <= i < txs@.len() && (forall|k: int| 0 <= k < i ==> since_tx_ok(#[trigger] txs@[k]))
                && !since_tx_ok(#[trigger] txs@[i]) && since_tx_err_ok(e, txs@[i]),
{
    let ghost orig = txs@;
    let mut items = txs;
    let total: usize = items.len();
    let mut out: Vec<model::ListSinceBlockTransaction> = Vec::new();
    let mut idx: usize = 0;
    while items.len() > 0
        invariant
            orig == txs@,
            orig.len() == total,
            idx + items@.len() == orig.len(),
            items@ == orig.skip(idx as int),
            out@.len() == idx,
            forall|j: int| 0 <= j < idx ==> since_tx_ok(#[trigger] orig[j]),
            forall|j: int| 0 <= j < idx ==> since_tx_model_ok(#[trigger] out@[j], orig[j]),
        decreases items@.len(),
    {
        proof {
            assert(items@[0] == orig[idx as int]);
        }
        let d = items.remove(0);
        proof {
            assert(items@ =~= orig.skip(idx as int + 1));
        }
        match d.into_model() {
            Ok(md) => {
                out.push(md);
                idx += 1;
            },
            Err(e) => {
                proof {
                    assert(!since_tx_ok(txs@[idx as int]));
                }
                return Err(e);
            },
        }
    }
    proof {
        assert(idx == orig.len());
    }
    Ok(out)
}

/// Reply to listing transactions in blocks since a given block.
#[derive(Clone, Debug, PartialEq, Eq)]
pub struct ListSinceBlock {
    /// The transactions since the block.
    pub transactions: Vec<ListSinceBlockTransaction>,
    /// Transactions removed by a reorganisation, when asked for.
    pub removed: Vec<ListSinceBlockTransaction>,
    /// The hash to feed back into the next call, as hex text.
    pub last_block: String,
}

/// Why a since-block record failed to convert.
#[derive(Debug, Clone, PartialEq, Eq)]
pub enum ListSinceBlockError {
    /// Conversion of an entry of the `transactions` field failed.
    Transactions(ListSinceBlockTransactionError),
    /// Conversion of an entry of the `removed` field failed.
    Removed(ListSinceBlockTransactionError),
    /// Conversion of the `last_block` field failed.
    LastBlock(HexError),
}

/// Every fallible field of the since-block record converts.
pub open spec fn since_block_ok(w: ListSinceBlock) -> bool {
    &&& since_txs_ok(w.transactions@)
    &&& since_txs_ok(w.removed@)
    &&& block_hash_text_ok(w.last_block@)
}

/// The domain record converts both lists pointwise and the final hash.
pub open spec fn since_block_model_ok(m: model::ListSinceBlock, w: ListSinceBlock) -> bool {
    &&& since_txs_model_ok(m.transactions@, w.transactions@)
    &&& since_txs_model_ok(m.removed@, w.removed@)
    &&& m.last_block.bytes@ == hex_bytes(w.last_block@)
}

/// The error names the first field, in declaration order, that does not
/// convert, wrapping that converter's failure.
pub open spec fn since_block_err_ok(e: ListSinceBlockError, w: ListSinceBlock) -> bool {
    match e {
        ListSinceBlockError::Transactions(te) => !since_txs_ok(w.transactions@) && exists|i: int|
            0 <= i < w.transactions@.len() && !since_tx_ok(#[trigger] w.transactions@[i])
                && since_tx_err_ok(te, w.transactions@[i]),
        ListSinceBlockError::Removed(te) => since_txs_ok(w.transactions@) && !since_txs_ok(
            w.removed@,
        ) && exists|i: int|
            0 <= i < w.removed@.len() && !since_tx_ok(#[trigger] w.removed@[i]) && since_tx_err_ok(
                te,
                w.removed@[i],
            ),
        ListSinceBlockError::LastBlock(he) => since_txs_ok(w.transactions@) && since_txs_ok(
            w.removed@,
        ) && !block_hash_text_ok(w.last_block@) && (he == HexError::InvalidHex <==> !hex_text_ok(
            w.last_block@,
        )),
    }
}

impl ListSinceBlock {
    /// Converts to the domain result, validating the transactions, the
    /// removed transactions and the last block hash in that order, failing on
    /// the first invalid field.
    pub fn into_model(self) -> (r: Result<model::ListSinceBlock, ListSinceBlockError>)
        ensures
            r is Ok <==> since_block_ok(self),
            r matches Ok(m) ==> since_block_model_ok(m, self),
            r matches Err(e) ==> since_block_err_ok(e, self),
    {
        let ListSinceBlock { transactions, removed, last_block } = self;
        let transactions = match convert_since_txs(transactions) {
            Ok(v) => v,
            Err(te) => {
                return Err(ListSinceBlockError::Transactions(te));
            },
        };
        let removed = match convert_since_txs(removed) {
            Ok(v) => v,
            Err(te) => {
                return Err(ListSinceBlockError::Removed(te));
            },
        };
        let last_block = match BlockHash::from_hex(last_block.as_str()) {
            Ok(h) => h,
            Err(he) => {
                return Err(ListSinceBlockError::LastBlock(he));
            },
        };
        Ok(model::ListSinceBlock { transactions, removed, last_block })
    }
}

/// Why a recent-transactions entry failed to convert.
#[derive(Debug, Clone, PartialEq, Eq)]
pub enum ListTransactionsItemError {
    /// Conversion of the `address` field failed.
    Address(AddressError),
    /// Conversion of the `amount` field failed.
    Amount(ParseAmountError),
    /// Conversion of the `fee` field failed.
    Fee(ParseAmountError),
    /// Conversion of the `block_hash` field failed.
    BlockHash(HexError),
    /// Conversion of the `txid` field failed.
    Txid(HexError),
}

/// One transaction in a recent-transactions listing, as this version emits
/// it.
#[derive(Clone, Debug, PartialEq, Eq)]
pub struct ListTransactionsItem {
    /// The address of the transaction.
    pub address: String,
    /// Whether funds were sent or received.
    pub category: TransactionCategory,
    /// The amount as base-unit decimal text; negative for sends.
    pub amount: String,
    /// A label for the address or transaction, if any.
    pub label: Option<String>,
    /// The output index.
    pub vout: i64,
    /// The fee as base-unit decimal text; negative, present for sends.
    pub fee: String,
    /// The number of confirmations; negative for conflicted transactions.
    pub confirmations: i64,
    /// Whether the unconfirmed outputs are considered safe to spend.
    pub trusted: bool,
    /// The hash of the block containing the transaction, as hex text.
    pub block_hash: String,
    /// The index of the transaction in its block.
    pub block_index: i64,
    /// The block time in seconds since the epoch.
    pub block_time: u32,
    /// The transaction id as hex text.
    pub txid: String,
    /// The transaction time in seconds since the epoch.
    pub time: u32,
    /// The time received in seconds since the epoch.
    pub time_received: u32,
    /// A comment on the transaction, if any.
    pub comment: Option<String>,
    /// Whether the transaction signals opt-in replaceability.
    pub bip125_replaceable: Bip125Replacable,
    /// Whether the transaction was abandoned; only present for sends.
    pub abandoned: Option<bool>,
}

/// Every fallible field of a recent-transactions entry converts.
pub open spec fn list_tx_ok(d: ListTransactionsItem) -> bool {
    &&& addr_parse_ok(d.address@)
    &&& signed_amount_text_ok(d.amount@)
    &&& signed_amount_text_ok(d.fee@)
    &&& block_hash_text_ok(d.block_hash@)
    &&& txid_text_ok(d.txid@)
}

/// The domain entry carries the converted fields and copies the rest.
pub open spec fn list_tx_model_ok(m: model::ListTransactionsItem, d: ListTransactionsItem) -> bool {
    &&& m.address.text@ == d.address@
    &&& m.category == category_model(d.category)
    &&& m.amount.sats == sdec_text_sats(d.amount@)
    &&& m.label == d.label
    &&& m.vout == d.vout
    &&& m.fee.sats == sdec_text_sats(d.fee@)
    &&& m.confirmations == d.confirmations
    &&& m.trusted == d.trusted
    &&& m.block_hash.bytes@ == hex_bytes(d.block_hash@)
    &&& m.block_index == d.block_index
    &&& m.block_time == d.block_time
    &&& m.txid.bytes@ == hex_bytes(d.txid@)
    &&& m.time == d.time
    &&& m.time_received == d.time_received
    &&& m.comment == d.comment
    &&& m.bip125_replaceable == replaceable_model(d.bip125_replaceable)
    &&& m.abandoned == d.abandoned
}

/// The error names the first field, in declaration order, that does not
/// convert, wrapping that converter's failure.
pub open spec fn list_tx_err_ok(e: ListTransactionsItemError, d: ListTransactionsItem) -> bool {
    match e {
        ListTransactionsItemError::Address(ae) => !addr_parse_ok(d.address@) && ae
            == AddressError::InvalidAddressSyntax,
        ListTransactionsItemError::Amount(ae) => addr_parse_ok(d.address@)
            && !signed_amount_text_ok(d.amount@) && (ae == ParseAmountError::InvalidDecimal
            <==> !sdec_text_ok(d.amount@)),
        ListTransactionsItemError::Fee(ae) => addr_parse_ok(d.address@) && signed_amount_text_ok(
            d.amount@,
        ) && !signed_amount_text_ok(d.fee@) && (ae == ParseAmountError::InvalidDecimal
            <==> !sdec_text_ok(d.fee@)),
        ListTransactionsItemError::BlockHash(he) => addr_parse_ok(d.address@)
            && signed_amount_text_ok(d.amount@) && signed_amount_text_ok(d.fee@)
            && !block_hash_text_ok(d.block_hash@) && (he == HexError::InvalidHex <==> !hex_text_ok(
            d.block_hash@,
        )),
        ListTransactionsItemError::Txid(he) => addr_parse_ok(d.address@) && signed_amount_text_ok(
            d.amount@,
        ) && signed_amount_text_ok(d.fee@) && block_hash_text_ok(d.block_hash@) && !txid_text_ok(
            d.txid@,
        ) && (he == HexError::InvalidHex <==> !hex_text_ok(d.txid@)),
    }
}

impl ListTransactionsItem {
    /// Converts to the domain entry, validating the address, the amount, the
    /// fee, the block hash and the transaction id in that order, failing on
    /// the first invalid field.
    pub fn into_model(self) -> (r: Result<
        model::ListTransactionsItem,
        ListTransactionsItemError,
    >)
        ensures
            r is Ok <==> list_tx_ok(self),
            r matches Ok(m) ==> list_tx_model_ok(m, self),
            r matches Err(e) ==> list_tx_err_ok(e, self),
    {
        let ListTransactionsItem {
            address,
            category,
            amount,
            label,
            vout,
            fee,
            confirmations,
            trusted,
            block_hash,
            block_index,
            block_time,
            txid,
            time,
            time_received,
            comment,
            bip125_replaceable,
            abandoned,
        } = self;
        let address = match UncheckedAddress::from_text(address) {
            Ok(a) => a,
            Err(ae) => {
                return Err(ListTransactionsItemError::Address(ae));
            },
        };
        let amount = match SignedAmount::from_btc_text(amount.as_str()) {
            Ok(a) => a,
            Err(ae) => {
                return Err(ListTransactionsItemError::Amount(ae));
            },
        };
        let fee = match SignedAmount::from_btc_text(fee.as_str()) {
            Ok(a) => a,
            Err(ae) => {
                return Err(ListTransactionsItemError::Fee(ae));
            },
        };
        let block_hash = match BlockHash::from_hex(block_hash.as_str()) {
            Ok(h) => h,
            Err(he) => {
                return Err(ListTransactionsItemError::BlockHash(he));
            },
        };
        let txid = match Txid::from_hex(txid.as_str()) {
            Ok(t) => t,
            Err(he) => {
                return Err(ListTransactionsItemError::Txid(he));
            },
        };
        Ok(model::ListTransactionsItem {
            address,
            category: category.into_model(),
            amount,
            label,
            vout,
            fee,
            confirmations,
            trusted,
            block_hash,
            block_index,
            block_time,
            txid,
            time,
            time_received,
            comment,
            bip125_replaceable: bip125_replaceable.into_model(),
            abandoned,
        })
    }
}

/// Reply to listing the most recent transactions.
#[derive(Clone, Debug, PartialEq, Eq)]
pub struct ListTransactions(pub Vec<ListTransactionsItem>);

/// Every listed entry converts.
pub open spec fn list_txs_ok(w: ListTransactions) -> bool {
    forall|i: int| 0 <= i < w.0@.len() ==> list_tx_ok(#[trigger] w.0@[i])
}

/// The domain entries convert pointwise, in order.
pub open spec fn list_txs_model_ok(m: model::ListTransactions, w: ListTransactions) -> bool {
    m.0@.len() == w.0@.len() && forall|i: int|
        0 <= i < w.0@.len() ==> list_tx_model_ok(#[trigger] m.0@[i], w.0@[i])
}

impl ListTransactions {
    /// Converts to the domain result, validating each entry in order and
    /// failing on the first invalid one.
    pub fn into_model(self) -> (r: Result<model::ListTransactions, ListTransactionsItemError>)
        ensures
            r is Ok <==> list_txs_ok(self),
            r matches Ok(m) ==> list_txs_model_ok(m, self),
            r matches Err(e) ==> !list_txs_ok(self) && exists|i: int|
                0 <= i < self.0@.len() && (forall|k: int|
                    0 <= k < i ==> list_tx_ok(#[trigger] self.0@[k])) && !list_tx_ok(
                    #[trigger] self.0@[i],
                ) && list_tx_err_ok(e, self.0@[i]),
    {
        let ListTransactions(entries) = self;
        let ghost orig = entries@;
        let mut items = entries;
        let total: usize = items.len();
        let mut out: Vec<model::ListTransactionsItem> = Vec::new();
        let mut idx: usize = 0;
        while items.len() > 0
            invariant
                orig == self.0@,
                orig.len() == total,
                idx + items@.len() == orig.len(),
                items@ == orig.skip(idx as int),
                out@.len() == idx,
                forall|j: int| 0 <= j < idx ==> list_tx_ok(#[trigger] orig[j]),
                forall|j: int| 0 <= j < idx ==> list_tx_model_ok(#[trigger] out@[j], orig[j]),
            decreases items@.len(),
        {
            proof {
                assert(items@[0] == orig[idx as int]);
            }
            let d = items.remove(0);
            proof {
                assert(items@ =~= orig.skip(idx as int + 1));
            }
            match d.into_model() {
                Ok(md) => {
                    out.push(md);
                    idx += 1;
                },
                Err(e) => {
                    proof {
                        assert(!list_tx_ok(self.0@[idx as int]));
                        assert(list_tx_err_ok(e, self.0@[idx as int]));
                    }
                    return Err(e);
                },
            }
        }
        proof {
            assert(idx == orig.len());
        }
        Ok(model::ListTransactions(out))
    }
}

/// Why an unspent-output entry failed to convert.
#[derive(Debug, Clone, PartialEq, Eq)]
pub enum ListUnspentItemError {
    /// Conversion of the `txid` field failed.
    Txid(HexError),
    /// Conversion of the `address` field failed.
    Address(AddressError),
    /// Conversion of the `script_pubkey` field failed.
    ScriptPubkey(HexError),
    /// Conversion of the `amount` field failed.
    Amount(ParseAmountError),
    /// Conversion of the `redeem_script` field failed.
    RedeemScript(HexError),
}

/// One unspent transaction output, as this version emits it.
#[derive(Clone, Debug, PartialEq, Eq)]
pub struct ListUnspentItem {
    /// The transaction id as hex text.
    pub txid: String,
    /// The output index.
    pub vout: i64,
    /// The address of the output.
    pub address: String,
    /// The associated label.
    pub label: String,
    /// Deprecated account name; ignored by conversion.
    pub account: String,
    /// The hex-encoded output script.
    pub script_pubkey: String,
    /// The output amount as base-unit decimal text.
    pub amount: String,
    /// The number of confirmations.
    pub confirmations: u32,
    /// The hex-encoded redeem script, for script-hash outputs.
    pub redeem_script: Option<String>,
    /// Whether the wallet holds the keys to spend this output.
    pub spendable: bool,
    /// Whether the wallet knows how to spend this output.
    pub solvable: bool,
    /// Whether this output is considered safe to spend.
    pub safe: bool,
}

/// Every fallible field of an unspent-output entry converts.
pub open spec fn unspent_item_ok(d: ListUnspentItem) -> bool {
    &&& txid_text_ok(d.txid@)
    &&& addr_parse_ok(d.address@)
    &&& hex_text_ok(d.script_pubkey@)
    &&& amount_text_ok(d.amount@)
    &&& opt_hex_ok(d.redeem_script)
}

/// The domain entry carries the converted fields and copies the rest.
pub open spec fn unspent_item_model_ok(m: model::ListUnspentItem, d: ListUnspentItem) -> bool {
    &&& m.txid.bytes@ == hex_bytes(d.txid@)
    &&& m.vout == d.vout
    &&& m.address.text@ == d.address@
    &&& m.label == d.label
    &&& m.script_pubkey.bytes@ == hex_bytes(d.script_pubkey@)
    &&& m.amount.sats == sdec_text_sats(d.amount@)
    &&& m.confirmations == d.confirmations
    &&& opt_script_model_ok(m.redeem_script, d.redeem_script)
    &&& m.spendable == d.spendable
    &&& m.solvable == d.solvable
    &&& m.safe == d.safe
}

/// The error names the first field, in declaration order, that does not
/// convert, wrapping that converter's failure.
pub open spec fn unspent_item_err_ok(e: ListUnspentItemError, d: ListUnspentItem) -> bool {
    match e {
        ListUnspentItemError::Txid(he) => !txid_text_ok(d.txid@) && (he == HexError::InvalidHex
            <==> !hex_text_ok(d.txid@)),
        ListUnspentItemError::Address(ae) => txid_text_ok(d.txid@) && !addr_parse_ok(d.address@)
            && ae == AddressError::InvalidAddressSyntax,
        ListUnspentItemError::ScriptPubkey(he) => txid_text_ok(d.txid@) && addr_parse_ok(d.address@)
            && !hex_text_ok(d.script_pubkey@) && he == HexError::InvalidHex,
        ListUnspentItemError::Amount(ae) => txid_text_ok(d.txid@) && addr_parse_ok(d.address@)
            && hex_text_ok(d.script_pubkey@) && !amount_text_ok(d.amount@) && (ae
            == ParseAmountError::InvalidDecimal <==> !sdec_text_ok(d.amount@)),
        ListUnspentItemError::RedeemScript(he) => txid_text_ok(d.txid@) && addr_parse_ok(d.address@)
            && hex_text_ok(d.script_pubkey@) && amount_text_ok(d.amount@) && (
        d.redeem_script matches Some(s) && !hex_text_ok(s@) && he == HexError::InvalidHex),
    }
}

impl ListUnspentItem {
    /// Converts to the domain entry, validating the transaction id, the
    /// address, the output script, the amount and the redeem script in that
    /// order, failing on the first invalid field; the address is assumed to
    /// match the service's network.
    pub fn into_model(self) -> (r: Result<model::ListUnspentItem, ListUnspentItemError>)
        ensures
            r is Ok <==> unspent_item_ok(self),
            r matches Ok(m) ==> unspent_item_model_ok(m, self),
            r matches Err(e) ==> unspent_item_err_ok(e, self),
    {
        let ListUnspentItem {
            txid,
            vout,
            address,
            label,
            account: _,
            script_pubkey,
            amount,
            confirmations,
            redeem_script,
            spendable,
            solvable,
            safe,
        } = self;
        let txid = match Txid::from_hex(txid.as_str()) {
            Ok(t) => t,
            Err(he) => {
                return Err(ListUnspentItemError::Txid(he));
            },
        };
        let address = match CheckedAddress::from_text(address) {
            Ok(a) => a,
            Err(ae) => {
                return Err(ListUnspentItemError::Address(ae));
            },
        };
        let script_pubkey = match Script::from_hex(script_pubkey.as_str()) {
            Ok(sc) => sc,
            Err(he) => {
                return Err(ListUnspentItemError::ScriptPubkey(he));
            },
        };
        let amount = match Amount::from_btc_text(amount.as_str()) {
            Ok(a) => a,
            Err(ae) => {
                return Err(ListUnspentItemError::Amount(ae));
            },
        };
        let redeem_script = match redeem_script {
            Some(s) => match Script::from_hex(s.as_str()) {
                Ok(sc) => Some(sc),
                Err(he) => {
                    return Err(ListUnspentItemError::RedeemScript(he));
                },
            },
            None => None,
        };
        Ok(model::ListUnspentItem {
            txid,
            vout,
            address,
            label,
            script_pubkey,
            amount,
            confirmations,
            redeem_script,
            spendable,
            solvable,
            safe,
        })
    }
}

/// Reply to listing unspent transaction outputs.
#[derive(Clone, Debug, PartialEq, Eq)]
pub struct ListUnspent(pub Vec<ListUnspentItem>);

/// Every listed entry converts.
pub open spec fn unspent_ok(w: ListUnspent) -> bool {
    forall|i: int| 0 <= i < w.0@.len() ==> unspent_item_ok(#[trigger] w.0@[i])
}

/// The domain entries convert pointwise, in order.
pub open spec fn unspent_model_ok(m: model::ListUnspent, w: ListUnspent) -> bool {
    m.0@.len() == w.0@.len() && forall|i: int|
        0 <= i < w.0@.len() ==> unspent_item_model_ok(#[trigger] m.0@[i], w.0@[i])
}

impl ListUnspent {
    /// Converts to the domain result, validating each entry in order and
    /// failing on the first invalid one.
    pub fn into_model(self) -> (r: Result<model::ListUnspent, ListUnspentItemError>)
        ensures
            r is Ok <==> unspent_ok(self),
            r matches Ok(m) ==> unspent_model_ok(m, self),
            r matches Err(e) ==> !unspent_ok(self) && exists|i: int|
                0 <= i < self.0@.len() && (forall|k: int|
                    0 <= k < i ==> unspent_item_ok(#[trigger] self.0@[k])) && !unspent_item_ok(
                    #[trigger] self.0@[i],
                ) && unspent_item_err_ok(e, self.0@[i]),
    {
        let ListUnspent(entries) = self;
        let ghost orig = entries@;
        let mut items = entries;
        let total: usize = items.len();
        let mut out: Vec<model::ListUnspentItem> = Vec::new();
        let mut idx: usize = 0;
        while items.len() > 0
            invariant
                orig == self.0@,
                orig.len() == total,
                idx + items@.len() == orig.len(),
                items@ == orig.skip(idx as int),
                out@.len() == idx,
                forall|j: int| 0 <= j < idx ==> unspent_item_ok(#[trigger] orig[j]),
                forall|j: int| 0 <= j < idx ==> unspent_item_model_ok(#[trigger] out@[j], orig[j]),
            decreases items@.len(),
        {
            proof {
                assert(items@[0] == orig[idx as int]);
            }
            let d = items.remove(0);
            proof {
                assert(items@ =~= orig.skip(idx as int + 1));
            }
            match d.into_model() {
                Ok(md) => {
                    out.push(md);
                    idx += 1;
                },
                Err(e) => {
                    proof {
                        assert(!unspent_item_ok(self.0@[idx as int]));
                        assert(unspent_item_err_ok(e, self.0@[idx as int]));
                    }
                    return Err(e);
                },
            }
        }
        proof {
            assert(idx == orig.len());
        }
        Ok(model::ListUnspent(out))
    }
}

// ---------------------------------------------------------------------------
// Projection consistency: converting a record and projecting one field of
// the domain value agrees with converting the record directly to that field.
// Each lemma takes a wire record together with results that meet the two
// functions' contracts, and shows the results agree, value and error alike.
// ---------------------------------------------------------------------------

/// Law: on every wire balance record, `into_model` followed by projecting
/// the amount agrees with `balance`, value and error alike.
pub proof fn lemma_balance_projection_consistent(
    w: GetBalance,
    converted: Result<model::GetBalance, ParseAmountError>,
    projected: Result<Amount, ParseAmountError>,
)
    requires
        converted is Ok <==> amount_text_ok(w.0@),
        converted matches Ok(m) ==> m.0.sats == sdec_text_sats(w.0@),
        converted matches Err(e) ==> (e == ParseAmountError::InvalidDecimal <==> !sdec_text_ok(
            w.0@,
        )),
        sdec_text_ok(w.0@) && converted is Err ==> converted->Err_0 == ParseAmountError::OutOfRange,
        projected is Ok <==> amount_text_ok(w.0@),
        projected matches Ok(a) ==> a.sats == sdec_text_sats(w.0@),
        projected matches Err(e) ==> (e == ParseAmountError::InvalidDecimal <==> !sdec_text_ok(
            w.0@,
        )),
        sdec_text_ok(w.0@) && projected is Err ==> projected->Err_0 == ParseAmountError::OutOfRange,
    ensures
        match (converted, projected) {
            (Ok(m), Ok(a)) => m.0 == a,
            (Err(e1), Err(e2)) => e1 == e2,
            _ => false,
        },
{
}

/// Law: on every wire new-address record, `into_model` followed by
/// projecting the address agrees with `address`, text and error alike.
pub proof fn lemma_new_address_projection_consistent(
    w: GetNewAddress,
    converted: Result<model::GetNewAddress, AddressError>,
    projected: Result<UncheckedAddress, AddressError>,
)
    requires
        converted is Ok <==> addr_parse_ok(w.0@),
        converted matches Ok(m) ==> m.0.text@ == w.0@,
        converted matches Err(e) ==> e == AddressError::InvalidAddressSyntax,
        projected is Ok <==> addr_parse_ok(w.0@),
        projected matches Ok(a) ==> a.text@ == w.0@,
        projected matches Err(e) ==> e == AddressError::InvalidAddressSyntax,
    ensures
        match (converted, projected) {
            (Ok(m), Ok(a)) => m.0.text@ == a.text@,
            (Err(e1), Err(e2)) => e1 == e2,
            _ => false,
        },
{
}

/// Law: on every wire send record, `into_model` followed by projecting the
/// transaction id agrees with `txid`, bytes and error alike.
pub proof fn lemma_send_to_address_projection_consistent(
    w: SendToAddress,
    converted: Result<model::SendToAddress, HexError>,
    projected: Result<Txid, HexError>,
)
    requires
        converted is Ok <==> hex_text_ok(w.0@) && hex_bytes(w.0@).len() == 32,
        converted matches Ok(m) ==> m.txid.bytes@ == hex_bytes(w.0@),
        converted matches Err(e) ==> (e == HexError::InvalidHex <==> !hex_text_ok(w.0@)),
        hex_text_ok(w.0@) && converted is Err ==> converted->Err_0 == HexError::WrongLength,
        projected is Ok <==> hex_text_ok(w.0@) && hex_bytes(w.0@).len() == 32,
        projected matches Ok(t) ==> t.bytes@ == hex_bytes(w.0@),
        projected matches Err(e) ==> (e == HexError::InvalidHex <==> !hex_text_ok(w.0@)),
        hex_text_ok(w.0@) && projected is Err ==> projected->Err_0 == HexError::WrongLength,
    ensures
        match (converted, projected) {
            (Ok(m), Ok(t)) => m.txid.bytes@ == t.bytes@,
            (Err(e1), Err(e2)) => e1 == e2,
            _ => false,
        },
{
}

/// Law: on every wire dump record, `into_model` followed by projecting the
/// key agrees with `key`, text and error alike.
pub proof fn lemma_dump_priv_key_projection_consistent(
    w: DumpPrivKey,
    converted: Result<model::DumpPrivKey, PrivateKeyError>,
    projected: Result<PrivKey, PrivateKeyError>,
)
    requires
        converted is Ok <==> wif_parse_ok(w.key@),
        converted matches Ok(m) ==> m.key.wif@ == w.key@,
        converted matches Err(e) ==> e == PrivateKeyError::InvalidWif,
        projected is Ok <==> wif_parse_ok(w.key@),
        projected matches Ok(k) ==> k.wif@ == w.key@,
        projected matches Err(e) ==> e == PrivateKeyError::InvalidWif,
    ensures
        match (converted, projected) {
            (Ok(m), Ok(k)) => m.key.wif@ == k.wif@,
            (Err(e1), Err(e2)) => e1 == e2,
            _ => false,
        },
{
}

/// Law: on every wire created-wallet record, `into_model` followed by
/// projecting the name agrees with `name`.
pub proof fn lemma_create_wallet_projection_consistent(
    w: CreateWallet,
    converted: model::CreateWallet,
    projected: String,
)
    requires
        converted.name == w.name,
        projected == w.name,
    ensures
        converted.name == projected,
{
}

/// Law: on every wire loaded-wallet record, `into_model` followed by
/// projecting the name agrees with `name`.
pub proof fn lemma_load_wallet_projection_consistent(
    w: LoadWallet,
    converted: model::LoadWallet,
    projected: String,
)
    requires
        converted.name == w.name,
        projected == w.name,
    ensures
        converted.name == projected,
{
}

// ---------------------------------------------------------------------------
// Error descriptions.
// ---------------------------------------------------------------------------

/// The description of each failure of this record's conversion.
pub open spec fn add_multisig_address_error_text(e: AddMultisigAddressError) -> Seq<char> {
    match e {
        AddMultisigAddressError::Address(_) => "conversion of the `address` field failed"@,
        AddMultisigAddressError::RedeemScript(_) => "conversion of the `redeem_script` field failed"@,
    }
}

impl AddMultisigAddressError {
    /// A short description naming the failing field.
    pub fn message(&self) -> (r: &'static str)
        ensures
            r@ == add_multisig_address_error_text(*self),
    {
        match self {
            AddMultisigAddressError::Address(_) => "conversion of the `address` field failed",
            AddMultisigAddressError::RedeemScript(_) => "conversion of the `redeem_script` field failed",
        }
    }
}

/// The description of each failure of this record's conversion.
pub open spec fn get_addresses_by_label_error_text(e: GetAddressesByLabelError) -> Seq<char> {
    match e {
        GetAddressesByLabelError::Address(_) => "invalid address in the address map"@,
    }
}

impl GetAddressesByLabelError {
    /// A short description naming the failing field.
    pub fn message(&self) -> (r: &'static str)
        ensures
            r@ == get_addresses_by_label_error_text(*self),
    {
        match self {
            GetAddressesByLabelError::Address(_) => "invalid address in the address map",
        }
    }
}

/// The description of each failure of this record's conversion.
pub open spec fn get_transaction_detail_error_text(e: GetTransactionDetailError) -> Seq<char> {
    match e {
        GetTransactionDetailError::Address(_) => "conversion of the `address` field failed"@,
        GetTransactionDetailError::Amount(_) => "conversion of the `amount` field failed"@,
        GetTransactionDetailError::Fee(_) => "conversion of the `fee` field failed"@,
    }
}

impl GetTransactionDetailError {
    /// A short description naming the failing field.
    pub fn message(&self) -> (r: &'static str)
        ensures
            r@ == get_transaction_detail_error_text(*self),
    {
        match self {
            GetTransactionDetailError::Address(_) => "conversion of the `address` field failed",
            GetTransactionDetailError::Amount(_) => "conversion of the `amount` field failed",
            GetTransactionDetailError::Fee(_) => "conversion of the `fee` field failed",
        }
    }
}

/// The description of each failure of this record's conversion.
pub open spec fn get_transaction_error_text(e: GetTransactionError) -> Seq<char> {
    match e {
        GetTransactionError::Amount(_) => "conversion of the `amount` field failed"@,
        GetTransactionError::Fee(_) => "conversion of the `fee` field failed"@,
        GetTransactionError::Txid(_) => "conversion of the `txid` field failed"@,
        GetTransactionError::Tx(_) => "conversion of the `hex` field failed"@,
        GetTransactionError::Details(_) => "conversion of the `details` field failed"@,
    }
}

impl GetTransactionError {
    /// A short description naming the failing field.
    pub fn message(&self) -> (r: &'static str)
        ensures
            r@ == get_transaction_error_text(*self),
    {
        match self {
            GetTransactionError::Amount(_) => "conversion of the `amount` field failed",
            GetTransactionError::Fee(_) => "conversion of the `fee` field failed",
            GetTransactionError::Txid(_) => "conversion of the `txid` field failed",
            GetTransactionError::Tx(_) => "conversion of the `hex` field failed",
            GetTransactionError::Details(_) => "conversion of the `details` field failed",
        }
    }
}

/// The description of each failure of this record's conversion.
pub open spec fn get_wallet_info_error_text(e: GetWalletInfoError) -> Seq<char> {
    match e {
        GetWalletInfoError::Balance(_) => "conversion of the `balance` field failed"@,
        GetWalletInfoError::UnconfirmedBalance(_) => "conversion of the `unconfirmed_balance` field failed"@,
        GetWalletInfoError::ImmatureBalance(_) => "conversion of the `immature_balance` field failed"@,
        GetWalletInfoError::PayTxFee(_) => "conversion of the `pay_tx_fee` field failed"@,
        GetWalletInfoError::HdSeedId(_) => "conversion of the `hd_seed_id` field failed"@,
    }
}

impl GetWalletInfoError {
    /// A short description naming the failing field.
    pub fn message(&self) -> (r: &'static str)
        ensures
            r@ == get_wallet_info_error_text(*self),
    {
        match self {
            GetWalletInfoError::Balance(_) => "conversion of the `balance` field failed",
            GetWalletInfoError::UnconfirmedBalance(_) => "conversion of the `unconfirmed_balance` field failed",
            GetWalletInfoError::ImmatureBalance(_) => "conversion of the `immature_balance` field failed",
            GetWalletInfoError::PayTxFee(_) => "conversion of the `pay_tx_fee` field failed",
            GetWalletInfoError::HdSeedId(_) => "conversion of the `hd_seed_id` field failed",
        }
    }
}

/// The description of each failure of this record's conversion.
pub open spec fn get_address_info_embedded_error_text(e: GetAddressInfoEmbeddedError) -> Seq<char> {
    match e {
        GetAddressInfoEmbeddedError::Address(_) => "conversion of the `address` field failed"@,
        GetAddressInfoEmbeddedError::ScriptPubkey(_) => "conversion of the `script_pubkey` field failed"@,
        GetAddressInfoEmbeddedError::WitnessVersionValue(_) => "invalid witness version number"@,
        GetAddressInfoEmbeddedError::WitnessVersion(_) => "conversion of the `witness_version` field failed"@,
        GetAddressInfoEmbeddedError::WitnessProgramBytes(_) => "decoding the `witness_program` field's hex failed"@,
        GetAddressInfoEmbeddedError::WitnessProgram(_) => "conversion of the `witness_program` field failed"@,
        GetAddressInfoEmbeddedError::Hex(_) => "conversion of the `hex` field failed"@,
        GetAddressInfoEmbeddedError::Pubkeys(_) => "conversion of the `pubkeys` field failed"@,
        GetAddressInfoEmbeddedError::Pubkey(_) => "conversion of the `pubkey` field failed"@,
    }
}

impl GetAddressInfoEmbeddedError {
    /// A short description naming the failing field.
    pub fn message(&self) -> (r: &'static str)
        ensures
            r@ == get_address_info_embedded_error_text(*self),
    {
        match self {
            GetAddressInfoEmbeddedError::Address(_) => "conversion of the `address` field failed",
            GetAddressInfoEmbeddedError::ScriptPubkey(_) => "conversion of the `script_pubkey` field failed",
            GetAddressInfoEmbeddedError::WitnessVersionValue(_) => "invalid witness version number",
            GetAddressInfoEmbeddedError::WitnessVersion(_) => "conversion of the `witness_version` field failed",
            GetAddressInfoEmbeddedError::WitnessProgramBytes(_) => "decoding the `witness_program` field's hex failed",
            GetAddressInfoEmbeddedError::WitnessProgram(_) => "conversion of the `witness_program` field failed",
            GetAddressInfoEmbeddedError::Hex(_) => "conversion of the `hex` field failed",
            GetAddressInfoEmbeddedError::Pubkeys(_) => "conversion of the `pubkeys` field failed",
            GetAddressInfoEmbeddedError::Pubkey(_) => "conversion of the `pubkey` field failed",
        }
    }
}

/// The description of each failure of this record's conversion.
pub open spec fn get_address_info_error_text(e: GetAddressInfoError) -> Seq<char> {
    match e {
        GetAddressInfoError::Address(_) => "conversion of the `address` field failed"@,
        GetAddressInfoError::ScriptPubkey(_) => "conversion of the `script_pubkey` field failed"@,
        GetAddressInfoError::WitnessVersionValue(_) => "invalid witness version number"@,
        GetAddressInfoError::WitnessVersion(_) => "conversion of the `witness_version` field failed"@,
        GetAddressInfoError::WitnessProgramBytes(_) => "decoding the `witness_program` field's hex failed"@,
        GetAddressInfoError::WitnessProgram(_) => "conversion of the `witness_program` field failed"@,
        GetAddressInfoError::Hex(_) => "conversion of the `hex` field failed"@,
        GetAddressInfoError::Pubkeys(_) => "conversion of the `pubkeys` field failed"@,
        GetAddressInfoError::Pubkey(_) => "conversion of the `pubkey` field failed"@,
        GetAddressInfoError::Embedded(_) => "conversion of the `embedded` field failed"@,
        GetAddressInfoError::HdKeyPath(_) => "conversion of the `hd_key_path` field failed"@,
        GetAddressInfoError::HdSeedId(_) => "conversion of the `hd_seed_id` field failed"@,
    }
}

impl GetAddressInfoError {
    /// A short description naming the failing field.
    pub fn message(&self) -> (r: &'static str)
        ensures
            r@ == get_address_info_error_text(*self),
    {
        match self {
            GetAddressInfoError::Address(_) => "conversion of the `address` field failed",
            GetAddressInfoError::ScriptPubkey(_) => "conversion of the `script_pubkey` field failed",
            GetAddressInfoError::WitnessVersionValue(_) => "invalid witness version number",
            GetAddressInfoError::WitnessVersion(_) => "conversion of the `witness_version` field failed",
            GetAddressInfoError::WitnessProgramBytes(_) => "decoding the `witness_program` field's hex failed",
            GetAddressInfoError::WitnessProgram(_) => "conversion of the `witness_program` field failed",
            GetAddressInfoError::Hex(_) => "conversion of the `hex` field failed",
            GetAddressInfoError::Pubkeys(_) => "conversion of the `pubkeys` field failed",
            GetAddressInfoError::Pubkey(_) => "conversion of the `pubkey` field failed",
            GetAddressInfoError::Embedded(_) => "conversion of the `embedded` field failed",
            GetAddressInfoError::HdKeyPath(_) => "conversion of the `hd_key_path` field failed",
            GetAddressInfoError::HdSeedId(_) => "conversion of the `hd_seed_id` field failed",
        }
    }
}

/// The description of each failure of this record's conversion.
pub open spec fn list_address_groupings_error_text(e: ListAddressGroupingsError) -> Seq<char> {
    match e {
        ListAddressGroupingsError::Address(_) => "conversion of the `address` field failed"@,
        ListAddressGroupingsError::Amount(_) => "conversion of the `amount` field failed"@,
    }
}

impl ListAddressGroupingsError {
    /// A short description naming the failing field.
    pub fn message(&self) -> (r: &'static str)
        ensures
            r@ == list_address_groupings_error_text(*self),
    {
        match self {
            ListAddressGroupingsError::Address(_) => "conversion of the `address` field failed",
            ListAddressGroupingsError::Amount(_) => "conversion of the `amount` field failed",
        }
    }
}

/// The description of each failure of this record's conversion.
pub open spec fn list_received_by_address_error_text(e: ListReceivedByAddressError) -> Seq<char> {
    match e {
        ListReceivedByAddressError::Address(_) => "conversion of the `address` field failed"@,
        ListReceivedByAddressError::Amount(_) => "conversion of the `amount` field failed"@,
        ListReceivedByAddressError::Txids(_, _) => "conversion of a txid in the `txids` field failed"@,
    }
}

impl ListReceivedByAddressError {
    /// A short description naming the failing field.
    pub fn message(&self) -> (r: &'static str)
        ensures
            r@ == list_received_by_address_error_text(*self),
    {
        match self {
            ListReceivedByAddressError::Address(_) => "conversion of the `address` field failed",
            ListReceivedByAddressError::Amount(_) => "conversion of the `amount` field failed",
            ListReceivedByAddressError::Txids(_, _) => "conversion of a txid in the `txids` field failed",
        }
    }
}

/// The description of each failure of this record's conversion.
pub open spec fn list_since_block_transaction_error_text(e: ListSinceBlockTransactionError) -> Seq<char> {
    match e {
        ListSinceBlockTransactionError::Address(_) => "conversion of the `address` field failed"@,
        ListSinceBlockTransactionError::Amount(_) => "conversion of the `amount` field failed"@,
        ListSinceBlockTransactionError::Fee(_) => "conversion of the `fee` field failed"@,
        ListSinceBlockTransactionError::BlockHash(_) => "conversion of the `block_hash` field failed"@,
        ListSinceBlockTransactionError::Txid(_) => "conversion of the `txid` field failed"@,
    }
}

impl ListSinceBlockTransactionError {
    /// A short description naming the failing field.
    pub fn message(&self) -> (r: &'static str)
        ensures
            r@ == list_since_block_transaction_error_text(*self),
    {
        match self {
            ListSinceBlockTransactionError::Address(_) => "conversion of the `address` field failed",
            ListSinceBlockTransactionError::Amount(_) => "conversion of the `amount` field failed",
            ListSinceBlockTransactionError::Fee(_) => "conversion of the `fee` field failed",
            ListSinceBlockTransactionError::BlockHash(_) => "conversion of the `block_hash` field failed",
            ListSinceBlockTransactionError::Txid(_) => "conversion of the `txid` field failed",
        }
    }
}

/// The description of each failure of this record's conversion.
pub open spec fn list_since_block_error_text(e: ListSinceBlockError) -> Seq<char> {
    match e {
        ListSinceBlockError::Transactions(_) => "conversion of the `transactions` field failed"@,
        ListSinceBlockError::Removed(_) => "conversion of the `removed` field failed"@,
        ListSinceBlockError::LastBlock(_) => "conversion of the `last_block` field failed"@,
    }
}

impl ListSinceBlockError {
    /// A short description naming the failing field.
    pub fn message(&self) -> (r: &'static str)
        ensures
            r@ == list_since_block_error_text(*self),
    {
        match self {
            ListSinceBlockError::Transactions(_) => "conversion of the `transactions` field failed",
            ListSinceBlockError::Removed(_) => "conversion of the `removed` field failed",
            ListSinceBlockError::LastBlock(_) => "conversion of the `last_block` field failed",
        }
    }
}

/// The description of each failure of this record's conversion.
pub open spec fn list_transactions_item_error_text(e: ListTransactionsItemError) -> Seq<char> {
    match e {
        ListTransactionsItemError::Address(_) => "conversion of the `address` field failed"@,
        ListTransactionsItemError::Amount(_) => "conversion of the `amount` field failed"@,
        ListTransactionsItemError::Fee(_) => "conversion of the `fee` field failed"@,
        ListTransactionsItemError::BlockHash(_) => "conversion of the `block_hash` field failed"@,
        ListTransactionsItemError::Txid(_) => "conversion of the `txid` field failed"@,
    }
}

impl ListTransactionsItemError {
    /// A short description naming the failing field.
    pub fn message(&self) -> (r: &'static str)
        ensures
            r@ == list_transactions_item_error_text(*self),
    {
        match self {
            ListTransactionsItemError::Address(_) => "conversion of the `address` field failed",
            ListTransactionsItemError::Amount(_) => "conversion of the `amount` field failed",
            ListTransactionsItemError::Fee(_) => "conversion of the `fee` field failed",
            ListTransactionsItemError::BlockHash(_) => "conversion of the `block_hash` field failed",
            ListTransactionsItemError::Txid(_) => "conversion of the `txid` field failed",
        }
    }
}

/// The description of each failure of this record's conversion.
pub open spec fn list_unspent_item_error_text(e: ListUnspentItemError) -> Seq<char> {
    match e {
        ListUnspentItemError::Txid(_) => "conversion of the `txid` field failed"@,
        ListUnspentItemError::Address(_) => "conversion of the `address` field failed"@,
        ListUnspentItemError::ScriptPubkey(_) => "conversion of the `script_pubkey` field failed"@,
        ListUnspentItemError::Amount(_) => "conversion of the `amount` field failed"@,
        ListUnspentItemError::RedeemScript(_) => "conversion of the `redeem_script` field failed"@,
    }
}

impl ListUnspentItemError {
    /// A short description naming the failing field.
    pub fn message(&self) -> (r: &'static str)
        ensures
            r@ == list_unspent_item_error_text(*self),
    {
        match self {
            ListUnspentItemError::Txid(_) => "conversion of the `txid` field failed",
            ListUnspentItemError::Address(_) => "conversion of the `address` field failed",
            ListUnspentItemError::ScriptPubkey(_) => "conversion of the `script_pubkey` field failed",
            ListUnspentItemError::Amount(_) => "conversion of the `amount` field failed",
            ListUnspentItemError::RedeemScript(_) => "conversion of the `redeem_script` field failed",
        }
    }
}

} // verus!
