//! Key-valued fields: public keys, private keys in wallet-import format, and
//! hierarchical-derivation paths, validated through the bitcoin crate's
//! parsers.
//!
//! The domain keeps the validated text; whether the text parses is decided by
//! the outside parsers, so each decision is named rather than restated.

use vstd::prelude::*;

verus! {

#[verifier::external_type_specification]
#[verifier::external_body]
pub struct ExPublicKey(bitcoin::PublicKey);

#[verifier::external_type_specification]
#[verifier::external_body]
pub struct ExParsePublicKeyError(bitcoin::key::ParsePublicKeyError);

#[verifier::external_type_specification]
#[verifier::external_body]
pub struct ExPrivateKey(bitcoin::PrivateKey);

#[verifier::external_type_specification]
#[verifier::external_body]
pub struct ExFromWifError(bitcoin::key::FromWifError);

#[verifier::external_type_specification]
#[verifier::external_body]
pub struct ExDerivationPath(bitcoin::bip32::DerivationPath);

#[verifier::external_type_specification]
#[verifier::external_body]
pub struct ExBip32Error(bitcoin::bip32::Error);

/// Whether the bitcoin crate's public-key parser accepts this text.
pub uninterp spec fn pubkey_parse_ok(s: Seq<char>) -> bool;

/// Whether the bitcoin crate's wallet-import-format parser accepts this text.
pub uninterp spec fn wif_parse_ok(s: Seq<char>) -> bool;

/// Whether the bitcoin crate's derivation-path parser accepts this text.
pub uninterp spec fn derivation_path_parse_ok(s: Seq<char>) -> bool;

/// Relies on bitcoin's `PublicKey::from_str`: whether text is a valid public
/// key is a function of the characters alone.
#[verifier::external_body]
fn parse_public_key_text(s: &str) -> (r: Result<
    bitcoin::PublicKey,
    bitcoin::key::ParsePublicKeyError,
>)
    ensures
        (r is Ok) == pubkey_parse_ok(s@),
{
    s.parse::<bitcoin::PublicKey>()
}

/// Relies on bitcoin's `PrivateKey::from_wif`: whether text is a valid
/// wallet-import-format key is a function of the characters alone.
#[verifier::external_body]
fn parse_private_key_wif(s: &str) -> (r: Result<bitcoin::PrivateKey, bitcoin::key::FromWifError>)
    ensures
        (r is Ok) == wif_parse_ok(s@),
{
    bitcoin::PrivateKey::from_wif(s)
}

/// Relies on bitcoin's `DerivationPath::from_str`: whether text is a valid
/// derivation path is a function of the characters alone.
#[verifier::external_body]
fn parse_derivation_path_text(s: &str) -> (r: Result<
    bitcoin::bip32::DerivationPath,
    bitcoin::bip32::Error,
>)
    ensures
        (r is Ok) == derivation_path_parse_ok(s@),
{
    s.parse::<bitcoin::bip32::DerivationPath>()
}

/// Why public-key text failed to convert.
#[derive(Debug, Clone, Copy, PartialEq, Eq, Structural)]
pub enum PublicKeyError {
    /// The text is not a valid public key.
    InvalidPublicKey,
}

/// Why private-key text failed to convert.
#[derive(Debug, Clone, Copy, PartialEq, Eq, Structural)]
pub enum PrivateKeyError {
    /// The text is not a valid wallet-import-format key.
    InvalidWif,
}

/// Why derivation-path text failed to convert.
#[derive(Debug, Clone, Copy, PartialEq, Eq, Structural)]
pub enum DerivationPathError {
    /// The text is not a valid derivation path.
    InvalidPath,
}

/// A public key whose text was validated.
#[derive(Clone, Debug, PartialEq, Eq)]
pub struct PubKey {
    /// The validated key text.
    pub text: String,
}

impl PubKey {
    /// The held text parses as a public key.
    pub open spec fn well_formed(&self) -> bool {
        pubkey_parse_ok(self.text@)
    }

    /// Converts a public-key field; succeeds exactly on text the key parser
    /// accepts, and keeps that text unchanged.
    pub fn from_text(text: String) -> (r: Result<PubKey, PublicKeyError>)
        ensures
            r is Ok <==> pubkey_parse_ok(text@),
            r matches Ok(k) ==> k.text@ == text@ && k.well_formed(),
            r matches Err(e) ==> e == PublicKeyError::InvalidPublicKey,
    {
        match parse_public_key_text(text.as_str()) {
            Ok(_) => Ok(PubKey { text }),
            Err(_) => Err(PublicKeyError::InvalidPublicKey),
        }
    }
}

/// A private key in wallet-import format whose text was validated.
#[derive(Clone, Debug, PartialEq, Eq)]
pub struct PrivKey {
    /// The validated wallet-import-format text.
    pub wif: String,
}

impl PrivKey {
    /// The held text parses as a wallet-import-format key.
    pub open spec fn well_formed(&self) -> bool {
        wif_parse_ok(self.wif@)
    }

    /// Converts a private-key field; succeeds exactly on text the
    /// wallet-import-format parser accepts, and keeps that text unchanged.
    pub fn from_wif_text(wif: String) -> (r: Result<PrivKey, PrivateKeyError>)
        ensures
            r is Ok <==> wif_parse_ok(wif@),
            r matches Ok(k) ==> k.wif@ == wif@ && k.well_formed(),
            r matches Err(e) ==> e == PrivateKeyError::InvalidWif,
    {
        match parse_private_key_wif(wif.as_str()) {
            Ok(_) => Ok(PrivKey { wif }),
            Err(_) => Err(PrivateKeyError::InvalidWif),
        }
    }
}

/// A hierarchical-derivation path whose text was validated.
#[derive(Clone, Debug, PartialEq, Eq)]
pub struct DerivPath {
    /// The validated path text.
    pub text: String,
}

impl DerivPath {
    /// The held text parses as a derivation path.
    pub open spec fn well_formed(&self) -> bool {
        derivation_path_parse_ok(self.text@)
    }

    /// Converts a derivation-path field; succeeds exactly on text the path
    /// parser accepts, and keeps that text unchanged.
    pub fn from_text(text: String) -> (r: Result<DerivPath, DerivationPathError>)
        ensures
            r is Ok <==> derivation_path_parse_ok(text@),
            r matches Ok(p) ==> p.text@ == text@ && p.well_formed(),
            r matches Err(e) ==> e == DerivationPathError::InvalidPath,
    {
        match parse_derivation_path_text(text.as_str()) {
            Ok(_) => Ok(DerivPath { text }),
            Err(_) => Err(DerivationPathError::InvalidPath),
        }
    }
}

} // verus!
