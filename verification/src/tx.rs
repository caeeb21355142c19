//! Raw-transaction fields: hex-encoded consensus-serialized transactions,
//! validated through the bitcoin crate's consensus decoder.
//!
//! The domain keeps the validated hex text; whether the text decodes is
//! decided by the outside decoder, so that decision is named rather than
//! restated.

use vstd::prelude::*;

verus! {

#[verifier::external_type_specification]
#[verifier::external_body]
pub struct ExTransaction(bitcoin::Transaction);

#[verifier::external_type_specification]
#[verifier::external_body]
pub struct ExFromHexError(bitcoin::consensus::encode::FromHexError);

/// Whether the bitcoin crate's consensus decoder accepts this hex text as a
/// transaction.
pub uninterp spec fn tx_hex_ok(s: Seq<char>) -> bool;

/// Relies on bitcoin's `consensus::encode::deserialize_hex` at transaction
/// type: whether hex text decodes to a transaction is a function of the
/// characters alone.
#[verifier::external_body]
fn decode_transaction_hex(s: &str) -> (r: Result<
    bitcoin::Transaction,
    bitcoin::consensus::encode::FromHexError,
>)
    ensures
        (r is Ok) == tx_hex_ok(s@),
{
    bitcoin::consensus::encode::deserialize_hex::<bitcoin::Transaction>(s)
}

/// Why raw-transaction text failed to convert.
#[derive(Debug, Clone, Copy, PartialEq, Eq, Structural)]
pub enum TransactionError {
    /// The text is not the hex of a consensus-serialized transaction.
    InvalidTransactionHex,
}

/// A raw transaction whose hex text was validated against the consensus
/// decoder.
#[derive(Clone, Debug, PartialEq, Eq)]
pub struct RawTransaction {
    /// The validated hex text.
    pub hex: String,
}

impl RawTransaction {
    /// The held text decodes as a transaction.
    pub open spec fn well_formed(&self) -> bool {
        tx_hex_ok(self.hex@)
    }

    /// Converts a raw-transaction field; succeeds exactly on text the
    /// consensus decoder accepts, and keeps that text unchanged.
    pub fn from_hex_text(hex: String) -> (r: Result<RawTransaction, TransactionError>)
        ensures
            r is Ok <==> tx_hex_ok(hex@),
            r matches Ok(t) ==> t.hex@ == hex@ && t.well_formed(),
            r matches Err(e) ==> e == TransactionError::InvalidTransactionHex,
    {
        match decode_transaction_hex(hex.as_str()) {
            Ok(_) => Ok(RawTransaction { hex }),
            Err(_) => Err(TransactionError::InvalidTransactionHex),
        }
    }
}

} // verus!
