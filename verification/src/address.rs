//! Address fields: syntax validation through the bitcoin crate's address
//! parser, and the domain's checked/unchecked address types.
//!
//! The domain keeps the validated text; whether the text parses is decided by
//! the outside parser, so that decision is named rather than restated.

use vstd::prelude::*;

verus! {

#[verifier::external_type_specification]
#[verifier::external_body]
pub struct ExAddressParseError(bitcoin::address::ParseError);

/// Whether the bitcoin crate's address parser accepts this text.
pub uninterp spec fn addr_parse_ok(s: Seq<char>) -> bool;

/// Relies on bitcoin's `Address::from_str`: whether text is a syntactically
/// valid address is a function of the characters alone.  The parsed value
/// itself is not kept: the domain holds the validated text.
#[verifier::external_body]
fn parse_address_text(s: &str) -> (r: Result<(), bitcoin::address::ParseError>)
    ensures
        (r is Ok) == addr_parse_ok(s@),
{
    match s.parse::<bitcoin::Address<bitcoin::address::NetworkUnchecked>>() {
        Ok(_) => Ok(()),
        Err(e) => Err(e),
    }
}

/// Why address text failed to convert.
#[derive(Debug, Clone, Copy, PartialEq, Eq, Structural)]
pub enum AddressError {
    /// The text is not a syntactically valid address.
    InvalidAddressSyntax,
}

/// An address whose syntax was validated but whose network was not yet
/// assumed.
#[derive(Clone, Debug, PartialEq, Eq)]
pub struct UncheckedAddress {
    /// The validated address text.
    pub text: String,
}

/// An address validated for syntax and assumed to match the service's
/// configured network.
#[derive(Clone, Debug, PartialEq, Eq)]
pub struct CheckedAddress {
    /// The validated address text.
    pub text: String,
}

impl UncheckedAddress {
    /// The held text parses as an address.
    pub open spec fn well_formed(&self) -> bool {
        addr_parse_ok(self.text@)
    }

    /// Syntax-only conversion of an address field; succeeds exactly on text
    /// the address parser accepts, and keeps that text unchanged.
    pub fn from_text(text: String) -> (r: Result<UncheckedAddress, AddressError>)
        ensures
            r is Ok <==> addr_parse_ok(text@),
            r matches Ok(a) ==> a.text@ == text@ && a.well_formed(),
            r matches Err(e) ==> e == AddressError::InvalidAddressSyntax,
    {
        match parse_address_text(text.as_str()) {
            Ok(_) => Ok(UncheckedAddress { text }),
            Err(_) => Err(AddressError::InvalidAddressSyntax),
        }
    }

    /// Marks the address as belonging to the service's network: the service
    /// is trusted to return addresses valid for its own network, so no
    /// further check is made and the text is kept unchanged.
    pub fn assume_checked(self) -> (r: CheckedAddress)
        requires
            self.well_formed(),
        ensures
            r.text@ == self.text@,
            r.well_formed(),
    {
        CheckedAddress { text: self.text }
    }
}

impl CheckedAddress {
    /// The held text parses as an address.
    pub open spec fn well_formed(&self) -> bool {
        addr_parse_ok(self.text@)
    }

    /// Converts an address field and assumes the service's network in one
    /// step; succeeds exactly on text the address parser accepts, and keeps
    /// that text unchanged.
    pub fn from_text(text: String) -> (r: Result<CheckedAddress, AddressError>)
        ensures
            r is Ok <==> addr_parse_ok(text@),
            r matches Ok(a) ==> a.text@ == text@ && a.well_formed(),
            r matches Err(e) ==> e == AddressError::InvalidAddressSyntax,
    {
        match UncheckedAddress::from_text(text) {
            Ok(a) => Ok(a.assume_checked()),
            Err(e) => Err(e),
        }
    }
}

} // verus!
