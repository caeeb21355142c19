//! Validated byte-valued domain types: transaction ids, block hashes,
//! 160-bit key hashes, scripts, and witness data.

use vstd::prelude::*;
use crate::hexbytes::{HexError, hex_text_ok, hex_bytes, decode_hex, decode_hex_exact};

verus! {

/// A 32-byte transaction id, validated from hex text.
#[derive(Clone, Debug, PartialEq, Eq)]
pub struct Txid {
    /// The decoded id bytes.
    pub bytes: Vec<u8>,
}

impl Txid {
    /// The id holds exactly thirty-two bytes.
    pub open spec fn well_formed(&self) -> bool {
        self.bytes@.len() == 32
    }

    /// Converts a hex-encoded transaction id; exactly sixty-four hex digits
    /// succeed, well-formed hex of any other length is the length failure.
    pub fn from_hex(s: &str) -> (r: Result<Txid, HexError>)
        ensures
            r is Ok <==> hex_text_ok(s@) && hex_bytes(s@).len() == 32,
            r matches Ok(t) ==> t.bytes@ == hex_bytes(s@) && t.well_formed(),
            r matches Err(e) ==> (e == HexError::InvalidHex <==> !hex_text_ok(s@)),
            hex_text_ok(s@) && r is Err ==> r->Err_0 == HexError::WrongLength,
    {
        match decode_hex_exact(s, 32) {
            Ok(bytes) => Ok(Txid { bytes }),
            Err(e) => Err(e),
        }
    }
}

/// A 32-byte block hash, validated from hex text.
#[derive(Clone, Debug, PartialEq, Eq)]
pub struct BlockHash {
    /// The decoded hash bytes.
    pub bytes: Vec<u8>,
}

impl BlockHash {
    /// The hash holds exactly thirty-two bytes.
    pub open spec fn well_formed(&self) -> bool {
        self.bytes@.len() == 32
    }

    /// Converts a hex-encoded block hash; exactly sixty-four hex digits
    /// succeed, well-formed hex of any other length is the length failure.
    pub fn from_hex(s: &str) -> (r: Result<BlockHash, HexError>)
        ensures
            r is Ok <==> hex_text_ok(s@) && hex_bytes(s@).len() == 32,
            r matches Ok(t) ==> t.bytes@ == hex_bytes(s@) && t.well_formed(),
            r matches Err(e) ==> (e == HexError::InvalidHex <==> !hex_text_ok(s@)),
            hex_text_ok(s@) && r is Err ==> r->Err_0 == HexError::WrongLength,
    {
        match decode_hex_exact(s, 32) {
            Ok(bytes) => Ok(BlockHash { bytes }),
            Err(e) => Err(e),
        }
    }
}

/// A 20-byte hash of a key, validated from hex text.
#[derive(Clone, Debug, PartialEq, Eq)]
pub struct Hash160 {
    /// The decoded hash bytes.
    pub bytes: Vec<u8>,
}

impl Hash160 {
    /// The hash holds exactly twenty bytes.
    pub open spec fn well_formed(&self) -> bool {
        self.bytes@.len() == 20
    }

    /// Converts a hex-encoded 160-bit hash; exactly forty hex digits succeed,
    /// well-formed hex of any other length is the length failure.
    pub fn from_hex(s: &str) -> (r: Result<Hash160, HexError>)
        ensures
            r is Ok <==> hex_text_ok(s@) && hex_bytes(s@).len() == 20,
            r matches Ok(t) ==> t.bytes@ == hex_bytes(s@) && t.well_formed(),
            r matches Err(e) ==> (e == HexError::InvalidHex <==> !hex_text_ok(s@)),
            hex_text_ok(s@) && r is Err ==> r->Err_0 == HexError::WrongLength,
    {
        match decode_hex_exact(s, 20) {
            Ok(bytes) => Ok(Hash160 { bytes }),
            Err(e) => Err(e),
        }
    }
}

/// An output script: bytes of any length, validated from hex text.
#[derive(Clone, Debug, PartialEq, Eq)]
pub struct Script {
    /// The decoded script bytes.
    pub bytes: Vec<u8>,
}

impl Script {
    /// Converts a hex-encoded script of any length.
    pub fn from_hex(s: &str) -> (r: Result<Script, HexError>)
        ensures
            r is Ok <==> hex_text_ok(s@),
            r matches Ok(t) ==> t.bytes@ == hex_bytes(s@),
            r is Err ==> r->Err_0 == HexError::InvalidHex,
    {
        match decode_hex(s) {
            Ok(bytes) => Ok(Script { bytes }),
            Err(e) => Err(e),
        }
    }
}

/// Why a witness version number was rejected.
#[derive(Debug, Clone, Copy, PartialEq, Eq, Structural)]
pub enum WitnessVersionError {
    /// The number is above the largest defined witness version.
    TooHigh,
}

/// A segregated-witness version: zero through sixteen.
#[derive(Debug, Clone, Copy, PartialEq, Eq, Structural)]
pub struct WitnessVersion {
    /// The version number.
    pub num: u8,
}

impl WitnessVersion {
    /// The version number is at most sixteen.
    pub open spec fn well_formed(&self) -> bool {
        self.num <= 16
    }

    /// Converts a raw version number; zero through sixteen succeed.
    pub fn from_num(num: u8) -> (r: Result<WitnessVersion, WitnessVersionError>)
        ensures
            r is Ok <==> num <= 16,
            r matches Ok(v) ==> v.num == num && v.well_formed(),
            r matches Err(e) ==> e == WitnessVersionError::TooHigh,
    {
        if num <= 16 {
            Ok(WitnessVersion { num })
        } else {
            Err(WitnessVersionError::TooHigh)
        }
    }
}

/// Why witness program bytes were rejected.
#[derive(Debug, Clone, Copy, PartialEq, Eq, Structural)]
pub enum WitnessProgramError {
    /// The program is shorter than two or longer than forty bytes.
    InvalidLength,
    /// A version-zero program is neither twenty nor thirty-two bytes.
    InvalidSegwitV0Length,
}

/// The witness program bytes are acceptable for the witness version: two to
/// forty bytes, and exactly twenty or thirty-two bytes for version zero.
pub open spec fn witness_program_ok(version: WitnessVersion, program: Seq<u8>) -> bool {
    &&& 2 <= program.len() <= 40
    &&& version.num == 0 ==> (program.len() == 20 || program.len() == 32)
}

/// A witness program: a version and its program bytes, validated together.
#[derive(Clone, Debug, PartialEq, Eq)]
pub struct WitnessProgram {
    /// The witness version.
    pub version: WitnessVersion,
    /// The program bytes.
    pub program: Vec<u8>,
}

impl WitnessProgram {
    /// The bytes are acceptable for the version.
    pub open spec fn well_formed(&self) -> bool {
        self.version.well_formed() && witness_program_ok(self.version, self.program@)
    }

    /// Pairs a witness version with program bytes; programs of two to forty
    /// bytes succeed, except that version zero demands exactly twenty or
    /// thirty-two bytes.
    pub fn new(version: WitnessVersion, program: Vec<u8>) -> (r: Result<
        WitnessProgram,
        WitnessProgramError,
    >)
        ensures
            r is Ok <==> witness_program_ok(version, program@),
            r matches Ok(w) ==> w.version == version && w.program@ == program@,
            r matches Err(e) ==> (e == WitnessProgramError::InvalidLength <==> !(2 <= program@.len()
                <= 40)),
            2 <= program@.len() <= 40 && r is Err ==> r->Err_0
                == WitnessProgramError::InvalidSegwitV0Length,
    {
        if program.len() < 2 || program.len() > 40 {
            Err(WitnessProgramError::InvalidLength)
        } else if version.num == 0 && !(program.len() == 20 || program.len() == 32) {
            Err(WitnessProgramError::InvalidSegwitV0Length)
        } else {
            Ok(WitnessProgram { version, program })
        }
    }
}

} // verus!
