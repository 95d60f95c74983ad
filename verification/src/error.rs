//! The ways in which decoding an identification prefix can fail.

use vstd::prelude::*;

verus! {

/// Why an identification prefix was rejected.
///
/// The decoder stops at the first check that fails, so a value of this type
/// names the one check that failed, together with the byte that failed it.
#[derive(Debug, Clone, Copy, PartialEq, Eq, Structural)]
pub enum ElfError {
    /// The source ended before the bytes asked for could be read. A source
    /// held in memory fails in no other way, so no further cause is carried.
    IoFailure,
    /// The first four bytes are not the ELF magic number.
    BadMagic,
    /// The class byte is neither 1 nor 2; the byte is carried along.
    InvalidClass(u8),
    /// The encoding byte is neither 1 nor 2; the byte is carried along.
    InvalidEncoding(u8),
    /// The version byte is not the current version; the byte is carried along.
    InvalidVersion(u8),
}

/// What every fallible function of this crate returns.
pub type ElfResult<T> = Result<T, ElfError>;

/// The character that stands for the decimal digit `d`.
pub open spec fn digit(d: nat) -> char {
    seq!['0', '1', '2', '3', '4', '5', '6', '7', '8', '9'][d as int]
}

/// The decimal numeral of `n`, without leading zeros.
pub open spec fn decimal(n: nat) -> Seq<char>
    decreases n,
{
    if n < 10 {
        seq![digit(n)]
    } else {
        decimal(n / 10).push(digit(n % 10))
    }
}

/// A message that names what was wrong and the byte that was found: the
/// description, a colon and a space, and the byte as a decimal numeral.
pub open spec fn describe(what: Seq<char>, value: u8) -> Seq<char> {
    what + seq![':', ' '] + decimal(value as nat)
}

/// The numeral of one decimal digit.
fn digit_str(d: u8) -> (s: &'static str)
    requires
        d < 10,
    ensures
        s@ == seq![digit(d as nat)],
{
    let digits = "0123456789";
    proof {
        reveal_strlit("0123456789");
    }
    let from: usize = d as usize;
    digits.substring_ascii(from, from + 1)
}

/// The decimal numeral of a byte.
pub fn decimal_string(value: u8) -> (s: String)
    ensures
        s@ == decimal(value as nat),
{
    let mut s = String::new();
    if value >= 100 {
        s.append(digit_str(value / 100));
    }
    if value >= 10 {
        s.append(digit_str((value / 10) % 10));
    }
    s.append(digit_str(value % 10));
    proof {
        reveal_with_fuel(decimal, 3);
    }
    s
}

/// Builds the message for a byte that was rejected.
fn describe_string(what: &str, value: u8) -> (s: String)
    ensures
        s@ == describe(what@, value),
{
    let mut s = what.to_owned();
    proof {
        reveal_strlit(": ");
    }
    s.append(": ");
    let numeral = decimal_string(value);
    s.append(numeral.as_str());
    s
}

impl ElfError {
    /// The text of the message that describes this error.
    pub open spec fn text(&self) -> Seq<char> {
        match *self {
            ElfError::IoFailure => "failed to read ELF identification from file"@,
            ElfError::BadMagic => "magic number not found"@,
            ElfError::InvalidClass(value) => describe("invalid file class"@, value),
            ElfError::InvalidEncoding(value) => describe("invalid data encoding"@, value),
            ElfError::InvalidVersion(value) => describe("invalid header version"@, value),
        }
    }

    /// A message for the user. For a rejected byte it ends in the byte's
    /// decimal numeral.
    pub fn message(&self) -> (s: String)
        ensures
            s@ == self.text(),
    {
        match *self {
            ElfError::IoFailure => "failed to read ELF identification from file".to_owned(),
            ElfError::BadMagic => "magic number not found".to_owned(),
            ElfError::InvalidClass(value) => describe_string("invalid file class", value),
            ElfError::InvalidEncoding(value) => describe_string("invalid data encoding", value),
            ElfError::InvalidVersion(value) => describe_string("invalid header version", value),
        }
    }
}

} // verus!
