//! The error values of the library.

use vstd::prelude::*;

verus! {

/// What went wrong.
#[derive(Debug, Clone, Copy, PartialEq, Eq, Structural)]
pub enum ZffErrorKind {
    /// A value ends before its last byte, or a count cannot be met.
    MalformedInput,
    /// A field contradicts another, or a length is impossible.
    MalformedHeader,
    /// The magic identifier read is not the one of the expected record.
    HeaderDecodeMismatchIdentifier,
    /// The encryption flag of a main header is out of place.
    HeaderDecodeEncryptedMainHeader,
    /// The tag of an optional field is not at the current position.
    HeaderDecoderKeyNotOnPosition,
    /// The selector of the symmetric cipher is unknown.
    UnknownEncryptionAlgorithm,
    /// The file type byte is unknown.
    UnknownFileType,
    /// An encrypted record was asked for without an encryption header.
    MissingEncryptionHeader,
    /// The segment holds no chunk of the requested number.
    DataDecodeChunkNumberNotInSegment,
    /// The ciphertext does not open under the given key or password.
    DecryptionFailed,
    /// The cipher refused the key or the message.
    EncryptionFailed,
    /// A segment file extension names no segment.
    FileExtensionParserError,
    /// The underlying byte source or codec failed.
    Io,
}

/// An error: its kind, and a detail such as the offending value.
#[derive(Debug, Clone)]
pub struct ZffError {
    pub kind: ZffErrorKind,
    pub details: String,
}

/// The character of a decimal digit.
pub open spec fn spec_digit(d: nat) -> char {
    (48 + d) as char
}

/// The decimal numeral of a number, without leading zeros.
pub open spec fn spec_decimal(n: nat) -> Seq<char>
    decreases n,
{
    if n < 10 {
        seq![spec_digit(n)]
    } else {
        spec_decimal(n / 10).push(spec_digit(n % 10))
    }
}

/// `to_string` of std on a `u64`: its decimal numeral.
#[verifier::external_body]
pub(crate) fn decimal_string(n: u64) -> (s: String)
    ensures
        s@ == spec_decimal(n as nat),
{
    n.to_string()
}

impl ZffError {
    /// Builds an error of the given kind with the given detail.
    pub fn new(kind: ZffErrorKind, details: String) -> (e: ZffError)
        ensures
            e.kind == kind,
            e.details == details,
    {
        ZffError { kind, details }
    }

    /// Builds an error of the given kind without a detail.
    pub fn of_kind(kind: ZffErrorKind) -> (e: ZffError)
        ensures
            e.kind == kind,
            e.details@ == Seq::<char>::empty(),
    {
        ZffError { kind, details: String::new() }
    }

    /// Builds an error of the given kind whose detail is a number, written
    /// in decimal.
    pub fn with_number(kind: ZffErrorKind, number: u64) -> (e: ZffError)
        ensures
            e.kind == kind,
            e.details@ == spec_decimal(number as nat),
    {
        ZffError { kind, details: decimal_string(number) }
    }

    /// The kind of this error.
    pub fn get_kind(&self) -> (kind: &ZffErrorKind)
        ensures
            *kind == self.kind,
    {
        &self.kind
    }

    /// The detail of this error.
    pub fn details(&self) -> (details: &String)
        ensures
            *details == self.details,
    {
        &self.details
    }
}

} // verus!
