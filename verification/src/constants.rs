//! Fixed values of the container format.

use vstd::prelude::*;

verus! {

/// Magic identifier of the main header.
pub const HEADER_IDENTIFIER_MAIN_HEADER: u32 = 0x7A66666d;

/// Magic identifier of a main header whose inner content is encrypted.
pub const HEADER_IDENTIFIER_ENCRYPTED_MAIN_HEADER: u32 = 0x7a666645;

/// Magic identifier of the description header.
pub const HEADER_IDENTIFIER_DESCRIPTION_HEADER: u32 = 0x7A666664;

/// Magic identifier of the split header, which opens every segment.
pub const HEADER_IDENTIFIER_SPLIT_HEADER: u32 = 0x7A666673;

/// Magic identifier of the segment header (the split header of a segment).
pub const HEADER_IDENTIFIER_SEGMENT_HEADER: u32 = 0x7A666673;

/// Magic identifier of the compression header.
pub const HEADER_IDENTIFIER_COMPRESSION_HEADER: u32 = 0x7A666663;

/// Magic identifier of the password-based encryption header.
pub const HEADER_IDENTIFIER_PBE_HEADER: u32 = 0x7A666670;

/// Magic identifier of the encryption header.
pub const HEADER_IDENTIFIER_ENCRYPTION_HEADER: u32 = 0x7A666665;

/// Magic identifier of a chunk header.
pub const HEADER_IDENTIFIER_CHUNK_HEADER: u32 = 0x7A666643;

/// Magic identifier of a file header.
pub const HEADER_IDENTIFIER_FILE_HEADER: u32 = 0x7A666666;

/// Magic identifier of the segment footer.
pub const FOOTER_IDENTIFIER_SEGMENT_FOOTER: u32 = 0x7A666646;

/// Magic identifier of the PBKDF2-SHA256 parameter block.
pub const PBE_KDF_PARAMETERS: u32 = 0x6b646670;

/// Magic identifier of the Scrypt parameter block.
pub const PBE_KDF_PARAMETERS_SCRYPT: u32 = 0x6b646673;

/// Encoding key of the case number.
pub const ENCODING_KEY_CASE_NUMBER: &'static str = "cn";

/// Encoding key of the evidence number.
pub const ENCODING_KEY_EVIDENCE_NUMBER: &'static str = "ev";

/// Encoding key of the examiner name.
pub const ENCODING_KEY_EXAMINER_NAME: &'static str = "ex";

/// Encoding key of the notes.
pub const ENCODING_KEY_NOTES: &'static str = "no";

/// Encoding key of the acquisition date.
pub const ENCODING_KEY_ACQISITION_DATE: &'static str = "ad";

/// Tag that precedes the description notes of a main header.
pub const ENCODING_KEY_DESCRIPTION_NOTES: u32 = 0x64657363;

/// Tag that precedes the threshold of a compression header.
pub const ENCODING_KEY_COMPRESSION_THRESHOLD: u32 = 0x74687273;

/// First character of every segment file extension.
pub const FILE_EXTENSION_START: char = 'z';

/// Extension of the first segment file.
pub const FILE_EXTENSION_FIRST_VALUE: &'static str = "z01";

/// Message of the error raised for a malformed segment file extension.
pub const FILE_EXTENSION_PARSER_ERROR: &'static str = "Error while trying to parse extension value";

/// Default chunk-size exponent: chunks of 32 KiB.
pub const DEFAULT_CHUNK_SIZE: u8 = 15;

/// Number of bytes of a magic identifier.
pub const DEFAULT_LENGTH_HEADER_IDENTIFIER: usize = 4;

/// Number of bytes of the length field of a frame.
pub const DEFAULT_LENGTH_VALUE_HEADER_LENGTH: usize = 8;

/// Bit of the chunk flag byte that marks a read error.
pub const ERROR_FLAG_VALUE: u8 = 1;

/// Bit of the chunk flag byte that marks a compressed payload.
pub const COMPRESSION_FLAG_VALUE: u8 = 2;

/// Number of bytes of an Ed25519 signature.
pub const SIGNATURE_LENGTH: usize = 64;

} // verus!
