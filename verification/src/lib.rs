//! Container codec and segment engine of the zff forensic image format.
//!
//! Every record of the format is a self-describing frame: a magic identifier,
//! the total length, a version byte and the payload. This crate encodes and
//! decodes those records, compresses and encrypts chunk payloads, unwraps the
//! password-protected data key and serves chunks of a segment by number.
//!
//! The contracts are stated over byte sequences and proved with Verus. For
//! each record there is a function that says which bytes it encodes to, a
//! function that says what bytes decode to, and a proof that decoding what
//! was encoded gives the record back. Compression and the ciphers are done
//! by other crates; what they give is named, not proved.
//!
//! - [`codec`]: single values in bytes.
//! - [`framing`]: the envelope of every record, and the trait of records.
//! - [`header`], [`footer`]: the records.
//! - [`compression`], [`encryption`]: the payload codecs and the key unwrapping.
//! - [`chunk`], [`segment`]: chunk records and the segment engine.
//! - [`reader`]: the byte source that decoders read from.
//! - [`metadata`], [`extension`], [`constants`], [`error`]: what the rest needs.

pub mod chunk;
pub mod codec;
pub mod compression;
pub mod constants;
pub mod encryption;
pub mod error;
pub mod extension;
pub mod footer;
pub mod framing;
pub mod header;
pub mod metadata;
pub mod reader;
pub mod segment;

pub use compression::{compress_buffer, decompress_buffer, CompressionAlgorithm};
pub use encryption::{Encryption, EncryptionAlgorithm, KDFScheme, PBEScheme};
pub use error::{ZffError, ZffErrorKind};
pub use footer::segment_footer::SegmentFooter;
pub use framing::HeaderCoding;
pub use header::chunk_header::ChunkHeader;
pub use header::compression_header::CompressionHeader;
pub use header::encryption_header::EncryptionHeader;
pub use header::file_header::{FileHeader, FileType};
pub use header::main_header::MainHeader;
pub use header::pbe_header::{KDFParameters, PBEHeader, PBKDF2SHA256Parameters, ScryptParameters};
pub use header::segment_header::SegmentHeader;
pub use metadata::MetadataMap;
pub use reader::Reader;
pub use segment::Segment;
