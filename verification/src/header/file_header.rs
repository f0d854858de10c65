//! The header of a file that was captured into the container.

use vstd::prelude::*;
use vstd::utf8::encode_utf8;
use crate::codec::{
    agrees, decode_bytes, decode_string, decode_u64, decode_u8, encode_bytes, encode_string,
    encode_u64, encode_u8, lemma_decode_bytes, lemma_decode_string, lemma_decode_u64,
    lemma_decode_u8, lemma_stands_at_self, lemma_stands_at_split, spec_decode_bytes,
    spec_decode_string, spec_decode_u64, spec_decode_u8, spec_encode_bytes, spec_encode_string,
    spec_encode_u64, spec_encode_u8, stands_at,
};
use crate::constants::HEADER_IDENTIFIER_FILE_HEADER;
use crate::encryption::{spec_aead_decrypt, spec_aead_encrypt, Encryption, EncryptionAlgorithm};
use crate::error::{spec_decimal, ZffError, ZffErrorKind};
use crate::framing::HeaderCoding;
use crate::framing::{decode_frame, encode_frame, lemma_decode_frame, spec_decode_frame, spec_frame};
use crate::header::encryption_header::EncryptionHeader;
use crate::metadata::{
    lemma_decode_map, spec_decode_map, spec_encode_map, spec_entries_encodable,
    spec_keys_distinct, MetadataMap,
};
use crate::reader::{reads, Reader};

verus! {

/// The types of files of the format.
#[derive(Debug, Clone, Copy, PartialEq, Eq, Structural, Hash)]
pub enum FileType {
    /// A regular file; 1 in a header.
    File,
    /// A directory; 2 in a header.
    Directory,
    /// A symbolic link; 3 in a header.
    Symlink,
    /// A hard link; 4 in a header.
    Hardlink,
}

impl FileType {
    /// The byte that stands for this file type in a header.
    pub open spec fn spec_selector(self) -> u8 {
        match self {
            FileType::File => 1,
            FileType::Directory => 2,
            FileType::Symlink => 3,
            FileType::Hardlink => 4,
        }
    }

    /// The file type that a byte stands for, if any.
    pub open spec fn spec_of_selector(selector: u8) -> Option<FileType> {
        if selector == 1 {
            Some(FileType::File)
        } else if selector == 2 {
            Some(FileType::Directory)
        } else if selector == 3 {
            Some(FileType::Symlink)
        } else if selector == 4 {
            Some(FileType::Hardlink)
        } else {
            None
        }
    }

    /// The name of this file type.
    pub open spec fn spec_name(self) -> Seq<char> {
        match self {
            FileType::File => "File"@,
            FileType::Directory => "Directory"@,
            FileType::Symlink => "Symlink"@,
            FileType::Hardlink => "Hardlink"@,
        }
    }

    /// The byte that stands for this file type in a header.
    pub fn selector(&self) -> (selector: u8)
        ensures
            selector == self.spec_selector(),
    {
        match self {
            FileType::File => 1,
            FileType::Directory => 2,
            FileType::Symlink => 3,
            FileType::Hardlink => 4,
        }
    }

    /// The file type that a byte stands for, if any.
    pub fn from_selector(selector: u8) -> (file_type: Option<FileType>)
        ensures
            file_type == Self::spec_of_selector(selector),
    {
        if selector == 1 {
            Some(FileType::File)
        } else if selector == 2 {
            Some(FileType::Directory)
        } else if selector == 3 {
            Some(FileType::Symlink)
        } else if selector == 4 {
            Some(FileType::Hardlink)
        } else {
            None
        }
    }

    /// The name of this file type, as it is shown.
    pub fn name(&self) -> (name: String)
        ensures
            name@ == self.spec_name(),
    {
        match self {
            FileType::File => "File".to_owned(),
            FileType::Directory => "Directory".to_owned(),
            FileType::Symlink => "Symlink".to_owned(),
            FileType::Hardlink => "Hardlink".to_owned(),
        }
    }
}

/// Each captured file has a file header with its metadata: the number of
/// the file in the container, its type, its name without the path, the
/// number of its parent directory (0 for a file in the root directory),
/// its four timestamps, and a map that extends the metadata as the
/// filesystem of the source requires.
#[derive(Debug, Clone, PartialEq, Eq)]
pub struct FileHeader {
    version: u8,
    file_number: u64,
    file_type: FileType,
    filename: String,
    parent_file_number: u64,
    atime: u64,
    mtime: u64,
    ctime: u64,
    btime: u64,
    metadata_ext: MetadataMap,
}

/// What a file header says.
pub struct FileHeaderView {
    pub version: u8,
    pub file_number: u64,
    pub file_type: FileType,
    pub filename: Seq<char>,
    pub parent_file_number: u64,
    pub atime: u64,
    pub mtime: u64,
    pub ctime: u64,
    pub btime: u64,
    pub metadata_ext: Seq<(Seq<char>, Seq<char>)>,
}

impl View for FileHeader {
    type V = FileHeaderView;

    closed spec fn view(&self) -> FileHeaderView {
        FileHeaderView {
            version: self.version,
            file_number: self.file_number,
            file_type: self.file_type,
            filename: self.filename@,
            parent_file_number: self.parent_file_number,
            atime: self.atime,
            mtime: self.mtime,
            ctime: self.ctime,
            btime: self.btime,
            metadata_ext: self.metadata_ext@,
        }
    }
}

/// The inner content of a file header, which is what header encryption
/// hides: file type, name, number of the parent, the four timestamps, and
/// the map of extended metadata.
pub open spec fn spec_file_header_inner(h: FileHeaderView) -> Seq<u8> {
    spec_encode_u8(h.file_type.spec_selector()) + spec_encode_string(h.filename) + spec_encode_u64(
        h.parent_file_number,
    ) + spec_encode_u64(h.atime) + spec_encode_u64(h.mtime) + spec_encode_u64(h.ctime)
        + spec_encode_u64(h.btime) + spec_encode_map(h.metadata_ext)
}

/// The content of a file header's frame: version, file number, then the
/// inner content.
pub open spec fn spec_file_header_content(h: FileHeaderView) -> Seq<u8> {
    spec_encode_u8(h.version) + spec_encode_u64(h.file_number) + spec_file_header_inner(h)
}

/// The framed file header.
pub open spec fn spec_file_header_bytes(h: FileHeaderView) -> Seq<u8> {
    spec_frame(HEADER_IDENTIFIER_FILE_HEADER, spec_file_header_content(h))
}

/// The content of the frame of a file header whose inner content is
/// encrypted to `ciphertext`: version and file number stay in the clear.
pub open spec fn spec_file_header_encrypted_content(h: FileHeaderView, ciphertext: Seq<u8>) -> Seq<
    u8,
> {
    spec_encode_u8(h.version) + spec_encode_u64(h.file_number) + spec_encode_bytes(ciphertext)
}

/// The framed file header whose inner content is encrypted to `ciphertext`.
pub open spec fn spec_file_header_encrypted_bytes(h: FileHeaderView, ciphertext: Seq<u8>) -> Seq<
    u8,
> {
    spec_frame(HEADER_IDENTIFIER_FILE_HEADER, spec_file_header_encrypted_content(h, ciphertext))
}

impl FileHeaderView {
    /// The name and the metadata can be encoded, no key of the metadata
    /// occurs twice, and the frame has a length that eight bytes can hold.
    pub open spec fn wf(self) -> bool {
        &&& encode_utf8(self.filename).len() <= u64::MAX
        &&& spec_entries_encodable(self.metadata_ext)
        &&& spec_keys_distinct(self.metadata_ext)
        &&& 12 + spec_file_header_content(self).len() <= u64::MAX
    }
}

/// The file header of the given version and file number whose inner content
/// stands at `pos`. A byte that stands for no file type is `UnknownFileType`.
pub open spec fn spec_decode_file_header_inner(
    data: Seq<u8>,
    pos: int,
    version: u8,
    file_number: u64,
) -> Result<FileHeaderView, ZffErrorKind> {
    match spec_decode_u8(data, pos) {
        Ok((selector, pos1)) => match FileType::spec_of_selector(selector) {
            Some(file_type) => match spec_decode_string(data, pos1) {
                Ok((filename, pos2)) => match spec_decode_u64(data, pos2) {
                    Ok((parent_file_number, pos3)) => match spec_decode_u64(data, pos3) {
                        Ok((atime, pos4)) => match spec_decode_u64(data, pos4) {
                            Ok((mtime, pos5)) => match spec_decode_u64(data, pos5) {
                                Ok((ctime, pos6)) => match spec_decode_u64(data, pos6) {
                                    Ok((btime, pos7)) => match spec_decode_map(data, pos7) {
                                        Ok((metadata_ext, _)) => Ok(
                                            FileHeaderView {
                                                version,
                                                file_number,
                                                file_type,
                                                filename,
                                                parent_file_number,
                                                atime,
                                                mtime,
                                                ctime,
                                                btime,
                                                metadata_ext,
                                            },
                                        ),
                                        Err(kind) => Err(kind),
                                    },
                                    Err(kind) => Err(kind),
                                },
                                Err(kind) => Err(kind),
                            },
                            Err(kind) => Err(kind),
                        },
                        Err(kind) => Err(kind),
                    },
                    Err(kind) => Err(kind),
                },
                Err(kind) => Err(kind),
            },
            None => Err(ZffErrorKind::UnknownFileType),
        },
        Err(kind) => Err(kind),
    }
}

/// The file header that the content of a frame spells.
pub open spec fn spec_decode_file_header_content(data: Seq<u8>) -> Result<
    FileHeaderView,
    ZffErrorKind,
> {
    match spec_decode_u8(data, 0) {
        Ok((version, pos1)) => match spec_decode_u64(data, pos1) {
            Ok((file_number, pos2)) => spec_decode_file_header_inner(data, pos2, version, file_number),
            Err(kind) => Err(kind),
        },
        Err(kind) => Err(kind),
    }
}

/// The file header framed at `pos`, and where its frame ends.
pub open spec fn spec_decode_file_header(data: Seq<u8>, pos: int) -> Result<
    (FileHeaderView, int),
    ZffErrorKind,
> {
    match spec_decode_frame(data, pos, HEADER_IDENTIFIER_FILE_HEADER) {
        Ok((content, end)) => match spec_decode_file_header_content(content) {
            Ok(h) => Ok((h, end)),
            Err(kind) => Err(kind),
        },
        Err(kind) => Err(kind),
    }
}

/// The file header that the content of a frame spells when its inner
/// content is encrypted: version and file number are read in the clear, the
/// rest is decrypted and then decoded. A ciphertext that does not open is
/// `DecryptionFailed`.
pub open spec fn spec_decode_encrypted_file_header_content(
    data: Seq<u8>,
    key: Seq<u8>,
    nonce: Seq<u8>,
    algorithm: EncryptionAlgorithm,
) -> Result<FileHeaderView, ZffErrorKind> {
    match spec_decode_u8(data, 0) {
        Ok((version, pos1)) => match spec_decode_u64(data, pos1) {
            Ok((file_number, pos2)) => match spec_decode_bytes(data, pos2) {
                Ok((ciphertext, _)) => match spec_aead_decrypt(algorithm, key, nonce, ciphertext) {
                    Some(inner) => spec_decode_file_header_inner(inner, 0, version, file_number),
                    None => Err(ZffErrorKind::DecryptionFailed),
                },
                Err(kind) => Err(kind),
            },
            Err(kind) => Err(kind),
        },
        Err(kind) => Err(kind),
    }
}

/// The encrypted file header framed at `pos`, and where its frame ends.
pub open spec fn spec_decode_encrypted_file_header(
    data: Seq<u8>,
    pos: int,
    key: Seq<u8>,
    nonce: Seq<u8>,
    algorithm: EncryptionAlgorithm,
) -> Result<(FileHeaderView, int), ZffErrorKind> {
    match spec_decode_frame(data, pos, HEADER_IDENTIFIER_FILE_HEADER) {
        Ok((content, end)) => match spec_decode_encrypted_file_header_content(
            content,
            key,
            nonce,
            algorithm,
        ) {
            Ok(h) => Ok((h, end)),
            Err(kind) => Err(kind),
        },
        Err(kind) => Err(kind),
    }
}

/// The type byte at `pos`, where it stands for no file type.
pub open spec fn spec_unknown_file_type(data: Seq<u8>, pos: int) -> Option<u8> {
    match spec_decode_u8(data, pos) {
        Ok((selector, _)) => if FileType::spec_of_selector(selector) is None {
            Some(selector)
        } else {
            None
        },
        Err(_) => None,
    }
}

/// The type byte of the content of a file header's frame, where it stands
/// for no file type.
pub open spec fn spec_unknown_file_type_in_content(data: Seq<u8>) -> Option<u8> {
    match spec_decode_u8(data, 0) {
        Ok((_, pos1)) => match spec_decode_u64(data, pos1) {
            Ok((_, pos2)) => spec_unknown_file_type(data, pos2),
            Err(_) => None,
        },
        Err(_) => None,
    }
}

/// The type byte of the file header framed at `pos`, where it stands for no
/// file type.
pub open spec fn spec_unknown_file_type_framed(data: Seq<u8>, pos: int) -> Option<u8> {
    match spec_decode_frame(data, pos, HEADER_IDENTIFIER_FILE_HEADER) {
        Ok((content, _)) => spec_unknown_file_type_in_content(content),
        Err(_) => None,
    }
}

/// The type byte of the encrypted file header framed at `pos`, as it is
/// after decryption, where it stands for no file type.
pub open spec fn spec_unknown_file_type_encrypted(
    data: Seq<u8>,
    pos: int,
    key: Seq<u8>,
    nonce: Seq<u8>,
    algorithm: EncryptionAlgorithm,
) -> Option<u8> {
    match spec_decode_frame(data, pos, HEADER_IDENTIFIER_FILE_HEADER) {
        Ok((content, _)) => match spec_decode_u8(content, 0) {
            Ok((_, pos1)) => match spec_decode_u64(content, pos1) {
                Ok((_, pos2)) => match spec_decode_bytes(content, pos2) {
                    Ok((ciphertext, _)) => match spec_aead_decrypt(
                        algorithm,
                        key,
                        nonce,
                        ciphertext,
                    ) {
                        Some(inner) => spec_unknown_file_type(inner, 0),
                        None => None,
                    },
                    Err(_) => None,
                },
                Err(_) => None,
            },
            Err(_) => None,
        },
        Err(_) => None,
    }
}

/// An unknown file type is reported as `UnknownFileType`, with the type
/// byte in decimal as the detail of the error.
pub open spec fn names_unknown_file_type<T>(res: Result<T, ZffError>, unknown: Option<u8>) -> bool {
    match unknown {
        Some(selector) => res matches Err(e) && e.kind == ZffErrorKind::UnknownFileType
            && e.details@ == spec_decimal(selector as nat),
        None => true,
    }
}

/// The inner content of a file header that stands at `pos` is read back as
/// that header.
#[verifier::rlimit(50)]
pub proof fn lemma_file_header_inner_roundtrip(data: Seq<u8>, pos: int, h: FileHeaderView)
    requires
        h.wf(),
        stands_at(data, pos, spec_file_header_inner(h)),
    ensures
        spec_decode_file_header_inner(data, pos, h.version, h.file_number) == Ok::<
            _,
            ZffErrorKind,
        >(h),
{
    let a = spec_encode_u8(h.file_type.spec_selector());
    let b = spec_encode_string(h.filename);
    let c = spec_encode_u64(h.parent_file_number);
    let d = spec_encode_u64(h.atime);
    let e = spec_encode_u64(h.mtime);
    let f = spec_encode_u64(h.ctime);
    let g = spec_encode_u64(h.btime);
    let m = spec_encode_map(h.metadata_ext);
    vstd::bytes::lemma_auto_spec_u64_to_from_le_bytes();
    lemma_stands_at_split(data, pos, a + b + c + d + e + f + g, m);
    lemma_stands_at_split(data, pos, a + b + c + d + e + f, g);
    lemma_stands_at_split(data, pos, a + b + c + d + e, f);
    lemma_stands_at_split(data, pos, a + b + c + d, e);
    lemma_stands_at_split(data, pos, a + b + c, d);
    lemma_stands_at_split(data, pos, a + b, c);
    lemma_stands_at_split(data, pos, a, b);
    let pos1 = pos + 1;
    let pos2 = pos1 + b.len();
    lemma_decode_u8(data, pos, h.file_type.spec_selector());
    lemma_decode_string(data, pos1, h.filename);
    lemma_decode_u64(data, pos2, h.parent_file_number);
    lemma_decode_u64(data, pos2 + 8, h.atime);
    lemma_decode_u64(data, pos2 + 16, h.mtime);
    lemma_decode_u64(data, pos2 + 24, h.ctime);
    lemma_decode_u64(data, pos2 + 32, h.btime);
    lemma_decode_map(data, pos2 + 40, h.metadata_ext);
}

/// Decoding the content that a file header encodes to gives that header.
pub proof fn lemma_file_header_content_roundtrip(h: FileHeaderView)
    requires
        h.wf(),
    ensures
        spec_decode_file_header_content(spec_file_header_content(h)) == Ok::<_, ZffErrorKind>(h),
{
    let data = spec_file_header_content(h);
    let a = spec_encode_u8(h.version);
    let b = spec_encode_u64(h.file_number);
    vstd::bytes::lemma_auto_spec_u64_to_from_le_bytes();
    lemma_stands_at_self(data);
    lemma_stands_at_split(data, 0, a + b, spec_file_header_inner(h));
    lemma_stands_at_split(data, 0, a, b);
    lemma_decode_u8(data, 0, h.version);
    lemma_decode_u64(data, 1, h.file_number);
    lemma_file_header_inner_roundtrip(data, 9, h);
}

/// Decoding the bytes that a file header encodes to gives that header.
pub proof fn lemma_file_header_roundtrip(data: Seq<u8>, pos: int, h: FileHeaderView)
    requires
        h.wf(),
        stands_at(data, pos, spec_file_header_bytes(h)),
    ensures
        spec_decode_file_header(data, pos) == Ok::<_, ZffErrorKind>(
            (h, pos + spec_file_header_bytes(h).len()),
        ),
{
    lemma_decode_frame(data, pos, HEADER_IDENTIFIER_FILE_HEADER, spec_file_header_content(h));
    lemma_file_header_content_roundtrip(h);
}

/// Where the cipher opens what it sealed, decoding the encrypted bytes of
/// a file header under the same key gives that header.
#[verifier::rlimit(50)]
pub proof fn lemma_file_header_encrypted_roundtrip(
    data: Seq<u8>,
    pos: int,
    h: FileHeaderView,
    key: Seq<u8>,
    nonce: Seq<u8>,
    algorithm: EncryptionAlgorithm,
    ciphertext: Seq<u8>,
)
    requires
        h.wf(),
        spec_aead_encrypt(algorithm, key, nonce, spec_file_header_inner(h)) == Some(ciphertext),
        spec_aead_decrypt(algorithm, key, nonce, ciphertext) == Some(spec_file_header_inner(h)),
        29 + ciphertext.len() <= u64::MAX,
        stands_at(data, pos, spec_file_header_encrypted_bytes(h, ciphertext)),
    ensures
        spec_decode_encrypted_file_header(data, pos, key, nonce, algorithm) == Ok::<
            _,
            ZffErrorKind,
        >((h, pos + spec_file_header_encrypted_bytes(h, ciphertext).len())),
{
    let content = spec_file_header_encrypted_content(h, ciphertext);
    let a = spec_encode_u8(h.version);
    let b = spec_encode_u64(h.file_number);
    let c = spec_encode_bytes(ciphertext);
    vstd::bytes::lemma_auto_spec_u64_to_from_le_bytes();
    lemma_decode_frame(data, pos, HEADER_IDENTIFIER_FILE_HEADER, content);
    lemma_stands_at_self(content);
    lemma_stands_at_split(content, 0, a + b, c);
    lemma_stands_at_split(content, 0, a, b);
    lemma_decode_u8(content, 0, h.version);
    lemma_decode_u64(content, 1, h.file_number);
    lemma_decode_bytes(content, 9, ciphertext);
    let inner = spec_file_header_inner(h);
    lemma_stands_at_self(inner);
    lemma_file_header_inner_roundtrip(inner, 0, h);
}

impl FileHeader {
    /// A new file header from the given values.
    pub fn new(
        version: u8,
        file_number: u64,
        file_type: FileType,
        filename: String,
        parent_file_number: u64,
        atime: u64,
        mtime: u64,
        ctime: u64,
        btime: u64,
        metadata_ext: MetadataMap,
    ) -> (h: FileHeader)
        ensures
            h@ == (FileHeaderView {
                version,
                file_number,
                file_type,
                filename: filename@,
                parent_file_number,
                atime,
                mtime,
                ctime,
                btime,
                metadata_ext: metadata_ext@,
            }),
    {
        Self {
            version,
            file_number,
            file_type,
            filename,
            parent_file_number,
            atime,
            mtime,
            ctime,
            btime,
            metadata_ext,
        }
    }

    /// The number of the file in the container.
    pub fn file_number(&self) -> (number: u64)
        ensures
            number == self@.file_number,
    {
        self.file_number
    }

    /// The type of the file.
    pub fn file_type(&self) -> (file_type: FileType)
        ensures
            file_type == self@.file_type,
    {
        self.file_type
    }

    /// The name of the file, without its path.
    pub fn filename(&self) -> (name: &str)
        ensures
            name@ == self@.filename,
    {
        self.filename.as_str()
    }

    /// The file number of the parent directory; 0 in the root directory.
    pub fn parent_file_number(&self) -> (number: u64)
        ensures
            number == self@.parent_file_number,
    {
        self.parent_file_number
    }

    /// The time of the last access.
    pub fn atime(&self) -> (time: u64)
        ensures
            time == self@.atime,
    {
        self.atime
    }

    /// The time of the last modification.
    pub fn mtime(&self) -> (time: u64)
        ensures
            time == self@.mtime,
    {
        self.mtime
    }

    /// The time of the last change of the metadata.
    pub fn ctime(&self) -> (time: u64)
        ensures
            time == self@.ctime,
    {
        self.ctime
    }

    /// The time of creation.
    pub fn btime(&self) -> (time: u64)
        ensures
            time == self@.btime,
    {
        self.btime
    }

    /// The map of extended metadata.
    pub fn metadata_ext(&self) -> (metadata: &MetadataMap)
        ensures
            metadata@ == self@.metadata_ext,
    {
        &self.metadata_ext
    }

    /// Makes the file a hard link, unless it is a symbolic link: a symbolic
    /// link stays what it is.
    pub fn transform_to_hardlink(&mut self)
        ensures
            final(self)@ == (FileHeaderView {
                file_type: if old(self)@.file_type == FileType::Symlink {
                    FileType::Symlink
                } else {
                    FileType::Hardlink
                },
                ..old(self)@
            }),
    {
        if self.file_type != FileType::Symlink {
            self.file_type = FileType::Hardlink
        }
    }

    /// The framed header with its inner content encrypted under `key`, the
    /// nonce and the cipher of the encryption header. A key or content that
    /// the cipher refuses is `EncryptionFailed`.
    pub fn encode_encrypted_header_directly(
        &self,
        key: &[u8],
        encryption_header: EncryptionHeader,
    ) -> (res: Result<Vec<u8>, ZffError>)
        ensures
            match spec_aead_encrypt(
                encryption_header@.algorithm,
                key@,
                encryption_header@.nonce,
                spec_file_header_inner(self@),
            ) {
                Some(ciphertext) => res matches Ok(v) && v@ == spec_file_header_encrypted_bytes(
                    self@,
                    ciphertext,
                ),
                None => res matches Err(e) && e.kind == ZffErrorKind::EncryptionFailed,
            },
    {
        let encoded_header = self.encode_encrypted_header(key, encryption_header)?;
        Ok(encode_frame(HEADER_IDENTIFIER_FILE_HEADER, encoded_header.as_slice()))
    }

    /// The content of the frame with the inner content encrypted.
    fn encode_encrypted_header(&self, key: &[u8], encryption_header: EncryptionHeader) -> (res:
        Result<Vec<u8>, ZffError>)
        ensures
            match spec_aead_encrypt(
                encryption_header@.algorithm,
                key@,
                encryption_header@.nonce,
                spec_file_header_inner(self@),
            ) {
                Some(ciphertext) => res matches Ok(v) && v@
                    == spec_file_header_encrypted_content(self@, ciphertext),
                None => res matches Err(e) && e.kind == ZffErrorKind::EncryptionFailed,
            },
    {
        let mut vec = encode_u8(self.version);
        let mut file_number = encode_u64(self.file_number);
        vec.append(&mut file_number);
        let data_to_encrypt = self.encode_content();
        let encrypted_data = Encryption::encrypt_header(
            key,
            data_to_encrypt.as_slice(),
            encryption_header.nonce(),
            encryption_header.algorithm(),
        )?;
        let mut ciphertext = encode_bytes(encrypted_data.as_slice());
        vec.append(&mut ciphertext);
        Ok(vec)
    }

    /// The inner content: everything but version and file number.
    fn encode_content(&self) -> (out: Vec<u8>)
        ensures
            out@ == spec_file_header_inner(self@),
            encode_utf8(self@.filename).len() <= u64::MAX,
            spec_entries_encodable(self@.metadata_ext),
            spec_keys_distinct(self@.metadata_ext),
    {
        let mut vec = encode_u8(self.file_type.selector());
        let mut filename = encode_string(self.filename());
        vec.append(&mut filename);
        let mut parent_file_number = encode_u64(self.parent_file_number);
        vec.append(&mut parent_file_number);
        let mut atime = encode_u64(self.atime);
        vec.append(&mut atime);
        let mut mtime = encode_u64(self.mtime);
        vec.append(&mut mtime);
        let mut ctime = encode_u64(self.ctime);
        vec.append(&mut ctime);
        let mut btime = encode_u64(self.btime);
        vec.append(&mut btime);
        let mut metadata_ext = self.metadata_ext.encode_directly();
        vec.append(&mut metadata_ext);
        vec
    }

    /// Reads the framed file header with encrypted inner content at the
    /// cursor of `reader`, decrypts it under `key` with the nonce and the
    /// cipher of the encryption header, and moves the cursor behind the
    /// frame. On failure the cursor stays. A decrypted type byte that stands
    /// for no file type is `UnknownFileType`, with that byte in decimal as
    /// the detail of the error.
    pub fn decode_encrypted_header_with_key(
        reader: &mut Reader,
        key: &[u8],
        encryption_header: EncryptionHeader,
    ) -> (res: Result<FileHeader, ZffError>)
        ensures
            reads(
                *old(reader),
                *final(reader),
                res,
                spec_decode_encrypted_file_header(
                    old(reader).data@,
                    old(reader).position as int,
                    key@,
                    encryption_header@.nonce,
                    encryption_header@.algorithm,
                ),
            ),
            names_unknown_file_type(
                res,
                spec_unknown_file_type_encrypted(
                    old(reader).data@,
                    old(reader).position as int,
                    key@,
                    encryption_header@.nonce,
                    encryption_header@.algorithm,
                ),
            ),
    {
        let pos = reader.cursor();
        let (header_content, end) = decode_frame(
            reader.data.as_slice(),
            pos,
            HEADER_IDENTIFIER_FILE_HEADER,
        )?;
        let content = header_content.as_slice();
        let (header_version, at) = decode_u8(content, 0)?;
        let (file_number, at) = decode_u64(content, at)?;
        let (encrypted_data, _) = decode_bytes(content, at)?;
        let nonce = encryption_header.nonce();
        let algorithm = encryption_header.algorithm();
        let decrypted_data = Encryption::decrypt_header(
            key,
            encrypted_data.as_slice(),
            nonce,
            algorithm,
        )?;
        let file_header = Self::decode_inner_content(
            decrypted_data.as_slice(),
            0,
            header_version,
            file_number,
        )?;
        reader.position = end as u64;
        Ok(file_header)
    }

    /// Decodes the inner content of a file header at `pos` of `data` and
    /// gives the header of the given version and file number. A byte that
    /// stands for no file type is `UnknownFileType`, with that byte in
    /// decimal as the detail of the error.
    pub fn decode_inner_content(data: &[u8], pos: usize, version: u8, file_number: u64) -> (res:
        Result<FileHeader, ZffError>)
        ensures
            match spec_decode_file_header_inner(data@, pos as int, version, file_number) {
                Ok(h) => res matches Ok(found) && found@ == h,
                Err(kind) => res matches Err(e) && e.kind == kind,
            },
            names_unknown_file_type(res, spec_unknown_file_type(data@, pos as int)),
    {
        let (selector, at) = decode_u8(data, pos)?;
        let file_type = match FileType::from_selector(selector) {
            Some(file_type) => file_type,
            None => {
                return Err(ZffError::with_number(ZffErrorKind::UnknownFileType, selector as u64));
            },
        };
        let (filename, at) = decode_string(data, at)?;
        let (parent_file_number, at) = decode_u64(data, at)?;
        let (atime, at) = decode_u64(data, at)?;
        let (mtime, at) = decode_u64(data, at)?;
        let (ctime, at) = decode_u64(data, at)?;
        let (btime, at) = decode_u64(data, at)?;
        let (metadata_ext, _) = MetadataMap::decode_at(data, at)?;
        Ok(
            FileHeader::new(
                version,
                file_number,
                file_type,
                filename,
                parent_file_number,
                atime,
                mtime,
                ctime,
                btime,
                metadata_ext,
            ),
        )
    }
}

impl HeaderCoding for FileHeader {
    open spec fn spec_identifier() -> u32 {
        HEADER_IDENTIFIER_FILE_HEADER
    }

    open spec fn spec_version(value: FileHeaderView) -> u8 {
        value.version
    }

    open spec fn spec_encode_header(value: FileHeaderView) -> Seq<u8> {
        spec_file_header_content(value)
    }

    open spec fn spec_decode_content(data: Seq<u8>) -> Result<FileHeaderView, ZffErrorKind> {
        spec_decode_file_header_content(data)
    }

    open spec fn spec_decode_directly(data: Seq<u8>, pos: int) -> Result<
        (FileHeaderView, int),
        ZffErrorKind,
    > {
        spec_decode_file_header(data, pos)
    }

    /// The magic identifier of a file header.
    fn identifier() -> (id: u32)
        ensures
            id == HEADER_IDENTIFIER_FILE_HEADER,
    {
        HEADER_IDENTIFIER_FILE_HEADER
    }

    /// The version of the header.
    fn version(&self) -> (version: u8)
        ensures
            version == self@.version,
    {
        self.version
    }

    /// The content of the header's frame.
    fn encode_header(&self) -> (out: Vec<u8>)
        ensures
            out@ == spec_file_header_content(self@),
            encode_utf8(self@.filename).len() <= u64::MAX,
            spec_entries_encodable(self@.metadata_ext),
            spec_keys_distinct(self@.metadata_ext),
    {
        let mut vec = encode_u8(self.version);
        let mut file_number = encode_u64(self.file_number);
        vec.append(&mut file_number);
        let mut content = self.encode_content();
        vec.append(&mut content);
        vec
    }

    /// The framed header: identifier, total length, content. A header that
    /// was encoded is well formed, so that decoding its bytes gives it back.
    fn encode_directly(&self) -> (out: Vec<u8>)
        ensures
            out@ == spec_file_header_bytes(self@),
            self@.wf(),
    {
        let content = self.encode_header();
        encode_frame(HEADER_IDENTIFIER_FILE_HEADER, content.as_slice())
    }

    /// Decodes the content of a file header's frame. A type byte that
    /// stands for no file type is `UnknownFileType`, with that byte in
    /// decimal as the detail of the error.
    fn decode_content(data: Vec<u8>) -> (res: Result<FileHeader, ZffError>)
        ensures
            match spec_decode_file_header_content(data@) {
                Ok(h) => res matches Ok(found) && found@ == h,
                Err(kind) => res matches Err(e) && e.kind == kind,
            },
            names_unknown_file_type(res, spec_unknown_file_type_in_content(data@)),
    {
        let bytes = data.as_slice();
        let (header_version, at) = decode_u8(bytes, 0)?;
        let (file_number, at) = decode_u64(bytes, at)?;
        Self::decode_inner_content(bytes, at, header_version, file_number)
    }

    /// Decodes the file header framed at `pos` of `data`, and gives the
    /// position behind its frame.
    fn decode_at(data: &[u8], pos: usize) -> (res: Result<(FileHeader, usize), ZffError>)
        ensures
            agrees(res, spec_decode_file_header(data@, pos as int)),
            names_unknown_file_type(res, spec_unknown_file_type_framed(data@, pos as int)),
    {
        let (content, end) = decode_frame(data, pos, HEADER_IDENTIFIER_FILE_HEADER)?;
        let header = FileHeader::decode_content(content)?;
        Ok((header, end))
    }

    /// Reads the framed file header at the cursor of `reader` and moves the
    /// cursor behind it. On failure the cursor stays.
    fn decode_directly(reader: &mut Reader) -> (res: Result<FileHeader, ZffError>)
        ensures
            reads(
                *old(reader),
                *final(reader),
                res,
                spec_decode_file_header(old(reader).data@, old(reader).position as int),
            ),
            names_unknown_file_type(
                res,
                spec_unknown_file_type_framed(old(reader).data@, old(reader).position as int),
            ),
    {
        let pos = reader.cursor();
        let (header, end) = FileHeader::decode_at(reader.data.as_slice(), pos)?;
        reader.position = end as u64;
        Ok(header)
    }
}

} // verus!
