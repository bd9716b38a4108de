use vstd::prelude::*;
use vstd::slice::slice_subrange;
use vstd::std_specs::cmp::PartialEqSpec;

verus! {

/// Errors from decoding the fixed 32-byte preamble.
#[derive(Debug, Clone, PartialEq, Eq, Structural)]
pub enum Error {
    /// The three magic bytes at the start of the header are wrong.
    IncorrectFormat,
    /// The file-type byte is outside the known set.
    IncorrectFileType,
    /// The version byte is not a recognized header version.
    InvalidVersion,
    /// The length-prefixed key-algorithm field is malformed.
    ParseError,
}

/// Type of SLEEP file, as declared by the header's file-type byte.
#[derive(Debug, Clone, Copy, PartialEq, Eq, Structural)]
pub enum FileType {
    Bitfield,
    Signatures,
    Tree,
}

/// Version of the SLEEP header format.
/// 0 is the only currently available version.
#[derive(Debug, Clone, Copy, PartialEq, Eq, Structural)]
pub enum Version {
    V0,
}

/// SLEEP header structure, decoded from the first 32 bytes of a file.
#[derive(Debug, Clone)]
pub struct Header {
    pub filetype: FileType,
    pub version: Version,
    pub entry_size: u16,
    pub key_alg: String,
}

/// Mathematical model of a decoded header.
pub struct HeaderModel {
    pub filetype: FileType,
    pub version: Version,
    pub entry_size: u16,
    pub key_alg: Seq<char>,
}

impl View for Header {
    type V = HeaderModel;

    open spec fn view(&self) -> HeaderModel {
        HeaderModel {
            filetype: self.filetype,
            version: self.version,
            entry_size: self.entry_size,
            key_alg: self.key_alg@,
        }
    }
}

impl PartialEq for Header {
    fn eq(&self, other: &Header) -> bool {
        self.filetype == other.filetype && self.version == other.version && self.entry_size
            == other.entry_size && self.key_alg == other.key_alg
    }
}

impl vstd::std_specs::cmp::PartialEqSpecImpl for Header {
    open spec fn obeys_eq_spec() -> bool {
        true
    }

    open spec fn eq_spec(&self, other: &Header) -> bool {
        self.filetype == other.filetype && self.version == other.version && self.entry_size
            == other.entry_size && self.key_alg@ == other.key_alg@
    }
}

/// What `std::str::from_utf8` decodes a byte string to: the character
/// sequence it encodes, or nothing where the bytes are not valid UTF-8.
pub uninterp spec fn utf8_decode(bytes: Seq<u8>) -> Option<Seq<char>>;

/// Relies on std::str::from_utf8: it returns Ok exactly when the bytes are
/// valid UTF-8, and then yields the characters that the bytes encode.
#[verifier::external_body]
fn utf8_to_string(bytes: &[u8]) -> (r: Option<String>)
    ensures
        r matches Some(s) ==> utf8_decode(bytes@) == Some(s@),
        r is None ==> utf8_decode(bytes@) is None,
{
    match std::str::from_utf8(bytes) {
        Ok(s) => Some(s.to_string()),
        Err(_) => None,
    }
}

/// The header's three magic bytes.
pub open spec fn spec_magic_ok(bytes: Seq<u8>) -> bool {
    bytes[0] == 5u8 && bytes[1] == 2u8 && bytes[2] == 87u8
}

/// The file type that a file-type byte in the known set stands for.
pub open spec fn spec_filetype(b: u8) -> FileType {
    if b == 0 {
        FileType::Bitfield
    } else if b == 1 {
        FileType::Signatures
    } else {
        FileType::Tree
    }
}

/// The record size: bytes 5 and 6 read as a big-endian unsigned 16-bit integer.
pub open spec fn spec_entry_size(bytes: Seq<u8>) -> u16 {
    (bytes[5] as int * 256 + bytes[6] as int) as u16
}

/// What decoding the first 32 bytes of `bytes` yields: the header model on
/// success, or the one error that the first failing check reports.  Only the
/// first 32 bytes are read; the padding after the key-algorithm field is
/// ignored.
pub open spec fn spec_parse(bytes: Seq<u8>) -> Result<HeaderModel, Error> {
    if !spec_magic_ok(bytes) {
        Err(Error::IncorrectFormat)
    } else if bytes[3] > 2 {
        Err(Error::IncorrectFileType)
    } else if bytes[4] != 0 {
        Err(Error::InvalidVersion)
    } else if 8 + bytes[7] as int > 32 {
        Err(Error::ParseError)
    } else {
        match utf8_decode(bytes.subrange(8, 8 + bytes[7] as int)) {
            Some(cs) => Ok(
                HeaderModel {
                    filetype: spec_filetype(bytes[3]),
                    version: Version::V0,
                    entry_size: spec_entry_size(bytes),
                    key_alg: cs,
                },
            ),
            None => Err(Error::ParseError),
        }
    }
}

/// Decode the fixed 32-byte preamble at the start of `bytes`.
pub fn parse(bytes: &[u8]) -> (r: Result<Header, Error>)
    requires
        bytes@.len() >= 32,
    ensures
        (match r {
            Ok(h) => spec_parse(bytes@) matches Ok(m) && h@ == m,
            Err(e) => spec_parse(bytes@) matches Err(m) && m == e,
        }),
{
    if !(bytes[0] == 5 && bytes[1] == 2 && bytes[2] == 87) {
        return Err(Error::IncorrectFormat);
    }
    let filetype: FileType = if bytes[3] == 0 {
        FileType::Bitfield
    } else if bytes[3] == 1 {
        FileType::Signatures
    } else if bytes[3] == 2 {
        FileType::Tree
    } else {
        return Err(Error::IncorrectFileType);
    };
    if bytes[4] != 0 {
        return Err(Error::InvalidVersion);
    }
    let entry_size: u16 = (bytes[5] as u16) * 256 + (bytes[6] as u16);
    let name_len: usize = bytes[7] as usize;
    if 8 + name_len > 32 {
        return Err(Error::ParseError);
    }
    let name_bytes: &[u8] = slice_subrange(bytes, 8, 8 + name_len);
    match utf8_to_string(name_bytes) {
        Some(key_alg) => Ok(
            Header { filetype, version: Version::V0, entry_size, key_alg },
        ),
        None => Err(Error::ParseError),
    }
}

/// Decoding is deterministic: two headers decoded from the same bytes are
/// equal, under the header type's own equality.
pub proof fn lemma_parse_deterministic(bytes: Seq<u8>, h1: Header, h2: Header)
    requires
        spec_parse(bytes) matches Ok(m1) && h1@ == m1,
        spec_parse(bytes) matches Ok(m2) && h2@ == m2,
    ensures
        h1@ == h2@,
        h1.eq_spec(&h2),
{
}

} // verus!
