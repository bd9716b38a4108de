//! SLEEP
//!
//! A reader for the SLEEP file format: append-only logs of equally-sized
//! records behind a common 32-byte header.  A file is opened from its raw
//! bytes, the header declares the record kind and record size, and the file
//! resolves into exactly one of three typed views.

use vstd::prelude::*;

pub mod file;
pub mod header;

pub use file::File;
use file::{spec_record, spec_record_count, FileModel};
use header::FileType;

verus! {

/// Errors from opening or reading a SLEEP file.
#[derive(Debug)]
pub enum Error {
    /// The input is too short to hold the 32-byte header.
    Truncated,
    /// The 32-byte header did not decode.
    HeaderError(header::Error),
    /// A record of a Signatures file failed signature decoding; carries the
    /// decoder's message and the failing record's index.
    SignatureDecodeError(String, usize),
    /// A view was narrowed to a concrete type that does not match the file.
    TypeMismatch,
    /// A record index at or above the record count.
    IndexOutOfRange,
    /// Access to a view whose record layout this core does not implement.
    Unimplemented,
}

#[verifier::external_type_specification]
#[verifier::external_body]
pub struct ExSignature(ed25519_dalek::Signature);

/// The signature value that the decoder yields for a byte string it accepts.
/// It depends on the bytes alone.
pub uninterp spec fn sig_of(bytes: Seq<u8>) -> ed25519_dalek::Signature;

/// A byte string that the signature decoder accepts: exactly 64 bytes, the
/// width of an encoded signature.
pub open spec fn sig_decodable(bytes: Seq<u8>) -> bool {
    bytes.len() == 64
}

/// Relies on ed25519_dalek::Signature::from_slice: it returns Ok exactly when
/// the slice is 64 bytes long, and the signature it yields is a function of
/// those bytes alone.
#[verifier::external_body]
fn decode_signature(bytes: &[u8]) -> (r: Result<ed25519_dalek::Signature, String>)
    ensures
        r matches Ok(s) ==> sig_decodable(bytes@) && s == sig_of(bytes@),
        r is Err ==> !sig_decodable(bytes@),
{
    match ed25519_dalek::Signature::from_slice(bytes) {
        Ok(s) => Ok(s),
        Err(e) => Err(e.to_string()),
    }
}

/// Every record of the file is a byte string that the signature decoder
/// accepts.
pub open spec fn all_records_decodable(m: FileModel) -> bool {
    forall|i: int| 0 <= i < spec_record_count(m) ==> sig_decodable(#[trigger] spec_record(m, i))
}

/// A file whose declared record size is the decoder's width has only
/// decodable records, so opening it as a Signatures file always succeeds.
pub proof fn lemma_all_records_decodable(m: FileModel)
    requires
        m.header.entry_size == 64,
    ensures
        all_records_decodable(m),
{
    assert forall|i: int| 0 <= i < spec_record_count(m) implies sig_decodable(
        #[trigger] spec_record(m, i),
    ) by {
        file::lemma_record_len(m, i);
    }
}

/// A Signatures file whose record size is not the decoder's width cannot be
/// opened: already its first record is rejected, whatever the records hold.
pub proof fn lemma_wrong_width_never_decodes(m: FileModel)
    requires
        m.header.entry_size != 64,
        spec_record_count(m) > 0,
    ensures
        !all_records_decodable(m),
{
    file::lemma_record_len(m, 0);
}

/// A successfully built Signatures view: one decoded signature per record, in
/// record order, over the given file.
pub open spec fn signatures_ok(s: SignaturesModel, m: FileModel) -> bool {
    &&& s.file == m
    &&& s.sigs.len() == spec_record_count(m)
    &&& forall|i: int|
        0 <= i < spec_record_count(m) ==> s.sigs[i] == sig_of(#[trigger] spec_record(m, i))
}

/// The error that building a Signatures view reports: the index of the first
/// record that the decoder rejects, with the decoder's message.
pub open spec fn signatures_failed(e: Error, m: FileModel) -> bool {
    &&& e matches Error::SignatureDecodeError(_, idx)
    &&& 0 <= idx < spec_record_count(m)
    &&& !sig_decodable(spec_record(m, idx as int))
    &&& forall|j: int| 0 <= j < idx as int ==> sig_decodable(#[trigger] spec_record(m, j))
}

/// The typed view of an opened SLEEP file: exactly one variant per file,
/// chosen by the header's file type.
pub enum Sleep {
    Signatures(Signatures),
    Bitfield(Bitfield),
    Tree(Tree),
}

impl Sleep {
    /// Open a SLEEP file from its raw contents: decode the header, take the
    /// rest as the record tail, and build the typed view that the header
    /// declares.  A Signatures file is decoded eagerly: one rejected record
    /// fails the whole open.
    pub fn open(bytes: &[u8]) -> (r: Result<Sleep, Error>)
        ensures
            bytes@.len() < 32 ==> (r matches Err(e) && e == Error::Truncated),
            bytes@.len() >= 32 ==> match header::spec_parse(bytes@) {
                Err(he) => (r matches Err(e) && e == Error::HeaderError(he)),
                Ok(h) => ({
                    let m = FileModel { header: h, entries: bytes@.skip(32) };
                    match h.filetype {
                        FileType::Signatures => if all_records_decodable(m) {
                            r matches Ok(v) && v matches Sleep::Signatures(s) && signatures_ok(
                                s@,
                                m,
                            )
                        } else {
                            r matches Err(e) && signatures_failed(e, m)
                        },
                        FileType::Bitfield => r matches Ok(v) && v is Bitfield,
                        FileType::Tree => r matches Ok(v) && v is Tree,
                    }
                }),
            },
    {
        let file = match File::from_bytes(bytes) {
            Ok(f) => f,
            Err(e) => {
                return Err(e);
            },
        };
        let filetype = *file.filetype();
        match filetype {
            FileType::Signatures => match Signatures::from_file(file) {
                Ok(s) => Ok(Sleep::Signatures(s)),
                Err(e) => Err(e),
            },
            FileType::Bitfield => match Bitfield::from_file(file) {
                Ok(b) => Ok(Sleep::Bitfield(b)),
                Err(e) => Err(e),
            },
            FileType::Tree => match Tree::from_file(file) {
                Ok(t) => Ok(Sleep::Tree(t)),
                Err(e) => Err(e),
            },
        }
    }

    /// Narrow to the Signatures view; `TypeMismatch` if the file is of
    /// another kind.
    pub fn into_signatures(self) -> (r: Result<Signatures, Error>)
        ensures
            self matches Sleep::Signatures(s) ==> (r matches Ok(s2) && s2 == s),
            !(self matches Sleep::Signatures(_)) ==> (r matches Err(e) && e == Error::TypeMismatch),
    {
        match self {
            Sleep::Signatures(s) => Ok(s),
            _ => Err(Error::TypeMismatch),
        }
    }

    /// Narrow to the Bitfield view; `TypeMismatch` if the file is of another
    /// kind.
    pub fn into_bitfield(self) -> (r: Result<Bitfield, Error>)
        ensures
            self matches Sleep::Bitfield(b) ==> (r matches Ok(b2) && b2 == b),
            !(self matches Sleep::Bitfield(_)) ==> (r matches Err(e) && e == Error::TypeMismatch),
    {
        match self {
            Sleep::Bitfield(b) => Ok(b),
            _ => Err(Error::TypeMismatch),
        }
    }

    /// Narrow to the Tree view; `TypeMismatch` if the file is of another
    /// kind.
    pub fn into_tree(self) -> (r: Result<Tree, Error>)
        ensures
            self matches Sleep::Tree(t) ==> (r matches Ok(t2) && t2 == t),
            !(self matches Sleep::Tree(_)) ==> (r matches Err(e) && e == Error::TypeMismatch),
    {
        match self {
            Sleep::Tree(t) => Ok(t),
            _ => Err(Error::TypeMismatch),
        }
    }
}

/// Signatures file: every record decoded as a fixed-size signature value.
pub struct Signatures {
    /// The decoded signatures, index-aligned with the file's records.
    pub sigs: Vec<ed25519_dalek::Signature>,
    file: File,
}

/// Mathematical model of a Signatures view.
pub struct SignaturesModel {
    pub sigs: Seq<ed25519_dalek::Signature>,
    pub file: FileModel,
}

impl View for Signatures {
    type V = SignaturesModel;

    closed spec fn view(&self) -> SignaturesModel {
        SignaturesModel { sigs: self.sigs@, file: self.file@ }
    }
}

impl Signatures {
    /// Decode every record of the file as a signature, in index order.  The
    /// first record that the decoder rejects fails the whole construction
    /// with its index; no partial view is built.
    pub fn from_file(file: File) -> (r: Result<Signatures, Error>)
        ensures
            all_records_decodable(file@) ==> (r matches Ok(s) && signatures_ok(s@, file@)),
            !all_records_decodable(file@) ==> (r matches Err(e) && signatures_failed(e, file@)),
    {
        let count = file.len();
        let mut sigs: Vec<ed25519_dalek::Signature> = Vec::new();
        let mut i: usize = 0;
        while i < count
            invariant
                count == spec_record_count(file@),
                i <= count,
                sigs@.len() == i,
                forall|j: int|
                    0 <= j < i ==> sig_decodable(#[trigger] spec_record(file@, j)) && sigs@[j]
                        == sig_of(spec_record(file@, j)),
            decreases count - i,
        {
            let entry = match file.entry(i) {
                Ok(entry) => entry,
                Err(_) => {
                    proof {
                        assert(false);
                    }
                    return Err(Error::IndexOutOfRange);
                },
            };
            match decode_signature(entry) {
                Ok(sig) => sigs.push(sig),
                Err(msg) => {
                    return Err(Error::SignatureDecodeError(msg, i));
                },
            }
            i = i + 1;
        }
        Ok(Signatures { sigs, file })
    }

    /// The underlying file, for raw-byte access to the records.
    pub fn file(&self) -> (r: &File)
        ensures
            r@ == self@.file,
    {
        &self.file
    }
}

/// Bitfield file: a placeholder view.  The bitmap record layout is outside
/// this core, so the view exposes no records.
pub struct Bitfield;

impl Bitfield {
    /// Build the placeholder view over a Bitfield file.
    pub fn from_file(_file: File) -> (r: Result<Bitfield, Error>)
        ensures
            r is Ok,
    {
        Ok(Bitfield)
    }

    /// Record access is not implemented for Bitfield files: every access
    /// fails with `Unimplemented`.
    pub fn entry(&self, _num: usize) -> (r: Result<Vec<u8>, Error>)
        ensures
            r matches Err(e) && e == Error::Unimplemented,
    {
        Err(Error::Unimplemented)
    }
}

/// Tree file: a placeholder view.  The Merkle-tree record layout is outside
/// this core, so the view exposes no records.
pub struct Tree;

impl Tree {
    /// Build the placeholder view over a Tree file.
    pub fn from_file(_file: File) -> (r: Result<Tree, Error>)
        ensures
            r is Ok,
    {
        Ok(Tree)
    }

    /// Record access is not implemented for Tree files: every access fails
    /// with `Unimplemented`.
    pub fn entry(&self, _num: usize) -> (r: Result<Vec<u8>, Error>)
        ensures
            r matches Err(e) && e == Error::Unimplemented,
    {
        Err(Error::Unimplemented)
    }
}

} // verus!
