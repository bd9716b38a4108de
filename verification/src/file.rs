use vstd::prelude::*;
use vstd::slice::{slice_subrange, slice_to_vec};
use vstd::arithmetic::div_mod::{lemma_fundamental_div_mod, lemma_mod_bound};
use vstd::arithmetic::mul::lemma_mul_inequality;
use crate::header;
use crate::header::{FileType, Header, HeaderModel};
use crate::Error;

verus! {

/// An opened SLEEP file: the decoded header plus the raw tail, sliced into
/// records of `entry_size` bytes each.
pub struct File {
    header: Header,
    entries: Vec<u8>,
}

/// Mathematical model of an opened file.
pub struct FileModel {
    pub header: HeaderModel,
    pub entries: Seq<u8>,
}

impl View for File {
    type V = FileModel;

    closed spec fn view(&self) -> FileModel {
        FileModel { header: self.header@, entries: self.entries@ }
    }
}

/// How many whole records the tail holds: `floor(len / entry_size)`, and zero
/// for a zero record size.  Trailing bytes shorter than one record are
/// excluded.
pub open spec fn spec_record_count(m: FileModel) -> int {
    if m.header.entry_size == 0 {
        0int
    } else {
        m.entries.len() as int / m.header.entry_size as int
    }
}

/// The bytes of record `i`: the tail range starting at `i * entry_size`, of
/// `entry_size` bytes.
pub open spec fn spec_record(m: FileModel, i: int) -> Seq<u8> {
    m.entries.subrange(
        i * m.header.entry_size as int,
        i * m.header.entry_size as int + m.header.entry_size as int,
    )
}

/// The record count is the tail length divided by the record size, and zero
/// for record size zero: no record is ever read past the tail, and a short
/// trailing fragment is not a record.
pub proof fn lemma_record_count(m: FileModel)
    ensures
        m.header.entry_size != 0 ==> spec_record_count(m) == m.entries.len() as int
            / m.header.entry_size as int,
        m.header.entry_size == 0 ==> spec_record_count(m) == 0,
{
}

/// Every record that the count admits lies wholly inside the tail.
pub proof fn lemma_record_in_bounds(m: FileModel, i: int)
    requires
        0 <= i < spec_record_count(m),
    ensures
        m.header.entry_size > 0,
        0 <= i * m.header.entry_size as int,
        i * m.header.entry_size as int + m.header.entry_size as int <= m.entries.len(),
{
    let sz = m.header.entry_size as int;
    let len = m.entries.len() as int;
    let q = len / sz;
    lemma_fundamental_div_mod(len, sz);
    lemma_mod_bound(len, sz);
    lemma_mul_inequality(i + 1, q, sz);
    assert((i + 1) * sz == i * sz + sz) by (nonlinear_arith);
    assert(q * sz == sz * q) by (nonlinear_arith);
    lemma_mul_inequality(0, i, sz);
}

/// Every record that the count admits is exactly `entry_size` bytes long.
pub proof fn lemma_record_len(m: FileModel, i: int)
    requires
        0 <= i < spec_record_count(m),
    ensures
        spec_record(m, i).len() == m.header.entry_size,
{
    lemma_record_in_bounds(m, i);
}

impl File {
    /// Split raw file contents into the decoded header and the record tail.
    /// The input is everything the file holds; the first 32 bytes are the
    /// header, the rest is the tail.
    pub fn from_bytes(bytes: &[u8]) -> (r: Result<File, Error>)
        ensures
            bytes@.len() < 32 ==> (r matches Err(e) && e == Error::Truncated),
            bytes@.len() >= 32 ==> match header::spec_parse(bytes@) {
                Ok(m) => (r matches Ok(f) && f@.header == m && f@.entries == bytes@.skip(32)),
                Err(he) => (r matches Err(e) && e == Error::HeaderError(he)),
            },
    {
        if bytes.len() < 32 {
            return Err(Error::Truncated);
        }
        match header::parse(bytes) {
            Ok(h) => {
                let tail: &[u8] = slice_subrange(bytes, 32, bytes.len());
                let entries: Vec<u8> = slice_to_vec(tail);
                Ok(File { header: h, entries })
            },
            Err(he) => Err(Error::HeaderError(he)),
        }
    }

    /// The file type declared by the header.
    pub fn filetype(&self) -> (r: &FileType)
        ensures
            *r == self@.header.filetype,
    {
        &self.header.filetype
    }

    /// The byte length of every record, as declared by the header.
    pub fn entry_size(&self) -> (r: u16)
        ensures
            r == self@.header.entry_size,
    {
        self.header.entry_size
    }

    /// The signature-algorithm name carried by the header.
    pub fn key_alg(&self) -> (r: &str)
        ensures
            r@ == self@.header.key_alg,
    {
        self.header.key_alg.as_str()
    }

    /// The byte offset in the tail where record `num` starts.
    pub fn entry_start(&self, num: usize) -> (r: usize)
        requires
            num * self@.header.entry_size as int <= usize::MAX as int,
        ensures
            r == num * self@.header.entry_size as int,
    {
        num * (self.header.entry_size as usize)
    }

    /// The number of whole records in the tail.
    pub fn len(&self) -> (r: usize)
        ensures
            r == spec_record_count(self@),
    {
        if self.header.entry_size == 0 {
            0
        } else {
            self.entries.len() / (self.header.entry_size as usize)
        }
    }

    /// The raw bytes of record `num`, or `IndexOutOfRange` for an index at or
    /// above the record count.
    pub fn entry(&self, num: usize) -> (r: Result<&[u8], Error>)
        ensures
            num < spec_record_count(self@) ==> (r matches Ok(s) && s@ == spec_record(
                self@,
                num as int,
            )),
            num >= spec_record_count(self@) ==> (r matches Err(e) && e
                == Error::IndexOutOfRange),
    {
        let count = self.len();
        if num >= count {
            return Err(Error::IndexOutOfRange);
        }
        proof {
            lemma_record_in_bounds(self@, num as int);
        }
        let sz = self.header.entry_size as usize;
        let _total = self.entries.len();  // witnesses that the record range fits in usize
        let start = num * sz;
        let end = start + sz;
        Ok(slice_subrange(self.entries.as_slice(), start, end))
    }

    /// A fresh traversal of the records, in index order from record 0.
    pub fn entry_iter<'a>(&'a self) -> (r: EntryIter<'a>)
        ensures
            r@.file == self@,
            r@.curr == 0,
    {
        EntryIter { file: self, curr: 0 }
    }
}

/// A restartable traversal over the records of a file; yields each record's
/// raw bytes in index order.
pub struct EntryIter<'a> {
    file: &'a File,
    curr: usize,
}

/// Mathematical model of a traversal: the file's model and the index of the
/// next record to yield.
pub struct EntryIterModel {
    pub file: FileModel,
    pub curr: int,
}

impl<'a> View for EntryIter<'a> {
    type V = EntryIterModel;

    closed spec fn view(&self) -> EntryIterModel {
        EntryIterModel { file: self.file@, curr: self.curr as int }
    }
}

impl<'a> EntryIter<'a> {
    /// The next record's bytes, or `None` once every record has been yielded.
    /// The record yielded at position `i` of the traversal is exactly the
    /// file's record `i`.
    pub fn next(&mut self) -> (r: Option<&'a [u8]>)
        ensures
            final(self)@.file == old(self)@.file,
            old(self)@.curr < spec_record_count(old(self)@.file) ==> (r matches Some(s)
                && s@ == spec_record(old(self)@.file, old(self)@.curr)
                && final(self)@.curr == old(self)@.curr + 1),
            old(self)@.curr >= spec_record_count(old(self)@.file) ==> (r is None
                && final(self)@.curr == old(self)@.curr),
    {
        if self.curr >= self.file.len() {
            None
        } else {
            let idx = self.curr;
            self.curr = idx + 1;
            match self.file.entry(idx) {
                Ok(s) => Some(s),
                Err(_) => None,
            }
        }
    }
}

} // verus!
