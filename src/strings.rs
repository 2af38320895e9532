//! String tables: payloads of NUL-terminated byte runs indexed by byte offset.

use vstd::prelude::*;
use crate::section::ElfSection;
use crate::types::ElfWord;

verus! {

/// Number of bytes from `o` up to the first NUL byte or the end of `d`.
pub open spec fn string_len_from(d: Seq<u8>, o: int) -> int
    decreases d.len() - o,
{
    if o < 0 || o >= d.len() || d[o] == 0 {
        0
    } else {
        1 + string_len_from(d, o + 1)
    }
}

/// The bytes of `d` from `o` up to, not including, the next NUL byte; empty
/// when `o` lies past the end of `d`.
pub open spec fn string_at(d: Seq<u8>, o: int) -> Seq<u8> {
    if 0 <= o <= d.len() {
        d.subrange(o, o + string_len_from(d, o))
    } else {
        Seq::empty()
    }
}

/// Text of a byte run decoded as UTF-8, invalid sequences replaced.
pub uninterp spec fn utf8_lossy(b: Seq<u8>) -> Seq<char>;

/// Relies on `String::from_utf8_lossy`, whose result depends on the bytes
/// alone and is empty for no bytes.
#[verifier::external_body]
pub(crate) fn text_from_bytes(b: &[u8]) -> (r: String)
    ensures
        r@ == utf8_lossy(b@),
        b@.len() == 0 ==> r@.len() == 0,
{
    String::from_utf8_lossy(b).into_owned()
}

/// A string run stays within the payload, holds no NUL and ends at a NUL or at the end.
pub proof fn lemma_string_len_bounds(d: Seq<u8>, o: int)
    requires
        0 <= o <= d.len(),
    ensures
        0 <= string_len_from(d, o) <= d.len() - o,
        forall|k: int| o <= k < o + string_len_from(d, o) ==> d[k] != 0,
        o + string_len_from(d, o) == d.len() || d[o + string_len_from(d, o)] == 0,
    decreases d.len() - o,
{
    if o < d.len() && d[o] != 0 {
        lemma_string_len_bounds(d, o + 1);
    }
}

/// The byte run of `d` that starts at `o` and ends before the next NUL byte.
pub fn str_from_u8_nul(d: &[u8], o: usize) -> (r: Vec<u8>)
    ensures
        r@ == string_at(d@, o as int),
{
    let mut r: Vec<u8> = Vec::new();
    if o > d.len() {
        return r;
    }
    let mut i: usize = o;
    while i < d.len() && d[i] != 0
        invariant
            o <= i <= d@.len(),
            string_len_from(d@, o as int) == (i - o) + string_len_from(d@, i as int),
            r@ == d@.subrange(o as int, i as int),
        decreases d@.len() - i,
    {
        r.push(d[i]);
        i = i + 1;
        assert(r@ =~= d@.subrange(o as int, i as int));
    }
    proof {
        lemma_string_len_bounds(d@, o as int);
    }
    r
}

/// A string-table view of a section's payload.
pub struct StringSectionAccessor<'a> {
    /// The string-table section.
    pub section: &'a ElfSection,
}

impl<'a> StringSectionAccessor<'a> {
    /// Creates a new instance of the string table accessor.
    pub fn new(section: &'a ElfSection) -> (r: StringSectionAccessor<'a>)
        ensures
            r.section == section,
    {
        StringSectionAccessor { section }
    }

    /// The bytes of the string at offset `index`, without its terminating NUL.
    pub fn get_string_bytes(&self, index: ElfWord) -> (r: Vec<u8>)
        ensures
            r@ == string_at(self.section.data@, index as int),
            index <= self.section.data@.len() ==> {
                &&& index + r@.len() <= self.section.data@.len()
                &&& r@ == self.section.data@.subrange(index as int, index + r@.len())
                &&& forall|k: int| 0 <= k < r@.len() ==> r@[k] != 0
                &&& index + r@.len() == self.section.data@.len() || self.section.data@[index
                    + r@.len()] == 0
            },
    {
        proof {
            if index <= self.section.data@.len() {
                lemma_string_len_bounds(self.section.data@, index as int);
            }
        }
        str_from_u8_nul(self.section.data.as_slice(), index as usize)
    }

    /// Returns a string from string table by its index.
    pub fn get_string(&self, index: ElfWord) -> (r: String)
        ensures
            r@ == utf8_lossy(string_at(self.section.data@, index as int)),
    {
        let b = self.get_string_bytes(index);
        text_from_bytes(b.as_slice())
    }
}

} // verus!
