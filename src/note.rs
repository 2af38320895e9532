//! Note sections: records of name, description and type, each padded to a
//! four-byte boundary.

use vstd::prelude::*;
use crate::elfio::Elfio;
use crate::utils::{copy_range, uint_at};
use crate::section::ElfSection;
use crate::strings::{text_from_bytes, utf8_lossy};
use crate::types::ElfWord;

verus! {

/// `n` rounded up to a multiple of four.
pub open spec fn align4(n: int) -> int {
    ((n + 3) / 4) * 4
}

/// Size of the note record at `cur`: three words, then the name and the
/// description, each padded to a word boundary.
pub open spec fn note_advance(big: bool, d: Seq<u8>, cur: int) -> int {
    12 + align4(uint_at(big, d, cur, 4) as int) + align4(uint_at(big, d, cur + 4, 4) as int)
}

/// Start offsets of the notes found by scanning `d` from `cur` while three
/// words remain.
pub open spec fn note_starts(big: bool, d: Seq<u8>, cur: int) -> Seq<int>
    decreases d.len() - cur,
{
    if cur < 0 || cur + 12 > d.len() {
        Seq::empty()
    } else if cur + note_advance(big, d, cur) > d.len() {
        seq![cur]
    } else {
        proof {
            assert(note_advance(big, d, cur) >= 12);
        }
        seq![cur] + note_starts(big, d, cur + note_advance(big, d, cur))
    }
}

/// Every note from `cur` on has a name of at least one byte and ends within
/// `d`, and the last one ends exactly at the end of `d`.
pub open spec fn notes_well_formed(big: bool, d: Seq<u8>, cur: int) -> bool
    decreases d.len() - cur,
{
    if cur == d.len() {
        true
    } else if cur < 0 || cur + 12 > d.len() {
        false
    } else {
        &&& uint_at(big, d, cur, 4) >= 1
        &&& cur + note_advance(big, d, cur) <= d.len()
        &&& notes_well_formed(big, d, cur + note_advance(big, d, cur))
    }
}

/// Sum of the record sizes of the notes that start at `starts`.
pub open spec fn advance_total(big: bool, d: Seq<u8>, starts: Seq<int>) -> int
    decreases starts.len(),
{
    if starts.len() == 0 {
        0
    } else {
        note_advance(big, d, starts[0]) + advance_total(big, d, starts.drop_first())
    }
}

/// The note at `pos` has a name of at least one byte and its description
/// ends within `d`.
pub open spec fn note_fits(big: bool, d: Seq<u8>, pos: int) -> bool {
    &&& uint_at(big, d, pos, 4) >= 1
    &&& pos + 12 + align4(uint_at(big, d, pos, 4) as int) + uint_at(big, d, pos + 4, 4) <= d.len()
}

/// For a well-formed note section, the record sizes of the notes found by
/// the scan add up to the payload length.
pub proof fn lemma_note_scan_covers_payload(big: bool, d: Seq<u8>)
    requires
        notes_well_formed(big, d, 0),
    ensures
        advance_total(big, d, note_starts(big, d, 0)) == d.len(),
{
    lemma_note_scan_from(big, d, 0);
}

/// In a well-formed note section every note that the scan finds is present.
pub proof fn lemma_well_formed_notes_present(big: bool, d: Seq<u8>)
    requires
        notes_well_formed(big, d, 0),
    ensures
        forall|i: int|
            0 <= i < note_starts(big, d, 0).len() ==> note_fits(
                big,
                d,
                #[trigger] note_starts(big, d, 0)[i],
            ),
{
    lemma_notes_present_from(big, d, 0);
}

/// The scan finds at most one note per byte of payload.
proof fn lemma_note_count_bound(big: bool, d: Seq<u8>, cur: int)
    requires
        0 <= cur,
    ensures
        cur <= d.len() ==> note_starts(big, d, cur).len() <= d.len() - cur,
        cur > d.len() ==> note_starts(big, d, cur).len() == 0,
    decreases d.len() - cur,
{
    if cur + 12 <= d.len() {
        let next = cur + note_advance(big, d, cur);
        if next <= d.len() {
            assert(note_advance(big, d, cur) >= 12);
            lemma_note_count_bound(big, d, next);
        }
    }
}

/// In a well-formed note section shorter than 2^32 bytes the count fits in
/// a word, and a note is present exactly when its index is below the count.
pub proof fn lemma_note_index_presence(big: bool, d: Seq<u8>, index: u32)
    requires
        notes_well_formed(big, d, 0),
        d.len() < 0x1_0000_0000,
    ensures
        note_starts(big, d, 0).len() as u32 == note_starts(big, d, 0).len(),
        (index < note_starts(big, d, 0).len() && note_fits(
            big,
            d,
            note_starts(big, d, 0)[index as int],
        )) <==> index < note_starts(big, d, 0).len(),
{
    lemma_note_count_bound(big, d, 0);
    lemma_well_formed_notes_present(big, d);
}

proof fn lemma_notes_present_from(big: bool, d: Seq<u8>, cur: int)
    requires
        0 <= cur <= d.len(),
        notes_well_formed(big, d, cur),
    ensures
        forall|i: int|
            0 <= i < note_starts(big, d, cur).len() ==> note_fits(
                big,
                d,
                #[trigger] note_starts(big, d, cur)[i],
            ),
    decreases d.len() - cur,
{
    if cur < d.len() {
        let next = cur + note_advance(big, d, cur);
        lemma_notes_present_from(big, d, next);
        let descsz = uint_at(big, d, cur + 4, 4) as int;
        assert(descsz <= align4(descsz));
        let s = note_starts(big, d, cur);
        assert forall|i: int| 0 <= i < s.len() implies note_fits(big, d, #[trigger] s[i]) by {
            if i > 0 {
                assert(s[i] == note_starts(big, d, next)[i - 1]);
            }
        }
    }
}

proof fn lemma_note_scan_from(big: bool, d: Seq<u8>, cur: int)
    requires
        0 <= cur <= d.len(),
        notes_well_formed(big, d, cur),
    ensures
        advance_total(big, d, note_starts(big, d, cur)) == d.len() - cur,
    decreases d.len() - cur,
{
    if cur < d.len() {
        let next = cur + note_advance(big, d, cur);
        lemma_note_scan_from(big, d, next);
        let s = note_starts(big, d, cur);
        assert(s.drop_first() =~= note_starts(big, d, next));
    }
}

/// A single note.
#[derive(Debug, Default)]
pub struct Note {
    /// Determines, with the originator's name, how the contents are read.
    pub ntype: ElfWord,
    /// The entry's owner or originator, without the trailing NUL.
    pub name: String,
    /// The contents of the note.
    pub description: Vec<u8>,
}

/// A note-table view of a section, with the start of each note found in advance.
pub struct NoteSectionAccessor<'a> {
    elfio: &'a Elfio,
    section: &'a ElfSection,
    note_start_positions: Vec<usize>,
}

impl<'a> NoteSectionAccessor<'a> {
    /// The file the section belongs to.
    pub closed spec fn elfio(&self) -> &'a Elfio {
        self.elfio
    }

    /// The note section.
    pub closed spec fn section(&self) -> &'a ElfSection {
        self.section
    }

    /// The start offsets of the notes.
    pub closed spec fn starts(&self) -> Seq<int> {
        self.note_start_positions@.map_values(|p: usize| p as int)
    }

    /// The start offsets are those the scan of the payload finds.
    pub closed spec fn wf(&self) -> bool {
        &&& self.starts() == note_starts(self.section.converter.is_needed, self.section.data@, 0)
        &&& forall|i: int|
            0 <= i < self.starts().len() ==> #[trigger] self.starts()[i] + 12
                <= self.section.data@.len()
    }

    /// Creates a new instance of the note accessor and scans the payload.
    pub fn new(elfio: &'a Elfio, section: &'a ElfSection) -> (r: NoteSectionAccessor<'a>)
        ensures
            r.elfio() == elfio,
            r.section() == section,
            r.wf(),
    {
        let d = section.data.as_slice();
        let size = d.len();
        let c = section.converter;
        let big = c.is_needed;
        let ghost all = note_starts(big, d@, 0);
        let mut starts: Vec<usize> = Vec::new();
        let mut cur: usize = 0;
        while cur <= size && size - cur >= 12
            invariant
                d@ == section.data@,
                size == d@.len(),
                big == c.is_needed,
                big == section.converter.is_needed,
                all == note_starts(big, d@, 0),
                all == starts@.map_values(|p: usize| p as int) + note_starts(big, d@, cur as int),
                forall|i: int| 0 <= i < starts@.len() ==> #[trigger] starts@[i] + 12 <= size,
            decreases size - cur,
        {
            let ghost before = starts@;
            starts.push(cur);
            let namesz = c.read_u32(d, cur) as u64;
            let descsz = c.read_u32(d, cur + 4) as u64;
            let advance: u64 = 12 + (namesz + 3) / 4 * 4 + (descsz + 3) / 4 * 4;
            proof {
                let next = cur + note_advance(big, d@, cur as int);
                assert(advance == note_advance(big, d@, cur as int));
                if next <= size {
                    assert(note_starts(big, d@, cur as int) == seq![cur as int] + note_starts(big, d@, next));
                } else {
                    assert(note_starts(big, d@, cur as int) =~= seq![cur as int] + note_starts(big, d@, next));
                }
                assert(starts@.map_values(|p: usize| p as int) =~= before.map_values(|p: usize| p as int).push(cur as int));
                assert(all =~= starts@.map_values(|p: usize| p as int) + note_starts(big, d@, next));
            }
            if advance > (size - cur) as u64 {
                proof {
                    let next = cur + note_advance(big, d@, cur as int);
                    assert(note_starts(big, d@, next) =~= Seq::<int>::empty());
                    assert(note_starts(big, d@, size as int) =~= Seq::<int>::empty());
                }
                cur = size;
            } else {
                cur = cur + advance as usize;
            }
        }
        proof {
            if !(cur <= size && size - cur >= 12) {
                assert(note_starts(big, d@, cur as int) =~= Seq::<int>::empty());
            }
            assert(all =~= starts@.map_values(|p: usize| p as int));
        }
        NoteSectionAccessor { elfio, section, note_start_positions: starts }
    }

    /// Returns the number of notes in the section.
    pub fn get_notes_num(&self) -> (r: ElfWord)
        requires
            self.wf(),
        ensures
            r == note_starts(self.section().converter.is_needed, self.section().data@, 0).len() as u32,
    {
        #[verifier::truncate]
        (self.note_start_positions.len() as u32)
    }

    /// Returns a note by its ordinal number; absent past the count or when
    /// the note is malformed.
    pub fn get_note(&self, index: ElfWord) -> (r: Option<Note>)
        requires
            self.wf(),
        ensures
            ({
                let big = self.section().converter.is_needed;
                let d = self.section().data@;
                let starts = note_starts(big, d, 0);
                let pos = starts[index as int];
                let namesz = uint_at(big, d, pos, 4) as int;
                let desc_at = pos + 12 + align4(namesz);
                &&& r is Some <==> index < starts.len() && note_fits(big, d, pos)
                &&& r matches Some(n) ==> {
                    &&& n.ntype as nat == uint_at(big, d, pos + 8, 4)
                    &&& n.name@ == utf8_lossy(d.subrange(pos + 12, pos + 12 + namesz - 1))
                    &&& n.description@ == d.subrange(desc_at, desc_at + uint_at(big, d, pos + 4, 4))
                }
            }),
    {
        let i = index as usize;
        if i >= self.note_start_positions.len() {
            return None;
        }
        proof {
            assert(self.starts()[i as int] == self.note_start_positions@[i as int] as int);
            assert(self.starts()[i as int] + 12 <= self.section.data@.len());
        }
        let pos = self.note_start_positions[i];
        let d = self.section.data.as_slice();
        let len = d.len();
        let c = self.section.converter;
        let namesz = c.read_u32(d, pos) as u64;
        let descsz = c.read_u32(d, pos + 4) as u64;
        let ntype = c.read_u32(d, pos + 8);
        let room = (len - pos - 12) as u64;
        let padded = (namesz + 3) / 4 * 4;
        if namesz < 1 || padded + descsz > room {
            return None;
        }
        let name_at = pos + 12;
        let name_bytes = copy_range(d, name_at, name_at + namesz as usize - 1);
        let desc_at = name_at + padded as usize;
        let description = copy_range(d, desc_at, desc_at + descsz as usize);
        Some(Note { ntype, name: text_from_bytes(name_bytes.as_slice()), description })
    }
}

} // verus!
