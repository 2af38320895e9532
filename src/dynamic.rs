//! Dynamic tables: (tag, value) entries terminated by a `DT_NULL` tag.

use vstd::prelude::*;
use crate::elfio::Elfio;
use crate::header::addr_width;
use crate::section::ElfSection;
use crate::table::{entries_num, entry_count, entry_offset, entry_present};
use crate::types::{ElfSxword, ElfXword, ELFCLASS64, DT_NULL};
use crate::utils::uint_at;

verus! {

/// A single dynamic table entry.
#[derive(Debug, Clone, Copy, PartialEq, Eq, Structural, Default)]
pub struct Dynamic {
    /// Identifies the type of dynamic table entry.
    pub tag: ElfSxword,
    /// An integer value or a program virtual address.
    pub value: ElfXword,
}

/// Size in bytes of a dynamic record of the given class.
pub open spec fn dynamic_record_size(class: u8) -> int {
    2 * addr_width(class)
}

/// Tag of the record at `p` in `d`, sign-extended to 64 bits.
pub open spec fn dynamic_tag_at(big: bool, class: u8, d: Seq<u8>, p: int) -> i64 {
    if class == ELFCLASS64 {
        uint_at(big, d, p, 8) as u64 as i64
    } else {
        uint_at(big, d, p, 4) as u32 as i32 as i64
    }
}

/// `e` is the dynamic record at `p` in `d`.
pub open spec fn dynamic_decoded(e: Dynamic, big: bool, class: u8, d: Seq<u8>, p: int) -> bool {
    let w = addr_width(class);
    &&& e.tag == dynamic_tag_at(big, class, d, p)
    &&& e.value as nat == uint_at(big, d, p + w, w)
}

/// Entry `i` of section `s` is present and is the `DT_NULL` terminator.
pub open spec fn is_terminator(s: &ElfSection, i: int) -> bool {
    &&& 0 <= i
    &&& entry_present(
        s.sh_size,
        s.sh_entsize,
        i as u64,
        dynamic_record_size(s.class),
        s.data@.len() as int,
    )
    &&& dynamic_tag_at(s.converter.is_needed, s.class, s.data@, i * s.sh_entsize) == DT_NULL
}

/// A dynamic-table view of a section.
pub struct DynamicSectionAccessor<'a> {
    /// The file the section belongs to.
    pub elfio: &'a Elfio,
    /// The dynamic section.
    pub section: &'a ElfSection,
}

impl<'a> DynamicSectionAccessor<'a> {
    /// Creates a new instance of the dynamic table accessor.
    pub fn new(elfio: &'a Elfio, section: &'a ElfSection) -> (r: DynamicSectionAccessor<'a>)
        ensures
            r.elfio == elfio,
            r.section == section,
    {
        DynamicSectionAccessor { elfio, section }
    }

    /// Returns the number of entries up to and including the first `DT_NULL`
    /// terminator; zero when there is none.
    pub fn get_entries_num(&self) -> (r: ElfXword)
        ensures
            r <= entry_count(self.section.sh_size, self.section.sh_entsize),
            r == 0 ==> forall|i: int|
                0 <= i < entry_count(self.section.sh_size, self.section.sh_entsize)
                    ==> !is_terminator(self.section, i),
            r > 0 ==> is_terminator(self.section, r - 1),
            forall|i: int| 0 <= i < r - 1 ==> !is_terminator(self.section, i),
    {
        let max_entries = self.get_entries_num_internal();
        let mut i: u64 = 0;
        while i < max_entries
            invariant
                max_entries == entry_count(self.section.sh_size, self.section.sh_entsize),
                i <= max_entries,
                forall|k: int| 0 <= k < i ==> !is_terminator(self.section, k),
            decreases max_entries - i,
        {
            match self.get_entry(i) {
                Some(e) => {
                    if e.tag == DT_NULL {
                        return i + 1;
                    }
                },
                None => {},
            }
            i = i + 1;
        }
        0
    }

    /// Returns the number of entries that the section size holds.
    pub fn get_entries_num_internal(&self) -> (r: ElfXword)
        ensures
            r == entry_count(self.section.sh_size, self.section.sh_entsize),
            self.section.sh_entsize != 0 ==> r == self.section.sh_size / self.section.sh_entsize,
    {
        entries_num(self.section.sh_size, self.section.sh_entsize)
    }

    /// Get a dynamic entry by its index; absent past the raw count or when the
    /// record does not lie within the payload.
    pub fn get_entry(&self, index: ElfXword) -> (r: Option<Dynamic>)
        ensures
            r is Some <==> entry_present(
                self.section.sh_size,
                self.section.sh_entsize,
                index,
                dynamic_record_size(self.section.class),
                self.section.data@.len() as int,
            ),
            r matches Some(e) ==> dynamic_decoded(
                e,
                self.section.converter.is_needed,
                self.section.class,
                self.section.data@,
                index * self.section.sh_entsize,
            ),
    {
        let s = self.section;
        let wide = s.class == ELFCLASS64;
        let w: usize = if wide {
            8
        } else {
            4
        };
        let p = match entry_offset(s.sh_size, s.sh_entsize, index, 2 * w as u64, s.data.len()) {
            None => {
                return None;
            },
            Some(p) => p,
        };
        let d = s.data.as_slice();
        let c = s.converter;
        let tag = if wide {
            #[verifier::truncate] (c.read_u64(d, p) as i64)
        } else {
            #[verifier::truncate] (c.read_u32(d, p) as i32) as i64
        };
        let value = c.read_addr(d, p + w, wide);
        Some(Dynamic { tag, value })
    }
}

} // verus!
