//! Address arrays: `SHT_INIT_ARRAY`, `SHT_FINI_ARRAY`, `.ctors` and `.dtors`.

use vstd::prelude::*;
use crate::elfio::Elfio;
use crate::header::addr_width;
use crate::section::ElfSection;
use crate::table::{entries_num, entry_count, entry_offset, entry_present};
use crate::types::{ElfXword, Elf64Addr, ELFCLASS64};
use crate::utils::uint_at;

verus! {

/// A single array entry.
#[derive(Debug, Clone, Copy, PartialEq, Eq, Structural, Default)]
pub struct Array {
    /// The address, widened to 64 bits.
    pub value: Elf64Addr,
}

/// An address-array view of a section.
pub struct ArraySectionAccessor<'a> {
    /// The file the section belongs to.
    pub elfio: &'a Elfio,
    /// The array section.
    pub section: &'a ElfSection,
}

impl<'a> ArraySectionAccessor<'a> {
    /// Creates a new instance of the array accessor.
    pub fn new(elfio: &'a Elfio, section: &'a ElfSection) -> (r: ArraySectionAccessor<'a>)
        ensures
            r.elfio == elfio,
            r.section == section,
    {
        ArraySectionAccessor { elfio, section }
    }

    /// Returns the number of addresses: the section size over the address width.
    pub fn get_entries_num(&self) -> (r: ElfXword)
        ensures
            r == entry_count(self.section.sh_size, addr_width(self.section.class) as u64),
            r == self.section.sh_size as int / addr_width(self.section.class),
    {
        let width: u64 = if self.section.class == ELFCLASS64 {
            8
        } else {
            4
        };
        entries_num(self.section.sh_size, width)
    }

    /// Get an address by its index; absent past the count or when it does
    /// not lie within the payload.
    pub fn get_entry(&self, index: ElfXword) -> (r: Option<Array>)
        ensures
            r is Some <==> entry_present(
                self.section.sh_size,
                addr_width(self.section.class) as u64,
                index,
                addr_width(self.section.class),
                self.section.data@.len() as int,
            ),
            r matches Some(a) ==> a.value as nat == uint_at(
                self.section.converter.is_needed,
                self.section.data@,
                index * addr_width(self.section.class),
                addr_width(self.section.class),
            ),
    {
        let s = self.section;
        let wide = s.class == ELFCLASS64;
        let width: u64 = if wide {
            8
        } else {
            4
        };
        let p = match entry_offset(s.sh_size, width, index, width, s.data.len()) {
            None => {
                return None;
            },
            Some(p) => p,
        };
        Some(Array { value: s.converter.read_addr(s.data.as_slice(), p, wide) })
    }
}

} // verus!
