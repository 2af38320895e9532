//! Relocation tables, with (RELA) or without (REL) explicit addends.

use vstd::prelude::*;
use crate::elfio::Elfio;
use crate::header::addr_width;
use crate::section::ElfSection;
use crate::table::{entries_num, entry_count, entry_offset, entry_present};
use crate::types::{ElfSxword, ElfWord, ElfXword, Elf64Addr, ELFCLASS64, SHT_RELA};
use crate::utils::uint_at;

verus! {

/// A single relocation entry.
#[derive(Debug, Clone, Copy, PartialEq, Eq, Structural, Default)]
pub struct Relocation {
    /// Location at which to apply the relocation.
    pub offset: Elf64Addr,
    /// The symbol whose value should be used in the relocation.
    pub symbol: ElfWord,
    /// The relocation type. Relocation types are processor specific.
    pub rtype: ElfWord,
    /// The constant addend; present for sections of type `SHT_RELA` only.
    pub addend: Option<ElfSxword>,
}

/// Size in bytes of a relocation record of the given class and section type.
pub open spec fn relocation_record_size(class: u8, sh_type: u32) -> int {
    addr_width(class) * if sh_type == SHT_RELA {
        3int
    } else {
        2int
    }
}

/// `rel` is the relocation record at `p` in `d`.
pub open spec fn relocation_decoded(
    rel: Relocation,
    big: bool,
    class: u8,
    sh_type: u32,
    d: Seq<u8>,
    p: int,
) -> bool {
    let w = addr_width(class);
    let info = uint_at(big, d, p + w, w);
    &&& rel.offset as nat == uint_at(big, d, p, w)
    &&& class == ELFCLASS64 ==> rel.symbol == info / 0x1_0000_0000 && rel.rtype == info
        % 0x1_0000_0000
    &&& class != ELFCLASS64 ==> rel.symbol == info / 256 && rel.rtype == info % 256
    &&& sh_type == SHT_RELA ==> rel.addend == Some(
        if class == ELFCLASS64 {
            uint_at(big, d, p + 2 * w, 8) as u64 as i64
        } else {
            uint_at(big, d, p + 2 * w, 4) as u32 as i32 as i64
        },
    )
    &&& sh_type != SHT_RELA ==> rel.addend is None
}

/// A relocation-table view of a section.
pub struct RelocationSectionAccessor<'a> {
    /// The file the section belongs to.
    pub elfio: &'a Elfio,
    /// The relocation section.
    pub section: &'a ElfSection,
}

impl<'a> RelocationSectionAccessor<'a> {
    /// Creates a new instance of the relocation table accessor.
    pub fn new(elfio: &'a Elfio, section: &'a ElfSection) -> (r: RelocationSectionAccessor<'a>)
        ensures
            r.elfio == elfio,
            r.section == section,
    {
        RelocationSectionAccessor { elfio, section }
    }

    /// Returns the number of entries: the section size over the entry size.
    pub fn get_entries_num(&self) -> (r: ElfXword)
        ensures
            r == entry_count(self.section.sh_size, self.section.sh_entsize),
            self.section.sh_entsize != 0 ==> r == self.section.sh_size / self.section.sh_entsize,
    {
        entries_num(self.section.sh_size, self.section.sh_entsize)
    }

    /// Get a relocation entry by its index; absent past the count or when the
    /// record does not lie within the payload.
    pub fn get_entry(&self, index: ElfXword) -> (r: Option<Relocation>)
        ensures
            r is Some <==> entry_present(
                self.section.sh_size,
                self.section.sh_entsize,
                index,
                relocation_record_size(self.section.class, self.section.sh_type),
                self.section.data@.len() as int,
            ),
            r matches Some(rel) ==> relocation_decoded(
                rel,
                self.section.converter.is_needed,
                self.section.class,
                self.section.sh_type,
                self.section.data@,
                index * self.section.sh_entsize,
            ),
    {
        let s = self.section;
        let wide = s.class == ELFCLASS64;
        let rela = s.sh_type == SHT_RELA;
        let w: usize = if wide {
            8
        } else {
            4
        };
        let recsize: u64 = if rela {
            3 * w as u64
        } else {
            2 * w as u64
        };
        let p = match entry_offset(s.sh_size, s.sh_entsize, index, recsize, s.data.len()) {
            None => {
                return None;
            },
            Some(p) => p,
        };
        let d = s.data.as_slice();
        let c = s.converter;
        let offset = c.read_addr(d, p, wide);
        let info = c.read_addr(d, p + w, wide);
        let (symbol, rtype) = if wide {
            ((info / 0x1_0000_0000) as u32, (info % 0x1_0000_0000) as u32)
        } else {
            ((info / 256) as u32, (info % 256) as u32)
        };
        let addend = if !rela {
            None
        } else if wide {
            Some(#[verifier::truncate] (c.read_u64(d, p + 2 * w) as i64))
        } else {
            Some(#[verifier::truncate] (c.read_u32(d, p + 2 * w) as i32) as i64)
        };
        Some(Relocation { offset, symbol, rtype, addend })
    }
}

} // verus!
