//! Symbol tables.

use vstd::prelude::*;
use crate::elfio::Elfio;
use crate::section::ElfSection;
use crate::strings::{str_from_u8_nul, string_at, text_from_bytes, utf8_lossy};
use crate::table::{entries_num, entry_count, entry_offset, entry_present};
use crate::types::{ElfHalf, ElfXword, Elf64Addr, ELFCLASS64};
use crate::utils::uint_at;

verus! {

/// A single symbol of a symbol table section.
#[derive(Debug, Default)]
pub struct Symbol {
    /// The name of the associated symbol.
    pub name: String,
    /// The value of the associated symbol.
    pub value: Elf64Addr,
    /// The symbol's associated size.
    pub size: ElfXword,
    /// The symbol's binding attribute.
    pub bind: u8,
    /// The symbol's type attribute.
    pub stype: u8,
    /// The symbol's visibility.
    pub other: u8,
    /// Index of the section the symbol is defined in relation to.
    pub shndx: ElfHalf,
}

/// Size in bytes of a symbol record of the given class.
pub open spec fn symbol_record_size(class: u8) -> int {
    if class == ELFCLASS64 {
        24
    } else {
        16
    }
}

/// The fields of `sym`, but its name, are those of the record at `p` in `d`.
pub open spec fn symbol_decoded(sym: Symbol, big: bool, class: u8, d: Seq<u8>, p: int) -> bool {
    let info_at = if class == ELFCLASS64 {
        p + 4
    } else {
        p + 12
    };
    &&& sym.bind == d[info_at] / 16
    &&& sym.stype == d[info_at] % 16
    &&& sym.other == d[info_at + 1]
    &&& class == ELFCLASS64 ==> {
        &&& sym.shndx as nat == uint_at(big, d, p + 6, 2)
        &&& sym.value as nat == uint_at(big, d, p + 8, 8)
        &&& sym.size as nat == uint_at(big, d, p + 16, 8)
    }
    &&& class != ELFCLASS64 ==> {
        &&& sym.value as nat == uint_at(big, d, p + 4, 4)
        &&& sym.size as nat == uint_at(big, d, p + 8, 4)
        &&& sym.shndx as nat == uint_at(big, d, p + 14, 2)
    }
}

/// The link field of `s` names a section of `elf`.
pub open spec fn link_ok(elf: &Elfio, s: &ElfSection) -> bool {
    (s.sh_link as int) < elf.sections().len()
}

/// Payload of the section that `s` links to.
pub open spec fn linked_table(elf: &Elfio, s: &ElfSection) -> Seq<u8>
    recommends
        link_ok(elf, s),
{
    elf.sections()[s.sh_link as int].data@
}

/// `sym` is symbol `index` of table `s`, its name read from the linked string table.
pub open spec fn symbol_matches(elf: &Elfio, s: &ElfSection, index: u64, sym: Symbol) -> bool {
    let big = s.converter.is_needed;
    let p = index * s.sh_entsize;
    &&& symbol_decoded(sym, big, s.class, s.data@, p)
    &&& sym.name@ == utf8_lossy(string_at(linked_table(elf, s), uint_at(big, s.data@, p, 4) as int))
}

/// The payload of the section linked from `s`; none when the link names no section.
pub fn linked_data<'a>(elf: &'a Elfio, s: &ElfSection) -> (r: Option<&'a [u8]>)
    ensures
        r is Some <==> link_ok(elf, s),
        r matches Some(t) ==> t@ == linked_table(elf, s),
{
    let sections = elf.get_sections();
    let link = s.sh_link as usize;
    if link < sections.len() {
        Some(sections[link].data.as_slice())
    } else {
        None
    }
}

/// A symbol-table view of a section.
pub struct SymbolSectionAccessor<'a> {
    /// The file the section belongs to.
    pub elfio: &'a Elfio,
    /// The symbol table section.
    pub section: &'a ElfSection,
}

impl<'a> SymbolSectionAccessor<'a> {
    /// Creates a new instance of the symbol table accessor.
    pub fn new(elfio: &'a Elfio, section: &'a ElfSection) -> (r: SymbolSectionAccessor<'a>)
        ensures
            r.elfio == elfio,
            r.section == section,
    {
        SymbolSectionAccessor { elfio, section }
    }

    /// Returns the number of symbols: the section size over the entry size.
    pub fn get_symbols_num(&self) -> (r: ElfXword)
        ensures
            r == entry_count(self.section.sh_size, self.section.sh_entsize),
            self.section.sh_entsize != 0 ==> r == self.section.sh_size / self.section.sh_entsize,
    {
        entries_num(self.section.sh_size, self.section.sh_entsize)
    }

    /// Get a symbol by its index; absent past the count, when the record
    /// does not lie within the payload, or when the table links to no section.
    pub fn get_symbol(&self, index: ElfXword) -> (r: Option<Symbol>)
        ensures
            r is Some <==> entry_present(
                self.section.sh_size,
                self.section.sh_entsize,
                index,
                symbol_record_size(self.section.class),
                self.section.data@.len() as int,
            ) && link_ok(self.elfio, self.section),
            r matches Some(sym) ==> symbol_matches(self.elfio, self.section, index, sym),
    {
        let s = self.section;
        let wide = s.class == ELFCLASS64;
        let recsize: u64 = if wide {
            24
        } else {
            16
        };
        let p = match entry_offset(s.sh_size, s.sh_entsize, index, recsize, s.data.len()) {
            None => {
                return None;
            },
            Some(p) => p,
        };
        let table = match linked_data(self.elfio, s) {
            None => {
                return None;
            },
            Some(t) => t,
        };
        let d = s.data.as_slice();
        let c = s.converter;
        let name_offset = c.read_u32(d, p);
        let info_at = if wide {
            p + 4
        } else {
            p + 12
        };
        let info = c.read_u8(d, info_at);
        let other = c.read_u8(d, info_at + 1);
        let (value, size, shndx) = if wide {
            (c.read_u64(d, p + 8), c.read_u64(d, p + 16), c.read_u16(d, p + 6))
        } else {
            (c.read_u32(d, p + 4) as u64, c.read_u32(d, p + 8) as u64, c.read_u16(d, p + 14))
        };
        let name_bytes = str_from_u8_nul(table, name_offset as usize);
        Some(
            Symbol {
                name: text_from_bytes(name_bytes.as_slice()),
                value,
                size,
                bind: info / 16,
                stype: info % 16,
                other,
                shndx,
            },
        )
    }
}

} // verus!
