//! The file header: identification bytes and the class-dependent header record.

use vstd::prelude::*;
use crate::types::{ElfHalf, ElfWord, Elf64Addr, Elf64Off, ELFCLASS32, ELFCLASS64, ELFCLASSNONE, ELFDATANONE, EV_NONE};
use crate::utils::{uint_at, Converter, ElfError};

verus! {

/// Width in bytes of an address or file offset in a file of the given class.
pub open spec fn addr_width(class: u8) -> int {
    if class == ELFCLASS64 {
        8
    } else {
        4
    }
}

/// `v` as an address field of the given class can hold it: cut to 32 bits
/// in a 32-bit file, kept whole otherwise.
pub open spec fn fit_addr(class: u8, v: u64) -> u64 {
    if class == ELFCLASS32 {
        (v % 0x1_0000_0000) as u64
    } else {
        v
    }
}

/// Size in bytes of the header record, identification included.
pub open spec fn header_size_of(class: u8) -> int {
    40 + 3 * addr_width(class)
}

/// `h` holds the header fields stored at the start of `d`, decoded in the
/// byte order `big`, with the address width given by the class byte.
pub open spec fn header_decoded(h: ElfHeader, big: bool, d: Seq<u8>) -> bool {
    let w = addr_width(d[4]);
    &&& h.ei_class == d[4]
    &&& h.ei_data == d[5]
    &&& h.ei_version == d[6]
    &&& h.ei_osabi == d[7]
    &&& h.ei_abiversion == d[8]
    &&& h.e_type as nat == uint_at(big, d, 16, 2)
    &&& h.e_machine as nat == uint_at(big, d, 18, 2)
    &&& h.e_version as nat == uint_at(big, d, 20, 4)
    &&& h.e_entry as nat == uint_at(big, d, 24, w)
    &&& h.e_phoff as nat == uint_at(big, d, 24 + w, w)
    &&& h.e_shoff as nat == uint_at(big, d, 24 + 2 * w, w)
    &&& h.e_flags as nat == uint_at(big, d, 24 + 3 * w, 4)
    &&& h.e_ehsize as nat == uint_at(big, d, 28 + 3 * w, 2)
    &&& h.e_phentsize as nat == uint_at(big, d, 30 + 3 * w, 2)
    &&& h.e_phnum as nat == uint_at(big, d, 32 + 3 * w, 2)
    &&& h.e_shentsize as nat == uint_at(big, d, 34 + 3 * w, 2)
    &&& h.e_shnum as nat == uint_at(big, d, 36 + 3 * w, 2)
    &&& h.e_shstrndx as nat == uint_at(big, d, 38 + 3 * w, 2)
}

/// Read and write access to the fields of a file header.
pub trait ElfHeaderAccessTrait {
    /// Reads the header field `ei_class`.
    fn get_class(&self) -> (r: u8);

    /// Reads the header field `ei_version`.
    fn get_elf_version(&self) -> (r: u8);

    /// Reads the header field `ei_data`.
    fn get_encoding(&self) -> (r: u8);

    /// Reads the header field `e_ehsize`.
    fn get_header_size(&self) -> (r: ElfHalf);

    /// Reads the header field `e_shentsize`.
    fn get_section_entry_size(&self) -> (r: ElfHalf);

    /// Reads the header field `e_phentsize`.
    fn get_segment_entry_size(&self) -> (r: ElfHalf);

    /// Reads the header field `e_version`.
    fn get_version(&self) -> (r: ElfWord);

    /// Reads the header field `ei_osabi`.
    fn get_os_abi(&self) -> (r: u8);

    /// Reads the header field `ei_abiversion`.
    fn get_abi_version(&self) -> (r: u8);

    /// Reads the header field `e_type`.
    fn get_type(&self) -> (r: ElfHalf);

    /// Reads the header field `e_machine`.
    fn get_machine(&self) -> (r: ElfHalf);

    /// Reads the header field `e_flags`.
    fn get_flags(&self) -> (r: ElfWord);

    /// Reads the header field `e_entry`.
    fn get_entry(&self) -> (r: Elf64Addr);

    /// Reads the header field `e_shnum`.
    fn get_sections_num(&self) -> (r: ElfHalf);

    /// Reads the header field `e_shoff`.
    fn get_sections_offset(&self) -> (r: Elf64Off);

    /// Reads the header field `e_phnum`.
    fn get_segments_num(&self) -> (r: ElfHalf);

    /// Reads the header field `e_phoff`.
    fn get_segments_offset(&self) -> (r: Elf64Off);

    /// Reads the header field `e_shstrndx`.
    fn get_section_name_str_index(&self) -> (r: ElfHalf);

    /// Writes the header field `e_version`.
    fn set_version(&mut self, value: ElfWord);

    /// Writes the header field `ei_osabi`.
    fn set_os_abi(&mut self, value: u8);

    /// Writes the header field `ei_abiversion`.
    fn set_abi_version(&mut self, value: u8);

    /// Writes the header field `e_type`.
    fn set_type(&mut self, value: ElfHalf);

    /// Writes the header field `e_machine`.
    fn set_machine(&mut self, value: ElfHalf);

    /// Writes the header field `e_flags`.
    fn set_flags(&mut self, value: ElfWord);

    /// Writes the header field `e_entry`.
    fn set_entry(&mut self, value: Elf64Addr);

    /// Writes the header field `e_shnum`.
    fn set_sections_num(&mut self, value: ElfHalf);

    /// Writes the header field `e_shoff`.
    fn set_sections_offset(&mut self, value: Elf64Off);

    /// Writes the header field `e_phnum`.
    fn set_segments_num(&mut self, value: ElfHalf);

    /// Writes the header field `e_phoff`.
    fn set_segments_offset(&mut self, value: Elf64Off);

    /// Writes the header field `e_shstrndx`.
    fn set_section_name_str_index(&mut self, value: ElfHalf);

    /// Sets the converter used when the header is loaded.
    fn set_converter(&mut self, converter: &Converter);
}

/// The ELF file header, with addresses and offsets widened to 64 bits.
#[derive(Debug, Clone, Copy)]
pub struct ElfHeader {
    /// Identification byte: file class.
    pub ei_class: u8,
    /// Identification byte: data encoding.
    pub ei_data: u8,
    /// Identification byte: file version.
    pub ei_version: u8,
    /// Identification byte: OS ABI.
    pub ei_osabi: u8,
    /// Identification byte: ABI version.
    pub ei_abiversion: u8,
    /// Object file type.
    pub e_type: ElfHalf,
    /// Target machine.
    pub e_machine: ElfHalf,
    /// Object file version.
    pub e_version: ElfWord,
    /// Entry point address.
    pub e_entry: Elf64Addr,
    /// Program header table offset.
    pub e_phoff: Elf64Off,
    /// Section header table offset.
    pub e_shoff: Elf64Off,
    /// Processor-specific flags.
    pub e_flags: ElfWord,
    /// Header size.
    pub e_ehsize: ElfHalf,
    /// Program header table entry size.
    pub e_phentsize: ElfHalf,
    /// Program header table entry count.
    pub e_phnum: ElfHalf,
    /// Section header table entry size.
    pub e_shentsize: ElfHalf,
    /// Section header table entry count.
    pub e_shnum: ElfHalf,
    /// Index of the section-name string table.
    pub e_shstrndx: ElfHalf,
    /// Byte-order converter applied when loading.
    pub converter: Converter,
}

impl ElfHeader {
    /// The blank header that [`ElfHeader::new`] returns.
    pub open spec fn new_spec() -> ElfHeader {
        ElfHeader {
            ei_class: ELFCLASSNONE,
            ei_data: ELFDATANONE,
            ei_version: EV_NONE,
            ei_osabi: 0,
            ei_abiversion: 0,
            e_type: 0,
            e_machine: 0,
            e_version: 0,
            e_entry: 0,
            e_phoff: 0,
            e_shoff: 0,
            e_flags: 0,
            e_ehsize: 0,
            e_phentsize: 0,
            e_phnum: 0,
            e_shentsize: 0,
            e_shnum: 0,
            e_shstrndx: 0,
            converter: Converter { is_needed: false },
        }
    }

    /// An empty header: class and encoding unset, every field zero.
    pub fn new() -> (r: ElfHeader)
        ensures
            r == ElfHeader::new_spec(),
    {
        ElfHeader {
            ei_class: ELFCLASSNONE,
            ei_data: ELFDATANONE,
            ei_version: EV_NONE,
            ei_osabi: 0,
            ei_abiversion: 0,
            e_type: 0,
            e_machine: 0,
            e_version: 0,
            e_entry: 0,
            e_phoff: 0,
            e_shoff: 0,
            e_flags: 0,
            e_ehsize: 0,
            e_phentsize: 0,
            e_phnum: 0,
            e_shentsize: 0,
            e_shnum: 0,
            e_shstrndx: 0,
            converter: Converter { is_needed: false },
        }
    }

    /// Decodes the header at the start of `d` with the header's converter.
    /// Fails with `Io` when `d` is shorter than the header record.
    pub fn load(&mut self, d: &[u8]) -> (r: Result<(), ElfError>)
        ensures
            d@.len() >= 16 && d@.len() >= header_size_of(d@[4]) ==> r is Ok && header_decoded(
                *final(self),
                old(self).converter.is_needed,
                d@,
            ) && final(self).converter == old(self).converter,
            !(d@.len() >= 16 && d@.len() >= header_size_of(d@[4])) ==> r == Err::<(), ElfError>(
                ElfError::Io,
            ) && *final(self) == *old(self),
    {
        if d.len() < 16 {
            return Err(ElfError::Io);
        }
        let wide = d[4] == ELFCLASS64;
        let w: usize = if wide {
            8
        } else {
            4
        };
        if d.len() < 40 + 3 * w {
            return Err(ElfError::Io);
        }
        let c = self.converter;
        self.ei_class = d[4];
        self.ei_data = d[5];
        self.ei_version = d[6];
        self.ei_osabi = d[7];
        self.ei_abiversion = d[8];
        self.e_type = c.read_u16(d, 16);
        self.e_machine = c.read_u16(d, 18);
        self.e_version = c.read_u32(d, 20);
        self.e_entry = c.read_addr(d, 24, wide);
        self.e_phoff = c.read_addr(d, 24 + w, wide);
        self.e_shoff = c.read_addr(d, 24 + 2 * w, wide);
        self.e_flags = c.read_u32(d, 24 + 3 * w);
        self.e_ehsize = c.read_u16(d, 28 + 3 * w);
        self.e_phentsize = c.read_u16(d, 30 + 3 * w);
        self.e_phnum = c.read_u16(d, 32 + 3 * w);
        self.e_shentsize = c.read_u16(d, 34 + 3 * w);
        self.e_shnum = c.read_u16(d, 36 + 3 * w);
        self.e_shstrndx = c.read_u16(d, 38 + 3 * w);
        Ok(())
    }
}

impl ElfHeaderAccessTrait for ElfHeader {
    fn get_class(&self) -> (r: u8)
        ensures
            r == self.ei_class,
    {
        self.ei_class
    }

    fn get_elf_version(&self) -> (r: u8)
        ensures
            r == self.ei_version,
    {
        self.ei_version
    }

    fn get_encoding(&self) -> (r: u8)
        ensures
            r == self.ei_data,
    {
        self.ei_data
    }

    fn get_header_size(&self) -> (r: ElfHalf)
        ensures
            r == self.e_ehsize,
    {
        self.e_ehsize
    }

    fn get_section_entry_size(&self) -> (r: ElfHalf)
        ensures
            r == self.e_shentsize,
    {
        self.e_shentsize
    }

    fn get_segment_entry_size(&self) -> (r: ElfHalf)
        ensures
            r == self.e_phentsize,
    {
        self.e_phentsize
    }

    fn get_version(&self) -> (r: ElfWord)
        ensures
            r == self.e_version,
    {
        self.e_version
    }

    fn get_os_abi(&self) -> (r: u8)
        ensures
            r == self.ei_osabi,
    {
        self.ei_osabi
    }

    fn get_abi_version(&self) -> (r: u8)
        ensures
            r == self.ei_abiversion,
    {
        self.ei_abiversion
    }

    fn get_type(&self) -> (r: ElfHalf)
        ensures
            r == self.e_type,
    {
        self.e_type
    }

    fn get_machine(&self) -> (r: ElfHalf)
        ensures
            r == self.e_machine,
    {
        self.e_machine
    }

    fn get_flags(&self) -> (r: ElfWord)
        ensures
            r == self.e_flags,
    {
        self.e_flags
    }

    fn get_entry(&self) -> (r: Elf64Addr)
        ensures
            r == self.e_entry,
    {
        self.e_entry
    }

    fn get_sections_num(&self) -> (r: ElfHalf)
        ensures
            r == self.e_shnum,
    {
        self.e_shnum
    }

    fn get_sections_offset(&self) -> (r: Elf64Off)
        ensures
            r == self.e_shoff,
    {
        self.e_shoff
    }

    fn get_segments_num(&self) -> (r: ElfHalf)
        ensures
            r == self.e_phnum,
    {
        self.e_phnum
    }

    fn get_segments_offset(&self) -> (r: Elf64Off)
        ensures
            r == self.e_phoff,
    {
        self.e_phoff
    }

    fn get_section_name_str_index(&self) -> (r: ElfHalf)
        ensures
            r == self.e_shstrndx,
    {
        self.e_shstrndx
    }

    fn set_version(&mut self, value: ElfWord)
        ensures
            *final(self) == (ElfHeader { e_version: value, ..*old(self) }),
    {
        self.e_version = value;
    }

    fn set_os_abi(&mut self, value: u8)
        ensures
            *final(self) == (ElfHeader { ei_osabi: value, ..*old(self) }),
    {
        self.ei_osabi = value;
    }

    fn set_abi_version(&mut self, value: u8)
        ensures
            *final(self) == (ElfHeader { ei_abiversion: value, ..*old(self) }),
    {
        self.ei_abiversion = value;
    }

    fn set_type(&mut self, value: ElfHalf)
        ensures
            *final(self) == (ElfHeader { e_type: value, ..*old(self) }),
    {
        self.e_type = value;
    }

    fn set_machine(&mut self, value: ElfHalf)
        ensures
            *final(self) == (ElfHeader { e_machine: value, ..*old(self) }),
    {
        self.e_machine = value;
    }

    fn set_flags(&mut self, value: ElfWord)
        ensures
            *final(self) == (ElfHeader { e_flags: value, ..*old(self) }),
    {
        self.e_flags = value;
    }

    fn set_entry(&mut self, value: Elf64Addr)
        ensures
            *final(self) == (ElfHeader { e_entry: fit_addr(old(self).ei_class, value), ..*old(self) }),
    {
        self.e_entry = if self.ei_class == ELFCLASS32 {
            value % 0x1_0000_0000
        } else {
            value
        };
    }

    fn set_sections_num(&mut self, value: ElfHalf)
        ensures
            *final(self) == (ElfHeader { e_shnum: value, ..*old(self) }),
    {
        self.e_shnum = value;
    }

    fn set_sections_offset(&mut self, value: Elf64Off)
        ensures
            *final(self) == (ElfHeader { e_shoff: fit_addr(old(self).ei_class, value), ..*old(self) }),
    {
        self.e_shoff = if self.ei_class == ELFCLASS32 {
            value % 0x1_0000_0000
        } else {
            value
        };
    }

    fn set_segments_num(&mut self, value: ElfHalf)
        ensures
            *final(self) == (ElfHeader { e_phnum: value, ..*old(self) }),
    {
        self.e_phnum = value;
    }

    fn set_segments_offset(&mut self, value: Elf64Off)
        ensures
            *final(self) == (ElfHeader { e_phoff: fit_addr(old(self).ei_class, value), ..*old(self) }),
    {
        self.e_phoff = if self.ei_class == ELFCLASS32 {
            value % 0x1_0000_0000
        } else {
            value
        };
    }

    fn set_section_name_str_index(&mut self, value: ElfHalf)
        ensures
            *final(self) == (ElfHeader { e_shstrndx: value, ..*old(self) }),
    {
        self.e_shstrndx = value;
    }

    fn set_converter(&mut self, converter: &Converter)
        ensures
            *final(self) == (ElfHeader { converter: *converter, ..*old(self) }),
    {
        self.converter = *converter;
    }
}

} // verus!
