//! Segment records: the entries of the program header table.

use vstd::prelude::*;
use crate::header::fit_addr;
use crate::types::{ElfWord, ElfXword, Elf64Addr, Elf64Off, ELFCLASS32, ELFCLASS64};
use crate::utils::{uint_at, Converter, ElfError};

verus! {

/// Size in bytes of a program header record of the given class.
pub open spec fn segment_record_size(class: u8) -> int {
    if class == ELFCLASS64 {
        56
    } else {
        32
    }
}

/// The fields of `s` are those of the record at `p` in `d`. A 64-bit record
/// stores `flags` second; a 32-bit record stores it after the memory size.
pub open spec fn segment_fields_decoded(s: ElfSegment, big: bool, class: u8, d: Seq<u8>, p: int) -> bool {
    &&& s.p_type as nat == uint_at(big, d, p, 4)
    &&& class == ELFCLASS64 ==> {
        &&& s.p_flags as nat == uint_at(big, d, p + 4, 4)
        &&& s.p_offset as nat == uint_at(big, d, p + 8, 8)
        &&& s.p_vaddr as nat == uint_at(big, d, p + 16, 8)
        &&& s.p_paddr as nat == uint_at(big, d, p + 24, 8)
        &&& s.p_filesz as nat == uint_at(big, d, p + 32, 8)
        &&& s.p_memsz as nat == uint_at(big, d, p + 40, 8)
        &&& s.p_align as nat == uint_at(big, d, p + 48, 8)
    }
    &&& class != ELFCLASS64 ==> {
        &&& s.p_offset as nat == uint_at(big, d, p + 4, 4)
        &&& s.p_vaddr as nat == uint_at(big, d, p + 8, 4)
        &&& s.p_paddr as nat == uint_at(big, d, p + 12, 4)
        &&& s.p_filesz as nat == uint_at(big, d, p + 16, 4)
        &&& s.p_memsz as nat == uint_at(big, d, p + 20, 4)
        &&& s.p_flags as nat == uint_at(big, d, p + 24, 4)
        &&& s.p_align as nat == uint_at(big, d, p + 28, 4)
    }
}

/// Read and write access to segment properties.
pub trait ElfSegmentAccessTrait {
    /// Reads the field `p_type`.
    fn get_type(&self) -> (r: ElfWord);

    /// Reads the field `p_flags`.
    fn get_flags(&self) -> (r: ElfWord);

    /// Reads the field `p_offset`.
    fn get_offset(&self) -> (r: Elf64Off);

    /// Reads the field `p_vaddr`.
    fn get_virtual_address(&self) -> (r: Elf64Addr);

    /// Reads the field `p_paddr`.
    fn get_physical_address(&self) -> (r: Elf64Addr);

    /// Reads the field `p_filesz`.
    fn get_file_size(&self) -> (r: ElfXword);

    /// Reads the field `p_memsz`.
    fn get_memory_size(&self) -> (r: ElfXword);

    /// Reads the field `p_align`.
    fn get_align(&self) -> (r: ElfXword);

    /// Writes the field `p_type`.
    fn set_type(&mut self, value: ElfWord);

    /// Writes the field `p_flags`.
    fn set_flags(&mut self, value: ElfWord);

    /// Writes the field `p_vaddr`.
    fn set_virtual_address(&mut self, value: Elf64Addr);

    /// Writes the field `p_paddr`.
    fn set_physical_address(&mut self, value: Elf64Addr);

    /// Writes the field `p_filesz`.
    fn set_file_size(&mut self, value: ElfXword);

    /// Writes the field `p_memsz`.
    fn set_memory_size(&mut self, value: ElfXword);

    /// Writes the field `p_align`.
    fn set_align(&mut self, value: ElfXword);

}

/// A segment record with addresses and sizes widened to 64 bits.
#[derive(Debug, Clone, Copy)]
pub struct ElfSegment {
    /// Segment type.
    pub p_type: ElfWord,
    /// Segment flags.
    pub p_flags: ElfWord,
    /// Offset in the file.
    pub p_offset: Elf64Off,
    /// Virtual address.
    pub p_vaddr: Elf64Addr,
    /// Physical address.
    pub p_paddr: Elf64Addr,
    /// Size in the file.
    pub p_filesz: ElfXword,
    /// Size in memory.
    pub p_memsz: ElfXword,
    /// Alignment.
    pub p_align: ElfXword,
    /// Byte-order converter of the file.
    pub converter: Converter,
    /// Class of the file.
    pub class: u8,
}

impl ElfSegment {
    /// An empty segment record for a file of the given converter and class.
    pub fn new(conv: &Converter, class: u8) -> (r: ElfSegment)
        ensures
            r == (ElfSegment {
                p_type: 0,
                p_flags: 0,
                p_offset: 0,
                p_vaddr: 0,
                p_paddr: 0,
                p_filesz: 0,
                p_memsz: 0,
                p_align: 0,
                converter: *conv,
                class,
            }),
    {
        ElfSegment {
            p_type: 0,
            p_flags: 0,
            p_offset: 0,
            p_vaddr: 0,
            p_paddr: 0,
            p_filesz: 0,
            p_memsz: 0,
            p_align: 0,
            converter: *conv,
            class,
        }
    }

    /// Decodes the record at `pos` of `d` in the field order of the record's
    /// class; fails with `Io` when the record does not lie within `d`.
    pub fn load(&mut self, d: &[u8], pos: u64) -> (r: Result<(), ElfError>)
        ensures
            pos + segment_record_size(old(self).class) <= d@.len() ==> {
                &&& r is Ok
                &&& segment_fields_decoded(
                    *final(self),
                    old(self).converter.is_needed,
                    old(self).class,
                    d@,
                    pos as int,
                )
                &&& final(self).converter == old(self).converter
                &&& final(self).class == old(self).class
            },
            pos + segment_record_size(old(self).class) > d@.len() ==> r == Err::<(), ElfError>(
                ElfError::Io,
            ) && *final(self) == *old(self),
    {
        let wide = self.class == ELFCLASS64;
        let size: u64 = if wide {
            56
        } else {
            32
        };
        let len = d.len() as u64;
        if pos > len || len - pos < size {
            return Err(ElfError::Io);
        }
        let p = pos as usize;
        let c = self.converter;
        self.p_type = c.read_u32(d, p);
        if wide {
            self.p_flags = c.read_u32(d, p + 4);
            self.p_offset = c.read_u64(d, p + 8);
            self.p_vaddr = c.read_u64(d, p + 16);
            self.p_paddr = c.read_u64(d, p + 24);
            self.p_filesz = c.read_u64(d, p + 32);
            self.p_memsz = c.read_u64(d, p + 40);
            self.p_align = c.read_u64(d, p + 48);
        } else {
            self.p_offset = c.read_u32(d, p + 4) as u64;
            self.p_vaddr = c.read_u32(d, p + 8) as u64;
            self.p_paddr = c.read_u32(d, p + 12) as u64;
            self.p_filesz = c.read_u32(d, p + 16) as u64;
            self.p_memsz = c.read_u32(d, p + 20) as u64;
            self.p_flags = c.read_u32(d, p + 24);
            self.p_align = c.read_u32(d, p + 28) as u64;
        }
        Ok(())
    }
}

impl ElfSegmentAccessTrait for ElfSegment {
    fn get_type(&self) -> (r: ElfWord)
        ensures
            r == self.p_type,
    {
        self.p_type
    }

    fn get_flags(&self) -> (r: ElfWord)
        ensures
            r == self.p_flags,
    {
        self.p_flags
    }

    fn get_offset(&self) -> (r: Elf64Off)
        ensures
            r == self.p_offset,
    {
        self.p_offset
    }

    fn get_virtual_address(&self) -> (r: Elf64Addr)
        ensures
            r == self.p_vaddr,
    {
        self.p_vaddr
    }

    fn get_physical_address(&self) -> (r: Elf64Addr)
        ensures
            r == self.p_paddr,
    {
        self.p_paddr
    }

    fn get_file_size(&self) -> (r: ElfXword)
        ensures
            r == self.p_filesz,
    {
        self.p_filesz
    }

    fn get_memory_size(&self) -> (r: ElfXword)
        ensures
            r == self.p_memsz,
    {
        self.p_memsz
    }

    fn get_align(&self) -> (r: ElfXword)
        ensures
            r == self.p_align,
    {
        self.p_align
    }

    fn set_type(&mut self, value: ElfWord)
        ensures
            *final(self) == (ElfSegment { p_type: value, ..*old(self) }),
    {
        self.p_type = value;
    }

    fn set_flags(&mut self, value: ElfWord)
        ensures
            *final(self) == (ElfSegment { p_flags: value, ..*old(self) }),
    {
        self.p_flags = value;
    }

    fn set_virtual_address(&mut self, value: Elf64Addr)
        ensures
            *final(self) == (ElfSegment { p_vaddr: fit_addr(old(self).class, value), ..*old(self) }),
    {
        self.p_vaddr = if self.class == ELFCLASS32 {
            value % 0x1_0000_0000
        } else {
            value
        };
    }

    fn set_physical_address(&mut self, value: Elf64Addr)
        ensures
            *final(self) == (ElfSegment { p_paddr: fit_addr(old(self).class, value), ..*old(self) }),
    {
        self.p_paddr = if self.class == ELFCLASS32 {
            value % 0x1_0000_0000
        } else {
            value
        };
    }

    fn set_file_size(&mut self, value: ElfXword)
        ensures
            *final(self) == (ElfSegment { p_filesz: fit_addr(old(self).class, value), ..*old(self) }),
    {
        self.p_filesz = if self.class == ELFCLASS32 {
            value % 0x1_0000_0000
        } else {
            value
        };
    }

    fn set_memory_size(&mut self, value: ElfXword)
        ensures
            *final(self) == (ElfSegment { p_memsz: fit_addr(old(self).class, value), ..*old(self) }),
    {
        self.p_memsz = if self.class == ELFCLASS32 {
            value % 0x1_0000_0000
        } else {
            value
        };
    }

    fn set_align(&mut self, value: ElfXword)
        ensures
            *final(self) == (ElfSegment { p_align: fit_addr(old(self).class, value), ..*old(self) }),
    {
        self.p_align = if self.class == ELFCLASS32 {
            value % 0x1_0000_0000
        } else {
            value
        };
    }

}

} // verus!
