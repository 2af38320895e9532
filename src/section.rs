//! Section records: the entries of the section header table and their payloads.

use vstd::prelude::*;
use crate::header::{addr_width, fit_addr};
use crate::strings::{text_from_bytes, utf8_lossy};
use crate::types::{ElfWord, ElfXword, Elf64Addr, Elf64Off, ELFCLASS32, ELFCLASS64};
use crate::utils::{uint_at, Converter, ElfError};

verus! {

/// Size in bytes of a section header record of the given class.
pub open spec fn section_record_size(class: u8) -> int {
    16 + 6 * addr_width(class)
}

/// The header fields of `s` are those of the record at `p` in `d`.
pub open spec fn section_fields_decoded(s: ElfSection, big: bool, class: u8, d: Seq<u8>, p: int) -> bool {
    let w = addr_width(class);
    &&& s.sh_name as nat == uint_at(big, d, p, 4)
    &&& s.sh_type as nat == uint_at(big, d, p + 4, 4)
    &&& s.sh_flags as nat == uint_at(big, d, p + 8, w)
    &&& s.sh_addr as nat == uint_at(big, d, p + 8 + w, w)
    &&& s.sh_offset as nat == uint_at(big, d, p + 8 + 2 * w, w)
    &&& s.sh_size as nat == uint_at(big, d, p + 8 + 3 * w, w)
    &&& s.sh_link as nat == uint_at(big, d, p + 8 + 4 * w, 4)
    &&& s.sh_info as nat == uint_at(big, d, p + 12 + 4 * w, 4)
    &&& s.sh_addralign as nat == uint_at(big, d, p + 16 + 4 * w, w)
    &&& s.sh_entsize as nat == uint_at(big, d, p + 16 + 5 * w, w)
}

/// Read and write access to the fields of a section record.
pub trait ElfSectionAccessTrait {
    /// The section's name.
    fn get_name(&self) -> (r: String);

    /// Reads the field `sh_name`.
    fn get_name_string_offset(&self) -> (r: ElfWord);

    /// Reads the field `sh_type`.
    fn get_type(&self) -> (r: ElfWord);

    /// Reads the field `sh_flags`.
    fn get_flags(&self) -> (r: ElfXword);

    /// Reads the field `sh_addr`.
    fn get_address(&self) -> (r: Elf64Addr);

    /// Reads the field `sh_offset`.
    fn get_offset(&self) -> (r: Elf64Off);

    /// Reads the field `sh_size`.
    fn get_size(&self) -> (r: ElfXword);

    /// Reads the field `sh_link`.
    fn get_link(&self) -> (r: ElfWord);

    /// Reads the field `sh_info`.
    fn get_info(&self) -> (r: ElfWord);

    /// Reads the field `sh_addralign`.
    fn get_addr_align(&self) -> (r: ElfXword);

    /// Reads the field `sh_entsize`.
    fn get_entry_size(&self) -> (r: ElfXword);

    /// Writes the field `sh_name`.
    fn set_name_string_offset(&mut self, value: ElfWord);

    /// Writes the field `sh_type`.
    fn set_type(&mut self, value: ElfWord);

    /// Writes the field `sh_flags`.
    fn set_flags(&mut self, value: ElfXword);

    /// Writes the field `sh_addr`.
    fn set_address(&mut self, value: Elf64Addr);

    /// Writes the field `sh_offset`.
    fn set_offset(&mut self, value: Elf64Off);

    /// Writes the field `sh_size`.
    fn set_size(&mut self, value: ElfXword);

    /// Writes the field `sh_link`.
    fn set_link(&mut self, value: ElfWord);

    /// Writes the field `sh_info`.
    fn set_info(&mut self, value: ElfWord);

    /// Writes the field `sh_addralign`.
    fn set_addr_align(&mut self, value: ElfXword);

    /// Writes the field `sh_entsize`.
    fn set_entry_size(&mut self, value: ElfXword);

}

/// A section record: header fields widened to 64 bits, the resolved name and
/// the payload bytes.
#[derive(Debug)]
pub struct ElfSection {
    /// Offset of the name in the section-name string table.
    pub sh_name: ElfWord,
    /// Section type.
    pub sh_type: ElfWord,
    /// Section flags.
    pub sh_flags: ElfXword,
    /// Address in memory.
    pub sh_addr: Elf64Addr,
    /// Offset of the payload in the file.
    pub sh_offset: Elf64Off,
    /// Size of the payload.
    pub sh_size: ElfXword,
    /// Index of a linked section.
    pub sh_link: ElfWord,
    /// Extra information.
    pub sh_info: ElfWord,
    /// Address alignment.
    pub sh_addralign: ElfXword,
    /// Size of one table entry.
    pub sh_entsize: ElfXword,
    /// Name bytes, resolved after loading.
    pub name: Vec<u8>,
    /// Payload bytes.
    pub data: Vec<u8>,
    /// Byte-order converter of the file.
    pub converter: Converter,
    /// Class of the file.
    pub class: u8,
}

impl ElfSection {
    /// An empty section record for a file of the given converter and class.
    pub fn new(conv: &Converter, class: u8) -> (r: ElfSection)
        ensures
            r.sh_name == 0 && r.sh_type == 0 && r.sh_flags == 0 && r.sh_addr == 0,
            r.sh_offset == 0 && r.sh_size == 0 && r.sh_link == 0 && r.sh_info == 0,
            r.sh_addralign == 0 && r.sh_entsize == 0,
            r.name@.len() == 0,
            r.data@.len() == 0,
            r.converter == *conv,
            r.class == class,
    {
        ElfSection {
            sh_name: 0,
            sh_type: 0,
            sh_flags: 0,
            sh_addr: 0,
            sh_offset: 0,
            sh_size: 0,
            sh_link: 0,
            sh_info: 0,
            sh_addralign: 0,
            sh_entsize: 0,
            name: Vec::new(),
            data: Vec::new(),
            converter: *conv,
            class,
        }
    }

    /// Decodes the header record at `pos` of `d`; fails with `Io` when the
    /// record does not lie within `d`.
    pub fn load(&mut self, d: &[u8], pos: u64) -> (r: Result<(), ElfError>)
        ensures
            pos + section_record_size(old(self).class) <= d@.len() ==> {
                &&& r is Ok
                &&& section_fields_decoded(
                    *final(self),
                    old(self).converter.is_needed,
                    old(self).class,
                    d@,
                    pos as int,
                )
                &&& final(self).name == old(self).name
                &&& final(self).data == old(self).data
                &&& final(self).converter == old(self).converter
                &&& final(self).class == old(self).class
            },
            pos + section_record_size(old(self).class) > d@.len() ==> r == Err::<(), ElfError>(
                ElfError::Io,
            ) && *final(self) == *old(self),
    {
        let wide = self.class == ELFCLASS64;
        let w: usize = if wide {
            8
        } else {
            4
        };
        let size: u64 = 16 + 6 * (w as u64);
        let len = d.len() as u64;
        if pos > len || len - pos < size {
            return Err(ElfError::Io);
        }
        let p = pos as usize;
        let c = self.converter;
        self.sh_name = c.read_u32(d, p);
        self.sh_type = c.read_u32(d, p + 4);
        self.sh_flags = c.read_addr(d, p + 8, wide);
        self.sh_addr = c.read_addr(d, p + 8 + w, wide);
        self.sh_offset = c.read_addr(d, p + 8 + 2 * w, wide);
        self.sh_size = c.read_addr(d, p + 8 + 3 * w, wide);
        self.sh_link = c.read_u32(d, p + 8 + 4 * w);
        self.sh_info = c.read_u32(d, p + 12 + 4 * w);
        self.sh_addralign = c.read_addr(d, p + 16 + 4 * w, wide);
        self.sh_entsize = c.read_addr(d, p + 16 + 5 * w, wide);
        Ok(())
    }

    /// This record with the given name and payload.
    pub fn with_contents(&self, name: Vec<u8>, data: Vec<u8>) -> (r: ElfSection)
        ensures
            r == (ElfSection { name: name, data: data, ..*self }),
    {
        ElfSection {
            sh_name: self.sh_name,
            sh_type: self.sh_type,
            sh_flags: self.sh_flags,
            sh_addr: self.sh_addr,
            sh_offset: self.sh_offset,
            sh_size: self.sh_size,
            sh_link: self.sh_link,
            sh_info: self.sh_info,
            sh_addralign: self.sh_addralign,
            sh_entsize: self.sh_entsize,
            name,
            data,
            converter: self.converter,
            class: self.class,
        }
    }

    /// The payload bytes.
    pub fn get_data(&self) -> (r: &[u8])
        ensures
            r@ == self.data@,
    {
        self.data.as_slice()
    }

    /// The name as bytes.
    pub fn get_name_bytes(&self) -> (r: &[u8])
        ensures
            r@ == self.name@,
    {
        self.name.as_slice()
    }
}

impl ElfSectionAccessTrait for ElfSection {
    fn get_name(&self) -> (r: String)
        ensures
            r@ == utf8_lossy(self.name@),
    {
        text_from_bytes(self.name.as_slice())
    }

    fn get_name_string_offset(&self) -> (r: ElfWord)
        ensures
            r == self.sh_name,
    {
        self.sh_name
    }

    fn get_type(&self) -> (r: ElfWord)
        ensures
            r == self.sh_type,
    {
        self.sh_type
    }

    fn get_flags(&self) -> (r: ElfXword)
        ensures
            r == self.sh_flags,
    {
        self.sh_flags
    }

    fn get_address(&self) -> (r: Elf64Addr)
        ensures
            r == self.sh_addr,
    {
        self.sh_addr
    }

    fn get_offset(&self) -> (r: Elf64Off)
        ensures
            r == self.sh_offset,
    {
        self.sh_offset
    }

    fn get_size(&self) -> (r: ElfXword)
        ensures
            r == self.sh_size,
    {
        self.sh_size
    }

    fn get_link(&self) -> (r: ElfWord)
        ensures
            r == self.sh_link,
    {
        self.sh_link
    }

    fn get_info(&self) -> (r: ElfWord)
        ensures
            r == self.sh_info,
    {
        self.sh_info
    }

    fn get_addr_align(&self) -> (r: ElfXword)
        ensures
            r == self.sh_addralign,
    {
        self.sh_addralign
    }

    fn get_entry_size(&self) -> (r: ElfXword)
        ensures
            r == self.sh_entsize,
    {
        self.sh_entsize
    }

    fn set_name_string_offset(&mut self, value: ElfWord)
        ensures
            *final(self) == (ElfSection { sh_name: value, ..*old(self) }),
    {
        self.sh_name = value;
    }

    fn set_type(&mut self, value: ElfWord)
        ensures
            *final(self) == (ElfSection { sh_type: value, ..*old(self) }),
    {
        self.sh_type = value;
    }

    fn set_flags(&mut self, value: ElfXword)
        ensures
            *final(self) == (ElfSection { sh_flags: fit_addr(old(self).class, value), ..*old(self) }),
    {
        self.sh_flags = if self.class == ELFCLASS32 {
            value % 0x1_0000_0000
        } else {
            value
        };
    }

    fn set_address(&mut self, value: Elf64Addr)
        ensures
            *final(self) == (ElfSection { sh_addr: fit_addr(old(self).class, value), ..*old(self) }),
    {
        self.sh_addr = if self.class == ELFCLASS32 {
            value % 0x1_0000_0000
        } else {
            value
        };
    }

    fn set_offset(&mut self, value: Elf64Off)
        ensures
            *final(self) == (ElfSection { sh_offset: fit_addr(old(self).class, value), ..*old(self) }),
    {
        self.sh_offset = if self.class == ELFCLASS32 {
            value % 0x1_0000_0000
        } else {
            value
        };
    }

    fn set_size(&mut self, value: ElfXword)
        ensures
            *final(self) == (ElfSection { sh_size: fit_addr(old(self).class, value), ..*old(self) }),
    {
        self.sh_size = if self.class == ELFCLASS32 {
            value % 0x1_0000_0000
        } else {
            value
        };
    }

    fn set_link(&mut self, value: ElfWord)
        ensures
            *final(self) == (ElfSection { sh_link: value, ..*old(self) }),
    {
        self.sh_link = value;
    }

    fn set_info(&mut self, value: ElfWord)
        ensures
            *final(self) == (ElfSection { sh_info: value, ..*old(self) }),
    {
        self.sh_info = value;
    }

    fn set_addr_align(&mut self, value: ElfXword)
        ensures
            *final(self) == (ElfSection { sh_addralign: fit_addr(old(self).class, value), ..*old(self) }),
    {
        self.sh_addralign = if self.class == ELFCLASS32 {
            value % 0x1_0000_0000
        } else {
            value
        };
    }

    fn set_entry_size(&mut self, value: ElfXword)
        ensures
            *final(self) == (ElfSection { sh_entsize: fit_addr(old(self).class, value), ..*old(self) }),
    {
        self.sh_entsize = if self.class == ELFCLASS32 {
            value % 0x1_0000_0000
        } else {
            value
        };
    }

}

} // verus!
