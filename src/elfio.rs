//! The loaded file: validation of the identification bytes, the header, and
//! the section and segment tables.

use vstd::prelude::*;
use vstd::string::StringSliceAdditionalSpecFns;
use crate::header::{addr_width, header_decoded, header_size_of, ElfHeader, ElfHeaderAccessTrait, fit_addr};
use crate::section::{section_fields_decoded, section_record_size, ElfSection};
use crate::segment::{segment_fields_decoded, segment_record_size, ElfSegment};
use crate::strings::{str_from_u8_nul, string_at};
use crate::types::{
    ElfHalf, ElfWord, Elf64Addr, Elf64Off, ELFCLASS32, ELFCLASS64, ELFDATA2LSB, ELFDATA2MSB,
    ELFMAG0, ELFMAG1, ELFMAG2, ELFMAG3, SHT_NOBITS,
};
use crate::utils::{bytes_equal, copy_range, uint_at, Converter, ElfError};

verus! {

/// The file stores multi-byte fields most-significant byte first.
pub open spec fn file_big(d: Seq<u8>) -> bool {
    d[5] == ELFDATA2MSB
}

/// Header field at `off` past the three address-sized fields, of `w` bytes.
pub open spec fn header_field(d: Seq<u8>, off: int, w: int) -> int {
    uint_at(file_big(d), d, off + 3 * addr_width(d[4]), w) as int
}

/// Offset of the section header table.
pub open spec fn shoff_of(d: Seq<u8>) -> int {
    uint_at(file_big(d), d, 24 + 2 * addr_width(d[4]), addr_width(d[4])) as int
}

/// Offset of the program header table.
pub open spec fn phoff_of(d: Seq<u8>) -> int {
    uint_at(file_big(d), d, 24 + addr_width(d[4]), addr_width(d[4])) as int
}

/// Number of section records.
pub open spec fn shnum_of(d: Seq<u8>) -> int {
    header_field(d, 36, 2)
}

/// Number of segment records.
pub open spec fn phnum_of(d: Seq<u8>) -> int {
    header_field(d, 32, 2)
}

/// Index of the section-name string table.
pub open spec fn shstrndx_of(d: Seq<u8>) -> int {
    header_field(d, 38, 2)
}

/// File position of section record `i`.
pub open spec fn section_pos(d: Seq<u8>, i: int) -> int {
    shoff_of(d) + i * header_field(d, 34, 2)
}

/// File position of segment record `i`.
pub open spec fn segment_pos(d: Seq<u8>, i: int) -> int {
    phoff_of(d) + i * header_field(d, 30, 2)
}

/// Type of section `i`.
pub open spec fn section_type_at(d: Seq<u8>, i: int) -> int {
    uint_at(file_big(d), d, section_pos(d, i) + 4, 4) as int
}

/// Payload offset of section `i`.
pub open spec fn section_offset_at(d: Seq<u8>, i: int) -> int {
    let w = addr_width(d[4]);
    uint_at(file_big(d), d, section_pos(d, i) + 8 + 2 * w, w) as int
}

/// Payload size of section `i`.
pub open spec fn section_size_at(d: Seq<u8>, i: int) -> int {
    let w = addr_width(d[4]);
    uint_at(file_big(d), d, section_pos(d, i) + 8 + 3 * w, w) as int
}

/// Record `i` of the section table, and its payload unless it has none, lie within `d`.
pub open spec fn section_ok(d: Seq<u8>, i: int) -> bool {
    &&& section_pos(d, i) + section_record_size(d[4]) <= d.len()
    &&& section_type_at(d, i) == SHT_NOBITS || section_offset_at(d, i) + section_size_at(d, i)
        <= d.len()
}

/// Record `i` of the program header table lies within `d`.
pub open spec fn segment_ok(d: Seq<u8>, i: int) -> bool {
    segment_pos(d, i) + segment_record_size(d[4]) <= d.len()
}

/// Payload of section `i`: empty for a section that occupies no file space.
pub open spec fn payload_at(d: Seq<u8>, i: int) -> Seq<u8> {
    if section_type_at(d, i) == SHT_NOBITS {
        Seq::empty()
    } else {
        d.subrange(section_offset_at(d, i), section_offset_at(d, i) + section_size_at(d, i))
    }
}

/// Resolved name of section `i`: empty for section 0 or without a name table.
pub open spec fn name_at(d: Seq<u8>, i: int) -> Seq<u8> {
    if i == 0 || shstrndx_of(d) == 0 {
        Seq::empty()
    } else {
        string_at(
            payload_at(d, shstrndx_of(d)),
            uint_at(file_big(d), d, section_pos(d, i), 4) as int,
        )
    }
}

/// The identification bytes are rejected, and why; `Io` when they, or the
/// header record, are not all there.
pub open spec fn ident_error(d: Seq<u8>) -> Option<ElfError> {
    if d.len() < 16 {
        Some(ElfError::Io)
    } else if d[0] != ELFMAG0 || d[1] != ELFMAG1 || d[2] != ELFMAG2 || d[3] != ELFMAG3 {
        Some(ElfError::MalformedMagic)
    } else if d[4] != ELFCLASS32 && d[4] != ELFCLASS64 {
        Some(ElfError::UnsupportedClass)
    } else if d[5] != ELFDATA2LSB && d[5] != ELFDATA2MSB {
        Some(ElfError::UnsupportedEncoding)
    } else if d.len() < header_size_of(d[4]) {
        Some(ElfError::Io)
    } else {
        None
    }
}

/// Outcome of loading the image `d`: the first failure met while reading the
/// identification, the header, the section table, the section names and the
/// segment table, in that order.
pub open spec fn load_result(d: Seq<u8>) -> Result<(), ElfError> {
    match ident_error(d) {
        Some(e) => Err(e),
        None => {
            if exists|i: int| 0 <= i < shnum_of(d) && !section_ok(d, i) {
                Err(ElfError::Io)
            } else if shstrndx_of(d) != 0 && shstrndx_of(d) >= shnum_of(d) {
                Err(ElfError::Truncated)
            } else if exists|i: int| 0 <= i < phnum_of(d) && !segment_ok(d, i) {
                Err(ElfError::Io)
            } else {
                Ok(())
            }
        },
    }
}

/// `s` is section `i` of `d`: its record, payload and name.
pub open spec fn section_loaded(s: ElfSection, d: Seq<u8>, i: int) -> bool {
    &&& section_fields_decoded(s, file_big(d), d[4], d, section_pos(d, i))
    &&& s.data@ == payload_at(d, i)
    &&& s.name@ == name_at(d, i)
    &&& s.converter.is_needed == file_big(d)
    &&& s.class == d[4]
}

/// `s` is segment `i` of `d`.
pub open spec fn segment_loaded(s: ElfSegment, d: Seq<u8>, i: int) -> bool {
    &&& segment_fields_decoded(s, file_big(d), d[4], d, segment_pos(d, i))
    &&& s.converter.is_needed == file_big(d)
    &&& s.class == d[4]
}

/// Elfio - the main struct of the library. All access to an ELF file's
/// header attributes, sections and segments starts from this object.
///
/// A value is created empty and filled by one successful [`Elfio::load`].
/// A failed load leaves the value exactly as it was, so no partly decoded
/// file is ever visible; on a value that was never loaded the getters
/// return the blank header's zeros and the tables are empty.
pub struct Elfio {
    header: ElfHeader,
    converter: Converter,
    sections: Vec<ElfSection>,
    segments: Vec<ElfSegment>,
}

impl Elfio {
    /// The file header.
    pub closed spec fn header(&self) -> ElfHeader {
        self.header
    }

    /// The byte-order converter of the file.
    pub closed spec fn converter(&self) -> Converter {
        self.converter
    }

    /// The section records.
    pub closed spec fn sections(&self) -> Seq<ElfSection> {
        self.sections@
    }

    /// The segment records.
    pub closed spec fn segments(&self) -> Seq<ElfSegment> {
        self.segments@
    }

    /// An empty file value: no sections, no segments, a blank header.
    pub fn new() -> (r: Elfio)
        ensures
            r.header() == ElfHeader::new_spec(),
            !r.converter().is_needed,
            r.sections().len() == 0,
            r.segments().len() == 0,
    {
        Elfio {
            converter: Converter { is_needed: false },
            header: ElfHeader::new(),
            sections: Vec::new(),
            segments: Vec::new(),
        }
    }

    /// An empty file value of the given class and encoding.
    pub fn new_(encoding: u8, endianess: u8) -> (r: Elfio)
        ensures
            r.header() == (ElfHeader {
                ei_class: encoding,
                ei_data: endianess,
                converter: r.converter(),
                ..ElfHeader::new_spec()
            }),
            r.converter().is_needed == (endianess == ELFDATA2MSB),
            r.sections().len() == 0,
            r.segments().len() == 0,
    {
        let converter = Converter::for_encoding(endianess);
        let mut header = ElfHeader::new();
        header.ei_class = encoding;
        header.ei_data = endianess;
        header.set_converter(&converter);
        Elfio { converter, header, sections: Vec::new(), segments: Vec::new() }
    }

    /// Returns the endianness converter used for the current file.
    pub fn get_converter(&self) -> (r: &Converter)
        ensures
            *r == self.converter(),
    {
        &self.converter
    }

    /// Loads the ELF image `d`. On failure the value is left as it was.
    pub fn load(&mut self, d: &[u8]) -> (r: Result<(), ElfError>)
        ensures
            r == load_result(d@),
            r is Ok ==> {
                &&& header_decoded(final(self).header(), file_big(d@), d@)
                &&& final(self).converter().is_needed == file_big(d@)
                &&& final(self).sections().len() == final(self).header().e_shnum
                &&& final(self).segments().len() == final(self).header().e_phnum
                &&& forall|i: int|
                    0 <= i < final(self).sections().len() ==> section_loaded(
                        #[trigger] final(self).sections()[i],
                        d@,
                        i,
                    )
                &&& forall|i: int|
                    0 <= i < final(self).segments().len() ==> segment_loaded(
                        #[trigger] final(self).segments()[i],
                        d@,
                        i,
                    )
            },
            r is Err ==> {
                &&& final(self).header() == old(self).header()
                &&& final(self).converter() == old(self).converter()
                &&& final(self).sections() == old(self).sections()
                &&& final(self).segments() == old(self).segments()
            },
    {
        if d.len() < 16 {
            return Err(ElfError::Io);
        }
        if d[0] != ELFMAG0 || d[1] != ELFMAG1 || d[2] != ELFMAG2 || d[3] != ELFMAG3 {
            return Err(ElfError::MalformedMagic);
        }
        if d[4] != ELFCLASS64 && d[4] != ELFCLASS32 {
            return Err(ElfError::UnsupportedClass);
        }
        if d[5] != ELFDATA2LSB && d[5] != ELFDATA2MSB {
            return Err(ElfError::UnsupportedEncoding);
        }
        let converter = Converter::for_encoding(d[5]);
        let mut header = ElfHeader::new();
        header.set_converter(&converter);
        match header.load(d) {
            Ok(_) => {},
            Err(e) => {
                return Err(e);
            },
        }
        let sections = match Self::load_sections(&header, d) {
            Ok(s) => s,
            Err(e) => {
                return Err(e);
            },
        };
        let segments = match Self::load_segments(&header, d) {
            Ok(s) => s,
            Err(e) => {
                return Err(e);
            },
        };
        self.header = header;
        self.converter = converter;
        self.sections = sections;
        self.segments = segments;
        Ok(())
    }

    /// Copy of the payload of section record `s`, which must lie within `d`.
    fn payload_of(d: &[u8], s: &ElfSection) -> (r: Vec<u8>)
        requires
            s.sh_type == SHT_NOBITS || s.sh_offset + s.sh_size <= d@.len(),
        ensures
            r@ == (if s.sh_type == SHT_NOBITS {
                Seq::empty()
            } else {
                d@.subrange(s.sh_offset as int, s.sh_offset + s.sh_size)
            }),
    {
        if s.sh_type == SHT_NOBITS {
            Vec::new()
        } else {
            let n = d.len();
            assert(s.sh_offset + s.sh_size <= n);
            copy_range(d, s.sh_offset as usize, (s.sh_offset + s.sh_size) as usize)
        }
    }

    fn load_sections(h: &ElfHeader, d: &[u8]) -> (r: Result<Vec<ElfSection>, ElfError>)
        requires
            ident_error(d@) is None,
            header_decoded(*h, file_big(d@), d@),
            h.converter.is_needed == file_big(d@),
        ensures
            match r {
                Ok(v) => {
                    &&& forall|i: int| 0 <= i < shnum_of(d@) ==> section_ok(d@, i)
                    &&& !(shstrndx_of(d@) != 0 && shstrndx_of(d@) >= shnum_of(d@))
                    &&& v@.len() == shnum_of(d@)
                    &&& forall|i: int| 0 <= i < v@.len() ==> section_loaded(#[trigger] v@[i], d@, i)
                },
                Err(e) => {
                    ||| e == ElfError::Io && exists|i: int| 0 <= i < shnum_of(d@) && !section_ok(d@, i)
                    ||| e == ElfError::Truncated && (forall|i: int| 0 <= i < shnum_of(d@) ==> section_ok(d@, i))
                        && shstrndx_of(d@) != 0 && shstrndx_of(d@) >= shnum_of(d@)
                },
            },
    {
        let conv = h.converter;
        let num = h.e_shnum as u64;
        let es = h.e_shentsize as u64;
        let off = h.e_shoff;
        let len = d.len() as u64;
        let mut recs: Vec<ElfSection> = Vec::new();
        let mut i: u64 = 0;
        while i < num
            invariant
                ident_error(d@) is None,
                header_decoded(*h, file_big(d@), d@),
                conv == h.converter,
                conv.is_needed == file_big(d@),
                num == shnum_of(d@),
                es == header_field(d@, 34, 2),
                off == shoff_of(d@),
                len == d@.len(),
                es < 0x1_0000,
                num < 0x1_0000,
                i <= num,
                recs@.len() == i,
                forall|k: int| 0 <= k < i ==> section_ok(d@, k),
                forall|k: int|
                    0 <= k < i ==> {
                        &&& section_fields_decoded(#[trigger] recs@[k], file_big(d@), d@[4], d@, section_pos(d@, k))
                        &&& recs@[k].converter == conv
                        &&& recs@[k].class == d@[4]
                    },
            decreases num - i,
        {
            assert(i * es <= 0xffff * 0xffff) by (nonlinear_arith)
                requires
                    i < 0x1_0000,
                    es < 0x1_0000,
            ;
            let step = i * es;
            if off > len || step > len - off {
                assert(!section_ok(d@, i as int));
                return Err(ElfError::Io);
            }
            let pos = off + step;
            let mut s = ElfSection::new(&conv, h.ei_class);
            match s.load(d, pos) {
                Ok(_) => {},
                Err(e) => {
                    assert(!section_ok(d@, i as int));
                    return Err(e);
                },
            }
            if s.sh_type != SHT_NOBITS {
                if s.sh_offset > len || s.sh_size > len - s.sh_offset {
                    assert(!section_ok(d@, i as int));
                    return Err(ElfError::Io);
                }
            }
            recs.push(s);
            i = i + 1;
        }
        let names_index = h.e_shstrndx as u64;
        if names_index != 0 && names_index >= num {
            return Err(ElfError::Truncated);
        }
        let table: Vec<u8> = if names_index == 0 {
            Vec::new()
        } else {
            assert(section_ok(d@, names_index as int));
            assert(section_fields_decoded(recs@[names_index as int], file_big(d@), d@[4], d@, section_pos(d@, names_index as int)));
            Self::payload_of(d, &recs[names_index as usize])
        };
        let mut out: Vec<ElfSection> = Vec::new();
        let mut j: usize = 0;
        while j < recs.len()
            invariant
                ident_error(d@) is None,
                header_decoded(*h, file_big(d@), d@),
                conv.is_needed == file_big(d@),
                num == shnum_of(d@),
                names_index == shstrndx_of(d@),
                recs@.len() == num,
                names_index != 0 ==> table@ == payload_at(d@, names_index as int),
                forall|k: int| 0 <= k < num ==> section_ok(d@, k),
                forall|k: int|
                    0 <= k < num ==> {
                        &&& section_fields_decoded(#[trigger] recs@[k], file_big(d@), d@[4], d@, section_pos(d@, k))
                        &&& recs@[k].converter == conv
                        &&& recs@[k].class == d@[4]
                    },
                j <= recs@.len(),
                out@.len() == j,
                forall|k: int| 0 <= k < j ==> section_loaded(#[trigger] out@[k], d@, k),
            decreases recs@.len() - j,
        {
            let r = &recs[j];
            let name: Vec<u8> = if j == 0 || names_index == 0 {
                Vec::new()
            } else {
                str_from_u8_nul(table.as_slice(), r.sh_name as usize)
            };
            assert(section_ok(d@, j as int));
            assert(section_fields_decoded(recs@[j as int], file_big(d@), d@[4], d@, section_pos(d@, j as int)));
            let data = Self::payload_of(d, r);
            out.push(r.with_contents(name, data));
            j = j + 1;
        }
        Ok(out)
    }

    fn load_segments(h: &ElfHeader, d: &[u8]) -> (r: Result<Vec<ElfSegment>, ElfError>)
        requires
            ident_error(d@) is None,
            header_decoded(*h, file_big(d@), d@),
            h.converter.is_needed == file_big(d@),
        ensures
            match r {
                Ok(v) => {
                    &&& forall|i: int| 0 <= i < phnum_of(d@) ==> segment_ok(d@, i)
                    &&& v@.len() == phnum_of(d@)
                    &&& forall|i: int| 0 <= i < v@.len() ==> segment_loaded(#[trigger] v@[i], d@, i)
                },
                Err(e) => e == ElfError::Io && exists|i: int| 0 <= i < phnum_of(d@) && !segment_ok(d@, i),
            },
    {
        let conv = h.converter;
        let num = h.e_phnum as u64;
        let es = h.e_phentsize as u64;
        let off = h.e_phoff;
        let len = d.len() as u64;
        let mut segs: Vec<ElfSegment> = Vec::new();
        let mut i: u64 = 0;
        while i < num
            invariant
                ident_error(d@) is None,
                header_decoded(*h, file_big(d@), d@),
                conv == h.converter,
                conv.is_needed == file_big(d@),
                num == phnum_of(d@),
                es == header_field(d@, 30, 2),
                off == phoff_of(d@),
                len == d@.len(),
                es < 0x1_0000,
                num < 0x1_0000,
                i <= num,
                segs@.len() == i,
                forall|k: int| 0 <= k < i ==> segment_ok(d@, k),
                forall|k: int| 0 <= k < i ==> segment_loaded(#[trigger] segs@[k], d@, k),
            decreases num - i,
        {
            assert(i * es <= 0xffff * 0xffff) by (nonlinear_arith)
                requires
                    i < 0x1_0000,
                    es < 0x1_0000,
            ;
            let step = i * es;
            if off > len || step > len - off {
                assert(!segment_ok(d@, i as int));
                return Err(ElfError::Io);
            }
            let mut s = ElfSegment::new(&conv, h.ei_class);
            match s.load(d, off + step) {
                Ok(_) => {},
                Err(e) => {
                    assert(!segment_ok(d@, i as int));
                    return Err(e);
                },
            }
            segs.push(s);
            i = i + 1;
        }
        Ok(segs)
    }

    /// Retrieve all ELF file sections.
    pub fn get_sections(&self) -> (r: &Vec<ElfSection>)
        ensures
            r@ == self.sections(),
    {
        &self.sections
    }

    /// Retrieve all ELF file segments.
    pub fn get_segments(&self) -> (r: &Vec<ElfSegment>)
        ensures
            r@ == self.segments(),
    {
        &self.segments
    }

    /// Retrieve the first section whose name is `section_name`.
    pub fn get_section_by_name(&self, section_name: &str) -> (r: Option<&ElfSection>)
        ensures
            match r {
                Some(s) => exists|i: int|
                    0 <= i < self.sections().len() && self.sections()[i] == *s
                        && s.name@ == section_name.spec_bytes() && forall|k: int|
                        0 <= k < i ==> self.sections()[k].name@ != section_name.spec_bytes(),
                None => forall|k: int|
                    0 <= k < self.sections().len() ==> self.sections()[k].name@
                        != section_name.spec_bytes(),
            },
    {
        let wanted = section_name.as_bytes();
        let mut i: usize = 0;
        while i < self.sections.len()
            invariant
                i <= self.sections@.len(),
                wanted@ == section_name.spec_bytes(),
                forall|k: int| 0 <= k < i ==> self.sections@[k].name@ != section_name.spec_bytes(),
            decreases self.sections@.len() - i,
        {
            if bytes_equal(self.sections[i].name.as_slice(), wanted) {
                assert(self.sections()[i as int] == self.sections@[i as int]);
                return Some(&self.sections[i]);
            }
            i = i + 1;
        }
        None
    }

    /// Retrieve the section with the given index.
    pub fn get_section_by_index(&self, index: ElfHalf) -> (r: Option<&ElfSection>)
        ensures
            (index as int) < self.sections().len() ==> r == Some(&self.sections()[index as int]),
            (index as int) >= self.sections().len() ==> r is None,
    {
        let i = index as usize;
        if i < self.sections.len() {
            return Some(&self.sections[i]);
        }
        None
    }

    /// Reads the header field `ei_class`.
    pub fn get_class(&self) -> (r: u8)
        ensures
            r == self.header().ei_class,
    {
        self.header.get_class()
    }

    /// Reads the header field `ei_version`.
    pub fn get_elf_version(&self) -> (r: u8)
        ensures
            r == self.header().ei_version,
    {
        self.header.get_elf_version()
    }

    /// Reads the header field `ei_data`.
    pub fn get_encoding(&self) -> (r: u8)
        ensures
            r == self.header().ei_data,
    {
        self.header.get_encoding()
    }

    /// Reads the header field `e_ehsize`.
    pub fn get_header_size(&self) -> (r: ElfHalf)
        ensures
            r == self.header().e_ehsize,
    {
        self.header.get_header_size()
    }

    /// Reads the header field `e_shentsize`.
    pub fn get_section_entry_size(&self) -> (r: ElfHalf)
        ensures
            r == self.header().e_shentsize,
    {
        self.header.get_section_entry_size()
    }

    /// Reads the header field `e_phentsize`.
    pub fn get_segment_entry_size(&self) -> (r: ElfHalf)
        ensures
            r == self.header().e_phentsize,
    {
        self.header.get_segment_entry_size()
    }

    /// Reads the header field `e_version`.
    pub fn get_version(&self) -> (r: ElfWord)
        ensures
            r == self.header().e_version,
    {
        self.header.get_version()
    }

    /// Reads the header field `ei_osabi`.
    pub fn get_os_abi(&self) -> (r: u8)
        ensures
            r == self.header().ei_osabi,
    {
        self.header.get_os_abi()
    }

    /// Reads the header field `ei_abiversion`.
    pub fn get_abi_version(&self) -> (r: u8)
        ensures
            r == self.header().ei_abiversion,
    {
        self.header.get_abi_version()
    }

    /// Reads the header field `e_type`.
    pub fn get_type(&self) -> (r: ElfHalf)
        ensures
            r == self.header().e_type,
    {
        self.header.get_type()
    }

    /// Reads the header field `e_machine`.
    pub fn get_machine(&self) -> (r: ElfHalf)
        ensures
            r == self.header().e_machine,
    {
        self.header.get_machine()
    }

    /// Reads the header field `e_flags`.
    pub fn get_flags(&self) -> (r: ElfWord)
        ensures
            r == self.header().e_flags,
    {
        self.header.get_flags()
    }

    /// Reads the header field `e_entry`.
    pub fn get_entry(&self) -> (r: Elf64Addr)
        ensures
            r == self.header().e_entry,
    {
        self.header.get_entry()
    }

    /// Reads the header field `e_shnum`.
    pub fn get_sections_num(&self) -> (r: ElfHalf)
        ensures
            r == self.header().e_shnum,
    {
        self.header.get_sections_num()
    }

    /// Reads the header field `e_shoff`.
    pub fn get_sections_offset(&self) -> (r: Elf64Off)
        ensures
            r == self.header().e_shoff,
    {
        self.header.get_sections_offset()
    }

    /// Reads the header field `e_phnum`.
    pub fn get_segments_num(&self) -> (r: ElfHalf)
        ensures
            r == self.header().e_phnum,
    {
        self.header.get_segments_num()
    }

    /// Reads the header field `e_phoff`.
    pub fn get_segments_offset(&self) -> (r: Elf64Off)
        ensures
            r == self.header().e_phoff,
    {
        self.header.get_segments_offset()
    }

    /// Reads the header field `e_shstrndx`.
    pub fn get_section_name_str_index(&self) -> (r: ElfHalf)
        ensures
            r == self.header().e_shstrndx,
    {
        self.header.get_section_name_str_index()
    }

    /// Writes the header field `e_version`.
    pub fn set_version(&mut self, value: ElfWord)
        ensures
            final(self).header() == (ElfHeader { e_version: value, ..old(self).header() }),
            final(self).sections() == old(self).sections(),
            final(self).segments() == old(self).segments(),
            final(self).converter() == old(self).converter(),
    {
        self.header.set_version(value);
    }

    /// Writes the header field `ei_osabi`.
    pub fn set_os_abi(&mut self, value: u8)
        ensures
            final(self).header() == (ElfHeader { ei_osabi: value, ..old(self).header() }),
            final(self).sections() == old(self).sections(),
            final(self).segments() == old(self).segments(),
            final(self).converter() == old(self).converter(),
    {
        self.header.set_os_abi(value);
    }

    /// Writes the header field `ei_abiversion`.
    pub fn set_abi_version(&mut self, value: u8)
        ensures
            final(self).header() == (ElfHeader { ei_abiversion: value, ..old(self).header() }),
            final(self).sections() == old(self).sections(),
            final(self).segments() == old(self).segments(),
            final(self).converter() == old(self).converter(),
    {
        self.header.set_abi_version(value);
    }

    /// Writes the header field `e_type`.
    pub fn set_type(&mut self, value: ElfHalf)
        ensures
            final(self).header() == (ElfHeader { e_type: value, ..old(self).header() }),
            final(self).sections() == old(self).sections(),
            final(self).segments() == old(self).segments(),
            final(self).converter() == old(self).converter(),
    {
        self.header.set_type(value);
    }

    /// Writes the header field `e_machine`.
    pub fn set_machine(&mut self, value: ElfHalf)
        ensures
            final(self).header() == (ElfHeader { e_machine: value, ..old(self).header() }),
            final(self).sections() == old(self).sections(),
            final(self).segments() == old(self).segments(),
            final(self).converter() == old(self).converter(),
    {
        self.header.set_machine(value);
    }

    /// Writes the header field `e_flags`.
    pub fn set_flags(&mut self, value: ElfWord)
        ensures
            final(self).header() == (ElfHeader { e_flags: value, ..old(self).header() }),
            final(self).sections() == old(self).sections(),
            final(self).segments() == old(self).segments(),
            final(self).converter() == old(self).converter(),
    {
        self.header.set_flags(value);
    }

    /// Writes the header field `e_entry`.
    pub fn set_entry(&mut self, value: Elf64Addr)
        ensures
            final(self).header() == (ElfHeader { e_entry: fit_addr(old(self).header().ei_class, value), ..old(self).header() }),
            final(self).sections() == old(self).sections(),
            final(self).segments() == old(self).segments(),
            final(self).converter() == old(self).converter(),
    {
        self.header.set_entry(value);
    }

    /// Writes the header field `e_shnum`.
    pub fn set_sections_num(&mut self, value: ElfHalf)
        ensures
            final(self).header() == (ElfHeader { e_shnum: value, ..old(self).header() }),
            final(self).sections() == old(self).sections(),
            final(self).segments() == old(self).segments(),
            final(self).converter() == old(self).converter(),
    {
        self.header.set_sections_num(value);
    }

    /// Writes the header field `e_shoff`.
    pub fn set_sections_offset(&mut self, value: Elf64Off)
        ensures
            final(self).header() == (ElfHeader { e_shoff: fit_addr(old(self).header().ei_class, value), ..old(self).header() }),
            final(self).sections() == old(self).sections(),
            final(self).segments() == old(self).segments(),
            final(self).converter() == old(self).converter(),
    {
        self.header.set_sections_offset(value);
    }

    /// Writes the header field `e_phnum`.
    pub fn set_segments_num(&mut self, value: ElfHalf)
        ensures
            final(self).header() == (ElfHeader { e_phnum: value, ..old(self).header() }),
            final(self).sections() == old(self).sections(),
            final(self).segments() == old(self).segments(),
            final(self).converter() == old(self).converter(),
    {
        self.header.set_segments_num(value);
    }

    /// Writes the header field `e_phoff`.
    pub fn set_segments_offset(&mut self, value: Elf64Off)
        ensures
            final(self).header() == (ElfHeader { e_phoff: fit_addr(old(self).header().ei_class, value), ..old(self).header() }),
            final(self).sections() == old(self).sections(),
            final(self).segments() == old(self).segments(),
            final(self).converter() == old(self).converter(),
    {
        self.header.set_segments_offset(value);
    }

    /// Writes the header field `e_shstrndx`.
    pub fn set_section_name_str_index(&mut self, value: ElfHalf)
        ensures
            final(self).header() == (ElfHeader { e_shstrndx: value, ..old(self).header() }),
            final(self).sections() == old(self).sections(),
            final(self).segments() == old(self).segments(),
            final(self).converter() == old(self).converter(),
    {
        self.header.set_section_name_str_index(value);
    }

}

impl Default for Elfio {
    /// The empty file value that [`Elfio::new`] creates.
    fn default() -> (r: Elfio)
        ensures
            r.header() == ElfHeader::new_spec(),
            !r.converter().is_needed,
            r.sections().len() == 0,
            r.segments().len() == 0,
    {
        Elfio::new()
    }
}

} // verus!
