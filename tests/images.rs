use elfio::{
    ArraySectionAccessor, DynamicSectionAccessor, ElfError, ElfSection,
    ElfSectionAccessTrait, ElfSegmentAccessTrait, Elfio, ModInfoSectionAccessor,
    NoteSectionAccessor, RelocationSectionAccessor, StringSectionAccessor, SymbolSectionAccessor,
};

// ---------------------------------------------------------------------------
// Building ELF images in memory.

struct Sec {
    name: String,
    stype: u32,
    flags: u64,
    link: u32,
    info: u32,
    align: u64,
    entsize: u64,
    data: Vec<u8>,
    nobits_size: u64,
}

struct Seg {
    ptype: u32,
    flags: u32,
    offset: u64,
    vaddr: u64,
    paddr: u64,
    filesz: u64,
    memsz: u64,
    align: u64,
}

struct FileSpec {
    wide: bool,
    big: bool,
    etype: u16,
    machine: u16,
    entry: u64,
    flags: u32,
    sections: Vec<Sec>,
    segments: Vec<Seg>,
    shstrndx: u16,
}

fn put(b: &mut Vec<u8>, off: usize, v: u64, w: usize, big: bool) {
    if b.len() < off + w {
        b.resize(off + w, 0);
    }
    for k in 0..w {
        let byte = ((v >> (8 * k)) & 0xff) as u8;
        let idx = if big { off + w - 1 - k } else { off + k };
        b[idx] = byte;
    }
}

fn field(v: u64, w: usize, big: bool) -> Vec<u8> {
    let mut b = Vec::new();
    put(&mut b, 0, v, w, big);
    b
}

fn sec(name: &str, stype: u32, entsize: u64, link: u32, data: Vec<u8>) -> Sec {
    Sec {
        name: name.to_string(),
        stype,
        flags: elfio::SHF_ALLOC,
        link,
        info: 0,
        align: 4,
        entsize,
        data,
        nobits_size: 0,
    }
}

fn build(spec: &FileSpec) -> Vec<u8> {
    let w: usize = if spec.wide { 8 } else { 4 };
    let big = spec.big;
    let hsize = 40 + 3 * w;
    let phentsize = if spec.wide { 56 } else { 32 };
    let shentsize = 16 + 6 * w;

    // Section names.
    let mut names: Vec<u8> = vec![0];
    let mut name_offsets = Vec::new();
    for s in &spec.sections {
        if s.name.is_empty() {
            name_offsets.push(0u64);
        } else {
            name_offsets.push(names.len() as u64);
            names.extend_from_slice(s.name.as_bytes());
            names.push(0);
        }
    }

    let mut b: Vec<u8> = vec![0; hsize];
    b[0] = 0x7f;
    b[1] = b'E';
    b[2] = b'L';
    b[3] = b'F';
    b[4] = if spec.wide { 2 } else { 1 };
    b[5] = if big { 2 } else { 1 };
    b[6] = 1;

    // Program headers.
    let phoff = hsize;
    b.resize(phoff + spec.segments.len() * phentsize, 0);
    for (i, g) in spec.segments.iter().enumerate() {
        let p = phoff + i * phentsize;
        put(&mut b, p, g.ptype as u64, 4, big);
        if spec.wide {
            put(&mut b, p + 4, g.flags as u64, 4, big);
            put(&mut b, p + 8, g.offset, 8, big);
            put(&mut b, p + 16, g.vaddr, 8, big);
            put(&mut b, p + 24, g.paddr, 8, big);
            put(&mut b, p + 32, g.filesz, 8, big);
            put(&mut b, p + 40, g.memsz, 8, big);
            put(&mut b, p + 48, g.align, 8, big);
        } else {
            put(&mut b, p + 4, g.offset, 4, big);
            put(&mut b, p + 8, g.vaddr, 4, big);
            put(&mut b, p + 12, g.paddr, 4, big);
            put(&mut b, p + 16, g.filesz, 4, big);
            put(&mut b, p + 20, g.memsz, 4, big);
            put(&mut b, p + 24, g.flags as u64, 4, big);
            put(&mut b, p + 28, g.align, 4, big);
        }
    }

    // Payloads.
    let mut offsets = Vec::new();
    let mut sizes = Vec::new();
    for (i, s) in spec.sections.iter().enumerate() {
        while b.len() % 8 != 0 {
            b.push(0);
        }
        let data = if i as u16 == spec.shstrndx && spec.shstrndx != 0 { &names } else { &s.data };
        offsets.push(b.len() as u64);
        if s.stype == elfio::SHT_NOBITS {
            sizes.push(s.nobits_size);
        } else {
            sizes.push(data.len() as u64);
            b.extend_from_slice(data);
        }
    }

    // Section headers.
    while b.len() % 8 != 0 {
        b.push(0);
    }
    let shoff = b.len();
    b.resize(shoff + spec.sections.len() * shentsize, 0);
    for (i, s) in spec.sections.iter().enumerate() {
        let p = shoff + i * shentsize;
        let addr = if i == 0 { 0 } else { 0x1000 + offsets[i] };
        let off = if i == 0 { 0 } else { offsets[i] };
        put(&mut b, p, name_offsets[i], 4, big);
        put(&mut b, p + 4, s.stype as u64, 4, big);
        put(&mut b, p + 8, s.flags, w, big);
        put(&mut b, p + 8 + w, addr, w, big);
        put(&mut b, p + 8 + 2 * w, off, w, big);
        put(&mut b, p + 8 + 3 * w, sizes[i], w, big);
        put(&mut b, p + 8 + 4 * w, s.link as u64, 4, big);
        put(&mut b, p + 12 + 4 * w, s.info as u64, 4, big);
        put(&mut b, p + 16 + 4 * w, s.align, w, big);
        put(&mut b, p + 16 + 5 * w, s.entsize, w, big);
    }

    // Header record.
    put(&mut b, 16, spec.etype as u64, 2, big);
    put(&mut b, 18, spec.machine as u64, 2, big);
    put(&mut b, 20, 1, 4, big);
    put(&mut b, 24, spec.entry, w, big);
    put(&mut b, 24 + w, if spec.segments.is_empty() { 0 } else { phoff as u64 }, w, big);
    put(&mut b, 24 + 2 * w, shoff as u64, w, big);
    put(&mut b, 24 + 3 * w, spec.flags as u64, 4, big);
    put(&mut b, 28 + 3 * w, hsize as u64, 2, big);
    put(&mut b, 30 + 3 * w, phentsize as u64, 2, big);
    put(&mut b, 32 + 3 * w, spec.segments.len() as u64, 2, big);
    put(&mut b, 34 + 3 * w, shentsize as u64, 2, big);
    put(&mut b, 36 + 3 * w, spec.sections.len() as u64, 2, big);
    put(&mut b, 38 + 3 * w, spec.shstrndx as u64, 2, big);
    b
}

fn symbol_entry(wide: bool, big: bool, name: u32, value: u64, size: u64, info: u8, shndx: u16) -> Vec<u8> {
    let mut e = Vec::new();
    if wide {
        e.extend(field(name as u64, 4, big));
        e.push(info);
        e.push(0);
        e.extend(field(shndx as u64, 2, big));
        e.extend(field(value, 8, big));
        e.extend(field(size, 8, big));
    } else {
        e.extend(field(name as u64, 4, big));
        e.extend(field(value, 4, big));
        e.extend(field(size, 4, big));
        e.push(info);
        e.push(0);
        e.extend(field(shndx as u64, 2, big));
    }
    e
}

fn note_entry(big: bool, name: &str, ntype: u32, desc: &[u8]) -> Vec<u8> {
    let mut e = Vec::new();
    e.extend(field(name.len() as u64 + 1, 4, big));
    e.extend(field(desc.len() as u64, 4, big));
    e.extend(field(ntype as u64, 4, big));
    e.extend_from_slice(name.as_bytes());
    e.push(0);
    while e.len() % 4 != 0 {
        e.push(0);
    }
    e.extend_from_slice(desc);
    while e.len() % 4 != 0 {
        e.push(0);
    }
    e
}

const MODINFO: [&str; 10] = [
    "alias=platform:i2c-gpio",
    "license=GPL",
    "description=Platform-independent bitbanging I2C driver",
    "author=Haavard Skinnemoen (Atmel)",
    "srcversion=4C0E3C1F7B5E0A6A3F3C6C2",
    "alias=of:N*T*Ci2c-gpio",
    "depends=i2c-algo-bit",
    "intree=Y",
    "vermagic=3.2.0 SMP mod_unload",
    "name=i2c_gpio",
];

/// A small program image: notes, a dynamic table, relocations, an init
/// array, module info, a symbol table, filler sections, and the section-name
/// table at `shstrndx`.
fn hello(wide: bool, big: bool, total: usize, shstrndx: u16, nseg: usize, machine: u16, entry: u64) -> FileSpec {
    let w: u64 = if wide { 8 } else { 4 };
    let mut sections = Vec::new();
    // 0: null
    let mut null = sec("", elfio::SHT_NULL, 0, 0, Vec::new());
    null.flags = 0;
    null.align = 0;
    sections.push(null);
    // 1: notes
    let desc: Vec<u8> = [0u32, 2, 6, 9].iter().flat_map(|v| field(*v as u64, 4, big)).collect();
    sections.push(sec(".note.ABI-tag", elfio::SHT_NOTE, 0, 0, note_entry(big, "GNU", 1, &desc)));
    // 2: dynamic strings
    sections.push(sec(".dynstr", elfio::SHT_STRTAB, 0, 0, b"\0libc.so.6\0__gmon_start__\0".to_vec()));
    // 3: dynamic table
    let entries: [(i64, u64); 8] =
        [(1, 1), (12, 0x1fa98), (13, 0x1fab0), (25, 0x1f850), (27, 8), (26, 0x1f858), (0, 0), (0, 0)];
    let mut dynamic = Vec::new();
    for (tag, value) in entries.iter() {
        dynamic.extend(field(*tag as u64, w as usize, big));
        dynamic.extend(field(*value, w as usize, big));
    }
    sections.push(sec(".dynamic", elfio::SHT_DYNAMIC, 2 * w, 2, dynamic));
    // 4: relocations, with addends in 64-bit files
    let mut rel = Vec::new();
    if wide {
        for (off, sym) in [(0x600848u64, 2u64), (0x600850, 3)].iter() {
            rel.extend(field(*off, 8, big));
            rel.extend(field((sym << 32) | 7, 8, big));
            rel.extend(field(0, 8, big));
        }
        sections.push(sec(".rela.plt", elfio::SHT_RELA, 24, 8, rel));
    } else {
        for (off, sym) in [(0x80495f8u64, 1u64), (0x80495fc, 2)].iter() {
            rel.extend(field(*off, 4, big));
            rel.extend(field((sym << 8) | 7, 4, big));
        }
        sections.push(sec(".rel.plt", elfio::SHT_REL, 8, 8, rel));
    }
    // 5: init array
    let mut arr = field(0x400500, w as usize, big);
    arr.extend(field(0x400600, w as usize, big));
    sections.push(sec(".init_array", elfio::SHT_INIT_ARRAY, w, 0, arr));
    // 6: module info
    let mut modinfo = Vec::new();
    for s in MODINFO.iter() {
        modinfo.extend_from_slice(s.as_bytes());
        modinfo.push(0);
        modinfo.push(0);
    }
    sections.push(sec(".modinfo", elfio::SHT_PROGBITS, 0, 0, modinfo));
    // 7: bss
    let mut bss = sec(".bss", elfio::SHT_NOBITS, 0, 0, Vec::new());
    bss.nobits_size = 0x20;
    sections.push(bss);
    // 8: symbols, linked to 9
    let mut symtab = Vec::new();
    for i in 0..0x44u64 {
        let e = if i == 30 {
            symbol_entry(wide, big, 1, 0x08049588, 4, (elfio::STB_LOCAL << 4) | elfio::STT_OBJECT, 23)
        } else {
            symbol_entry(wide, big, 0, i * 0x10, i, (elfio::STB_GLOBAL << 4) | elfio::STT_FUNC, 12)
        };
        symtab.extend(e);
    }
    sections.push(sec(".symtab", elfio::SHT_SYMTAB, if wide { 24 } else { 16 }, 9, symtab));
    // 9: symbol names
    sections.push(sec(".strtab", elfio::SHT_STRTAB, 0, 0, b"\0dtor_idx.5805\0".to_vec()));
    // fillers and the section-name table
    for i in sections.len()..total {
        if i == shstrndx as usize {
            sections.push(sec(".shstrtab", elfio::SHT_STRTAB, 0, 0, Vec::new()));
        } else {
            sections.push(sec(&format!(".data{}", i), elfio::SHT_PROGBITS, 0, 0, vec![i as u8; 3]));
        }
    }
    let mut segments = Vec::new();
    for i in 0..nseg as u64 {
        segments.push(Seg {
            ptype: if i == 0 { elfio::PT_PHDR } else { elfio::PT_LOAD },
            flags: elfio::PF_R + elfio::PF_X,
            offset: 0x34 + i * 0x100,
            vaddr: 0x08048034 + i * 0x1000,
            paddr: 0x08048034 + i * 0x1000,
            filesz: 0xe0 + i,
            memsz: 0xe0 + 2 * i,
            align: 4,
        });
    }
    FileSpec { wide, big, etype: elfio::ET_EXEC, machine, entry, flags: 0, sections, segments, shstrndx }
}

fn loaded(bytes: &[u8]) -> Elfio {
    let mut elf = Elfio::new();
    assert_eq!(elf.load(bytes), Ok(()));
    elf
}

fn hello_32() -> Vec<u8> {
    build(&hello(false, false, 28, 25, 7, 3, 0x80482b0))
}

fn hello_64() -> Vec<u8> {
    build(&hello(true, false, 29, 26, 8, 62, 0x4003c0))
}

fn hello_ppc() -> Vec<u8> {
    build(&hello(false, true, 31, 28, 9, 20, 0x10000550))
}

fn hello_ppc64() -> Vec<u8> {
    build(&hello(true, true, 29, 28, 7, 21, 0x1fa80))
}

fn section<'a>(elf: &'a Elfio, name: &str) -> &'a ElfSection {
    elf.get_section_by_name(name).expect("section not found")
}

// ---------------------------------------------------------------------------
// Headers of the four variants.

#[test]
fn header_32_lsb() {
    let elf = loaded(&hello_32());
    assert_eq!(elf.get_class(), elfio::ELFCLASS32);
    assert_eq!(elf.get_encoding(), elfio::ELFDATA2LSB);
    assert_eq!(elf.get_elf_version(), 1);
    assert_eq!(elf.get_header_size(), 52);
    assert_eq!(elf.get_section_entry_size(), 40);
    assert_eq!(elf.get_segment_entry_size(), 32);
    assert_eq!(elf.get_version(), 1);
    assert_eq!(elf.get_type(), elfio::ET_EXEC);
    assert_eq!(elf.get_machine(), 3);
    assert_eq!(elf.get_entry(), 0x80482b0);
    assert_eq!(elf.get_sections_num(), 28);
    assert_eq!(elf.get_segments_num(), 7);
    assert_eq!(elf.get_segments_offset(), 52);
    assert_eq!(elf.get_section_name_str_index(), 25);
    assert!(!elf.get_converter().is_needed);
}

#[test]
fn header_64_lsb() {
    let elf = loaded(&hello_64());
    assert_eq!(elf.get_class(), elfio::ELFCLASS64);
    assert_eq!(elf.get_encoding(), elfio::ELFDATA2LSB);
    assert_eq!(elf.get_header_size(), 64);
    assert_eq!(elf.get_section_entry_size(), 64);
    assert_eq!(elf.get_segment_entry_size(), 56);
    assert_eq!(elf.get_type(), elfio::ET_EXEC);
    assert_eq!(elf.get_machine(), 62);
    assert_eq!(elf.get_entry(), 0x4003c0);
    assert_eq!(elf.get_sections_num(), 29);
    assert_eq!(elf.get_segments_num(), 8);
    assert_eq!(elf.get_section_name_str_index(), 26);
}

#[test]
fn header_32_msb() {
    let elf = loaded(&hello_ppc());
    assert_eq!(elf.get_class(), elfio::ELFCLASS32);
    assert_eq!(elf.get_encoding(), elfio::ELFDATA2MSB);
    assert_eq!(elf.get_machine(), 20);
    assert_eq!(elf.get_entry(), 0x10000550);
    assert_eq!(elf.get_sections_num(), 31);
    assert!(elf.get_converter().is_needed);
}

#[test]
fn header_64_msb_and_needed_library() {
    let elf = loaded(&hello_ppc64());
    assert_eq!(elf.get_class(), elfio::ELFCLASS64);
    assert_eq!(elf.get_encoding(), elfio::ELFDATA2MSB);
    assert_eq!(elf.get_machine(), 21);
    assert_eq!(elf.get_entry(), 0x1fa80);

    let dyns = DynamicSectionAccessor::new(&elf, section(&elf, ".dynamic"));
    let first = dyns.get_entry(0).unwrap();
    assert_eq!(first.tag, elfio::DT_NEEDED);
    let dynstr = StringSectionAccessor::new(section(&elf, ".dynstr"));
    assert_eq!(dynstr.get_string(first.value as u32), "libc.so.6");
}

// ---------------------------------------------------------------------------
// Section and segment tables.

#[test]
fn table_lengths_match_header_counts() {
    for bytes in [hello_32(), hello_64(), hello_ppc(), hello_ppc64()].iter() {
        let elf = loaded(bytes);
        assert_eq!(elf.get_sections().len(), elf.get_sections_num() as usize);
        assert_eq!(elf.get_segments().len(), elf.get_segments_num() as usize);
    }
}

#[test]
fn section_records_and_names() {
    let bytes = hello_32();
    let elf = loaded(&bytes);
    let sections = elf.get_sections();
    let null = &sections[0];
    assert_eq!(null.get_type(), elfio::SHT_NULL);
    assert_eq!(null.get_size(), 0);
    assert_eq!(null.get_name(), "");
    let dynamic = &sections[3];
    assert_eq!(dynamic.get_name(), ".dynamic");
    assert_eq!(dynamic.get_type(), elfio::SHT_DYNAMIC);
    assert_eq!(dynamic.get_flags(), elfio::SHF_ALLOC);
    assert_eq!(dynamic.get_link(), 2);
    assert_eq!(dynamic.get_entry_size(), 8);
    assert_eq!(dynamic.get_addr_align(), 4);
    assert_eq!(dynamic.get_size(), 64);
    assert_eq!(dynamic.get_address(), 0x1000 + dynamic.get_offset());
    let off = dynamic.get_offset() as usize;
    assert_eq!(dynamic.get_data(), &bytes[off..off + 64]);
    let bss = section(&elf, ".bss");
    assert_eq!(bss.get_size(), 0x20);
    assert!(bss.get_data().is_empty());
    assert_eq!(sections[25].get_name(), ".shstrtab");
    assert_eq!(sections[25].get_name_bytes(), b".shstrtab");
}

#[test]
fn segment_records_in_both_field_orders() {
    for bytes in [hello_32(), hello_64(), hello_ppc(), hello_ppc64()].iter() {
        let elf = loaded(bytes);
        let seg = &elf.get_segments()[2];
        assert_eq!(seg.get_type(), elfio::PT_LOAD);
        assert_eq!(seg.get_flags(), elfio::PF_R + elfio::PF_X);
        assert_eq!(seg.get_offset(), 0x234);
        assert_eq!(seg.get_virtual_address(), 0x0804a034);
        assert_eq!(seg.get_physical_address(), 0x0804a034);
        assert_eq!(seg.get_file_size(), 0xe2);
        assert_eq!(seg.get_memory_size(), 0xe4);
        assert_eq!(seg.get_align(), 4);
        assert_eq!(elf.get_segments()[0].get_type(), elfio::PT_PHDR);
    }
}

#[test]
fn lookup_by_name_and_index() {
    let elf = loaded(&hello_64());
    assert!(elf.get_section_by_name(".nothere").is_none());
    let symtab = elf.get_section_by_name(".symtab").unwrap();
    assert_eq!(symtab.get_type(), elfio::SHT_SYMTAB);
    let by_index = elf.get_section_by_index(8).unwrap();
    assert_eq!(by_index.get_name(), ".symtab");
    assert!(elf.get_section_by_index(29).is_none());
}

#[test]
fn byte_swapped_sibling_decodes_alike() {
    for wide in [false, true].iter() {
        let le = loaded(&build(&hello(*wide, false, 20, 15, 3, 40, 0x1234_5678)));
        let be = loaded(&build(&hello(*wide, true, 20, 15, 3, 40, 0x1234_5678)));
        assert_eq!(le.get_entry(), be.get_entry());
        assert_eq!(le.get_machine(), be.get_machine());
        assert_eq!(le.get_sections_offset(), be.get_sections_offset());
        for (a, b) in le.get_sections().iter().zip(be.get_sections().iter()) {
            assert_eq!(a.get_name(), b.get_name());
            assert_eq!(a.get_type(), b.get_type());
            assert_eq!(a.get_offset(), b.get_offset());
            assert_eq!(a.get_size(), b.get_size());
            assert_eq!(a.get_link(), b.get_link());
            assert_eq!(a.get_entry_size(), b.get_entry_size());
        }
        for (a, b) in le.get_segments().iter().zip(be.get_segments().iter()) {
            assert_eq!(a.get_offset(), b.get_offset());
            assert_eq!(a.get_virtual_address(), b.get_virtual_address());
            assert_eq!(a.get_flags(), b.get_flags());
            assert_eq!(a.get_memory_size(), b.get_memory_size());
        }
        let sa = SymbolSectionAccessor::new(&le, section(&le, ".symtab"));
        let sb = SymbolSectionAccessor::new(&be, section(&be, ".symtab"));
        for i in 0..sa.get_symbols_num() {
            let x = sa.get_symbol(i).unwrap();
            let y = sb.get_symbol(i).unwrap();
            assert_eq!((x.name, x.value, x.size, x.bind, x.stype, x.shndx), (y.name, y.value, y.size, y.bind, y.stype, y.shndx));
        }
        let da = DynamicSectionAccessor::new(&le, section(&le, ".dynamic"));
        let db = DynamicSectionAccessor::new(&be, section(&be, ".dynamic"));
        for i in 0..8 {
            assert_eq!(da.get_entry(i), db.get_entry(i));
        }
    }
}

// ---------------------------------------------------------------------------
// Load failures.

#[test]
fn load_rejects_bad_identification() {
    let good = hello_32();
    let mut bad = good.clone();
    bad[1] = b'X';
    assert_eq!(Elfio::new().load(&bad), Err(ElfError::MalformedMagic));
    let mut bad = good.clone();
    bad[4] = 3;
    assert_eq!(Elfio::new().load(&bad), Err(ElfError::UnsupportedClass));
    let mut bad = good.clone();
    bad[5] = 0;
    assert_eq!(Elfio::new().load(&bad), Err(ElfError::UnsupportedEncoding));
}

#[test]
fn load_reports_short_input_as_io() {
    let good = hello_64();
    assert_eq!(Elfio::new().load(&good[..10]), Err(ElfError::Io));
    assert_eq!(Elfio::new().load(&good[..40]), Err(ElfError::Io));
    assert_eq!(Elfio::new().load(&[]), Err(ElfError::Io));
    // The section table lies at the end of the image.
    assert_eq!(Elfio::new().load(&good[..good.len() - 1]), Err(ElfError::Io));
}

#[test]
fn load_reports_missing_name_table() {
    let spec = hello(false, false, 12, 30, 1, 3, 0);
    assert_eq!(Elfio::new().load(&build(&spec)), Err(ElfError::Truncated));
}

#[test]
fn load_failure_keeps_previous_contents() {
    let mut elf = loaded(&hello_32());
    let mut bad = hello_64();
    bad[0] = 0;
    assert_eq!(elf.load(&bad), Err(ElfError::MalformedMagic));
    assert_eq!(elf.get_sections().len(), 28);
    assert_eq!(elf.get_class(), elfio::ELFCLASS32);
}

#[test]
fn empty_file_value() {
    let elf = Elfio::new();
    assert_eq!(elf.get_class(), elfio::ELFCLASSNONE);
    assert_eq!(elf.get_sections_num(), 0);
    assert!(elf.get_sections().is_empty());
    assert!(elf.get_segments().is_empty());
    let elf = Elfio::new_(elfio::ELFCLASS64, elfio::ELFDATA2MSB);
    assert_eq!(elf.get_class(), elfio::ELFCLASS64);
    assert_eq!(elf.get_encoding(), elfio::ELFDATA2MSB);
    assert!(elf.get_converter().is_needed);
}

#[test]
fn header_setters() {
    let mut elf = loaded(&hello_32());
    elf.set_type(elfio::ET_DYN);
    elf.set_machine(40);
    elf.set_flags(0x5000_0000);
    elf.set_entry(0x1_2345_6789);
    elf.set_version(1);
    elf.set_os_abi(3);
    elf.set_abi_version(2);
    elf.set_section_name_str_index(7);
    assert_eq!(elf.get_type(), elfio::ET_DYN);
    assert_eq!(elf.get_machine(), 40);
    assert_eq!(elf.get_flags(), 0x5000_0000);
    // A 32-bit header keeps the low 32 bits of an address.
    assert_eq!(elf.get_entry(), 0x2345_6789);
    assert_eq!(elf.get_os_abi(), 3);
    assert_eq!(elf.get_abi_version(), 2);
    assert_eq!(elf.get_section_name_str_index(), 7);
    assert_eq!(elf.get_sections().len(), 28);
}

// ---------------------------------------------------------------------------
// Accessors.

#[test]
fn symbols_32_lsb() {
    let elf = loaded(&hello_32());
    let symtab = SymbolSectionAccessor::new(&elf, section(&elf, ".symtab"));
    assert_eq!(symtab.get_symbols_num(), 0x44);
    let sym = symtab.get_symbol(30).unwrap();
    assert_eq!(sym.value, 0x08049588);
    assert_eq!(sym.size, 4);
    assert_eq!(sym.bind, elfio::STB_LOCAL);
    assert_eq!(sym.stype, elfio::STT_OBJECT);
    assert_eq!(sym.shndx, 23);
    assert_eq!(sym.name, "dtor_idx.5805");
    let other = symtab.get_symbol(5).unwrap();
    assert_eq!(other.bind, elfio::STB_GLOBAL);
    assert_eq!(other.stype, elfio::STT_FUNC);
    assert_eq!(other.value, 0x50);
    assert_eq!(other.name, "");
    assert!(symtab.get_symbol(0x44).is_none());
    assert!(symtab.get_symbol(u64::MAX).is_none());
}

#[test]
fn symbols_in_every_variant() {
    for bytes in [hello_64(), hello_ppc(), hello_ppc64()].iter() {
        let elf = loaded(bytes);
        let symtab = SymbolSectionAccessor::new(&elf, section(&elf, ".symtab"));
        assert_eq!(symtab.get_symbols_num(), 0x44);
        for i in 0..0x44 {
            assert!(symtab.get_symbol(i).is_some());
        }
        let sym = symtab.get_symbol(30).unwrap();
        assert_eq!((sym.value, sym.size, sym.shndx), (0x08049588, 4, 23));
        assert_eq!(sym.name, "dtor_idx.5805");
    }
}

#[test]
fn relocations_64_lsb() {
    let elf = loaded(&hello_64());
    let relocs = RelocationSectionAccessor::new(&elf, section(&elf, ".rela.plt"));
    assert_eq!(relocs.get_entries_num(), 2);
    let rel = relocs.get_entry(1).unwrap();
    assert_eq!(rel.offset, 0x000000600850);
    assert_eq!(rel.symbol, 3);
    assert_eq!(rel.rtype, 7);
    assert_eq!(rel.addend, Some(0));
    assert!(relocs.get_entry(2).is_none());
}

#[test]
fn relocations_without_addend() {
    for bytes in [hello_32(), hello_ppc()].iter() {
        let elf = loaded(bytes);
        let relocs = RelocationSectionAccessor::new(&elf, section(&elf, ".rel.plt"));
        assert_eq!(relocs.get_entries_num(), 2);
        let rel = relocs.get_entry(0).unwrap();
        assert_eq!(rel.offset, 0x80495f8);
        assert_eq!(rel.symbol, 1);
        assert_eq!(rel.rtype, 7);
        assert_eq!(rel.addend, None);
    }
}

#[test]
fn notes_32_lsb_and_msb() {
    let elf = loaded(&hello_32());
    let notes = NoteSectionAccessor::new(&elf, section(&elf, ".note.ABI-tag"));
    assert_eq!(notes.get_notes_num(), 1);
    let note = notes.get_note(0).unwrap();
    assert_eq!(note.ntype, 1);
    assert_eq!(note.name, "GNU");
    assert_eq!(note.description, vec![0u8, 0, 0, 0, 2, 0, 0, 0, 6, 0, 0, 0, 9, 0, 0, 0]);
    assert!(notes.get_note(1).is_none());

    let elf = loaded(&hello_ppc());
    let notes = NoteSectionAccessor::new(&elf, section(&elf, ".note.ABI-tag"));
    assert_eq!(notes.get_notes_num(), 1);
    let note = notes.get_note(0).unwrap();
    assert_eq!(note.ntype, 1);
    assert_eq!(note.name, "GNU");
    assert_eq!(note.description, vec![0u8, 0, 0, 0, 0, 0, 0, 2, 0, 0, 0, 6, 0, 0, 0, 9]);
}

#[test]
fn malformed_note_is_absent() {
    let mut spec = hello(false, false, 12, 11, 1, 3, 0);
    let mut data = note_entry(false, "GNU", 1, &[1, 2, 3, 4]);
    data.extend(note_entry(false, "X", 2, &[]));
    // A third note whose name size is zero.
    data.extend(field(0, 4, false));
    data.extend(field(0, 4, false));
    data.extend(field(3, 4, false));
    spec.sections[1].data = data;
    let elf = loaded(&build(&spec));
    let notes = NoteSectionAccessor::new(&elf, section(&elf, ".note.ABI-tag"));
    assert_eq!(notes.get_notes_num(), 3);
    assert_eq!(notes.get_note(1).unwrap().name, "X");
    assert_eq!(notes.get_note(1).unwrap().ntype, 2);
    assert!(notes.get_note(1).unwrap().description.is_empty());
    assert!(notes.get_note(2).is_none());
}

#[test]
fn dynamic_entries_up_to_terminator() {
    for bytes in [hello_32(), hello_64(), hello_ppc(), hello_ppc64()].iter() {
        let elf = loaded(bytes);
        let dyns = DynamicSectionAccessor::new(&elf, section(&elf, ".dynamic"));
        assert_eq!(dyns.get_entries_num_internal(), 8);
        assert_eq!(dyns.get_entries_num(), 7);
        assert_eq!(dyns.get_entry(6).unwrap().tag, elfio::DT_NULL);
        let e = dyns.get_entry(4).unwrap();
        assert_eq!(e.tag, elfio::DT_INIT_ARRAYSZ);
        assert_eq!(e.value, 8);
        let e = dyns.get_entry(5).unwrap();
        assert_eq!(e.tag, elfio::DT_FINI_ARRAY);
        assert_eq!(e.value, 0x1f858);
        assert!(dyns.get_entry(8).is_none());
    }
}

#[test]
fn dynamic_without_terminator_counts_zero() {
    let mut spec = hello(true, false, 12, 11, 1, 3, 0);
    let mut data = field(1, 8, false);
    data.extend(field(1, 8, false));
    spec.sections[3].data = data;
    let elf = loaded(&build(&spec));
    let dyns = DynamicSectionAccessor::new(&elf, section(&elf, ".dynamic"));
    assert_eq!(dyns.get_entries_num_internal(), 1);
    assert_eq!(dyns.get_entries_num(), 0);
}

#[test]
fn negative_dynamic_tag_in_32_bit_file() {
    let mut spec = hello(false, true, 12, 11, 1, 3, 0);
    let mut data = field(0xFFFF_FFFE, 4, true);
    data.extend(field(5, 4, true));
    spec.sections[3].data = data;
    let elf = loaded(&build(&spec));
    let dyns = DynamicSectionAccessor::new(&elf, section(&elf, ".dynamic"));
    let e = dyns.get_entry(0).unwrap();
    assert_eq!(e.tag, -2);
    assert_eq!(e.value, 5);
}

#[test]
fn init_array_addresses() {
    for bytes in [hello_32(), hello_64(), hello_ppc(), hello_ppc64()].iter() {
        let elf = loaded(bytes);
        let arr = ArraySectionAccessor::new(&elf, section(&elf, ".init_array"));
        assert_eq!(arr.get_entries_num(), 2);
        assert_eq!(arr.get_entry(0).unwrap().value, 0x400500);
        assert_eq!(arr.get_entry(1).unwrap().value, 0x400600);
        assert!(arr.get_entry(2).is_none());
    }
}

#[test]
fn modinfo_entries() {
    let elf = loaded(&hello_64());
    let mi = ModInfoSectionAccessor::new(&elf, section(&elf, ".modinfo"));
    // Two runs share the key `alias`: the later value wins.
    assert_eq!(mi.get_entries_num(), 9);
    assert_eq!(
        mi.get(&"description".to_string()),
        Some("Platform-independent bitbanging I2C driver".to_string())
    );
    assert_eq!(mi.get("alias"), Some("of:N*T*Ci2c-gpio".to_string()));
    assert_eq!(mi.get("license"), Some("GPL".to_string()));
    assert_eq!(mi.get("missing"), None);
    let entries = mi.get_iter();
    assert_eq!(entries[0].0, b"alias".to_vec());
    assert_eq!(entries[1].1, b"GPL".to_vec());
}

#[test]
fn modinfo_ten_distinct_keys() {
    let mut spec = hello(false, false, 12, 11, 1, 3, 0);
    let mut data = Vec::new();
    for s in MODINFO.iter() {
        let s = if s.starts_with("alias=of") { "firmware=none" } else { *s };
        data.extend_from_slice(s.as_bytes());
        data.push(0);
    }
    data.extend_from_slice(b"no-separator\0");
    spec.sections[6].data = data;
    let elf = loaded(&build(&spec));
    let mi = ModInfoSectionAccessor::new(&elf, section(&elf, ".modinfo"));
    assert_eq!(mi.get_entries_num(), 10);
    assert_eq!(
        mi.get("description"),
        Some("Platform-independent bitbanging I2C driver".to_string())
    );
    assert_eq!(mi.get("no-separator"), None);
}

#[test]
fn string_table_runs() {
    let elf = loaded(&hello_32());
    let strtab = StringSectionAccessor::new(section(&elf, ".dynstr"));
    assert_eq!(strtab.get_string(0), "");
    assert_eq!(strtab.get_string(1), "libc.so.6");
    assert_eq!(strtab.get_string(4), "c.so.6");
    assert_eq!(strtab.get_string(11), "__gmon_start__");
    assert_eq!(strtab.get_string_bytes(11), b"__gmon_start__".to_vec());
    // Past the end of the table.
    assert_eq!(strtab.get_string(500), "");
    let last = section(&elf, ".dynstr").get_data().len() as u32;
    assert_eq!(strtab.get_string_bytes(last), Vec::<u8>::new());
}

#[test]
fn unterminated_string_runs_to_end() {
    let mut spec = hello(false, false, 12, 11, 1, 3, 0);
    spec.sections[2].data = b"\0abc".to_vec();
    let elf = loaded(&build(&spec));
    let strtab = StringSectionAccessor::new(section(&elf, ".dynstr"));
    assert_eq!(strtab.get_string(1), "abc");
}

#[test]
fn section_setters() {
    let elf = loaded(&hello_32());
    let mut s = ElfSection::new(elf.get_converter(), elfio::ELFCLASS32);
    s.set_type(elfio::SHT_PROGBITS);
    s.set_address(0x1_0000_1000);
    s.set_size(0x40);
    s.set_link(3);
    s.set_info(4);
    s.set_flags(elfio::SHF_WRITE);
    s.set_entry_size(8);
    s.set_addr_align(16);
    s.set_offset(0x200);
    s.set_name_string_offset(9);
    assert_eq!(s.get_type(), elfio::SHT_PROGBITS);
    assert_eq!(s.get_address(), 0x1000);
    assert_eq!(s.get_size(), 0x40);
    assert_eq!(s.get_link(), 3);
    assert_eq!(s.get_info(), 4);
    assert_eq!(s.get_flags(), elfio::SHF_WRITE);
    assert_eq!(s.get_entry_size(), 8);
    assert_eq!(s.get_addr_align(), 16);
    assert_eq!(s.get_offset(), 0x200);
    assert_eq!(s.get_name_string_offset(), 9);
}

#[test]
fn invalid_utf8_name_is_replaced() {
    let mut spec = hello(false, false, 12, 11, 1, 3, 0);
    spec.sections[2].data = vec![0, b'a', 0xff, b'b', 0];
    let elf = loaded(&build(&spec));
    let strtab = StringSectionAccessor::new(section(&elf, ".dynstr"));
    assert_eq!(strtab.get_string(1), "a\u{FFFD}b");
    assert_eq!(strtab.get_string_bytes(1), vec![b'a', 0xff, b'b']);
}

#[test]
fn symbol_entries_narrower_than_a_record_are_absent() {
    let mut spec = hello(false, false, 12, 11, 1, 3, 0);
    spec.sections[8].entsize = 12;
    spec.sections[8].data.truncate(48);
    let elf = loaded(&build(&spec));
    let symtab = SymbolSectionAccessor::new(&elf, section(&elf, ".symtab"));
    assert_eq!(symtab.get_symbols_num(), 4);
    assert!(symtab.get_symbol(2).is_some());
    // Entry 3 starts at 36; a 16-byte record would end past 48.
    assert!(symtab.get_symbol(3).is_none());
}

#[test]
fn zero_entry_size_means_no_entries() {
    let mut spec = hello(true, false, 12, 11, 1, 3, 0);
    spec.sections[4].entsize = 0;
    let elf = loaded(&build(&spec));
    let relocs = RelocationSectionAccessor::new(&elf, section(&elf, ".rela.plt"));
    assert_eq!(relocs.get_entries_num(), 0);
    assert!(relocs.get_entry(0).is_none());
}

#[test]
fn well_formed_notes_cover_the_payload() {
    let mut spec = hello(true, true, 12, 11, 1, 3, 0);
    let mut data = note_entry(true, "GNU", 3, &[0xde, 0xad, 0xbe, 0xef, 0x01]);
    data.extend(note_entry(true, "Linux", 0x100, &[7; 6]));
    data.extend(note_entry(true, "A", 5, &[]));
    let total = data.len();
    spec.sections[1].data = data;
    let elf = loaded(&build(&spec));
    let notes = NoteSectionAccessor::new(&elf, section(&elf, ".note.ABI-tag"));
    assert_eq!(notes.get_notes_num(), 3);
    // 12 + 4 + 8, 12 + 8 + 8 and 12 + 4 + 0 bytes.
    assert_eq!(24 + 28 + 16, total);
    let n = notes.get_note(0).unwrap();
    assert_eq!((n.ntype, n.name.as_str()), (3, "GNU"));
    assert_eq!(n.description, vec![0xde, 0xad, 0xbe, 0xef, 0x01]);
    let n = notes.get_note(1).unwrap();
    assert_eq!((n.ntype, n.name.as_str()), (0x100, "Linux"));
    assert_eq!(n.description, vec![7; 6]);
    let n = notes.get_note(2).unwrap();
    assert_eq!((n.ntype, n.name.as_str()), (5, "A"));
    assert!(notes.get_note(3).is_none());
}

#[test]
fn empty_note_section_has_no_notes() {
    let mut spec = hello(false, false, 12, 11, 1, 3, 0);
    spec.sections[1].data = Vec::new();
    let elf = loaded(&build(&spec));
    let notes = NoteSectionAccessor::new(&elf, section(&elf, ".note.ABI-tag"));
    assert_eq!(notes.get_notes_num(), 0);
    assert!(notes.get_note(0).is_none());
}

#[test]
fn payload_past_end_of_file_is_io() {
    let mut bytes = hello_32();
    let elf = loaded(&bytes);
    // Point the size of section 3 far past the end of the image.
    let shoff = elf.get_sections_offset() as usize;
    let p = shoff + 3 * 40 + 20;
    bytes[p..p + 4].copy_from_slice(&0x00ff_ffffu32.to_le_bytes());
    assert_eq!(Elfio::new().load(&bytes), Err(ElfError::Io));
}

#[test]
fn segment_table_past_end_of_file_is_io() {
    let mut bytes = hello_64();
    // Program-header offset of a 64-bit header.
    bytes[32..40].copy_from_slice(&0xffff_ffff_0000u64.to_le_bytes());
    assert_eq!(Elfio::new().load(&bytes), Err(ElfError::Io));
}

#[test]
fn symbol_table_linked_to_no_section_gives_no_symbols() {
    let mut spec = hello(false, false, 12, 11, 1, 3, 0);
    spec.sections[8].link = 40;
    let elf = loaded(&build(&spec));
    let symtab = SymbolSectionAccessor::new(&elf, section(&elf, ".symtab"));
    assert_eq!(symtab.get_symbols_num(), 0x44);
    assert!(symtab.get_symbol(0).is_none());
    assert!(symtab.get_symbol(30).is_none());
}

#[test]
fn setters_on_a_fresh_value_keep_64_bits() {
    let mut elf = Elfio::new();
    elf.set_entry(0x1_2345_6789);
    elf.set_sections_offset(0xffff_0000_0000);
    elf.set_segments_offset(0x1_0000_0040);
    assert_eq!(elf.get_entry(), 0x1_2345_6789);
    assert_eq!(elf.get_sections_offset(), 0xffff_0000_0000);
    assert_eq!(elf.get_segments_offset(), 0x1_0000_0040);
    let mut elf = Elfio::new_(elfio::ELFCLASS32, elfio::ELFDATA2LSB);
    elf.set_entry(0x1_2345_6789);
    assert_eq!(elf.get_entry(), 0x2345_6789);
}

#[test]
fn default_values() {
    let elf = Elfio::default();
    assert_eq!(elf.get_class(), elfio::ELFCLASSNONE);
    assert!(elf.get_sections().is_empty());
    assert!(!elf.get_converter().is_needed);
    let d = elfio::Dynamic::default();
    assert_eq!((d.tag, d.value), (0, 0));
    let r = elfio::Relocation::default();
    assert_eq!(r.addend, None);
    assert_eq!(elfio::Array::default().value, 0);
    let s = elfio::Symbol::default();
    assert_eq!(s.name, "");
    assert!(elfio::Note::default().description.is_empty());
}
