//! Reading of ELF object files of either class and either byte order.
//!
//! An image is handed over as bytes and decoded field by field into a header,
//! section records and segment records; typed accessors then read symbol,
//! relocation, dynamic, note, array, string and modinfo sections.

pub mod array;
pub mod byte_order;
pub mod dynamic;
pub mod elfio;
pub mod header;
pub mod modinfo;
pub mod note;
pub mod relocation;
pub mod section;
pub mod segment;
pub mod strings;
pub mod symbols;
pub mod table;
pub mod types;
pub mod utils;

pub use types::{
    ElfHalf, ElfWord, ElfSword, ElfXword, ElfSxword, Elf32Addr, Elf32Off, Elf64Addr, Elf64Off,
    EV_NONE, EV_CURRENT, EI_MAG0, EI_MAG1, EI_MAG2, EI_MAG3, EI_CLASS, EI_DATA, EI_VERSION,
    EI_OSABI, EI_ABIVERSION, EI_PAD, EI_NIDENT, ELFMAG0, ELFMAG1, ELFMAG2, ELFMAG3,
    ELFCLASSNONE, ELFCLASS32, ELFCLASS64, ELFDATANONE, ELFDATA2LSB, ELFDATA2MSB, ET_NONE,
    ET_REL, ET_EXEC, ET_DYN, ET_CORE, SHN_UNDEF, SHN_LORESERVE, SHN_LOPROC, SHN_HIPROC,
    SHN_LOOS, SHN_HIOS, SHN_ABS, SHN_COMMON, SHN_XINDEX, SHN_HIRESERVE, SHT_NULL, SHT_PROGBITS,
    SHT_SYMTAB, SHT_STRTAB, SHT_RELA, SHT_HASH, SHT_DYNAMIC, SHT_NOTE, SHT_NOBITS, SHT_REL,
    SHT_SHLIB, SHT_DYNSYM, SHT_INIT_ARRAY, SHT_FINI_ARRAY, SHT_PREINIT_ARRAY, SHT_GROUP,
    SHT_SYMTAB_SHNDX, SHT_LOOS, SHT_HIOS, SHT_LOPROC, SHT_HIPROC, SHT_LOUSER, SHT_HIUSER,
    SHF_WRITE, SHF_ALLOC, SHF_EXECINSTR, SHF_MERGE, SHF_STRINGS, SHF_INFO_LINK, SHF_LINK_ORDER,
    SHF_OS_NONCONFORMING, SHF_GROUP, SHF_TLS, SHF_MASKOS, SHF_MASKPROC, PT_NULL, PT_LOAD,
    PT_DYNAMIC, PT_INTERP, PT_NOTE, PT_SHLIB, PT_PHDR, PT_TLS, PT_LOOS, PT_HIOS, PT_LOPROC,
    PT_HIPROC, PF_X, PF_W, PF_R, PF_MASKOS, PF_MASKPROC, STB_LOCAL, STB_GLOBAL, STB_WEAK,
    STB_LOOS, STB_HIOS, STB_LOPROC, STB_HIPROC, STT_NOTYPE, STT_OBJECT, STT_FUNC, STT_SECTION,
    STT_FILE, STT_COMMON, STT_TLS, STT_LOOS, STT_HIOS, STT_LOPROC, STT_HIPROC, DT_NULL,
    DT_NEEDED, DT_PLTRELSZ, DT_PLTGOT, DT_HASH, DT_STRTAB, DT_SYMTAB, DT_RELA, DT_RELASZ,
    DT_RELAENT, DT_STRSZ, DT_SYMENT, DT_INIT, DT_FINI, DT_SONAME, DT_RPATH, DT_SYMBOLIC, DT_REL,
    DT_RELSZ, DT_RELENT, DT_PLTREL, DT_DEBUG, DT_TEXTREL, DT_JMPREL, DT_BIND_NOW, DT_INIT_ARRAY,
    DT_FINI_ARRAY, DT_INIT_ARRAYSZ, DT_FINI_ARRAYSZ, DT_RUNPATH, DT_FLAGS, DT_ENCODING,
    DT_PREINIT_ARRAY, DT_PREINIT_ARRAYSZ, DT_MAXPOSTAGS, DT_LOOS, DT_HIOS, DT_LOPROC, DT_HIPROC,
};
pub use utils::{Convert, Converter, ElfError};
pub use array::{Array, ArraySectionAccessor};
pub use dynamic::{Dynamic, DynamicSectionAccessor};
pub use elfio::Elfio;
pub use header::{ElfHeader, ElfHeaderAccessTrait};
pub use modinfo::ModInfoSectionAccessor;
pub use note::{Note, NoteSectionAccessor};
pub use relocation::{Relocation, RelocationSectionAccessor};
pub use section::{ElfSection, ElfSectionAccessTrait};
pub use segment::{ElfSegment, ElfSegmentAccessTrait};
pub use strings::StringSectionAccessor;
pub use symbols::{Symbol, SymbolSectionAccessor};
