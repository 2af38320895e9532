//! Decoding does not depend on the byte order a file was written in: a record
//! read from a least-significant-first file equals the record read from its
//! sibling whose multi-byte fields are each stored in reverse.

use vstd::prelude::*;
use crate::dynamic::{dynamic_decoded, dynamic_tag_at, Dynamic};
use crate::elfio::{
    header_field, ident_error, load_result, name_at, payload_at, phnum_of, phoff_of,
    section_loaded, section_ok, section_pos, segment_loaded, segment_ok, segment_pos, shnum_of,
    shoff_of, shstrndx_of, Elfio,
};
use crate::header::{addr_width, header_decoded, header_size_of, ElfHeader};
use crate::relocation::{relocation_decoded, relocation_record_size, Relocation};
use crate::section::{section_fields_decoded, section_record_size, ElfSection};
use crate::segment::{segment_fields_decoded, segment_record_size, ElfSegment};
use crate::symbols::{link_ok, linked_table, symbol_decoded, symbol_matches, symbol_record_size, Symbol};
use crate::table::entry_present;
use crate::types::{ELFCLASS64, ELFDATA2LSB, ELFDATA2MSB};
use crate::utils::{be_at, le_at, lemma_field_byte_order, reversed_field};

verus! {

/// Each field `(offset, width)` of `layout`, relative to `p`, is stored in
/// `d2` with its bytes in reverse order; single bytes are kept as they are.
pub open spec fn record_reversed(d: Seq<u8>, d2: Seq<u8>, p: int, layout: Seq<(int, int)>) -> bool {
    forall|i: int|
        0 <= i < layout.len() ==> reversed_field(
            d,
            p + (#[trigger] layout[i]).0,
            d2,
            p + layout[i].0,
            layout[i].1,
        )
}

/// Every field of `layout` reads the same in either file, each in its own order.
pub proof fn lemma_record_byte_order(d: Seq<u8>, d2: Seq<u8>, p: int, layout: Seq<(int, int)>)
    requires
        record_reversed(d, d2, p, layout),
    ensures
        forall|i: int|
            0 <= i < layout.len() ==> le_at(d, p + (#[trigger] layout[i]).0, layout[i].1)
                == be_at(d2, p + layout[i].0, layout[i].1),
{
    assert forall|i: int| 0 <= i < layout.len() implies le_at(
        d,
        p + (#[trigger] layout[i]).0,
        layout[i].1,
    ) == be_at(d2, p + layout[i].0, layout[i].1) by {
        lemma_field_byte_order(d, p + layout[i].0, d2, p + layout[i].0, layout[i].1);
    }
}

/// Multi-byte fields of the header record after the identification bytes.
pub open spec fn header_layout(class: u8) -> Seq<(int, int)> {
    let w = addr_width(class);
    seq![
        (16, 2), (18, 2), (20, 4), (24, w), (24 + w, w), (24 + 2 * w, w), (24 + 3 * w, 4),
        (28 + 3 * w, 2), (30 + 3 * w, 2), (32 + 3 * w, 2), (34 + 3 * w, 2), (36 + 3 * w, 2),
        (38 + 3 * w, 2),
    ]
}

/// Multi-byte fields of a section record.
pub open spec fn section_layout(class: u8) -> Seq<(int, int)> {
    let w = addr_width(class);
    seq![
        (0, 4), (4, 4), (8, w), (8 + w, w), (8 + 2 * w, w), (8 + 3 * w, w), (8 + 4 * w, 4),
        (12 + 4 * w, 4), (16 + 4 * w, w), (16 + 5 * w, w),
    ]
}

/// Multi-byte fields of a segment record.
pub open spec fn segment_layout(class: u8) -> Seq<(int, int)> {
    if class == ELFCLASS64 {
        seq![(0, 4), (4, 4), (8, 8), (16, 8), (24, 8), (32, 8), (40, 8), (48, 8)]
    } else {
        seq![(0, 4), (4, 4), (8, 4), (12, 4), (16, 4), (20, 4), (24, 4), (28, 4)]
    }
}

/// Multi-byte fields of a symbol record.
pub open spec fn symbol_layout(class: u8) -> Seq<(int, int)> {
    if class == ELFCLASS64 {
        seq![(0, 4), (6, 2), (8, 8), (16, 8)]
    } else {
        seq![(0, 4), (4, 4), (8, 4), (14, 2)]
    }
}

/// Multi-byte fields of a relocation record with an addend.
pub open spec fn relocation_layout(class: u8) -> Seq<(int, int)> {
    let w = addr_width(class);
    seq![(0, w), (w, w), (2 * w, w)]
}

/// Multi-byte fields of a dynamic record.
pub open spec fn dynamic_layout(class: u8) -> Seq<(int, int)> {
    let w = addr_width(class);
    seq![(0, w), (w, w)]
}

/// The header decoded from a least-significant-first file and from its
/// most-significant-first sibling are the same but for the encoding byte.
pub proof fn lemma_header_byte_order(h: ElfHeader, d: Seq<u8>, d2: Seq<u8>)
    requires
        d.len() >= 16,
        d2.len() >= 16,
        d2[4] == d[4],
        d2[6] == d[6],
        d2[7] == d[7],
        d2[8] == d[8],
        record_reversed(d, d2, 0, header_layout(d[4])),
    ensures
        header_decoded(h, false, d) <==> header_decoded(
            ElfHeader { ei_data: d2[5], ..h },
            true,
            d2,
        ) && h.ei_data == d[5],
{
    let l = header_layout(d[4]);
    lemma_record_byte_order(d, d2, 0, l);
    assert(l[0] == (16int, 2int) && l[1] == (18int, 2int) && l[2] == (20int, 4int));
    assert(l[3].0 == 24 && l[4].0 == 24 + addr_width(d[4]) && l[5].0 == 24 + 2 * addr_width(d[4]));
    assert(l[6].0 == 24 + 3 * addr_width(d[4]) && l[7].0 == 28 + 3 * addr_width(d[4]));
    assert(l[8].0 == 30 + 3 * addr_width(d[4]) && l[9].0 == 32 + 3 * addr_width(d[4]));
    assert(l[10].0 == 34 + 3 * addr_width(d[4]) && l[11].0 == 36 + 3 * addr_width(d[4]));
    assert(l[12].0 == 38 + 3 * addr_width(d[4]));
}

/// A section record reads the same from a least-significant-first file and
/// from its most-significant-first sibling.
pub proof fn lemma_section_byte_order(s: ElfSection, class: u8, d: Seq<u8>, d2: Seq<u8>, p: int)
    requires
        record_reversed(d, d2, p, section_layout(class)),
    ensures
        section_fields_decoded(s, false, class, d, p) <==> section_fields_decoded(
            s,
            true,
            class,
            d2,
            p,
        ),
{
    let l = section_layout(class);
    lemma_record_byte_order(d, d2, p, l);
    assert(l[0] == (0int, 4int) && l[1] == (4int, 4int) && l[2].0 == 8 && l[3].0 == 8
        + addr_width(class));
    assert(l[4].0 == 8 + 2 * addr_width(class) && l[5].0 == 8 + 3 * addr_width(class));
    assert(l[6].0 == 8 + 4 * addr_width(class) && l[7].0 == 12 + 4 * addr_width(class));
    assert(l[8].0 == 16 + 4 * addr_width(class) && l[9].0 == 16 + 5 * addr_width(class));
}

/// A segment record reads the same from a least-significant-first file and
/// from its most-significant-first sibling.
pub proof fn lemma_segment_byte_order(s: ElfSegment, class: u8, d: Seq<u8>, d2: Seq<u8>, p: int)
    requires
        record_reversed(d, d2, p, segment_layout(class)),
    ensures
        segment_fields_decoded(s, false, class, d, p) <==> segment_fields_decoded(
            s,
            true,
            class,
            d2,
            p,
        ),
{
    let l = segment_layout(class);
    lemma_record_byte_order(d, d2, p, l);
    assert(l[0] == (0int, 4int) && l[1].0 == 4 && l[2].0 == 8 && l[3].0 == 12 + if class
        == ELFCLASS64 {
        4int
    } else {
        0int
    });
    assert(l[4].0 == if class == ELFCLASS64 {
        24int
    } else {
        16int
    } && l[5].0 == if class == ELFCLASS64 {
        32int
    } else {
        20int
    });
    assert(l[6].0 == if class == ELFCLASS64 {
        40int
    } else {
        24int
    } && l[7].0 == if class == ELFCLASS64 {
        48int
    } else {
        28int
    });
}

/// A symbol reads the same from a least-significant-first file and from its
/// most-significant-first sibling.
pub proof fn lemma_symbol_byte_order(sym: Symbol, class: u8, d: Seq<u8>, d2: Seq<u8>, p: int)
    requires
        record_reversed(d, d2, p, symbol_layout(class)),
        class == ELFCLASS64 ==> d2[p + 4] == d[p + 4] && d2[p + 5] == d[p + 5],
        class != ELFCLASS64 ==> d2[p + 12] == d[p + 12] && d2[p + 13] == d[p + 13],
    ensures
        symbol_decoded(sym, false, class, d, p) <==> symbol_decoded(sym, true, class, d2, p),
        le_at(d, p, 4) == be_at(d2, p, 4),
{
    let l = symbol_layout(class);
    lemma_record_byte_order(d, d2, p, l);
    assert(l[0] == (0int, 4int));
    assert(l[1].0 == if class == ELFCLASS64 {
        6int
    } else {
        4int
    } && l[2].0 == if class == ELFCLASS64 {
        8int
    } else {
        8int
    } && l[3].0 == if class == ELFCLASS64 {
        16int
    } else {
        14int
    });
}

/// A relocation reads the same from a least-significant-first file and from
/// its most-significant-first sibling.
pub proof fn lemma_relocation_byte_order(
    rel: Relocation,
    class: u8,
    sh_type: u32,
    d: Seq<u8>,
    d2: Seq<u8>,
    p: int,
)
    requires
        record_reversed(d, d2, p, relocation_layout(class)),
    ensures
        relocation_decoded(rel, false, class, sh_type, d, p) <==> relocation_decoded(
            rel,
            true,
            class,
            sh_type,
            d2,
            p,
        ),
{
    let l = relocation_layout(class);
    lemma_record_byte_order(d, d2, p, l);
    let w = addr_width(class);
    assert(l[0] == (0int, w) && l[1] == (w, w) && l[2] == (2 * w, w));
}

/// A dynamic entry reads the same from a least-significant-first file and
/// from its most-significant-first sibling.
pub proof fn lemma_dynamic_byte_order(e: Dynamic, class: u8, d: Seq<u8>, d2: Seq<u8>, p: int)
    requires
        record_reversed(d, d2, p, dynamic_layout(class)),
    ensures
        dynamic_decoded(e, false, class, d, p) <==> dynamic_decoded(e, true, class, d2, p),
        dynamic_tag_at(false, class, d, p) == dynamic_tag_at(true, class, d2, p),
{
    let l = dynamic_layout(class);
    lemma_record_byte_order(d, d2, p, l);
    let w = addr_width(class);
    assert(l[0] == (0int, w) && l[1] == (w, w));
}

/// `d2` is the most-significant-first sibling of the least-significant-first
/// image `d`: the same length and identification bytes but for the encoding,
/// every multi-byte field of the header and of each section and segment
/// record that lies within the image stored in reverse, and the same bytes
/// in the section-name table.
pub open spec fn image_siblings(d: Seq<u8>, d2: Seq<u8>) -> bool {
    &&& d.len() == d2.len()
    &&& d.len() >= 16
    &&& d[5] == ELFDATA2LSB
    &&& d2[5] == ELFDATA2MSB
    &&& forall|k: int| 0 <= k < 16 && k != 5 ==> #[trigger] d2[k] == d[k]
    &&& d.len() >= header_size_of(d[4]) ==> record_reversed(d, d2, 0, header_layout(d[4]))
    &&& forall|i: int|
        0 <= i < shnum_of(d) && #[trigger] section_pos(d, i) + section_record_size(d[4]) <= d.len()
            ==> record_reversed(d, d2, section_pos(d, i), section_layout(d[4]))
    &&& forall|i: int|
        0 <= i < phnum_of(d) && #[trigger] segment_pos(d, i) + segment_record_size(d[4]) <= d.len()
            ==> record_reversed(d, d2, segment_pos(d, i), segment_layout(d[4]))
    &&& 0 < shstrndx_of(d) < shnum_of(d) ==> payload_at(d, shstrndx_of(d)) == payload_at(
        d2,
        shstrndx_of(d),
    )
}

/// The header fields that locate the tables read the same from both siblings.
proof fn lemma_sibling_header_fields(d: Seq<u8>, d2: Seq<u8>)
    requires
        image_siblings(d, d2),
        ident_error(d) is None,
    ensures
        ident_error(d2) is None,
        d2[4] == d[4],
        shoff_of(d) == shoff_of(d2),
        phoff_of(d) == phoff_of(d2),
        shnum_of(d) == shnum_of(d2),
        phnum_of(d) == phnum_of(d2),
        shstrndx_of(d) == shstrndx_of(d2),
        header_field(d, 34, 2) == header_field(d2, 34, 2),
        header_field(d, 30, 2) == header_field(d2, 30, 2),
        forall|i: int| section_pos(d, i) == #[trigger] section_pos(d2, i),
        forall|i: int| segment_pos(d, i) == #[trigger] segment_pos(d2, i),
{
    assert(d2[0] == d[0] && d2[1] == d[1] && d2[2] == d[2] && d2[3] == d[3] && d2[4] == d[4]);
    let w = addr_width(d[4]);
    let l = header_layout(d[4]);
    lemma_record_byte_order(d, d2, 0, l);
    assert(l[4] == (24 + w, w) && l[5] == (24 + 2 * w, w));
    assert(l[8] == (30 + 3 * w, 2int) && l[9] == (32 + 3 * w, 2int));
    assert(l[10] == (34 + 3 * w, 2int) && l[11] == (36 + 3 * w, 2int));
    assert(l[12] == (38 + 3 * w, 2int));
}

/// A section record of the image reads the same from both siblings.
proof fn lemma_sibling_section(d: Seq<u8>, d2: Seq<u8>, i: int)
    requires
        image_siblings(d, d2),
        ident_error(d) is None,
        0 <= i < shnum_of(d),
        section_pos(d, i) + section_record_size(d[4]) <= d.len(),
    ensures
        forall|s: ElfSection|
            section_fields_decoded(s, false, d[4], d, section_pos(d, i)) <==> #[trigger] section_fields_decoded(
                s,
                true,
                d[4],
                d2,
                section_pos(d, i),
            ),
        le_at(d, section_pos(d, i), 4) == be_at(d2, section_pos(d, i), 4),
        le_at(d, section_pos(d, i) + 4, 4) == be_at(d2, section_pos(d, i) + 4, 4),
        le_at(d, section_pos(d, i) + 8 + 2 * addr_width(d[4]), addr_width(d[4])) == be_at(
            d2,
            section_pos(d, i) + 8 + 2 * addr_width(d[4]),
            addr_width(d[4]),
        ),
        le_at(d, section_pos(d, i) + 8 + 3 * addr_width(d[4]), addr_width(d[4])) == be_at(
            d2,
            section_pos(d, i) + 8 + 3 * addr_width(d[4]),
            addr_width(d[4]),
        ),
{
    let p = section_pos(d, i);
    let l = section_layout(d[4]);
    assert(record_reversed(d, d2, p, l));
    assert forall|s: ElfSection|
        section_fields_decoded(s, false, d[4], d, p) <==> #[trigger] section_fields_decoded(
            s,
            true,
            d[4],
            d2,
            p,
        ) by {
        lemma_section_byte_order(s, d[4], d, d2, p);
    }
    lemma_record_byte_order(d, d2, p, l);
    let w = addr_width(d[4]);
    assert(l[0] == (0int, 4int) && l[1] == (4int, 4int));
    assert(l[4] == (8 + 2 * w, w) && l[5] == (8 + 3 * w, w));
}

/// Loading an image and loading its byte-swapped sibling succeed or fail alike.
pub proof fn lemma_load_byte_order(d: Seq<u8>, d2: Seq<u8>)
    requires
        image_siblings(d, d2),
    ensures
        load_result(d) == load_result(d2),
{
    if ident_error(d) is None {
        lemma_sibling_header_fields(d, d2);
        assert forall|i: int| 0 <= i < shnum_of(d) implies section_ok(d, i) == #[trigger] section_ok(
            d2,
            i,
        ) by {
            if section_pos(d, i) + section_record_size(d[4]) <= d.len() {
                lemma_sibling_section(d, d2, i);
            }
        }
        assert forall|i: int| 0 <= i < phnum_of(d) implies segment_ok(d, i) == #[trigger] segment_ok(
            d2,
            i,
        ) by {}
        if exists|i: int| 0 <= i < shnum_of(d) && !section_ok(d, i) {
            let i = choose|i: int| 0 <= i < shnum_of(d) && !section_ok(d, i);
            assert(!section_ok(d2, i));
        } else if exists|i: int| 0 <= i < shnum_of(d2) && !section_ok(d2, i) {
            let i = choose|i: int| 0 <= i < shnum_of(d2) && !section_ok(d2, i);
            assert(!section_ok(d, i));
        }
        if exists|i: int| 0 <= i < phnum_of(d) && !segment_ok(d, i) {
            let i = choose|i: int| 0 <= i < phnum_of(d) && !segment_ok(d, i);
            assert(!segment_ok(d2, i));
        } else if exists|i: int| 0 <= i < phnum_of(d2) && !segment_ok(d2, i) {
            let i = choose|i: int| 0 <= i < phnum_of(d2) && !segment_ok(d2, i);
            assert(!segment_ok(d, i));
        }
    } else {
        assert(d2[0] == d[0] && d2[1] == d[1] && d2[2] == d[2] && d2[3] == d[3] && d2[4] == d[4]);
        assert(ident_error(d2) == ident_error(d));
    }
}

/// The sections loaded from an image and from its byte-swapped sibling have
/// the same fields and names.
pub proof fn lemma_loaded_section_byte_order(d: Seq<u8>, d2: Seq<u8>, i: int, s1: ElfSection, s2: ElfSection)
    requires
        image_siblings(d, d2),
        load_result(d) is Ok,
        0 <= i < shnum_of(d),
        section_loaded(s1, d, i),
        section_loaded(s2, d2, i),
    ensures
        s1.sh_name == s2.sh_name && s1.sh_type == s2.sh_type && s1.sh_flags == s2.sh_flags,
        s1.sh_addr == s2.sh_addr && s1.sh_offset == s2.sh_offset && s1.sh_size == s2.sh_size,
        s1.sh_link == s2.sh_link && s1.sh_info == s2.sh_info,
        s1.sh_addralign == s2.sh_addralign && s1.sh_entsize == s2.sh_entsize,
        s1.name@ == s2.name@,
        s1.class == s2.class,
{
    lemma_sibling_header_fields(d, d2);
    assert(section_ok(d, i));
    lemma_sibling_section(d, d2, i);
    assert(section_fields_decoded(s2, false, d[4], d, section_pos(d, i)));
    let k = shstrndx_of(d);
    if i != 0 && k != 0 {
        assert(name_at(d, i) == name_at(d2, i));
    }
}

/// The segments loaded from an image and from its byte-swapped sibling are
/// the same.
pub proof fn lemma_loaded_segment_byte_order(d: Seq<u8>, d2: Seq<u8>, i: int, g1: ElfSegment, g2: ElfSegment)
    requires
        image_siblings(d, d2),
        load_result(d) is Ok,
        0 <= i < phnum_of(d),
        segment_loaded(g1, d, i),
        segment_loaded(g2, d2, i),
    ensures
        g1.p_type == g2.p_type && g1.p_flags == g2.p_flags && g1.p_offset == g2.p_offset,
        g1.p_vaddr == g2.p_vaddr && g1.p_paddr == g2.p_paddr,
        g1.p_filesz == g2.p_filesz && g1.p_memsz == g2.p_memsz && g1.p_align == g2.p_align,
        g1.class == g2.class,
{
    lemma_sibling_header_fields(d, d2);
    assert(segment_ok(d, i));
    let p = segment_pos(d, i);
    assert(record_reversed(d, d2, p, segment_layout(d[4])));
    lemma_segment_byte_order(g2, d[4], d, d2, p);
}

/// A symbol table of a least-significant-first file and the byte-swapped
/// table of its sibling give the same symbol at each index.
pub proof fn lemma_symbol_table_byte_order(
    e1: &Elfio,
    s1: &ElfSection,
    e2: &Elfio,
    s2: &ElfSection,
    index: u64,
    sym1: Symbol,
    sym2: Symbol,
)
    requires
        !s1.converter.is_needed,
        s2.converter.is_needed,
        s1.class == s2.class,
        s1.sh_size == s2.sh_size,
        s1.sh_entsize == s2.sh_entsize,
        s1.data@.len() == s2.data@.len(),
        link_ok(e1, s1) == link_ok(e2, s2),
        link_ok(e1, s1) ==> linked_table(e1, s1) == linked_table(e2, s2),
        record_reversed(s1.data@, s2.data@, index * s1.sh_entsize, symbol_layout(s1.class)),
        ({
            let info_at = index * s1.sh_entsize + if s1.class == ELFCLASS64 {
                4int
            } else {
                12int
            };
            s2.data@[info_at] == s1.data@[info_at] && s2.data@[info_at + 1] == s1.data@[info_at
                + 1]
        }),
    ensures
        (entry_present(s1.sh_size, s1.sh_entsize, index, symbol_record_size(s1.class), s1.data@.len() as int)
            && link_ok(e1, s1)) == (entry_present(s2.sh_size, s2.sh_entsize, index, symbol_record_size(s2.class), s2.data@.len() as int)
            && link_ok(e2, s2)),
        link_ok(e1, s1) && symbol_matches(e1, s1, index, sym1) && symbol_matches(e2, s2, index, sym2) ==> {
            &&& sym1.value == sym2.value && sym1.size == sym2.size && sym1.shndx == sym2.shndx
            &&& sym1.bind == sym2.bind && sym1.stype == sym2.stype && sym1.other == sym2.other
            &&& sym1.name@ == sym2.name@
        },
{
    let p = index * s1.sh_entsize;
    lemma_symbol_byte_order(sym2, s1.class, s1.data@, s2.data@, p);
}

/// A relocation table of a least-significant-first file and the byte-swapped
/// table of its sibling give the same relocation at each index.
pub proof fn lemma_relocation_table_byte_order(
    s1: &ElfSection,
    s2: &ElfSection,
    index: u64,
    r1: Relocation,
    r2: Relocation,
)
    requires
        !s1.converter.is_needed,
        s2.converter.is_needed,
        s1.class == s2.class,
        s1.sh_type == s2.sh_type,
        s1.sh_size == s2.sh_size,
        s1.sh_entsize == s2.sh_entsize,
        s1.data@.len() == s2.data@.len(),
        record_reversed(s1.data@, s2.data@, index * s1.sh_entsize, relocation_layout(s1.class)),
    ensures
        entry_present(s1.sh_size, s1.sh_entsize, index, relocation_record_size(s1.class, s1.sh_type), s1.data@.len() as int)
            == entry_present(s2.sh_size, s2.sh_entsize, index, relocation_record_size(s2.class, s2.sh_type), s2.data@.len() as int),
        relocation_decoded(r1, false, s1.class, s1.sh_type, s1.data@, index * s1.sh_entsize)
            && relocation_decoded(r2, true, s2.class, s2.sh_type, s2.data@, index * s2.sh_entsize)
            ==> r1 == r2,
{
    let p = index * s1.sh_entsize;
    lemma_relocation_byte_order(r2, s1.class, s1.sh_type, s1.data@, s2.data@, p);
}

} // verus!
