//! Byte-order conversion and the primitive readers of fixed-width integers.
//!
//! The readers assemble the bytes of a field least-significant first and then
//! pass the value through the file's [`Converter`], which reverses the bytes
//! exactly when the file is stored most-significant first.

use vstd::prelude::*;

verus! {

/// Value of the `w` bytes of `d` that start at `p`, least-significant byte first.
pub open spec fn le_at(d: Seq<u8>, p: int, w: int) -> nat
    decreases w,
{
    if w <= 0 {
        0
    } else {
        d[p] as nat + 256 * le_at(d, p + 1, w - 1)
    }
}

/// Value of the `w` bytes of `d` that start at `p`, most-significant byte first.
pub open spec fn be_at(d: Seq<u8>, p: int, w: int) -> nat
    decreases w,
{
    if w <= 0 {
        0
    } else {
        d[p + w - 1] as nat + 256 * be_at(d, p, w - 1)
    }
}

/// Value of a field of `w` bytes at `p` in a file of the given byte order.
pub open spec fn uint_at(big: bool, d: Seq<u8>, p: int, w: int) -> nat {
    if big {
        be_at(d, p, w)
    } else {
        le_at(d, p, w)
    }
}

/// The `w` bytes of `d2` at `q` are those of `d` at `p` in reverse order.
pub open spec fn reversed_field(d: Seq<u8>, p: int, d2: Seq<u8>, q: int, w: int) -> bool {
    forall|k: int| 0 <= k < w ==> #[trigger] d2[q + k] == d[p + w - 1 - k]
}

/// `x` with its two bytes exchanged.
pub open spec fn swap_u16(x: u16) -> u16 {
    ((x % 256) * 256 + x / 256) as u16
}

/// `x` with its four bytes in reverse order.
pub open spec fn swap_u32(x: u32) -> u32 {
    ((x % 256) * 0x100_0000 + ((x / 0x100) % 256) * 0x1_0000 + ((x / 0x1_0000) % 256) * 0x100
        + x / 0x100_0000) as u32
}

/// `x` with its eight bytes in reverse order.
pub open spec fn swap_u64(x: u64) -> u64 {
    ((x % 256) * 0x100_0000_0000_0000 + ((x / 0x100) % 256) * 0x1_0000_0000_0000 + ((x
        / 0x1_0000) % 256) * 0x100_0000_0000 + ((x / 0x100_0000) % 256) * 0x1_0000_0000 + ((x
        / 0x1_0000_0000) % 256) * 0x100_0000 + ((x / 0x100_0000_0000) % 256) * 0x1_0000 + ((x
        / 0x1_0000_0000_0000) % 256) * 0x100 + x / 0x100_0000_0000_0000) as u64
}

/// Errors of loading an ELF image.
#[derive(Debug, Clone, Copy, PartialEq, Eq, Structural)]
pub enum ElfError {
    /// A read went past the end of the byte source.
    Io,
    /// The first four bytes are not the ELF signature.
    MalformedMagic,
    /// The class byte is neither 32-bit nor 64-bit.
    UnsupportedClass,
    /// The encoding byte is neither LSB nor MSB.
    UnsupportedEncoding,
    /// The section-name string table index names no loaded section.
    Truncated,
}

/// Conversion of a value between on-disk and in-memory byte order.
pub trait Convert<T> {
    /// Converts `value`; the conversion is its own inverse.
    fn convert(&self, value: T) -> (r: T);
}

/// The byte-order converter of one loaded file.
///
/// `is_needed` is set exactly when the file stores multi-byte fields
/// most-significant byte first, the opposite of the order in which the
/// primitive readers assemble bytes.
#[derive(Debug, Clone, Copy)]
pub struct Converter {
    /// Whether values have to be byte-reversed.
    pub is_needed: bool,
}

fn swap_bytes_u16(x: u16) -> (r: u16)
    ensures
        r == swap_u16(x),
{
    (x % 256) * 256 + x / 256
}

fn swap_bytes_u32(x: u32) -> (r: u32)
    ensures
        r == swap_u32(x),
{
    (x % 256) * 0x100_0000 + ((x / 0x100) % 256) * 0x1_0000 + ((x / 0x1_0000) % 256) * 0x100 + x
        / 0x100_0000
}

fn swap_bytes_u64(x: u64) -> (r: u64)
    ensures
        r == swap_u64(x),
{
    (x % 256) * 0x100_0000_0000_0000 + ((x / 0x100) % 256) * 0x1_0000_0000_0000 + ((x / 0x1_0000)
        % 256) * 0x100_0000_0000 + ((x / 0x100_0000) % 256) * 0x1_0000_0000 + ((x / 0x1_0000_0000)
        % 256) * 0x100_0000 + ((x / 0x100_0000_0000) % 256) * 0x1_0000 + ((x / 0x1_0000_0000_0000)
        % 256) * 0x100 + x / 0x100_0000_0000_0000
}

impl Convert<u8> for Converter {
    fn convert(&self, value: u8) -> (r: u8)
        ensures
            r == value,
    {
        value
    }
}

impl Convert<i8> for Converter {
    fn convert(&self, value: i8) -> (r: i8)
        ensures
            r == value,
    {
        value
    }
}

impl Convert<u16> for Converter {
    fn convert(&self, value: u16) -> (r: u16)
        ensures
            r == (if self.is_needed {
                swap_u16(value)
            } else {
                value
            }),
    {
        if self.is_needed {
            swap_bytes_u16(value)
        } else {
            value
        }
    }
}

impl Convert<i16> for Converter {
    fn convert(&self, value: i16) -> (r: i16)
        ensures
            r == (if self.is_needed {
                swap_u16(value as u16) as i16
            } else {
                value
            }),
    {
        if self.is_needed {
            swap_bytes_u16(value as u16) as i16
        } else {
            value
        }
    }
}

impl Convert<u32> for Converter {
    fn convert(&self, value: u32) -> (r: u32)
        ensures
            r == (if self.is_needed {
                swap_u32(value)
            } else {
                value
            }),
    {
        if self.is_needed {
            swap_bytes_u32(value)
        } else {
            value
        }
    }
}

impl Convert<i32> for Converter {
    fn convert(&self, value: i32) -> (r: i32)
        ensures
            r == (if self.is_needed {
                swap_u32(value as u32) as i32
            } else {
                value
            }),
    {
        if self.is_needed {
            swap_bytes_u32(value as u32) as i32
        } else {
            value
        }
    }
}

impl Convert<u64> for Converter {
    fn convert(&self, value: u64) -> (r: u64)
        ensures
            r == (if self.is_needed {
                swap_u64(value)
            } else {
                value
            }),
    {
        if self.is_needed {
            swap_bytes_u64(value)
        } else {
            value
        }
    }
}

impl Convert<i64> for Converter {
    fn convert(&self, value: i64) -> (r: i64)
        ensures
            r == (if self.is_needed {
                swap_u64(value as u64) as i64
            } else {
                value
            }),
    {
        if self.is_needed {
            swap_bytes_u64(value as u64) as i64
        } else {
            value
        }
    }
}

proof fn lemma_swap2(a: u16, b: u16)
    requires
        a < 256,
        b < 256,
    ensures
        swap_u16((a + 256 * b) as u16) == b + 256 * a,
{
    assert(((a + 256 * b) % 256) * 256 + (a + 256 * b) / 256 == b + 256 * a) by (bit_vector)
        requires
            a < 256,
            b < 256,
    ;
}

proof fn lemma_swap4(a: u32, b: u32, c: u32, e: u32)
    requires
        a < 256,
        b < 256,
        c < 256,
        e < 256,
    ensures
        swap_u32((a + 256 * (b + 256 * (c + 256 * e))) as u32) == e + 256 * (c + 256 * (b + 256
            * a)),
{
    let x: u32 = (a + 256 * (b + 256 * (c + 256 * e))) as u32;
    assert((x % 256) * 0x100_0000 + ((x / 0x100) % 256) * 0x1_0000 + ((x / 0x1_0000) % 256)
        * 0x100 + x / 0x100_0000 == e + 256 * (c + 256 * (b + 256 * a))) by (bit_vector)
        requires
            a < 256,
            b < 256,
            c < 256,
            e < 256,
            x == a + 256 * (b + 256 * (c + 256 * e)),
    ;
}

proof fn lemma_swap8(a: u64, b: u64, c: u64, e: u64, f: u64, g: u64, h: u64, k: u64)
    requires
        a < 256,
        b < 256,
        c < 256,
        e < 256,
        f < 256,
        g < 256,
        h < 256,
        k < 256,
    ensures
        swap_u64(
            (a + 256 * (b + 256 * (c + 256 * (e + 256 * (f + 256 * (g + 256 * (h + 256
                * k))))))) as u64,
        ) == k + 256 * (h + 256 * (g + 256 * (f + 256 * (e + 256 * (c + 256 * (b + 256 * a)))))),
{
    let x: u64 = (a + 256 * (b + 256 * (c + 256 * (e + 256 * (f + 256 * (g + 256 * (h + 256
        * k))))))) as u64;
    assert((x % 256) * 0x100_0000_0000_0000 + ((x / 0x100) % 256) * 0x1_0000_0000_0000 + ((x
        / 0x1_0000) % 256) * 0x100_0000_0000 + ((x / 0x100_0000) % 256) * 0x1_0000_0000 + ((x
        / 0x1_0000_0000) % 256) * 0x100_0000 + ((x / 0x100_0000_0000) % 256) * 0x1_0000 + ((x
        / 0x1_0000_0000_0000) % 256) * 0x100 + x / 0x100_0000_0000_0000 == k + 256 * (h + 256 * (g
        + 256 * (f + 256 * (e + 256 * (c + 256 * (b + 256 * a))))))) by (bit_vector)
        requires
            a < 256,
            b < 256,
            c < 256,
            e < 256,
            f < 256,
            g < 256,
            h < 256,
            k < 256,
            x == a + 256 * (b + 256 * (c + 256 * (e + 256 * (f + 256 * (g + 256 * (h + 256
                * k)))))),
    ;
}

impl Converter {
    /// The converter for a file whose encoding byte is `encoding`.
    pub fn for_encoding(encoding: u8) -> (r: Converter)
        ensures
            r.is_needed == (encoding == crate::types::ELFDATA2MSB),
    {
        Converter { is_needed: encoding == crate::types::ELFDATA2MSB }
    }

    /// Reads the byte at `p`.
    pub fn read_u8(&self, d: &[u8], p: usize) -> (r: u8)
        requires
            p < d@.len(),
        ensures
            r as nat == uint_at(self.is_needed, d@, p as int, 1),
            r == d@[p as int],
    {
        proof {
            reveal_with_fuel(le_at, 2);
            reveal_with_fuel(be_at, 2);
        }
        self.convert(d[p])
    }

    /// Reads the 2-byte field at `p` in the file's byte order.
    pub fn read_u16(&self, d: &[u8], p: usize) -> (r: u16)
        requires
            p + 2 <= d@.len(),
        ensures
            r as nat == uint_at(self.is_needed, d@, p as int, 2),
    {
        let a = d[p] as u16;
        let b = d[p + 1] as u16;
        let raw = a + 256 * b;
        proof {
            reveal_with_fuel(le_at, 3);
            reveal_with_fuel(be_at, 3);
            lemma_swap2(a, b);
        }
        self.convert(raw)
    }

    /// Reads the 4-byte field at `p` in the file's byte order.
    pub fn read_u32(&self, d: &[u8], p: usize) -> (r: u32)
        requires
            p + 4 <= d@.len(),
        ensures
            r as nat == uint_at(self.is_needed, d@, p as int, 4),
    {
        let a = d[p] as u32;
        let b = d[p + 1] as u32;
        let c = d[p + 2] as u32;
        let e = d[p + 3] as u32;
        let raw = a + 256 * (b + 256 * (c + 256 * e));
        proof {
            reveal_with_fuel(le_at, 5);
            reveal_with_fuel(be_at, 5);
            lemma_swap4(a, b, c, e);
        }
        self.convert(raw)
    }

    /// Reads the 8-byte field at `p` in the file's byte order.
    pub fn read_u64(&self, d: &[u8], p: usize) -> (r: u64)
        requires
            p + 8 <= d@.len(),
        ensures
            r as nat == uint_at(self.is_needed, d@, p as int, 8),
    {
        let a = d[p] as u64;
        let b = d[p + 1] as u64;
        let c = d[p + 2] as u64;
        let e = d[p + 3] as u64;
        let f = d[p + 4] as u64;
        let g = d[p + 5] as u64;
        let h = d[p + 6] as u64;
        let k = d[p + 7] as u64;
        let raw = a + 256 * (b + 256 * (c + 256 * (e + 256 * (f + 256 * (g + 256 * (h + 256
            * k))))));
        proof {
            reveal_with_fuel(le_at, 9);
            reveal_with_fuel(be_at, 9);
            lemma_swap8(a, b, c, e, f, g, h, k);
        }
        self.convert(raw)
    }

    /// Reads an address or offset field: 8 bytes when `wide`, else 4 bytes widened.
    pub fn read_addr(&self, d: &[u8], p: usize, wide: bool) -> (r: u64)
        requires
            p + (if wide {
                8int
            } else {
                4int
            }) <= d@.len(),
        ensures
            r as nat == uint_at(
                self.is_needed,
                d@,
                p as int,
                if wide {
                    8
                } else {
                    4
                },
            ),
            !wide ==> r < 0x1_0000_0000,
    {
        if wide {
            self.read_u64(d, p)
        } else {
            self.read_u32(d, p) as u64
        }
    }
}

/// Reading a field in one byte order gives the same value as reading the
/// byte-reversed copy of that field in the other byte order.
pub proof fn lemma_field_byte_order(d: Seq<u8>, p: int, d2: Seq<u8>, q: int, w: int)
    requires
        reversed_field(d, p, d2, q, w),
    ensures
        le_at(d, p, w) == be_at(d2, q, w),
        be_at(d, p, w) == le_at(d2, q, w),
    decreases w,
{
    if w > 0 {
        assert(d2[q + (w - 1)] == d[p + w - 1 - (w - 1)]);
        assert(d2[q + 0] == d[p + w - 1 - 0]);
        assert(reversed_field(d, p + 1, d2, q, w - 1)) by {
            assert forall|k: int| 0 <= k < w - 1 implies #[trigger] d2[q + k] == d[(p + 1) + (w
                - 1) - 1 - k] by {
                assert(d2[q + k] == d[p + w - 1 - k]);
            }
        }
        assert(reversed_field(d, p, d2, q + 1, w - 1)) by {
            assert forall|k: int| 0 <= k < w - 1 implies #[trigger] d2[(q + 1) + k] == d[p + (w
                - 1) - 1 - k] by {
                assert(d2[q + (k + 1)] == d[p + w - 1 - (k + 1)]);
            }
        }
        lemma_field_byte_order(d, p + 1, d2, q, w - 1);
        lemma_field_byte_order(d, p, d2, q + 1, w - 1);
    }
}

/// Copy of `d[from..to]`.
pub fn copy_range(d: &[u8], from: usize, to: usize) -> (r: Vec<u8>)
    requires
        from <= to <= d@.len(),
    ensures
        r@ == d@.subrange(from as int, to as int),
{
    let mut r: Vec<u8> = Vec::new();
    let mut i: usize = from;
    while i < to
        invariant
            from <= i <= to <= d@.len(),
            r@ == d@.subrange(from as int, i as int),
        decreases to - i,
    {
        r.push(d[i]);
        i = i + 1;
        assert(r@ =~= d@.subrange(from as int, i as int));
    }
    r
}

/// Whether the two byte runs are equal.
pub fn bytes_equal(a: &[u8], b: &[u8]) -> (r: bool)
    ensures
        r == (a@ == b@),
{
    if a.len() != b.len() {
        return false;
    }
    let mut i: usize = 0;
    while i < a.len()
        invariant
            a@.len() == b@.len(),
            i <= a@.len(),
            forall|k: int| 0 <= k < i ==> a@[k] == b@[k],
        decreases a@.len() - i,
    {
        if a[i] != b[i] {
            return false;
        }
        i = i + 1;
    }
    assert(a@ =~= b@);
    true
}

} // verus!
