use vstd::prelude::*;

verus! {

/// The little-endian 16-bit value at byte `i`.
pub open spec fn u16_at(b: Seq<u8>, i: int) -> int {
    b[i] as int + 256 * (b[i + 1] as int)
}

/// The little-endian 32-bit value at byte `i`.
pub open spec fn u32_at(b: Seq<u8>, i: int) -> int {
    u16_at(b, i) + 65536 * u16_at(b, i + 2)
}

/// The little-endian 64-bit value at byte `i`.
pub open spec fn u64_at(b: Seq<u8>, i: int) -> int {
    u32_at(b, i) + 4294967296 * u32_at(b, i + 4)
}

/// A 32-bit word read as a two's-complement signed value.
pub open spec fn as_signed32(u: int) -> int {
    if u < 0x8000_0000 {
        u
    } else {
        u - 0x1_0000_0000
    }
}

pub fn read_u16(b: &[u8], i: usize) -> (r: u16)
    requires
        i + 2 <= b@.len(),
    ensures
        r as int == u16_at(b@, i as int),
{
    let lo = b[i] as u16;
    let hi = b[i + 1] as u16;
    lo + 256 * hi
}

pub fn read_u32(b: &[u8], i: usize) -> (r: u32)
    requires
        i + 4 <= b@.len(),
    ensures
        r as int == u32_at(b@, i as int),
{
    // the length fits in usize, which bounds the indices below
    let _n = b.len();
    let lo = read_u16(b, i) as u32;
    let hi = read_u16(b, i + 2) as u32;
    lo + 65536 * hi
}

pub fn read_u64(b: &[u8], i: usize) -> (r: u64)
    requires
        i + 8 <= b@.len(),
    ensures
        r as int == u64_at(b@, i as int),
{
    // the length fits in usize, which bounds the indices below
    let _n = b.len();
    let lo = read_u32(b, i) as u64;
    let hi = read_u32(b, i + 4) as u64;
    lo + 4294967296 * hi
}

} // verus!
