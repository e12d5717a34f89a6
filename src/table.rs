use vstd::prelude::*;
use crate::layout::{as_signed32, read_u16, read_u32, u16_at, u32_at, u64_at};

verus! {

/// Why a buffer was refused.
#[derive(Clone, Copy, Debug, PartialEq, Eq, Structural)]
pub enum MalformedBuffer {
    /// The buffer is too short to hold the root offset.
    RootOutOfBounds,
    /// The table's vtable offset lies outside the buffer.
    TableOutOfBounds,
    /// The vtable's header lies outside the buffer.
    VtableOutOfBounds,
    /// The vtable's declared sizes do not hold together: its own length is
    /// too small, odd or runs past the end, the table's declared size is too
    /// small or runs past the end, or a present field runs past the table.
    InconsistentVtable,
    /// The table, its vtable or the 8-byte field is not aligned to its size.
    Unaligned,
    /// More tables than the options allow.
    TooManyTables,
    /// Nesting deeper than the options allow.
    DepthLimitReached,
    /// The check would read more bytes than the options allow.
    ApparentSizeTooLarge,
}

/// Byte offset, within a vtable, of the entry of the `slot` field.
pub const VT_SLOT: u16 = 4;
/// Byte offset, within a vtable, of the entry of the `status` field.
pub const VT_STATUS: u16 = 6;

/// Where the vtable of the table at `t` starts: the table begins with a
/// signed offset that is subtracted from its own position.
pub open spec fn vtable_pos(b: Seq<u8>, t: int) -> int {
    t - as_signed32(u32_at(b, t))
}

/// The vtable's own length in bytes, as it declares it.
pub open spec fn vtable_len(b: Seq<u8>, t: int) -> int {
    u16_at(b, vtable_pos(b, t))
}

/// The table's size in bytes, as its vtable declares it.
pub open spec fn table_size(b: Seq<u8>, t: int) -> int {
    u16_at(b, vtable_pos(b, t) + 2)
}

/// Offset of a field from the table's start; 0 when the field is absent,
/// including when the vtable is too short to hold its entry.
pub open spec fn field_offset(b: Seq<u8>, t: int, entry: int) -> int {
    if entry + 2 <= vtable_len(b, t) {
        u16_at(b, vtable_pos(b, t) + entry)
    } else {
        0
    }
}

/// An absent field, or a present one whose `size` bytes lie in the table.
pub open spec fn field_fits(b: Seq<u8>, t: int, entry: int, size: int) -> bool {
    field_offset(b, t, entry) == 0 || field_offset(b, t, entry) + size <= table_size(b, t)
}

/// An absent field, or a present one whose position is a multiple of `size`.
pub open spec fn field_aligned(b: Seq<u8>, t: int, entry: int, size: int) -> bool {
    field_offset(b, t, entry) == 0 || (t + field_offset(b, t, entry)) % size == 0
}

/// What the structural check of the table at `t` concludes, with the first
/// failed check.
pub open spec fn table_verdict(b: Seq<u8>, t: int) -> Result<(), MalformedBuffer> {
    if t + 4 > b.len() {
        Err(MalformedBuffer::TableOutOfBounds)
    } else if t % 4 != 0 {
        Err(MalformedBuffer::Unaligned)
    } else if vtable_pos(b, t) < 0 || vtable_pos(b, t) + 4 > b.len() {
        Err(MalformedBuffer::VtableOutOfBounds)
    } else if vtable_pos(b, t) % 2 != 0 {
        Err(MalformedBuffer::Unaligned)
    } else if vtable_len(b, t) < 4 || vtable_len(b, t) % 2 != 0 || vtable_pos(b, t)
        + vtable_len(b, t) > b.len() || table_size(b, t) < 4 || t + table_size(b, t) > b.len()
        || !field_fits(b, t, VT_SLOT as int, 8) || !field_fits(b, t, VT_STATUS as int, 1) {
        Err(MalformedBuffer::InconsistentVtable)
    } else if !field_aligned(b, t, VT_SLOT as int, 8) {
        Err(MalformedBuffer::Unaligned)
    } else {
        Ok(())
    }
}

/// A table at `t` that every accessor can read without leaving the buffer.
pub open spec fn table_ok(b: Seq<u8>, t: int) -> bool {
    0 <= t && table_verdict(b, t) is Ok
}

/// The root table's position, given by the offset stored at `base` (0 for a
/// plain buffer, 4 after a size prefix).
pub open spec fn root_table(b: Seq<u8>, base: int) -> int {
    base + u32_at(b, base)
}

/// What the check of a whole buffer whose root offset is at `base` concludes.
pub open spec fn root_verdict(b: Seq<u8>, base: int) -> Result<(), MalformedBuffer> {
    if base + 4 > b.len() {
        Err(MalformedBuffer::RootOutOfBounds)
    } else {
        table_verdict(b, root_table(b, base))
    }
}

/// The `slot` value of the table at `t`: 0 when absent.
pub open spec fn slot_value(b: Seq<u8>, t: int) -> u64 {
    let o = field_offset(b, t, VT_SLOT as int);
    if o == 0 {
        0
    } else {
        u64_at(b, t + o) as u64
    }
}

/// The raw `status` byte of the table at `t`: 0 (processed) when absent.
pub open spec fn status_value(b: Seq<u8>, t: int) -> i8 {
    let o = field_offset(b, t, VT_STATUS as int);
    if o == 0 {
        0
    } else {
        b[t + o] as i8
    }
}

/// How many bytes a check of the buffer touches: the size prefix when there
/// is one, the root offset, the table's vtable offset, the whole vtable, the
/// field entries that the vtable holds and the present fields.
pub open spec fn apparent_size(b: Seq<u8>, base: int, t: int) -> int {
    let vl = vtable_len(b, t);
    base + 4 + 4 + 2 + vl + (if VT_SLOT + 2 <= vl {
        2int
    } else {
        0
    }) + (if field_offset(b, t, VT_SLOT as int) != 0 {
        8int
    } else {
        0
    }) + (if VT_STATUS + 2 <= vl {
        2int
    } else {
        0
    }) + (if field_offset(b, t, VT_STATUS as int) != 0 {
        1int
    } else {
        0
    })
}

/// Counts the bytes that a check of a buffer with a checked root table at
/// `t` touches.
pub fn apparent_size_of(buf: &[u8], base: usize, t: usize) -> (r: usize)
    requires
        base == 0 || base == 4,
        table_ok(buf@, t as int),
    ensures
        r == apparent_size(buf@, base as int, t as int),
{
    // the length fits in usize, which bounds the indices below
    let _n = buf.len();
    let v = vtable_of(buf, t);
    let vl = read_u16(buf, v) as usize;
    let mut r: usize = base + 10 + vl;
    if VT_SLOT as usize + 2 <= vl {
        r = r + 2;
    }
    if field_offset_of(buf, t, VT_SLOT) != 0 {
        r = r + 8;
    }
    if VT_STATUS as usize + 2 <= vl {
        r = r + 2;
    }
    if field_offset_of(buf, t, VT_STATUS) != 0 {
        r = r + 1;
    }
    r
}

/// Runs the structural check of the table at `t`.
pub fn verify_table(buf: &[u8], t: usize) -> (r: Result<(), MalformedBuffer>)
    ensures
        r == table_verdict(buf@, t as int),
{
    let n = buf.len();
    if t > n || n - t < 4 {
        return Err(MalformedBuffer::TableOutOfBounds);
    }
    if t % 4 != 0 {
        return Err(MalformedBuffer::Unaligned);
    }
    let raw = read_u32(buf, t);
    let v: usize;
    if raw < 0x8000_0000u32 {
        if raw as usize > t {
            return Err(MalformedBuffer::VtableOutOfBounds);
        }
        v = t - raw as usize;
    } else {
        let back: u32 = (0xFFFF_FFFFu32 - raw) + 1;
        if back as usize > n - t {
            return Err(MalformedBuffer::VtableOutOfBounds);
        }
        v = t + back as usize;
    }
    if n - v < 4 {
        return Err(MalformedBuffer::VtableOutOfBounds);
    }
    if v % 2 != 0 {
        return Err(MalformedBuffer::Unaligned);
    }
    let vlen = read_u16(buf, v) as usize;
    if vlen < 4 || vlen % 2 != 0 || vlen > n - v {
        return Err(MalformedBuffer::InconsistentVtable);
    }
    let size = read_u16(buf, v + 2) as usize;
    if size < 4 || size > n - t {
        return Err(MalformedBuffer::InconsistentVtable);
    }
    let slot_off: usize = if 6 <= vlen {
        read_u16(buf, v + 4) as usize
    } else {
        0
    };
    let status_off: usize = if 8 <= vlen {
        read_u16(buf, v + 6) as usize
    } else {
        0
    };
    if slot_off != 0 && (slot_off > size || size - slot_off < 8) {
        return Err(MalformedBuffer::InconsistentVtable);
    }
    if status_off != 0 && (status_off > size || size - status_off < 1) {
        return Err(MalformedBuffer::InconsistentVtable);
    }
    if slot_off != 0 && (t + slot_off) % 8 != 0 {
        return Err(MalformedBuffer::Unaligned);
    }
    Ok(())
}

/// Runs the check of a whole buffer whose root offset is at `base`, and
/// returns the root table's position.
pub fn verify_root(buf: &[u8], base: usize) -> (r: Result<usize, MalformedBuffer>)
    ensures
        match r {
            Ok(t) => root_verdict(buf@, base as int) is Ok && t == root_table(buf@, base as int),
            Err(e) => root_verdict(buf@, base as int) == Err::<(), MalformedBuffer>(e),
        },
{
    let n = buf.len();
    if base > n || n - base < 4 {
        return Err(MalformedBuffer::RootOutOfBounds);
    }
    let off = read_u32(buf, base) as usize;
    if off > n - base - 4 {
        return Err(MalformedBuffer::TableOutOfBounds);
    }
    let t = base + off;
    match verify_table(buf, t) {
        Ok(()) => Ok(t),
        Err(e) => Err(e),
    }
}

/// Position of the vtable of a checked table.
pub(crate) fn vtable_of(buf: &[u8], t: usize) -> (r: usize)
    requires
        table_ok(buf@, t as int),
    ensures
        r == vtable_pos(buf@, t as int),
{
    // the length fits in usize, which bounds the indices below
    let _n = buf.len();
    let raw = read_u32(buf, t);
    if raw < 0x8000_0000u32 {
        t - raw as usize
    } else {
        let back: u32 = (0xFFFF_FFFFu32 - raw) + 1;
        t + back as usize
    }
}

/// Offset of the field with vtable entry `entry` in a checked table.
pub fn field_offset_of(buf: &[u8], t: usize, entry: u16) -> (r: usize)
    requires
        table_ok(buf@, t as int),
        entry == VT_SLOT || entry == VT_STATUS,
    ensures
        r == field_offset(buf@, t as int, entry as int),
{
    // the length fits in usize, which bounds the indices below
    let _n = buf.len();
    let v = vtable_of(buf, t);
    let vlen = read_u16(buf, v) as usize;
    if entry as usize + 2 <= vlen {
        read_u16(buf, v + entry as usize) as usize
    } else {
        0
    }
}

} // verus!
