use vstd::prelude::*;
use crate::layout::u32_at;
use crate::slot::{encodes, SlotArgs};
use crate::status::Status;
use crate::table::{
    field_offset, root_table, root_verdict, slot_value, status_value, table_ok, table_size,
    vtable_len, vtable_pos, VT_SLOT, VT_STATUS,
};

verus! {

/// Decoding an encoded record passes the check and gives back exactly the
/// values that were encoded, for a plain and for a size-prefixed buffer.
pub proof fn lemma_round_trip(args: SlotArgs, b: Seq<u8>, base: int)
    requires
        base == 0 || base == 4,
        encodes(b, base, args),
    ensures
        root_verdict(b, base) is Ok,
        table_ok(b, root_table(b, base)),
        slot_value(b, root_table(b, base)) == args.slot,
        status_value(b, root_table(b, base)) == args.status.0,
{
    assert(u32_at(b, base) >= 0);
}

/// An absent field reads as its default: 0 for `slot`, processed for
/// `status`, also when the vtable is too short to hold the field's entry.
pub proof fn lemma_absent_fields_default(b: Seq<u8>, t: int)
    requires
        table_ok(b, t),
    ensures
        field_offset(b, t, VT_SLOT as int) == 0 ==> slot_value(b, t) == 0,
        field_offset(b, t, VT_STATUS as int) == 0 ==> status_value(b, t) == 0,
        vtable_len(b, t) <= VT_SLOT ==> slot_value(b, t) == 0 && status_value(b, t) == 0,
{
}

/// The check does not look at the value of the status byte: writing any
/// byte over it, where it shares no byte with the root offset, the table's
/// header or the vtable, leaves the check's verdict unchanged, and the
/// `status` accessor then returns that byte as it is.
pub proof fn lemma_status_byte_unchecked(b: Seq<u8>, base: int, x: u8)
    requires
        base == 0 || base == 4,
        root_verdict(b, base) is Ok,
        field_offset(b, root_table(b, base), VT_STATUS as int) != 0,
        ({
            let t = root_table(b, base);
            let p = t + field_offset(b, t, VT_STATUS as int);
            let v = vtable_pos(b, t);
            &&& !(base <= p < base + 4)
            &&& !(t <= p < t + 4)
            &&& !(v <= p < v + vtable_len(b, t))
        }),
    ensures
        ({
            let t = root_table(b, base);
            let p = t + field_offset(b, t, VT_STATUS as int);
            let c = b.update(p, x);
            &&& root_table(c, base) == t
            &&& root_verdict(c, base) == root_verdict(b, base)
            &&& status_value(c, t) == x as i8
        }),
{
    let t = root_table(b, base);
    let p = t + field_offset(b, t, VT_STATUS as int);
    let c = b.update(p, x);
    let v = vtable_pos(b, t);
    assert(u32_at(c, base) == u32_at(b, base));
    assert(u32_at(c, t) == u32_at(b, t));
    assert(vtable_pos(c, t) == v);
    assert(vtable_len(c, t) == vtable_len(b, t));
    assert(table_size(c, t) == table_size(b, t));
    assert(field_offset(c, t, VT_SLOT as int) == field_offset(b, t, VT_SLOT as int));
    assert(field_offset(c, t, VT_STATUS as int) == field_offset(b, t, VT_STATUS as int));
}

/// Writing over the status byte leaves the `slot` value alone where the two
/// fields share no byte.
pub proof fn lemma_status_byte_keeps_slot(b: Seq<u8>, t: int, x: u8)
    requires
        table_ok(b, t),
        field_offset(b, t, VT_STATUS as int) != 0,
        ({
            let p = t + field_offset(b, t, VT_STATUS as int);
            let v = vtable_pos(b, t);
            let s = t + field_offset(b, t, VT_SLOT as int);
            &&& !(t <= p < t + 4)
            &&& !(v <= p < v + vtable_len(b, t))
            &&& (field_offset(b, t, VT_SLOT as int) != 0 ==> !(s <= p < s + 8))
        }),
    ensures
        slot_value(b.update(t + field_offset(b, t, VT_STATUS as int), x), t) == slot_value(b, t),
{
    let p = t + field_offset(b, t, VT_STATUS as int);
    let c = b.update(p, x);
    assert(u32_at(c, t) == u32_at(b, t));
    assert(vtable_len(c, t) == vtable_len(b, t));
    assert(field_offset(c, t, VT_SLOT as int) == field_offset(b, t, VT_SLOT as int));
    let s = t + field_offset(b, t, VT_SLOT as int);
    if field_offset(b, t, VT_SLOT as int) != 0 {
        assert(u32_at(c, s) == u32_at(b, s));
        assert(u32_at(c, s + 4) == u32_at(b, s + 4));
    }
}

/// A buffer with no room for a table after its root offset is refused: one
/// of at most four bytes as a plain buffer, of at most eight once prefixed.
pub proof fn lemma_short_buffer_rejected(b: Seq<u8>, base: int)
    requires
        base == 0 || base == 4,
        b.len() <= base + 4,
    ensures
        root_verdict(b, base) is Err,
{
    if base + 4 <= b.len() {
        let t = root_table(b, base);
        if t + 4 <= b.len() {
            assert(t == base);
            assert(u32_at(b, base) == 0);
            assert(b[base] == 0 && b[base + 1] == 0);
            assert(vtable_pos(b, t) == t);
            assert(vtable_len(b, t) == 0);
        }
    }
}

/// Re-encoding the values read from a checked buffer gives a buffer that
/// reads back to the same values.
pub proof fn lemma_reencode(b: Seq<u8>, base: int, c: Seq<u8>, cbase: int)
    requires
        base == 0 || base == 4,
        cbase == 0 || cbase == 4,
        root_verdict(b, base) is Ok,
        encodes(
            c,
            cbase,
            (SlotArgs {
                slot: slot_value(b, root_table(b, base)),
                status: Status(status_value(b, root_table(b, base))),
            }),
        ),
    ensures
        root_verdict(c, cbase) is Ok,
        slot_value(c, root_table(c, cbase)) == slot_value(b, root_table(b, base)),
        status_value(c, root_table(c, cbase)) == status_value(b, root_table(b, base)),
{
}

} // verus!
