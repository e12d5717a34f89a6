use slot_codec::builder::Builder;
use slot_codec::slot::{
    encode_size_prefixed_slot, encode_slot, finish_size_prefixed_slot_buffer, finish_slot_buffer,
    root_as_slot, root_as_slot_unchecked,
    root_as_slot_with_opts, size_prefixed_root_as_slot, size_prefixed_root_as_slot_unchecked,
    size_prefixed_root_as_slot_with_opts, Slot, SlotArgs, SlotBuilder, VerifierOptions,
};
use slot_codec::status::Status;
use slot_codec::table::{verify_table, MalformedBuffer};

fn args(slot: u64, status: Status) -> SlotArgs {
    SlotArgs { slot, status }
}

/// A hand-laid buffer: root offset, vtable at 4, table of 13 bytes at 12
/// with both fields.
fn hand_buffer(slot: u64, status: u8) -> Vec<u8> {
    let mut b = vec![12, 0, 0, 0, 8, 0, 13, 0, 4, 0, 12, 0, 8, 0, 0, 0];
    b.extend_from_slice(&slot.to_le_bytes());
    b.push(status);
    b
}

#[test]
fn round_trip_rooted() {
    let buf = encode_slot(&args(42, Status::rooted()));
    let s = root_as_slot(&buf).unwrap();
    assert_eq!(s.slot(), 42);
    assert_eq!(s.status(), Status::rooted());
}

#[test]
fn round_trip_confirmed_zero_slot() {
    let buf = encode_slot(&args(0, Status::confirmed()));
    let s = root_as_slot(&buf).unwrap();
    assert_eq!(s.slot(), 0);
    assert_eq!(s.status(), Status::confirmed());
}

#[test]
fn round_trip_extremes() {
    for (slot, st) in [(u64::MAX, 0i8), (1, 1), (0x0102_0304_0506_0708, 2), (7, 0)] {
        let buf = encode_slot(&args(slot, Status(st)));
        let s = root_as_slot(&buf).unwrap();
        assert_eq!(s.slot(), slot);
        assert_eq!(s.status(), Status(st));
    }
}

#[test]
fn default_values_omitted_and_read_back() {
    let empty = encode_slot(&SlotArgs::default());
    let full = encode_slot(&args(9, Status::rooted()));
    assert!(empty.len() < full.len());
    let s = root_as_slot(&empty).unwrap();
    assert_eq!(s.slot(), 0);
    assert_eq!(s.status(), Status::processed());
}

#[test]
fn unknown_status_is_kept() {
    let buf = encode_slot(&args(3, Status(5)));
    let s = root_as_slot(&buf).unwrap();
    assert_eq!(s.status(), Status(5));
    assert_eq!(s.status().variant_name(), None);

    let mut hand = hand_buffer(11, 1);
    let last = hand.len() - 1;
    hand[last] = 5;
    let s = root_as_slot(&hand).unwrap();
    assert_eq!(s.slot(), 11);
    assert_eq!(s.status(), Status(5));
    hand[last] = 0xff;
    assert_eq!(root_as_slot(&hand).unwrap().status(), Status(-1));
}

#[test]
fn truncated_after_root_is_rejected() {
    assert_eq!(
        root_as_slot(&[0x04, 0, 0, 0]).err(),
        Some(MalformedBuffer::TableOutOfBounds)
    );
    assert_eq!(root_as_slot(&[0, 0, 0, 0]).err(), Some(MalformedBuffer::InconsistentVtable));
    assert_eq!(root_as_slot(&[1, 2]).err(), Some(MalformedBuffer::RootOutOfBounds));
    assert_eq!(root_as_slot(&[]).err(), Some(MalformedBuffer::RootOutOfBounds));
    assert_eq!(
        size_prefixed_root_as_slot(&[4, 0, 0, 0, 0x04, 0, 0, 0]).err(),
        Some(MalformedBuffer::TableOutOfBounds)
    );
    assert_eq!(
        size_prefixed_root_as_slot(&[4, 0, 0, 0]).err(),
        Some(MalformedBuffer::RootOutOfBounds)
    );
}

#[test]
fn each_structural_error() {
    assert_eq!(
        root_as_slot(&[4, 0, 0, 0, 100, 0, 0, 0]).err(),
        Some(MalformedBuffer::VtableOutOfBounds)
    );
    assert_eq!(
        root_as_slot(&[4, 0, 0, 0, 0xfc, 0xff, 0xff, 0xff]).err(),
        Some(MalformedBuffer::VtableOutOfBounds)
    );
    let mut odd = hand_buffer(1, 1);
    odd[4] = 7;
    assert_eq!(root_as_slot(&odd).err(), Some(MalformedBuffer::InconsistentVtable));
    let mut long = hand_buffer(1, 1);
    long[4] = 200;
    assert_eq!(root_as_slot(&long).err(), Some(MalformedBuffer::InconsistentVtable));
    let mut cut = hand_buffer(1, 1);
    cut.pop();
    assert_eq!(root_as_slot(&cut).err(), Some(MalformedBuffer::InconsistentVtable));
    let mut far = hand_buffer(1, 1);
    far[8] = 40;
    assert_eq!(root_as_slot(&far).err(), Some(MalformedBuffer::InconsistentVtable));
    // the table claims 4 bytes but places the 8-byte field at offset 4
    let small = vec![6, 0, 4, 0, 4, 0, 0, 0, 8, 0, 0, 0, 1, 0, 0, 0, 0, 0, 0, 0];
    assert_eq!(verify_table(&small, 8), Err(MalformedBuffer::InconsistentVtable));
    let mut tiny = hand_buffer(1, 1);
    tiny[6] = 2;
    assert_eq!(root_as_slot(&tiny).err(), Some(MalformedBuffer::InconsistentVtable));
}

#[test]
fn misalignment_is_rejected() {
    // a well-formed table at 5, whose vtable sits at 0
    let at5 = vec![4, 0, 4, 0, 0, 5, 0, 0, 0];
    assert_eq!(verify_table(&at5, 5), Err(MalformedBuffer::Unaligned));
    // table at 8 whose vtable would start at the odd position 5
    let mut odd_vt = vec![0u8; 16];
    odd_vt[8] = 3;
    assert_eq!(verify_table(&odd_vt, 8), Err(MalformedBuffer::Unaligned));
    // the 8-byte field at position 20
    let mut b = hand_buffer(1, 1);
    b[6] = 16;
    b[8] = 8;
    b.extend([0, 0, 0]);
    assert_eq!(root_as_slot(&b).err(), Some(MalformedBuffer::Unaligned));
    let good = hand_buffer(1, 1);
    assert_eq!(verify_table(&good, 12), Ok(()));
}

#[test]
fn hand_laid_buffer_reads() {
    let b = hand_buffer(0x1122_3344_5566_7788, 2);
    let s = root_as_slot(&b).unwrap();
    assert_eq!(s.loc, 12);
    assert_eq!(s.slot(), 0x1122_3344_5566_7788);
    assert_eq!(s.status(), Status::confirmed());
    let u = root_as_slot_unchecked(&b);
    assert_eq!(u.slot(), 0x1122_3344_5566_7788);
    assert_eq!(Slot::init_from_table(&b, 12).status(), Status(2));
}

#[test]
fn short_vtable_gives_defaults() {
    // vtable of four bytes: no field entries at all
    let b = vec![8, 0, 0, 0, 4, 0, 4, 0, 4, 0, 0, 0];
    let s = root_as_slot(&b).unwrap();
    assert_eq!(s.slot(), 0);
    assert_eq!(s.status(), Status::processed());
}

#[test]
fn size_prefix_is_length_less_four() {
    for a in [args(0, Status::processed()), args(42, Status::rooted()), args(u64::MAX, Status(-3))] {
        let buf = encode_size_prefixed_slot(&a);
        let prefix = u32::from_le_bytes([buf[0], buf[1], buf[2], buf[3]]) as usize;
        assert_eq!(prefix, buf.len() - 4);
        let s = size_prefixed_root_as_slot(&buf).unwrap();
        assert_eq!(s.slot(), a.slot);
        assert_eq!(s.status(), a.status);
        let u = size_prefixed_root_as_slot_unchecked(&buf);
        assert_eq!(u.slot(), a.slot);
    }
}

#[test]
fn reencode_keeps_values() {
    let first = encode_slot(&args(77, Status::confirmed()));
    let s = root_as_slot(&first).unwrap();
    let again = encode_slot(&args(s.slot(), s.status()));
    let t = root_as_slot(&again).unwrap();
    assert_eq!(t.slot(), 77);
    assert_eq!(t.status(), Status::confirmed());
}

#[test]
fn builder_collects_fields() {
    let mut b = SlotBuilder::new(Builder::new());
    b.add_slot(5);
    b.add_status(Status::rooted());
    let (mut fbb, root) = b.finish();
    finish_slot_buffer(&mut fbb, root);
    let buf = fbb.finished_data();
    let s = root_as_slot(&buf).unwrap();
    assert_eq!(s.slot(), 5);
    assert_eq!(s.status(), Status::rooted());

    let mut fbb = Builder::new();
    let root = Slot::create(&mut fbb, &args(6, Status::confirmed()));
    finish_size_prefixed_slot_buffer(&mut fbb, root);
    let buf = fbb.finished_data();
    let s = size_prefixed_root_as_slot(&buf).unwrap();
    assert_eq!(s.slot(), 6);
    assert_eq!(s.status(), Status::confirmed());
    assert_eq!(encode_slot(&args(6, Status::confirmed())), encode_slot(&args(6, Status::confirmed())));
}

#[test]
fn options_limits() {
    let buf = encode_slot(&args(1, Status::rooted()));
    let d = VerifierOptions::default();
    assert_eq!(d.max_depth, 64);
    assert_eq!(d.max_tables, 1_000_000);
    assert_eq!(d.max_apparent_size, 1 << 31);
    assert!(root_as_slot_with_opts(&d, &buf).is_ok());
    let no_tables = VerifierOptions { max_depth: 64, max_tables: 0, max_apparent_size: 1 << 31 };
    assert_eq!(
        root_as_slot_with_opts(&no_tables, &buf).err(),
        Some(MalformedBuffer::TooManyTables)
    );
    let no_depth = VerifierOptions { max_depth: 0, max_tables: 1, max_apparent_size: 1 << 31 };
    assert_eq!(
        root_as_slot_with_opts(&no_depth, &buf).err(),
        Some(MalformedBuffer::DepthLimitReached)
    );
    assert_eq!(
        root_as_slot_with_opts(&no_depth, &[1]).err(),
        Some(MalformedBuffer::RootOutOfBounds)
    );
    // hand buffer: 4 + 4 + 2 + 8 (vtable) + 2 + 8 + 2 + 1 = 31 bytes touched
    let hand = hand_buffer(1, 1);
    let exact = VerifierOptions { max_depth: 1, max_tables: 1, max_apparent_size: 31 };
    assert!(root_as_slot_with_opts(&exact, &hand).is_ok());
    let under = VerifierOptions { max_depth: 1, max_tables: 1, max_apparent_size: 30 };
    assert_eq!(
        root_as_slot_with_opts(&under, &hand).err(),
        Some(MalformedBuffer::ApparentSizeTooLarge)
    );
    let pre = encode_size_prefixed_slot(&args(1, Status::rooted()));
    assert!(size_prefixed_root_as_slot_with_opts(&d, &pre).is_ok());
    assert_eq!(
        size_prefixed_root_as_slot_with_opts(&no_tables, &pre).err(),
        Some(MalformedBuffer::TooManyTables)
    );
}

#[test]
fn variant_names() {
    assert_eq!(Status::processed().variant_name(), Some("Processed"));
    assert_eq!(Status::rooted().variant_name(), Some("Rooted"));
    assert_eq!(Status::confirmed().variant_name(), Some("Confirmed"));
    assert_eq!(Status(3).variant_name(), None);
    assert_eq!(Status(-1).variant_name(), None);
    assert_eq!(Status::ENUM_MIN, 0);
    assert_eq!(Status::ENUM_MAX, 2);
}

#[test]
fn status_text() {
    assert_eq!(Status::processed().to_debug_string(), "Processed");
    assert_eq!(Status::rooted().to_debug_string(), "Rooted");
    assert_eq!(Status::confirmed().to_debug_string(), "Confirmed");
    assert_eq!(Status(5).to_debug_string(), "<UNKNOWN 5>");
    assert_eq!(Status(-128).to_debug_string(), "<UNKNOWN -128>");
    assert_eq!(Status(127).to_debug_string(), "<UNKNOWN 127>");
}

#[test]
fn slot_text() {
    let buf = encode_slot(&args(42, Status::rooted()));
    let s = root_as_slot(&buf).unwrap();
    assert_eq!(s.to_debug_string(), "Slot { slot: 42, status: Rooted }");
    let buf = encode_slot(&args(u64::MAX, Status(10)));
    let s = root_as_slot(&buf).unwrap();
    assert_eq!(
        s.to_debug_string(),
        "Slot { slot: 18446744073709551615, status: <UNKNOWN 10> }"
    );
    let empty = encode_slot(&SlotArgs::default());
    assert_eq!(
        root_as_slot(&empty).unwrap().to_debug_string(),
        "Slot { slot: 0, status: Processed }"
    );
}

#[test]
fn status_default_and_order() {
    assert_eq!(Status::default(), Status::processed());
    assert!(Status::processed() < Status::rooted());
    assert!(Status::rooted() < Status::confirmed());
    let buf = encode_slot(&args(8, Status::confirmed()));
    let s = root_as_slot(&buf).unwrap();
    let copy = s;
    assert_eq!(copy.slot(), s.slot());
}

#[test]
fn status_follow_keeps_every_byte() {
    let buf = [0u8, 1, 2, 5, 0x7f, 0x80, 0xff];
    let want = [0i8, 1, 2, 5, 127, -128, -1];
    for i in 0..buf.len() {
        assert_eq!(Status::follow(&buf, i), Status(want[i]));
    }
}
