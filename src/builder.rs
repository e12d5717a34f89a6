use vstd::prelude::*;
use crate::layout::{u32_at, u64_at};
use crate::table::{
    field_offset, root_table, table_size, vtable_len, vtable_pos, VT_SLOT, VT_STATUS,
};

verus! {

/// The fields of one table, by vtable entry: each as its width in bytes and
/// its value, stored little-endian (a signed byte as its bit pattern).
pub type Fields = Map<int, (nat, int)>;

/// Every field of `f` sits under one of the two entries of a `Slot` table.
pub open spec fn slot_entries_only(f: Fields) -> bool {
    forall|e: int| #[trigger] f.contains_key(e) ==> e == VT_SLOT || e == VT_STATUS
}

/// A table with no fields.
pub open spec fn no_fields() -> Fields {
    Map::empty()
}

/// No table at all.
pub open spec fn no_tables() -> Map<int, Fields> {
    Map::empty()
}

/// A flatbuffers builder that writes one buffer. Verus sees it only through
/// the names below.
#[verifier::external_body]
pub struct Builder {
    fbb: flatbuffers::FlatBufferBuilder<'static>,
}

/// The fields pushed into the table under construction, if one is open.
pub uninterp spec fn open_table(b: Builder) -> Option<Fields>;

/// Where the open table started, as `start_table` returned it.
pub uninterp spec fn table_start(b: Builder) -> int;

/// The tables ended so far, by the offset that `end_table` returned.
pub uninterp spec fn ended_tables(b: Builder) -> Map<int, Fields>;

/// Once finished: whether the buffer has a size prefix, and the fields of
/// its root table.
pub uninterp spec fn finished_root(b: Builder) -> Option<(bool, Fields)>;

/// The table at `t` has a 4-aligned header, an even-placed vtable whose own
/// and table sizes hold together, and exactly the fields of `f`, each inside
/// the table, aligned to its width and holding its value.
pub open spec fn table_holds(b: Seq<u8>, t: int, f: Fields) -> bool {
    &&& 0 <= t && t + 4 <= b.len() && t % 4 == 0
    &&& 0 <= vtable_pos(b, t) && vtable_pos(b, t) + 4 <= b.len() && vtable_pos(b, t) % 2 == 0
    &&& 4 <= vtable_len(b, t) && vtable_len(b, t) % 2 == 0
    &&& vtable_pos(b, t) + vtable_len(b, t) <= b.len()
    &&& 4 <= table_size(b, t) && t + table_size(b, t) <= b.len()
    &&& forall|e: int|
        4 <= e && e % 2 == 0 ==> (#[trigger] field_offset(b, t, e) != 0 <==> f.contains_key(e))
    &&& forall|e: int|
        #[trigger] f.contains_key(e) ==> {
            let o = field_offset(b, t, e);
            let w = f[e].0;
            let x = f[e].1;
            &&& w > 0
            &&& o + w <= table_size(b, t)
            &&& (t + o) % (w as int) == 0
            &&& (w == 8 ==> u64_at(b, t + o) == x)
            &&& (w == 1 ==> b[t + o] as int == x)
        }
}

/// A buffer whose root offset is at `base` leads to a table holding `f`.
pub open spec fn buffer_holds(b: Seq<u8>, base: int, f: Fields) -> bool {
    base + 4 <= b.len() && table_holds(b, root_table(b, base), f)
}

impl Builder {
    /// Relies on flatbuffers::FlatBufferBuilder::new: an empty builder.
    #[verifier::external_body]
    pub fn new() -> (r: Builder)
        ensures
            open_table(r) is None,
            ended_tables(r) == no_tables(),
            finished_root(r) is None,
    {
        Builder { fbb: flatbuffers::FlatBufferBuilder::new() }
    }

    /// Relies on FlatBufferBuilder::start_table: opens an empty table and
    /// returns where it starts.
    #[verifier::external_body]
    pub fn start_table(&mut self) -> (r: u32)
        requires
            open_table(*old(self)) is None,
            finished_root(*old(self)) is None,
        ensures
            open_table(*final(self)) == Some(no_fields()),
            table_start(*final(self)) == r,
            ended_tables(*final(self)) == ended_tables(*old(self)),
            finished_root(*final(self)) is None,
    {
        self.fbb.start_table().value()
    }

    /// Relies on FlatBufferBuilder::push_slot for `u64`: records the value
    /// under `entry` unless it equals `default`. Only the two field entries
    /// of a `Slot` table, each once, are admitted: other entries make
    /// `end_table` write a vtable whose sizes do not hold together.
    #[verifier::external_body]
    pub fn push_slot_u64(&mut self, entry: u16, x: u64, default: u64)
        requires
            open_table(*old(self)) is Some,
            entry == VT_SLOT || entry == VT_STATUS,
            !open_table(*old(self))->0.contains_key(entry as int),
        ensures
            open_table(*final(self)) == (if x != default {
                Some(open_table(*old(self))->0.insert(entry as int, (8nat, x as int)))
            } else {
                open_table(*old(self))
            }),
            table_start(*final(self)) == table_start(*old(self)),
            ended_tables(*final(self)) == ended_tables(*old(self)),
            finished_root(*final(self)) is None,
    {
        self.fbb.push_slot::<u64>(entry, x, default)
    }

    /// Relies on FlatBufferBuilder::push_slot for `i8`: records the byte
    /// under `entry` unless it equals `default`.
    #[verifier::external_body]
    pub fn push_slot_i8(&mut self, entry: u16, x: i8, default: i8)
        requires
            open_table(*old(self)) is Some,
            entry == VT_SLOT || entry == VT_STATUS,
            !open_table(*old(self))->0.contains_key(entry as int),
        ensures
            open_table(*final(self)) == (if x != default {
                Some(open_table(*old(self))->0.insert(entry as int, (1nat, (x as u8) as int)))
            } else {
                open_table(*old(self))
            }),
            table_start(*final(self)) == table_start(*old(self)),
            ended_tables(*final(self)) == ended_tables(*old(self)),
            finished_root(*final(self)) is None,
    {
        self.fbb.push_slot::<i8>(entry, x, default)
    }

    /// Relies on FlatBufferBuilder::end_table: closes the open table, which
    /// started at `start`, and returns its offset.
    #[verifier::external_body]
    pub fn end_table(&mut self, start: u32) -> (r: u32)
        requires
            open_table(*old(self)) is Some,
            slot_entries_only(open_table(*old(self))->0),
            start == table_start(*old(self)),
        ensures
            open_table(*final(self)) is None,
            ended_tables(*final(self)) == ended_tables(*old(self)).insert(
                r as int,
                open_table(*old(self))->0,
            ),
            finished_root(*final(self)) is None,
    {
        self.fbb.end_table(flatbuffers::WIPOffset::new(start)).value()
    }

    /// Relies on FlatBufferBuilder::finish: makes the table at `root` the
    /// root of the buffer.
    #[verifier::external_body]
    pub fn finish(&mut self, root: u32)
        requires
            open_table(*old(self)) is None,
            finished_root(*old(self)) is None,
            ended_tables(*old(self)).contains_key(root as int),
        ensures
            finished_root(*final(self)) == Some((false, ended_tables(*old(self))[root as int])),
    {
        self.fbb.finish(flatbuffers::WIPOffset::<flatbuffers::TableFinishedWIPOffset>::new(root), None)
    }

    /// Relies on FlatBufferBuilder::finish_size_prefixed: as `finish`, with
    /// the buffer's length written before it.
    #[verifier::external_body]
    pub fn finish_size_prefixed(&mut self, root: u32)
        requires
            open_table(*old(self)) is None,
            finished_root(*old(self)) is None,
            ended_tables(*old(self)).contains_key(root as int),
        ensures
            finished_root(*final(self)) == Some((true, ended_tables(*old(self))[root as int])),
    {
        self.fbb.finish_size_prefixed(
            flatbuffers::WIPOffset::<flatbuffers::TableFinishedWIPOffset>::new(root),
            None,
        )
    }

    /// Relies on FlatBufferBuilder::finished_data: the finished bytes, with
    /// the root offset at 0, or at 4 after a prefix that holds the length
    /// less the prefix's own four bytes.
    #[verifier::external_body]
    pub fn finished_data(&self) -> (r: Vec<u8>)
        requires
            finished_root(*self) is Some,
            slot_entries_only((finished_root(*self)->0).1),
        ensures
            ({
                let (prefixed, f) = finished_root(*self)->0;
                if prefixed {
                    &&& r@.len() >= 4
                    &&& u32_at(r@, 0) == r@.len() - 4
                    &&& buffer_holds(r@, 4, f)
                } else {
                    buffer_holds(r@, 0, f)
                }
            }),
    {
        self.fbb.finished_data().to_vec()
    }
}

} // verus!
