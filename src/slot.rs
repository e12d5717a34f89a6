use vstd::prelude::*;
use vstd::string::StringExecFns;
use crate::text::{append_decimal, decimal};
use crate::layout::{read_u64, u32_at};
use crate::status::Status;
use crate::builder::{
    buffer_holds, ended_tables, finished_root, no_fields, open_table, slot_entries_only, table_start,
    Builder, Fields,
};
use crate::table::{
    apparent_size, apparent_size_of, field_offset, field_offset_of, root_table, root_verdict, slot_value, status_value, table_ok, verify_root,
    MalformedBuffer, VT_SLOT, VT_STATUS,
};

verus! {

/// The values of a `Slot` record, as handed to the encoder.
#[derive(Clone, Copy, Debug, PartialEq, Eq, Structural)]
pub struct SlotArgs {
    pub slot: u64,
    pub status: Status,
}

impl Default for SlotArgs {
    fn default() -> (r: SlotArgs)
        ensures
            r.slot == 0,
            r.status.0 == 0,
    {
        SlotArgs { slot: 0, status: Status::processed() }
    }
}

/// A buffer whose root offset is at `base` and whose root table holds `args`.
pub open spec fn encodes(b: Seq<u8>, base: int, args: SlotArgs) -> bool {
    &&& root_verdict(b, base) is Ok
    &&& slot_value(b, root_table(b, base)) == args.slot
    &&& status_value(b, root_table(b, base)) == args.status.0
}

/// Marks offsets that point at a `Slot` table.
pub struct SlotOffset;

/// A read-only view of a `Slot` table inside a buffer: field values are read
/// on access, with the declared default when a field is absent.
#[derive(Clone, Copy)]
pub struct Slot<'a> {
    pub buf: &'a [u8],
    pub loc: usize,
}

impl<'a> Slot<'a> {
    /// The table lies at `loc` and passed the structural check.
    pub open spec fn valid(&self) -> bool {
        table_ok(self.buf@, self.loc as int)
    }

    /// Views the table at `loc` of `buf`, which the caller has checked.
    pub fn init_from_table(buf: &'a [u8], loc: usize) -> (r: Slot<'a>)
        requires
            table_ok(buf@, loc as int),
        ensures
            r.buf@ == buf@,
            r.loc == loc,
            r.valid(),
    {
        Slot { buf, loc }
    }

    /// Writes a `Slot` table holding `args` into `fbb` and returns its
    /// offset; a field equal to its default is left out.
    pub fn create(fbb: &mut Builder, args: &SlotArgs) -> (r: u32)
        requires
            open_table(*old(fbb)) is None,
            finished_root(*old(fbb)) is None,
        ensures
            open_table(*final(fbb)) is None,
            finished_root(*final(fbb)) is None,
            ended_tables(*final(fbb)) == ended_tables(*old(fbb)).insert(r as int, slot_fields(*args)),
    {
        let start = fbb.start_table();
        fbb.push_slot_u64(VT_SLOT, args.slot, 0);
        fbb.push_slot_i8(VT_STATUS, args.status.0, 0);
        fbb.end_table(start)
    }

    /// The `slot` field, 0 when absent.
    pub fn slot(&self) -> (r: u64)
        requires
            self.valid(),
        ensures
            r == slot_value(self.buf@, self.loc as int),
    {
        // the length fits in usize, which bounds the indices below
        let _n = self.buf.len();
        let o = field_offset_of(self.buf, self.loc, VT_SLOT);
        if o == 0 {
            0
        } else {
            read_u64(self.buf, self.loc + o)
        }
    }

    /// The `status` field, processed when absent; an unnamed value is
    /// returned as it is stored.
    pub fn status(&self) -> (r: Status)
        requires
            self.valid(),
        ensures
            r.0 == status_value(self.buf@, self.loc as int),
    {
        // the length fits in usize, which bounds the indices below
        let _n = self.buf.len();
        let o = field_offset_of(self.buf, self.loc, VT_STATUS);
        if o == 0 {
            Status::processed()
        } else {
            Status::follow(self.buf, self.loc + o)
        }
    }

    /// Renders the record as `Slot { slot: n, status: s }`.
    pub fn to_debug_string(&self) -> (r: String)
        requires
            self.valid(),
        ensures
            r@ == "Slot { slot: "@ + decimal(slot_value(self.buf@, self.loc as int) as nat)
                + ", status: "@ + Status(status_value(self.buf@, self.loc as int)).text() + " }"@,
    {
        let mut s = String::from_str("Slot { slot: ");
        append_decimal(&mut s, self.slot());
        s.append(", status: ");
        let st = self.status().to_debug_string();
        s.append(st.as_str());
        s.append(" }");
        s
    }
}

/// The fields that encoding `args` pushes: each one that differs from its
/// default, under its vtable entry.
pub open spec fn slot_fields(args: SlotArgs) -> Fields {
    let with_slot = if args.slot != 0 {
        no_fields().insert(VT_SLOT as int, (8nat, args.slot as int))
    } else {
        no_fields()
    };
    if args.status.0 != 0 {
        with_slot.insert(VT_STATUS as int, (1nat, (args.status.0 as u8) as int))
    } else {
        with_slot
    }
}

/// A buffer laid out with the fields of `args` in its root table reads back
/// as `args`.
pub proof fn lemma_holds_encodes(b: Seq<u8>, base: int, args: SlotArgs)
    requires
        base == 0 || base == 4,
        buffer_holds(b, base, slot_fields(args)),
    ensures
        encodes(b, base, args),
{
    let f = slot_fields(args);
    let t = root_table(b, base);
    assert(field_offset(b, t, VT_SLOT as int) != 0 <==> f.contains_key(VT_SLOT as int));
    assert(field_offset(b, t, VT_STATUS as int) != 0 <==> f.contains_key(VT_STATUS as int));
    if f.contains_key(VT_SLOT as int) {
        assert(f[VT_SLOT as int] == (8nat, args.slot as int));
    }
    if f.contains_key(VT_STATUS as int) {
        assert(f[VT_STATUS as int] == (1nat, (args.status.0 as u8) as int));
        let p = t + field_offset(b, t, VT_STATUS as int);
        let x = args.status.0;
        assert(b[p] == x as u8);
        assert((x as u8) as i8 == x) by (bit_vector);
    }
}

/// Writes the fields of one `Slot` table into a builder; a field that is
/// never added keeps its default.
pub struct SlotBuilder {
    pub fbb: Builder,
    pub start: u32,
}

impl SlotBuilder {
    /// The builder has an open table that this one started.
    pub open spec fn wf(&self) -> bool {
        &&& open_table(self.fbb) is Some
        &&& slot_entries_only(open_table(self.fbb)->0)
        &&& self.start == table_start(self.fbb)
        &&& finished_root(self.fbb) is None
    }

    /// Opens a `Slot` table in `fbb`.
    pub fn new(fbb: Builder) -> (r: SlotBuilder)
        requires
            open_table(fbb) is None,
            finished_root(fbb) is None,
        ensures
            r.wf(),
            open_table(r.fbb) == Some(no_fields()),
            ended_tables(r.fbb) == ended_tables(fbb),
    {
        let mut fbb = fbb;
        let start = fbb.start_table();
        SlotBuilder { fbb, start }
    }

    /// Adds the `slot` field, unless it is 0; at most once per table.
    pub fn add_slot(&mut self, slot: u64)
        requires
            old(self).wf(),
            !open_table(old(self).fbb)->0.contains_key(VT_SLOT as int),
        ensures
            final(self).wf(),
            open_table(final(self).fbb) == (if slot != 0 {
                Some(open_table(old(self).fbb)->0.insert(VT_SLOT as int, (8nat, slot as int)))
            } else {
                open_table(old(self).fbb)
            }),
            ended_tables(final(self).fbb) == ended_tables(old(self).fbb),
    {
        self.fbb.push_slot_u64(VT_SLOT, slot, 0);
    }

    /// Adds the `status` field, unless it is processed; at most once per
    /// table.
    pub fn add_status(&mut self, status: Status)
        requires
            old(self).wf(),
            !open_table(old(self).fbb)->0.contains_key(VT_STATUS as int),
        ensures
            final(self).wf(),
            open_table(final(self).fbb) == (if status.0 != 0 {
                Some(
                    open_table(old(self).fbb)->0.insert(
                        VT_STATUS as int,
                        (1nat, (status.0 as u8) as int),
                    ),
                )
            } else {
                open_table(old(self).fbb)
            }),
            ended_tables(final(self).fbb) == ended_tables(old(self).fbb),
    {
        self.fbb.push_slot_i8(VT_STATUS, status.0, 0);
    }

    /// Closes the table; returns the builder and the table's offset.
    pub fn finish(self) -> (r: (Builder, u32))
        requires
            self.wf(),
        ensures
            open_table(r.0) is None,
            finished_root(r.0) is None,
            ended_tables(r.0) == ended_tables(self.fbb).insert(
                r.1 as int,
                open_table(self.fbb)->0,
            ),
    {
        let mut fbb = self.fbb;
        let o = fbb.end_table(self.start);
        (fbb, o)
    }
}

/// Makes the table at `root` the root of a plain buffer.
pub fn finish_slot_buffer(fbb: &mut Builder, root: u32)
    requires
        open_table(*old(fbb)) is None,
        finished_root(*old(fbb)) is None,
        ended_tables(*old(fbb)).contains_key(root as int),
    ensures
        finished_root(*final(fbb)) == Some((false, ended_tables(*old(fbb))[root as int])),
{
    fbb.finish(root);
}

/// Makes the table at `root` the root of a buffer that starts with its own
/// length.
pub fn finish_size_prefixed_slot_buffer(fbb: &mut Builder, root: u32)
    requires
        open_table(*old(fbb)) is None,
        finished_root(*old(fbb)) is None,
        ended_tables(*old(fbb)).contains_key(root as int),
    ensures
        finished_root(*final(fbb)) == Some((true, ended_tables(*old(fbb))[root as int])),
{
    fbb.finish_size_prefixed(root);
}

/// Encodes `args` as a plain buffer: a root offset followed by the table.
pub fn encode_slot(args: &SlotArgs) -> (r: Vec<u8>)
    ensures
        encodes(r@, 0, *args),
{
    let mut fbb = Builder::new();
    let root = Slot::create(&mut fbb, args);
    finish_slot_buffer(&mut fbb, root);
    let r = fbb.finished_data();
    proof {
        lemma_holds_encodes(r@, 0, *args);
    }
    r
}

/// Encodes `args` as a buffer that starts with its own length.
pub fn encode_size_prefixed_slot(args: &SlotArgs) -> (r: Vec<u8>)
    ensures
        r@.len() >= 4,
        u32_at(r@, 0) == r@.len() - 4,
        encodes(r@, 4, *args),
{
    let mut fbb = Builder::new();
    let root = Slot::create(&mut fbb, args);
    finish_size_prefixed_slot_buffer(&mut fbb, root);
    let r = fbb.finished_data();
    proof {
        lemma_holds_encodes(r@, 4, *args);
    }
    r
}

/// Limits on the work a check may do.
#[derive(Clone, Copy, Debug, PartialEq, Eq, Structural)]
pub struct VerifierOptions {
    /// How deeply tables may nest.
    pub max_depth: usize,
    /// How many tables a buffer may hold.
    pub max_tables: usize,
    /// How many bytes a check may read.
    pub max_apparent_size: usize,
}

impl Default for VerifierOptions {
    fn default() -> (r: VerifierOptions)
        ensures
            r.max_depth == 64,
            r.max_tables == 1_000_000,
            r.max_apparent_size == 0x8000_0000,
    {
        VerifierOptions { max_depth: 64, max_tables: 1_000_000, max_apparent_size: 0x8000_0000 }
    }
}

/// The result of checking a whole buffer under `opts`: a `Slot` buffer holds
/// one table at depth one.
pub open spec fn verdict_with_opts(
    opts: VerifierOptions,
    b: Seq<u8>,
    base: int,
) -> Result<(), MalformedBuffer> {
    if root_verdict(b, base) is Err {
        root_verdict(b, base)
    } else if opts.max_tables < 1 {
        Err(MalformedBuffer::TooManyTables)
    } else if opts.max_depth < 1 {
        Err(MalformedBuffer::DepthLimitReached)
    } else if apparent_size(b, base, root_table(b, base)) > opts.max_apparent_size {
        Err(MalformedBuffer::ApparentSizeTooLarge)
    } else {
        Ok(())
    }
}

/// What a checked read of a buffer whose root offset is at `base` returns.
pub open spec fn read_outcome(
    r: Result<Slot, MalformedBuffer>,
    opts: VerifierOptions,
    b: Seq<u8>,
    base: int,
) -> bool {
    match r {
        Ok(s) => verdict_with_opts(opts, b, base) is Ok && s.buf@ == b && s.loc == root_table(
            b,
            base,
        ) && s.valid(),
        Err(e) => verdict_with_opts(opts, b, base) == Err::<(), MalformedBuffer>(e),
    }
}

fn root_at_with_opts<'b>(opts: &VerifierOptions, buf: &'b [u8], base: usize) -> (r: Result<
    Slot<'b>,
    MalformedBuffer,
>)
    requires
        base == 0 || base == 4,
    ensures
        read_outcome(r, *opts, buf@, base as int),
{
    match verify_root(buf, base) {
        Err(e) => Err(e),
        Ok(t) => {
            if opts.max_tables < 1 {
                Err(MalformedBuffer::TooManyTables)
            } else if opts.max_depth < 1 {
                Err(MalformedBuffer::DepthLimitReached)
            } else if apparent_size_of(buf, base, t) > opts.max_apparent_size {
                Err(MalformedBuffer::ApparentSizeTooLarge)
            } else {
                Ok(Slot { buf, loc: t })
            }
        },
    }
}

/// Checks a plain buffer under `opts` and views its root table.
pub fn root_as_slot_with_opts<'b>(opts: &VerifierOptions, buf: &'b [u8]) -> (r: Result<
    Slot<'b>,
    MalformedBuffer,
>)
    ensures
        read_outcome(r, *opts, buf@, 0),
{
    root_at_with_opts(opts, buf, 0)
}

/// Checks a size-prefixed buffer under `opts` and views its root table.
pub fn size_prefixed_root_as_slot_with_opts<'b>(opts: &VerifierOptions, buf: &'b [u8]) -> (r:
    Result<Slot<'b>, MalformedBuffer>)
    ensures
        read_outcome(r, *opts, buf@, 4),
{
    root_at_with_opts(opts, buf, 4)
}

/// Checks a plain buffer under the default options and views its root table.
pub fn root_as_slot(buf: &[u8]) -> (r: Result<Slot, MalformedBuffer>)
    ensures
        read_outcome(r, (VerifierOptions { max_depth: 64, max_tables: 1_000_000, max_apparent_size: 0x8000_0000 }), buf@, 0),
        r is Ok <==> root_verdict(buf@, 0) is Ok,
{
    let opts = VerifierOptions::default();
    root_as_slot_with_opts(&opts, buf)
}

/// Checks a size-prefixed buffer under the default options and views its
/// root table.
pub fn size_prefixed_root_as_slot(buf: &[u8]) -> (r: Result<Slot, MalformedBuffer>)
    ensures
        read_outcome(r, (VerifierOptions { max_depth: 64, max_tables: 1_000_000, max_apparent_size: 0x8000_0000 }), buf@, 4),
        r is Ok <==> root_verdict(buf@, 4) is Ok,
{
    let opts = VerifierOptions::default();
    size_prefixed_root_as_slot_with_opts(&opts, buf)
}

/// Views the root table of a plain buffer without checking it; the caller
/// must already know that the buffer is well formed.
pub fn root_as_slot_unchecked(buf: &[u8]) -> (r: Slot)
    requires
        root_verdict(buf@, 0) is Ok,
    ensures
        r.buf@ == buf@,
        r.loc == root_table(buf@, 0),
        r.valid(),
{
    // the length fits in usize, which bounds the indices below
    let _n = buf.len();
    let t = crate::layout::read_u32(buf, 0) as usize;
    Slot { buf, loc: t }
}

/// Views the root table of a size-prefixed buffer without checking it; the
/// caller must already know that the buffer is well formed.
pub fn size_prefixed_root_as_slot_unchecked(buf: &[u8]) -> (r: Slot)
    requires
        root_verdict(buf@, 4) is Ok,
    ensures
        r.buf@ == buf@,
        r.loc == root_table(buf@, 4),
        r.valid(),
{
    // the length fits in usize, which bounds the indices below
    let _n = buf.len();
    let t = 4 + crate::layout::read_u32(buf, 4) as usize;
    Slot { buf, loc: t }
}

} // verus!
