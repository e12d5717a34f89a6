use vstd::prelude::*;
use vstd::string::StringExecFns;
use crate::text::{append_signed_decimal, signed_decimal};

verus! {

/// The status of a slot. The wire value is a signed byte; values outside
/// the named ones are kept as they are, so that newer writers stay readable.
#[derive(Clone, Copy, Debug, PartialEq, Eq, PartialOrd, Ord, Hash, Structural)]
pub struct Status(pub i8);

impl Default for Status {
    fn default() -> (r: Status)
        ensures
            r.0 == 0,
    {
        Status(0)
    }
}

impl Status {
    pub fn processed() -> (r: Status)
        ensures
            r.0 == 0,
    {
        Status(0)
    }

    pub fn rooted() -> (r: Status)
        ensures
            r.0 == 1,
    {
        Status(1)
    }

    pub fn confirmed() -> (r: Status)
        ensures
            r.0 == 2,
    {
        Status(2)
    }

    pub const ENUM_MIN: i8 = 0;
    pub const ENUM_MAX: i8 = 2;

    /// Reads the status byte at `loc`: every byte value is kept as it is,
    /// named or not.
    pub fn follow(buf: &[u8], loc: usize) -> (r: Status)
        requires
            loc < buf@.len(),
        ensures
            r.0 == buf@[loc as int] as i8,
    {
        Status(#[verifier::truncate] (buf[loc] as i8))
    }

    /// Whether the value is one of the named variants.
    pub open spec fn is_known(self) -> bool {
        Self::ENUM_MIN <= self.0 <= Self::ENUM_MAX
    }

    /// Returns the variant's name, or `None` for a value without one.
    pub fn variant_name(self) -> (r: Option<&'static str>)
        ensures
            r is Some <==> self.is_known(),
            self.0 == 0 ==> r == Some("Processed"),
            self.0 == 1 ==> r == Some("Rooted"),
            self.0 == 2 ==> r == Some("Confirmed"),
    {
        if self.0 == 0 {
            Some("Processed")
        } else if self.0 == 1 {
            Some("Rooted")
        } else if self.0 == 2 {
            Some("Confirmed")
        } else {
            None
        }
    }

    /// The text of a status: its variant's name, or the raw value marked
    /// as unknown.
    pub open spec fn text(self) -> Seq<char> {
        if self.0 == 0 {
            "Processed"@
        } else if self.0 == 1 {
            "Rooted"@
        } else if self.0 == 2 {
            "Confirmed"@
        } else {
            "<UNKNOWN "@ + signed_decimal(self.0 as int) + ">"@
        }
    }

    /// Renders the status as its variant's name, or as `<UNKNOWN n>`.
    pub fn to_debug_string(&self) -> (r: String)
        ensures
            r@ == self.text(),
    {
        match self.variant_name() {
            Some(name) => String::from_str(name),
            None => {
                let mut s = String::from_str("<UNKNOWN ");
                append_signed_decimal(&mut s, self.0);
                s.append(">");
                s
            },
        }
    }
}

} // verus!
