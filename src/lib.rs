//! Encoding, verification and zero-copy reading of the `Slot` record: a
//! 64-bit slot number and a one-byte status, laid out as a table with a
//! vtable in a little-endian byte buffer.
pub mod builder;
pub mod laws;
pub mod layout;
pub mod slot;
pub mod status;
pub mod table;
pub mod text;
