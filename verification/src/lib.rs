//! Reader for a producer-written shared-memory telemetry segment.
//!
//! The segment exposes a table of named counters and an append-only log of
//! tagged records.  This crate holds the verified core: decoding and
//! validating counter entries, building fully-qualified sample names,
//! decoding log records from raw bytes through a bounds-checked tag table,
//! and the state machines that govern the segment handle's lifecycle and the
//! polling loop that tails the log.  The thin layer that talks to the
//! provider itself lives outside the library and feeds plain values in.

use vstd::prelude::*;

pub mod counters;
pub mod dispatch;
pub mod log;
pub mod segment;

verus! {

/// Segment data violated an expected invariant.  Unrecoverable for the
/// affected entry or record: the reader fails fast rather than guessing a
/// layout or resynchronizing.
#[derive(Clone, Copy, Debug, PartialEq, Eq, Structural)]
pub enum IntegrityError {
    /// A counter-table entry does not belong to the "Stat" section class.
    WrongSectionClass,
    /// A counter-table entry's underlying value is not a 64-bit unsigned
    /// integer.
    WrongValueType,
    /// A counter-table entry's section does not match the region it was
    /// found in.
    SectionMismatch,
    /// A log record's tag id falls outside the tag-name table.
    TagOutOfRange,
    /// A log record is truncated or its payload terminator is missing.
    MalformedString,
}

} // verus!
