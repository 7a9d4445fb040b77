use vstd::prelude::*;

verus! {

/// The distinct, inspectable failures of the library.
///
/// `find` returning no match and the absent-day sentinel in a gain record
/// are normal outcomes, not errors, and are not represented here.
#[derive(Clone, Copy, Debug, PartialEq, Eq, Structural)]
pub enum ChartError {
    /// A region code outside the closed vocabulary.
    InvalidRegionCode,
    /// A date string that does not have the exact `YYYY-MM-DD` shape.
    InvalidDateFormat,
    /// A well-shaped date string naming an impossible calendar date,
    /// or one with no representable predecessor.
    InvalidCalendarDate,
    /// Validation passed but no snapshot backs the requested region and date.
    SnapshotNotFound,
    /// A malformed chart row: wrong field count, or a non-numeric
    /// rank or stream-count field (including values too large to hold).
    RecordParseError,
    /// A search invoked with no title, artist or keyword filter.
    NoFilterSupplied,
    /// Two entries that should describe the same song disagree on
    /// title or artist.
    EntryMismatch,
}

} // verus!
