//! Chart-scanning library: daily ranked song charts per region, with
//! region/date validation, chart loading from delimited text, search by
//! title/artist/keyword, and day-over-day gain computation.

pub mod chart;
pub mod dates;
pub mod errors;
pub mod find;
pub mod gain;
pub mod numbers;
pub mod query;
pub mod regions;
pub mod resolver;
pub mod strutil;
