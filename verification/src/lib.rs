//! Decision logic for a repository mirroring driver: paginated enumeration of
//! an organization's repositories, a fork/recency eligibility filter, skip of
//! already-cloned destinations, exponential backoff on rate-limiting, and
//! construction of the shallow-clone command.
pub mod args;
pub mod backoff;
pub mod numerals;
pub mod driver;
pub mod timestamp;
