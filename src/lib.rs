//! Sorts photos and videos into `<target>/<year>/<month>` directories by the date
//! they were taken, with a chosen policy for names that are already taken.
//!
//! - `gatherer` reads a file's date from what its source reported;
//! - `placement` derives the destination and applies the collision policy;
//! - `batch` plans each file and keeps the tally of a run.
pub mod arguments;
pub mod batch;
pub mod gatherer;
pub mod placement;
pub mod timestamp;
