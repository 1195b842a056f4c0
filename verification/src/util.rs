//! Decisions behind writing generated files: whether a rewrite differs, whether bytes are already
//! on disk, and when to report progress.

pub mod dedupe_file_set;
pub mod difference;
pub mod io_context;
pub mod progress;
