//! Disk-usage inspection: the statistics engine behind a folder browser.
//!
//! The crate turns the raw observations of one directory walk into a flat
//! listing and an aggregate summary, and renders byte counts and time stamps
//! as text. Every function is verified against a mathematical model of its
//! inputs; reading the file system is left to the caller.

pub mod actions;
pub mod cache;
pub mod clock;
pub mod decimal;
pub mod directory;
pub mod laws;
pub mod session;
pub mod stats;
pub mod utils;
pub mod walk;

pub use clock::{checked_readable_time, human_readable_time, CivilTime, Timestamp};
pub use directory::{compute_folder_stats, scan_directory, FileEntry, FolderStats};
pub use utils::human_readable_size;
pub use walk::{NodeKind, NodeMeta, WalkNode, WalkStep};
pub use stats::drive_usage;
