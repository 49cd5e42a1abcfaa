//! Inventory of a directory tree: one CSV row per regular file, with its
//! size, timestamps, SHA-256 digest and the names of the directories above it.
//!
//! The library holds the rules of the inventory and proves them: how a row is
//! rendered, which entries give a row, a failure or a warning, and in which
//! order directories are visited. It performs no input or output itself; the
//! caller lists directories and reads files, and hands over what it found.

pub mod conv;
pub mod digest;
pub mod output;
pub mod path;
pub mod record;
pub mod scan;
pub mod text;
pub mod walk;

pub use conv::ConvToString;
pub use record::{FileInfo, FileMeta};
