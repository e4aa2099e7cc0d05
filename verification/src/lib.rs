//! Recursive name search over a directory tree: which visited entries are
//! reported, and what is reported of them.
//!
//! The library decides; the caller walks the tree and prints. An [`Entry`]
//! carries what was seen of one node, a [`Pattern`] tests its base name, and a
//! [`Search`] turns each visit into lines to print or into items of the
//! document that is handed over when the walk has ended.

pub mod entry;
pub mod pattern;
pub mod detail;
pub mod config;
pub mod search;
pub mod walks;

pub use config::{configure, report_error, PatternArg, RootArg, SearchConfig};
pub use detail::ResultRecord;
pub use entry::{admits, is_hidden, Entry, NodeKind, Stat};
pub use pattern::{ConfigError, Pattern};
pub use search::{run, Action, Document, Event, Report, Search};
