//! Mimetype-to-command resolution for a terminal file manager: launch entries,
//! their one-line rendering, and the table that maps a MIME type or a file
//! extension to an ordered list of candidate entries.

mod entry;
mod table;
mod config;
pub mod laws;

pub use entry::JoshutoMimetypeEntry;
pub use table::EntryMap;
pub use config::{ConfigError, JoshutoMimetype, JoshutoRawMimetype};
