//! Deriving a file name from a document's content and applying it safely.
//!
//! The library holds the decisions of a pipeline that extracts the text of a
//! file, asks a model for a name, cleans the answer, renames the file
//! without overwriting anything, remembers what it did so that it can be
//! undone, and watches a folder for files that have been written to their
//! end. It reads no file, opens no connection and never sleeps: whatever
//! comes from outside is handed in as plain values, and what is to be done
//! outside is handed back as plain values.
//!
//! - `text`, `paths`, `json`: text as characters, the parts of a path, and
//!   what is read from JSON documents.
//! - `extract`, `office`, `sheets`, `document`, `error`: from the bytes of a
//!   file to a bounded text.
//! - `config`, `context`, `prompt`: the settings, what is known of a file,
//!   and the prompt made of them.
//! - `provider`, `probe`, `transport`, `naming`, `stream`, `events`: what is
//!   asked of a provider, what its answer means, when to ask again, and how
//!   a streamed answer is reported.
//! - `rename`, `history`: where a file lands, how it is moved, and how a
//!   rename is undone.
//! - `watch`, `scan`, `desktop`: which files are picked up, when a new file
//!   has settled, and what the desktop is told.

pub mod config;
pub mod context;
pub mod desktop;
pub mod document;
pub mod error;
pub mod events;
pub mod extract;
pub mod history;
pub mod json;
pub mod naming;
pub mod office;
pub mod paths;
pub mod probe;
pub mod prompt;
pub mod provider;
pub mod rename;
pub mod scan;
pub mod sheets;
pub mod stream;
pub mod text;
pub mod transport;
pub mod watch;
