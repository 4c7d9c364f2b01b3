//! Watching a JSON file and reloading it when it changes.
//!
//! What this library does is decide. It is told what happened, step by step, and says what is to be
//! done next; the caller does the work (reads files, resolves paths, waits) and tells it what came
//! of that.
//!
//! - [`setup`] sets a watch on a folder up.
//! - [`fs_watch`] and [`event_batch`] pick out the events of the folder that concern the watched
//!   files. [`resolving`] says what that comes to on a disk.
//! - [`loader`] and [`json`] turn what was read of a file into a value.
//! - [`serde_watch`] leads the task that keeps a receiver's value up to date with a file,
//!   [`json_watch`](mod@json_watch) that for a JSON file.
pub mod error;
pub mod event_batch;
pub mod fs_watch;
pub mod json;
pub mod json_watch;
pub mod loader;
pub mod path;
pub mod resolving;
pub mod serde_watch;
pub mod setup;
pub mod text;

pub use error::Error;
pub use fs_watch::AsyncFsWatch;
pub use json_watch::{json_watch, jsonlines_watch};
