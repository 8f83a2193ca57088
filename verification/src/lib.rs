//! Sorting media files into a library laid out by date and kind.
//!
//! A run scans a directory, tells audio files, images and videos from their
//! content, and moves each to `<root>/<year>/<MMDD>/<kind>/<name>`. The crate
//! holds the rules of such a run; reading and writing the disk is left to the
//! caller, who is told what to do next and hands back what came of it.

pub mod calendar;
pub mod category;
pub mod classify;
pub mod config;
pub mod date;
pub mod import_set;
pub mod mime_type;
pub mod path;
pub mod pipeline;
pub mod relocate;
pub mod report;
pub mod run;
pub mod scan;
pub mod text;

pub use category::MediaCategory;
pub use config::UserConfig;
pub use import_set::ImportSet;
pub use pipeline::{Action, MediaImport};
pub use run::{Event, PipelineState};
