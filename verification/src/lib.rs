//! A file-type-aware dispatcher for formatters and linters.
//!
//! For every source file the library detects the language from the file's
//! name, selects the tool whose configuration is found in an ancestor
//! directory, resolves the executable to run, expands the tool's command
//! template and groups the files that share one command into a batch.

pub mod batch;
pub mod catalog;
pub mod detect;
pub mod dispatch;
pub mod paths;
pub mod registry;
pub mod resolve;
pub mod run;
pub mod search;
pub mod system;
pub mod template;
pub mod text;
pub mod walk;
