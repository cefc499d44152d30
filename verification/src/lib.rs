//! Output paths and Ghostscript command lines for shrinking PDF files.
//!
//! The library works out where the shrunk copy of a PDF file is written, builds
//! the command that shrinks it, and decides, file by file, what a batch run
//! does next. It touches neither the file system nor any process: the caller
//! carries out the actions it hands back.
//!
//! - `path`: paths as text, with the calls into `std::path` and what is taken
//!   on trust about them.
//! - `resolve`: the output path of an input, by renaming or in a
//!   subdirectory.
//! - `command`: the Ghostscript command for one file, and its stand-in for a
//!   dry run.
//! - `shell`: a command written out as one line.
//! - `batch`: the output mode of a run, and the decisions for each file.

pub mod batch;
pub mod command;
pub mod path;
pub mod resolve;
pub mod shell;

pub use batch::{
    advance, resolve_output, select_mode, start_file, Action, ConfigError, Event, ExecutionOutcome,
    FailReason, FileState, OutputMode, SkipReason, Step,
};
pub use command::{dry_run_command, gs_command, CommandSpec};
pub use path::is_separator_free;
pub use resolve::{
    is_pdf, is_pdf_name, pdf_into_subdir, pdf_subdir, pdf_to_cmp_pdf, pdf_with_suffix,
};
pub use shell::{command_line, join_command_line};
