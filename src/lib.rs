//! Loading a `.env` file into the build environment, as decided by one of
//! three loaders: the default loader and the named loader halt the build when
//! the file cannot be loaded, the best-effort loader carries on.
//!
//! The library holds the decisions: which file a loader asks for, and what the
//! build does once the attempt to load it has succeeded or failed. Reading the
//! file and setting the variables is left to the caller.
mod file_name;
mod loader;

pub use file_name::{file_name_from_input, strip_leading_quotes, strip_trailing_quotes, trim_quotes};
pub use loader::{
    best_effort_loader_view, default_loader_view, failure_text, file_label, halts,
    lemma_best_effort_twice_never_halts, lemma_missing_file_halts_only_required_loaders,
    named_loader_view, EnvFile, EnvFileView, LoadFailure, Loader, LoaderView, Outcome,
};
