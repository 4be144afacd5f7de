//! The three loaders: which file each asks for, and whether the build halts
//! once the attempt to load that file is over.
use vstd::prelude::*;

use crate::file_name::{file_name_from_input, trim_quotes};

verus! {

/// The file that a loader asks for.
#[derive(Debug, PartialEq, Eq)]
pub enum EnvFile {
    /// The conventional `.env` file.
    Default,
    /// A file given by name.
    Named(String),
}

/// What an [`EnvFile`] stands for.
pub enum EnvFileView {
    Default,
    Named(Seq<char>),
}

impl View for EnvFile {
    type V = EnvFileView;

    open spec fn view(&self) -> EnvFileView {
        match self {
            EnvFile::Default => EnvFileView::Default,
            EnvFile::Named(name) => EnvFileView::Named(name@),
        }
    }
}

/// Why a file could not be loaded.
#[derive(Debug, Clone, Copy, PartialEq, Eq)]
pub enum LoadFailure {
    /// The file is missing or cannot be read.
    Unreadable,
    /// The file's contents are not a well-formed list of assignments.
    Malformed,
}

/// What the build does once a loader has tried to load its file.
#[derive(Debug, PartialEq, Eq)]
pub enum Outcome {
    /// Compilation goes on.
    Proceed,
    /// The build stops, with this message.
    Halt(String),
}

/// A loader: the file it asks for, and whether a failure to load it halts
/// the build.
#[derive(Debug)]
pub struct Loader {
    file: EnvFile,
    required: bool,
}

/// What a [`Loader`] stands for.
pub struct LoaderView {
    pub file: EnvFileView,
    pub required: bool,
}

impl View for Loader {
    type V = LoaderView;

    closed spec fn view(&self) -> LoaderView {
        LoaderView { file: self.file@, required: self.required }
    }
}

/// The default loader: the `.env` file, which must load.
pub open spec fn default_loader_view() -> LoaderView {
    LoaderView { file: EnvFileView::Default, required: true }
}

/// The named loader given the argument text `input`: the file that the text
/// names, which must load.
pub open spec fn named_loader_view(input: Seq<char>) -> LoaderView {
    LoaderView { file: EnvFileView::Named(trim_quotes(input)), required: true }
}

/// The best-effort loader: the `.env` file, which may fail to load.
pub open spec fn best_effort_loader_view() -> LoaderView {
    LoaderView { file: EnvFileView::Default, required: false }
}

/// How a file is called in messages.
pub open spec fn file_label(file: EnvFileView) -> Seq<char> {
    match file {
        EnvFileView::Default => ".env"@,
        EnvFileView::Named(name) => name,
    }
}

/// The message with which the build halts when `file` cannot be loaded.
pub open spec fn failure_text(file: EnvFileView) -> Seq<char> {
    "Failed to load "@ + file_label(file) + " file"@
}

/// Whether `loader` halts the build after the attempt that gave `result`.
pub open spec fn halts(loader: LoaderView, result: Result<(), LoadFailure>) -> bool {
    loader.required && result is Err
}

impl EnvFile {
    /// The message with which the build halts when this file cannot be
    /// loaded: `Failed to load .env file` for the default file, and the
    /// same with the file's name in place of `.env` for a named one.
    pub fn failure_message(&self) -> (r: String)
        ensures
            r@ == failure_text(self@),
    {
        let mut r = String::from_str("Failed to load ");
        match self {
            EnvFile::Default => r.append(".env"),
            EnvFile::Named(name) => r.append(name.as_str()),
        }
        r.append(" file");
        r
    }
}

impl Loader {
    /// The default loader: it loads the `.env` file and halts the build when
    /// that fails.
    pub fn default_loader() -> (r: Loader)
        ensures
            r@ == default_loader_view(),
    {
        Loader { file: EnvFile::Default, required: true }
    }

    /// The named loader: it loads the file that `input` names, the text of
    /// its argument with the double quotes at both ends taken off, and halts
    /// the build when that fails. No other file is consulted.
    pub fn named_loader(input: &str) -> (r: Loader)
        ensures
            r@ == named_loader_view(input@),
    {
        Loader { file: EnvFile::Named(file_name_from_input(input)), required: true }
    }

    /// The best-effort loader: it loads the `.env` file, and the build goes
    /// on whether that succeeds or not.
    pub fn best_effort_loader() -> (r: Loader)
        ensures
            r@ == best_effort_loader_view(),
    {
        Loader { file: EnvFile::Default, required: false }
    }

    /// The file that this loader asks for.
    pub fn file(&self) -> (r: &EnvFile)
        ensures
            r@ == self@.file,
    {
        &self.file
    }

    /// Whether a failure to load the file halts the build.
    pub fn is_required(&self) -> (r: bool)
        ensures
            r == self@.required,
    {
        self.required
    }

    /// What the build does after the attempt to load this loader's file gave
    /// `result`: it halts, with a message that names the file, exactly when
    /// the load failed and the loader requires the file; else it proceeds.
    pub fn outcome(&self, result: &Result<(), LoadFailure>) -> (r: Outcome)
        ensures
            (r is Halt) == halts(self@, *result),
            r matches Outcome::Halt(message) ==> message@ == failure_text(self@.file),
    {
        if self.required && result.is_err() {
            Outcome::Halt(self.file.failure_message())
        } else {
            Outcome::Proceed
        }
    }
}

/// A missing or unreadable file halts the build under the default loader and
/// under the named loader, whatever file it names, and does not halt it under
/// the best-effort loader.
pub proof fn lemma_missing_file_halts_only_required_loaders(input: Seq<char>)
    ensures
        halts(default_loader_view(), Err(LoadFailure::Unreadable)),
        halts(named_loader_view(input), Err(LoadFailure::Unreadable)),
        !halts(best_effort_loader_view(), Err(LoadFailure::Unreadable)),
{
}

/// The best-effort loader never halts the build: run twice in a row, with
/// whatever each attempt gave, both runs end the same way, with the build
/// going on.
pub proof fn lemma_best_effort_twice_never_halts(
    first: Result<(), LoadFailure>,
    second: Result<(), LoadFailure>,
)
    ensures
        !halts(best_effort_loader_view(), first),
        !halts(best_effort_loader_view(), second),
        halts(best_effort_loader_view(), first) == halts(best_effort_loader_view(), second),
{
}

} // verus!
