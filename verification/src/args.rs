//! The command surface, as plain data: initial note text and creation flags,
//! and the two render subcommands with their tri-state output hints.

use vstd::prelude::*;

use crate::resolve::OutputHint;

verus! {

/// A simple CLI app to help plain-text note-taking.
pub struct Args {
    /// Initial text to capture in the note.
    pub text: Option<String>,
    /// Put the note in an alternative subdirectory.
    pub subdir: Option<String>,
    /// The editor is opened unless this flag is set.
    pub no_edit: bool,
    /// Force creation of the file even if text is blank and no-edit is set.
    pub force: bool,
    /// Use the config file at the specified path instead of the default.
    pub config: Option<String>,
    pub subcommand: Option<Subcommand>,
}

pub enum Subcommand {
    /// Render a note at the given path as HTML.
    ///
    /// Outputs to stdout unless an output hint is given.
    Html(HtmlCmd),
    /// Render a note at the given path as a PDF file using a headless
    /// browser, which must be available on the system.
    Pdf(PdfCmd),
}

/// Command to render a note as HTML from the given path.
pub struct HtmlCmd {
    /// Path to the file to convert, which must carry the markdown extension;
    /// when missing, input comes from standard input.
    pub input: Option<String>,
    /// Where the output goes: standard output, beside the source, or an
    /// explicit directory or file path.
    pub output: OutputHint,
    /// Output only the rendered markdown without the wrapping document.
    pub raw: bool,
}

/// Command to render a note as a PDF from the given path.
pub struct PdfCmd {
    /// Path to the file to convert, which must carry the markdown extension;
    /// when missing, input comes from standard input.
    pub input: Option<String>,
    /// Where the output goes: standard output, beside the source, or an
    /// explicit directory or file path.
    pub output: OutputHint,
}

} // verus!
