//! The PDF export pipeline, as a state machine over its stages.
//!
//! Exporting renders the document, writes it to a transient intermediate
//! file, opens the destination (create-new-only, so an existing target fails
//! here), and only then discovers and drives a headless browser: navigation,
//! a readiness wait, and the PDF request, whose bytes finally go to the
//! destination. The driver performs each stage's outside work and reports
//! back whether it succeeded; this module owns the ordering and the error
//! taxonomy, so the expensive browser stages are provably unreachable once an
//! earlier stage — rendering, the temporary file, or an already-existing
//! target — has failed.

use vstd::prelude::*;

verus! {

/// What ended an export early, one variant per stage.
#[derive(Debug, PartialEq, Eq, Clone, Copy)]
pub enum ExportError {
    /// The markdown body could not be rendered (malformed metadata block).
    Render,
    /// The intermediate file could not be created or written.
    TempIo,
    /// The destination could not be opened with create-new semantics —
    /// typically because it already exists.
    TargetUnavailable,
    /// No browser-capable executable was found on the host.
    BrowserNotFound,
    /// The browser could not load the page or reach readiness.
    Navigation,
    /// The PDF rasterization request failed.
    Print,
    /// The PDF bytes could not be written to the destination.
    OutputIo,
}

/// Where an export stands: the stage whose work runs next, or a terminal
/// state.
#[derive(Debug, PartialEq, Eq, Clone, Copy)]
pub enum ExportState {
    /// Render the full HTML document from the markdown body.
    Rendering,
    /// Create the uniquely named intermediate file and write the document.
    WritingTemp,
    /// Open the destination file with create-new-only semantics (file targets
    /// only; a stream target skips this stage).
    OpeningTarget,
    /// Discover a browser-capable executable.
    FindingBrowser,
    /// Launch the browser, navigate to the intermediate file, and wait for
    /// the root element to be observable.
    Loading,
    /// Request the PDF rasterization.
    Printing,
    /// Write the PDF bytes to the destination.
    Writing,
    /// The export finished.
    Done,
    /// The export failed at the recorded stage.
    Failed(ExportError),
}

/// The next state after the current stage's work reported `ok`: the following
/// stage in order, or the failure of the current one. Terminal states absorb
/// every event.
pub open spec fn step_spec(s: ExportState, to_file: bool, ok: bool) -> ExportState {
    match s {
        ExportState::Rendering => if ok {
            ExportState::WritingTemp
        } else {
            ExportState::Failed(ExportError::Render)
        },
        ExportState::WritingTemp => if !ok {
            ExportState::Failed(ExportError::TempIo)
        } else if to_file {
            ExportState::OpeningTarget
        } else {
            ExportState::FindingBrowser
        },
        ExportState::OpeningTarget => if ok {
            ExportState::FindingBrowser
        } else {
            ExportState::Failed(ExportError::TargetUnavailable)
        },
        ExportState::FindingBrowser => if ok {
            ExportState::Loading
        } else {
            ExportState::Failed(ExportError::BrowserNotFound)
        },
        ExportState::Loading => if ok {
            ExportState::Printing
        } else {
            ExportState::Failed(ExportError::Navigation)
        },
        ExportState::Printing => if ok {
            ExportState::Writing
        } else {
            ExportState::Failed(ExportError::Print)
        },
        ExportState::Writing => if ok {
            ExportState::Done
        } else {
            ExportState::Failed(ExportError::OutputIo)
        },
        ExportState::Done => ExportState::Done,
        ExportState::Failed(e) => ExportState::Failed(e),
    }
}

/// The state after a whole sequence of stage outcomes.
pub open spec fn run_spec(s: ExportState, to_file: bool, tr: Seq<bool>) -> ExportState
    decreases tr.len(),
{
    if tr.len() == 0 {
        s
    } else {
        run_spec(step_spec(s, to_file, tr.first()), to_file, tr.drop_first())
    }
}

/// Whether a state lies at or past browser startup: these states can only be
/// reached through a successful browser discovery.
pub open spec fn browser_engaged(s: ExportState) -> bool {
    match s {
        ExportState::Loading => true,
        ExportState::Printing => true,
        ExportState::Writing => true,
        ExportState::Done => true,
        _ => false,
    }
}

/// A failed export stays failed: no later event changes its state.
pub proof fn lemma_failed_absorbing(e: ExportError, to_file: bool, tr: Seq<bool>)
    ensures
        run_spec(ExportState::Failed(e), to_file, tr) == ExportState::Failed(e),
    decreases tr.len(),
{
    if tr.len() > 0 {
        lemma_failed_absorbing(e, to_file, tr.drop_first());
    }
}

/// A destination that cannot be opened (it already exists) ends the export
/// with a target error before any browser work: whatever happens afterwards,
/// no browser stage is ever reached, so no partial PDF bytes can be written.
pub proof fn lemma_existing_target_blocks_browser(to_file: bool, tr: Seq<bool>)
    ensures
        run_spec(step_spec(ExportState::OpeningTarget, to_file, false), to_file, tr)
            == ExportState::Failed(ExportError::TargetUnavailable),
        !browser_engaged(run_spec(step_spec(ExportState::OpeningTarget, to_file, false), to_file, tr)),
{
    lemma_failed_absorbing(ExportError::TargetUnavailable, to_file, tr);
}

/// A rendering failure aborts the export before any browser work is done:
/// markdown errors never incur browser startup.
pub proof fn lemma_render_failure_blocks_browser(to_file: bool, tr: Seq<bool>)
    ensures
        run_spec(step_spec(ExportState::Rendering, to_file, false), to_file, tr)
            == ExportState::Failed(ExportError::Render),
        !browser_engaged(run_spec(step_spec(ExportState::Rendering, to_file, false), to_file, tr)),
{
    lemma_failed_absorbing(ExportError::Render, to_file, tr);
}

/// Browser stages are reached only through a successful browser discovery:
/// one step engages the browser only from `FindingBrowser`, or from a state
/// already past it.
pub proof fn lemma_browser_needs_discovery(s: ExportState, to_file: bool, ok: bool)
    ensures
        browser_engaged(step_spec(s, to_file, ok)) ==> browser_engaged(s) || (s
            == ExportState::FindingBrowser && ok),
{
}

/// Drives one export: holds the current state, hands the caller the stage to
/// perform, and advances on each reported outcome.
pub struct PdfExporter {
    /// Whether the destination is a file (which must be opened create-new
    /// before any browser work) rather than standard output.
    pub to_file: bool,
    /// The stage whose work runs next, or a terminal state.
    pub state: ExportState,
}

impl PdfExporter {
    /// An export about to render, targeting a file or standard output.
    pub fn new(to_file: bool) -> (e: PdfExporter)
        ensures
            e.to_file == to_file,
            e.state == ExportState::Rendering,
    {
        PdfExporter { to_file, state: ExportState::Rendering }
    }

    /// Records the outcome of the current stage's work and moves to the next
    /// stage, or to the current stage's failure.
    pub fn advance(&mut self, ok: bool)
        ensures
            final(self).to_file == old(self).to_file,
            final(self).state == step_spec(old(self).state, old(self).to_file, ok),
    {
        let next = match self.state {
            ExportState::Rendering => if ok {
                ExportState::WritingTemp
            } else {
                ExportState::Failed(ExportError::Render)
            },
            ExportState::WritingTemp => if !ok {
                ExportState::Failed(ExportError::TempIo)
            } else if self.to_file {
                ExportState::OpeningTarget
            } else {
                ExportState::FindingBrowser
            },
            ExportState::OpeningTarget => if ok {
                ExportState::FindingBrowser
            } else {
                ExportState::Failed(ExportError::TargetUnavailable)
            },
            ExportState::FindingBrowser => if ok {
                ExportState::Loading
            } else {
                ExportState::Failed(ExportError::BrowserNotFound)
            },
            ExportState::Loading => if ok {
                ExportState::Printing
            } else {
                ExportState::Failed(ExportError::Navigation)
            },
            ExportState::Printing => if ok {
                ExportState::Writing
            } else {
                ExportState::Failed(ExportError::Print)
            },
            ExportState::Writing => if ok {
                ExportState::Done
            } else {
                ExportState::Failed(ExportError::OutputIo)
            },
            ExportState::Done => ExportState::Done,
            ExportState::Failed(e) => ExportState::Failed(e),
        };
        self.state = next;
    }

    /// Whether the export is over, successfully or not.
    pub fn finished(&self) -> (r: bool)
        ensures
            r == (self.state is Done || self.state is Failed),
    {
        match self.state {
            ExportState::Done => true,
            ExportState::Failed(_) => true,
            _ => false,
        }
    }
}

} // verus!
