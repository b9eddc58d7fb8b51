//! PDF export pipeline scenarios: stage ordering, the stream shortcut, and
//! the fail-before-browser guarantees.

use jot::export::{ExportError, ExportState, PdfExporter};

#[test]
fn file_export_walks_all_stages_in_order() {
    let mut e = PdfExporter::new(true);
    let expected = [
        ExportState::Rendering,
        ExportState::WritingTemp,
        ExportState::OpeningTarget,
        ExportState::FindingBrowser,
        ExportState::Loading,
        ExportState::Printing,
        ExportState::Writing,
        ExportState::Done,
    ];
    for (i, want) in expected.iter().enumerate() {
        assert_eq!(e.state, *want);
        assert_eq!(e.finished(), i + 1 == expected.len());
        e.advance(true);
    }
    assert_eq!(e.state, ExportState::Done);
}

#[test]
fn stream_export_skips_the_target_stage() {
    let mut e = PdfExporter::new(false);
    e.advance(true);
    assert_eq!(e.state, ExportState::WritingTemp);
    e.advance(true);
    assert_eq!(e.state, ExportState::FindingBrowser);
}

#[test]
fn existing_target_fails_before_any_browser_work() {
    let mut e = PdfExporter::new(true);
    e.advance(true); // rendered
    e.advance(true); // temp file written
    assert_eq!(e.state, ExportState::OpeningTarget);
    e.advance(false); // create-new open failed: the target already exists
    assert_eq!(e.state, ExportState::Failed(ExportError::TargetUnavailable));
    assert!(e.finished());
    // whatever is reported afterwards, the failure is absorbing: the browser
    // stages stay unreachable and no second error appears
    e.advance(true);
    e.advance(false);
    assert_eq!(e.state, ExportState::Failed(ExportError::TargetUnavailable));
}

#[test]
fn render_failure_never_starts_the_browser() {
    let mut e = PdfExporter::new(true);
    e.advance(false);
    assert_eq!(e.state, ExportState::Failed(ExportError::Render));
    e.advance(true);
    assert_eq!(e.state, ExportState::Failed(ExportError::Render));
}

#[test]
fn each_stage_reports_its_own_error() {
    let cases = [
        (0, ExportError::Render),
        (1, ExportError::TempIo),
        (2, ExportError::TargetUnavailable),
        (3, ExportError::BrowserNotFound),
        (4, ExportError::Navigation),
        (5, ExportError::Print),
        (6, ExportError::OutputIo),
    ];
    for (successes, err) in cases {
        let mut e = PdfExporter::new(true);
        for _ in 0..successes {
            e.advance(true);
        }
        e.advance(false);
        assert_eq!(e.state, ExportState::Failed(err));
    }
}

#[test]
fn missing_browser_is_a_distinct_error() {
    let mut e = PdfExporter::new(false);
    e.advance(true);
    e.advance(true);
    assert_eq!(e.state, ExportState::FindingBrowser);
    e.advance(false);
    assert_eq!(e.state, ExportState::Failed(ExportError::BrowserNotFound));
}
