//! Output-target resolution scenarios and path-model edge cases.

use jot::paths::{extension_of, file_name_of, has_extension, is_markdown_file, join, parent_of, with_extension};
use jot::resolve::{
    resolve_explicit, resolve_finish, resolve_start, OutputHint, PathError, Resolution,
    ResolvedTarget,
};

fn implicit_file(ext: &str, source: &str) -> String {
    match resolve_start(ext, &OutputHint::Implicit, Some(source)) {
        Ok(Resolution::Done(ResolvedTarget::File(p))) => p,
        other => panic!("expected a file target, got {:?}", other.map(|_| ())),
    }
}

#[test]
fn implicit_hint_places_output_beside_source() {
    assert_eq!(implicit_file("html", "dir/foo.md"), "dir/foo.html");
}

#[test]
fn implicit_hint_keeps_deep_directories() {
    assert_eq!(implicit_file("pdf", "/a/b/c/note.md"), "/a/b/c/note.pdf");
}

#[test]
fn implicit_hint_with_bare_filename_stays_bare() {
    assert_eq!(implicit_file("html", "foo.md"), "foo.html");
}

#[test]
fn implicit_hint_without_source_is_rejected() {
    match resolve_start("html", &OutputHint::Implicit, None) {
        Err(PathError::MissingSourceForImplicitOutput) => {}
        _ => panic!("expected MissingSourceForImplicitOutput"),
    }
}

#[test]
fn absent_hint_streams() {
    match resolve_start("html", &OutputHint::Absent, Some("dir/foo.md")) {
        Ok(Resolution::Done(ResolvedTarget::Stream)) => {}
        _ => panic!("expected a stream target"),
    }
}

#[test]
fn explicit_hint_asks_for_a_probe() {
    match resolve_start("html", &OutputHint::Explicit(String::from("out")), Some("a/foo.md")) {
        Ok(Resolution::NeedsDirProbe(p)) => assert_eq!(p, "out"),
        _ => panic!("expected a probe request"),
    }
}

#[test]
fn explicit_directory_takes_name_from_source() {
    // the hint named an existing directory `out/`; the filesystem reported it
    // as such and canonicalized it
    let req = resolve_explicit("pdf", "out", Some("a/foo.md"), true).unwrap();
    assert_eq!(req.dir, "out");
    assert_eq!(req.filename, "foo.pdf");
    match resolve_finish(Some("/abs/out"), &req) {
        Ok(ResolvedTarget::File(p)) => assert_eq!(p, "/abs/out/foo.pdf"),
        _ => panic!("expected a file target"),
    }
}

#[test]
fn explicit_directory_without_source_is_rejected() {
    match resolve_explicit("pdf", "out", None, true) {
        Err(PathError::MissingSourceForImplicitOutput) => {}
        _ => panic!("expected MissingSourceForImplicitOutput"),
    }
}

#[test]
fn explicit_file_with_matching_extension_succeeds() {
    let req = resolve_explicit("html", "report.html", Some("a/foo.md"), false).unwrap();
    assert_eq!(req.dir, ".");
    assert_eq!(req.filename, "report.html");
    match resolve_finish(Some("/cwd"), &req) {
        Ok(ResolvedTarget::File(p)) => assert_eq!(p, "/cwd/report.html"),
        _ => panic!("expected a file target"),
    }
}

#[test]
fn explicit_file_with_wrong_extension_is_rejected() {
    match resolve_explicit("html", "report.txt", Some("a/foo.md"), false) {
        Err(PathError::ExtensionMismatch) => {}
        _ => panic!("expected ExtensionMismatch"),
    }
}

#[test]
fn explicit_file_keeps_its_parent() {
    let req = resolve_explicit("pdf", "build/output/report.pdf", None, false).unwrap();
    assert_eq!(req.dir, "build/output");
    assert_eq!(req.filename, "report.pdf");
}

#[test]
fn explicit_file_without_filename_is_rejected() {
    match resolve_explicit("pdf", "build/", None, false) {
        Err(PathError::MissingFilename) => {}
        _ => panic!("expected MissingFilename"),
    }
    match resolve_explicit("pdf", "..", None, false) {
        Err(PathError::MissingFilename) => {}
        _ => panic!("expected MissingFilename"),
    }
}

#[test]
fn missing_parent_fails_resolution() {
    let req = resolve_explicit("pdf", "nosuch/report.pdf", None, false).unwrap();
    match resolve_finish(None, &req) {
        Err(PathError::ParentNotFound) => {}
        _ => panic!("expected ParentNotFound"),
    }
}

#[test]
fn file_name_recognizes_unusable_segments() {
    assert_eq!(file_name_of("a/b.md"), Some(String::from("b.md")));
    assert_eq!(file_name_of("b.md"), Some(String::from("b.md")));
    assert_eq!(file_name_of("a/"), None);
    assert_eq!(file_name_of("."), None);
    assert_eq!(file_name_of(".."), None);
    assert_eq!(file_name_of(""), None);
}

#[test]
fn parent_of_handles_roots_and_bare_names() {
    assert_eq!(parent_of("a/b/c.md"), "a/b");
    assert_eq!(parent_of("/c.md"), "/");
    assert_eq!(parent_of("c.md"), "");
}

#[test]
fn extension_of_follows_the_last_dot() {
    assert_eq!(extension_of("a.md"), Some(String::from("md")));
    assert_eq!(extension_of("a.b.c"), Some(String::from("c")));
    assert_eq!(extension_of("a."), Some(String::from("")));
    assert_eq!(extension_of("noext"), None);
    assert_eq!(extension_of(".hidden"), None);
}

#[test]
fn with_extension_replaces_or_adds() {
    assert_eq!(with_extension("foo.md", "html"), "foo.html");
    assert_eq!(with_extension("foo", "html"), "foo.html");
    assert_eq!(with_extension("a.b.c", "pdf"), "a.b.pdf");
}

#[test]
fn join_inserts_one_separator() {
    assert_eq!(join("a", "b"), "a/b");
    assert_eq!(join("a/", "b"), "a/b");
    assert_eq!(join("", "b"), "b");
}

#[test]
fn markdown_extension_gate_is_exact() {
    assert!(is_markdown_file("note.md"));
    assert!(is_markdown_file("/a/b/note.md"));
    assert!(!is_markdown_file("note.MD"));
    assert!(!is_markdown_file("note.markdown"));
    assert!(!is_markdown_file("note"));
    assert!(has_extension("report.html", "html"));
    assert!(!has_extension("report.txt", "html"));
}

#[test]
fn implicit_hint_adds_extension_to_bare_stems() {
    assert_eq!(implicit_file("html", "dir/foo"), "dir/foo.html");
    assert_eq!(implicit_file("html", "dir/a.b.md"), "dir/a.b.html");
}

#[test]
fn hidden_files_have_no_extension_to_match() {
    match resolve_explicit("html", ".hidden", None, false) {
        Err(PathError::ExtensionMismatch) => {}
        _ => panic!("expected ExtensionMismatch"),
    }
    assert_eq!(with_extension(".hidden", "html"), ".hidden.html");
}

#[test]
fn unicode_paths_keep_their_characters() {
    assert_eq!(implicit_file("html", "notes/naïve.md"), "notes/naïve.html");
    assert_eq!(file_name_of("notes/naïve.md"), Some(String::from("naïve.md")));
}
