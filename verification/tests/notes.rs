//! Note creation scenarios: front-matter text, the heading rule, the storage
//! layout, timestamp formatting, configuration defaulting, and error
//! messages.

use jot::config::{extract_settings, Config, Settings, TomlItem};
use jot::error::Error;
use jot::note::{format_compact, format_iso, format_year_month, note_text, plan_note, Timestamp};
use jot::strutil::trim_blanks;

fn ts() -> Timestamp {
    Timestamp { year: 2024, month: 3, day: 5, hour: 9, minute: 15, second: 1, offset_minutes: 0 }
}

#[test]
fn iso_format_is_exact() {
    assert_eq!(format_iso(&ts()), "2024-03-05T09:15:01+00:00");
    let mut t = ts();
    t.offset_minutes = 330;
    assert_eq!(format_iso(&t), "2024-03-05T09:15:01+05:30");
    t.offset_minutes = -90;
    assert_eq!(format_iso(&t), "2024-03-05T09:15:01-01:30");
}

#[test]
fn compact_and_year_month_formats_are_exact() {
    assert_eq!(format_compact(&ts()), "20240305_091501");
    assert_eq!(format_year_month(&ts()), "2024/03");
}

#[test]
fn plain_body_gets_a_heading() {
    let text = note_text(&ts(), "jot 0.1.0", "hello");
    assert_eq!(
        text,
        "---\ntimestamp: 2024-03-05T09:15:01+00:00\ngenerated-by: jot 0.1.0\n---\n\n# hello\n"
    );
    let first_body_line = text.split("\n\n").nth(1).unwrap().lines().next().unwrap();
    assert_eq!(first_body_line, "# hello");
}

#[test]
fn existing_heading_is_preserved() {
    let text = note_text(&ts(), "jot 0.1.0", "# Already a heading");
    assert!(text.ends_with("\n\n# Already a heading\n"));
    assert!(!text.contains("# # Already"));
}

#[test]
fn body_is_trimmed_before_the_heading_rule() {
    let text = note_text(&ts(), "jot 0.1.0", "  spaced out \n");
    assert!(text.ends_with("\n\n# spaced out\n"));
}

#[test]
fn empty_body_stays_empty() {
    let text = note_text(&ts(), "jot 0.1.0", "");
    assert!(text.ends_with("---\n\n\n"));
    assert!(!text.contains("# "));
}

#[test]
fn suppressed_editing_without_text_aborts() {
    assert!(plan_note(None, true, false, "/notes/atoms", &ts(), "jot 0.1.0").is_none());
}

#[test]
fn force_overrides_the_abort() {
    let plan = plan_note(None, true, true, "/notes/atoms", &ts(), "jot 0.1.0").unwrap();
    assert_eq!(plan.dir, "/notes/atoms/2024/03");
    assert_eq!(plan.path, "/notes/atoms/2024/03/20240305_091501.md");
}

#[test]
fn plan_lays_out_year_month_and_timestamped_name() {
    let body = String::from("hello");
    let plan = plan_note(Some(&body), false, false, "/n/atoms", &ts(), "jot 0.1.0").unwrap();
    assert_eq!(plan.dir, "/n/atoms/2024/03");
    assert_eq!(plan.path, "/n/atoms/2024/03/20240305_091501.md");
    assert!(plan.content.contains("# hello\n"));
}

#[test]
fn trim_removes_blanks_on_both_sides() {
    assert_eq!(trim_blanks("  a b \t\n"), "a b");
    assert_eq!(trim_blanks("\r\n\t "), "");
    assert_eq!(trim_blanks("x"), "x");
}

#[test]
fn settings_fall_back_when_entries_are_missing() {
    let s = extract_settings(None, None, None, String::from("vim")).unwrap();
    assert_eq!(s.editor, "vim");
    assert!(!s.jump);
    assert_eq!(s.root, "~/notes");
}

#[test]
fn settings_take_well_typed_entries() {
    let s = extract_settings(
        Some(TomlItem::Str(String::from("hx"))),
        Some(TomlItem::Bool(true)),
        Some(TomlItem::Str(String::from("/srv/notes"))),
        String::from("vim"),
    )
    .unwrap();
    assert_eq!(s.editor, "hx");
    assert!(s.jump);
    assert_eq!(s.root, "/srv/notes");
}

#[test]
fn wrongly_typed_entries_fail_parsing() {
    for r in [
        extract_settings(Some(TomlItem::Bool(true)), None, None, String::from("vim")),
        extract_settings(None, Some(TomlItem::Str(String::from("yes"))), None, String::from("vim")),
        extract_settings(None, None, Some(TomlItem::Other), String::from("vim")),
    ] {
        match r {
            Err(Error::TomlParse) => {}
            _ => panic!("expected TomlParse"),
        }
    }
}

#[test]
fn config_assembles_with_subdir_default() {
    let s = Settings { editor: String::from("vim"), jump: false, root: String::from("/r") };
    let c = Config::assemble(s, None, None);
    assert_eq!(c.base_dir(), "/r/atoms");
    let s2 = Settings { editor: String::from("vim"), jump: false, root: String::from("/r") };
    let c2 = Config::assemble(s2, Some(String::from("inbox")), Some(String::from("/r/jot.css")));
    assert_eq!(c2.base_dir(), "/r/inbox");
    assert_eq!(c2.css.as_deref(), Some("/r/jot.css"));
}

#[test]
fn default_config_is_jump_on_atoms_no_css() {
    let c = Config::default_config(String::from("vim"), String::from("/home/u/notes"));
    assert!(c.jump);
    assert!(c.css.is_none());
    assert_eq!(c.base_dir(), "/home/u/notes/atoms");
}

#[test]
fn error_messages_match_their_variants() {
    assert_eq!(
        Error::IO(String::from("boom")).message(),
        "An IO error occured: boom\n"
    );
    assert_eq!(
        Error::TomlParse.message(),
        "Unable to correctly parse the configuration file.\n"
    );
    assert_eq!(
        Error::EditorNotFound.message(),
        "Could not located the target editor in config or as the $EDITOR env var\n"
    );
}
