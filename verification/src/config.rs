//! Configuration: the editor to launch, the jump-to-end behaviour, the notes
//! root and subdirectory, and an optional stylesheet path.
//!
//! Reading the configuration file, resolving `~` and probing for a stylesheet
//! are the caller's business; this module decides what the settings mean. The
//! raw file entries arrive as typed items, and each setting falls back exactly
//! as documented: a missing editor falls back to the caller-supplied default,
//! a missing jump flag to off, a missing root to `~/notes`, and an entry of
//! the wrong type makes the whole file unusable.

use vstd::prelude::*;
use vstd::string::*;

use crate::error::Error;
use crate::paths::{join, join_seq};

verus! {

/// A typed configuration file entry: a string, a boolean, or a value of some
/// other shape (which no setting accepts).
pub enum TomlItem {
    Str(String),
    Bool(bool),
    Other,
}

/// Whether an optional entry can serve as a string setting.
pub open spec fn wants_string(e: Option<TomlItem>) -> bool {
    match e {
        None => true,
        Some(i) => i is Str,
    }
}

/// Whether an optional entry can serve as a boolean setting.
pub open spec fn wants_bool(e: Option<TomlItem>) -> bool {
    match e {
        None => true,
        Some(i) => i is Bool,
    }
}

/// The string value of an entry, or the default when it is missing.
pub open spec fn string_or(e: Option<TomlItem>, d: Seq<char>) -> Seq<char> {
    match e {
        Some(TomlItem::Str(s)) => s@,
        _ => d,
    }
}

/// The boolean value of an entry, or the default when it is missing.
pub open spec fn bool_or(e: Option<TomlItem>, d: bool) -> bool {
    match e {
        Some(TomlItem::Bool(b)) => b,
        _ => d,
    }
}

/// The settings a configuration file contributes: the editor command, the
/// jump flag, and the (still unresolved) notes root.
pub struct Settings {
    pub editor: String,
    pub jump: bool,
    pub root: String,
}

/// Decides the settings from the file's `editor`, `jump` and `root` entries.
/// An entry of the wrong type fails with a parse error; a missing editor falls
/// back to `fallback_editor`, a missing jump flag to off, and a missing root
/// to `~/notes`.
pub fn extract_settings(
    editor: Option<TomlItem>,
    jump: Option<TomlItem>,
    root: Option<TomlItem>,
    fallback_editor: String,
) -> (r: Result<Settings, Error>)
    ensures
        match r {
            Ok(s) => {
                &&& wants_string(editor)
                &&& wants_bool(jump)
                &&& wants_string(root)
                &&& s.editor@ == string_or(editor, fallback_editor@)
                &&& s.jump == bool_or(jump, false)
                &&& s.root@ == string_or(root, "~/notes"@)
            },
            Err(e) => e is TomlParse && !(wants_string(editor) && wants_bool(jump) && wants_string(
                root,
            )),
        },
{
    let editor = match editor {
        Some(TomlItem::Str(s)) => s,
        Some(_) => {
            return Err(Error::TomlParse);
        },
        None => fallback_editor,
    };
    let jump = match jump {
        Some(TomlItem::Bool(b)) => b,
        Some(_) => {
            return Err(Error::TomlParse);
        },
        None => false,
    };
    let root = match root {
        Some(TomlItem::Str(s)) => s,
        Some(_) => {
            return Err(Error::TomlParse);
        },
        None => String::from_str("~/notes"),
    };
    Ok(Settings { editor, jump, root })
}

/// Configuration reader.
pub struct Config {
    /// The editor to use. Required even when editing is suppressed.
    pub editor: String,
    /// Attempt to jump to the last line of the file to edit.
    pub jump: bool,
    /// The root path of the notes directory.
    pub root: String,
    /// The location inside the root to store notes.
    pub subdir: String,
    /// The path of the stylesheet to inject when rendering HTML.
    pub css: Option<String>,
}

impl Config {
    /// Assembles a configuration from extracted settings, the optional
    /// subdirectory override, and the stylesheet path the caller found (the
    /// caller resolves `~` in the root and probes for the stylesheet).
    pub fn assemble(
        settings: Settings,
        subdir: Option<String>,
        css: Option<String>,
    ) -> (c: Config)
        ensures
            c.editor@ == settings.editor@,
            c.jump == settings.jump,
            c.root@ == settings.root@,
            c.subdir@ == (match subdir {
                Some(s) => s@,
                None => "atoms"@,
            }),
            c.css == css,
    {
        let subdir = match subdir {
            Some(s) => s,
            None => String::from_str("atoms"),
        };
        Config { editor: settings.editor, jump: settings.jump, root: settings.root, subdir, css }
    }

    /// The configuration used when no configuration file exists: jump on, the
    /// default subdirectory, no stylesheet. The caller supplies the editor it
    /// fell back to and the resolved default root.
    pub fn default_config(editor: String, root: String) -> (c: Config)
        ensures
            c.editor@ == editor@,
            c.jump == true,
            c.root@ == root@,
            c.subdir@ == "atoms"@,
            c.css is None,
    {
        Config { editor, jump: true, root, subdir: String::from_str("atoms"), css: None }
    }

    /// The directory notes are stored under: the root joined with the
    /// subdirectory.
    pub fn base_dir(&self) -> (r: String)
        ensures
            r@ == join_seq(self.root@, self.subdir@),
    {
        join(self.root.as_str(), self.subdir.as_str())
    }
}

} // verus!
