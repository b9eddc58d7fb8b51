//! Top-level error type for configuration loading and note creation, with its
//! user-facing messages.

use vstd::prelude::*;
use vstd::string::*;

verus! {

/// What can go wrong outside of path resolution and rendering: an I/O failure
/// (carrying its description), a missing editor, or an unusable configuration
/// file.
#[derive(Debug)]
#[non_exhaustive]
pub enum Error {
    IO(String),
    EditorNotFound,
    TomlParse,
}

impl Error {
    /// The user-facing message of each variant.
    pub fn message(&self) -> (r: String)
        ensures
            match self {
                Error::IO(d) => r@ == "An IO error occured: "@ + d@ + "\n"@,
                Error::TomlParse => r@ == "Unable to correctly parse the configuration file.\n"@,
                Error::EditorNotFound => r@
                    == "Could not located the target editor in config or as the $EDITOR env var\n"@,
            },
    {
        match self {
            Error::IO(d) => {
                let mut out = String::from_str("An IO error occured: ");
                out.append(d.as_str());
                out.append("\n");
                out
            },
            Error::TomlParse => String::from_str(
                "Unable to correctly parse the configuration file.\n",
            ),
            Error::EditorNotFound => String::from_str(
                "Could not located the target editor in config or as the $EDITOR env var\n",
            ),
        }
    }
}

} // verus!
