//! Output-target resolution: given a three-state output hint, a target
//! extension and an optional source path, decide where a generated artifact
//! belongs.
//!
//! Resolution is computed in stages so that every decision is a pure function
//! of its inputs. The only facts the algorithm needs from the outside world
//! are whether an explicit path names an existing directory, and the canonical
//! form of a directory that must already exist; callers supply both, and the
//! resolver never creates a directory itself.

use vstd::prelude::*;
use vstd::string::*;

use crate::paths::{
    ext_seq, file_name_of, is_usable_name, join, join_seq, name_seq, parent_of, parent_seq,
    with_ext_seq, with_extension,
};

verus! {

/// How the caller asked for output: not at all (stream to standard output),
/// requested without a path (place the artifact beside its source), or with an
/// explicit path that may name a directory or a file.
pub enum OutputHint {
    Absent,
    Implicit,
    Explicit(String),
}

/// Where an artifact goes: standard output, or a file whose parent directory
/// existed at resolution time. The file itself must be opened with
/// create-new-only semantics, so a target that already exists fails at open
/// time rather than being overwritten.
#[derive(Debug, PartialEq, Eq)]
pub enum ResolvedTarget {
    Stream,
    File(String),
}

/// Why resolution failed.
#[derive(Debug, PartialEq, Eq)]
pub enum PathError {
    /// An output placed relative to the source was requested, but there is no
    /// source path to place it against.
    MissingSourceForImplicitOutput,
    /// The path that should contribute a file name has no usable final
    /// segment.
    MissingFilename,
    /// The directory the target should live in does not exist.
    ParentNotFound,
    /// An explicit file name does not carry the required extension.
    ExtensionMismatch,
}

/// The first stage's outcome: either the target is already decided, or an
/// explicit path must be checked against the filesystem for being an existing
/// directory.
pub enum Resolution {
    Done(ResolvedTarget),
    NeedsDirProbe(String),
}

/// A target of the form `canonical(dir)/filename`: the caller canonicalizes
/// `dir` (which is never created) and hands the result to `resolve_finish`.
pub struct CanonRequest {
    pub dir: String,
    pub filename: String,
}

/// The destination an implicit hint resolves to: the source's parent
/// directory, joined with the source's file name carrying the new extension.
pub open spec fn implicit_dest(ext: Seq<char>, src: Seq<char>) -> Seq<char> {
    join_seq(parent_seq(src), with_ext_seq(name_seq(src), ext))
}

/// First resolution stage: decide the target outright for an absent or
/// implicit hint, and ask for a directory probe on an explicit one.
pub fn resolve_start(ext: &str, hint: &OutputHint, source: Option<&str>) -> (r: Result<
    Resolution,
    PathError,
>)
    ensures
        match hint {
            OutputHint::Absent => r is Ok && r.unwrap() is Done && r.unwrap()->Done_0
                == ResolvedTarget::Stream,
            OutputHint::Implicit => match source {
                None => r == Err::<Resolution, PathError>(
                    PathError::MissingSourceForImplicitOutput,
                ),
                Some(src) => {
                    if is_usable_name(name_seq(src@)) {
                        &&& r is Ok
                        &&& r.unwrap() is Done
                        &&& r.unwrap()->Done_0 is File
                        &&& r.unwrap()->Done_0->File_0@ == implicit_dest(ext@, src@)
                    } else {
                        r == Err::<Resolution, PathError>(PathError::MissingFilename)
                    }
                },
            },
            OutputHint::Explicit(p) => r is Ok && r.unwrap() is NeedsDirProbe
                && r.unwrap()->NeedsDirProbe_0@ == p@,
        },
{
    match hint {
        OutputHint::Absent => Ok(Resolution::Done(ResolvedTarget::Stream)),
        OutputHint::Implicit => match source {
            None => Err(PathError::MissingSourceForImplicitOutput),
            Some(src) => match file_name_of(src) {
                None => Err(PathError::MissingFilename),
                Some(name) => {
                    let dir = parent_of(src);
                    let filename = with_extension(name.as_str(), ext);
                    Ok(Resolution::Done(ResolvedTarget::File(join(dir.as_str(), filename.as_str()))))
                },
            },
        },
        OutputHint::Explicit(p) => Ok(Resolution::NeedsDirProbe(p.clone())),
    }
}

/// Second stage for an explicit hint, after the filesystem said whether the
/// path names an existing directory. A directory takes the file name from the
/// source (with the extension swapped in); anything else is treated as a file
/// path whose final segment must already carry the required extension. The
/// directory part of the result must then be canonicalized by the caller.
pub fn resolve_explicit(
    ext: &str,
    path: &str,
    source: Option<&str>,
    path_is_dir: bool,
) -> (r: Result<CanonRequest, PathError>)
    ensures
        path_is_dir ==> match source {
            None => r == Err::<CanonRequest, PathError>(
                PathError::MissingSourceForImplicitOutput,
            ),
            Some(src) => {
                if is_usable_name(name_seq(src@)) {
                    &&& r is Ok
                    &&& r.unwrap().dir@ == path@
                    &&& r.unwrap().filename@ == with_ext_seq(name_seq(src@), ext@)
                } else {
                    r == Err::<CanonRequest, PathError>(PathError::MissingFilename)
                }
            },
        },
        !path_is_dir ==> {
            if !is_usable_name(name_seq(path@)) {
                r == Err::<CanonRequest, PathError>(PathError::MissingFilename)
            } else if ext_seq(name_seq(path@)) != Some(ext@) {
                r == Err::<CanonRequest, PathError>(PathError::ExtensionMismatch)
            } else {
                &&& r is Ok
                &&& (if parent_seq(path@).len() == 0 {
                    r.unwrap().dir@ == seq!['.']
                } else {
                    r.unwrap().dir@ == parent_seq(path@)
                })
                &&& r.unwrap().filename@ == name_seq(path@)
            }
        },
{
    if path_is_dir {
        match source {
            None => Err(PathError::MissingSourceForImplicitOutput),
            Some(src) => match file_name_of(src) {
                None => Err(PathError::MissingFilename),
                Some(name) => Ok(
                    CanonRequest {
                        dir: String::from_str(path),
                        filename: with_extension(name.as_str(), ext),
                    },
                ),
            },
        }
    } else {
        match file_name_of(path) {
            None => Err(PathError::MissingFilename),
            Some(name) => {
                let matches_ext = match crate::paths::extension_of(name.as_str()) {
                    Some(e) => crate::strutil::str_eq(e.as_str(), ext),
                    None => false,
                };
                if !matches_ext {
                    return Err(PathError::ExtensionMismatch);
                }
                let dir = parent_of(path);
                if dir.as_str().unicode_len() == 0 {
                    proof {
                        reveal_strlit(".");
                    }
                    Ok(CanonRequest { dir: String::from_str("."), filename: name })
                } else {
                    Ok(CanonRequest { dir, filename: name })
                }
            },
        }
    }
}

/// Final stage: the canonical form of the request's directory, or nothing when
/// canonicalization failed because the directory does not exist.
pub fn resolve_finish(canon_dir: Option<&str>, req: &CanonRequest) -> (r: Result<
    ResolvedTarget,
    PathError,
>)
    ensures
        match canon_dir {
            None => r == Err::<ResolvedTarget, PathError>(PathError::ParentNotFound),
            Some(c) => r is Ok && r.unwrap() is File && r.unwrap()->File_0@ == join_seq(
                c@,
                req.filename@,
            ),
        },
{
    match canon_dir {
        None => Err(PathError::ParentNotFound),
        Some(c) => Ok(ResolvedTarget::File(join(c, req.filename.as_str()))),
    }
}

} // verus!
