//! A character-level model of slash-separated paths: the final name segment,
//! the parent prefix, the extension and stem of a file name, and joining.
//!
//! A path is a string whose segments are separated by `/`. The name of a path
//! is the text after its last separator (the whole path when it has none); it
//! is considered missing when that text is empty, `.` or `..`. The parent is
//! the text before the last separator, `/` itself when the separator is the
//! first character, and empty when there is no separator at all.

use vstd::prelude::*;
use vstd::string::*;

verus! {

/// The text after the last `/` of `s` (all of `s` when it has none).
pub open spec fn name_seq(s: Seq<char>) -> Seq<char>
    decreases s.len(),
{
    if s.len() == 0 {
        s
    } else if s.last() == '/' {
        Seq::<char>::empty()
    } else {
        name_seq(s.drop_last()).push(s.last())
    }
}

/// The text before the last `/` of `s`: `/` itself when the last separator is
/// the first character, and empty when `s` has no separator.
pub open spec fn parent_seq(s: Seq<char>) -> Seq<char>
    decreases s.len(),
{
    if s.len() == 0 {
        s
    } else if s.last() == '/' {
        if s.len() == 1 {
            s
        } else {
            s.drop_last()
        }
    } else {
        parent_seq(s.drop_last())
    }
}

/// A name segment counts as a usable file name only when it is not empty and
/// is neither of the relative segments `.` and `..`.
pub open spec fn is_usable_name(n: Seq<char>) -> bool {
    n.len() > 0 && n != seq!['.'] && n != seq!['.', '.']
}

/// The extension of a file name: the text after its last `.`, provided that
/// dot is not the first character (so `.hidden` has none), or nothing when the
/// name has no dot at all.
pub open spec fn ext_seq(n: Seq<char>) -> Option<Seq<char>>
    decreases n.len(),
{
    if n.len() == 0 {
        None
    } else if n.last() == '.' {
        if n.len() == 1 {
            None
        } else {
            Some(Seq::<char>::empty())
        }
    } else {
        match ext_seq(n.drop_last()) {
            Some(e) => Some(e.push(n.last())),
            None => None,
        }
    }
}

/// The stem of a file name: the name without its extension and the dot before
/// it, or the whole name when it has no extension.
pub open spec fn stem_seq(n: Seq<char>) -> Seq<char> {
    match ext_seq(n) {
        None => n,
        Some(e) => n.subrange(0, n.len() - e.len() - 1),
    }
}

/// The name with its extension replaced (or added): stem, dot, new extension.
pub open spec fn with_ext_seq(n: Seq<char>, ext: Seq<char>) -> Seq<char> {
    stem_seq(n).push('.') + ext
}

/// Joining a directory prefix and a name: a `/` is inserted unless the prefix
/// is empty or already ends with one.
pub open spec fn join_seq(dir: Seq<char>, n: Seq<char>) -> Seq<char> {
    if dir.len() == 0 {
        n
    } else if dir.last() == '/' {
        dir + n
    } else {
        dir.push('/') + n
    }
}

proof fn lemma_name_range(s: Seq<char>, i: int)
    requires
        0 <= i <= s.len(),
        forall|k: int| i <= k < s.len() ==> s[k] != '/',
        i > 0 ==> s[i - 1] == '/',
    ensures
        name_seq(s) == s.subrange(i, s.len() as int),
    decreases s.len(),
{
    if i == s.len() {
        if s.len() == 0 {
            assert(name_seq(s) =~= s.subrange(i, s.len() as int));
        } else {
            assert(s.last() == '/');
            assert(name_seq(s) =~= s.subrange(i, s.len() as int));
        }
    } else {
        assert(s.last() != '/');
        let t = s.drop_last();
        lemma_name_range(t, i);
        assert(name_seq(s) == name_seq(t).push(s.last()));
        assert(t.subrange(i, t.len() as int).push(s.last()) =~= s.subrange(i, s.len() as int));
    }
}

proof fn lemma_parent_range(s: Seq<char>, i: int)
    requires
        0 <= i <= s.len(),
        forall|k: int| i <= k < s.len() ==> s[k] != '/',
        i > 0 ==> s[i - 1] == '/',
    ensures
        i == 0 ==> parent_seq(s) == Seq::<char>::empty(),
        i == 1 ==> parent_seq(s) == seq!['/'],
        i > 1 ==> parent_seq(s) == s.subrange(0, i - 1),
    decreases s.len(),
{
    if i == s.len() {
        if i == 0 {
            assert(parent_seq(s) =~= Seq::<char>::empty());
        } else {
            assert(s.last() == '/');
            if i == 1 {
                assert(parent_seq(s) =~= seq!['/']);
            } else {
                assert(parent_seq(s) =~= s.subrange(0, i - 1));
            }
        }
    } else {
        assert(s.last() != '/');
        let t = s.drop_last();
        lemma_parent_range(t, i);
        if i > 1 {
            assert(t.subrange(0, i - 1) =~= s.subrange(0, i - 1));
        }
    }
}

/// The index where the name segment of `s` starts: zero when `s` has no
/// separator, one past the last separator otherwise.
fn name_start(s: &str) -> (i: usize)
    ensures
        i <= s@.len(),
        forall|k: int| i <= k < s@.len() ==> s@[k] != '/',
        i > 0 ==> s@[i - 1] == '/',
        name_seq(s@) == s@.subrange(i as int, s@.len() as int),
        i == 0 ==> parent_seq(s@) == Seq::<char>::empty(),
        i == 1 ==> parent_seq(s@) == seq!['/'],
        i > 1 ==> parent_seq(s@) == s@.subrange(0, i - 1),
{
    let n = s.unicode_len();
    let mut i: usize = n;
    while i > 0 && s.get_char(i - 1) != '/'
        invariant
            n == s@.len(),
            i <= n,
            forall|k: int| i <= k < n ==> s@[k] != '/',
        decreases i,
    {
        i -= 1;
    }
    proof {
        lemma_name_range(s@, i as int);
        lemma_parent_range(s@, i as int);
    }
    i
}

/// The name segment of `path`, or nothing when it is empty, `.` or `..`.
pub fn file_name_of(path: &str) -> (r: Option<String>)
    ensures
        match r {
            Some(n) => is_usable_name(name_seq(path@)) && n@ == name_seq(path@),
            None => !is_usable_name(name_seq(path@)),
        },
{
    let n = s_len(path);
    let i = name_start(path);
    let seg = path.substring_char(i, n);
    if seg.unicode_len() == 0 {
        return None;
    }
    if crate::strutil::str_eq(seg, ".") {
        proof {
            reveal_strlit(".");
            assert(name_seq(path@) =~= seq!['.']);
        }
        return None;
    }
    if crate::strutil::str_eq(seg, "..") {
        proof {
            reveal_strlit("..");
            assert(name_seq(path@) =~= seq!['.', '.']);
        }
        return None;
    }
    proof {
        reveal_strlit(".");
        reveal_strlit("..");
        if name_seq(path@) == seq!['.'] {
            assert(seg@ =~= "."@);
        }
        if name_seq(path@) == seq!['.', '.'] {
            assert(seg@ =~= ".."@);
        }
    }
    Some(String::from_str(seg))
}

/// The parent prefix of `path`, which is empty for a bare name.
pub fn parent_of(path: &str) -> (r: String)
    ensures
        r@ == parent_seq(path@),
{
    let i = name_start(path);
    if i == 0 {
        String::new()
    } else if i == 1 {
        proof {
            reveal_strlit("/");
        }
        String::from_str("/")
    } else {
        String::from_str(path.substring_char(0, i - 1))
    }
}

proof fn lemma_ext_range(n: Seq<char>, d: int)
    requires
        0 <= d < n.len(),
        n[d] == '.',
        forall|k: int| d < k < n.len() ==> n[k] != '.',
    ensures
        d == 0 ==> ext_seq(n) == None::<Seq<char>>,
        d > 0 ==> ext_seq(n) == Some(n.subrange(d + 1, n.len() as int)),
    decreases n.len(),
{
    if d == n.len() - 1 {
        assert(n.last() == '.');
        if d > 0 {
            assert(n.subrange(d + 1, n.len() as int) =~= Seq::<char>::empty());
        }
    } else {
        assert(n.last() != '.');
        let t = n.drop_last();
        lemma_ext_range(t, d);
        if d > 0 {
            assert(t.subrange(d + 1, t.len() as int).push(n.last()) =~= n.subrange(
                d + 1,
                n.len() as int,
            ));
        }
    }
}

proof fn lemma_ext_none(n: Seq<char>)
    requires
        forall|k: int| 0 <= k < n.len() ==> n[k] != '.',
    ensures
        ext_seq(n) == None::<Seq<char>>,
    decreases n.len(),
{
    if n.len() > 0 {
        lemma_ext_none(n.drop_last());
    }
}

/// Where the extension of the name `n` starts, or `n`'s length when it has
/// none; pinned to `ext_seq`/`stem_seq`.
fn ext_start(n: &str) -> (j: usize)
    ensures
        j <= n@.len(),
        match ext_seq(n@) {
            Some(e) => e == n@.subrange(j as int, n@.len() as int) && j >= 2 && n@[j - 1] == '.'
                && stem_seq(n@) == n@.subrange(0, j - 1),
            None => j == n@.len() && stem_seq(n@) == n@,
        },
{
    let len = s_len(n);
    let mut i: usize = len;
    while i > 0 && n.get_char(i - 1) != '.'
        invariant
            len == n@.len(),
            i <= len,
            forall|k: int| i <= k < len ==> n@[k] != '.',
        decreases i,
    {
        i -= 1;
    }
    if i <= 1 {
        proof {
            if i == 0 {
                lemma_ext_none(n@);
            } else {
                lemma_ext_range(n@, 0);
            }
        }
        len
    } else {
        proof {
            lemma_ext_range(n@, i - 1);
            let e = ext_seq(n@).unwrap();
            assert(n@.subrange(0, n@.len() - e.len() - 1) =~= n@.subrange(0, i - 1));
        }
        i
    }
}

/// The extension of the file name `n`, when it has one.
pub fn extension_of(n: &str) -> (r: Option<String>)
    ensures
        match r {
            Some(e) => ext_seq(n@) == Some(e@),
            None => ext_seq(n@) == None::<Seq<char>>,
        },
{
    let len = s_len(n);
    let j = ext_start(n);
    if j == len {
        if len >= 2 && n.get_char(len - 1) == '.' {
            proof {
                lemma_ext_range(n@, len - 1);
                assert(n@.subrange(len as int, len as int) =~= Seq::<char>::empty());
            }
            Some(String::new())
        } else {
            proof {
                if ext_seq(n@) is Some {
                    assert(n@[j - 1] == '.');
                }
            }
            None
        }
    } else {
        Some(String::from_str(n.substring_char(j, len)))
    }
}

/// The name `n` with its extension replaced by `ext` (added when it has none).
pub fn with_extension(n: &str, ext: &str) -> (r: String)
    ensures
        r@ == with_ext_seq(n@, ext@),
{
    let len = s_len(n);
    let j = ext_start(n);
    let stem = if j == len {
        if len >= 2 && n.get_char(len - 1) == '.' {
            proof {
                lemma_ext_range(n@, len - 1);
            }
            n.substring_char(0, len - 1)
        } else {
            proof {
                if ext_seq(n@) is Some {
                    assert(n@[j - 1] == '.');
                }
            }
            n
        }
    } else {
        n.substring_char(0, j - 1)
    };
    let mut out = String::from_str(stem);
    crate::strutil::push_char(&mut out, '.');
    out.append(ext);
    proof {
        assert(out@ =~= with_ext_seq(n@, ext@));
    }
    out
}

/// `dir` and `name` joined with a single separator.
pub fn join(dir: &str, name: &str) -> (r: String)
    ensures
        r@ == join_seq(dir@, name@),
{
    let dlen = dir.unicode_len();
    let mut out = String::from_str(dir);
    if dlen > 0 && dir.get_char(dlen - 1) != '/' {
        crate::strutil::push_char(&mut out, '/');
    }
    out.append(name);
    proof {
        assert(out@ =~= join_seq(dir@, name@));
    }
    out
}

/// Whether the final name segment of `path` carries exactly the extension
/// `ext` (case-sensitive).
pub fn has_extension(path: &str, ext: &str) -> (r: bool)
    ensures
        r == (ext_seq(name_seq(path@)) == Some(ext@)),
{
    let n = s_len(path);
    let i = name_start(path);
    let name = path.substring_char(i, n);
    match extension_of(name) {
        Some(e) => crate::strutil::str_eq(e.as_str(), ext),
        None => false,
    }
}

/// Whether `path` names a markdown file: its extension must be exactly `md`.
pub fn is_markdown_file(path: &str) -> (r: bool)
    ensures
        r == (ext_seq(name_seq(path@)) == Some("md"@)),
{
    has_extension(path, "md")
}

/// The character length of a string slice.
fn s_len(s: &str) -> (n: usize)
    ensures
        n == s@.len(),
{
    s.unicode_len()
}

} // verus!
