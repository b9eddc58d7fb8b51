//! Character-level string helpers shared by the path, rendering and note
//! modules: equality, whitespace trimming, and a primitive for growing a
//! `String` one character at a time.

use vstd::prelude::*;
use vstd::string::*;

verus! {

/// Relies on std's `String::push`: appends the given character to the end of
/// the string.
#[verifier::external_body]
pub(crate) fn push_char(s: &mut String, c: char)
    ensures
        final(s)@ == old(s)@.push(c),
{
    s.push(c);
}

/// Character-for-character equality of two string slices.
pub fn str_eq(a: &str, b: &str) -> (r: bool)
    ensures
        r == (a@ == b@),
{
    let alen = a.unicode_len();
    let blen = b.unicode_len();
    if alen != blen {
        return false;
    }
    let mut i: usize = 0;
    while i < alen
        invariant
            alen == a@.len(),
            blen == b@.len(),
            alen == blen,
            i <= alen,
            forall|k: int| 0 <= k < i ==> a@[k] == b@[k],
        decreases alen - i,
    {
        if a.get_char(i) != b.get_char(i) {
            return false;
        }
        i += 1;
    }
    proof {
        assert(a@ =~= b@);
    }
    true
}

/// The whitespace characters that trimming removes: the ASCII blank, tab,
/// line feed and carriage return.
pub open spec fn is_blank(c: char) -> bool {
    c == ' ' || c == '\t' || c == '\n' || c == '\r'
}

/// `s` without its leading run of blank characters.
pub open spec fn trim_start_seq(s: Seq<char>) -> Seq<char>
    decreases s.len(),
{
    if s.len() == 0 {
        s
    } else if is_blank(s.first()) {
        trim_start_seq(s.drop_first())
    } else {
        s
    }
}

/// `s` without its trailing run of blank characters.
pub open spec fn trim_end_seq(s: Seq<char>) -> Seq<char>
    decreases s.len(),
{
    if s.len() == 0 {
        s
    } else if is_blank(s.last()) {
        trim_end_seq(s.drop_last())
    } else {
        s
    }
}

/// `s` without leading and trailing blanks.
pub open spec fn trim_seq(s: Seq<char>) -> Seq<char> {
    trim_end_seq(trim_start_seq(s))
}

/// Executable check for the blank set of `is_blank`.
fn is_blank_char(c: char) -> (r: bool)
    ensures
        r == is_blank(c),
{
    c == ' ' || c == '\t' || c == '\n' || c == '\r'
}

proof fn lemma_trim_start_range(s: Seq<char>, i: int)
    requires
        0 <= i <= s.len(),
        forall|k: int| 0 <= k < i ==> is_blank(s[k]),
        i < s.len() ==> !is_blank(s[i]),
    ensures
        trim_start_seq(s) == s.subrange(i, s.len() as int),
    decreases i,
{
    if i == 0 {
        if s.len() == 0 {
            assert(trim_start_seq(s) =~= s.subrange(0, s.len() as int));
        } else {
            assert(trim_start_seq(s) =~= s.subrange(0, s.len() as int));
        }
    } else {
        assert(is_blank(s.first()));
        let t = s.drop_first();
        assert(forall|k: int| 0 <= k < i - 1 ==> is_blank(t[k]));
        lemma_trim_start_range(t, i - 1);
        assert(t.subrange(i - 1, t.len() as int) =~= s.subrange(i, s.len() as int));
    }
}

proof fn lemma_trim_end_range(s: Seq<char>, j: int)
    requires
        0 <= j <= s.len(),
        forall|k: int| j <= k < s.len() ==> is_blank(s[k]),
        j > 0 ==> !is_blank(s[j - 1]),
    ensures
        trim_end_seq(s) == s.subrange(0, j),
    decreases s.len() - j,
{
    if j == s.len() {
        if j == 0 {
            assert(trim_end_seq(s) =~= s.subrange(0, j));
        } else {
            assert(trim_end_seq(s) =~= s.subrange(0, j));
        }
    } else {
        assert(is_blank(s.last()));
        let t = s.drop_last();
        assert(forall|k: int| j <= k < t.len() ==> is_blank(t[k]));
        lemma_trim_end_range(t, j);
        assert(t.subrange(0, j) =~= s.subrange(0, j));
    }
}

/// `s` with leading and trailing blanks removed, as an owned string.
pub fn trim_blanks(s: &str) -> (r: String)
    ensures
        r@ == trim_seq(s@),
{
    let n = s.unicode_len();
    let mut i: usize = 0;
    while i < n && is_blank_char(s.get_char(i))
        invariant
            n == s@.len(),
            i <= n,
            forall|k: int| 0 <= k < i ==> is_blank(s@[k]),
        decreases n - i,
    {
        i += 1;
    }
    proof {
        lemma_trim_start_range(s@, i as int);
    }
    if i == n {
        proof {
            assert(trim_start_seq(s@) =~= Seq::<char>::empty());
            assert(trim_seq(s@) =~= Seq::<char>::empty());
        }
        return String::new();
    }
    let mut j: usize = n;
    while j > i && is_blank_char(s.get_char(j - 1))
        invariant
            n == s@.len(),
            i <= j <= n,
            forall|k: int| j <= k < n ==> is_blank(s@[k]),
        decreases j,
    {
        j -= 1;
    }
    // the loop above stopped either at j == i (but s@[i] is not blank) or at a
    // non-blank character
    let mid = s.substring_char(i, j);
    proof {
        let t = trim_start_seq(s@);
        assert(t == s@.subrange(i as int, n as int));
        assert(j > i);
        assert(!is_blank(s@[j - 1]));
        assert(forall|k: int| (j - i) <= k < t.len() ==> is_blank(t[k]));
        assert(t[j - i - 1] == s@[j - 1]);
        lemma_trim_end_range(t, j - i);
        assert(t.subrange(0, j - i) =~= s@.subrange(i as int, j as int));
    }
    String::from_str(mid)
}

} // verus!
