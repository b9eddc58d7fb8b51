//! Document rendering: markdown bodies become HTML fragments or full HTML
//! documents with a fixed head and an optional stylesheet inlined verbatim.
//!
//! A leading metadata block (a `---` line, key/value lines, a closing `---`
//! line) is split off, parsed, and rendered as a definition list ahead of the
//! converted body. The markdown-to-markup conversion itself is delegated to a
//! CommonMark converter; this module only states its document-level wrapping.

use vstd::prelude::*;
use vstd::string::*;

use crate::strutil::{push_char, trim_blanks, trim_seq};

verus! {

/// What `markdown::to_html` returns on the given text: a pure function of the
/// input, left uninterpreted here.
pub uninterp spec fn md_html_of(s: Seq<char>) -> Seq<char>;

/// What rendering the input's CommonMark events with `pulldown_cmark` yields:
/// a pure function of the input, left uninterpreted here.
pub uninterp spec fn cmark_html_of(s: Seq<char>) -> Seq<char>;

/// Relies on `markdown::to_html`: compiles markdown to HTML according to
/// CommonMark; a deterministic function of the input text that never fails
/// with the default options.
#[verifier::external_body]
fn md_to_html(md: &str) -> (r: String)
    ensures
        r@ == md_html_of(md@),
{
    markdown::to_html(md)
}

/// Relies on `pulldown_cmark::Parser::new` and `pulldown_cmark::html::push_html`:
/// parses the input as CommonMark and renders its events into an HTML string;
/// deterministic in the input text.
#[verifier::external_body]
fn cmark_to_html(md: &str) -> (r: String)
    ensures
        r@ == cmark_html_of(md@),
{
    let parser = pulldown_cmark::Parser::new(md);
    let mut out = String::new();
    pulldown_cmark::html::push_html(&mut out, parser);
    out
}

/// Rendering fails only on a malformed leading metadata block: one that is
/// never closed, or holds a line without a `key: value` separator.
#[derive(Debug, PartialEq, Eq)]
pub enum RenderError {
    MalformedFrontMatter,
}

/// How one character is written into HTML text.
pub open spec fn escape_char(c: char) -> Seq<char> {
    if c == '&' {
        "&amp;"@
    } else if c == '<' {
        "&lt;"@
    } else if c == '>' {
        "&gt;"@
    } else if c == '"' {
        "&quot;"@
    } else {
        seq![c]
    }
}

/// `s` with the HTML-significant characters replaced by entities.
pub open spec fn escape_seq(s: Seq<char>) -> Seq<char>
    decreases s.len(),
{
    if s.len() == 0 {
        Seq::<char>::empty()
    } else {
        escape_seq(s.drop_last()) + escape_char(s.last())
    }
}

/// `s` with `&`, `<`, `>` and `"` replaced by entities.
pub fn escape_html(s: &str) -> (r: String)
    ensures
        r@ == escape_seq(s@),
{
    let n = s.unicode_len();
    let mut out = String::new();
    let mut i: usize = 0;
    while i < n
        invariant
            n == s@.len(),
            i <= n,
            out@ == escape_seq(s@.subrange(0, i as int)),
        decreases n - i,
    {
        let c = s.get_char(i);
        if c == '&' {
            out.append("&amp;");
        } else if c == '<' {
            out.append("&lt;");
        } else if c == '>' {
            out.append("&gt;");
        } else if c == '"' {
            out.append("&quot;");
        } else {
            push_char(&mut out, c);
        }
        proof {
            assert(s@.subrange(0, i + 1).drop_last() =~= s@.subrange(0, i as int));
            assert(s@.subrange(0, i + 1).last() == s@[i as int]);
        }
        i += 1;
    }
    proof {
        assert(s@.subrange(0, n as int) =~= s@);
    }
    out
}

/// The first position at or after `i` where `c` occurs in `s`.
pub open spec fn find_char_from(s: Seq<char>, c: char, i: int) -> Option<int>
    decreases s.len() - i,
{
    if i < 0 || i >= s.len() {
        None
    } else if s[i] == c {
        Some(i)
    } else {
        find_char_from(s, c, i + 1)
    }
}

proof fn lemma_find_char_skip(s: Seq<char>, c: char, start: int, i: int)
    requires
        0 <= start <= i <= s.len(),
        forall|k: int| start <= k < i ==> s[k] != c,
    ensures
        find_char_from(s, c, start) == find_char_from(s, c, i),
    decreases i - start,
{
    if start < i {
        lemma_find_char_skip(s, c, start + 1, i);
    }
}

/// The position of the first `c` in `s`, when there is one.
fn find_char(s: &str, c: char) -> (r: Option<usize>)
    ensures
        match r {
            Some(j) => find_char_from(s@, c, 0) == Some(j as int) && j < s@.len(),
            None => find_char_from(s@, c, 0) == None::<int>,
        },
{
    let n = s.unicode_len();
    let mut i: usize = 0;
    while i < n
        invariant
            n == s@.len(),
            i <= n,
            forall|k: int| 0 <= k < i ==> s@[k] != c,
        decreases n - i,
    {
        if s.get_char(i) == c {
            proof {
                lemma_find_char_skip(s@, c, 0, i as int);
            }
            return Some(i);
        }
        i += 1;
    }
    proof {
        lemma_find_char_skip(s@, c, 0, n as int);
    }
    None
}

/// Whether the document opens with a metadata block marker: a `---` line.
pub open spec fn has_fm_opener(md: Seq<char>) -> bool {
    md.len() >= 4 && md[0] == '-' && md[1] == '-' && md[2] == '-' && md[3] == '\n'
}

/// Whether the line starting after the newline at `i` closes a metadata
/// block: `---` followed by a newline or by the end of the document.
pub open spec fn is_close_at(md: Seq<char>, i: int) -> bool {
    &&& 3 <= i
    &&& i + 4 <= md.len()
    &&& md[i] == '\n'
    &&& md[i + 1] == '-'
    &&& md[i + 2] == '-'
    &&& md[i + 3] == '-'
    &&& (i + 4 == md.len() || md[i + 4] == '\n')
}

/// The first closing marker at or after `i`.
pub open spec fn find_close_from(md: Seq<char>, i: int) -> Option<int>
    decreases md.len() - i,
{
    if i < 3 || i + 4 > md.len() {
        None
    } else if is_close_at(md, i) {
        Some(i)
    } else {
        find_close_from(md, i + 1)
    }
}

/// Where the leading metadata block closes.
pub open spec fn fm_close(md: Seq<char>) -> Option<int> {
    find_close_from(md, 3)
}

proof fn lemma_find_close_skip(md: Seq<char>, start: int, i: int)
    requires
        3 <= start <= i,
        i <= md.len(),
        forall|k: int| start <= k < i ==> !is_close_at(md, k),
    ensures
        find_close_from(md, start) == find_close_from(md, i),
    decreases i - start,
{
    if start < i {
        lemma_find_close_skip(md, start + 1, i);
    }
}

/// Executable test of `is_close_at`.
fn close_at(md: &str, n: usize, i: usize) -> (r: bool)
    requires
        n == md@.len(),
        3 <= i,
        i + 4 <= n,
    ensures
        r == is_close_at(md@, i as int),
{
    md.get_char(i) == '\n' && md.get_char(i + 1) == '-' && md.get_char(i + 2) == '-' && md.get_char(
        i + 3,
    ) == '-' && (i + 4 == n || md.get_char(i + 4) == '\n')
}

/// The position of the closing marker of the leading metadata block, when the
/// block is closed at all.
fn find_close(md: &str) -> (r: Option<usize>)
    ensures
        match r {
            Some(c) => fm_close(md@) == Some(c as int) && is_close_at(md@, c as int),
            None => fm_close(md@) == None::<int>,
        },
{
    let n = md.unicode_len();
    if n < 7 {
        return None;
    }
    let mut i: usize = 3;
    while i <= n - 4
        invariant
            n == md@.len(),
            7 <= n,
            3 <= i <= n - 3,
            forall|k: int| 3 <= k < i ==> !is_close_at(md@, k),
        decreases n - i,
    {
        if close_at(md, n, i) {
            proof {
                lemma_find_close_skip(md@, 3, i as int);
            }
            return Some(i);
        }
        i += 1;
    }
    proof {
        lemma_find_close_skip(md@, 3, i as int);
    }
    None
}

/// One parsed metadata line: the text before the first `:` and the text after
/// it, both trimmed of blanks.
pub open spec fn parse_line(l: Seq<char>) -> Option<(Seq<char>, Seq<char>)> {
    match find_char_from(l, ':', 0) {
        None => None,
        Some(j) => Some((trim_seq(l.subrange(0, j)), trim_seq(l.subrange(j + 1, l.len() as int)))),
    }
}

/// The key/value pairs of a metadata region: newline-terminated lines, each
/// with a `:` separator. A line without one makes the whole block malformed.
pub open spec fn parse_meta(m: Seq<char>) -> Option<Seq<(Seq<char>, Seq<char>)>>
    decreases m.len(),
{
    if m.len() == 0 {
        Some(Seq::<(Seq<char>, Seq<char>)>::empty())
    } else {
        match find_char_from(m, '\n', 0) {
            None => None,
            Some(j) => if 0 <= j < m.len() {
                match parse_line(m.subrange(0, j)) {
                    None => None,
                    Some(kv) => match parse_meta(m.subrange(j + 1, m.len() as int)) {
                        None => None,
                        Some(rest) => Some(seq![kv] + rest),
                    },
                }
            } else {
                None
            },
        }
    }
}

/// One definition-list entry for a metadata pair.
pub open spec fn dl_item(kv: (Seq<char>, Seq<char>)) -> Seq<char> {
    "<dt>"@ + escape_seq(kv.0) + "</dt>\n<dd>"@ + escape_seq(kv.1) + "</dd>\n"@
}

/// The definition-list entries of all pairs, in order.
pub open spec fn dl_items(ps: Seq<(Seq<char>, Seq<char>)>) -> Seq<char>
    decreases ps.len(),
{
    if ps.len() == 0 {
        Seq::<char>::empty()
    } else {
        dl_items(ps.drop_last()) + dl_item(ps.last())
    }
}

/// The rendering of a parsed metadata block.
pub open spec fn meta_html(ps: Seq<(Seq<char>, Seq<char>)>) -> Seq<char> {
    "<dl>\n"@ + dl_items(ps) + "</dl>\n"@
}

/// The metadata region of a document whose block closes at `c`: the text
/// between the opening marker line and the closing marker, including the
/// newline that ends its last line.
pub open spec fn fm_meta_at(md: Seq<char>, c: int) -> Seq<char> {
    md.subrange(4, c + 1)
}

/// The body of a document whose metadata block closes at `c`: the text after
/// the closing marker's own newline, or nothing when the marker ends the
/// document.
pub open spec fn fm_body_at(md: Seq<char>, c: int) -> Seq<char> {
    if c + 4 == md.len() {
        Seq::<char>::empty()
    } else {
        md.subrange(c + 5, md.len() as int)
    }
}

/// The rendered content of a document body: the metadata rendering (when a
/// block is present) followed by the converted markdown, or nothing when the
/// metadata block is malformed.
pub open spec fn rendered_body(md: Seq<char>) -> Option<Seq<char>> {
    if !has_fm_opener(md) {
        Some(md_html_of(md))
    } else {
        match fm_close(md) {
            None => None,
            Some(c) => match parse_meta(fm_meta_at(md, c)) {
                None => None,
                Some(ps) => Some(meta_html(ps) + md_html_of(fm_body_at(md, c))),
            },
        }
    }
}

/// The head of the rendered document: a fixed charset meta tag and title, and
/// the stylesheet inlined verbatim in a style block when one is configured.
pub open spec fn head_seq(css: Option<Seq<char>>) -> Seq<char> {
    "<head>\n<meta charset=\"utf-8\" />\n<title>Jot Note</title>\n"@ + (match css {
        Some(c) => "<style>\n"@ + c + "</style>\n"@,
        None => Seq::<char>::empty(),
    }) + "</head>\n"@
}

/// The full rendered document, or nothing when the body's metadata block is
/// malformed.
pub open spec fn document_seq(md: Seq<char>, css: Option<Seq<char>>) -> Option<Seq<char>> {
    match rendered_body(md) {
        None => None,
        Some(b) => Some(
            "<!DOCTYPE html>\n<html>\n"@ + head_seq(css) + "<body>\n"@ + b + "</body>\n</html>\n"@,
        ),
    }
}

/// Parses the metadata region into key/value pairs, mirroring `parse_meta`.
/// The spec-level view of parsed pairs.
pub open spec fn kv_view(v: Seq<(String, String)>) -> Seq<(Seq<char>, Seq<char>)> {
    v.map_values(|p: (String, String)| (p.0@, p.1@))
}

/// Parses the metadata region into key/value pairs, mirroring `parse_meta`.
fn parse_meta_pairs(m: &str) -> (r: Option<Vec<(String, String)>>)
    ensures
        match r {
            Some(v) => parse_meta(m@) == Some(kv_view(v@)),
            None => parse_meta(m@) == None::<Seq<(Seq<char>, Seq<char>)>>,
        },
{
    let mut pairs: Vec<(String, String)> = Vec::new();
    let mut rest: &str = m;
    proof {
        assert(kv_view(pairs@) + parse_meta(rest@).unwrap() =~= parse_meta(rest@).unwrap());
    }
    loop
        invariant
            match parse_meta(rest@) {
                Some(t) => parse_meta(m@) == Some(kv_view(pairs@) + t),
                None => parse_meta(m@) == None::<Seq<(Seq<char>, Seq<char>)>>,
            },
        decreases rest@.len(),
    {
        let rlen = rest.unicode_len();
        if rlen == 0 {
            proof {
                assert(parse_meta(rest@) == Some(Seq::<(Seq<char>, Seq<char>)>::empty()));
                assert(kv_view(pairs@) + Seq::<(Seq<char>, Seq<char>)>::empty() =~= kv_view(
                    pairs@,
                ));
            }
            return Some(pairs);
        }
        let nl = match find_char(rest, '\n') {
            None => {
                return None;
            },
            Some(j) => j,
        };
        let line = rest.substring_char(0, nl);
        let colon = match find_char(line, ':') {
            None => {
                proof {
                    assert(line@ == rest@.subrange(0, nl as int));
                }
                return None;
            },
            Some(j) => j,
        };
        let llen = line.unicode_len();
        let key = trim_blanks(line.substring_char(0, colon));
        let val = trim_blanks(line.substring_char(colon + 1, llen));
        let ghost old_pairs = pairs@;
        let ghost old_rest = rest@;
        pairs.push((key, val));
        rest = rest.substring_char(nl + 1, rlen);
        proof {
            assert(line@ == old_rest.subrange(0, nl as int));
            assert(rest@ == old_rest.subrange(nl + 1, old_rest.len() as int));
            let kv = (key@, val@);
            assert(parse_line(old_rest.subrange(0, nl as int)) == Some(kv));
            assert(kv_view(pairs@) =~= kv_view(old_pairs).push(kv));
            match parse_meta(rest@) {
                Some(t) => {
                    assert(parse_meta(old_rest) == Some(seq![kv] + t));
                    assert(kv_view(old_pairs) + (seq![kv] + t) =~= kv_view(pairs@) + t);
                },
                None => {
                    assert(parse_meta(old_rest) == None::<Seq<(Seq<char>, Seq<char>)>>);
                },
            }
        }
    }
}

/// Renders parsed metadata pairs as a definition list.
fn render_meta(pairs: &Vec<(String, String)>) -> (r: String)
    ensures
        r@ == meta_html(pairs@.map_values(|p: (String, String)| (p.0@, p.1@))),
{
    let ghost ps = pairs@.map_values(|p: (String, String)| (p.0@, p.1@));
    let mut out = String::from_str("<dl>\n");
    let mut i: usize = 0;
    while i < pairs.len()
        invariant
            ps == pairs@.map_values(|p: (String, String)| (p.0@, p.1@)),
            i <= pairs@.len(),
            out@ == "<dl>\n"@ + dl_items(ps.subrange(0, i as int)),
        decreases pairs@.len() - i,
    {
        let kesc = escape_html(pairs[i].0.as_str());
        let vesc = escape_html(pairs[i].1.as_str());
        out.append("<dt>");
        out.append(kesc.as_str());
        out.append("</dt>\n<dd>");
        out.append(vesc.as_str());
        out.append("</dd>\n");
        proof {
            assert(ps.subrange(0, i + 1).drop_last() =~= ps.subrange(0, i as int));
            assert(ps.subrange(0, i + 1).last() == ps[i as int]);
        }
        i += 1;
    }
    out.append("</dl>\n");
    proof {
        assert(ps.subrange(0, ps.len() as int) =~= ps);
    }
    out
}

/// Renders a document body: the metadata block (when present) as a definition
/// list, followed by the converted markdown.
fn render_body(md: &str) -> (r: Result<String, RenderError>)
    ensures
        match r {
            Ok(b) => rendered_body(md@) == Some(b@),
            Err(e) => rendered_body(md@) == None::<Seq<char>> && e
                == RenderError::MalformedFrontMatter,
        },
{
    let n = md.unicode_len();
    let opener = n >= 4 && md.get_char(0) == '-' && md.get_char(1) == '-' && md.get_char(2) == '-'
        && md.get_char(3) == '\n';
    if !opener {
        return Ok(md_to_html(md));
    }
    let c = match find_close(md) {
        None => {
            return Err(RenderError::MalformedFrontMatter);
        },
        Some(c) => c,
    };
    let meta = md.substring_char(4, c + 1);
    proof {
        assert(meta@ == fm_meta_at(md@, c as int));
    }
    let pairs = match parse_meta_pairs(meta) {
        None => {
            return Err(RenderError::MalformedFrontMatter);
        },
        Some(v) => v,
    };
    let mut out = render_meta(&pairs);
    proof {
        let ps = parse_meta(fm_meta_at(md@, c as int)).unwrap();
        assert(pairs@.map_values(|p: (String, String)| (p.0@, p.1@)) =~= ps);
    }
    let body = if c + 4 == n {
        ""
    } else {
        md.substring_char(c + 5, n)
    };
    proof {
        if c + 4 == n {
            reveal_strlit("");
            assert(body@ =~= fm_body_at(md@, c as int));
        }
    }
    let bodyhtml = md_to_html(body);
    out.append(bodyhtml.as_str());
    Ok(out)
}

/// Accumulates an HTML document: the head carries a fixed charset tag and
/// title and, when configured, a stylesheet payload inlined verbatim.
pub struct HtmlWriter {
    out: String,
    css: Option<String>,
}

impl HtmlWriter {
    /// The text written so far.
    pub closed spec fn out_view(&self) -> Seq<char> {
        self.out@
    }

    /// The configured stylesheet payload.
    pub closed spec fn css_view(&self) -> Option<Seq<char>> {
        match self.css {
            Some(c) => Some(c@),
            None => None,
        }
    }

    /// A writer with an empty buffer and the given stylesheet payload (the
    /// caller reads the stylesheet file, handing in nothing when it is absent
    /// or unreadable).
    pub fn new(css: Option<String>) -> (w: HtmlWriter)
        ensures
            w.out_view() == Seq::<char>::empty(),
            w.css_view() == (match css {
                Some(c) => Some(c@),
                None => None::<Seq<char>>,
            }),
    {
        HtmlWriter { out: String::new(), css }
    }

    /// The accumulated document text.
    pub fn into_output(self) -> (r: String)
        ensures
            r@ == self.out_view(),
    {
        self.out
    }

    /// Writes the head block: charset meta tag, fixed title, and the style
    /// block when a stylesheet is configured.
    pub fn write_head(&mut self)
        ensures
            final(self).out_view() == old(self).out_view() + head_seq(old(self).css_view()),
            final(self).css_view() == old(self).css_view(),
    {
        self.out.append("<head>\n<meta charset=\"utf-8\" />\n<title>Jot Note</title>\n");
        match &self.css {
            Some(c) => {
                self.out.append("<style>\n");
                let cs = c.clone();
                self.out.append(cs.as_str());
                self.out.append("</style>\n");
            },
            None => {},
        }
        self.out.append("</head>\n");
    }

    /// Writes the rendered body content alone: the metadata block (when one is
    /// present) as a definition list, then the converted markdown, with no
    /// document wrapper.
    pub fn write_markdown(&mut self, md: &str) -> (r: Result<(), RenderError>)
        ensures
            final(self).css_view() == old(self).css_view(),
            match r {
                Ok(()) => rendered_body(md@) is Some && final(self).out_view() == old(self).out_view() + rendered_body(md@).unwrap(),
                Err(e) => rendered_body(md@) == None::<Seq<char>> && e
                    == RenderError::MalformedFrontMatter && final(self).out_view() == old(self).out_view(),
            },
    {
        match render_body(md) {
            Ok(b) => {
                self.out.append(b.as_str());
                Ok(())
            },
            Err(e) => Err(e),
        }
    }

    /// Writes the entire document: doctype, root element, head, and the body
    /// content between body tags. On a malformed metadata block nothing is
    /// written.
    pub fn write_html(&mut self, md: &str) -> (r: Result<(), RenderError>)
        ensures
            final(self).css_view() == old(self).css_view(),
            match r {
                Ok(()) => document_seq(md@, old(self).css_view()) is Some && final(self).out_view() == old(self).out_view() + document_seq(md@, old(self).css_view()).unwrap(),
                Err(e) => document_seq(md@, old(self).css_view()) == None::<Seq<char>> && e
                    == RenderError::MalformedFrontMatter && final(self).out_view() == old(self).out_view(),
            },
    {
        let body = match render_body(md) {
            Ok(b) => b,
            Err(e) => {
                return Err(e);
            },
        };
        self.out.append("<!DOCTYPE html>\n<html>\n");
        self.write_head();
        self.out.append("<body>\n");
        self.out.append(body.as_str());
        self.out.append("</body>\n</html>\n");
        Ok(())
    }
}

/// Renders a full HTML document from a markdown body and an optional
/// stylesheet payload.
pub fn render_document(md: &str, stylesheet: Option<String>) -> (r: Result<String, RenderError>)
    ensures
        ({
            let css = match stylesheet {
                Some(c) => Some(c@),
                None => None::<Seq<char>>,
            };
            match r {
                Ok(d) => document_seq(md@, css) == Some(d@),
                Err(e) => document_seq(md@, css) == None::<Seq<char>> && e
                    == RenderError::MalformedFrontMatter,
            }
        }),
{
    let mut w = HtmlWriter::new(stylesheet);
    match w.write_html(md) {
        Ok(()) => Ok(w.into_output()),
        Err(e) => Err(e),
    }
}

/// Renders an embeddable snippet: only the markdown-to-markup conversion, with
/// no document wrapper and no metadata separation.
pub fn render_fragment(md: &str) -> (r: String)
    ensures
        r@ == md_html_of(md@),
{
    md_to_html(md)
}

/// The plain CommonMark conversion used when a whole file is rendered without
/// the document wrapper.
pub fn html_fragment(md: &str) -> (r: String)
    ensures
        r@ == cmark_html_of(md@),
{
    cmark_to_html(md)
}

} // verus!
