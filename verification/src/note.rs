//! Note creation: the front-matter block, the heading rule for the body, and
//! the storage path convention `root/subdir/year/month/timestamp.md`.
//!
//! The creation timestamp arrives as plain calendar and clock fields with a
//! UTC offset; reading the clock is the caller's business. All formatting is
//! done here: zero-padded decimal fields, the ISO-8601 form with offset, and
//! the compact second-granularity form the file name uses.

use vstd::prelude::*;
use vstd::string::*;

use crate::strutil::{push_char, trim_blanks, trim_seq};

verus! {

/// The decimal digit character for `d`.
pub open spec fn digit_char(d: int) -> char {
    if d == 0 {
        '0'
    } else if d == 1 {
        '1'
    } else if d == 2 {
        '2'
    } else if d == 3 {
        '3'
    } else if d == 4 {
        '4'
    } else if d == 5 {
        '5'
    } else if d == 6 {
        '6'
    } else if d == 7 {
        '7'
    } else if d == 8 {
        '8'
    } else {
        '9'
    }
}

/// `n` as two zero-padded decimal digits.
pub open spec fn dec2(n: int) -> Seq<char> {
    seq![digit_char(n / 10), digit_char(n % 10)]
}

/// `n` as four zero-padded decimal digits.
pub open spec fn dec4(n: int) -> Seq<char> {
    seq![
        digit_char(n / 1000),
        digit_char((n / 100) % 10),
        digit_char((n / 10) % 10),
        digit_char(n % 10),
    ]
}

/// A creation instant: calendar date, clock time, and the local UTC offset in
/// minutes.
pub struct Timestamp {
    pub year: u32,
    pub month: u32,
    pub day: u32,
    pub hour: u32,
    pub minute: u32,
    pub second: u32,
    pub offset_minutes: i32,
}

impl Timestamp {
    /// Field ranges of a calendar timestamp; offsets stay under a day in
    /// either direction.
    pub open spec fn wf(&self) -> bool {
        &&& self.year <= 9999
        &&& 1 <= self.month <= 12
        &&& 1 <= self.day <= 31
        &&& self.hour <= 23
        &&& self.minute <= 59
        &&& self.second <= 59
        &&& -1440 < self.offset_minutes < 1440
    }

    /// The ISO-8601 rendering with UTC offset:
    /// `YYYY-MM-DDTHH:MM:SS+HH:MM` (or a `-` offset sign).
    pub open spec fn iso_seq(&self) -> Seq<char> {
        dec4(self.year as int) + seq!['-'] + dec2(self.month as int) + seq!['-'] + dec2(
            self.day as int,
        ) + seq!['T'] + dec2(self.hour as int) + seq![':'] + dec2(self.minute as int) + seq![':']
            + dec2(self.second as int) + self.offset_seq()
    }

    /// The offset rendering: sign, hours, colon, minutes.
    pub open spec fn offset_seq(&self) -> Seq<char> {
        let sign = if self.offset_minutes >= 0 {
            '+'
        } else {
            '-'
        };
        let m = if self.offset_minutes >= 0 {
            self.offset_minutes as int
        } else {
            -(self.offset_minutes as int)
        };
        seq![sign] + dec2(m / 60) + seq![':'] + dec2(m % 60)
    }

    /// The compact second-granularity rendering the note file name uses:
    /// `YYYYMMDD_HHMMSS`.
    pub open spec fn compact_seq(&self) -> Seq<char> {
        dec4(self.year as int) + dec2(self.month as int) + dec2(self.day as int) + seq!['_'] + dec2(
            self.hour as int,
        ) + dec2(self.minute as int) + dec2(self.second as int)
    }

    /// The `year/month` directory pair of the storage layout.
    pub open spec fn year_month_seq(&self) -> Seq<char> {
        dec4(self.year as int) + seq!['/'] + dec2(self.month as int)
    }
}

/// The digit character of `d`.
fn digit(d: u32) -> (c: char)
    requires
        d <= 9,
    ensures
        c == digit_char(d as int),
{
    if d == 0 {
        '0'
    } else if d == 1 {
        '1'
    } else if d == 2 {
        '2'
    } else if d == 3 {
        '3'
    } else if d == 4 {
        '4'
    } else if d == 5 {
        '5'
    } else if d == 6 {
        '6'
    } else if d == 7 {
        '7'
    } else if d == 8 {
        '8'
    } else {
        '9'
    }
}

/// Appends `n` as two zero-padded digits.
fn push_dec2(out: &mut String, n: u32)
    requires
        n <= 99,
    ensures
        final(out)@ == old(out)@ + dec2(n as int),
{
    push_char(out, digit(n / 10));
    push_char(out, digit(n % 10));
    proof {
        assert(old(out)@.push(digit_char(n as int / 10)).push(digit_char(n as int % 10)) =~= old(
            out,
        )@ + dec2(n as int));
    }
}

/// Appends `n` as four zero-padded digits.
fn push_dec4(out: &mut String, n: u32)
    requires
        n <= 9999,
    ensures
        final(out)@ == old(out)@ + dec4(n as int),
{
    push_char(out, digit(n / 1000));
    push_char(out, digit((n / 100) % 10));
    push_char(out, digit((n / 10) % 10));
    push_char(out, digit(n % 10));
    proof {
        assert(old(out)@.push(digit_char(n as int / 1000)).push(
            digit_char((n as int / 100) % 10),
        ).push(digit_char((n as int / 10) % 10)).push(digit_char(n as int % 10)) =~= old(out)@
            + dec4(n as int));
    }
}

/// The ISO-8601 rendering of `ts`, offset included.
pub fn format_iso(ts: &Timestamp) -> (r: String)
    requires
        ts.wf(),
    ensures
        r@ == ts.iso_seq(),
{
    let mut out = String::new();
    push_dec4(&mut out, ts.year);
    push_char(&mut out, '-');
    push_dec2(&mut out, ts.month);
    push_char(&mut out, '-');
    push_dec2(&mut out, ts.day);
    push_char(&mut out, 'T');
    push_dec2(&mut out, ts.hour);
    push_char(&mut out, ':');
    push_dec2(&mut out, ts.minute);
    push_char(&mut out, ':');
    push_dec2(&mut out, ts.second);
    if ts.offset_minutes >= 0 {
        push_char(&mut out, '+');
        let m = ts.offset_minutes as u32;
        push_dec2(&mut out, m / 60);
        push_char(&mut out, ':');
        push_dec2(&mut out, m % 60);
    } else {
        push_char(&mut out, '-');
        let m = (-ts.offset_minutes) as u32;
        push_dec2(&mut out, m / 60);
        push_char(&mut out, ':');
        push_dec2(&mut out, m % 60);
    }
    proof {
        assert(out@ =~= ts.iso_seq());
    }
    out
}

/// The compact `YYYYMMDD_HHMMSS` rendering of `ts`.
pub fn format_compact(ts: &Timestamp) -> (r: String)
    requires
        ts.wf(),
    ensures
        r@ == ts.compact_seq(),
{
    let mut out = String::new();
    push_dec4(&mut out, ts.year);
    push_dec2(&mut out, ts.month);
    push_dec2(&mut out, ts.day);
    push_char(&mut out, '_');
    push_dec2(&mut out, ts.hour);
    push_dec2(&mut out, ts.minute);
    push_dec2(&mut out, ts.second);
    proof {
        assert(out@ =~= ts.compact_seq());
    }
    out
}

/// The `year/month` directory pair of `ts`.
pub fn format_year_month(ts: &Timestamp) -> (r: String)
    requires
        ts.wf(),
    ensures
        r@ == ts.year_month_seq(),
{
    let mut out = String::new();
    push_dec4(&mut out, ts.year);
    push_char(&mut out, '/');
    push_dec2(&mut out, ts.month);
    proof {
        assert(out@ =~= ts.year_month_seq());
    }
    out
}

/// The front-matter block: timestamp and generator identity between `---`
/// markers, then a blank line.
pub open spec fn front_matter_seq(ts: Timestamp, generator: Seq<char>) -> Seq<char> {
    "---\ntimestamp: "@ + ts.iso_seq() + "\ngenerated-by: "@ + generator + "\n---\n\n"@
}

/// Whether the heading marker is prefixed to a trimmed body: only when it is
/// non-empty and does not already start with one.
pub open spec fn needs_heading(trimmed: Seq<char>) -> bool {
    trimmed.len() > 0 && trimmed.first() != '#'
}

/// The full text of a new note: front matter, then the trimmed body with a
/// heading marker prefixed when it needs one, then a final newline.
pub open spec fn note_text_seq(ts: Timestamp, generator: Seq<char>, body: Seq<char>) -> Seq<char> {
    let trimmed = trim_seq(body);
    front_matter_seq(ts, generator) + (if needs_heading(trimmed) {
        "# "@ + trimmed
    } else {
        trimmed
    }) + seq!['\n']
}

/// Builds the text of a new note from its creation instant, the generator
/// identity recorded in the front matter, and the raw body text.
pub fn note_text(ts: &Timestamp, generator: &str, body: &str) -> (r: String)
    requires
        ts.wf(),
    ensures
        r@ == note_text_seq(*ts, generator@, body@),
{
    let mut out = String::from_str("---\ntimestamp: ");
    let iso = format_iso(ts);
    out.append(iso.as_str());
    out.append("\ngenerated-by: ");
    out.append(generator);
    out.append("\n---\n\n");
    let trimmed = trim_blanks(body);
    let tlen = trimmed.as_str().unicode_len();
    if tlen > 0 && trimmed.as_str().get_char(0) != '#' {
        out.append("# ");
    }
    out.append(trimmed.as_str());
    push_char(&mut out, '\n');
    proof {
        assert(out@ =~= note_text_seq(*ts, generator@, body@));
    }
    out
}

/// The note's resting place under the base directory: `base/year/month` for
/// the directories that are created as needed, and the file
/// `YYYYMMDD_HHMMSS.md` inside them.
pub struct NotePlan {
    /// The directory the note lives in, whose path is created recursively.
    pub dir: String,
    /// The note file itself, inside `dir`.
    pub path: String,
    /// The full text to write.
    pub content: String,
}

/// The directory part of the plan.
pub open spec fn plan_dir_seq(base: Seq<char>, ts: Timestamp) -> Seq<char> {
    crate::paths::join_seq(base, ts.year_month_seq())
}

/// The file part of the plan.
pub open spec fn plan_path_seq(base: Seq<char>, ts: Timestamp) -> Seq<char> {
    crate::paths::join_seq(plan_dir_seq(base, ts), ts.compact_seq() + ".md"@)
}

/// Whether note creation aborts without writing anything: editing suppressed,
/// no force override, and no body text supplied.
pub open spec fn aborts_creation(no_edit: bool, force: bool, has_text: bool) -> bool {
    no_edit && !force && !has_text
}

/// Decides a creation request: nothing on the documented abort case (editing
/// suppressed, no force override, no text), and otherwise the directory, file
/// path and full text of the new note.
pub fn plan_note(
    body: Option<&String>,
    no_edit: bool,
    force: bool,
    base: &str,
    ts: &Timestamp,
    generator: &str,
) -> (r: Option<NotePlan>)
    requires
        ts.wf(),
    ensures
        match r {
            None => aborts_creation(no_edit, force, body is Some),
            Some(plan) => {
                &&& !aborts_creation(no_edit, force, body is Some)
                &&& plan.dir@ == plan_dir_seq(base@, *ts)
                &&& plan.path@ == plan_path_seq(base@, *ts)
                &&& plan.content@ == note_text_seq(
                    *ts,
                    generator@,
                    match body {
                        Some(b) => b@,
                        None => Seq::<char>::empty(),
                    },
                )
            },
        },
{
    if no_edit && !force && body.is_none() {
        return None;
    }
    let content = match body {
        Some(b) => note_text(ts, generator, b.as_str()),
        None => note_text(ts, generator, ""),
    };
    proof {
        reveal_strlit("");
        if body is None {
            assert(""@ =~= Seq::<char>::empty());
        }
    }
    let ym = format_year_month(ts);
    let dir = crate::paths::join(base, ym.as_str());
    let mut file = format_compact(ts);
    file.append(".md");
    let path = crate::paths::join(dir.as_str(), file.as_str());
    Some(NotePlan { dir, path, content })
}

} // verus!
