//! The decisions behind the palette: reading `slot = color` lines from a
//! theme file, the stable per-name color slot, and how urgently a target
//! date glows. Color names are read by ratatui.

use vstd::prelude::*;
use vstd::utf8::encode_utf8;

use ratatui::style::Color;

use crate::lines::{index_of, lines_of, slice_chars, text_lines, trim, trim_chars};
use crate::text::{char_is_ws, chars_of, is_whitespace, string_from_chars};

verus! {

/// The first `c` in `s` and everything after it dropped.
pub open spec fn before(s: Seq<char>, c: char) -> Seq<char> {
    s.take(index_of(s, c) as int)
}

/// Index of the first whitespace character of `s`, or its length.
pub open spec fn ws_index(s: Seq<char>) -> nat
    decreases s.len(),
{
    if s.len() == 0 {
        0
    } else if char_is_ws(s[0]) {
        0
    } else {
        1 + ws_index(s.drop_first())
    }
}

/// The color text of a (trimmed) value: inside quotes up to the closing
/// quote; a bare `#rrggbb` up to the first whitespace; otherwise up to a
/// `#` comment, trimmed.
pub open spec fn color_text(v: Seq<char>) -> Seq<char> {
    if v.len() > 0 && v[0] == '"' {
        before(v.drop_first(), '"')
    } else if v.len() > 0 && v[0] == '\'' {
        before(v.drop_first(), '\'')
    } else if v.len() > 0 && v[0] == '#' {
        v.take(ws_index(v) as int)
    } else {
        trim(before(v, '#'))
    }
}

/// The `(slot, color text)` a theme line sets, if any: blank lines, `#`
/// comments and lines without `=` set nothing.
pub open spec fn theme_line(raw: Seq<char>) -> Option<(Seq<char>, Seq<char>)> {
    let line = trim(raw);
    if line.len() == 0 || line[0] == '#' {
        None
    } else {
        let e = index_of(line, '=');
        if e >= line.len() {
            None
        } else {
            Some(
                (
                    trim(line.take(e as int)),
                    trim(color_text(trim(line.skip(e + 1 as int)))),
                ),
            )
        }
    }
}

/// The settings of each line, in order (later lines win).
pub open spec fn theme_settings(ls: Seq<Seq<char>>) -> Seq<(Seq<char>, Seq<char>)>
    decreases ls.len(),
{
    if ls.len() == 0 {
        Seq::empty()
    } else {
        let rest = theme_settings(ls.drop_last());
        match theme_line(ls.last()) {
            Some(p) => rest.push(p),
            None => rest,
        }
    }
}

proof fn lemma_ws_index_at(s: Seq<char>, k: int)
    requires
        0 <= k <= s.len(),
        forall|j: int| 0 <= j < k ==> !char_is_ws(#[trigger] s[j]),
        k == s.len() || char_is_ws(s[k]),
    ensures
        ws_index(s) == k,
    decreases k,
{
    if k > 0 {
        let t = s.drop_first();
        assert forall|j: int| 0 <= j < k - 1 implies !char_is_ws(#[trigger] t[j]) by {
            assert(t[j] == s[j + 1]);
        }
        lemma_ws_index_at(t, k - 1);
    }
}

/// `s` up to (not including) the first `c`.
fn before_char(s: &Vec<char>, c: char) -> (r: Vec<char>)
    ensures
        r@ == before(s@, c),
{
    let mut k: usize = 0;
    while k < s.len() && s[k] != c
        invariant
            k <= s@.len(),
            forall|j: int| 0 <= j < k ==> s@[j] != c,
        decreases s.len() - k,
    {
        k = k + 1;
    }
    proof {
        crate::lines::lemma_index_of_at(s@, c, k as int);
    }
    slice_chars(s, 0, k)
}

fn color_text_of(v: &Vec<char>) -> (r: Vec<char>)
    ensures
        r@ == color_text(v@),
{
    if v.len() > 0 && (v[0] == '"' || v[0] == '\'') {
        let q = v[0];
        let rest = slice_chars(v, 1, v.len());
        proof {
            assert(rest@ =~= v@.drop_first());
        }
        before_char(&rest, q)
    } else if v.len() > 0 && v[0] == '#' {
        let mut k: usize = 0;
        while k < v.len() && !is_whitespace(v[k])
            invariant
                k <= v@.len(),
                forall|j: int| 0 <= j < k ==> !char_is_ws(#[trigger] v@[j]),
            decreases v.len() - k,
        {
            k = k + 1;
        }
        proof {
            lemma_ws_index_at(v@, k as int);
        }
        slice_chars(v, 0, k)
    } else {
        trim_chars(&before_char(v, '#'))
    }
}

/// The setting one theme line makes (see [`theme_line`]).
fn theme_line_of(raw: &Vec<char>) -> (r: Option<(Vec<char>, Vec<char>)>)
    ensures
        match r {
            Some(p) => theme_line(raw@) == Some((p.0@, p.1@)),
            None => theme_line(raw@) is None,
        },
{
    let line = trim_chars(raw);
    if line.len() == 0 || line[0] == '#' {
        return None;
    }
    let mut e: usize = 0;
    while e < line.len() && line[e] != '='
        invariant
            e <= line@.len(),
            forall|j: int| 0 <= j < e ==> line@[j] != '=',
        decreases line.len() - e,
    {
        e = e + 1;
    }
    proof {
        crate::lines::lemma_index_of_at(line@, '=', e as int);
    }
    if e >= line.len() {
        return None;
    }
    let slot = trim_chars(&slice_chars(&line, 0, e));
    let value = trim_chars(&slice_chars(&line, e + 1, line.len()));
    let text = trim_chars(&color_text_of(&value));
    proof {
        assert(line@.take(e as int) =~= line@.subrange(0, e as int));
        assert(line@.skip(e + 1) =~= line@.subrange(e + 1, line@.len() as int));
    }
    Some((slot, text))
}

/// The `(slot, color text)` settings of a theme file, in order; a later
/// setting of a slot overrides an earlier one. Which texts are colors is
/// for the renderer to decide.
pub fn theme_entries(src: &str) -> (r: Vec<(String, String)>)
    ensures
        r@.map_values(|p: (String, String)| (p.0@, p.1@)) == theme_settings(text_lines(src@)),
{
    let ls = lines_of(&chars_of(src));
    let ghost v = ls@.map_values(|l: Vec<char>| l@);
    let mut out: Vec<(String, String)> = Vec::new();
    proof {
        assert(v.take(0) =~= Seq::<Seq<char>>::empty());
        assert(out@.map_values(|p: (String, String)| (p.0@, p.1@)) =~= Seq::<
            (Seq<char>, Seq<char>),
        >::empty());
    }
    for i in 0..ls.len()
        invariant
            v == ls@.map_values(|l: Vec<char>| l@),
            out@.map_values(|p: (String, String)| (p.0@, p.1@)) == theme_settings(
                v.take(i as int),
            ),
    {
        proof {
            assert(v.take(i + 1).drop_last() =~= v.take(i as int));
            assert(v.take(i + 1).last() == ls@[i as int]@);
        }
        let ghost before = out@.map_values(|p: (String, String)| (p.0@, p.1@));
        match theme_line_of(&ls[i]) {
            Some((slot, text)) => {
                let entry = (string_from_chars(&slot), string_from_chars(&text));
                out.push(entry);
                proof {
                    assert(out@.map_values(|p: (String, String)| (p.0@, p.1@)) =~= before.push(
                        (slot@, text@),
                    ));
                }
            },
            None => {},
        }
    }
    proof {
        assert(v.take(v.len() as int) =~= v);
    }
    out
}

/// A terminal color as a theme file names it: one of the sixteen named
/// colors or the terminal's default, a 256-color index, or an RGB triple.
#[derive(Debug, Clone, Copy, PartialEq, Eq, Structural)]
pub enum ThemeColor {
    Reset,
    Black,
    Red,
    Green,
    Yellow,
    Blue,
    Magenta,
    Cyan,
    Gray,
    DarkGray,
    LightRed,
    LightGreen,
    LightYellow,
    LightBlue,
    LightMagenta,
    LightCyan,
    White,
    Rgb(u8, u8, u8),
    Indexed(u8),
}

/// The color ratatui reads from `text` (a name such as `light blue`, an
/// index such as `208`, or `#rrggbb`), or `None` when it reads none. A
/// function of the text alone.
pub uninterp spec fn color_value(text: Seq<char>) -> Option<ThemeColor>;

/// `Color::from_str` from ratatui, its result written as a [`ThemeColor`]
/// variant for variant; named by [`color_value`].
#[verifier::external_body]
fn parse_color(text: &str) -> (r: Option<ThemeColor>)
    ensures
        r == color_value(text@),
{
    Some(match text.parse::<Color>().ok()? {
        Color::Reset => ThemeColor::Reset, Color::Black => ThemeColor::Black,
        Color::Red => ThemeColor::Red, Color::Green => ThemeColor::Green,
        Color::Yellow => ThemeColor::Yellow, Color::Blue => ThemeColor::Blue,
        Color::Magenta => ThemeColor::Magenta, Color::Cyan => ThemeColor::Cyan,
        Color::Gray => ThemeColor::Gray, Color::DarkGray => ThemeColor::DarkGray,
        Color::LightRed => ThemeColor::LightRed, Color::LightGreen => ThemeColor::LightGreen,
        Color::LightYellow => ThemeColor::LightYellow, Color::LightBlue => ThemeColor::LightBlue,
        Color::LightMagenta => ThemeColor::LightMagenta, Color::LightCyan => ThemeColor::LightCyan,
        Color::White => ThemeColor::White, Color::Indexed(i) => ThemeColor::Indexed(i),
        Color::Rgb(r, g, b) => ThemeColor::Rgb(r, g, b),
    })
}

/// The settings whose text is a color, as (slot, color), in order.
pub open spec fn colored_settings(settings: Seq<(Seq<char>, Seq<char>)>) -> Seq<(Seq<char>, ThemeColor)>
    decreases settings.len(),
{
    if settings.len() == 0 {
        Seq::empty()
    } else {
        let rest = colored_settings(settings.drop_last());
        match color_value(settings.last().1) {
            Some(c) => rest.push((settings.last().0, c)),
            None => rest,
        }
    }
}

pub open spec fn theme_view(r: Seq<(String, ThemeColor)>) -> Seq<(Seq<char>, ThemeColor)> {
    r.map_values(|p: (String, ThemeColor)| (p.0@, p.1))
}

/// The colored settings of a theme file, each slot with the color its text
/// names, in file order (a later setting of a slot overrides an earlier
/// one); settings whose text is not a color are skipped, as are junk lines.
pub fn parse_theme(src: &str) -> (r: Vec<(String, ThemeColor)>)
    ensures
        theme_view(r@) == colored_settings(theme_settings(text_lines(src@))),
{
    let entries = theme_entries(src);
    let ghost v = entries@.map_values(|p: (String, String)| (p.0@, p.1@));
    let mut out: Vec<(String, ThemeColor)> = Vec::new();
    let mut i: usize = 0;
    proof {
        assert(v.take(0) =~= Seq::<(Seq<char>, Seq<char>)>::empty());
        assert(theme_view(out@) =~= Seq::<(Seq<char>, ThemeColor)>::empty());
    }
    while i < entries.len()
        invariant
            i <= entries@.len(),
            v == entries@.map_values(|p: (String, String)| (p.0@, p.1@)),
            theme_view(out@) == colored_settings(v.take(i as int)),
        decreases entries@.len() - i,
    {
        proof {
            assert(v.take(i + 1).drop_last() =~= v.take(i as int));
        }
        let ghost before = theme_view(out@);
        match parse_color(entries[i].1.as_str()) {
            Some(c) => {
                out.push((entries[i].0.clone(), c));
                proof {
                    assert(theme_view(out@) =~= before.push((entries@[i as int].0@, c)));
                }
            },
            None => {},
        }
        i = i + 1;
    }
    proof {
        assert(v.take(v.len() as int) =~= v);
    }
    out
}

/// The string hash behind per-name colors: over the UTF-8 bytes,
/// `h = h * 31 + b`, wrapping.
pub open spec fn name_hash(bytes: Seq<u8>) -> usize
    decreases bytes.len(),
{
    if bytes.len() == 0 {
        0
    } else {
        name_hash(bytes.drop_last()).wrapping_mul(31).wrapping_add(bytes.last() as usize)
    }
}

/// Number of colors names are spread over.
pub const NAME_PALETTE_LEN: usize = 6;

/// The palette slot for a project key or label: the same on every screen
/// and every run.
pub fn name_color_slot(name: &str) -> (r: usize)
    ensures
        r == name_hash(encode_utf8(name@)) % NAME_PALETTE_LEN,
        r < NAME_PALETTE_LEN,
{
    let bytes = name.as_bytes();
    let mut h: usize = 0;
    for i in 0..bytes.len()
        invariant
            bytes@ == encode_utf8(name@),
            h == name_hash(bytes@.take(i as int)),
    {
        proof {
            assert(bytes@.take(i + 1).drop_last() =~= bytes@.take(i as int));
        }
        h = h.wrapping_mul(31).wrapping_add(bytes[i] as usize);
    }
    proof {
        assert(bytes@.take(bytes@.len() as int) =~= bytes@);
    }
    h % NAME_PALETTE_LEN
}

/// How urgently a target date glows.
#[derive(Debug, Clone, Copy, PartialEq, Eq, Structural)]
pub enum DeadlineTone {
    /// Far off, undated, unparsable, or an inactive row.
    Quiet,
    /// Past due.
    Overdue,
    /// Due within a week.
    ThisWeek,
    /// Due within a month.
    ThisMonth,
}

/// The day number (days from the start of the common era) of a
/// `YYYY-MM-DD` date, as chrono parses it.
pub uninterp spec fn ymd_day(s: Seq<char>) -> Option<i32>;

/// chrono's `NaiveDate::parse_from_str(s, "%Y-%m-%d")`, read as its day
/// number (`Datelike::num_days_from_ce`); named by [`ymd_day`].
#[verifier::external_body]
fn parse_ymd(s: &str) -> (r: Option<i32>)
    ensures
        r == ymd_day(s@),
{
    match chrono::NaiveDate::parse_from_str(s, "%Y-%m-%d") {
        Ok(d) => Some(chrono::Datelike::num_days_from_ce(&d)),
        Err(_) => None,
    }
}

/// The tone for a target `days` away (negative: past).
pub open spec fn tone_for(days: int) -> DeadlineTone {
    if days < 0 {
        DeadlineTone::Overdue
    } else if days <= 7 {
        DeadlineTone::ThisWeek
    } else if days <= 30 {
        DeadlineTone::ThisMonth
    } else {
        DeadlineTone::Quiet
    }
}

/// The target day of an optional date text.
pub open spec fn target_day(target: Option<Seq<char>>) -> Option<i32> {
    match target {
        Some(t) => ymd_day(t),
        None => None,
    }
}

/// The optional target text, by its characters.
pub open spec fn target_chars(target: Option<&str>) -> Option<Seq<char>> {
    match target {
        Some(t) => Some(t@),
        None => None,
    }
}

/// The tone of a target on day `today`: quiet for an inactive row or a
/// missing or unparsable target, else by how many days away it is.
pub open spec fn target_tone(target: Option<Seq<char>>, active: bool, today: i32) -> DeadlineTone {
    if !active {
        DeadlineTone::Quiet
    } else {
        match target_day(target) {
            Some(d) => tone_for(d - today),
            None => DeadlineTone::Quiet,
        }
    }
}

/// How urgently a `YYYY-MM-DD` target glows, `today` being a day number:
/// past due, this week, this month; inactive rows and unparsable or
/// missing targets stay quiet.
pub fn deadline_tone(target: Option<&str>, active: bool, today: i32) -> (r: DeadlineTone)
    ensures
        r == target_tone(target_chars(target), active, today),
{
    if !active {
        return DeadlineTone::Quiet;
    }
    let d = match target {
        Some(t) => parse_ymd(t),
        None => None,
    };
    match d {
        Some(d) => {
            let days = (d as i64) - (today as i64);
            if days < 0 {
                DeadlineTone::Overdue
            } else if days <= 7 {
                DeadlineTone::ThisWeek
            } else if days <= 30 {
                DeadlineTone::ThisMonth
            } else {
                DeadlineTone::Quiet
            }
        },
        None => DeadlineTone::Quiet,
    }
}

} // verus!
