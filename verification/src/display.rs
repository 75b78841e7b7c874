//! The text the screens draw: the card's lines, the priority letter,
//! character-count truncation with an ellipsis, the scrolling marquee of a
//! focused card's title, completion bars, and a list's visible window.

use vstd::prelude::*;

use crate::model::Card;
use crate::steps::min_int;
use crate::text::{chars_of, string_from_chars};
use crate::lines::push_str;

verus! {

/// Width of the completion bars on the list pages.
pub const BAR_WIDTH: usize = 10;

/// The letter a priority shows as on a card.
pub open spec fn priority_text(p: Seq<char>) -> Seq<char> {
    if p == "low"@ {
        "(L)"@
    } else if p == "medium"@ {
        "(M)"@
    } else if p == "high"@ {
        "(H)"@
    } else if p == "urgent"@ {
        "(U)"@
    } else {
        "( )"@
    }
}

pub fn priority_letter(p: &str) -> (r: &'static str)
    ensures
        r@ == priority_text(p@),
{
    if crate::text::str_eq(p, "low") {
        "(L)"
    } else if crate::text::str_eq(p, "medium") {
        "(M)"
    } else if crate::text::str_eq(p, "high") {
        "(H)"
    } else if crate::text::str_eq(p, "urgent") {
        "(U)"
    } else {
        "( )"
    }
}

/// A card's two text lines: `KEY (P)` and the indented title.
pub fn card_lines(card: &Card) -> (r: (String, String))
    ensures
        r.0@ == card.key@ + " "@ + priority_text(card.priority@),
        r.1@ == "  "@ + card.title@,
{
    let mut k: Vec<char> = Vec::new();
    push_str(&mut k, card.key.as_str());
    push_str(&mut k, " ");
    push_str(&mut k, priority_letter(card.priority.as_str()));
    let mut t: Vec<char> = Vec::new();
    push_str(&mut t, "  ");
    push_str(&mut t, card.title.as_str());
    (string_from_chars(&k), string_from_chars(&t))
}

/// `s` cut to `max` characters: unchanged when it fits, else its first
/// `max - 1` characters and an ellipsis.
pub open spec fn truncated(s: Seq<char>, max: int) -> Seq<char> {
    if s.len() <= max {
        s
    } else if max >= 1 {
        s.take(max - 1).push('…')
    } else {
        seq!['…']
    }
}

/// Truncates to `max` *characters* (not bytes), with an ellipsis when cut.
pub fn truncate(s: &str, max: usize) -> (r: String)
    ensures
        r@ == truncated(s@, max as int),
{
    let cs = chars_of(s);
    if cs.len() <= max {
        return s.to_owned();
    }
    let keep = if max >= 1 {
        max - 1
    } else {
        0
    };
    let mut out: Vec<char> = Vec::new();
    for i in 0..keep
        invariant
            keep < cs@.len(),
            out@ == cs@.take(i as int),
    {
        out.push(cs[i]);
        proof {
            assert(cs@.take(i + 1) =~= cs@.take(i as int).push(cs@[i as int]));
        }
    }
    out.push('…');
    proof {
        if max == 0 {
            assert(out@ =~= seq!['…']);
        }
    }
    string_from_chars(&out)
}

/// The separator between the end of a scrolling title and its start.
pub open spec fn marquee_sep() -> Seq<char> {
    seq![' ', ' ', ' ', '•', ' ', ' ', ' ']
}

/// The `viewport` characters of a scrolling title at time `now_ms`: the
/// title and the separator, looped, starting one character further every
/// 200 ms. A title that fits is shown as it is; a zero viewport shows
/// nothing.
pub open spec fn marquee(text: Seq<char>, viewport: int, now_ms: u128) -> Seq<char> {
    if viewport == 0 {
        Seq::empty()
    } else if text.len() <= viewport {
        text
    } else {
        let padded = text + marquee_sep();
        let len = padded.len() as int;
        let offset = ((now_ms / 200) as usize) as int % len;
        Seq::new(viewport as nat, |i: int| padded[(offset + i) % len])
    }
}

/// `(a + b) % m` for `a` and `b` below `m`, without overflow.
fn wrap_add(a: usize, b: usize, m: usize) -> (r: usize)
    requires
        a < m,
        b < m,
    ensures
        r == (a + b) % (m as int),
{
    if b < m - a {
        proof {
            vstd::arithmetic::div_mod::lemma_small_mod((a + b) as nat, m as nat);
        }
        a + b
    } else {
        let r = b - (m - a);
        proof {
            let x = a + b;
            assert(x % (m as int) == x - m) by (nonlinear_arith)
                requires
                    m <= x < 2 * m,
                    m > 0,
            ;
        }
        r
    }
}

pub fn marquee_slice(text: &str, viewport: usize, now_ms: u128) -> (r: String)
    ensures
        r@ == marquee(text@, viewport as int, now_ms),
{
    if viewport == 0 {
        return String::new();
    }
    let chars = chars_of(text);
    if chars.len() <= viewport {
        return text.to_owned();
    }
    let mut padded = chars;
    let sep: [char; 7] = [' ', ' ', ' ', '•', ' ', ' ', ' '];
    let ghost before = padded@;
    for k in 0..7
        invariant
            padded@ == before + marquee_sep().take(k as int),
            sep@ == marquee_sep(),
    {
        padded.push(sep[k]);
        proof {
            assert(marquee_sep().take(k + 1) =~= marquee_sep().take(k as int).push(sep@[k as int]));
        }
    }
    proof {
        assert(marquee_sep().take(7) =~= marquee_sep());
    }
    let len = padded.len();
    let step = now_ms / 200;
    let offset = (step as usize) % len;
    let mut out: Vec<char> = Vec::new();
    let mut i: usize = 0;
    while i < viewport
        invariant
            i <= viewport,
            len == padded@.len(),
            len == text@.len() + 7,
            padded@ == text@ + marquee_sep(),
            offset == ((now_ms / 200) as usize) as int % len as int,
            offset < len,
            viewport < len,
            out@.len() == i,
            forall|j: int| 0 <= j < i ==> out@[j] == padded@[(offset + j) % (len as int)],
        decreases viewport - i,
    {
        let idx = wrap_add(offset, i, len);
        out.push(padded[idx]);
        i = i + 1;
    }
    proof {
        let padded_s = text@ + marquee_sep();
        let want = Seq::new(viewport as nat, |j: int| padded_s[(offset + j) % (len as int)]);
        assert(out@ =~= want);
    }
    string_from_chars(&out)
}

/// How many of `width` bar cells are filled at `percent`: the percentage
/// of the width, rounded up (so any progress shows), at most the width.
pub open spec fn filled_cells(percent: int, width: int) -> int {
    min_int((percent * width + 99) / 100, width)
}

/// `n` copies of `c`.
pub open spec fn repeated(c: char, n: int) -> Seq<char> {
    Seq::new(n as nat, |i: int| c)
}

fn repeat_char(c: char, n: usize) -> (r: String)
    ensures
        r@ == repeated(c, n as int),
{
    let mut v: Vec<char> = Vec::new();
    for i in 0..n
        invariant
            v@ == repeated(c, i as int),
    {
        v.push(c);
        proof {
            assert(v@ =~= repeated(c, i + 1));
        }
    }
    string_from_chars(&v)
}

/// The filled and empty halves of a `█`/`░` completion bar.
pub fn bar_parts(percent: u16, width: usize) -> (r: (String, String))
    requires
        percent * width <= usize::MAX,
    ensures
        r.0@ == repeated('█', filled_cells(percent as int, width as int)),
        r.1@ == repeated('░', width - filled_cells(percent as int, width as int)),
{
    let product = (percent as usize) * width;
    let up = if product % 100 == 0 {
        product / 100
    } else {
        product / 100 + 1
    };
    let filled = if up < width {
        up
    } else {
        width
    };
    (repeat_char('█', filled), repeat_char('░', width - filled))
}

/// The rows of a list that fit `rows` lines with the cursor in view: the
/// cursor clamped to the list, the first row shown, and one past the last.
/// The window stays at the top while the cursor fits, then slides so the
/// cursor is on the last visible row.
pub open spec fn window(cursor: int, total: int, rows: int) -> (int, int, int) {
    let c = min_int(cursor, if total > 0 {
        total - 1
    } else {
        0
    });
    let start = if c < rows {
        0
    } else {
        c + 1 - rows
    };
    (c, start, min_int(start + rows, total))
}

pub fn visible_window(cursor: usize, total: usize, rows: usize) -> (r: (usize, usize, usize))
    ensures
        (r.0 as int, r.1 as int, r.2 as int) == window(cursor as int, total as int, rows as int),
{
    let last = if total > 0 {
        total - 1
    } else {
        0
    };
    let c = if cursor < last {
        cursor
    } else {
        last
    };
    let start = if c < rows {
        0
    } else {
        c + 1 - rows
    };
    let end = if rows <= total && start <= total - rows {
        start + rows
    } else {
        total
    };
    (c, start, end)
}

/// A bar is empty at 0%, full at 100%, and shows at least one filled cell
/// for any progress.
pub proof fn law_bar_ends(width: int, percent: int)
    requires
        width >= 1,
        1 <= percent <= 100,
    ensures
        filled_cells(0, width) == 0,
        filled_cells(100, width) == width,
        1 <= filled_cells(percent, width) <= width,
{
    assert((0 * width + 99) / 100 == 0) by (nonlinear_arith);
    assert((100 * width + 99) / 100 == width) by (nonlinear_arith)
        requires
            width >= 1,
    ;
    assert((percent * width + 99) / 100 >= 1) by (nonlinear_arith)
        requires
            width >= 1,
            percent >= 1,
    ;
}

/// A truncated text never exceeds the limit (for a limit of at least one),
/// and keeps the text's beginning.
pub proof fn law_truncate_fits(s: Seq<char>, max: int)
    requires
        max >= 1,
    ensures
        truncated(s, max).len() <= max,
        s.len() <= max ==> truncated(s, max) == s,
        s.len() > max ==> truncated(s, max).take(max - 1) == s.take(max - 1) && truncated(
            s,
            max,
        ).last() == '…',
{
    if s.len() > max {
        assert(truncated(s, max).take(max - 1) =~= s.take(max - 1));
    }
}

/// A scrolling title always fills exactly the viewport.
pub proof fn law_marquee_fills_viewport(text: Seq<char>, viewport: int, now_ms: u128)
    requires
        viewport >= 0,
        text.len() > viewport,
    ensures
        marquee(text, viewport, now_ms).len() == viewport,
{
}


/// What the picker popup shows: its title, the query typed so far, the
/// rows that passed the filter (already filtered by the caller), and the
/// cursor, an index into those rows.
pub struct PickerView<'a> {
    pub title: &'a str,
    pub query: &'a str,
    pub items: &'a [String],
    pub cursor: usize,
}

/// A picker row: the cursor row is marked with `▸`, the others indented.
pub open spec fn picker_row(label: Seq<char>, on_cursor: bool) -> Seq<char> {
    if on_cursor {
        "▸ "@ + label
    } else {
        "  "@ + label
    }
}

/// The list rows a picker shows in `rows` lines: a placeholder when nothing
/// matched, else the window of rows that keeps the cursor in view.
pub open spec fn picker_rows(items: Seq<Seq<char>>, cursor: int, rows: int) -> Seq<Seq<char>> {
    if items.len() == 0 {
        seq!["  (no matches)"@]
    } else {
        let (c, start, end) = window(cursor, items.len() as int, rows);
        Seq::new((end - start) as nat, |i: int| picker_row(items[start + i], start + i == c))
    }
}

impl<'a> PickerView<'a> {
    /// The popup's heading, the title padded with a space on each side.
    pub fn heading(&self) -> (r: String)
        ensures
            r@ == " "@ + self.title@ + " "@,
    {
        let mut v: Vec<char> = Vec::new();
        push_str(&mut v, " ");
        push_str(&mut v, self.title);
        push_str(&mut v, " ");
        string_from_chars(&v)
    }

    /// The text of the list rows that fit in `rows` lines.
    pub fn list_rows(&self, rows: usize) -> (r: Vec<String>)
        ensures
            r@.map_values(|s: String| s@) == picker_rows(
                self.items@.map_values(|s: String| s@),
                self.cursor as int,
                rows as int,
            ),
    {
        let ghost labels = self.items@.map_values(|s: String| s@);
        let mut out: Vec<String> = Vec::new();
        if self.items.len() == 0 {
            out.push("  (no matches)".to_owned());
            proof {
                assert(out@.map_values(|s: String| s@) =~= seq!["  (no matches)"@]);
            }
            return out;
        }
        let (c, start, end) = visible_window(self.cursor, self.items.len(), rows);
        let mut i: usize = start;
        while i < end
            invariant
                start <= i <= end,
                end <= self.items@.len(),
                labels == self.items@.map_values(|s: String| s@),
                (c as int, start as int, end as int) == window(self.cursor as int, self.items@.len() as int, rows as int),
                out@.len() == i - start,
                forall|k: int|
                    0 <= k < i - start ==> #[trigger] out@[k]@ == picker_row(labels[start + k], start + k == c),
            decreases end - i,
        {
            let mut v: Vec<char> = Vec::new();
            if i == c {
                push_str(&mut v, "▸ ");
            } else {
                push_str(&mut v, "  ");
            }
            push_str(&mut v, self.items[i].as_str());
            let ghost prev = out@;
            out.push(string_from_chars(&v));
            proof {
                assert forall|k: int| 0 <= k < i + 1 - start implies #[trigger] out@[k]@ == picker_row(
                    labels[start + k],
                    start + k == c,
                ) by {
                    if k < i - start {
                        assert(out@[k] == prev[k]);
                    }
                }
            }
            i = i + 1;
        }
        proof {
            assert(out@.map_values(|s: String| s@) =~= picker_rows(labels, self.cursor as int, rows as int));
        }
        out
    }
}

/// A popup centred in an area (`x`, `y`, `w`, `h`): `width_pct` percent of
/// the width but at least 20 cells (never wider than the area), and
/// `height_max` rows at most.
pub open spec fn centered(width_pct: int, height_max: int, x: int, y: int, w: int, h: int) -> (int, int, int, int) {
    let scaled = w * width_pct / 100;
    let pw = min_int(if scaled < 20 { 20 } else { scaled }, w);
    let ph = min_int(height_max, h);
    (x + (w - pw) / 2, y + (h - ph) / 2, pw, ph)
}

pub fn centered_rect(width_pct: u16, height_max: u16, x: u16, y: u16, w: u16, h: u16) -> (r: (u16, u16, u16, u16))
    requires
        w * width_pct <= u16::MAX,
        x + w <= u16::MAX,
        y + h <= u16::MAX,
    ensures
        (r.0 as int, r.1 as int, r.2 as int, r.3 as int) == centered(
            width_pct as int,
            height_max as int,
            x as int,
            y as int,
            w as int,
            h as int,
        ),
{
    let scaled = w * width_pct / 100;
    let at_least = if scaled < 20 {
        20
    } else {
        scaled
    };
    let pw = if at_least < w {
        at_least
    } else {
        w
    };
    let ph = if height_max < h {
        height_max
    } else {
        h
    };
    (x + (w - pw) / 2, y + (h - ph) / 2, pw, ph)
}

/// The label tags on a card's key line: ` ·label` for its first two
/// labels (the detail popup lists the rest).
pub fn label_tags(card: &Card) -> (r: Vec<String>)
    ensures
        r@.len() == min_int(card.labels@.len() as int, 2),
        forall|i: int| 0 <= i < r@.len() ==> #[trigger] r@[i]@ == " ·"@ + card.labels@[i]@,
{
    let mut out: Vec<String> = Vec::new();
    let mut i: usize = 0;
    while i < card.labels.len() && i < 2
        invariant
            i <= card.labels@.len(),
            i <= 2,
            out@.len() == i,
            forall|k: int| 0 <= k < i ==> #[trigger] out@[k]@ == " ·"@ + card.labels@[k]@,
        decreases 2 - i,
    {
        let mut v: Vec<char> = Vec::new();
        push_str(&mut v, " ·");
        push_str(&mut v, card.labels[i].as_str());
        out.push(string_from_chars(&v));
        i = i + 1;
    }
    out
}

/// The title line of a card `viewport` characters wide: a focused card
/// whose title does not fit scrolls as a marquee; any other is cut with an
/// ellipsis.
pub fn card_title_text(title: &str, focused: bool, viewport: usize, now_ms: u128) -> (r: String)
    ensures
        r@ == if focused && title@.len() > viewport {
            marquee(title@, viewport as int, now_ms)
        } else {
            truncated(title@, viewport as int)
        },
{
    let n = chars_of(title).len();
    if focused && n > viewport {
        marquee_slice(title, viewport, now_ms)
    } else {
        truncate(title, viewport)
    }
}

} // verus!
