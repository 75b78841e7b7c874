//! What the screens say, as text and tones: the top bar's chips and
//! tallies, a column's header and scroll offset, the detail popup's
//! relation rows and hints, the key hints and status line along the
//! bottom, and the picker's rows. Which color a tone is, is the renderer's
//! business.

use vstd::prelude::*;

use crate::board::{column_len, scope_matches};
use crate::display::{bar_parts, filled_cells, repeated, truncate, truncated, BAR_WIDTH};
use crate::lines::{lines_of, push_chars, push_str, text_lines, trim, trim_chars};
use crate::model::{
    is_open_blocker, trunc_div, App, ColumnId, MilestonePageState, MilestoneRef, PageSort, PickerState, RelationRef,
    StatusFilter,
};
use crate::order::{filter_upto, lemma_filter_upto};
use crate::rows::{filtered_picker, picker_pred};
use crate::text::{
    chars_of, count_text, decimal, decimal_text, digits, pad_left, pad_right, spaces, str_eq,
    string_from_chars,
};

verus! {

/// How a piece of screen text is colored.
#[derive(Debug, Clone, Copy, PartialEq, Eq, Structural)]
pub enum Tone {
    /// The terminal's own color.
    Plain,
    /// De-emphasised text.
    Dim,
    /// Keys, focus and chrome.
    Accent,
    /// Feedback such as a status message.
    Marker,
    /// Something that needs attention (blockers, a non-zero blocked tally).
    Alarm,
    /// A resolved blocker.
    Resolved,
    /// A milestone reference.
    Milestone,
    /// The stable color of the name the text holds.
    Named,
}

/// The top bar: the project and milestone scope chips, the number of issues
/// in scope, and the blocked tally.
#[derive(Debug, Clone)]
pub struct TopBar {
    pub project: String,
    pub project_tone: Tone,
    pub milestone: String,
    pub milestone_tone: Tone,
    pub issues: String,
    pub blocked: String,
    pub blocked_tone: Tone,
}

/// The issues in scope.
pub open spec fn scoped_count(app: App) -> int {
    filter_upto(app.cards@.len(), |i: int| scope_matches(app.scope, app.cards@[i])).len() as int
}

pub open spec fn top_bar_shows(r: TopBar, app: App) -> bool {
    &&& match app.scope.project {
        Some(k) => r.project@ == "▸"@ + k@ && r.project_tone == Tone::Named,
        None => r.project@ == "▸all"@ && r.project_tone == Tone::Accent,
    }
    &&& match app.scope.milestone {
        Some(m) => r.milestone@ == "▸"@ + m@ && r.milestone_tone == Tone::Milestone,
        None => r.milestone@ == "—"@ && r.milestone_tone == Tone::Dim,
    }
    &&& r.issues@ == digits(scoped_count(app) as nat) + " issues"@
    &&& r.blocked@ == "⚠ "@ + digits(column_len(app, ColumnId::Blocked) as nat) + " blocked"@
    &&& r.blocked_tone == (if column_len(app, ColumnId::Blocked) > 0 {
        Tone::Alarm
    } else {
        Tone::Dim
    })
}

fn chip(name: &str) -> (r: String)
    ensures
        r@ == "▸"@ + name@,
{
    let mut v: Vec<char> = Vec::new();
    push_str(&mut v, "▸");
    push_str(&mut v, name);
    string_from_chars(&v)
}

pub fn top_bar(app: &App) -> (r: TopBar)
    ensures
        top_bar_shows(r, *app),
{
    let (project, project_tone) = match &app.scope.project {
        Some(k) => (chip(k.as_str()), Tone::Named),
        None => ("▸all".to_owned(), Tone::Accent),
    };
    let (milestone, milestone_tone) = match &app.scope.milestone {
        Some(m) => (chip(m.as_str()), Tone::Milestone),
        None => ("—".to_owned(), Tone::Dim),
    };
    let count = app.scoped_card_count();
    let blocked_n = app.blocked_count();
    let mut issues: Vec<char> = Vec::new();
    push_str(&mut issues, count_text(count).as_str());
    push_str(&mut issues, " issues");
    let mut blocked: Vec<char> = Vec::new();
    push_str(&mut blocked, "⚠ ");
    push_str(&mut blocked, count_text(blocked_n).as_str());
    push_str(&mut blocked, " blocked");
    TopBar {
        project,
        project_tone,
        milestone,
        milestone_tone,
        issues: string_from_chars(&issues),
        blocked: string_from_chars(&blocked),
        blocked_tone: if blocked_n > 0 {
            Tone::Alarm
        } else {
            Tone::Dim
        },
    }
}

/// A column's label as its header shows it.
pub open spec fn column_label(c: ColumnId) -> Seq<char> {
    match c {
        ColumnId::Backlog => "BACKLOG"@,
        ColumnId::InProgress => "IN-PROGRESS"@,
        ColumnId::Blocked => "BLOCKED"@,
        ColumnId::InReview => "IN-REVIEW"@,
        ColumnId::Done => "DONE"@,
    }
}

/// A column's title: its label and how many cards it holds.
pub fn column_header(col: ColumnId, count: usize) -> (r: String)
    ensures
        r@ == " "@ + column_label(col) + " ("@ + digits(count as nat) + ") "@,
{
    let mut v: Vec<char> = Vec::new();
    push_str(&mut v, " ");
    push_str(&mut v, col.label());
    push_str(&mut v, " (");
    push_str(&mut v, count_text(count).as_str());
    push_str(&mut v, ") ");
    string_from_chars(&v)
}

/// The first card a column shows when `max_visible` fit: the top, unless
/// the column holds the focus (`focused`) and the focused card would fall
/// below the last visible slot, in which case it sits in that slot.
pub open spec fn scroll_start(focused: Option<usize>, max_visible: int) -> int {
    match focused {
        Some(f) => if max_visible > 0 && f >= max_visible {
            f - (max_visible - 1)
        } else {
            0
        },
        None => 0,
    }
}

pub fn column_scroll(focused: Option<usize>, max_visible: usize) -> (r: usize)
    ensures
        r as int == scroll_start(focused, max_visible as int),
{
    match focused {
        Some(f) => if max_visible > 0 && f >= max_visible {
            f - (max_visible - 1)
        } else {
            0
        },
        None => 0,
    }
}

/// The label of a relation row in the detail popup.
pub open spec fn relation_label_text(kind: Seq<char>) -> Seq<char> {
    if kind == "blocked_by"@ {
        "blocked by"@
    } else if kind == "blocks"@ {
        "blocks"@
    } else {
        "related"@
    }
}

pub fn relation_label(kind: &str) -> (r: &'static str)
    ensures
        r@ == relation_label_text(kind@),
{
    if str_eq(kind, "blocked_by") {
        "blocked by"
    } else if str_eq(kind, "blocks") {
        "blocks"
    } else {
        "related"
    }
}

/// An open blocker is alarming; a blocker that is done is resolved; any
/// other relation is quiet.
pub open spec fn relation_tone_of(r: RelationRef) -> Tone {
    if is_open_blocker(r) {
        Tone::Alarm
    } else if r.kind@ == "blocked_by"@ {
        Tone::Resolved
    } else {
        Tone::Dim
    }
}

pub fn relation_tone(r: &RelationRef) -> (t: Tone)
    ensures
        t == relation_tone_of(*r),
{
    if r.open_blocker() {
        Tone::Alarm
    } else if str_eq(r.kind.as_str(), "blocked_by") {
        Tone::Resolved
    } else {
        Tone::Dim
    }
}

/// A relation row's text: the counterpart's key and its title, cut to 40
/// characters.
pub fn relation_text(r: &RelationRef) -> (t: String)
    ensures
        t@ == r.key@ + "  "@ + truncated(r.title@, 40),
{
    let mut v: Vec<char> = Vec::new();
    push_str(&mut v, r.key.as_str());
    push_str(&mut v, "  ");
    push_str(&mut v, truncate(r.title.as_str(), 40).as_str());
    string_from_chars(&v)
}

/// Whether any of the relations is an open blocker.
pub fn any_open_blocker(rels: &[RelationRef]) -> (r: bool)
    ensures
        r == exists|i: int| 0 <= i < rels@.len() && #[trigger] is_open_blocker(rels@[i]),
{
    let mut i: usize = 0;
    while i < rels.len()
        invariant
            i <= rels@.len(),
            forall|k: int| 0 <= k < i ==> !#[trigger] is_open_blocker(rels@[k]),
        decreases rels@.len() - i,
    {
        if rels[i].open_blocker() {
            return true;
        }
        i = i + 1;
    }
    false
}

/// The detail popup's hints: the blocker jump is offered only when there is
/// an open blocker to jump to.
pub fn detail_hints(rels: &[RelationRef]) -> (r: Vec<(&'static str, &'static str)>)
    ensures
        (exists|i: int| 0 <= i < rels@.len() && #[trigger] is_open_blocker(rels@[i])) ==> r@.len() == 3
            && r@[0].0@ == "b"@ && r@[0].1@ == "jump to blocker"@ && r@[1].0@ == "e"@ && r@[1].1@
            == "edit"@ && r@[2].0@ == "q/esc"@ && r@[2].1@ == "back"@,
        !(exists|i: int| 0 <= i < rels@.len() && #[trigger] is_open_blocker(rels@[i])) ==> r@.len() == 2
            && r@[0].0@ == "e"@ && r@[0].1@ == "edit"@ && r@[1].0@ == "q/esc"@ && r@[1].1@ == "back"@,
{
    let mut out: Vec<(&'static str, &'static str)> = Vec::new();
    if any_open_blocker(rels) {
        out.push(("b", "jump to blocker"));
    }
    out.push(("e", "edit"));
    out.push(("q/esc", "back"));
    out
}

/// The spans of a `key label  key label …` hint line.
pub open spec fn hint_spans_of(pairs: Seq<(Seq<char>, Seq<char>)>) -> Seq<(Seq<char>, Tone)>
    decreases pairs.len(),
{
    if pairs.len() == 0 {
        Seq::empty()
    } else {
        let before = hint_spans_of(pairs.drop_last());
        let gap = if pairs.len() > 1 {
            seq![("  "@, Tone::Plain)]
        } else {
            Seq::empty()
        };
        before + gap + seq![(pairs.last().0, Tone::Accent), (" "@ + pairs.last().1, Tone::Dim)]
    }
}

pub open spec fn span_view(s: Seq<(String, Tone)>) -> Seq<(Seq<char>, Tone)> {
    s.map_values(|p: (String, Tone)| (p.0@, p.1))
}

pub open spec fn pair_view(s: Seq<(&str, &str)>) -> Seq<(Seq<char>, Seq<char>)> {
    s.map_values(|p: (&str, &str)| (p.0@, p.1@))
}

/// A hint line: keys in the accent, labels dimmed, two spaces apart.
pub fn hint_spans(pairs: &[(&str, &str)]) -> (r: Vec<(String, Tone)>)
    ensures
        span_view(r@) == hint_spans_of(pair_view(pairs@)),
{
    let mut out: Vec<(String, Tone)> = Vec::new();
    let mut i: usize = 0;
    proof {
        assert(pair_view(pairs@).take(0) =~= Seq::<(Seq<char>, Seq<char>)>::empty());
        assert(span_view(out@) =~= Seq::<(Seq<char>, Tone)>::empty());
    }
    while i < pairs.len()
        invariant
            i <= pairs@.len(),
            span_view(out@) == hint_spans_of(pair_view(pairs@).take(i as int)),
        decreases pairs@.len() - i,
    {
        let ghost before = span_view(out@);
        let (key, label) = pairs[i];
        if i > 0 {
            out.push(("  ".to_owned(), Tone::Plain));
        }
        out.push((key.to_owned(), Tone::Accent));
        let mut l: Vec<char> = Vec::new();
        push_str(&mut l, " ");
        push_str(&mut l, label);
        out.push((string_from_chars(&l), Tone::Dim));
        proof {
            let pv = pair_view(pairs@);
            assert(pv.take(i + 1).drop_last() =~= pv.take(i as int));
            assert(pv.take(i + 1).last() == (key@, label@));
            let gap = if i > 0 {
                seq![("  "@, Tone::Plain)]
            } else {
                Seq::<(Seq<char>, Tone)>::empty()
            };
            assert(span_view(out@) =~= before + gap + seq![(key@, Tone::Accent), (" "@ + label@, Tone::Dim)]);
        }
        i = i + 1;
    }
    proof {
        assert(pair_view(pairs@).take(pairs@.len() as int) =~= pair_view(pairs@));
    }
    out
}

/// The bottom line: a status message first (marked, then a bar), then the
/// hints.
pub fn status_spans(status_msg: &Option<String>, pairs: &[(&str, &str)]) -> (r: Vec<(String, Tone)>)
    ensures
        span_view(r@) == match *status_msg {
            Some(m) => seq![(m@, Tone::Marker), ("  |  "@, Tone::Dim)] + hint_spans_of(pair_view(pairs@)),
            None => hint_spans_of(pair_view(pairs@)),
        },
{
    let hints = hint_spans(pairs);
    match status_msg {
        Some(m) => {
            let mut out: Vec<(String, Tone)> = Vec::new();
            out.push((m.clone(), Tone::Marker));
            out.push(("  |  ".to_owned(), Tone::Dim));
            let mut i: usize = 0;
            while i < hints.len()
                invariant
                    i <= hints@.len(),
                    span_view(out@) == seq![(m@, Tone::Marker), ("  |  "@, Tone::Dim)] + span_view(hints@).take(i as int),
                decreases hints@.len() - i,
            {
                let ghost before = span_view(out@);
                out.push((hints[i].0.clone(), hints[i].1));
                proof {
                    assert(span_view(out@) =~= before.push((hints@[i as int].0@, hints@[i as int].1)));
                    assert(span_view(hints@).take(i + 1) =~= span_view(hints@).take(i as int).push(
                        (hints@[i as int].0@, hints@[i as int].1),
                    ));
                }
                i = i + 1;
            }
            proof {
                assert(span_view(hints@).take(hints@.len() as int) =~= span_view(hints@));
            }
            out
        },
        None => hints,
    }
}

/// The picker's rows: the labels of the items that pass its query, in
/// order.
pub fn picker_labels(p: &PickerState) -> (r: Vec<String>)
    ensures
        r@.len() == filter_upto(p.items@.len(), picker_pred(*p)).len(),
        forall|k: int|
            0 <= k < r@.len() ==> #[trigger] r@[k]@ == p.items@[filter_upto(p.items@.len(), picker_pred(*p))[k] as int].label@,
{
    let idx = filtered_picker(p);
    let _n = p.items.len();
    proof {
        lemma_filter_upto(p.items@.len(), picker_pred(*p));
    }
    let mut out: Vec<String> = Vec::new();
    let mut i: usize = 0;
    while i < idx.len()
        invariant
            i <= idx@.len(),
            idx@ == filter_upto(p.items@.len(), picker_pred(*p)),
            forall|k: int| 0 <= k < idx@.len() ==> (#[trigger] idx@[k]) < p.items@.len(),
            out@.len() == i,
            forall|k: int| 0 <= k < i ==> #[trigger] out@[k]@ == p.items@[idx@[k] as int].label@,
        decreases idx@.len() - i,
    {
        out.push(p.items[idx[i]].label.clone());
        i = i + 1;
    }
    out
}

/// The first loaded card keyed `key`, if any.
pub open spec fn card_keyed(app: App, key: Seq<char>) -> Option<int> {
    if exists|i: int| 0 <= i < app.cards@.len() && #[trigger] app.cards@[i].key@ == key {
        Some(
            choose|i: int|
                0 <= i < app.cards@.len() && #[trigger] app.cards@[i].key@ == key && forall|j: int|
                    0 <= j < i ==> app.cards@[j].key@ != key,
        )
    } else {
        None
    }
}

/// How the fuzzy finder lists a result: `KEY  title` for a loaded card,
/// the bare key otherwise.
pub open spec fn fuzzy_label(app: App, key: Seq<char>) -> Seq<char> {
    match card_keyed(app, key) {
        Some(i) => app.cards@[i].key@ + "  "@ + app.cards@[i].title@,
        None => key,
    }
}

fn find_card(app: &App, key: &str) -> (r: Option<usize>)
    ensures
        match r {
            Some(i) => i < app.cards@.len() && app.cards@[i as int].key@ == key@ && forall|j: int|
                0 <= j < i ==> app.cards@[j].key@ != key@,
            None => forall|j: int| 0 <= j < app.cards@.len() ==> app.cards@[j].key@ != key@,
        },
{
    let mut i: usize = 0;
    while i < app.cards.len()
        invariant
            i <= app.cards@.len(),
            forall|j: int| 0 <= j < i ==> app.cards@[j].key@ != key@,
        decreases app.cards@.len() - i,
    {
        if str_eq(app.cards[i].key.as_str(), key) {
            return Some(i);
        }
        i = i + 1;
    }
    None
}

proof fn lemma_card_keyed(app: App, key: Seq<char>, i: int)
    requires
        0 <= i < app.cards@.len(),
        app.cards@[i].key@ == key,
        forall|j: int| 0 <= j < i ==> app.cards@[j].key@ != key,
    ensures
        card_keyed(app, key) == Some(i),
{
    let w = choose|w: int|
        0 <= w < app.cards@.len() && #[trigger] app.cards@[w].key@ == key && forall|j: int|
            0 <= j < w ==> app.cards@[j].key@ != key;
    assert(0 <= w < app.cards@.len() && app.cards@[w].key@ == key && forall|j: int|
        0 <= j < w ==> app.cards@[j].key@ != key);
    if w < i {
        assert(app.cards@[w].key@ != key);
    }
    if i < w {
        assert(app.cards@[i].key@ != key);
    }
}

/// The fuzzy finder's rows, one per result key.
pub fn fuzzy_labels(app: &App, results: &[String]) -> (r: Vec<String>)
    ensures
        r@.len() == results@.len(),
        forall|k: int| 0 <= k < results@.len() ==> #[trigger] r@[k]@ == fuzzy_label(*app, results@[k]@),
{
    let mut out: Vec<String> = Vec::new();
    let mut k: usize = 0;
    while k < results.len()
        invariant
            k <= results@.len(),
            out@.len() == k,
            forall|m: int| 0 <= m < k ==> #[trigger] out@[m]@ == fuzzy_label(*app, results@[m]@),
        decreases results@.len() - k,
    {
        let key = results[k].as_str();
        let label = match find_card(app, key) {
            Some(i) => {
                proof {
                    lemma_card_keyed(*app, key@, i as int);
                }
                let c = &app.cards[i];
                let mut v: Vec<char> = Vec::new();
                push_str(&mut v, c.key.as_str());
                push_str(&mut v, "  ");
                push_str(&mut v, c.title.as_str());
                string_from_chars(&v)
            },
            None => key.to_owned(),
        };
        out.push(label);
        k = k + 1;
    }
    out
}

/// The milestone page's title: the scoped project, or all of them.
pub fn milestone_page_title(project: &Option<String>) -> (r: String)
    ensures
        r@ == match *project {
            Some(p) => "Milestones · "@ + p@,
            None => "Milestones · all projects"@,
        },
{
    match project {
        Some(p) => {
            let mut v: Vec<char> = Vec::new();
            push_str(&mut v, "Milestones · ");
            push_str(&mut v, p.as_str());
            string_from_chars(&v)
        },
        None => "Milestones · all projects".to_owned(),
    }
}

/// What an empty milestone list says: an empty database points at `N`, an
/// empty bucket at the ways out of it.
pub fn milestone_page_empty(app: &App) -> (r: &'static str)
    ensures
        r@ == if app.milestones@.len() == 0 {
            "  no milestones yet — N creates one"@
        } else {
            "  nothing in this bucket (Tab switches, / clears with backspace)"@
        },
{
    if app.milestones.len() == 0 {
        "  no milestones yet — N creates one"
    } else {
        "  nothing in this bucket (Tab switches, / clears with backspace)"
    }
}

pub open spec fn status_filter_label(f: StatusFilter) -> Seq<char> {
    match f {
        StatusFilter::Open => "open"@,
        StatusFilter::Completed => "completed"@,
        StatusFilter::Cancelled => "cancelled"@,
        StatusFilter::All => "all"@,
    }
}

pub open spec fn page_sort_label(s: PageSort) -> Seq<char> {
    match s {
        PageSort::Activity => "activity"@,
        PageSort::Name => "name"@,
        PageSort::Target => "target"@,
    }
}

/// The buckets in the order the chips show them.
pub open spec fn chip_filter(i: int) -> StatusFilter {
    if i == 0 {
        StatusFilter::Open
    } else if i == 1 {
        StatusFilter::Completed
    } else if i == 2 {
        StatusFilter::Cancelled
    } else {
        StatusFilter::All
    }
}

/// The milestone page's chips: each bucket, marked when it is the one
/// shown, then the sort and the number of rows shown.
pub fn milestone_chips(state: &MilestonePageState, count: usize) -> (r: (Vec<(StatusFilter, String, bool)>, String))
    ensures
        r.0@.len() == 4,
        forall|i: int|
            0 <= i < 4 ==> (#[trigger] r.0@[i]).0 == chip_filter(i) && r.0@[i].1@ == " "@
                + status_filter_label(chip_filter(i)) + " "@ && r.0@[i].2 == (chip_filter(i) == state.filter),
        r.1@ == "   sort: "@ + page_sort_label(state.sort) + "   "@ + digits(count as nat) + " shown"@,
{
    let filters = [StatusFilter::Open, StatusFilter::Completed, StatusFilter::Cancelled, StatusFilter::All];
    let mut chips: Vec<(StatusFilter, String, bool)> = Vec::new();
    let mut i: usize = 0;
    while i < 4
        invariant
            i <= 4,
            filters@ == seq![StatusFilter::Open, StatusFilter::Completed, StatusFilter::Cancelled, StatusFilter::All],
            chips@.len() == i,
            forall|k: int|
                0 <= k < i ==> (#[trigger] chips@[k]).0 == chip_filter(k) && chips@[k].1@ == " "@
                    + status_filter_label(chip_filter(k)) + " "@ && chips@[k].2 == (chip_filter(k) == state.filter),
        decreases 4 - i,
    {
        let f = filters[i];
        let mut v: Vec<char> = Vec::new();
        push_str(&mut v, " ");
        push_str(&mut v, f.label());
        push_str(&mut v, " ");
        let active = match (f, state.filter) {
            (StatusFilter::Open, StatusFilter::Open) => true,
            (StatusFilter::Completed, StatusFilter::Completed) => true,
            (StatusFilter::Cancelled, StatusFilter::Cancelled) => true,
            (StatusFilter::All, StatusFilter::All) => true,
            _ => false,
        };
        chips.push((f, string_from_chars(&v), active));
        i = i + 1;
    }
    let mut tail: Vec<char> = Vec::new();
    push_str(&mut tail, "   sort: ");
    push_str(&mut tail, state.sort.label());
    push_str(&mut tail, "   ");
    push_str(&mut tail, count_text(count).as_str());
    push_str(&mut tail, " shown");
    (chips, string_from_chars(&tail))
}

/// The cells of a milestone row, each padded to its column: the name (24),
/// the project (6), the status (10), the completion bar, `done/total`
/// right-aligned (7), and the target (11, `-` when there is none).
/// A full bar is drawn in the completion color.
#[derive(Debug, Clone)]
pub struct MilestoneRow {
    pub name: String,
    pub project: String,
    pub status: String,
    pub filled: String,
    pub empty: String,
    pub counts: String,
    pub target: String,
    /// The bar is full: the milestone's issues are all done.
    pub complete: bool,
}

/// The percentage a milestone's bar shows (as `MilestoneRef::percent`
/// computes it).
pub open spec fn shown_percent(m: MilestoneRef) -> int {
    (if m.total == 0 {
        0u16
    } else {
        trunc_div(m.done * 100, m.total as int) as u16
    }) as int
}

pub fn milestone_row(m: &MilestoneRef) -> (r: MilestoneRow)
    requires
        i64::MIN <= m.done * 100 <= i64::MAX,
        !(m.total == -1 && m.done * 100 == i64::MIN),
    ensures
        r.name@ == truncated(m.name@, 24) + spaces(24 - truncated(m.name@, 24).len()) + " "@,
        r.project@ == truncated(m.project@, 6) + spaces(6 - truncated(m.project@, 6).len()) + " "@,
        r.status@ == m.status@ + spaces(10 - m.status@.len()) + " "@,
        r.filled@ == repeated('█', filled_cells(shown_percent(*m), BAR_WIDTH as int)),
        r.empty@ == repeated('░', BAR_WIDTH - filled_cells(shown_percent(*m), BAR_WIDTH as int)) + " "@,
        r.counts@ == spaces(7 - (decimal(m.done as int) + "/"@ + decimal(m.total as int)).len())
            + decimal(m.done as int) + "/"@ + decimal(m.total as int) + "  "@,
        r.complete == (shown_percent(*m) >= 100),
        r.target@ == match m.target {
            Some(t) => t@ + spaces(11 - t@.len()),
            None => "-"@ + spaces(10),
        } + " "@,
{
    let name = pad_right(truncate(m.name.as_str(), 24).as_str(), 24);
    let project = pad_right(truncate(m.project.as_str(), 6).as_str(), 6);
    let status = pad_right(m.status.as_str(), 10);
    let percent = m.percent();
    let (filled, empty) = bar_parts(percent, BAR_WIDTH);
    let mut frac: Vec<char> = Vec::new();
    push_str(&mut frac, decimal_text(m.done).as_str());
    push_str(&mut frac, "/");
    push_str(&mut frac, decimal_text(m.total).as_str());
    let frac = string_from_chars(&frac);
    let counts = pad_left(frac.as_str(), 7);
    let target = match &m.target {
        Some(t) => pad_right(t.as_str(), 11),
        None => pad_right("-", 11),
    };
    proof {
        reveal_strlit("-");
        assert(spaces(11 - 1) =~= spaces(10));
    }
    MilestoneRow {
        name: with_suffix(name.as_str(), " "),
        project: with_suffix(project.as_str(), " "),
        status: with_suffix(status.as_str(), " "),
        filled,
        empty: with_suffix(empty.as_str(), " "),
        counts: with_suffix(counts.as_str(), "  "),
        target: with_suffix(target.as_str(), " "),
        complete: percent >= 100,
    }
}

pub(crate) fn with_suffix(s: &str, suffix: &str) -> (r: String)
    ensures
        r@ == s@ + suffix@,
{
    let mut v: Vec<char> = Vec::new();
    push_str(&mut v, s);
    push_str(&mut v, suffix);
    string_from_chars(&v)
}

/// Width of the wide completion bar in the milestone page's detail pane.
pub const DETAIL_BAR_WIDTH: usize = 30;

/// The milestone page's detail pane for the focused milestone: its name;
/// its project, `done/total done (percent%)`, status and target (`none`
/// when unset); a wide completion bar with the percentage; and, when the
/// description is not blank, its first lines.
#[derive(Debug, Clone)]
pub struct MilestoneDetail {
    pub title: String,
    pub project: String,
    pub counts: String,
    pub status: String,
    pub target: String,
    pub filled: String,
    pub empty: String,
    pub percent: String,
    pub description: Vec<String>,
    /// The bar is full: the milestone's issues are all done.
    pub complete: bool,
}

/// The description lines the pane shows: none for a blank description,
/// else up to `max` lines, each indented by a space.
pub open spec fn description_rows(d: Seq<char>, max: int) -> Seq<Seq<char>> {
    if trim(d).len() == 0 {
        Seq::empty()
    } else {
        let ls = text_lines(d);
        let n = if ls.len() < max { ls.len() as int } else { max };
        Seq::new(n as nat, |i: int| " "@ + ls[i])
    }
}

pub fn milestone_detail(m: &MilestoneRef, max_lines: usize) -> (r: MilestoneDetail)
    requires
        i64::MIN <= m.done * 100 <= i64::MAX,
        !(m.total == -1 && m.done * 100 == i64::MIN),
    ensures
        r.title@ == " "@ + m.name@,
        r.project@ == " "@ + m.project@,
        r.counts@ == " · "@ + decimal(m.done as int) + "/"@ + decimal(m.total as int) + " done ("@ + digits(
            shown_percent(*m) as nat,
        ) + "%) · "@,
        r.status@ == m.status@,
        r.target@ == match m.target {
            Some(t) => t@,
            None => "none"@,
        },
        r.filled@ == " "@ + repeated('█', filled_cells(shown_percent(*m), DETAIL_BAR_WIDTH as int)),
        r.empty@ == repeated('░', DETAIL_BAR_WIDTH - filled_cells(shown_percent(*m), DETAIL_BAR_WIDTH as int)),
        r.percent@ == " "@ + digits(shown_percent(*m) as nat) + "%"@,
        r.description@.map_values(|l: String| l@) == description_rows(m.description@, max_lines as int),
        r.complete == (shown_percent(*m) >= 100),
{
    let percent = m.percent();
    let pct = count_text(percent as usize);
    let mut counts: Vec<char> = Vec::new();
    push_str(&mut counts, " · ");
    push_str(&mut counts, decimal_text(m.done).as_str());
    push_str(&mut counts, "/");
    push_str(&mut counts, decimal_text(m.total).as_str());
    push_str(&mut counts, " done (");
    push_str(&mut counts, pct.as_str());
    push_str(&mut counts, "%) · ");
    let (filled, empty) = bar_parts(percent, DETAIL_BAR_WIDTH);
    let target = match &m.target {
        Some(t) => t.clone(),
        None => "none".to_owned(),
    };
    MilestoneDetail {
        title: with_prefix(" ", m.name.as_str()),
        project: with_prefix(" ", m.project.as_str()),
        counts: string_from_chars(&counts),
        status: m.status.clone(),
        target,
        filled: with_prefix(" ", filled.as_str()),
        empty,
        percent: with_suffix(with_prefix(" ", pct.as_str()).as_str(), "%"),
        description: description_lines(m.description.as_str(), max_lines),
        complete: percent >= 100,
    }
}

pub(crate) fn with_prefix(prefix: &str, s: &str) -> (r: String)
    ensures
        r@ == prefix@ + s@,
{
    let mut v: Vec<char> = Vec::new();
    push_str(&mut v, prefix);
    push_str(&mut v, s);
    string_from_chars(&v)
}

pub(crate) fn description_lines(d: &str, max: usize) -> (r: Vec<String>)
    ensures
        r@.map_values(|l: String| l@) == description_rows(d@, max as int),
{
    let cs = chars_of(d);
    let mut out: Vec<String> = Vec::new();
    if trim_chars(&cs).len() == 0 {
        proof {
            assert(out@.map_values(|l: String| l@) =~= description_rows(d@, max as int));
        }
        return out;
    }
    let ls = lines_of(&cs);
    let ghost lv = ls@.map_values(|l: Vec<char>| l@);
    let n = if ls.len() < max {
        ls.len()
    } else {
        max
    };
    let mut i: usize = 0;
    while i < n
        invariant
            i <= n,
            n <= ls@.len(),
            lv == ls@.map_values(|l: Vec<char>| l@),
            lv == text_lines(d@),
            out@.len() == i,
            forall|k: int| 0 <= k < i ==> #[trigger] out@[k]@ == " "@ + lv[k],
        decreases n - i,
    {
        let mut v: Vec<char> = Vec::new();
        v.push(' ');
        push_chars(&mut v, &ls[i]);
        proof {
            assert(v@ =~= " "@ + lv[i as int]) by {
                reveal_strlit(" ");
            }
        }
        out.push(string_from_chars(&v));
        i = i + 1;
    }
    proof {
        assert(out@.map_values(|l: String| l@) =~= description_rows(d@, max as int));
    }
    out
}

} // verus!
