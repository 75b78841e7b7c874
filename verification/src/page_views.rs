//! What the project and activity pages say: their chips, what an empty
//! list says, the cells of a row, and the detail pane of the focused row.
//! Relative times and colors are the renderer's.

use vstd::prelude::*;

use crate::display::{bar_parts, filled_cells, repeated, truncate, truncated, BAR_WIDTH};
use crate::lines::push_str;
use crate::model::{
    act_filter_at, entry_closes, trunc_div, ActFilter, ActivityPageState, ActivityRef, App, ProjFilter,
    ProjSort, ProjectPageState, ProjectRef,
};
use crate::text::{count_text, decimal, decimal_text, digits, pad_left, pad_right, spaces, string_from_chars};
use crate::views::{description_rows, with_prefix, with_suffix, DETAIL_BAR_WIDTH};

verus! {

pub open spec fn proj_filter_label(f: ProjFilter) -> Seq<char> {
    match f {
        ProjFilter::Active => "active"@,
        ProjFilter::Archived => "archived"@,
        ProjFilter::All => "all"@,
    }
}

pub open spec fn proj_sort_label(s: ProjSort) -> Seq<char> {
    match s {
        ProjSort::Activity => "activity"@,
        ProjSort::Name => "name"@,
    }
}

pub open spec fn proj_chip_filter(i: int) -> ProjFilter {
    if i == 0 {
        ProjFilter::Active
    } else if i == 1 {
        ProjFilter::Archived
    } else {
        ProjFilter::All
    }
}

fn same_proj_filter(a: ProjFilter, b: ProjFilter) -> (r: bool)
    ensures
        r == (a == b),
{
    match (a, b) {
        (ProjFilter::Active, ProjFilter::Active) => true,
        (ProjFilter::Archived, ProjFilter::Archived) => true,
        (ProjFilter::All, ProjFilter::All) => true,
        _ => false,
    }
}

/// The project page's chips: each bucket, marked when it is the one shown,
/// then the sort and the number of rows shown.
pub fn project_chips(state: &ProjectPageState, count: usize) -> (r: (Vec<(ProjFilter, String, bool)>, String))
    ensures
        r.0@.len() == 3,
        forall|i: int|
            0 <= i < 3 ==> (#[trigger] r.0@[i]).0 == proj_chip_filter(i) && r.0@[i].1@ == " "@
                + proj_filter_label(proj_chip_filter(i)) + " "@ && r.0@[i].2 == (proj_chip_filter(i) == state.filter),
        r.1@ == "   sort: "@ + proj_sort_label(state.sort) + "   "@ + digits(count as nat) + " shown"@,
{
    let filters = [ProjFilter::Active, ProjFilter::Archived, ProjFilter::All];
    let mut chips: Vec<(ProjFilter, String, bool)> = Vec::new();
    let mut i: usize = 0;
    while i < 3
        invariant
            i <= 3,
            filters@ == seq![ProjFilter::Active, ProjFilter::Archived, ProjFilter::All],
            chips@.len() == i,
            forall|k: int|
                0 <= k < i ==> (#[trigger] chips@[k]).0 == proj_chip_filter(k) && chips@[k].1@ == " "@
                    + proj_filter_label(proj_chip_filter(k)) + " "@ && chips@[k].2 == (proj_chip_filter(k)
                    == state.filter),
        decreases 3 - i,
    {
        let f = filters[i];
        let mut v: Vec<char> = Vec::new();
        push_str(&mut v, " ");
        push_str(&mut v, f.label());
        push_str(&mut v, " ");
        chips.push((f, string_from_chars(&v), same_proj_filter(f, state.filter)));
        i = i + 1;
    }
    let mut tail: Vec<char> = Vec::new();
    push_str(&mut tail, "   sort: ");
    push_str(&mut tail, state.sort.label());
    push_str(&mut tail, "   ");
    push_str(&mut tail, count_text(count).as_str());
    push_str(&mut tail, " shown");
    (chips, string_from_chars(&tail))
}

/// What an empty project list says: an empty database points at `N`, the
/// way a fresh board starts; an empty bucket at the ways out of it.
pub fn project_page_empty(app: &App) -> (r: &'static str)
    ensures
        r@ == if app.projects@.len() == 0 {
            "  no projects yet — N creates one (that's how a fresh board starts)"@
        } else {
            "  nothing in this bucket (Tab switches, / clears with backspace)"@
        },
{
    if app.projects.len() == 0 {
        "  no projects yet — N creates one (that's how a fresh board starts)"
    } else {
        "  nothing in this bucket (Tab switches, / clears with backspace)"
    }
}

/// The percentage a project's bars show (as `ProjectRef::percent` computes
/// it).
pub open spec fn project_percent(p: ProjectRef) -> int {
    (if p.total == 0 {
        0u16
    } else {
        trunc_div(p.done * 100, p.total as int) as u16
    }) as int
}

/// `done/total`.
pub open spec fn fraction(done: i64, total: i64) -> Seq<char> {
    decimal(done as int) + "/"@ + decimal(total as int)
}

fn fraction_text(done: i64, total: i64) -> (r: String)
    ensures
        r@ == fraction(done, total),
{
    let mut v: Vec<char> = Vec::new();
    push_str(&mut v, decimal_text(done).as_str());
    push_str(&mut v, "/");
    push_str(&mut v, decimal_text(total).as_str());
    string_from_chars(&v)
}

/// The cells of a project row, each padded to its column: the key (7), the
/// name (24), the completion bar, `done/total` right-aligned (7), the
/// milestone count (`N ms`), and `archived` for an archived project.
#[derive(Debug, Clone)]
pub struct ProjectRow {
    pub key: String,
    pub name: String,
    pub filled: String,
    pub empty: String,
    pub counts: String,
    pub milestones: String,
    pub archived: String,
    /// The bar is full: the project's issues are all done.
    pub complete: bool,
}

pub fn project_row(p: &ProjectRef) -> (r: ProjectRow)
    requires
        i64::MIN <= p.done * 100 <= i64::MAX,
        !(p.total == -1 && p.done * 100 == i64::MIN),
    ensures
        r.key@ == truncated(p.key@, 7) + spaces(7 - truncated(p.key@, 7).len()) + " "@,
        r.name@ == truncated(p.name@, 24) + spaces(24 - truncated(p.name@, 24).len()) + " "@,
        r.filled@ == repeated('█', filled_cells(project_percent(*p), BAR_WIDTH as int)),
        r.empty@ == repeated('░', BAR_WIDTH - filled_cells(project_percent(*p), BAR_WIDTH as int)) + " "@,
        r.counts@ == spaces(7 - fraction(p.done, p.total).len()) + fraction(p.done, p.total) + "  "@,
        r.milestones@ == spaces(2 - decimal(p.milestones as int).len()) + decimal(p.milestones as int)
            + " ms  "@,
        r.archived@ == if p.archived {
            "archived"@
        } else {
            Seq::empty()
        },
        r.complete == (project_percent(*p) >= 100),
{
    let percent = p.percent();
    let (filled, empty) = bar_parts(percent, BAR_WIDTH);
    let key = pad_right(truncate(p.key.as_str(), 7).as_str(), 7);
    let name = pad_right(truncate(p.name.as_str(), 24).as_str(), 24);
    let counts = pad_left(fraction_text(p.done, p.total).as_str(), 7);
    let ms = pad_left(decimal_text(p.milestones).as_str(), 2);
    ProjectRow {
        key: with_suffix(key.as_str(), " "),
        name: with_suffix(name.as_str(), " "),
        filled,
        empty: with_suffix(empty.as_str(), " "),
        counts: with_suffix(counts.as_str(), "  "),
        milestones: with_suffix(ms.as_str(), " ms  "),
        archived: if p.archived {
            "archived".to_owned()
        } else {
            String::new()
        },
        complete: percent >= 100,
    }
}

/// The project page's detail pane for the focused project.
#[derive(Debug, Clone)]
pub struct ProjectDetail {
    pub key: String,
    pub name: String,
    pub counts: String,
    pub milestones: String,
    pub state: String,
    pub filled: String,
    pub empty: String,
    pub percent: String,
    pub description: Vec<String>,
    pub complete: bool,
}

pub fn project_detail(p: &ProjectRef, max_lines: usize) -> (r: ProjectDetail)
    requires
        i64::MIN <= p.done * 100 <= i64::MAX,
        !(p.total == -1 && p.done * 100 == i64::MIN),
    ensures
        r.key@ == " "@ + p.key@,
        r.name@ == "  "@ + p.name@,
        r.counts@ == " "@ + fraction(p.done, p.total) + " issues done ("@ + digits(project_percent(*p) as nat)
            + "%) · "@,
        r.milestones@ == decimal(p.milestones as int) + " milestones"@,
        r.state@ == if p.archived {
            "archived"@
        } else {
            "active"@
        },
        r.filled@ == " "@ + repeated('█', filled_cells(project_percent(*p), DETAIL_BAR_WIDTH as int)),
        r.empty@ == repeated('░', DETAIL_BAR_WIDTH - filled_cells(project_percent(*p), DETAIL_BAR_WIDTH as int)),
        r.percent@ == " "@ + digits(project_percent(*p) as nat) + "%"@,
        r.description@.map_values(|l: String| l@) == description_rows(p.description@, max_lines as int),
        r.complete == (project_percent(*p) >= 100),
{
    let percent = p.percent();
    let pct = count_text(percent as usize);
    let mut counts: Vec<char> = Vec::new();
    push_str(&mut counts, " ");
    push_str(&mut counts, fraction_text(p.done, p.total).as_str());
    push_str(&mut counts, " issues done (");
    push_str(&mut counts, pct.as_str());
    push_str(&mut counts, "%) · ");
    let (filled, empty) = bar_parts(percent, DETAIL_BAR_WIDTH);
    ProjectDetail {
        key: with_prefix(" ", p.key.as_str()),
        name: with_prefix("  ", p.name.as_str()),
        counts: string_from_chars(&counts),
        milestones: with_suffix(decimal_text(p.milestones).as_str(), " milestones"),
        state: if p.archived {
            "archived".to_owned()
        } else {
            "active".to_owned()
        },
        filled: with_prefix(" ", filled.as_str()),
        empty,
        percent: with_suffix(with_prefix(" ", pct.as_str()).as_str(), "%"),
        description: crate::views::description_lines(p.description.as_str(), max_lines),
        complete: percent >= 100,
    }
}

pub open spec fn act_filter_label(f: ActFilter) -> Seq<char> {
    match f {
        ActFilter::All => "all"@,
        ActFilter::Closed => "closed"@,
        ActFilter::Moves => "moves"@,
        ActFilter::Edits => "edits"@,
        ActFilter::Notes => "notes"@,
        ActFilter::Plan => "plan"@,
        ActFilter::Archive => "archive"@,
    }
}

fn same_act_filter(a: ActFilter, b: ActFilter) -> (r: bool)
    ensures
        r == (a == b),
{
    match (a, b) {
        (ActFilter::All, ActFilter::All) => true,
        (ActFilter::Closed, ActFilter::Closed) => true,
        (ActFilter::Moves, ActFilter::Moves) => true,
        (ActFilter::Edits, ActFilter::Edits) => true,
        (ActFilter::Notes, ActFilter::Notes) => true,
        (ActFilter::Plan, ActFilter::Plan) => true,
        (ActFilter::Archive, ActFilter::Archive) => true,
        _ => false,
    }
}

/// The activity page's chips: one per event kind, in Tab order, marked when
/// it is the one shown, then the number of rows shown.
pub fn activity_chips(state: &ActivityPageState, count: usize) -> (r: (Vec<(ActFilter, String, bool)>, String))
    ensures
        r.0@.len() == 7,
        forall|i: int|
            0 <= i < 7 ==> (#[trigger] r.0@[i]).0 == act_filter_at(i) && r.0@[i].1@ == " "@
                + act_filter_label(act_filter_at(i)) + " "@ && r.0@[i].2 == (act_filter_at(i) == state.filter),
        r.1@ == "   "@ + digits(count as nat) + " shown"@,
{
    let filters = ActFilter::all();
    let mut chips: Vec<(ActFilter, String, bool)> = Vec::new();
    let mut i: usize = 0;
    while i < filters.len()
        invariant
            i <= filters@.len() == 7,
            forall|k: int| 0 <= k < 7 ==> #[trigger] filters@[k] == act_filter_at(k),
            chips@.len() == i,
            forall|k: int|
                0 <= k < i ==> (#[trigger] chips@[k]).0 == act_filter_at(k) && chips@[k].1@ == " "@
                    + act_filter_label(act_filter_at(k)) + " "@ && chips@[k].2 == (act_filter_at(k)
                    == state.filter),
        decreases 7 - i,
    {
        let f = filters[i];
        let mut v: Vec<char> = Vec::new();
        push_str(&mut v, " ");
        push_str(&mut v, f.label());
        push_str(&mut v, " ");
        chips.push((f, string_from_chars(&v), same_act_filter(f, state.filter)));
        i = i + 1;
    }
    let mut tail: Vec<char> = Vec::new();
    push_str(&mut tail, "   ");
    push_str(&mut tail, count_text(count).as_str());
    push_str(&mut tail, " shown");
    (chips, string_from_chars(&tail))
}

/// What an empty mailbox says: nothing recorded at all, or nothing of the
/// kind shown.
pub fn activity_page_empty(app: &App) -> (r: &'static str)
    ensures
        r@ == if app.activity@.len() == 0 {
            "  nothing recorded yet — moves, edits, and archives land here as they happen"@
        } else {
            "  nothing of this kind (Tab switches, / clears with backspace)"@
        },
{
    if app.activity.len() == 0 {
        "  nothing recorded yet — moves, edits, and archives land here as they happen"
    } else {
        "  nothing of this kind (Tab switches, / clears with backspace)"
    }
}

/// The kind an entry is colored as: by its effect, so a move that landed
/// in done is a close whatever its stored kind.
#[derive(Debug, Clone, Copy, PartialEq, Eq, Structural)]
pub enum EntryKind {
    Closed,
    Move,
    Edit,
    Note,
    Plan,
    Archive,
    Other,
}

pub open spec fn entry_kind_of(e: ActivityRef) -> EntryKind {
    if entry_closes(e) {
        EntryKind::Closed
    } else if e.kind@ == "status"@ {
        EntryKind::Move
    } else if e.kind@ == "edit"@ {
        EntryKind::Edit
    } else if e.kind@ == "log"@ {
        EntryKind::Note
    } else if e.kind@ == "plan"@ {
        EntryKind::Plan
    } else if e.kind@ == "archive"@ {
        EntryKind::Archive
    } else {
        EntryKind::Other
    }
}

pub fn entry_kind(e: &ActivityRef) -> (r: EntryKind)
    ensures
        r == entry_kind_of(*e),
{
    if e.closes() {
        EntryKind::Closed
    } else if crate::text::str_eq(e.kind.as_str(), "status") {
        EntryKind::Move
    } else if crate::text::str_eq(e.kind.as_str(), "edit") {
        EntryKind::Edit
    } else if crate::text::str_eq(e.kind.as_str(), "log") {
        EntryKind::Note
    } else if crate::text::str_eq(e.kind.as_str(), "plan") {
        EntryKind::Plan
    } else if crate::text::str_eq(e.kind.as_str(), "archive") {
        EntryKind::Archive
    } else {
        EntryKind::Other
    }
}

/// The cells of an activity row, each padded to its column: the issue key
/// (9), the stored kind (8), the message (52), and the actor (`· who`) when
/// the entry is attributed.
#[derive(Debug, Clone)]
pub struct ActivityRow {
    pub key: String,
    pub kind: String,
    pub message: String,
    pub actor: String,
}

pub fn activity_row(e: &ActivityRef) -> (r: ActivityRow)
    ensures
        r.key@ == truncated(e.issue_key@, 9) + spaces(9 - truncated(e.issue_key@, 9).len()) + " "@,
        r.kind@ == e.kind@ + spaces(8 - e.kind@.len()) + " "@,
        r.message@ == truncated(e.message@, 52) + spaces(52 - truncated(e.message@, 52).len()) + " "@,
        r.actor@ == match e.actor {
            Some(a) => "  · "@ + a@,
            None => Seq::empty(),
        },
{
    let key = pad_right(truncate(e.issue_key.as_str(), 9).as_str(), 9);
    let kind = pad_right(e.kind.as_str(), 8);
    let message = pad_right(truncate(e.message.as_str(), 52).as_str(), 52);
    ActivityRow {
        key: with_suffix(key.as_str(), " "),
        kind: with_suffix(kind.as_str(), " "),
        message: with_suffix(message.as_str(), " "),
        actor: match &e.actor {
            Some(a) => with_prefix("  · ", a.as_str()),
            None => String::new(),
        },
    }
}

/// The activity page's detail pane for the focused entry: the issue's key
/// and title, the kind, who did it (or that nobody is on record), and the
/// message. When it happened is the renderer's to write.
#[derive(Debug, Clone)]
pub struct ActivityDetail {
    pub key: String,
    pub title: String,
    pub kind: String,
    pub actor: String,
    pub message: String,
}

pub fn activity_detail(e: &ActivityRef) -> (r: ActivityDetail)
    ensures
        r.key@ == " "@ + e.issue_key@,
        r.title@ == "  "@ + e.title@,
        r.kind@ == " "@ + e.kind@,
        r.actor@ == match e.actor {
            Some(a) => " · by "@ + a@,
            None => " · unattributed"@,
        },
        r.message@ == " "@ + e.message@,
{
    ActivityDetail {
        key: with_prefix(" ", e.issue_key.as_str()),
        title: with_prefix("  ", e.title.as_str()),
        kind: with_prefix(" ", e.kind.as_str()),
        actor: match &e.actor {
            Some(a) => with_prefix(" · by ", a.as_str()),
            None => " · unattributed".to_owned(),
        },
        message: with_prefix(" ", e.message.as_str()),
    }
}

} // verus!
