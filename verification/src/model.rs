//! The board's data model: cards, columns, scope, the page view states, the
//! projections of milestones, projects, relations and audit entries, the
//! modes, and the application state itself.

use vstd::prelude::*;

use crate::text::{str_eq, chars_of, is_whitespace, char_is_ws, ws_prefix_len, seg_start};

verus! {

/// Display projection of an issue. `position` is the issue's board order
/// within its column (smaller sorts first).
#[derive(Debug, Clone, PartialEq, Eq)]
pub struct Card {
    pub id: i64,
    pub key: String,
    pub project: String,
    pub title: String,
    pub status: String,
    pub priority: String,
    pub position: i64,
    pub milestone_id: Option<i64>,
    pub milestone: Option<String>,
    /// Label names, name-ordered.
    pub labels: Vec<String>,
}

/// The five kanban columns.
#[derive(Debug, Clone, Copy, PartialEq, Eq, Hash)]
pub enum ColumnId {
    Backlog,
    InProgress,
    Blocked,
    InReview,
    Done,
}

/// The column at board position `i` (left to right).
pub open spec fn column_at(i: int) -> ColumnId {
    if i == 0 {
        ColumnId::Backlog
    } else if i == 1 {
        ColumnId::InProgress
    } else if i == 2 {
        ColumnId::Blocked
    } else if i == 3 {
        ColumnId::InReview
    } else {
        ColumnId::Done
    }
}

/// The board position of a column (left to right).
pub open spec fn column_pos(c: ColumnId) -> int {
    match c {
        ColumnId::Backlog => 0,
        ColumnId::InProgress => 1,
        ColumnId::Blocked => 2,
        ColumnId::InReview => 3,
        ColumnId::Done => 4,
    }
}

/// The status string a column holds.
pub open spec fn status_text(c: ColumnId) -> Seq<char> {
    match c {
        ColumnId::Backlog => "backlog"@,
        ColumnId::InProgress => "in-progress"@,
        ColumnId::Blocked => "blocked"@,
        ColumnId::InReview => "in-review"@,
        ColumnId::Done => "done"@,
    }
}

/// The column a status string belongs to, if any.
pub open spec fn column_of(s: Seq<char>) -> Option<ColumnId> {
    if s == "backlog"@ {
        Some(ColumnId::Backlog)
    } else if s == "in-progress"@ {
        Some(ColumnId::InProgress)
    } else if s == "blocked"@ {
        Some(ColumnId::Blocked)
    } else if s == "in-review"@ {
        Some(ColumnId::InReview)
    } else if s == "done"@ {
        Some(ColumnId::Done)
    } else {
        None
    }
}

/// Number of board columns.
pub const NUM_COLUMNS: usize = 5;

impl ColumnId {
    pub fn from_status(s: &str) -> (r: Option<Self>)
        ensures
            r == column_of(s@),
    {
        if str_eq(s, "backlog") {
            Some(ColumnId::Backlog)
        } else if str_eq(s, "in-progress") {
            Some(ColumnId::InProgress)
        } else if str_eq(s, "blocked") {
            Some(ColumnId::Blocked)
        } else if str_eq(s, "in-review") {
            Some(ColumnId::InReview)
        } else if str_eq(s, "done") {
            Some(ColumnId::Done)
        } else {
            None
        }
    }

    pub fn status(&self) -> (r: &'static str)
        ensures
            r@ == status_text(*self),
    {
        match self {
            ColumnId::Backlog => "backlog",
            ColumnId::InProgress => "in-progress",
            ColumnId::Blocked => "blocked",
            ColumnId::InReview => "in-review",
            ColumnId::Done => "done",
        }
    }

    pub fn label(&self) -> (r: &'static str)
        ensures
            r@ == (match *self {
                ColumnId::Backlog => "BACKLOG"@,
                ColumnId::InProgress => "IN-PROGRESS"@,
                ColumnId::Blocked => "BLOCKED"@,
                ColumnId::InReview => "IN-REVIEW"@,
                ColumnId::Done => "DONE"@,
            }),
    {
        match self {
            ColumnId::Backlog => "BACKLOG",
            ColumnId::InProgress => "IN-PROGRESS",
            ColumnId::Blocked => "BLOCKED",
            ColumnId::InReview => "IN-REVIEW",
            ColumnId::Done => "DONE",
        }
    }

    /// The board position of this column (left to right).
    pub fn index(&self) -> (r: usize)
        ensures
            r == column_pos(*self),
    {
        match self {
            ColumnId::Backlog => 0,
            ColumnId::InProgress => 1,
            ColumnId::Blocked => 2,
            ColumnId::InReview => 3,
            ColumnId::Done => 4,
        }
    }

    /// The column at board position `i`.
    pub fn at(i: usize) -> (r: Self)
        requires
            i < NUM_COLUMNS,
        ensures
            r == column_at(i as int),
    {
        if i == 0 {
            ColumnId::Backlog
        } else if i == 1 {
            ColumnId::InProgress
        } else if i == 2 {
            ColumnId::Blocked
        } else if i == 3 {
            ColumnId::InReview
        } else {
            ColumnId::Done
        }
    }

    /// Every column, left to right.
    pub fn all() -> (r: Vec<ColumnId>)
        ensures
            r@.len() == NUM_COLUMNS,
            forall|i: int| 0 <= i < NUM_COLUMNS ==> #[trigger] r@[i] == column_at(i),
    {
        vec![
            ColumnId::Backlog,
            ColumnId::InProgress,
            ColumnId::Blocked,
            ColumnId::InReview,
            ColumnId::Done,
        ]
    }
}

/// Scope chips: project key + milestone name. Invariant (see
/// [`Scope::well_formed`]): milestone is None whenever project is None.
#[derive(Debug, Clone, Default, PartialEq, Eq)]
pub struct Scope {
    pub project: Option<String>,
    pub milestone: Option<String>,
}

impl Scope {
    /// The scope invariant: no milestone without a project.
    pub open spec fn well_formed(self) -> bool {
        self.project is None ==> self.milestone is None
    }

    pub fn set_project(&mut self, p: Option<String>)
        ensures
            final(self).project == p,
            final(self).milestone == (if p is None {
                None
            } else {
                old(self).milestone
            }),
    {
        self.project = p;
        if self.project.is_none() {
            self.milestone = None;
        }
    }
}

#[derive(Debug, Clone, Copy, PartialEq, Eq)]
pub struct Focus {
    pub column: ColumnId,
    pub card_idx: usize,
}

impl Focus {
    pub fn new() -> (r: Self)
        ensures
            r == (Focus { column: ColumnId::Backlog, card_idx: 0 }),
    {
        Focus { column: ColumnId::Backlog, card_idx: 0 }
    }
}

#[derive(Debug, Clone, PartialEq, Eq)]
pub struct PickerChip {
    pub label: String,
    pub value: String,
}

#[derive(Debug, Clone)]
pub struct PickerState {
    pub query: String,
    pub items: Vec<PickerChip>,
    pub cursor: usize,
}

#[derive(Debug, Clone)]
pub struct FuzzyState {
    pub query: String,
    pub results: Vec<String>,
    pub cursor: usize,
}

/// Which statuses the milestone page lists.
#[derive(Debug, Clone, Copy, PartialEq, Eq)]
pub enum StatusFilter {
    Open,
    Completed,
    Cancelled,
    All,
}

pub open spec fn status_filter_next(f: StatusFilter) -> StatusFilter {
    match f {
        StatusFilter::Open => StatusFilter::Completed,
        StatusFilter::Completed => StatusFilter::Cancelled,
        StatusFilter::Cancelled => StatusFilter::All,
        StatusFilter::All => StatusFilter::Open,
    }
}

pub open spec fn status_filter_prev(f: StatusFilter) -> StatusFilter {
    match f {
        StatusFilter::Open => StatusFilter::All,
        StatusFilter::Completed => StatusFilter::Open,
        StatusFilter::Cancelled => StatusFilter::Completed,
        StatusFilter::All => StatusFilter::Cancelled,
    }
}

pub open spec fn status_filter_accepts(f: StatusFilter, status: Seq<char>) -> bool {
    match f {
        StatusFilter::All => true,
        StatusFilter::Open => status == "open"@,
        StatusFilter::Completed => status == "completed"@,
        StatusFilter::Cancelled => status == "cancelled"@,
    }
}

impl StatusFilter {
    pub fn label(self) -> (r: &'static str)
        ensures
            r@ == (match self {
                StatusFilter::Open => "open"@,
                StatusFilter::Completed => "completed"@,
                StatusFilter::Cancelled => "cancelled"@,
                StatusFilter::All => "all"@,
            }),
    {
        match self {
            StatusFilter::Open => "open",
            StatusFilter::Completed => "completed",
            StatusFilter::Cancelled => "cancelled",
            StatusFilter::All => "all",
        }
    }

    pub fn next(self) -> (r: Self)
        ensures
            r == status_filter_next(self),
    {
        match self {
            StatusFilter::Open => StatusFilter::Completed,
            StatusFilter::Completed => StatusFilter::Cancelled,
            StatusFilter::Cancelled => StatusFilter::All,
            StatusFilter::All => StatusFilter::Open,
        }
    }

    pub fn prev(self) -> (r: Self)
        ensures
            r == status_filter_prev(self),
    {
        match self {
            StatusFilter::Open => StatusFilter::All,
            StatusFilter::Completed => StatusFilter::Open,
            StatusFilter::Cancelled => StatusFilter::Completed,
            StatusFilter::All => StatusFilter::Cancelled,
        }
    }

    pub fn accepts(self, status: &str) -> (r: bool)
        ensures
            r == status_filter_accepts(self, status@),
    {
        match self {
            StatusFilter::All => true,
            StatusFilter::Open => str_eq(status, "open"),
            StatusFilter::Completed => str_eq(status, "completed"),
            StatusFilter::Cancelled => str_eq(status, "cancelled"),
        }
    }
}

/// How the milestone page orders its rows.
#[derive(Debug, Clone, Copy, PartialEq, Eq)]
pub enum PageSort {
    /// Most recently worked on first (the load order).
    Activity,
    Name,
    Target,
}

pub open spec fn page_sort_next(s: PageSort) -> PageSort {
    match s {
        PageSort::Activity => PageSort::Name,
        PageSort::Name => PageSort::Target,
        PageSort::Target => PageSort::Activity,
    }
}

impl PageSort {
    pub fn label(self) -> (r: &'static str)
        ensures
            r@ == (match self {
                PageSort::Activity => "activity"@,
                PageSort::Name => "name"@,
                PageSort::Target => "target"@,
            }),
    {
        match self {
            PageSort::Activity => "activity",
            PageSort::Name => "name",
            PageSort::Target => "target",
        }
    }

    pub fn next(self) -> (r: Self)
        ensures
            r == page_sort_next(self),
    {
        match self {
            PageSort::Activity => PageSort::Name,
            PageSort::Name => PageSort::Target,
            PageSort::Target => PageSort::Activity,
        }
    }
}

/// The milestone page's view state; rows are projected from
/// `app.milestones` on demand.
#[derive(Debug, Clone)]
pub struct MilestonePageState {
    pub cursor: usize,
    pub query: String,
    pub filter: StatusFilter,
    pub sort: PageSort,
}

impl MilestonePageState {
    pub fn new() -> (r: Self)
        ensures
            r.cursor == 0,
            r.query@ == Seq::<char>::empty(),
            r.filter == StatusFilter::Open,
            r.sort == PageSort::Activity,
    {
        MilestonePageState {
            cursor: 0,
            query: String::new(),
            filter: StatusFilter::Open,
            sort: PageSort::Activity,
        }
    }
}

/// Display projection of a milestone, with the rollups the page shows.
/// `last_activity` is a timestamp (microseconds since the Unix epoch).
#[derive(Debug, Clone, PartialEq, Eq)]
pub struct MilestoneRef {
    pub id: i64,
    pub project: String,
    pub name: String,
    pub description: String,
    pub status: String,
    pub target: Option<String>,
    pub total: i64,
    pub done: i64,
    pub last_activity: i64,
    /// Issues moved to done per week, oldest week first (8 weeks).
    pub closes_8w: [i64; 8],
}

/// The status after `s` in the `C` cycle: open → completed → cancelled → open.
pub open spec fn next_status_text(s: Seq<char>) -> Seq<char> {
    if s == "open"@ {
        "completed"@
    } else if s == "completed"@ {
        "cancelled"@
    } else {
        "open"@
    }
}

/// Integer division rounding toward zero, as Rust's `/` on signed integers.
pub open spec fn trunc_div(a: int, b: int) -> int {
    if a >= 0 {
        if b > 0 {
            a / b
        } else {
            -(a / (-b))
        }
    } else {
        if b > 0 {
            -((-a) / b)
        } else {
            (-a) / (-b)
        }
    }
}

/// `done * 100 / total`, rounded toward zero, as a `u16` (wrapping as
/// `as` does).
fn percent_of(done: i64, total: i64) -> (r: u16)
    requires
        i64::MIN <= done * 100 <= i64::MAX,
        total != 0,
    ensures
        r == trunc_div(done * 100, total as int) as u16,
{
    let n: i128 = (done * 100) as i128;
    let d: i128 = total as i128;
    let q: i128 = if n >= 0 {
        if d > 0 {
            n / d
        } else {
            0 - n / (0 - d)
        }
    } else {
        if d > 0 {
            0 - (0 - n) / d
        } else {
            (0 - n) / (0 - d)
        }
    };
    q as u16
}

impl MilestoneRef {
    /// `done/total` as a percentage; an empty milestone reads as 0.
    pub fn percent(&self) -> (r: u16)
        requires
            i64::MIN <= self.done * 100 <= i64::MAX,
            !(self.total == -1 && self.done * 100 == i64::MIN),
        ensures
            r == (if self.total == 0 {
                0
            } else {
                trunc_div(self.done * 100, self.total as int) as u16
            }),
    {
        if self.total == 0 {
            0
        } else {
            percent_of(self.done, self.total)
        }
    }

    /// The next status in the `C` cycle: open → completed → cancelled → open.
    pub fn next_status(&self) -> (r: &'static str)
        ensures
            r@ == next_status_text(self.status@),
    {
        if str_eq(self.status.as_str(), "open") {
            "completed"
        } else if str_eq(self.status.as_str(), "completed") {
            "cancelled"
        } else {
            "open"
        }
    }
}

/// Display projection of a project, with the rollups the project page shows.
#[derive(Debug, Clone, PartialEq, Eq)]
pub struct ProjectRef {
    pub key: String,
    pub name: String,
    pub description: String,
    pub archived: bool,
    /// Active (board-visible) issues.
    pub total: i64,
    pub done: i64,
    pub milestones: i64,
    pub last_activity: i64,
}

impl ProjectRef {
    /// `done/total` as a percentage; an empty project reads as 0.
    pub fn percent(&self) -> (r: u16)
        requires
            i64::MIN <= self.done * 100 <= i64::MAX,
            !(self.total == -1 && self.done * 100 == i64::MIN),
        ensures
            r == (if self.total == 0 {
                0
            } else {
                trunc_div(self.done * 100, self.total as int) as u16
            }),
    {
        if self.total == 0 {
            0
        } else {
            percent_of(self.done, self.total)
        }
    }
}

/// One reversible board mutation, recorded as its inverse.
#[derive(Debug, Clone, PartialEq, Eq)]
pub enum UndoOp {
    /// The issue was moved; undoing moves it back to `from`.
    Move { key: String, from: String },
    /// A reorder swap is its own inverse.
    Reorder { key: String, other: String },
    /// The issue was archived; undoing unarchives it.
    Archive { key: String },
}

/// One relation edge of the card open in the detail popup.
#[derive(Debug, Clone, PartialEq, Eq)]
pub struct RelationRef {
    /// `blocks` / `related_to` / `blocked_by`.
    pub kind: String,
    pub key: String,
    pub title: String,
    pub status: String,
}

/// A blocker that still bites: not yet done.
pub open spec fn is_open_blocker(r: RelationRef) -> bool {
    r.kind@ == "blocked_by"@ && r.status@ != "done"@
}

impl RelationRef {
    pub fn open_blocker(&self) -> (r: bool)
        ensures
            r == is_open_blocker(*self),
    {
        str_eq(self.kind.as_str(), "blocked_by") && !str_eq(self.status.as_str(), "done")
    }
}

/// One row of the activity mailbox: an audit entry joined with its issue.
/// `ts` is a timestamp (microseconds since the Unix epoch).
#[derive(Debug, Clone, PartialEq, Eq)]
pub struct ActivityRef {
    pub issue_key: String,
    pub title: String,
    pub project: String,
    /// `status`, `edit`, `log`, `plan`, or `archive`.
    pub kind: String,
    pub message: String,
    pub actor: Option<String>,
    pub ts: i64,
}

/// The text after the last `→` of a message (all of it when there is none).
pub open spec fn landing_part(m: Seq<char>) -> Seq<char> {
    m.subrange(seg_start(m, '→'), m.len() as int)
}

/// A move message (`from → to`, optionally `: note`) whose target is done.
pub open spec fn lands_in_done(m: Seq<char>) -> bool {
    let t = landing_part(m);
    let rest = t.subrange(ws_prefix_len(t), t.len() as int);
    rest.len() >= 4 && rest.take(4) == "done"@
}

/// A status entry whose move landed in done.
pub open spec fn entry_closes(e: ActivityRef) -> bool {
    e.kind@ == "status"@ && lands_in_done(e.message@)
}

/// Whether a move message's target status is done (the text after the last
/// `→`, leading whitespace skipped, starts with `done`).
pub fn message_lands_done(message: &str) -> (r: bool)
    ensures
        r == lands_in_done(message@),
{
    let m = chars_of(message);
    let mut start: usize = 0;
    let mut i: usize = 0;
    while i < m.len()
        invariant
            i <= m@.len(),
            start == seg_start(m@.take(i as int), '→'),
        decreases m.len() - i,
    {
        proof {
            assert(m@.take(i + 1).drop_last() =~= m@.take(i as int));
        }
        if m[i] == '→' {
            start = i + 1;
        }
        i = i + 1;
    }
    proof {
        assert(m@.take(m@.len() as int) =~= m@);
        crate::text::lemma_seg_start_bound(m@, '→');
    }
    let mut j = start;
    while j < m.len() && is_whitespace(m[j])
        invariant
            start <= j <= m@.len(),
            start == seg_start(m@, '→'),
            forall|k: int| start <= k < j ==> char_is_ws(#[trigger] m@[k]),
        decreases m.len() - j,
    {
        j = j + 1;
    }
    proof {
        let t = landing_part(m@);
        assert(t =~= m@.subrange(start as int, m@.len() as int));
        crate::text::lemma_ws_prefix_len_exact(t, (j - start) as int);
    }
    if m.len() - j < 4 {
        return false;
    }
    let ok = m[j] == 'd' && m[j + 1] == 'o' && m[j + 2] == 'n' && m[j + 3] == 'e';
    proof {
        let t = landing_part(m@);
        let rest = t.subrange(ws_prefix_len(t), t.len() as int);
        assert(rest =~= m@.subrange(j as int, m@.len() as int));
        reveal_strlit("done");
        if ok {
            assert(rest.take(4) =~= "done"@);
        } else {
            if rest.take(4) == "done"@ {
                assert(rest.take(4)[0] == 'd');
                assert(rest.take(4)[1] == 'o');
                assert(rest.take(4)[2] == 'n');
                assert(rest.take(4)[3] == 'e');
            }
        }
    }
    ok
}

impl ActivityRef {
    /// A status move that landed in done — what "issues closed" means.
    pub fn closes(&self) -> (r: bool)
        ensures
            r == entry_closes(*self),
    {
        str_eq(self.kind.as_str(), "status") && message_lands_done(self.message.as_str())
    }
}

/// A status move that landed in done: what "issues closed" counts.
pub fn lands_done(kind: &str, message: &str) -> (r: bool)
    ensures
        r == (kind@ == "status"@ && lands_in_done(message@)),
{
    str_eq(kind, "status") && message_lands_done(message)
}

/// The activity page's view state. No sort: a mailbox is newest-first.
#[derive(Debug, Clone)]
pub struct ActivityPageState {
    pub cursor: usize,
    pub query: String,
    pub filter: ActFilter,
}

impl ActivityPageState {
    pub fn new() -> (r: Self)
        ensures
            r.cursor == 0,
            r.query@ == Seq::<char>::empty(),
            r.filter == ActFilter::All,
    {
        ActivityPageState { cursor: 0, query: String::new(), filter: ActFilter::All }
    }
}

/// Which events the mailbox lists. `Closed` is a virtual kind: status
/// entries whose move landed in done.
#[derive(Debug, Clone, Copy, PartialEq, Eq)]
pub enum ActFilter {
    All,
    Closed,
    Moves,
    Edits,
    Notes,
    Plan,
    Archive,
}

pub open spec fn act_filter_pos(f: ActFilter) -> int {
    match f {
        ActFilter::All => 0,
        ActFilter::Closed => 1,
        ActFilter::Moves => 2,
        ActFilter::Edits => 3,
        ActFilter::Notes => 4,
        ActFilter::Plan => 5,
        ActFilter::Archive => 6,
    }
}

pub open spec fn act_filter_at(i: int) -> ActFilter {
    if i == 0 {
        ActFilter::All
    } else if i == 1 {
        ActFilter::Closed
    } else if i == 2 {
        ActFilter::Moves
    } else if i == 3 {
        ActFilter::Edits
    } else if i == 4 {
        ActFilter::Notes
    } else if i == 5 {
        ActFilter::Plan
    } else {
        ActFilter::Archive
    }
}

/// The filter after `f` in the Tab cycle (wrapping at the end).
pub open spec fn act_filter_next(f: ActFilter) -> ActFilter {
    act_filter_at((act_filter_pos(f) + 1) % 7)
}

/// The filter before `f` in the Tab cycle (wrapping at the start).
pub open spec fn act_filter_prev(f: ActFilter) -> ActFilter {
    act_filter_at((act_filter_pos(f) + 6) % 7)
}

pub open spec fn act_filter_accepts(f: ActFilter, e: ActivityRef) -> bool {
    match f {
        ActFilter::All => true,
        ActFilter::Closed => entry_closes(e),
        ActFilter::Moves => e.kind@ == "status"@,
        ActFilter::Edits => e.kind@ == "edit"@,
        ActFilter::Notes => e.kind@ == "log"@,
        ActFilter::Plan => e.kind@ == "plan"@,
        ActFilter::Archive => e.kind@ == "archive"@,
    }
}

impl ActFilter {
    /// Every filter, in Tab order.
    pub fn all() -> (r: Vec<ActFilter>)
        ensures
            r@.len() == 7,
            forall|i: int| 0 <= i < 7 ==> #[trigger] r@[i] == act_filter_at(i),
    {
        vec![
            ActFilter::All,
            ActFilter::Closed,
            ActFilter::Moves,
            ActFilter::Edits,
            ActFilter::Notes,
            ActFilter::Plan,
            ActFilter::Archive,
        ]
    }

    pub fn label(self) -> (r: &'static str)
        ensures
            r@ == (match self {
                ActFilter::All => "all"@,
                ActFilter::Closed => "closed"@,
                ActFilter::Moves => "moves"@,
                ActFilter::Edits => "edits"@,
                ActFilter::Notes => "notes"@,
                ActFilter::Plan => "plan"@,
                ActFilter::Archive => "archive"@,
            }),
    {
        match self {
            ActFilter::All => "all",
            ActFilter::Closed => "closed",
            ActFilter::Moves => "moves",
            ActFilter::Edits => "edits",
            ActFilter::Notes => "notes",
            ActFilter::Plan => "plan",
            ActFilter::Archive => "archive",
        }
    }

    fn position(self) -> (r: usize)
        ensures
            r == act_filter_pos(self),
    {
        match self {
            ActFilter::All => 0,
            ActFilter::Closed => 1,
            ActFilter::Moves => 2,
            ActFilter::Edits => 3,
            ActFilter::Notes => 4,
            ActFilter::Plan => 5,
            ActFilter::Archive => 6,
        }
    }

    pub fn next(self) -> (r: Self)
        ensures
            r == act_filter_next(self),
    {
        let all = ActFilter::all();
        let i = self.position();
        all[(i + 1) % 7]
    }

    pub fn prev(self) -> (r: Self)
        ensures
            r == act_filter_prev(self),
    {
        let all = ActFilter::all();
        let i = self.position();
        all[(i + 7 - 1) % 7]
    }

    pub fn accepts(self, e: &ActivityRef) -> (r: bool)
        ensures
            r == act_filter_accepts(self, *e),
    {
        match self {
            ActFilter::All => true,
            ActFilter::Closed => e.closes(),
            ActFilter::Moves => str_eq(e.kind.as_str(), "status"),
            ActFilter::Edits => str_eq(e.kind.as_str(), "edit"),
            ActFilter::Notes => str_eq(e.kind.as_str(), "log"),
            ActFilter::Plan => str_eq(e.kind.as_str(), "plan"),
            ActFilter::Archive => str_eq(e.kind.as_str(), "archive"),
        }
    }
}

/// The project page's view state.
#[derive(Debug, Clone)]
pub struct ProjectPageState {
    pub cursor: usize,
    pub query: String,
    pub filter: ProjFilter,
    pub sort: ProjSort,
}

impl ProjectPageState {
    pub fn new() -> (r: Self)
        ensures
            r.cursor == 0,
            r.query@ == Seq::<char>::empty(),
            r.filter == ProjFilter::Active,
            r.sort == ProjSort::Activity,
    {
        ProjectPageState {
            cursor: 0,
            query: String::new(),
            filter: ProjFilter::Active,
            sort: ProjSort::Activity,
        }
    }
}

/// Which projects the page lists.
#[derive(Debug, Clone, Copy, PartialEq, Eq)]
pub enum ProjFilter {
    Active,
    Archived,
    All,
}

pub open spec fn proj_filter_next(f: ProjFilter) -> ProjFilter {
    match f {
        ProjFilter::Active => ProjFilter::Archived,
        ProjFilter::Archived => ProjFilter::All,
        ProjFilter::All => ProjFilter::Active,
    }
}

pub open spec fn proj_filter_prev(f: ProjFilter) -> ProjFilter {
    match f {
        ProjFilter::Active => ProjFilter::All,
        ProjFilter::Archived => ProjFilter::Active,
        ProjFilter::All => ProjFilter::Archived,
    }
}

pub open spec fn proj_filter_accepts(f: ProjFilter, archived: bool) -> bool {
    match f {
        ProjFilter::All => true,
        ProjFilter::Active => !archived,
        ProjFilter::Archived => archived,
    }
}

impl ProjFilter {
    pub fn label(self) -> (r: &'static str)
        ensures
            r@ == (match self {
                ProjFilter::Active => "active"@,
                ProjFilter::Archived => "archived"@,
                ProjFilter::All => "all"@,
            }),
    {
        match self {
            ProjFilter::Active => "active",
            ProjFilter::Archived => "archived",
            ProjFilter::All => "all",
        }
    }

    pub fn next(self) -> (r: Self)
        ensures
            r == proj_filter_next(self),
    {
        match self {
            ProjFilter::Active => ProjFilter::Archived,
            ProjFilter::Archived => ProjFilter::All,
            ProjFilter::All => ProjFilter::Active,
        }
    }

    pub fn prev(self) -> (r: Self)
        ensures
            r == proj_filter_prev(self),
    {
        match self {
            ProjFilter::Active => ProjFilter::All,
            ProjFilter::Archived => ProjFilter::Active,
            ProjFilter::All => ProjFilter::Archived,
        }
    }

    pub fn accepts(self, archived: bool) -> (r: bool)
        ensures
            r == proj_filter_accepts(self, archived),
    {
        match self {
            ProjFilter::All => true,
            ProjFilter::Active => !archived,
            ProjFilter::Archived => archived,
        }
    }
}

#[derive(Debug, Clone, Copy, PartialEq, Eq)]
pub enum ProjSort {
    /// Most recently worked on first.
    Activity,
    Name,
}

pub open spec fn proj_sort_next(s: ProjSort) -> ProjSort {
    match s {
        ProjSort::Activity => ProjSort::Name,
        ProjSort::Name => ProjSort::Activity,
    }
}

impl ProjSort {
    pub fn label(self) -> (r: &'static str)
        ensures
            r@ == (match self {
                ProjSort::Activity => "activity"@,
                ProjSort::Name => "name"@,
            }),
    {
        match self {
            ProjSort::Activity => "activity",
            ProjSort::Name => "name",
        }
    }

    pub fn next(self) -> (r: Self)
        ensures
            r == proj_sort_next(self),
    {
        match self {
            ProjSort::Activity => ProjSort::Name,
            ProjSort::Name => ProjSort::Activity,
        }
    }
}

#[derive(Debug, Clone)]
pub enum Mode {
    Normal,
    Help,
    ConfirmQuit,
    /// `A` pressed; the key waiting to be archived.
    ConfirmArchive(String),
    /// `A` on the project page; carries the page state so both answers land
    /// back on the page as the user left it.
    ConfirmProjectArchive {
        key: String,
        /// The *new* archived state to apply on confirm.
        archived: bool,
        page: ProjectPageState,
    },
    /// Space pressed; waiting for a column letter.
    AwaitingMove,
    /// The focused card's key.
    Detail(String),
    MilestonePicker(PickerState),
    FuzzyFind(FuzzyState),
    MilestonePage(MilestonePageState),
    ProjectPage(ProjectPageState),
    ActivityPage(ActivityPageState),
}

/// The cursor the board last had in each column (0 until one is remembered).
#[derive(Debug, Clone, Copy, PartialEq, Eq)]
pub struct ColumnCursors {
    pub backlog: usize,
    pub in_progress: usize,
    pub blocked: usize,
    pub in_review: usize,
    pub done: usize,
}

pub open spec fn cursor_of(c: ColumnCursors, col: ColumnId) -> usize {
    match col {
        ColumnId::Backlog => c.backlog,
        ColumnId::InProgress => c.in_progress,
        ColumnId::Blocked => c.blocked,
        ColumnId::InReview => c.in_review,
        ColumnId::Done => c.done,
    }
}

pub open spec fn with_cursor(c: ColumnCursors, col: ColumnId, v: usize) -> ColumnCursors {
    match col {
        ColumnId::Backlog => ColumnCursors { backlog: v, ..c },
        ColumnId::InProgress => ColumnCursors { in_progress: v, ..c },
        ColumnId::Blocked => ColumnCursors { blocked: v, ..c },
        ColumnId::InReview => ColumnCursors { in_review: v, ..c },
        ColumnId::Done => ColumnCursors { done: v, ..c },
    }
}

impl ColumnCursors {
    pub fn new() -> (r: Self)
        ensures
            forall|col: ColumnId| cursor_of(r, col) == 0,
    {
        ColumnCursors { backlog: 0, in_progress: 0, blocked: 0, in_review: 0, done: 0 }
    }

    pub fn get(&self, col: ColumnId) -> (r: usize)
        ensures
            r == cursor_of(*self, col),
    {
        match col {
            ColumnId::Backlog => self.backlog,
            ColumnId::InProgress => self.in_progress,
            ColumnId::Blocked => self.blocked,
            ColumnId::InReview => self.in_review,
            ColumnId::Done => self.done,
        }
    }

    pub fn set(&mut self, col: ColumnId, v: usize)
        ensures
            *final(self) == with_cursor(*old(self), col, v),
    {
        match col {
            ColumnId::Backlog => self.backlog = v,
            ColumnId::InProgress => self.in_progress = v,
            ColumnId::Blocked => self.blocked = v,
            ColumnId::InReview => self.in_review = v,
            ColumnId::Done => self.done = v,
        }
    }
}

/// The application state. Timestamps are microseconds since the Unix epoch.
#[derive(Debug, Clone)]
pub struct App {
    pub cards: Vec<Card>,
    /// For `scope.project`, name order.
    pub milestones: Vec<MilestoneRef>,
    /// Every project, activity order.
    pub projects: Vec<ProjectRef>,
    /// Audit entries, newest first.
    pub activity: Vec<ActivityRef>,
    /// Relations of the card open in `Mode::Detail`.
    pub detail_relations: Vec<RelationRef>,
    pub focus: Focus,
    pub mode: Mode,
    pub scope: Scope,
    pub status_msg: Option<String>,
    pub last_card_idx_per_column: ColumnCursors,
    pub pending_g: bool,
    /// Everything at or before this instant has been read in the mailbox.
    pub last_seen: Option<i64>,
    /// The acting user; own events don't count as unread mail.
    pub self_actor: Option<String>,
    /// Reversible mutations this session, newest last.
    pub undo_stack: Vec<UndoOp>,
}

/// Undo remembers this many mutations before forgetting the oldest.
pub const UNDO_DEPTH: usize = 32;

impl App {
    pub fn new() -> (r: Self)
        ensures
            r.cards@.len() == 0,
            r.milestones@.len() == 0,
            r.projects@.len() == 0,
            r.activity@.len() == 0,
            r.detail_relations@.len() == 0,
            r.focus == (Focus { column: ColumnId::Backlog, card_idx: 0 }),
            r.mode is Normal,
            r.scope.project is None,
            r.scope.milestone is None,
            r.status_msg is None,
            forall|col: ColumnId| cursor_of(r.last_card_idx_per_column, col) == 0,
            !r.pending_g,
            r.last_seen is None,
            r.self_actor is None,
            r.undo_stack@.len() == 0,
    {
        App {
            cards: Vec::new(),
            milestones: Vec::new(),
            projects: Vec::new(),
            activity: Vec::new(),
            detail_relations: Vec::new(),
            focus: Focus::new(),
            mode: Mode::Normal,
            scope: Scope { project: None, milestone: None },
            status_msg: None,
            last_card_idx_per_column: ColumnCursors::new(),
            pending_g: false,
            last_seen: None,
            self_actor: None,
            undo_stack: Vec::new(),
        }
    }
}

} // verus!
