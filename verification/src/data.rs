//! The data layer's own logic, on the rows the store hands back: the
//! eight-week histogram of closes behind a milestone's burndown, the
//! project rollups, the fallbacks of the joins, and the editor buffers
//! built from stored rows. Talking to the store is the host's part.

use vstd::prelude::*;

use std::collections::HashMap;

use crate::buffers::{IssueBuffer, IssueText, MilestoneBuffer, MilestoneText, ProjectBuffer, ProjectText};
use crate::lines::push_str;
use crate::model::{lands_done, lands_in_done, ActivityRef, MilestoneRef, ProjectRef, RelationRef};
use crate::steps::opt_chars;
use crate::text::{decimal, decimal_text, str_eq, string_from_chars};

verus! {

/// A week, in microseconds.
pub const WEEK_MICROS: i64 = 604_800_000_000;

/// One activity-log entry as the histogram reads it: the milestone its
/// issue belongs to (if any), the entry's kind and message, and when it
/// happened (microseconds since the Unix epoch).
#[derive(Debug, Clone)]
pub struct LogEntry {
    pub milestone: Option<i64>,
    pub kind: String,
    pub message: String,
    pub ts: i64,
}

/// Whole weeks from `ts` to `now`, between 0 and 7: an entry from the
/// future counts as this week, anything seven weeks old or more as the
/// oldest.
pub open spec fn weeks_ago(now: int, ts: int) -> int {
    if now - ts <= 0 {
        0
    } else if (now - ts) / (WEEK_MICROS as int) >= 7 {
        7
    } else {
        (now - ts) / (WEEK_MICROS as int)
    }
}

/// The histogram slot of an entry: 7 is this week, 0 seven weeks back.
pub open spec fn week_slot_of(now: int, ts: int) -> int {
    7 - weeks_ago(now, ts)
}

pub fn week_slot(now: i64, ts: i64) -> (r: usize)
    ensures
        r as int == week_slot_of(now as int, ts as int),
        r < 8,
{
    let diff: i128 = now as i128 - ts as i128;
    if diff <= 0 {
        return 7;
    }
    let weeks: i128 = diff / (WEEK_MICROS as i128);
    if weeks >= 7 {
        0
    } else {
        (7 - weeks) as usize
    }
}

/// Whether `ts` falls in the histogram's window: at most eight weeks
/// before `now` (entries from the future included).
pub open spec fn in_window(now: int, ts: int) -> bool {
    now - ts <= 8 * (WEEK_MICROS as int)
}

/// Whether an entry is a close of milestone `mid` in slot `k`: a move of
/// one of its issues that landed in done, in the window.
pub open spec fn closes_at(e: LogEntry, now: int, mid: i64, k: int) -> bool {
    &&& e.milestone == Some(mid)
    &&& in_window(now, e.ts as int)
    &&& e.kind@ == "status"@
    &&& lands_in_done(e.message@)
    &&& week_slot_of(now, e.ts as int) == k
}

/// How many of the entries close milestone `mid` in slot `k`.
pub open spec fn closes_count(es: Seq<LogEntry>, now: int, mid: i64, k: int) -> int
    decreases es.len(),
{
    if es.len() == 0 {
        0
    } else {
        closes_count(es.drop_last(), now, mid, k) + if closes_at(es.last(), now, mid, k) {
            1int
        } else {
            0int
        }
    }
}

proof fn lemma_closes_count_bounded(es: Seq<LogEntry>, now: int, mid: i64, k: int)
    ensures
        0 <= closes_count(es, now, mid, k) <= es.len(),
    decreases es.len(),
{
    if es.len() > 0 {
        lemma_closes_count_bounded(es.drop_last(), now, mid, k);
    }
}

/// The histogram a map of closes holds for milestone `mid`: its entry, or
/// no closes at all.
pub open spec fn hist_of(m: Map<i64, [i64; 8]>, mid: i64) -> Seq<i64> {
    if m.contains_key(mid) {
        m[mid]@
    } else {
        Seq::new(8, |k: int| 0i64)
    }
}

/// Issues moved to done per week over the last eight weeks, oldest week
/// first, bucketed by milestone in one pass over the log; older entries,
/// and entries of issues in no milestone, do not count.
pub fn closes_by_milestone(entries: &[LogEntry], now: i64) -> (r: HashMap<i64, [i64; 8]>)
    requires
        entries@.len() <= i64::MAX,
    ensures
        forall|mid: i64, k: int|
            0 <= k < 8 ==> #[trigger] hist_of(r@, mid)[k] == closes_count(entries@, now as int, mid, k),
{
    broadcast use vstd::std_specs::hash::group_hash_axioms;
    let mut closes: HashMap<i64, [i64; 8]> = HashMap::new();
    let mut i: usize = 0;
    while i < entries.len()
        invariant
            i <= entries@.len(),
            entries@.len() <= i64::MAX,
            forall|mid: i64, k: int|
                0 <= k < 8 ==> #[trigger] hist_of(closes@, mid)[k] == closes_count(
                    entries@.take(i as int),
                    now as int,
                    mid,
                    k,
                ),
        decreases entries@.len() - i,
    {
        let e = &entries[i];
        let ghost before = closes@;
        proof {
            assert(entries@.take(i + 1).drop_last() =~= entries@.take(i as int));
            assert(entries@.take(i + 1).last() == entries@[i as int]);
        }
        let recent = (now as i128) - (e.ts as i128) <= 8 * (WEEK_MICROS as i128);
        let m = match e.milestone {
            Some(m) if recent && lands_done(e.kind.as_str(), e.message.as_str()) => Some(m),
            _ => None,
        };
        if let Some(m) = m {
            let slot = week_slot(now, e.ts);
            let mut h: [i64; 8] = match closes.get(&m) {
                Some(a) => *a,
                None => [0; 8],
            };
            proof {
                assert(h@ == hist_of(before, m));
                lemma_closes_count_bounded(entries@.take(i as int), now as int, m, slot as int);
            }
            h.set(slot, h[slot] + 1);
            closes.insert(m, h);
            proof {
                assert forall|mid: i64, k: int| 0 <= k < 8 implies #[trigger] hist_of(closes@, mid)[k]
                    == closes_count(entries@.take(i + 1), now as int, mid, k) by {
                    if mid == m {
                        assert(hist_of(closes@, mid) == h@);
                    } else {
                        assert(hist_of(closes@, mid) == hist_of(before, mid));
                    }
                }
            }
        }
        i = i + 1;
    }
    proof {
        assert(entries@.take(entries@.len() as int) =~= entries@);
    }
    closes
}

/// Milestone `mid`'s histogram in a map of closes: its entry, or all
/// zeroes.
pub fn closes_of(closes: &HashMap<i64, [i64; 8]>, mid: i64) -> (r: [i64; 8])
    ensures
        r@ == hist_of(closes@, mid),
{
    broadcast use vstd::std_specs::hash::group_hash_axioms;
    match closes.get(&mid) {
        Some(a) => *a,
        None => {
            let z: [i64; 8] = [0; 8];
            proof {
                assert(z@ =~= Seq::new(8, |k: int| 0i64));
            }
            z
        },
    }
}

/// A milestone summary as the store reports it: the milestone, its
/// project's key, its issue rollups, and its latest activity. The target is
/// already written `YYYY-MM-DD`.
#[derive(Debug, Clone)]
pub struct MilestoneSummary {
    pub id: i64,
    pub project_key: String,
    pub name: String,
    pub description: String,
    pub status: String,
    pub target: Option<String>,
    pub total: i64,
    pub done: i64,
    pub last_activity: i64,
}

/// A milestone as the page shows it: its summary, and the closes of its
/// issues over the last eight weeks of the log.
pub open spec fn summarized(r: MilestoneRef, s: MilestoneSummary, log: Seq<LogEntry>, now: int) -> bool {
    &&& r.id == s.id
    &&& r.project@ == s.project_key@
    &&& r.name@ == s.name@
    &&& r.description@ == s.description@
    &&& r.status@ == s.status@
    &&& opt_chars(r.target) == opt_chars(s.target)
    &&& r.total == s.total
    &&& r.done == s.done
    &&& r.last_activity == s.last_activity
    &&& forall|k: int| 0 <= k < 8 ==> #[trigger] r.closes_8w@[k] == closes_count(log, now, s.id, k)
}

fn copy_opt(o: &Option<String>) -> (r: Option<String>)
    ensures
        opt_chars(r) == opt_chars(*o),
{
    match o {
        Some(s) => Some(s.clone()),
        None => None,
    }
}

/// The milestones with their rollups and histograms, in the order the store
/// listed them (most recently worked on first).
pub fn load_milestones(sums: &[MilestoneSummary], log: &[LogEntry], now: i64) -> (r: Vec<MilestoneRef>)
    requires
        log@.len() <= i64::MAX,
    ensures
        r@.len() == sums@.len(),
        forall|k: int| 0 <= k < sums@.len() ==> summarized(#[trigger] r@[k], sums@[k], log@, now as int),
{
    let closes = closes_by_milestone(log, now);
    let mut out: Vec<MilestoneRef> = Vec::new();
    let mut i: usize = 0;
    while i < sums.len()
        invariant
            i <= sums@.len(),
            out@.len() == i,
            log@.len() <= i64::MAX,
            forall|mid: i64, k: int|
                0 <= k < 8 ==> #[trigger] hist_of(closes@, mid)[k] == closes_count(log@, now as int, mid, k),
            forall|k: int| 0 <= k < i ==> summarized(#[trigger] out@[k], sums@[k], log@, now as int),
        decreases sums@.len() - i,
    {
        let s = &sums[i];
        let closes_8w = closes_of(&closes, s.id);
        out.push(
            MilestoneRef {
                id: s.id,
                project: s.project_key.clone(),
                name: s.name.clone(),
                description: s.description.clone(),
                status: s.status.clone(),
                target: copy_opt(&s.target),
                total: s.total,
                done: s.done,
                last_activity: s.last_activity,
                closes_8w,
            },
        );
        i = i + 1;
    }
    out
}

/// A project row as stored.
#[derive(Debug, Clone)]
pub struct ProjectRow {
    pub id: i64,
    pub key: String,
    pub name: String,
    pub description: String,
    pub archived: bool,
    pub updated_at: i64,
}

/// A board-visible issue, as the project rollup reads it.
#[derive(Debug, Clone)]
pub struct IssueRow {
    pub project_id: i64,
    pub status: String,
    pub updated_at: i64,
}

/// A milestone summary, as the project rollup reads it.
#[derive(Debug, Clone)]
pub struct SummaryRow {
    pub project_key: String,
    pub last_activity: i64,
}

/// How many of the issues belong to project `pid`, and how many of those
/// are done.
pub open spec fn issue_counts(is: Seq<IssueRow>, pid: i64) -> (int, int)
    decreases is.len(),
{
    if is.len() == 0 {
        (0, 0)
    } else {
        let (t, d) = issue_counts(is.drop_last(), pid);
        let x = is.last();
        if x.project_id == pid {
            (t + 1, if x.status@ == "done"@ {
                d + 1
            } else {
                d
            })
        } else {
            (t, d)
        }
    }
}

/// How many of the summaries belong to the project keyed `key`.
pub open spec fn milestone_count(ms: Seq<SummaryRow>, key: Seq<char>) -> int
    decreases ms.len(),
{
    if ms.len() == 0 {
        0
    } else {
        milestone_count(ms.drop_last(), key) + if ms.last().project_key@ == key {
            1int
        } else {
            0int
        }
    }
}

pub open spec fn max_i64(a: i64, b: i64) -> i64 {
    if a < b {
        b
    } else {
        a
    }
}

/// The latest touch: `from`, or a later update of one of project `pid`'s
/// issues.
pub open spec fn latest_issue_touch(is: Seq<IssueRow>, pid: i64, from: i64) -> i64
    decreases is.len(),
{
    if is.len() == 0 {
        from
    } else {
        let before = latest_issue_touch(is.drop_last(), pid, from);
        if is.last().project_id == pid {
            max_i64(before, is.last().updated_at)
        } else {
            before
        }
    }
}

/// The latest touch: `from`, or a later activity on one of the project's
/// milestones.
pub open spec fn latest_milestone_touch(ms: Seq<SummaryRow>, key: Seq<char>, from: i64) -> i64
    decreases ms.len(),
{
    if ms.len() == 0 {
        from
    } else {
        let before = latest_milestone_touch(ms.drop_last(), key, from);
        if ms.last().project_key@ == key {
            max_i64(before, ms.last().last_activity)
        } else {
            before
        }
    }
}

/// What the project page shows of a project: its issues' done/total, its
/// milestone count, and its latest touch across the project row, its
/// issues and its milestones.
pub open spec fn rolled_up(r: ProjectRef, p: ProjectRow, is: Seq<IssueRow>, ms: Seq<SummaryRow>) -> bool {
    &&& r.key@ == p.key@
    &&& r.name@ == p.name@
    &&& r.description@ == p.description@
    &&& r.archived == p.archived
    &&& r.total == issue_counts(is, p.id).0
    &&& r.done == issue_counts(is, p.id).1
    &&& r.milestones == milestone_count(ms, p.key@)
    &&& r.last_activity == latest_milestone_touch(ms, p.key@, latest_issue_touch(is, p.id, p.updated_at))
}

proof fn lemma_issue_counts_bounded(is: Seq<IssueRow>, pid: i64)
    ensures
        0 <= issue_counts(is, pid).1 <= issue_counts(is, pid).0 <= is.len(),
    decreases is.len(),
{
    if is.len() > 0 {
        lemma_issue_counts_bounded(is.drop_last(), pid);
    }
}

proof fn lemma_milestone_count_bounded(ms: Seq<SummaryRow>, key: Seq<char>)
    ensures
        0 <= milestone_count(ms, key) <= ms.len(),
    decreases ms.len(),
{
    if ms.len() > 0 {
        lemma_milestone_count_bounded(ms.drop_last(), key);
    }
}

/// One project's rollup.
pub fn project_rollup(p: ProjectRow, issues: &[IssueRow], ms: &[SummaryRow]) -> (r: ProjectRef)
    requires
        issues@.len() <= i64::MAX,
        ms@.len() <= i64::MAX,
    ensures
        rolled_up(r, p, issues@, ms@),
{
    let mut total: i64 = 0;
    let mut done: i64 = 0;
    let mut last: i64 = p.updated_at;
    let mut i: usize = 0;
    while i < issues.len()
        invariant
            i <= issues@.len(),
            issues@.len() <= i64::MAX,
            (total as int, done as int) == issue_counts(issues@.take(i as int), p.id),
            last == latest_issue_touch(issues@.take(i as int), p.id, p.updated_at),
        decreases issues@.len() - i,
    {
        proof {
            assert(issues@.take(i + 1).drop_last() =~= issues@.take(i as int));
            lemma_issue_counts_bounded(issues@.take(i as int), p.id);
        }
        let x = &issues[i];
        if x.project_id == p.id {
            total = total + 1;
            if crate::text::str_eq(x.status.as_str(), "done") {
                done = done + 1;
            }
            if last < x.updated_at {
                last = x.updated_at;
            }
        }
        i = i + 1;
    }
    proof {
        assert(issues@.take(issues@.len() as int) =~= issues@);
    }
    let ghost after_issues = last;
    let mut count: i64 = 0;
    let mut j: usize = 0;
    while j < ms.len()
        invariant
            j <= ms@.len(),
            ms@.len() <= i64::MAX,
            count as int == milestone_count(ms@.take(j as int), p.key@),
            last == latest_milestone_touch(ms@.take(j as int), p.key@, after_issues),
        decreases ms@.len() - j,
    {
        proof {
            assert(ms@.take(j + 1).drop_last() =~= ms@.take(j as int));
            lemma_milestone_count_bounded(ms@.take(j as int), p.key@);
        }
        let s = &ms[j];
        if crate::text::str_eq(s.project_key.as_str(), p.key.as_str()) {
            count = count + 1;
            if last < s.last_activity {
                last = s.last_activity;
            }
        }
        j = j + 1;
    }
    proof {
        assert(ms@.take(ms@.len() as int) =~= ms@);
    }
    ProjectRef {
        key: p.key,
        name: p.name,
        description: p.description,
        archived: p.archived,
        total,
        done,
        milestones: count,
        last_activity: last,
    }
}

/// Every project with its rollups, in the order the store listed them.
pub fn load_projects(ps: &[ProjectRow], issues: &[IssueRow], ms: &[SummaryRow]) -> (r: Vec<ProjectRef>)
    requires
        issues@.len() <= i64::MAX,
        ms@.len() <= i64::MAX,
    ensures
        r@.len() == ps@.len(),
        forall|k: int| 0 <= k < ps@.len() ==> rolled_up(#[trigger] r@[k], ps@[k], issues@, ms@),
{
    let mut out: Vec<ProjectRef> = Vec::new();
    let mut i: usize = 0;
    while i < ps.len()
        invariant
            i <= ps@.len(),
            out@.len() == i,
            issues@.len() <= i64::MAX,
            ms@.len() <= i64::MAX,
            forall|k: int| 0 <= k < i ==> rolled_up(#[trigger] out@[k], ps@[k], issues@, ms@),
        decreases ps@.len() - i,
    {
        let p = &ps[i];
        let row = ProjectRow {
            id: p.id,
            key: p.key.clone(),
            name: p.name.clone(),
            description: p.description.clone(),
            archived: p.archived,
            updated_at: p.updated_at,
        };
        let r = project_rollup(row, issues, ms);
        out.push(r);
        i = i + 1;
    }
    out
}

/// The guidance above an issue buffer's frontmatter.
pub open spec fn issue_header(key: Seq<char>) -> Seq<char> {
    "# Editing "@ + key
        + " — lines above the first '---' are ignored.\n# Statuses:   backlog | in-progress | blocked | in-review | done\n# Priorities: none | low | medium | high | urgent"@
}

/// The guidance above a milestone buffer's frontmatter.
pub open spec fn milestone_header() -> Seq<char> {
    "# Editing milestone — lines above the first '---' are ignored.\n# Status: open | completed | cancelled\n# Target date: YYYY-MM-DD (empty clears it)"@
}

/// The guidance above a project buffer's frontmatter.
pub open spec fn project_header(key: Seq<char>) -> Seq<char> {
    "# Editing project "@ + key + " — the key is immutable; rename via 'name'."@
}

pub open spec fn or_empty(o: Option<String>) -> Seq<char> {
    match o {
        Some(s) => s@,
        None => Seq::empty(),
    }
}

fn text_or_empty(o: Option<String>) -> (r: String)
    ensures
        r@ == or_empty(o),
{
    match o {
        Some(s) => s,
        None => String::new(),
    }
}

/// The buffer an issue is edited in: its stored fields under the editing
/// guidance; no milestone or parent reads as empty.
pub fn issue_buffer(
    key: &str,
    title: String,
    status: String,
    priority: String,
    milestone: Option<String>,
    parent: Option<String>,
    description: String,
) -> (r: IssueBuffer)
    ensures
        r@ == (IssueText {
            header: issue_header(key@),
            title: title@,
            status: status@,
            priority: priority@,
            milestone: or_empty(milestone),
            parent: or_empty(parent),
            description: description@,
        }),
{
    let mut h: Vec<char> = Vec::new();
    push_str(&mut h, "# Editing ");
    push_str(&mut h, key);
    push_str(
        &mut h,
        " — lines above the first '---' are ignored.\n# Statuses:   backlog | in-progress | blocked | in-review | done\n# Priorities: none | low | medium | high | urgent",
    );
    IssueBuffer {
        header: string_from_chars(&h),
        title,
        status,
        priority,
        milestone: text_or_empty(milestone),
        parent: text_or_empty(parent),
        description,
    }
}

/// The buffer a milestone is edited in; its target is `YYYY-MM-DD` or
/// empty.
pub fn milestone_buffer(name: String, status: String, target: Option<String>, description: String) -> (r: MilestoneBuffer)
    ensures
        r@ == (MilestoneText {
            header: milestone_header(),
            name: name@,
            target: or_empty(target),
            status: status@,
            description: description@,
        }),
{
    let header = "# Editing milestone — lines above the first '---' are ignored.\n# Status: open | completed | cancelled\n# Target date: YYYY-MM-DD (empty clears it)".to_owned();
    MilestoneBuffer { header, name, target: text_or_empty(target), status, description }
}

/// The buffer a project is edited in.
pub fn project_buffer(key: &str, name: String, description: String) -> (r: ProjectBuffer)
    ensures
        r@ == (ProjectText { header: project_header(key@), name: name@, description: description@ }),
{
    let mut h: Vec<char> = Vec::new();
    push_str(&mut h, "# Editing project ");
    push_str(&mut h, key);
    push_str(&mut h, " — the key is immutable; rename via 'name'.");
    ProjectBuffer { header: string_from_chars(&h), name, description }
}

/// An empty field means "leave as is" (or "none"); anything else is a value.
pub open spec fn given(s: Seq<char>) -> Option<Seq<char>> {
    if s.len() == 0 {
        None
    } else {
        Some(s)
    }
}

pub fn optional(s: &str) -> (r: Option<String>)
    ensures
        opt_chars(r) == given(s@),
{
    if s.is_empty() {
        None
    } else {
        Some(s.to_owned())
    }
}

/// What an issue buffer asks the store for: the title and description as
/// written; status, priority, milestone and parent only when filled in.
pub struct IssueFields {
    pub title: String,
    pub description: String,
    pub status: Option<String>,
    pub priority: Option<String>,
    pub milestone: Option<String>,
    pub parent: Option<String>,
}

pub fn issue_fields(b: &IssueBuffer) -> (r: IssueFields)
    ensures
        r.title@ == b.title@,
        r.description@ == b.description@,
        opt_chars(r.status) == given(b.status@),
        opt_chars(r.priority) == given(b.priority@),
        opt_chars(r.milestone) == given(b.milestone@),
        opt_chars(r.parent) == given(b.parent@),
{
    IssueFields {
        title: b.title.clone(),
        description: b.description.clone(),
        status: optional(b.status.as_str()),
        priority: optional(b.priority.as_str()),
        milestone: optional(b.milestone.as_str()),
        parent: optional(b.parent.as_str()),
    }
}

/// An edit moves the issue when the buffer names a status other than the
/// current one.
pub fn status_changes(written: &str, current: &str) -> (r: bool)
    ensures
        r == (written@.len() > 0 && written@ != current@),
{
    !written.is_empty() && !str_eq(written, current)
}

/// A relation as the detail popup shows it; a counterpart that is gone
/// shows with an empty title and status.
pub fn relation_ref(kind: String, key: String, counterpart: Option<(String, String)>) -> (r: RelationRef)
    ensures
        r.kind@ == kind@,
        r.key@ == key@,
        match counterpart {
            Some((t, s)) => r.title@ == t@ && r.status@ == s@,
            None => r.title@.len() == 0 && r.status@.len() == 0,
        },
{
    let (title, status) = match counterpart {
        Some((t, s)) => (t, s),
        None => (String::new(), String::new()),
    };
    RelationRef { kind, key, title, status }
}

/// An activity-log entry as the mailbox shows it, joined with its issue
/// (key, title, project); an entry whose issue row is gone still shows,
/// keyed `#<issue id>` with no title or project.
pub fn activity_ref(
    issue_id: i64,
    issue: Option<(String, String, String)>,
    kind: String,
    message: String,
    actor: Option<String>,
    ts: i64,
) -> (r: ActivityRef)
    ensures
        r.kind@ == kind@,
        r.message@ == message@,
        r.actor == actor,
        r.ts == ts,
        match issue {
            Some((k, t, p)) => r.issue_key@ == k@ && r.title@ == t@ && r.project@ == p@,
            None => r.issue_key@ == seq!['#'] + decimal(issue_id as int) && r.title@.len() == 0
                && r.project@.len() == 0,
        },
{
    let (issue_key, title, project) = match issue {
        Some((k, t, p)) => (k, t, p),
        None => {
            let mut v: Vec<char> = Vec::new();
            v.push('#');
            let digits = decimal_text(issue_id);
            push_str(&mut v, digits.as_str());
            (string_from_chars(&v), String::new(), String::new())
        },
    };
    ActivityRef { issue_key, title, project, kind, message, actor, ts }
}

/// How many of the entries are closes of milestone `mid` in the window,
/// in any week.
pub open spec fn closing_entries(es: Seq<LogEntry>, now: int, mid: i64) -> int
    decreases es.len(),
{
    if es.len() == 0 {
        0
    } else {
        closing_entries(es.drop_last(), now, mid) + if es.last().milestone == Some(mid) && in_window(
            now,
            es.last().ts as int,
        ) && es.last().kind@ == "status"@ && lands_in_done(es.last().message@) {
            1int
        } else {
            0int
        }
    }
}

/// The eight weekly counts together.
pub open spec fn histogram_total(es: Seq<LogEntry>, now: int, mid: i64) -> int {
    closes_count(es, now, mid, 0) + closes_count(es, now, mid, 1) + closes_count(es, now, mid, 2)
        + closes_count(es, now, mid, 3) + closes_count(es, now, mid, 4) + closes_count(es, now, mid, 5)
        + closes_count(es, now, mid, 6) + closes_count(es, now, mid, 7)
}

/// Every close of a milestone in the last eight weeks lands in exactly one
/// week of its histogram: the weeks add up to the closes in the window.
pub proof fn law_histogram_counts_every_close_once(es: Seq<LogEntry>, now: int, mid: i64)
    ensures
        histogram_total(es, now, mid) == closing_entries(es, now, mid),
    decreases es.len(),
{
    if es.len() > 0 {
        law_histogram_counts_every_close_once(es.drop_last(), now, mid);
        let w = week_slot_of(now, es.last().ts as int);
        assert(0 <= w <= 7);
    }
}

proof fn lemma_latest_issue_touch_grows(is: Seq<IssueRow>, pid: i64, from: i64)
    ensures
        latest_issue_touch(is, pid, from) >= from,
    decreases is.len(),
{
    if is.len() > 0 {
        lemma_latest_issue_touch_grows(is.drop_last(), pid, from);
    }
}

proof fn lemma_latest_milestone_touch_grows(ms: Seq<SummaryRow>, key: Seq<char>, from: i64)
    ensures
        latest_milestone_touch(ms, key, from) >= from,
    decreases ms.len(),
{
    if ms.len() > 0 {
        lemma_latest_milestone_touch_grows(ms.drop_last(), key, from);
    }
}

/// A project's rollup is consistent: done issues are among its issues,
/// which are among the issues listed; its milestones are among the
/// summaries listed; and its latest touch is no older than the project row.
pub proof fn law_rollup_is_consistent(r: ProjectRef, p: ProjectRow, is: Seq<IssueRow>, ms: Seq<SummaryRow>)
    requires
        rolled_up(r, p, is, ms),
    ensures
        0 <= r.done <= r.total <= is.len(),
        0 <= r.milestones <= ms.len(),
        r.last_activity >= p.updated_at,
{
    lemma_issue_counts_bounded(is, p.id);
    lemma_milestone_count_bounded(ms, p.key@);
    lemma_latest_issue_touch_grows(is, p.id, p.updated_at);
    lemma_latest_milestone_touch_grows(ms, p.key@, latest_issue_touch(is, p.id, p.updated_at));
}

} // verus!
