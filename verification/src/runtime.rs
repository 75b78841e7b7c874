//! The host loop's own decisions, separate from its terminal and storage
//! work: what the milestone picker lists when it opens, which project a new
//! issue or milestone is created in (and what the status line says when
//! there is none), and the buffers the editor and the dialogs start from.

use vstd::prelude::*;

use crate::actions::{Action, Command};
use crate::board::{auto_focused, focused_index};
use crate::buffers::{IssueBuffer, IssueText, MilestoneBuffer, MilestoneText};
use crate::keybinds::{key_rel, map_key};
use crate::keys::KeyEvent;
use crate::update::{update, update_rel};
use crate::model::{App, Card, MilestoneRef, Mode, PickerChip, PickerState};
use crate::steps::{opt_chars, said};

verus! {

/// The picker lists every loaded milestone by name (label and value).
pub open spec fn milestone_chips(a: App, items: Seq<PickerChip>) -> bool {
    &&& items.len() == a.milestones@.len()
    &&& forall|i: int|
        0 <= i < items.len() ==> #[trigger] items[i].label@ == a.milestones@[i].name@
            && items[i].value@ == a.milestones@[i].name@
}

fn milestone_chip_list(ms: &Vec<MilestoneRef>) -> (items: Vec<PickerChip>)
    ensures
        items@.len() == ms@.len(),
        forall|k: int|
            0 <= k < ms@.len() ==> #[trigger] items@[k].label@ == ms@[k].name@
                && items@[k].value@ == ms@[k].name@,
{
    let mut items: Vec<PickerChip> = Vec::new();
    let mut i: usize = 0;
    while i < ms.len()
        invariant
            items@.len() == i,
            i <= ms@.len(),
            forall|k: int|
                0 <= k < i ==> #[trigger] items@[k].label@ == ms@[k].name@
                    && items@[k].value@ == ms@[k].name@,
        decreases ms@.len() - i,
    {
        let name = &ms[i].name;
        let ghost prev = items@;
        items.push(PickerChip { label: name.clone(), value: name.clone() });
        proof {
            assert forall|k: int| 0 <= k < i + 1 implies #[trigger] items@[k].label@ == ms@[k].name@
                && items@[k].value@ == ms@[k].name@ by {
                if k < i {
                    assert(items@[k] == prev[k]);
                }
            }
        }
        i = i + 1;
    }
    items
}

/// When the milestone picker has just opened, fills it with the loaded
/// milestones (empty query, cursor on top); in any other mode does nothing.
pub fn seed_milestone_picker(app: &mut App)
    ensures
        old(app).mode is MilestonePicker ==> *final(app) == (App { mode: final(app).mode, ..*old(app) }),
        old(app).mode is MilestonePicker ==> (final(app).mode matches Mode::MilestonePicker(p)
            && p.query@.len() == 0 && p.cursor == 0 && milestone_chips(*old(app), p.items@)),
        !(old(app).mode is MilestonePicker) ==> *final(app) == *old(app),
{
    let picking = match &app.mode {
        Mode::MilestonePicker(_) => true,
        _ => false,
    };
    if !picking {
        return;
    }
    let items = milestone_chip_list(&app.milestones);
    let query = String::new();
    assert(milestone_chips(*app, items@));
    app.mode = Mode::MilestonePicker(PickerState { query, items, cursor: 0 });
}

/// The project a new issue goes to: the scoped project, else the focused
/// card's, else the first loaded card's.
pub open spec fn new_issue_project_spec(a: App) -> Option<Seq<char>> {
    match a.scope.project {
        Some(p) => Some(p@),
        None => match focused_index(a) {
            Some(i) => Some(a.cards@[i].project@),
            None => if a.cards@.len() > 0 {
                Some(a.cards@[0].project@)
            } else {
                None
            },
        },
    }
}

pub fn new_issue_project(app: &App) -> (r: Option<String>)
    ensures
        opt_chars(r) == new_issue_project_spec(*app),
{
    match &app.scope.project {
        Some(p) => Some(p.clone()),
        None => match app.focused_index() {
            Some(i) => Some(app.cards[i].project.clone()),
            None => {
                if app.cards.len() > 0 {
                    Some(app.cards[0].project.clone())
                } else {
                    None
                }
            },
        },
    }
}

/// The project a new issue goes to, as [`new_issue_project`] resolves it;
/// where there is none, the status line asks for a project to be scoped
/// and nothing else changes.
pub fn new_issue_target(app: &mut App) -> (r: Option<String>)
    ensures
        opt_chars(r) == new_issue_project_spec(*old(app)),
        r is Some ==> *final(app) == *old(app),
        r is None ==> said(*old(app), *final(app), "scope a project (p) before creating"@),
{
    let r = new_issue_project(app);
    if r.is_none() {
        app.status_msg = Some("scope a project (p) before creating".to_owned());
    }
    r
}

/// The project a new milestone goes to: the one the command names, else
/// the scoped project.
pub open spec fn new_milestone_project_spec(a: App, requested: Option<Seq<char>>) -> Option<Seq<char>> {
    match requested {
        Some(p) => Some(p),
        None => opt_chars(a.scope.project),
    }
}

/// The project a new milestone goes to; where there is none, the status
/// line asks for a project to be scoped and nothing else changes.
pub fn new_milestone_target(app: &mut App, requested: &Option<String>) -> (r: Option<String>)
    ensures
        opt_chars(r) == new_milestone_project_spec(*old(app), opt_chars(*requested)),
        r is Some ==> *final(app) == *old(app),
        r is None ==> said(*old(app), *final(app), "scope a project (p) before adding a milestone"@),
{
    let r = match requested {
        Some(p) => Some(p.clone()),
        None => match &app.scope.project {
            Some(p) => Some(p.clone()),
            None => None,
        },
    };
    if r.is_none() {
        app.status_msg = Some("scope a project (p) before adding a milestone".to_owned());
    }
    r
}

/// What the host does after a key press.
#[derive(Debug, Clone)]
pub enum KeyOutcome {
    /// Leave the session.
    Quit,
    /// Carry on, performing the command if there is one.
    Carry(Option<Command>),
}

/// The picker that has just opened is filled from the loaded milestones;
/// any other state is left as the update made it.
pub open spec fn seeded(c: App, b: App) -> bool {
    &&& c.mode is MilestonePicker ==> b == (App { mode: b.mode, ..c }) && (b.mode matches Mode::MilestonePicker(p)
        && p.query@.len() == 0 && p.cursor == 0 && milestone_chips(c, p.items@))
    &&& !(c.mode is MilestonePicker) ==> b == c
}

/// One key press from `a` to `b`: the key is mapped in the current mode;
/// no action changes nothing more, Quit ends the session, and any other
/// action is applied (a milestone picker it opens is filled) and its
/// command handed to the host.
pub open spec fn key_step(a: App, b: App, key: KeyEvent, r: KeyOutcome) -> bool {
    exists|mid: App, act: Option<Action>|
        #![trigger key_rel(a, mid, key, act)]
        key_rel(a, mid, key, act) && match act {
            None => b == mid && r == KeyOutcome::Carry(None),
            Some(Action::Quit) => b == mid && r is Quit,
            Some(x) => exists|c: App, cmd: Option<Command>|
                #![trigger update_rel(mid, c, x, cmd)]
                update_rel(mid, c, x, cmd) && r == KeyOutcome::Carry(cmd) && if x is OpenMilestonePicker {
                    seeded(c, b)
                } else {
                    b == c
                },
        }
}

/// Processes one key press; the host performs the command it returns.
pub fn handle_key(app: &mut App, key: KeyEvent) -> (r: KeyOutcome)
    ensures
        key_step(*old(app), *final(app), key, r),
{
    let act = map_key(key, app);
    let ghost mid = *app;
    match act {
        None => {
            assert(key_rel(*old(app), mid, key, act));
            KeyOutcome::Carry(None)
        },
        Some(Action::Quit) => {
            assert(key_rel(*old(app), mid, key, act));
            KeyOutcome::Quit
        },
        Some(x) => {
            let open_mp = match x {
                Action::OpenMilestonePicker => true,
                _ => false,
            };
            let cmd = update(app, x);
            let ghost c = *app;
            assert(update_rel(mid, c, x, cmd));
            if open_mp {
                seed_milestone_picker(app);
            }
            assert(key_rel(*old(app), mid, key, act));
            KeyOutcome::Carry(cmd)
        },
    }
}

/// Takes freshly loaded cards and milestones, then focuses the first
/// non-empty column if the focus fell on nothing.
pub fn reload(app: &mut App, cards: Vec<Card>, milestones: Vec<MilestoneRef>)
    ensures
        *final(app) == auto_focused(App { cards, milestones, ..*old(app) }),
{
    app.cards = cards;
    app.milestones = milestones;
    app.auto_focus_if_empty();
}

/// The buffer a new issue starts from: the column's status, priority
/// `none`, everything else empty.
pub fn new_issue_buffer(status: &str) -> (r: IssueBuffer)
    ensures
        r@ == (IssueText {
            header: Seq::empty(),
            title: Seq::empty(),
            status: status@,
            priority: "none"@,
            milestone: Seq::empty(),
            parent: Seq::empty(),
            description: Seq::empty(),
        }),
{
    let mut b = IssueBuffer::default();
    b.status = status.to_owned();
    b.priority = "none".to_owned();
    b
}

/// The buffer a new milestone starts from: status `open`, everything else
/// empty.
pub fn new_milestone_buffer() -> (r: MilestoneBuffer)
    ensures
        r@ == (MilestoneText {
            header: Seq::empty(),
            name: Seq::empty(),
            target: Seq::empty(),
            status: "open"@,
            description: Seq::empty(),
        }),
{
    let mut b = MilestoneBuffer::default();
    b.status = "open".to_owned();
    b
}

/// The buffer the new-issue dialog creates: a new issue's buffer in the
/// column's status, with the dialog's title and inherited milestone.
pub fn create_issue_buffer(status: &str, title: &str, milestone: &str) -> (r: IssueBuffer)
    ensures
        r@ == (IssueText {
            header: Seq::empty(),
            title: title@,
            status: status@,
            priority: "none"@,
            milestone: milestone@,
            parent: Seq::empty(),
            description: Seq::empty(),
        }),
{
    let mut b = new_issue_buffer(status);
    b.title = title.to_owned();
    b.milestone = milestone.to_owned();
    b
}

/// The buffer the new-milestone dialog creates: an open milestone with the
/// dialog's name and target date.
pub fn create_milestone_buffer(name: &str, target: &str) -> (r: MilestoneBuffer)
    ensures
        r@ == (MilestoneText {
            header: Seq::empty(),
            name: name@,
            target: target@,
            status: "open"@,
            description: Seq::empty(),
        }),
{
    let mut b = new_milestone_buffer();
    b.name = name.to_owned();
    b.target = target.to_owned();
    b
}

/// A failure of the store behind the board, as its message.
#[derive(Debug, Clone)]
pub struct DataError(pub String);

impl DataError {
    pub fn message(&self) -> (r: &str)
        ensures
            r@ == self.0@,
    {
        self.0.as_str()
    }
}

/// The commands the host carries out in `$EDITOR`: editing an issue, a
/// milestone or a project, and starting a new issue or milestone.
pub open spec fn edits_in_editor(cmd: Command) -> bool {
    ||| cmd is EditIssue
    ||| cmd is NewIssue
    ||| cmd is EditMilestone
    ||| cmd is NewMilestone
    ||| cmd is EditProject
}

pub fn opens_editor(cmd: &Command) -> (r: bool)
    ensures
        r == edits_in_editor(*cmd),
{
    match cmd {
        Command::EditIssue { .. } => true,
        Command::NewIssue { .. } => true,
        Command::EditMilestone { .. } => true,
        Command::NewMilestone { .. } => true,
        Command::EditProject { .. } => true,
        _ => false,
    }
}

} // verus!
