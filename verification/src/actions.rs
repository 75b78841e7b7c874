//! UI actions (the input to [`crate::update::update`]) and commands (the
//! side effects it asks the host to perform). Pure data.

use vstd::prelude::*;

use crate::model::{ColumnId, Scope};

verus! {

#[derive(Debug, Clone, Copy, PartialEq, Eq)]
pub enum Direction {
    Up,
    Down,
    Left,
    Right,
}

#[derive(Debug, Clone)]
pub enum Action {
    FocusMove(Direction),
    /// Jump straight to the Nth visible column (the `1`-`5` keys).
    FocusColumn(usize),
    /// Half-page the focus within the current column (Ctrl-d/u, PgDn/PgUp).
    PageMove(Direction),
    /// Mouse: land the board cursor on a specific card (idx clamped).
    FocusCard(ColumnId, usize),
    /// Mouse: set the active page's cursor to an absolute row.
    PageCursor(usize),
    JumpToTop,
    JumpToBottom,
    ToggleHelp,
    QuitRequest,
    Quit,
    Cancel,
    Refresh,
    OpenDetail,
    /// `b` in the detail popup: jump to the first still-open blocker.
    JumpToBlocker,
    EditCard,
    EditScope,
    NewIssue,
    NewMilestone,
    NewDialogInput(char),
    NewDialogBackspace,
    NewDialogNextField,
    NewDialogPrevField,
    NewDialogConfirm,
    TagMilestone,
    /// `A`: ask before archiving (opens the confirm dialog).
    ArchiveRequest,
    /// The confirmed archive (from the dialog).
    Archive,
    /// `u`: reverse the last move, reorder, or archive of this session.
    Undo,
    BeginMove,
    MoveTo(String),
    MoveIssueDir(Direction),
    OpenMilestonePicker,
    CycleMilestoneFilter,
    OpenMilestonePage,
    SetScope(Scope),
    PickerInput(char),
    PickerBackspace,
    PickerUp,
    PickerDown,
    PickerConfirm,
    OpenFuzzyFind,
    FuzzyInput(char),
    FuzzyBackspace,
    FuzzyUp,
    FuzzyDown,
    FuzzyConfirm,
    MsPageUp,
    MsPageDown,
    /// Half-page the cursor (PgDn/PgUp).
    MsPagePage(Direction),
    MsPageTop,
    MsPageBottom,
    MsPageInput(char),
    MsPageBackspace,
    /// Enter: scope the board to the focused milestone and close the page.
    MsPageSelect,
    MsPageEdit,
    MsPageNew,
    /// Cycle the focused milestone's own status (open → completed → cancelled).
    MsPageCycleStatus,
    /// Cycle which status bucket the page lists (Tab; Shift-Tab reverses).
    MsPageCycleFilter,
    MsPageCycleFilterBack,
    MsPageCycleSort,
    OpenProjectPage,
    ProjPageUp,
    ProjPageDown,
    ProjPagePage(Direction),
    ProjPageTop,
    ProjPageBottom,
    ProjPageInput(char),
    ProjPageBackspace,
    /// Enter: scope the board to the focused project and close the page.
    ProjPageSelect,
    ProjPageEdit,
    ProjPageNew,
    /// `A`: ask before flipping the focused project's archived flag.
    ProjPageArchiveRequest,
    /// The confirmed archive/unarchive (from the dialog).
    ProjPageArchive,
    ProjPageCycleFilter,
    ProjPageCycleFilterBack,
    ProjPageCycleSort,
    OpenActivityPage,
    ActPageUp,
    ActPageDown,
    ActPagePage(Direction),
    ActPageTop,
    ActPageBottom,
    ActPageInput(char),
    ActPageBackspace,
    /// Enter: jump the board cursor to the focused entry's issue.
    ActPageSelect,
    ActPageCycleFilter,
    ActPageCycleFilterBack,
}

#[derive(Debug, Clone)]
pub enum Command {
    MoveIssue { key: String, status: String },
    /// Swap the board positions of two issues in the same column (J/K reorder).
    Reorder { key: String, other: String },
    Archive { key: String },
    /// Undo's inverse of an archive.
    Unarchive { key: String },
    TagMilestone { key: String, milestone: Option<String> },
    SetScope,
    Reload,
    EditIssue { key: String },
    /// Open the editor on a fresh issue in this status.
    NewIssue { status: String },
    /// Create straight from the new-issue dialog.
    CreateIssue { project: String, status: String, title: String, milestone: String },
    EditMilestone { project: String, name: String },
    /// Open the editor on a fresh milestone, in this project if known.
    NewMilestone { project: Option<String> },
    CreateMilestone { project: String, name: String, target: String },
    SetMilestoneStatus { project: String, name: String, status: String },
    EditProject { key: String },
    /// Open the editor on a fresh project.
    NewProject,
    CreateProject { key: String, name: String },
    SetProjectArchived { key: String, archived: bool },
}

} // verus!
