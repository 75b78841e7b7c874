//! The cliban palette: 256-color defaults for a dark terminal, every named
//! slot overridable by the theme file's settings (the last setting of a
//! slot wins). Per-name colors spread names over six hues that avoid the
//! priority ramp.

use vstd::prelude::*;
use vstd::utf8::encode_utf8;

use crate::text::{chars_of, concat, str_eq, string_from_chars};
use crate::theme::{
    name_color_slot, name_hash, parse_theme, target_chars, target_tone, theme_view, deadline_tone, DeadlineTone,
    ThemeColor, NAME_PALETTE_LEN,
};
use crate::model::ActFilter;
use crate::page_views::EntryKind;
use crate::views::Tone;

verus! {

/// The theme file's colored settings, in file order.
pub struct Palette {
    pub settings: Vec<(String, ThemeColor)>,
}

impl View for Palette {
    type V = Seq<(Seq<char>, ThemeColor)>;

    open spec fn view(&self) -> Seq<(Seq<char>, ThemeColor)> {
        theme_view(self.settings@)
    }
}

/// The color the last setting of `slot` gives it, if any.
pub open spec fn override_of(settings: Seq<(Seq<char>, ThemeColor)>, slot: Seq<char>) -> Option<ThemeColor>
    decreases settings.len(),
{
    if settings.len() == 0 {
        None
    } else if settings.last().0 == slot {
        Some(settings.last().1)
    } else {
        override_of(settings.drop_last(), slot)
    }
}

/// A slot's last setting decides its color, whatever the settings before
/// it said; a setting of another slot leaves the slot as it was; with no
/// settings at all every slot has its default.
pub proof fn law_last_setting_wins(
    settings: Seq<(Seq<char>, ThemeColor)>,
    slot: Seq<char>,
    other: Seq<char>,
    c: ThemeColor,
    default: ThemeColor,
)
    requires
        other != slot,
    ensures
        slot_color(settings.push((slot, c)), slot, default) == c,
        slot_color(settings.push((slot, c)), other, default) == slot_color(settings, other, default),
        slot_color(Seq::empty(), slot, default) == default,
{
    assert(settings.push((slot, c)).drop_last() =~= settings);
}

/// `slot`'s color: its override, else `default`.
pub open spec fn slot_color(settings: Seq<(Seq<char>, ThemeColor)>, slot: Seq<char>, default: ThemeColor) -> ThemeColor {
    match override_of(settings, slot) {
        Some(c) => c,
        None => default,
    }
}

pub open spec fn accent_of(p: Seq<(Seq<char>, ThemeColor)>) -> ThemeColor {
    slot_color(p, "accent"@, ThemeColor::Cyan)
}

pub open spec fn dim_of(p: Seq<(Seq<char>, ThemeColor)>) -> ThemeColor {
    slot_color(p, "dim"@, ThemeColor::DarkGray)
}

pub open spec fn selection_bg_of(p: Seq<(Seq<char>, ThemeColor)>) -> ThemeColor {
    slot_color(p, "selection-bg"@, ThemeColor::Indexed(237))
}

pub open spec fn marker_of(p: Seq<(Seq<char>, ThemeColor)>) -> ThemeColor {
    slot_color(p, "marker"@, ThemeColor::Yellow)
}

pub open spec fn alarm_of(p: Seq<(Seq<char>, ThemeColor)>) -> ThemeColor {
    slot_color(p, "alarm"@, ThemeColor::Indexed(196))
}

pub open spec fn milestone_of(p: Seq<(Seq<char>, ThemeColor)>) -> ThemeColor {
    slot_color(p, "milestone"@, ThemeColor::Indexed(141))
}

/// The default hue of a priority; an unknown priority is dim.
pub open spec fn priority_default(priority: Seq<char>, dim: ThemeColor) -> ThemeColor {
    if priority == "urgent"@ {
        ThemeColor::Indexed(196)
    } else if priority == "high"@ {
        ThemeColor::Indexed(208)
    } else if priority == "medium"@ {
        ThemeColor::Indexed(226)
    } else if priority == "low"@ {
        ThemeColor::Indexed(33)
    } else {
        dim
    }
}

pub open spec fn priority_of(p: Seq<(Seq<char>, ThemeColor)>, priority: Seq<char>) -> ThemeColor {
    slot_color(p, "priority-"@ + priority, priority_default(priority, dim_of(p)))
}

/// The default hue of a board column; an unknown status is dim.
pub open spec fn column_default(status: Seq<char>, dim: ThemeColor) -> ThemeColor {
    if status == "backlog"@ {
        ThemeColor::Indexed(110)
    } else if status == "in-progress"@ {
        ThemeColor::Indexed(81)
    } else if status == "blocked"@ {
        ThemeColor::Indexed(203)
    } else if status == "in-review"@ {
        ThemeColor::Indexed(141)
    } else if status == "done"@ {
        ThemeColor::Indexed(78)
    } else {
        dim
    }
}

pub open spec fn column_of(p: Seq<(Seq<char>, ThemeColor)>, status: Seq<char>) -> ThemeColor {
    slot_color(p, "column-"@ + status, column_default(status, dim_of(p)))
}

/// The default hue of a milestone status; an unknown status is dim.
pub open spec fn status_default(status: Seq<char>, dim: ThemeColor) -> ThemeColor {
    if status == "open"@ {
        ThemeColor::Indexed(81)
    } else if status == "completed"@ {
        ThemeColor::Indexed(78)
    } else if status == "cancelled"@ {
        ThemeColor::Indexed(245)
    } else {
        dim
    }
}

pub open spec fn status_of(p: Seq<(Seq<char>, ThemeColor)>, status: Seq<char>) -> ThemeColor {
    slot_color(p, "status-"@ + status, status_default(status, dim_of(p)))
}

/// The hues names are spread over: blue, violet, teal, pink, sky, tan.
pub open spec fn name_hues() -> Seq<ThemeColor> {
    seq![
        ThemeColor::Indexed(75),
        ThemeColor::Indexed(141),
        ThemeColor::Indexed(80),
        ThemeColor::Indexed(168),
        ThemeColor::Indexed(117),
        ThemeColor::Indexed(179),
    ]
}

/// The stable hue of a name.
pub open spec fn name_hue(name: Seq<char>) -> ThemeColor {
    name_hues()[(name_hash(encode_utf8(name)) % NAME_PALETTE_LEN) as int]
}

/// The hue of a deadline tone: past due is alarm red, then the priority
/// ramp (this week high, this month medium), else dim.
pub open spec fn deadline_of(p: Seq<(Seq<char>, ThemeColor)>, tone: DeadlineTone) -> ThemeColor {
    match tone {
        DeadlineTone::Overdue => alarm_of(p),
        DeadlineTone::ThisWeek => priority_of(p, "high"@),
        DeadlineTone::ThisMonth => priority_of(p, "medium"@),
        DeadlineTone::Quiet => dim_of(p),
    }
}

/// `s` without its leading `▸` markers.
pub open spec fn unmarked(s: Seq<char>) -> Seq<char>
    decreases s.len(),
{
    if s.len() > 0 && s[0] == '▸' {
        unmarked(s.drop_first())
    } else {
        s
    }
}

/// The color of a piece of text of a tone; plain text takes the
/// terminal's own, a named text the hue of the name it holds.
pub open spec fn tone_of(p: Seq<(Seq<char>, ThemeColor)>, tone: Tone, text: Seq<char>) -> Option<ThemeColor> {
    match tone {
        Tone::Plain => None,
        Tone::Dim => Some(dim_of(p)),
        Tone::Accent => Some(accent_of(p)),
        Tone::Marker => Some(marker_of(p)),
        Tone::Alarm => Some(alarm_of(p)),
        Tone::Resolved => Some(ThemeColor::Indexed(78)),
        Tone::Milestone => Some(milestone_of(p)),
        Tone::Named => Some(name_hue(unmarked(text))),
    }
}

/// The hue of an activity entry by its kind: closes green as a completed
/// milestone, moves blue, edits tan, notes violet as milestones, plans
/// blue, archives gray, anything else dim.
pub open spec fn kind_of(p: Seq<(Seq<char>, ThemeColor)>, kind: EntryKind) -> ThemeColor {
    match kind {
        EntryKind::Closed => status_of(p, "completed"@),
        EntryKind::Move => ThemeColor::Indexed(81),
        EntryKind::Edit => ThemeColor::Indexed(179),
        EntryKind::Note => milestone_of(p),
        EntryKind::Plan => ThemeColor::Indexed(75),
        EntryKind::Archive => ThemeColor::Indexed(245),
        EntryKind::Other => dim_of(p),
    }
}

/// The hue of an activity filter chip: each filter in its kind's hue, all
/// of them in the accent.
pub open spec fn filter_of(p: Seq<(Seq<char>, ThemeColor)>, f: ActFilter) -> ThemeColor {
    match f {
        ActFilter::All => accent_of(p),
        ActFilter::Closed => status_of(p, "completed"@),
        ActFilter::Moves => ThemeColor::Indexed(81),
        ActFilter::Edits => ThemeColor::Indexed(179),
        ActFilter::Notes => milestone_of(p),
        ActFilter::Plan => ThemeColor::Indexed(75),
        ActFilter::Archive => ThemeColor::Indexed(245),
    }
}

/// The stable hue of a project key or label: the same on every screen
/// and every run.
pub fn project_color(name: &str) -> (r: ThemeColor)
    ensures
        r == name_hue(name@),
{
    let slot = name_color_slot(name);
    if slot == 0 {
        ThemeColor::Indexed(75)
    } else if slot == 1 {
        ThemeColor::Indexed(141)
    } else if slot == 2 {
        ThemeColor::Indexed(80)
    } else if slot == 3 {
        ThemeColor::Indexed(168)
    } else if slot == 4 {
        ThemeColor::Indexed(117)
    } else {
        ThemeColor::Indexed(179)
    }
}

/// `s` without its leading `▸` markers, as a new string.
fn strip_markers(s: &str) -> (r: String)
    ensures
        r@ == unmarked(s@),
{
    let cs = chars_of(s);
    let mut i: usize = 0;
    proof {
        assert(cs@.skip(0) =~= cs@);
    }
    while i < cs.len() && cs[i] == '▸'
        invariant
            i <= cs@.len(),
            unmarked(s@) == unmarked(cs@.skip(i as int)),
            cs@ == s@,
        decreases cs@.len() - i,
    {
        proof {
            assert(cs@.skip(i as int).drop_first() =~= cs@.skip(i + 1));
        }
        i = i + 1;
    }
    let mut rest: Vec<char> = Vec::new();
    let mut j: usize = i;
    proof {
        assert(rest@ =~= cs@.subrange(i as int, j as int));
    }
    while j < cs.len()
        invariant
            i <= j <= cs@.len(),
            rest@ == cs@.subrange(i as int, j as int),
        decreases cs@.len() - j,
    {
        rest.push(cs[j]);
        j = j + 1;
        proof {
            assert(rest@ =~= cs@.subrange(i as int, j as int));
        }
    }
    proof {
        assert(rest@ =~= cs@.skip(i as int));
    }
    string_from_chars(&rest)
}

impl Palette {
    /// The defaults alone.
    pub fn new() -> (r: Palette)
        ensures
            r@ == Seq::<(Seq<char>, ThemeColor)>::empty(),
    {
        let r = Palette { settings: Vec::new() };
        proof {
            assert(r@ =~= Seq::<(Seq<char>, ThemeColor)>::empty());
        }
        r
    }

    /// The palette a theme file's text sets.
    pub fn from_theme(src: &str) -> (r: Palette)
        ensures
            r@ == crate::theme::colored_settings(
                crate::theme::theme_settings(crate::lines::text_lines(src@)),
            ),
    {
        Palette { settings: parse_theme(src) }
    }

    /// The override of `slot`, if any setting names it.
    fn over(&self, slot: &str) -> (r: Option<ThemeColor>)
        ensures
            r == override_of(self@, slot@),
    {
        let mut i: usize = self.settings.len();
        proof {
            assert(self@.take(i as int) =~= self@);
        }
        while i > 0
            invariant
                i <= self.settings@.len(),
                self@.len() == self.settings@.len(),
                override_of(self@, slot@) == override_of(self@.take(i as int), slot@),
            decreases i,
        {
            proof {
                assert(self@.take(i as int).drop_last() =~= self@.take(i - 1));
                assert(self@.take(i as int).last() == self@[i - 1]);
            }
            if str_eq(self.settings[i - 1].0.as_str(), slot) {
                return Some(self.settings[i - 1].1);
            }
            i = i - 1;
        }
        None
    }

    fn slot_or(&self, slot: &str, default: ThemeColor) -> (r: ThemeColor)
        ensures
            r == slot_color(self@, slot@, default),
    {
        match self.over(slot) {
            Some(c) => c,
            None => default,
        }
    }

    /// Focus and chrome: the one color that always means "you are here".
    pub fn accent(&self) -> (r: ThemeColor)
        ensures
            r == accent_of(self@),
    {
        self.slot_or("accent", ThemeColor::Cyan)
    }

    /// De-emphasised text: hints, counts, metadata.
    pub fn dim(&self) -> (r: ThemeColor)
        ensures
            r == dim_of(self@),
    {
        self.slot_or("dim", ThemeColor::DarkGray)
    }

    /// The wash behind the selected row of any list.
    pub fn selection_bg(&self) -> (r: ThemeColor)
        ensures
            r == selection_bg_of(self@),
    {
        self.slot_or("selection-bg", ThemeColor::Indexed(237))
    }

    /// The cursor marker and input carets.
    pub fn marker(&self) -> (r: ThemeColor)
        ensures
            r == marker_of(self@),
    {
        self.slot_or("marker", ThemeColor::Yellow)
    }

    /// Overdue targets, blocked counts, open blockers.
    pub fn alarm(&self) -> (r: ThemeColor)
        ensures
            r == alarm_of(self@),
    {
        self.slot_or("alarm", ThemeColor::Indexed(196))
    }

    /// Milestone references, everywhere.
    pub fn milestone_accent(&self) -> (r: ThemeColor)
        ensures
            r == milestone_of(self@),
    {
        self.slot_or("milestone", ThemeColor::Indexed(141))
    }

    /// The priority ramp shared by card borders, priority letters and the
    /// detail popup.
    pub fn priority_color(&self, priority: &str) -> (r: ThemeColor)
        ensures
            r == priority_of(self@, priority@),
    {
        let slot = concat("priority-", priority);
        match self.over(slot.as_str()) {
            Some(c) => c,
            None => {
                if str_eq(priority, "urgent") {
                    ThemeColor::Indexed(196)
                } else if str_eq(priority, "high") {
                    ThemeColor::Indexed(208)
                } else if str_eq(priority, "medium") {
                    ThemeColor::Indexed(226)
                } else if str_eq(priority, "low") {
                    ThemeColor::Indexed(33)
                } else {
                    self.dim()
                }
            },
        }
    }

    /// Each board column's hue, so headers scan at a glance.
    pub fn column_color(&self, status: &str) -> (r: ThemeColor)
        ensures
            r == column_of(self@, status@),
    {
        let slot = concat("column-", status);
        match self.over(slot.as_str()) {
            Some(c) => c,
            None => {
                if str_eq(status, "backlog") {
                    ThemeColor::Indexed(110)
                } else if str_eq(status, "in-progress") {
                    ThemeColor::Indexed(81)
                } else if str_eq(status, "blocked") {
                    ThemeColor::Indexed(203)
                } else if str_eq(status, "in-review") {
                    ThemeColor::Indexed(141)
                } else if str_eq(status, "done") {
                    ThemeColor::Indexed(78)
                } else {
                    self.dim()
                }
            },
        }
    }

    /// Milestone lifecycle: open is active blue, completed green,
    /// cancelled gray.
    pub fn milestone_status_color(&self, status: &str) -> (r: ThemeColor)
        ensures
            r == status_of(self@, status@),
    {
        let slot = concat("status-", status);
        match self.over(slot.as_str()) {
            Some(c) => c,
            None => {
                if str_eq(status, "open") {
                    ThemeColor::Indexed(81)
                } else if str_eq(status, "completed") {
                    ThemeColor::Indexed(78)
                } else if str_eq(status, "cancelled") {
                    ThemeColor::Indexed(245)
                } else {
                    self.dim()
                }
            },
        }
    }

    /// How urgently a `YYYY-MM-DD` target glows on day `today` (a day
    /// number), through the priority ramp.
    pub fn deadline_color(&self, target: Option<&str>, active: bool, today: i32) -> (r: ThemeColor)
        ensures
            r == deadline_of(self@, target_tone(target_chars(target), active, today)),
    {
        match deadline_tone(target, active, today) {
            DeadlineTone::Overdue => self.alarm(),
            DeadlineTone::ThisWeek => self.priority_color("high"),
            DeadlineTone::ThisMonth => self.priority_color("medium"),
            DeadlineTone::Quiet => self.dim(),
        }
    }

    /// The color of text of a tone; `None` for the terminal's own.
    pub fn tone_color(&self, tone: Tone, text: &str) -> (r: Option<ThemeColor>)
        ensures
            r == tone_of(self@, tone, text@),
    {
        match tone {
            Tone::Plain => None,
            Tone::Dim => Some(self.dim()),
            Tone::Accent => Some(self.accent()),
            Tone::Marker => Some(self.marker()),
            Tone::Alarm => Some(self.alarm()),
            Tone::Resolved => Some(ThemeColor::Indexed(78)),
            Tone::Milestone => Some(self.milestone_accent()),
            Tone::Named => {
                let name = strip_markers(text);
                Some(project_color(name.as_str()))
            },
        }
    }

    /// The hue of an activity entry of this kind.
    pub fn kind_color(&self, kind: EntryKind) -> (r: ThemeColor)
        ensures
            r == kind_of(self@, kind),
    {
        match kind {
            EntryKind::Closed => self.milestone_status_color("completed"),
            EntryKind::Move => ThemeColor::Indexed(81),
            EntryKind::Edit => ThemeColor::Indexed(179),
            EntryKind::Note => self.milestone_accent(),
            EntryKind::Plan => ThemeColor::Indexed(75),
            EntryKind::Archive => ThemeColor::Indexed(245),
            EntryKind::Other => self.dim(),
        }
    }

    /// The hue of an activity filter chip.
    pub fn filter_color(&self, f: ActFilter) -> (r: ThemeColor)
        ensures
            r == filter_of(self@, f),
    {
        match f {
            ActFilter::All => self.accent(),
            ActFilter::Closed => self.milestone_status_color("completed"),
            ActFilter::Moves => ThemeColor::Indexed(81),
            ActFilter::Edits => ThemeColor::Indexed(179),
            ActFilter::Notes => self.milestone_accent(),
            ActFilter::Plan => ThemeColor::Indexed(75),
            ActFilter::Archive => ThemeColor::Indexed(245),
        }
    }
}

} // verus!
