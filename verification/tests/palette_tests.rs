use std::collections::HashSet;

use chrono::{Datelike, NaiveDate};

use cliban_tui::model::ActFilter;
use cliban_tui::page_views::EntryKind;
use cliban_tui::palette::{project_color, Palette};
use cliban_tui::theme::ThemeColor;
use cliban_tui::views::{hint_spans, Tone};

fn priority_color(p: &str) -> ThemeColor {
    Palette::new().priority_color(p)
}

fn column_color(s: &str) -> ThemeColor {
    Palette::new().column_color(s)
}

fn dim() -> ThemeColor {
    Palette::new().dim()
}

fn alarm() -> ThemeColor {
    Palette::new().alarm()
}

fn accent() -> ThemeColor {
    Palette::new().accent()
}

fn deadline_color(target: Option<&str>, active: bool, today: NaiveDate) -> ThemeColor {
    Palette::new().deadline_color(target, active, today.num_days_from_ce())
}

#[test]
fn priority_palette_matches_cliban() {
    assert_eq!(priority_color("urgent"), ThemeColor::Indexed(196));
    assert_eq!(priority_color("high"), ThemeColor::Indexed(208));
    assert_eq!(priority_color("medium"), ThemeColor::Indexed(226));
    assert_eq!(priority_color("low"), ThemeColor::Indexed(33));
    assert_eq!(priority_color("nonsense"), dim());
}

#[test]
fn every_column_has_its_own_hue() {
    let cols = ["backlog", "in-progress", "blocked", "in-review", "done"];
    let set: HashSet<_> = cols.iter().map(|s| format!("{:?}", column_color(s))).collect();
    assert_eq!(set.len(), cols.len(), "column colors must be distinct");
}

#[test]
fn project_color_is_stable_and_spreads() {
    assert_eq!(project_color("TIDE"), project_color("TIDE"));
    let set: HashSet<_> = ["FORGE", "TIDE", "PULSE", "CLI"].iter().map(|p| format!("{:?}", project_color(p))).collect();
    assert!(set.len() >= 2, "demo projects should not all collide");
}

#[test]
fn deadline_ramp_by_distance() {
    let today = NaiveDate::from_ymd_opt(2026, 7, 28).unwrap();
    let c = |t: &str| deadline_color(Some(t), true, today);
    assert_eq!(c("2026-07-27"), alarm(), "overdue is alarm red");
    assert_eq!(c("2026-08-01"), ThemeColor::Indexed(208), "this week is orange");
    assert_eq!(c("2026-08-20"), ThemeColor::Indexed(226), "this month is yellow");
    assert_eq!(c("2026-12-01"), dim(), "far targets stay quiet");
    assert_eq!(c("not-a-date"), dim(), "garbage stays quiet");
    assert_eq!(
        deadline_color(Some("2026-07-01"), false, today),
        dim(),
        "completed/cancelled rows never glow"
    );
    assert_eq!(deadline_color(None, true, today), dim());
}

#[test]
fn default_slots_are_the_dark_terminal_palette() {
    let p = Palette::new();
    assert_eq!(p.accent(), ThemeColor::Cyan);
    assert_eq!(p.dim(), ThemeColor::DarkGray);
    assert_eq!(p.selection_bg(), ThemeColor::Indexed(237));
    assert_eq!(p.marker(), ThemeColor::Yellow);
    assert_eq!(p.alarm(), ThemeColor::Indexed(196));
    assert_eq!(p.milestone_accent(), ThemeColor::Indexed(141));
    assert_eq!(p.milestone_status_color("open"), ThemeColor::Indexed(81));
    assert_eq!(p.milestone_status_color("completed"), ThemeColor::Indexed(78));
    assert_eq!(p.milestone_status_color("cancelled"), ThemeColor::Indexed(245));
    assert_eq!(p.milestone_status_color("paused"), ThemeColor::DarkGray);
    assert_eq!(p.column_color("backlog"), ThemeColor::Indexed(110));
    assert_eq!(p.column_color("in-progress"), ThemeColor::Indexed(81));
    assert_eq!(p.column_color("blocked"), ThemeColor::Indexed(203));
    assert_eq!(p.column_color("in-review"), ThemeColor::Indexed(141));
    assert_eq!(p.column_color("done"), ThemeColor::Indexed(78));
    assert_eq!(p.column_color("archived"), ThemeColor::DarkGray);
}

#[test]
fn theme_overrides_win_and_the_last_setting_counts() {
    let p = Palette::from_theme(
        "accent = blue\n\
         dim = 250\n\
         priority-high = 130\n\
         column-done = green\n\
         status-open = 'yellow'\n\
         accent = red\n\
         marker = not-a-color\n",
    );
    assert_eq!(p.accent(), ThemeColor::Red);
    assert_eq!(p.dim(), ThemeColor::Indexed(250));
    assert_eq!(p.marker(), ThemeColor::Yellow, "an unparsable color keeps the default");
    assert_eq!(p.priority_color("high"), ThemeColor::Indexed(130));
    assert_eq!(p.priority_color("urgent"), ThemeColor::Indexed(196));
    assert_eq!(p.priority_color("nonsense"), ThemeColor::Indexed(250), "unknown priorities are dim");
    assert_eq!(p.column_color("done"), ThemeColor::Green);
    assert_eq!(p.column_color("backlog"), ThemeColor::Indexed(110));
    assert_eq!(p.milestone_status_color("open"), ThemeColor::Yellow);
    let today = NaiveDate::from_ymd_opt(2026, 7, 28).unwrap().num_days_from_ce();
    assert_eq!(p.deadline_color(Some("2026-08-01"), true, today), ThemeColor::Indexed(130));
    assert_eq!(p.deadline_color(Some("2026-12-01"), true, today), ThemeColor::Indexed(250));
}

#[test]
fn project_colors_come_from_the_six_name_hues() {
    let hues = [75u8, 141, 80, 168, 117, 179];
    // "" hashes to slot 0, "A" (65) to slot 5, "AB" (2081) to slot 5.
    assert_eq!(project_color(""), ThemeColor::Indexed(hues[0]));
    assert_eq!(project_color("A"), ThemeColor::Indexed(hues[65 % 6]));
    assert_eq!(project_color("AB"), ThemeColor::Indexed(hues[2081 % 6]));
}

#[test]
fn tones_color_through_the_palette() {
    let p = Palette::new();
    let spans = hint_spans(&[("q", "quit")]);
    assert_eq!(p.tone_color(spans[0].1, &spans[0].0), Some(accent()));
    assert_eq!(p.tone_color(spans[1].1, &spans[1].0), Some(dim()));
    assert_eq!(p.tone_color(Tone::Plain, "x"), None);
    assert_eq!(p.tone_color(Tone::Resolved, "x"), Some(ThemeColor::Indexed(78)));
    assert_eq!(p.tone_color(Tone::Marker, "x"), Some(ThemeColor::Yellow));
    assert_eq!(p.tone_color(Tone::Milestone, "x"), Some(ThemeColor::Indexed(141)));
    assert_eq!(p.tone_color(Tone::Alarm, "x"), Some(ThemeColor::Indexed(196)));
    assert_eq!(p.tone_color(Tone::Named, "▸TIDE"), Some(project_color("TIDE")));
    assert_eq!(p.tone_color(Tone::Named, "▸▸A"), Some(project_color("A")));
}

#[test]
fn activity_kinds_and_filters_share_their_hues() {
    let p = Palette::new();
    assert_eq!(p.kind_color(EntryKind::Closed), ThemeColor::Indexed(78));
    assert_eq!(p.kind_color(EntryKind::Move), ThemeColor::Indexed(81));
    assert_eq!(p.kind_color(EntryKind::Edit), ThemeColor::Indexed(179));
    assert_eq!(p.kind_color(EntryKind::Note), ThemeColor::Indexed(141));
    assert_eq!(p.kind_color(EntryKind::Plan), ThemeColor::Indexed(75));
    assert_eq!(p.kind_color(EntryKind::Archive), ThemeColor::Indexed(245));
    assert_eq!(p.kind_color(EntryKind::Other), ThemeColor::DarkGray);
    assert_eq!(p.filter_color(ActFilter::All), ThemeColor::Cyan);
    assert_eq!(p.filter_color(ActFilter::Closed), p.kind_color(EntryKind::Closed));
    assert_eq!(p.filter_color(ActFilter::Moves), p.kind_color(EntryKind::Move));
    assert_eq!(p.filter_color(ActFilter::Edits), p.kind_color(EntryKind::Edit));
    assert_eq!(p.filter_color(ActFilter::Notes), p.kind_color(EntryKind::Note));
    assert_eq!(p.filter_color(ActFilter::Plan), p.kind_color(EntryKind::Plan));
    assert_eq!(p.filter_color(ActFilter::Archive), p.kind_color(EntryKind::Archive));
    let themed = Palette::from_theme("status-completed = green\nmilestone = 99\n");
    assert_eq!(themed.kind_color(EntryKind::Closed), ThemeColor::Green);
    assert_eq!(themed.filter_color(ActFilter::Notes), ThemeColor::Indexed(99));
}
