use cliban_tui::model::{
    lands_done, ActFilter, MilestoneRef, PageSort, ProjFilter, ProjSort, ProjectRef, RelationRef,
    StatusFilter,
};

#[test]
fn filters_step_back_and_forth_and_come_around() {
    for f in [StatusFilter::Open, StatusFilter::Completed, StatusFilter::Cancelled, StatusFilter::All] {
        assert_eq!(f.next().prev(), f);
        assert_eq!(f.next().next().next().next(), f);
    }
    assert_eq!(StatusFilter::Open.next(), StatusFilter::Completed);
    for f in ActFilter::all() {
        assert_eq!(f.prev().next(), f);
        let mut g = f;
        for _ in 0..7 {
            g = g.next();
        }
        assert_eq!(g, f);
    }
    assert_eq!(ActFilter::All.prev(), ActFilter::Archive);
    for f in [ProjFilter::Active, ProjFilter::Archived, ProjFilter::All] {
        assert_eq!(f.next().prev(), f);
        assert_eq!(f.next().next().next(), f);
    }
    assert_eq!(PageSort::Activity.next().next().next(), PageSort::Activity);
    assert_eq!(ProjSort::Name.next(), ProjSort::Activity);
}

#[test]
fn labels_name_each_bucket() {
    assert_eq!(StatusFilter::Cancelled.label(), "cancelled");
    assert_eq!(ActFilter::Closed.label(), "closed");
    assert_eq!(ProjFilter::Archived.label(), "archived");
    assert_eq!(PageSort::Target.label(), "target");
    assert_eq!(ProjSort::Activity.label(), "activity");
    assert!(StatusFilter::All.accepts("whatever"));
    assert!(!StatusFilter::Open.accepts("completed"));
    assert!(ProjFilter::Active.accepts(false));
    assert!(!ProjFilter::Archived.accepts(false));
}

#[test]
fn percent_and_next_status() {
    let m = MilestoneRef {
        id: 1,
        project: "CLI".into(),
        name: "M".into(),
        description: String::new(),
        status: "completed".into(),
        target: None,
        total: 3,
        done: 2,
        last_activity: 0,
        closes_8w: [0; 8],
    };
    assert_eq!(m.percent(), 66);
    assert_eq!(m.next_status(), "cancelled");
    let empty = MilestoneRef { total: 0, done: 0, ..m };
    assert_eq!(empty.percent(), 0);
    let p = ProjectRef {
        key: "P".into(),
        name: "p".into(),
        description: String::new(),
        archived: false,
        total: 4,
        done: 1,
        milestones: 0,
        last_activity: 0,
    };
    assert_eq!(p.percent(), 25);
}

#[test]
fn open_blockers_are_undone_blocked_by_edges() {
    let r = |kind: &str, status: &str| RelationRef { kind: kind.into(), key: "K".into(), title: "t".into(), status: status.into() };
    assert!(r("blocked_by", "backlog").open_blocker());
    assert!(!r("blocked_by", "done").open_blocker());
    assert!(!r("blocks", "backlog").open_blocker());
}

#[test]
fn lands_done_reads_the_last_arrow() {
    assert!(lands_done("status", "a → b →  done"));
    assert!(!lands_done("status", "done → a"));
    assert!(!lands_done("edit", "x → done"));
    assert!(!lands_done("status", "no arrow at all"));
    assert!(lands_done("status", "done"));
}
