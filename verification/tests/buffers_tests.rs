use cliban_tui::buffers::{
    parse_issue, parse_milestone, parse_project, split_frontmatter, IssueBuffer, MilestoneBuffer,
    ProjectBuffer,
};

#[test]
fn issue_buffer_round_trips() {
    let b = IssueBuffer {
        header: "# hi".into(),
        title: "T".into(),
        status: "backlog".into(),
        priority: "high".into(),
        milestone: "M1".into(),
        parent: "".into(),
        description: "Body\n".into(),
    };
    let p = parse_issue(&b.serialize()).unwrap();
    assert_eq!(p.title, "T");
    assert_eq!(p.status, "backlog");
    assert_eq!(p.priority, "high");
    assert_eq!(p.milestone, "M1");
    assert_eq!(p.description, "Body\n");
}

#[test]
fn parse_issue_requires_title() {
    assert!(parse_issue("---\ntitle:\n---\n").is_err());
}

#[test]
fn milestone_buffer_round_trips() {
    let b = MilestoneBuffer {
        header: "".into(),
        name: "M1".into(),
        target: "2026-01-01".into(),
        status: "open".into(),
        description: "".into(),
    };
    let p = parse_milestone(&b.serialize()).unwrap();
    assert_eq!(p.name, "M1");
    assert_eq!(p.target, "2026-01-01");
    assert_eq!(p.status, "open");
}

#[test]
fn project_buffer_round_trips() {
    let b = ProjectBuffer { header: "".into(), name: "Cliban".into(), description: "Desc\n".into() };
    let p = parse_project(&b.serialize()).unwrap();
    assert_eq!(p.name, "Cliban");
    assert_eq!(p.description, "Desc\n");
}

#[test]
fn serialize_writes_the_frontmatter_layout() {
    let b = IssueBuffer {
        header: "# edit CLI-1".into(),
        title: "T".into(),
        status: "backlog".into(),
        priority: "high".into(),
        milestone: "".into(),
        parent: "".into(),
        description: "Body".into(),
    };
    assert_eq!(
        b.serialize(),
        "# edit CLI-1\n---\ntitle:     T\nstatus:    backlog\npriority:  high\nmilestone: \nparent:    \n---\nBody\n"
    );
    let m = MilestoneBuffer {
        header: "".into(),
        name: "M1".into(),
        target: "".into(),
        status: "open".into(),
        description: "".into(),
    };
    assert_eq!(m.serialize(), "---\nname:    M1\ntarget:  \nstatus:  open\n---\n\n");
    let p = ProjectBuffer { header: "h\n".into(), name: "P".into(), description: "D\n".into() };
    assert_eq!(p.serialize(), "h\n---\nname: P\n---\nD\n");
}

#[test]
fn split_frontmatter_errors_name_the_missing_fence() {
    assert_eq!(split_frontmatter("title: x\n").unwrap_err(), "missing opening ---");
    assert_eq!(split_frontmatter("---\ntitle: x\n").unwrap_err(), "missing closing ---");
    let (front, body) = split_frontmatter("head\n  ---  \na: 1\r\nb: 2\n---\nline1\r\nline2\n").unwrap();
    assert_eq!(front, "a: 1\nb: 2\n");
    assert_eq!(body, "line1\nline2");
}

#[test]
fn parse_fields_trim_split_at_the_first_colon_and_last_wins() {
    let p = parse_issue("---\n title : first \ntitle: a: b\nstatus:x\nweird line\n---\n\n  text  \n\n").unwrap();
    assert_eq!(p.title, "a: b");
    assert_eq!(p.status, "x");
    assert_eq!(p.priority, "");
    assert_eq!(p.description, "text\n");
    assert_eq!(p.header, "");
}

#[test]
fn parse_milestone_and_project_require_a_name() {
    assert_eq!(parse_milestone("---\nname:   \n---\n").unwrap_err(), "name is required");
    assert_eq!(parse_project("---\nname:\n---\n").unwrap_err(), "name is required");
    assert_eq!(parse_project("no fences").unwrap_err(), "missing opening ---");
}

#[test]
fn multi_line_descriptions_survive_a_round_trip() {
    let b = IssueBuffer {
        header: "".into(),
        title: "Title".into(),
        status: "done".into(),
        priority: "low".into(),
        milestone: "M".into(),
        parent: "P-1".into(),
        description: "first\n\n---\nlast\n".into(),
    };
    let p = parse_issue(&b.serialize()).unwrap();
    assert_eq!(p.description, b.description);
    assert_eq!(p.parent, "P-1");
}

#[test]
fn a_header_whose_last_line_ends_in_a_carriage_return_still_round_trips() {
    let b = IssueBuffer {
        header: "# edit below\n#  ---  \n# last\r".into(),
        title: "T".into(),
        status: "backlog".into(),
        priority: "none".into(),
        milestone: "".into(),
        parent: "".into(),
        description: "".into(),
    };
    let p = parse_issue(&b.serialize()).unwrap();
    assert_eq!(p.header, "");
    assert_eq!(p.title, b.title);
    assert_eq!(p.status, b.status);
    assert_eq!(p.priority, b.priority);
    assert_eq!(p.milestone, b.milestone);
    assert_eq!(p.parent, b.parent);
    assert_eq!(p.description, b.description);
}
