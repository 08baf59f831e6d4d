use issue_load::model::{Issue, IssueStatus, Label, ProjectMember, ProjectPreferences, User};
use issue_load::payload::{
    build_payload, describe, draw_estimate, draw_picks, hours_domain, linkage, points_domain,
    synthesize, synthesize_batch, Linkage, Picks,
};
use issue_load::outcome::ResponseData;
use issue_load::stats::RunStatistics;

fn an_issue(id: &str, kind: &str) -> Issue {
    Issue {
        id: String::from(id),
        key: format!("KEY-{}", id),
        project_id: String::from("project-1"),
        epic_id: None,
        parent_id: None,
        kind: String::from(kind),
        title: format!("Issue {}", id),
        description: None,
        estimate: None,
        estimate_type: None,
        labels: None,
        created_at: None,
        updated_at: None,
    }
}

fn a_user(id: &str) -> User {
    User {
        id: String::from(id),
        username: format!("user-{}", id),
        email: None,
        status: String::from("active"),
        created_at: None,
        updated_at: None,
        avatar: None,
    }
}

fn a_member(id: &str, user: Option<&str>) -> ProjectMember {
    ProjectMember { id: String::from(id), user: user.map(a_user) }
}

fn a_status(id: &str) -> IssueStatus {
    IssueStatus { id: String::from(id), name: format!("Status {}", id) }
}

fn a_label(id: &str) -> Label {
    Label { id: String::from(id) }
}

fn preferences(estimate_type: &str) -> ProjectPreferences {
    ProjectPreferences {
        issue_statuses: Vec::new(),
        issue_type: String::from("task"),
        estimate_type: String::from(estimate_type),
    }
}

struct Metadata {
    initiatives: Vec<Issue>,
    epics: Vec<Issue>,
    members: Vec<ProjectMember>,
    labels: Vec<Label>,
    statuses: Vec<IssueStatus>,
}

fn full_metadata() -> Metadata {
    Metadata {
        initiatives: vec![an_issue("i1", "initiative"), an_issue("i2", "initiative")],
        epics: vec![an_issue("e1", "epic"), an_issue("e2", "epic"), an_issue("e3", "epic")],
        members: vec![a_member("m1", Some("u1")), a_member("m2", None), a_member("m3", Some("u3"))],
        labels: vec![a_label("l1"), a_label("l2")],
        statuses: vec![a_status("s1"), a_status("s2")],
    }
}

fn no_metadata() -> Metadata {
    Metadata {
        initiatives: Vec::new(),
        epics: Vec::new(),
        members: Vec::new(),
        labels: Vec::new(),
        statuses: Vec::new(),
    }
}

fn is_one_of(id: &Option<String>, ids: &[&str]) -> bool {
    match id {
        Some(id) => ids.contains(&id.as_str()),
        None => true,
    }
}

#[test]
fn estimate_domains() {
    assert_eq!(hours_domain(), (1..=20).collect::<Vec<u32>>());
    assert_eq!(points_domain(), vec![1, 2, 3, 5, 8, 13, 21]);
}

#[test]
fn linkage_by_issue_type() {
    assert_eq!(linkage(&String::from("initiative")), Linkage::Unlinked);
    assert_eq!(linkage(&String::from("epic")), Linkage::ToInitiative);
    for name in ["task", "issue", "feature", "bug", "test_case", "user_story", ""] {
        assert_eq!(linkage(&String::from(name)), Linkage::ToEpic);
    }
}

#[test]
fn describe_joins_four_phrases() {
    assert_eq!(describe("a b", "c", "", "d e f"), "a b, c, , d e f");
}

#[test]
fn build_payload_without_picks_links_nothing() {
    let picks = Picks { initiative: None, epic: None, member: None, status: None, label: None };
    let payload = build_payload(
        &String::from("task"),
        &String::from("hours"),
        String::from("A title"),
        String::from("A description"),
        7,
        &picks,
    );
    assert_eq!(payload.kind, "task");
    assert_eq!(payload.initiative_id, None);
    assert_eq!(payload.epic_id, None);
    assert_eq!(payload.parent_id, None);
    assert_eq!(payload.assignee_id, None);
    assert_eq!(payload.title, "A title");
    assert_eq!(payload.description, Some(String::from("A description")));
    assert_eq!(payload.estimate_type, Some(String::from("hours")));
    assert_eq!(payload.estimate, Some(7));
    assert_eq!(payload.status, None);
    assert!(payload.labels.is_empty());
}

#[test]
fn build_payload_takes_the_ids_of_the_picks() {
    let initiative = an_issue("i1", "initiative");
    let epic = an_issue("e1", "epic");
    let member = a_member("m1", Some("u1"));
    let status = a_status("s1");
    let label = a_label("l1");
    let picks = Picks {
        initiative: Some(&initiative),
        epic: Some(&epic),
        member: Some(&member),
        status: Some(&status),
        label: Some(&label),
    };
    let payload = build_payload(
        &String::from("bug"),
        &String::from("points"),
        String::from("T"),
        String::from("D"),
        13,
        &picks,
    );
    assert_eq!(payload.kind, "bug");
    assert_eq!(payload.initiative_id, Some(String::from("i1")));
    assert_eq!(payload.epic_id, Some(String::from("e1")));
    assert_eq!(payload.parent_id, None);
    assert_eq!(payload.assignee_id, Some(String::from("u1")));
    assert_eq!(payload.status, Some(String::from("s1")));
    assert_eq!(payload.labels, vec!["l1"]);
    assert_eq!(payload.estimate, Some(13));
    assert_eq!(payload.estimate_type, Some(String::from("points")));
}

#[test]
fn build_payload_leaves_a_member_without_user_unassigned() {
    let member = a_member("m2", None);
    let picks = Picks {
        initiative: None,
        epic: None,
        member: Some(&member),
        status: None,
        label: None,
    };
    let payload = build_payload(
        &String::from("task"),
        &String::from("hours"),
        String::from("T"),
        String::from("D"),
        1,
        &picks,
    );
    assert_eq!(payload.assignee_id, None);
}

#[test]
fn draw_estimate_stays_in_the_domain() {
    let points = points_domain();
    let hours = hours_domain();
    for _ in 0..500 {
        assert!(points.contains(&draw_estimate(&String::from("points"))));
        assert!(hours.contains(&draw_estimate(&String::from("hours"))));
        assert!(hours.contains(&draw_estimate(&String::from("days"))));
    }
}

#[test]
fn draw_picks_of_an_initiative_links_nothing() {
    let data = full_metadata();
    for _ in 0..300 {
        let picks = draw_picks(
            &String::from("initiative"),
            &data.initiatives,
            &data.epics,
            &data.members,
            &data.labels,
            &data.statuses,
        );
        assert!(picks.initiative.is_none());
        assert!(picks.epic.is_none());
        assert!(picks.status.is_none());
    }
}

#[test]
fn synthesize_an_initiative() {
    let data = full_metadata();
    for _ in 0..300 {
        let payload = synthesize(
            &String::from("initiative"),
            &preferences("points"),
            &data.initiatives,
            &data.epics,
            &data.members,
            &data.labels,
            &data.statuses,
        );
        assert_eq!(payload.kind, "initiative");
        assert_eq!(payload.initiative_id, None);
        assert_eq!(payload.epic_id, None);
        assert_eq!(payload.status, None);
        assert_eq!(payload.parent_id, None);
        assert!(is_one_of(&payload.assignee_id, &["u1", "u3"]));
        assert!(payload.labels.len() <= 1);
        assert!(payload.labels.iter().all(|id| id == "l1" || id == "l2"));
        assert!(points_domain().contains(&payload.estimate.unwrap()));
        assert_eq!(payload.estimate_type, Some(String::from("points")));
    }
}

#[test]
fn synthesize_an_epic() {
    let data = full_metadata();
    let mut linked = false;
    for _ in 0..600 {
        let payload = synthesize(
            &String::from("epic"),
            &preferences("hours"),
            &data.initiatives,
            &data.epics,
            &data.members,
            &data.labels,
            &data.statuses,
        );
        assert_eq!(payload.kind, "epic");
        assert!(is_one_of(&payload.initiative_id, &["i1", "i2"]));
        linked = linked || payload.initiative_id.is_some();
        assert_eq!(payload.epic_id, None);
        assert_eq!(payload.status, None);
        assert!(hours_domain().contains(&payload.estimate.unwrap()));
    }
    assert!(linked);
}

#[test]
fn synthesize_a_task() {
    let data = full_metadata();
    let mut linked = false;
    let mut assigned = false;
    let mut labelled = false;
    for _ in 0..600 {
        let payload = synthesize(
            &String::from("task"),
            &preferences("hours"),
            &data.initiatives,
            &data.epics,
            &data.members,
            &data.labels,
            &data.statuses,
        );
        assert_eq!(payload.kind, "task");
        assert_eq!(payload.initiative_id, None);
        assert!(is_one_of(&payload.epic_id, &["e1", "e2", "e3"]));
        assert!(payload.status.is_some());
        assert!(is_one_of(&payload.status, &["s1", "s2"]));
        assert!(is_one_of(&payload.assignee_id, &["u1", "u3"]));
        assert!(payload.labels.len() <= 1);
        assert!(!payload.title.is_empty());
        assert_eq!(payload.description.as_ref().unwrap().matches(", ").count(), 3);
        linked = linked || payload.epic_id.is_some();
        assigned = assigned || payload.assignee_id.is_some();
        labelled = labelled || !payload.labels.is_empty();
    }
    assert!(linked && assigned && labelled);
}

#[test]
fn bulk_create_without_metadata_links_nothing() {
    let data = no_metadata();
    for issue_type in ["initiative", "epic", "task"] {
        let batch = synthesize_batch(
            5,
            &String::from(issue_type),
            &preferences("hours"),
            &data.initiatives,
            &data.epics,
            &data.members,
            &data.labels,
            &data.statuses,
        );
        assert_eq!(batch.len(), 5);
        for payload in &batch {
            assert_eq!(payload.kind, issue_type);
            assert_eq!(payload.initiative_id, None);
            assert_eq!(payload.epic_id, None);
            assert_eq!(payload.parent_id, None);
            assert_eq!(payload.assignee_id, None);
            assert_eq!(payload.status, None);
            assert!(payload.labels.is_empty());
        }
        let outcomes: Vec<ResponseData<usize>> = batch
            .iter()
            .enumerate()
            .map(|(i, _)| ResponseData { duration: 10, data: Some(i) })
            .collect();
        let stats = RunStatistics::accumulate(&outcomes, 100, 60);
        assert_eq!(stats.total_requests, 5);
    }
}

#[test]
fn synthesize_batch_of_none_is_empty() {
    let data = full_metadata();
    let batch = synthesize_batch(
        0,
        &String::from("task"),
        &preferences("hours"),
        &data.initiatives,
        &data.epics,
        &data.members,
        &data.labels,
        &data.statuses,
    );
    assert!(batch.is_empty());
}
