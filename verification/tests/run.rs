use issue_load::config::Config;
use issue_load::model::{IssueStatus, ProjectPreferences};
use issue_load::run::{bulk_payloads, chosen_issue_type, creatable_statuses};

fn status(id: &str) -> IssueStatus {
    IssueStatus { id: String::from(id), name: format!("Status {}", id) }
}

fn config(issue_count: u32, issue_type: Option<&str>) -> Config {
    Config::build(
        String::from("SECRET-REDACTED"),
        String::from("https://tracker.example/api"),
        String::from("project-1"),
        issue_count,
        issue_type.map(String::from),
    )
    .unwrap()
}

fn preferences(issue_type: &str) -> ProjectPreferences {
    ProjectPreferences {
        issue_statuses: Vec::new(),
        issue_type: String::from(issue_type),
        estimate_type: String::from("points"),
    }
}

#[test]
fn creatable_statuses_drops_the_last_one() {
    let kept = creatable_statuses(vec![status("todo"), status("doing"), status("done")]);
    let ids: Vec<&str> = kept.iter().map(|s| s.id.as_str()).collect();
    assert_eq!(ids, vec!["todo", "doing"]);
    assert!(creatable_statuses(vec![status("done")]).is_empty());
    assert!(creatable_statuses(Vec::new()).is_empty());
}

#[test]
fn chosen_issue_type_prefers_the_configuration() {
    assert_eq!(chosen_issue_type(&config(1, Some("bug")), &preferences("task")), "bug");
    assert_eq!(chosen_issue_type(&config(1, None), &preferences("task")), "task");
}

#[test]
fn bulk_payloads_never_start_in_the_last_status() {
    let batch = bulk_payloads(
        &config(40, None),
        &preferences("task"),
        &Vec::new(),
        &Vec::new(),
        &Vec::new(),
        &Vec::new(),
        vec![status("todo"), status("done")],
    );
    assert_eq!(batch.len(), 40);
    for payload in &batch {
        assert_eq!(payload.kind, "task");
        assert_eq!(payload.status, Some(String::from("todo")));
        assert!([1, 2, 3, 5, 8, 13, 21].contains(&payload.estimate.unwrap()));
    }
}

#[test]
fn bulk_payloads_of_a_project_with_one_status_have_none() {
    let batch = bulk_payloads(
        &config(5, Some("feature")),
        &preferences("task"),
        &Vec::new(),
        &Vec::new(),
        &Vec::new(),
        &Vec::new(),
        vec![status("done")],
    );
    assert_eq!(batch.len(), 5);
    for payload in &batch {
        assert_eq!(payload.kind, "feature");
        assert_eq!(payload.status, None);
    }
}
