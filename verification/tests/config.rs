use issue_load::config::{is_issue_type, Config, ConfigError};

fn build(issue_count: u32, issue_type: Option<&str>) -> Result<Config, ConfigError> {
    Config::build(
        String::from("SECRET-REDACTED"),
        String::from("https://tracker.example/api"),
        String::from("project-1"),
        issue_count,
        issue_type.map(String::from),
    )
}

#[test]
fn build_keeps_the_values_of_a_valid_configuration() {
    let config = build(25, Some("bug")).unwrap();
    assert_eq!(config.token, "SECRET-REDACTED");
    assert_eq!(config.base_url, "https://tracker.example/api");
    assert_eq!(config.project_id, "project-1");
    assert_eq!(config.issue_count, 25);
    assert_eq!(config.issue_type, Some(String::from("bug")));
}

#[test]
fn build_accepts_the_ends_of_the_count_range() {
    assert_eq!(build(1, None).unwrap().issue_count, 1);
    assert_eq!(build(100, None).unwrap().issue_count, 100);
    assert_eq!(build(100, None).unwrap().issue_type, None);
}

#[test]
fn build_refuses_a_count_out_of_range() {
    assert_eq!(build(0, None).err(), Some(ConfigError::IssueCountOutOfRange));
    assert_eq!(build(101, None).err(), Some(ConfigError::IssueCountOutOfRange));
    assert_eq!(
        build(u32::MAX, Some("task")).err(),
        Some(ConfigError::IssueCountOutOfRange)
    );
}

#[test]
fn build_judges_the_count_before_the_type() {
    assert_eq!(
        build(0, Some("nonsense")).err(),
        Some(ConfigError::IssueCountOutOfRange)
    );
}

#[test]
fn build_refuses_an_unknown_issue_type() {
    assert_eq!(
        build(10, Some("nonsense")).err(),
        Some(ConfigError::InvalidIssueType)
    );
    assert_eq!(build(10, Some("")).err(), Some(ConfigError::InvalidIssueType));
    assert_eq!(build(10, Some("Bug")).err(), Some(ConfigError::InvalidIssueType));
}

#[test]
fn build_accepts_every_issue_type() {
    for name in [
        "initiative",
        "epic",
        "user_story",
        "task",
        "issue",
        "feature",
        "bug",
        "test_case",
    ] {
        assert!(is_issue_type(&String::from(name)));
        assert!(build(3, Some(name)).is_ok());
    }
    assert!(!is_issue_type(&String::from("story")));
}

#[test]
fn config_error_messages() {
    assert_eq!(
        ConfigError::IssueCountOutOfRange.message(),
        "Issue count must be between 1 to 100"
    );
    assert_eq!(ConfigError::InvalidIssueType.message(), "Issue type is invalid.");
}
