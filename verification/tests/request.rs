use issue_load::request::{
    create_issue_request, epics_request, iam_request, initiatives_request,
    issue_comments_request, issue_request, issue_timeline_items_request, issues_request,
    labels_request, me_request, members_request, my_organisation_request,
    project_authz_request, project_channel_request, project_repositories_request,
    project_request, projects_request, statuses_request, user_preferences_request, Method,
    Request, JSON_CONTENT_TYPE, USER_AGENT,
};

const BASE: &str = "https://tracker.example/api";

fn query(request: &Request) -> Vec<(&str, &str)> {
    request
        .query
        .iter()
        .map(|p| (p.name.as_str(), p.value.as_str()))
        .collect()
}

fn assert_plain_get(request: &Request, url: &str) {
    assert_eq!(request.method, Method::Get);
    assert_eq!(request.url, url);
    assert!(request.query.is_empty());
}

#[test]
fn requests_about_the_user() {
    assert_plain_get(&iam_request(BASE), "https://tracker.example/api/iam");
    assert_plain_get(
        &my_organisation_request(BASE),
        "https://tracker.example/api/iam/organisation",
    );
    assert_plain_get(&me_request(BASE), "https://tracker.example/api/user");
    assert_plain_get(
        &user_preferences_request(BASE),
        "https://tracker.example/api/user/preferences",
    );
}

#[test]
fn requests_about_a_project() {
    assert_plain_get(
        &project_authz_request(BASE, "acme"),
        "https://tracker.example/api/user/authContext/projects/acme",
    );
    assert_plain_get(
        &labels_request(BASE, "acme"),
        "https://tracker.example/api/projects/acme/labels",
    );
    assert_plain_get(
        &statuses_request(BASE, "acme"),
        "https://tracker.example/api/projects/acme/issueStatuses",
    );
    assert_plain_get(
        &members_request(BASE, "acme"),
        "https://tracker.example/api/iam/projects/acme/members/?status=active",
    );
    assert_plain_get(
        &project_repositories_request(BASE, "acme"),
        "https://tracker.example/api/projects/acme/repositories",
    );
    assert_plain_get(
        &project_channel_request(BASE, "acme"),
        "https://tracker.example/api/projects/acme/channels/key",
    );
}

#[test]
fn request_for_one_project() {
    let request = project_request(BASE, "acme");
    assert_eq!(request.method, Method::Get);
    assert_eq!(request.url, "https://tracker.example/api/projects/acme");
    assert_eq!(query(&request), vec![("include", "organisation")]);
}

#[test]
fn request_for_a_page_of_projects() {
    let request = projects_request(BASE, 3, 50);
    assert_eq!(request.method, Method::Get);
    assert_eq!(request.url, "https://tracker.example/api/projects");
    assert_eq!(
        query(&request),
        vec![
            ("status", "active"),
            ("page", "3"),
            ("per_page", "50"),
            ("sort", "-lastActivityDate"),
            ("include", "meta,activeSprint,members,organisation"),
        ]
    );
}

#[test]
fn requests_for_initiatives_and_epics() {
    let request = initiatives_request(BASE, "acme");
    assert_eq!(request.method, Method::Get);
    assert_eq!(request.url, "https://tracker.example/api/projects/acme/issues");
    assert_eq!(
        query(&request),
        vec![
            ("type", "initiative"),
            ("state", "active"),
            ("page", "1"),
            ("per_page", "50"),
            ("sort", "-createdAt"),
            (
                "include",
                "createdBy,assignee,developmentUpdates,isFollower,subtasksCount"
            ),
        ]
    );
    let request = epics_request(BASE, "acme");
    assert_eq!(request.url, "https://tracker.example/api/projects/acme/issues");
    assert_eq!(query(&request)[0], ("type", "epic"));
    assert_eq!(query(&request)[1..], query(&initiatives_request(BASE, "acme"))[1..]);
}

#[test]
fn request_to_create_an_issue() {
    let request = create_issue_request(BASE, "acme");
    assert_eq!(request.method, Method::Post);
    assert_eq!(request.url, "https://tracker.example/api/projects/acme/issues");
    assert!(request.query.is_empty());
}

#[test]
fn request_for_a_page_of_issues() {
    let request = issues_request(BASE, "acme", 12, 50);
    assert_eq!(request.method, Method::Get);
    assert_eq!(request.url, "https://tracker.example/api/projects/acme/issues");
    assert_eq!(
        query(&request),
        vec![
            ("state", "active"),
            ("page", "12"),
            ("per_page", "50"),
            ("sort", "-createdAt"),
            (
                "include",
                "createdBy,assignee,developmentUpdates,isFollower,subtasksCount,meta"
            ),
        ]
    );
}

#[test]
fn request_for_one_issue() {
    let request = issue_request(BASE, "acme", "i9");
    assert_eq!(request.method, Method::Get);
    assert_eq!(request.url, "https://tracker.example/api/projects/acme/issues/i9");
    assert_eq!(
        query(&request),
        vec![(
            "include",
            "isCreator,isAssignee,isFollower,initiative,epic,parent,commitment,subtasksCount"
        )]
    );
}

#[test]
fn requests_for_what_hangs_on_an_issue() {
    let request = issue_comments_request(BASE, "acme", "i9", 2, 25);
    assert_eq!(request.method, Method::Get);
    assert_eq!(
        request.url,
        "https://tracker.example/api/projects/acme/issues/i9/comments"
    );
    assert_eq!(
        query(&request),
        vec![("page", "2"), ("per_page", "25"), ("sort", "-createdAt")]
    );
    let request = issue_timeline_items_request(BASE, "acme", "i9", 1, 100);
    assert_eq!(
        request.url,
        "https://tracker.example/api/projects/acme/issues/i9/timelineitems"
    );
    assert_eq!(
        query(&request),
        vec![
            ("page", "1"),
            ("per_page", "100"),
            ("sort", "-createdAt"),
            ("include", "meta,commens"),
        ]
    );
}

#[test]
fn headers_of_every_request() {
    assert_eq!(JSON_CONTENT_TYPE, "application/json");
    assert!(USER_AGENT.starts_with("Mozilla/5.0 "));
}
