//! The requests that the remote service understands: for each endpoint its
//! method, its address and its query.

use vstd::prelude::*;
use vstd::string::*;
use crate::crawl::PAGE_SIZE;
use crate::text::{decimal_digits, decimal_text};

verus! {

/// The user agent that every request names.
pub const USER_AGENT: &'static str =
    "Mozilla/5.0 (Windows NT 10.0; Win64; x64) AppleWebKit/537.36 (KHTML, like Gecko) Chrome/118.0.0.0 Safari/537.36";

/// The content type that every request names.
pub const JSON_CONTENT_TYPE: &'static str = "application/json";

/// The HTTP methods that the endpoints take.
#[derive(Clone, Copy, Debug, PartialEq, Eq, Structural)]
pub enum Method {
    Get,
    Post,
}

/// One parameter of a query.
#[derive(Clone, Debug)]
pub struct QueryParam {
    pub name: String,
    pub value: String,
}

impl View for QueryParam {
    type V = (Seq<char>, Seq<char>);

    open spec fn view(&self) -> (Seq<char>, Seq<char>) {
        (self.name@, self.value@)
    }
}

/// A request to the remote service, ready to be sent with the bearer token.
#[derive(Clone, Debug)]
pub struct Request {
    pub method: Method,
    pub url: String,
    pub query: Vec<QueryParam>,
}

/// A request, with every text as a sequence of characters.
pub struct RequestView {
    pub method: Method,
    pub url: Seq<char>,
    pub query: Seq<(Seq<char>, Seq<char>)>,
}

impl View for Request {
    type V = RequestView;

    open spec fn view(&self) -> RequestView {
        RequestView {
            method: self.method,
            url: self.url@,
            query: Seq::new(self.query@.len(), |i: int| self.query@[i]@),
        }
    }
}

/// The address of what lies at `tail` below a project.
pub open spec fn project_url(base_url: Seq<char>, project_id: Seq<char>, tail: Seq<char>) -> Seq<
    char,
> {
    base_url + "/projects/"@ + project_id + tail
}

/// The address of what lies at `tail` below an issue of a project.
pub open spec fn issue_url(
    base_url: Seq<char>,
    project_id: Seq<char>,
    issue_id: Seq<char>,
    tail: Seq<char>,
) -> Seq<char> {
    base_url + "/projects/"@ + project_id + "/issues/"@ + issue_id + tail
}

/// A `GET` request without a query.
pub open spec fn plain_get(url: Seq<char>) -> RequestView {
    RequestView { method: Method::Get, url: url, query: Seq::empty() }
}

fn join(head: &str, tail: &str) -> (joined: String)
    ensures
        joined@ == head@ + tail@,
{
    let mut joined = String::from_str(head);
    joined.append(tail);
    joined
}

fn under_project(base_url: &str, project_id: &str, tail: &str) -> (url: String)
    ensures
        url@ == project_url(base_url@, project_id@, tail@),
{
    let mut url = String::from_str(base_url);
    url.append("/projects/");
    url.append(project_id);
    url.append(tail);
    url
}

fn under_issue(base_url: &str, project_id: &str, issue_id: &str, tail: &str) -> (url: String)
    ensures
        url@ == issue_url(base_url@, project_id@, issue_id@, tail@),
{
    let mut url = String::from_str(base_url);
    url.append("/projects/");
    url.append(project_id);
    url.append("/issues/");
    url.append(issue_id);
    url.append(tail);
    url
}

fn param(name: &str, value: &str) -> (p: QueryParam)
    ensures
        p@ == (name@, value@),
{
    QueryParam { name: String::from_str(name), value: String::from_str(value) }
}

fn number_param(name: &str, value: u32) -> (p: QueryParam)
    ensures
        p@ == (name@, decimal_digits(value as nat)),
{
    QueryParam { name: String::from_str(name), value: decimal_text(value as u128) }
}

fn get(url: String) -> (request: Request)
    ensures
        request@ == plain_get(url@),
{
    let request = Request { method: Method::Get, url, query: Vec::new() };
    assert(request@.query =~= Seq::empty());
    request
}

/// Who is acting.
pub fn iam_request(base_url: &str) -> (request: Request)
    ensures
        request@ == plain_get(base_url@ + "/iam"@),
{
    get(join(base_url, "/iam"))
}

/// The organisation of the current user.
pub fn my_organisation_request(base_url: &str) -> (request: Request)
    ensures
        request@ == plain_get(base_url@ + "/iam/organisation"@),
{
    get(join(base_url, "/iam/organisation"))
}

/// The current user.
pub fn me_request(base_url: &str) -> (request: Request)
    ensures
        request@ == plain_get(base_url@ + "/user"@),
{
    get(join(base_url, "/user"))
}

/// The preferences of the current user.
pub fn user_preferences_request(base_url: &str) -> (request: Request)
    ensures
        request@ == plain_get(base_url@ + "/user/preferences"@),
{
    get(join(base_url, "/user/preferences"))
}

/// One page of the active projects that the user can see, last active first.
pub fn projects_request(base_url: &str, page: u32, per_page: u32) -> (request: Request)
    ensures
        request@ == (RequestView {
            method: Method::Get,
            url: base_url@ + "/projects"@,
            query: seq![
                ("status"@, "active"@),
                ("page"@, decimal_digits(page as nat)),
                ("per_page"@, decimal_digits(per_page as nat)),
                ("sort"@, "-lastActivityDate"@),
                ("include"@, "meta,activeSprint,members,organisation"@),
            ],
        }),
{
    let mut query: Vec<QueryParam> = Vec::new();
    query.push(param("status", "active"));
    query.push(number_param("page", page));
    query.push(number_param("per_page", per_page));
    query.push(param("sort", "-lastActivityDate"));
    query.push(param("include", "meta,activeSprint,members,organisation"));
    let request = Request { method: Method::Get, url: join(base_url, "/projects"), query };
    assert(request@.query =~= seq![
        ("status"@, "active"@),
        ("page"@, decimal_digits(page as nat)),
        ("per_page"@, decimal_digits(per_page as nat)),
        ("sort"@, "-lastActivityDate"@),
        ("include"@, "meta,activeSprint,members,organisation"@),
    ]);
    request
}

/// One project, with its organisation.
pub fn project_request(base_url: &str, project_id: &str) -> (request: Request)
    ensures
        request@ == (RequestView {
            method: Method::Get,
            url: base_url@ + "/projects/"@ + project_id@,
            query: seq![("include"@, "organisation"@)],
        }),
{
    let mut query: Vec<QueryParam> = Vec::new();
    query.push(param("include", "organisation"));
    let request = Request {
        method: Method::Get,
        url: under_project(base_url, project_id, ""),
        query,
    };
    proof {
        reveal_strlit("");
        assert(request@.query =~= seq![("include"@, "organisation"@)]);
        assert(request@.url =~= base_url@ + "/projects/"@ + project_id@);
    }
    request
}

/// What the current user may do in a project.
pub fn project_authz_request(base_url: &str, project_id: &str) -> (request: Request)
    ensures
        request@ == plain_get(base_url@ + "/user/authContext/projects/"@ + project_id@),
{
    let mut url = String::from_str(base_url);
    url.append("/user/authContext/projects/");
    url.append(project_id);
    get(url)
}

/// The labels of a project.
pub fn labels_request(base_url: &str, project_id: &str) -> (request: Request)
    ensures
        request@ == plain_get(project_url(base_url@, project_id@, "/labels"@)),
{
    get(under_project(base_url, project_id, "/labels"))
}

/// The statuses that an issue of a project can have.
pub fn statuses_request(base_url: &str, project_id: &str) -> (request: Request)
    ensures
        request@ == plain_get(project_url(base_url@, project_id@, "/issueStatuses"@)),
{
    get(under_project(base_url, project_id, "/issueStatuses"))
}

/// The query for the first page of the active issues of one type, newest
/// first.
pub open spec fn issues_of_type_query(issue_type: Seq<char>) -> Seq<(Seq<char>, Seq<char>)> {
    seq![
        ("type"@, issue_type),
        ("state"@, "active"@),
        ("page"@, decimal_digits(1)),
        ("per_page"@, decimal_digits(PAGE_SIZE as nat)),
        ("sort"@, "-createdAt"@),
        ("include"@, "createdBy,assignee,developmentUpdates,isFollower,subtasksCount"@),
    ]
}

fn issues_of_type_request(base_url: &str, project_id: &str, issue_type: &str) -> (request: Request)
    ensures
        request@ == (RequestView {
            method: Method::Get,
            url: project_url(base_url@, project_id@, "/issues"@),
            query: issues_of_type_query(issue_type@),
        }),
{
    let mut query: Vec<QueryParam> = Vec::new();
    query.push(param("type", issue_type));
    query.push(param("state", "active"));
    query.push(number_param("page", 1));
    query.push(number_param("per_page", PAGE_SIZE));
    query.push(param("sort", "-createdAt"));
    query.push(
        param("include", "createdBy,assignee,developmentUpdates,isFollower,subtasksCount"),
    );
    let request = Request {
        method: Method::Get,
        url: under_project(base_url, project_id, "/issues"),
        query,
    };
    assert(request@.query =~= issues_of_type_query(issue_type@));
    request
}

/// The first page of the active initiatives of a project.
pub fn initiatives_request(base_url: &str, project_id: &str) -> (request: Request)
    ensures
        request@ == (RequestView {
            method: Method::Get,
            url: project_url(base_url@, project_id@, "/issues"@),
            query: issues_of_type_query("initiative"@),
        }),
{
    issues_of_type_request(base_url, project_id, "initiative")
}

/// The first page of the active epics of a project.
pub fn epics_request(base_url: &str, project_id: &str) -> (request: Request)
    ensures
        request@ == (RequestView {
            method: Method::Get,
            url: project_url(base_url@, project_id@, "/issues"@),
            query: issues_of_type_query("epic"@),
        }),
{
    issues_of_type_request(base_url, project_id, "epic")
}

/// The active members of a project.
pub fn members_request(base_url: &str, project_id: &str) -> (request: Request)
    ensures
        request@ == plain_get(
            base_url@ + "/iam/projects/"@ + project_id@ + "/members/?status=active"@,
        ),
{
    let mut url = String::from_str(base_url);
    url.append("/iam/projects/");
    url.append(project_id);
    url.append("/members/?status=active");
    get(url)
}

/// The repositories linked to a project.
pub fn project_repositories_request(base_url: &str, project_id: &str) -> (request: Request)
    ensures
        request@ == plain_get(project_url(base_url@, project_id@, "/repositories"@)),
{
    get(under_project(base_url, project_id, "/repositories"))
}

/// The key of the channel of a project.
pub fn project_channel_request(base_url: &str, project_id: &str) -> (request: Request)
    ensures
        request@ == plain_get(project_url(base_url@, project_id@, "/channels/key"@)),
{
    get(under_project(base_url, project_id, "/channels/key"))
}

/// The request that creates an issue in a project. Its body is the payload.
pub fn create_issue_request(base_url: &str, project_id: &str) -> (request: Request)
    ensures
        request@ == (RequestView {
            method: Method::Post,
            url: project_url(base_url@, project_id@, "/issues"@),
            query: Seq::empty(),
        }),
{
    let request = Request {
        method: Method::Post,
        url: under_project(base_url, project_id, "/issues"),
        query: Vec::new(),
    };
    assert(request@.query =~= Seq::empty());
    request
}

/// One page of the active issues of a project, newest first.
pub fn issues_request(base_url: &str, project_id: &str, page: u32, per_page: u32) -> (request:
    Request)
    ensures
        request@ == (RequestView {
            method: Method::Get,
            url: project_url(base_url@, project_id@, "/issues"@),
            query: seq![
                ("state"@, "active"@),
                ("page"@, decimal_digits(page as nat)),
                ("per_page"@, decimal_digits(per_page as nat)),
                ("sort"@, "-createdAt"@),
                (
                    "include"@,
                    "createdBy,assignee,developmentUpdates,isFollower,subtasksCount,meta"@,
                ),
            ],
        }),
{
    let mut query: Vec<QueryParam> = Vec::new();
    query.push(param("state", "active"));
    query.push(number_param("page", page));
    query.push(number_param("per_page", per_page));
    query.push(param("sort", "-createdAt"));
    query.push(
        param("include", "createdBy,assignee,developmentUpdates,isFollower,subtasksCount,meta"),
    );
    let request = Request {
        method: Method::Get,
        url: under_project(base_url, project_id, "/issues"),
        query,
    };
    assert(request@.query =~= seq![
        ("state"@, "active"@),
        ("page"@, decimal_digits(page as nat)),
        ("per_page"@, decimal_digits(per_page as nat)),
        ("sort"@, "-createdAt"@),
        ("include"@, "createdBy,assignee,developmentUpdates,isFollower,subtasksCount,meta"@),
    ]);
    request
}

/// One issue in full, with what it is linked to.
pub fn issue_request(base_url: &str, project_id: &str, issue_id: &str) -> (request: Request)
    ensures
        request@ == (RequestView {
            method: Method::Get,
            url: base_url@ + "/projects/"@ + project_id@ + "/issues/"@ + issue_id@,
            query: seq![
                (
                    "include"@,
                    "isCreator,isAssignee,isFollower,initiative,epic,parent,commitment,subtasksCount"@,
                ),
            ],
        }),
{
    let mut query: Vec<QueryParam> = Vec::new();
    query.push(
        param(
            "include",
            "isCreator,isAssignee,isFollower,initiative,epic,parent,commitment,subtasksCount",
        ),
    );
    let request = Request {
        method: Method::Get,
        url: under_issue(base_url, project_id, issue_id, ""),
        query,
    };
    proof {
        reveal_strlit("");
        assert(request@.query =~= seq![
            (
                "include"@,
                "isCreator,isAssignee,isFollower,initiative,epic,parent,commitment,subtasksCount"@,
            ),
        ]);
        assert(request@.url =~= base_url@ + "/projects/"@ + project_id@ + "/issues/"@
            + issue_id@);
    }
    request
}

/// One page of the comments on an issue, newest first.
pub fn issue_comments_request(
    base_url: &str,
    project_id: &str,
    issue_id: &str,
    page: u32,
    per_page: u32,
) -> (request: Request)
    ensures
        request@ == (RequestView {
            method: Method::Get,
            url: issue_url(base_url@, project_id@, issue_id@, "/comments"@),
            query: seq![
                ("page"@, decimal_digits(page as nat)),
                ("per_page"@, decimal_digits(per_page as nat)),
                ("sort"@, "-createdAt"@),
            ],
        }),
{
    let mut query: Vec<QueryParam> = Vec::new();
    query.push(number_param("page", page));
    query.push(number_param("per_page", per_page));
    query.push(param("sort", "-createdAt"));
    let request = Request {
        method: Method::Get,
        url: under_issue(base_url, project_id, issue_id, "/comments"),
        query,
    };
    assert(request@.query =~= seq![
        ("page"@, decimal_digits(page as nat)),
        ("per_page"@, decimal_digits(per_page as nat)),
        ("sort"@, "-createdAt"@),
    ]);
    request
}

/// One page of the history of an issue, newest first.
pub fn issue_timeline_items_request(
    base_url: &str,
    project_id: &str,
    issue_id: &str,
    page: u32,
    per_page: u32,
) -> (request: Request)
    ensures
        request@ == (RequestView {
            method: Method::Get,
            url: issue_url(base_url@, project_id@, issue_id@, "/timelineitems"@),
            query: seq![
                ("page"@, decimal_digits(page as nat)),
                ("per_page"@, decimal_digits(per_page as nat)),
                ("sort"@, "-createdAt"@),
                ("include"@, "meta,commens"@),
            ],
        }),
{
    let mut query: Vec<QueryParam> = Vec::new();
    query.push(number_param("page", page));
    query.push(number_param("per_page", per_page));
    query.push(param("sort", "-createdAt"));
    query.push(param("include", "meta,commens"));
    let request = Request {
        method: Method::Get,
        url: under_issue(base_url, project_id, issue_id, "/timelineitems"),
        query,
    };
    assert(request@.query =~= seq![
        ("page"@, decimal_digits(page as nat)),
        ("per_page"@, decimal_digits(per_page as nat)),
        ("sort"@, "-createdAt"@),
        ("include"@, "meta,commens"@),
    ]);
    request
}

} // verus!
