//! The entities of the remote service, as this library holds them.
//!
//! Every field is a plain value. An attribute that the service calls `type`
//! is held in a field named `kind`.

use vstd::prelude::*;

verus! {

/// What the current user may do in one project.
#[derive(Clone, Debug)]
pub struct Authz {
    pub groups: Vec<String>,
    pub id: String,
    pub permissions: Vec<String>,
    pub roles: Vec<String>,
}

/// A user of the service.
#[derive(Clone, Debug)]
pub struct User {
    pub id: String,
    pub username: String,
    pub email: Option<String>,
    pub status: String,
    pub created_at: Option<String>,
    pub updated_at: Option<String>,
    pub avatar: Option<Avatar>,
}

/// A user of whom any attribute may be missing.
#[derive(Clone, Debug)]
pub struct UserPartial {
    pub id: Option<String>,
    pub username: Option<String>,
    pub email: Option<String>,
    pub status: Option<String>,
    pub created_at: Option<String>,
    pub updated_at: Option<String>,
    pub avatar: Option<Avatar>,
}

/// The picture of a user or an organisation.
#[derive(Clone, Debug)]
pub struct Avatar {
    pub id: Option<String>,
    pub url: String,
    pub versions: Option<AvatarVersions>,
}

/// The smaller renderings of an avatar.
#[derive(Clone, Debug)]
pub struct AvatarVersions {
    pub x: Option<String>,
    pub xs: Option<String>,
}

/// Who is acting: a user with the accounts it belongs to.
#[derive(Clone, Debug)]
pub struct Actor {
    pub id: Option<String>,
    pub user: Option<User>,
    pub accounts: Option<Vec<Account>>,
    pub kind: Option<String>,
    pub user_roles: Option<Vec<String>>,
}

/// An account of the service.
#[derive(Clone, Debug)]
pub struct Account {
    pub id: String,
    pub tier: String,
    pub kind: String,
    pub user_id: String,
}

/// An account of which any attribute may be missing.
#[derive(Clone, Debug)]
pub struct AccountPartial {
    pub id: Option<String>,
    pub tier: Option<String>,
    pub kind: Option<String>,
    pub user_id: Option<String>,
}

/// An organisation.
#[derive(Clone, Debug)]
pub struct Organisation {
    pub id: String,
    pub tier: String,
    pub kind: String,
    pub user_id: String,
    pub avatar: Option<Avatar>,
    pub owner: Option<UserPartial>,
    pub account: Option<AccountPartial>,
}

/// An organisation of which any attribute may be missing.
#[derive(Clone, Debug)]
pub struct OrganisationPartial {
    pub id: Option<String>,
    pub tier: Option<String>,
    pub kind: Option<String>,
    pub user_id: Option<String>,
    pub avatar: Option<Avatar>,
    pub owner: Option<UserPartial>,
    pub account: Option<AccountPartial>,
}

/// The value of a user preference.
#[derive(Clone, Debug)]
pub enum UserPreferenceValue {
    Flag(bool),
    Stringy(String),
}

/// One preference of the current user.
#[derive(Clone, Debug)]
pub struct UserPreference {
    pub id: String,
    pub value: UserPreferenceValue,
}

/// A project.
#[derive(Clone, Debug)]
pub struct Project {
    pub id: String,
    pub key: String,
    pub name: String,
    pub preferences: Option<ProjectPreferences>,
    pub created_at: Option<String>,
    pub updated_at: Option<String>,
}

/// A project of which any attribute may be missing.
#[derive(Clone, Debug)]
pub struct ProjectPartial {
    pub id: Option<String>,
    pub key: Option<String>,
    pub name: Option<String>,
    pub preferences: Option<ProjectPreferences>,
    pub created_at: Option<String>,
    pub updated_at: Option<String>,
}

/// What a crawl keeps of a project: how to address it and how to name it.
#[derive(Clone, Debug)]
pub struct ProjectSlim {
    pub id: String,
    pub key: String,
    pub name: String,
}

/// The settings of a project that shape its issues.
#[derive(Clone, Debug)]
pub struct ProjectPreferences {
    pub issue_statuses: Vec<IssueStatus>,
    pub issue_type: String,
    pub estimate_type: String,
}

/// A label of a project.
#[derive(Clone, Debug)]
pub struct Label {
    pub id: String,
}

/// A status that an issue of a project can have.
#[derive(Clone, Debug)]
pub struct IssueStatus {
    pub id: String,
    pub name: String,
}

/// An issue.
#[derive(Clone, Debug)]
pub struct Issue {
    pub id: String,
    pub key: String,
    pub project_id: String,
    pub epic_id: Option<String>,
    pub parent_id: Option<String>,
    pub kind: String,
    pub title: String,
    pub description: Option<String>,
    pub estimate: Option<u32>,
    pub estimate_type: Option<String>,
    pub labels: Option<Vec<String>>,
    pub created_at: Option<String>,
    pub updated_at: Option<String>,
}

/// An issue of which any attribute may be missing.
#[derive(Clone, Debug)]
pub struct IssuePartial {
    pub id: Option<String>,
    pub key: Option<String>,
    pub project_id: Option<String>,
    pub epic_id: Option<String>,
    pub parent_id: Option<String>,
    pub kind: Option<String>,
    pub title: Option<String>,
    pub description: Option<String>,
    pub estimate: Option<u32>,
    pub estimate_type: Option<String>,
    pub labels: Option<Vec<String>>,
    pub created_at: Option<String>,
    pub updated_at: Option<String>,
}

/// A member of a project, with the user behind it where there is one.
#[derive(Clone, Debug)]
pub struct ProjectMember {
    pub id: String,
    pub user: Option<User>,
}

/// The body of the request that creates an issue.
#[derive(Clone, Debug)]
pub struct CreateIssueBody {
    pub kind: String,
    pub initiative_id: Option<String>,
    pub epic_id: Option<String>,
    pub parent_id: Option<String>,
    pub assignee_id: Option<String>,
    pub title: String,
    pub description: Option<String>,
    pub estimate_type: Option<String>,
    pub estimate: Option<u32>,
    pub status: Option<String>,
    pub labels: Vec<String>,
}

/// What a request to create an issue says, with every text as a sequence of
/// characters.
pub struct CreateIssueBodyView {
    pub kind: Seq<char>,
    pub initiative_id: Option<Seq<char>>,
    pub epic_id: Option<Seq<char>>,
    pub parent_id: Option<Seq<char>>,
    pub assignee_id: Option<Seq<char>>,
    pub title: Seq<char>,
    pub description: Option<Seq<char>>,
    pub estimate_type: Option<Seq<char>>,
    pub estimate: Option<u32>,
    pub status: Option<Seq<char>>,
    pub labels: Seq<Seq<char>>,
}

impl View for CreateIssueBody {
    type V = CreateIssueBodyView;

    open spec fn view(&self) -> CreateIssueBodyView {
        CreateIssueBodyView {
            kind: self.kind@,
            initiative_id: self.initiative_id.deep_view(),
            epic_id: self.epic_id.deep_view(),
            parent_id: self.parent_id.deep_view(),
            assignee_id: self.assignee_id.deep_view(),
            title: self.title@,
            description: self.description.deep_view(),
            estimate_type: self.estimate_type.deep_view(),
            estimate: self.estimate,
            status: self.status.deep_view(),
            labels: self.labels.deep_view(),
        }
    }
}

/// A comment on an issue.
#[derive(Clone, Debug)]
pub struct Comment {
    pub id: String,
    pub topic_id: String,
    pub body: String,
    pub body_data: Option<String>,
    pub created_at: Option<String>,
    pub updated_at: Option<String>,
}

/// Where one page stands in a paginated listing.
#[derive(Clone, Copy, Debug, PartialEq, Eq, Structural)]
pub struct PaginationMeta {
    pub page: u32,
    pub per_page: u32,
    pub total_records: u32,
    pub total_pages: u32,
}

/// One page of a paginated listing.
#[derive(Clone, Debug)]
pub struct PaginationResult<T> {
    pub meta: PaginationMeta,
    pub data: Vec<T>,
}

/// One entry of the history of an issue.
#[derive(Clone, Debug)]
pub struct IssueTimelineItem {
    pub actor: Option<Actor>,
    pub aggregate: String,
    pub aggregate_id: String,
    pub created_at: String,
    pub data: IssueTimelineItemData,
    pub event: String,
    pub id: String,
    pub message: String,
}

/// What an entry of the history of an issue refers to.
#[derive(Clone, Debug)]
pub struct IssueTimelineItemData {
    pub issue: Option<IssuePartial>,
    pub subtask: Option<IssuePartial>,
    pub epic: Option<IssuePartial>,
    pub parent: Option<IssuePartial>,
    pub comment: Option<Comment>,
    pub initiative: Option<IssuePartial>,
    pub priority: Option<String>,
    pub previous_priority: Option<String>,
    pub labels: Option<Vec<String>>,
    pub updated_at: Option<String>,
}

/// A source repository linked to a project.
#[derive(Clone, Debug)]
pub struct Repository {
    pub id: String,
    pub project_id: String,
    pub name: String,
    pub description: Option<String>,
    pub integration: Option<RepositoryIntegration>,
    pub private: bool,
    pub created_at: Option<String>,
    pub updated_at: Option<String>,
}

/// How a repository is reached at its provider.
#[derive(Clone, Debug)]
pub struct RepositoryIntegration {
    pub node_id: Option<String>,
    pub default_branch: Option<String>,
    pub provider: Option<String>,
    pub url: Option<String>,
    pub owner: Option<RepositoryOwner>,
}

/// The owner of a repository at its provider.
#[derive(Clone, Debug)]
pub struct RepositoryOwner {
    pub node_id: String,
    pub username: String,
}

/// The key of the channel on which a project announces changes.
#[derive(Clone, Debug)]
pub struct ChannelKey {
    pub cluster: String,
    pub key: String,
}

} // verus!
