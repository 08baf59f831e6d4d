//! Synthetic issues: payloads whose links agree with the issue type and with
//! what the project holds.

use vstd::prelude::*;
use vstd::string::*;
use fake::Fake;
use fake::faker::company::en::CatchPhrase;
use crate::model::{
    CreateIssueBody, CreateIssueBodyView, Issue, IssueStatus, Label, ProjectMember,
    ProjectPreferences,
};
use crate::sampler::{get_random_item, MAX_CHANCE};

verus! {

/// Chance, in percent, that an issue gets an assignee.
pub const ASSIGNEE_CHANCE: u32 = 30;

/// Chance, in percent, that an issue gets a label.
pub const LABEL_CHANCE: u32 = 30;

/// Chance, in percent, that an issue is linked to an initiative or an epic.
pub const LINK_CHANCE: u32 = 20;

/// The estimate of a payload until one is drawn.
pub const DEFAULT_ESTIMATE: u32 = 10;

/// The estimates of a project that counts hours.
pub open spec fn hours() -> Seq<u32> {
    Seq::new(20, |i: int| (i + 1) as u32)
}

/// The estimates of a project that counts points.
pub open spec fn points() -> Seq<u32> {
    seq![1, 2, 3, 5, 8, 13, 21]
}

/// The estimates that a project with the given estimate type can have.
pub open spec fn estimate_domain(estimate_type: Seq<char>) -> Seq<u32> {
    if estimate_type == "points"@ {
        points()
    } else {
        hours()
    }
}

/// What an issue may be linked to, by its type.
#[derive(Clone, Copy, Debug, PartialEq, Eq, Structural)]
pub enum Linkage {
    /// An initiative stands alone.
    Unlinked,
    /// An epic may belong to an initiative.
    ToInitiative,
    /// Any other issue may belong to an epic and starts with a status.
    ToEpic,
}

/// The linkage of an issue type.
pub open spec fn linkage_of(issue_type: Seq<char>) -> Linkage {
    if issue_type == "initiative"@ {
        Linkage::Unlinked
    } else if issue_type == "epic"@ {
        Linkage::ToInitiative
    } else {
        Linkage::ToEpic
    }
}

/// The linkage of an issue type.
pub fn linkage(issue_type: &String) -> (l: Linkage)
    ensures
        l == linkage_of(issue_type@),
{
    let initiative = String::from_str("initiative");
    let epic = String::from_str("epic");
    if *issue_type == initiative {
        Linkage::Unlinked
    } else if *issue_type == epic {
        Linkage::ToInitiative
    } else {
        Linkage::ToEpic
    }
}

/// The estimates of a project that counts hours: 1 to 20.
pub fn hours_domain() -> (domain: Vec<u32>)
    ensures
        domain@ == hours(),
{
    let mut domain: Vec<u32> = Vec::new();
    let mut hour: u32 = 1;
    while hour <= 20
        invariant
            1 <= hour <= 21,
            domain.len() == hour - 1,
            forall|i: int| 0 <= i < domain.len() ==> domain[i] == i + 1,
        decreases 21 - hour,
    {
        domain.push(hour);
        hour = hour + 1;
    }
    assert(domain@ =~= hours());
    domain
}

/// The estimates of a project that counts points.
pub fn points_domain() -> (domain: Vec<u32>)
    ensures
        domain@ == points(),
{
    let domain: Vec<u32> = vec![1, 2, 3, 5, 8, 13, 21];
    assert(domain@ =~= points());
    domain
}

/// The items that were drawn for one payload.
pub struct Picks<'a> {
    pub initiative: Option<&'a Issue>,
    pub epic: Option<&'a Issue>,
    pub member: Option<&'a ProjectMember>,
    pub status: Option<&'a IssueStatus>,
    pub label: Option<&'a Label>,
}

/// The id of an issue that may be missing.
pub open spec fn issue_id(issue: Option<&Issue>) -> Option<Seq<char>> {
    match issue {
        Some(issue) => Some(issue.id@),
        None => None,
    }
}

/// The id of the user behind a member, where there is a member and a user.
pub open spec fn assignee_of(member: Option<&ProjectMember>) -> Option<Seq<char>> {
    match member {
        Some(member) => match member.user {
            Some(user) => Some(user.id@),
            None => None,
        },
        None => None,
    }
}

/// The id of a status that may be missing.
pub open spec fn status_id(status: Option<&IssueStatus>) -> Option<Seq<char>> {
    match status {
        Some(status) => Some(status.id@),
        None => None,
    }
}

/// The labels of a payload: the one that was drawn, or none.
pub open spec fn label_ids(label: Option<&Label>) -> Seq<Seq<char>> {
    match label {
        Some(label) => seq![label.id@],
        None => Seq::empty(),
    }
}

/// The payload that is built from the given texts, estimate and picks.
pub open spec fn payload_of(
    issue_type: Seq<char>,
    estimate_type: Seq<char>,
    title: Seq<char>,
    description: Seq<char>,
    estimate: u32,
    picks: Picks,
) -> CreateIssueBodyView {
    CreateIssueBodyView {
        kind: issue_type,
        initiative_id: issue_id(picks.initiative),
        epic_id: issue_id(picks.epic),
        parent_id: None,
        assignee_id: assignee_of(picks.member),
        title: title,
        description: Some(description),
        estimate_type: Some(estimate_type),
        estimate: Some(estimate),
        status: status_id(picks.status),
        labels: label_ids(picks.label),
    }
}

/// Builds the payload of one issue from what was generated and drawn for it.
/// A label that was drawn replaces the empty label list; nothing is added to
/// it.
pub fn build_payload(
    issue_type: &String,
    estimate_type: &String,
    title: String,
    description: String,
    estimate: u32,
    picks: &Picks,
) -> (payload: CreateIssueBody)
    ensures
        payload@ == payload_of(
            issue_type@,
            estimate_type@,
            title@,
            description@,
            estimate,
            *picks,
        ),
{
    let mut payload = CreateIssueBody {
        kind: issue_type.clone(),
        initiative_id: None,
        epic_id: None,
        parent_id: None,
        assignee_id: None,
        title,
        description: Some(description),
        estimate_type: Some(estimate_type.clone()),
        estimate: Some(estimate),
        status: None,
        labels: Vec::new(),
    };
    if let Some(initiative) = picks.initiative {
        payload.initiative_id = Some(initiative.id.clone());
    }
    if let Some(epic) = picks.epic {
        payload.epic_id = Some(epic.id.clone());
    }
    if let Some(member) = picks.member {
        if let Some(user) = &member.user {
            payload.assignee_id = Some(user.id.clone());
        }
    }
    if let Some(status) = picks.status {
        payload.status = Some(status.id.clone());
    }
    if let Some(label) = picks.label {
        payload.labels = vec![label.id.clone()];
    }
    assert(payload.labels.deep_view() =~= label_ids(picks.label));
    payload
}

/// What `describe` writes: the four phrases, separated by a comma and a space.
pub open spec fn description_of(
    first: Seq<char>,
    second: Seq<char>,
    third: Seq<char>,
    fourth: Seq<char>,
) -> Seq<char> {
    first + ", "@ + second + ", "@ + third + ", "@ + fourth
}

/// Whether `item`, if there is one, is one of `items`.
pub open spec fn drawn_from<T>(item: Option<&T>, items: Seq<T>) -> bool {
    item matches Some(found) ==> exists|i: int| 0 <= i < items.len() && #[trigger] items[i] == *found
}

/// Whether `picks` can be drawn for an issue of type `issue_type` from what
/// the project holds: every pick is one of its collection, an initiative
/// links to nothing, an epic at most to an initiative, any other issue at most
/// to an epic, and only such an issue has a status, which it always has
/// where the project has any.
pub open spec fn picks_allowed(
    picks: Picks,
    issue_type: Seq<char>,
    initiatives: Seq<Issue>,
    epics: Seq<Issue>,
    members: Seq<ProjectMember>,
    labels: Seq<Label>,
    statuses: Seq<IssueStatus>,
) -> bool {
    &&& drawn_from(picks.member, members)
    &&& drawn_from(picks.label, labels)
    &&& match linkage_of(issue_type) {
        Linkage::Unlinked => {
            &&& picks.initiative is None
            &&& picks.epic is None
            &&& picks.status is None
        },
        Linkage::ToInitiative => {
            &&& drawn_from(picks.initiative, initiatives)
            &&& picks.epic is None
            &&& picks.status is None
        },
        Linkage::ToEpic => {
            &&& picks.initiative is None
            &&& drawn_from(picks.epic, epics)
            &&& drawn_from(picks.status, statuses)
            &&& statuses.len() > 0 ==> picks.status is Some
        },
    }
}

/// Whether `payload` is a payload that `synthesize` can give: the one built
/// from picks that are allowed, from some title, from a description that
/// joins four phrases, and from an estimate of the project's domain.
pub open spec fn follows_policy(
    payload: CreateIssueBodyView,
    issue_type: Seq<char>,
    estimate_type: Seq<char>,
    initiatives: Seq<Issue>,
    epics: Seq<Issue>,
    members: Seq<ProjectMember>,
    labels: Seq<Label>,
    statuses: Seq<IssueStatus>,
) -> bool {
    exists|picks: Picks, title: Seq<char>, phrases: Seq<Seq<char>>, estimate: u32|
        {
            &&& picks_allowed(picks, issue_type, initiatives, epics, members, labels, statuses)
            &&& estimate_domain(estimate_type).contains(estimate)
            &&& phrases.len() == 4
            &&& payload == #[trigger] payload_of(
                issue_type,
                estimate_type,
                title,
                description_of(phrases[0], phrases[1], phrases[2], phrases[3]),
                estimate,
                picks,
            )
        }
}

/// A payload that follows the policy carries the issue type and the
/// project's estimate type, an estimate of the project's domain and a
/// description, and has no parent. Its links are ids of what the project
/// holds, as far as the issue type admits them; at most one label stands in
/// its label list.
pub proof fn lemma_policy_shape(
    payload: CreateIssueBodyView,
    issue_type: Seq<char>,
    estimate_type: Seq<char>,
    initiatives: Seq<Issue>,
    epics: Seq<Issue>,
    members: Seq<ProjectMember>,
    labels: Seq<Label>,
    statuses: Seq<IssueStatus>,
)
    requires
        follows_policy(
            payload,
            issue_type,
            estimate_type,
            initiatives,
            epics,
            members,
            labels,
            statuses,
        ),
    ensures
        payload.kind == issue_type,
        payload.parent_id is None,
        payload.description is Some,
        payload.estimate_type == Some(estimate_type),
        payload.estimate is Some,
        estimate_domain(estimate_type).contains(payload.estimate->0),
        linkage_of(issue_type) != Linkage::ToInitiative ==> payload.initiative_id is None,
        linkage_of(issue_type) != Linkage::ToEpic ==> payload.epic_id is None && payload.status
            is None,
        payload.initiative_id matches Some(id) ==> exists|i: int|
            0 <= i < initiatives.len() && (#[trigger] initiatives[i]).id@ == id,
        payload.epic_id matches Some(id) ==> exists|i: int|
            0 <= i < epics.len() && (#[trigger] epics[i]).id@ == id,
        payload.status matches Some(id) ==> exists|i: int|
            0 <= i < statuses.len() && (#[trigger] statuses[i]).id@ == id,
        linkage_of(issue_type) == Linkage::ToEpic && statuses.len() > 0 ==> payload.status
            is Some,
        payload.assignee_id matches Some(id) ==> exists|i: int|
            0 <= i < members.len() && (#[trigger] members[i]).user is Some
                && members[i].user->0.id@ == id,
        payload.labels.len() <= 1,
        payload.labels.len() == 1 ==> exists|i: int|
            0 <= i < labels.len() && (#[trigger] labels[i]).id@ == payload.labels[0],
{
    let (picks, title, phrases, estimate) = choose|
        picks: Picks,
        title: Seq<char>,
        phrases: Seq<Seq<char>>,
        estimate: u32,
    |
        {
            &&& picks_allowed(picks, issue_type, initiatives, epics, members, labels, statuses)
            &&& estimate_domain(estimate_type).contains(estimate)
            &&& phrases.len() == 4
            &&& payload == #[trigger] payload_of(
                issue_type,
                estimate_type,
                title,
                description_of(phrases[0], phrases[1], phrases[2], phrases[3]),
                estimate,
                picks,
            )
        };
    if let Some(found) = picks.initiative {
        let i = choose|i: int| 0 <= i < initiatives.len() && #[trigger] initiatives[i] == *found;
        assert(initiatives[i].id@ == found.id@);
    }
    if let Some(found) = picks.epic {
        let i = choose|i: int| 0 <= i < epics.len() && #[trigger] epics[i] == *found;
        assert(epics[i].id@ == found.id@);
    }
    if let Some(found) = picks.status {
        let i = choose|i: int| 0 <= i < statuses.len() && #[trigger] statuses[i] == *found;
        assert(statuses[i].id@ == found.id@);
    }
    if let Some(found) = picks.member {
        let i = choose|i: int| 0 <= i < members.len() && #[trigger] members[i] == *found;
        assert(members[i].user == found.user);
    }
    if let Some(found) = picks.label {
        let i = choose|i: int| 0 <= i < labels.len() && #[trigger] labels[i] == *found;
        assert(labels[i].id@ == found.id@);
    }
}

/// In a project without initiatives, epics, members, labels and statuses, a
/// payload that follows the policy links to nothing: it has no initiative, no
/// epic, no assignee, no status and no label.
pub proof fn lemma_bare_project_links_nothing(
    payload: CreateIssueBodyView,
    issue_type: Seq<char>,
    estimate_type: Seq<char>,
)
    requires
        follows_policy(
            payload,
            issue_type,
            estimate_type,
            Seq::empty(),
            Seq::empty(),
            Seq::empty(),
            Seq::empty(),
            Seq::empty(),
        ),
    ensures
        payload.initiative_id is None,
        payload.epic_id is None,
        payload.assignee_id is None,
        payload.status is None,
        payload.labels.len() == 0,
{
    lemma_policy_shape(
        payload,
        issue_type,
        estimate_type,
        Seq::empty(),
        Seq::empty(),
        Seq::empty(),
        Seq::empty(),
        Seq::empty(),
    );
}

/// Generates one short phrase with `fake`: `Fake::fake` on the English
/// `CatchPhrase` faker. Nothing is claimed of the phrase, which depends on
/// chance.
#[verifier::external_body]
fn catch_phrase() -> String {
    CatchPhrase().fake()
}

/// Joins four phrases into the description of an issue.
pub fn describe(first: &str, second: &str, third: &str, fourth: &str) -> (description: String)
    ensures
        description@ == description_of(first@, second@, third@, fourth@),
{
    let mut description = String::from_str(first);
    description.append(", ");
    description.append(second);
    description.append(", ");
    description.append(third);
    description.append(", ");
    description.append(fourth);
    description
}

fn drawn<'a, T>(items: &'a Vec<T>, chance: u32) -> (item: Option<&'a T>)
    requires
        chance <= MAX_CHANCE,
    ensures
        drawn_from(item, items@),
        chance == MAX_CHANCE && items.len() > 0 ==> item is Some,
{
    match get_random_item(items, chance) {
        Ok(item) => item,
        Err(_) => None,
    }
}

/// Draws what one payload may link to: always an assignee and a label at
/// their chances, and by the issue type an initiative, or an epic and a
/// status, or nothing more.
pub fn draw_picks<'a>(
    issue_type: &String,
    initiatives: &'a Vec<Issue>,
    epics: &'a Vec<Issue>,
    members: &'a Vec<ProjectMember>,
    labels: &'a Vec<Label>,
    statuses: &'a Vec<IssueStatus>,
) -> (picks: Picks<'a>)
    ensures
        picks_allowed(picks, issue_type@, initiatives@, epics@, members@, labels@, statuses@),
{
    let member = drawn(members, ASSIGNEE_CHANCE);
    let label = drawn(labels, LABEL_CHANCE);
    match linkage(issue_type) {
        Linkage::Unlinked => Picks { initiative: None, epic: None, member, status: None, label },
        Linkage::ToInitiative => {
            let initiative = drawn(initiatives, LINK_CHANCE);
            Picks { initiative, epic: None, member, status: None, label }
        },
        Linkage::ToEpic => {
            let epic = drawn(epics, LINK_CHANCE);
            let status = drawn(statuses, MAX_CHANCE);
            Picks { initiative: None, epic, member, status, label }
        },
    }
}

/// Draws an estimate from the domain of the estimate type.
pub fn draw_estimate(estimate_type: &String) -> (estimate: u32)
    ensures
        estimate_domain(estimate_type@).contains(estimate),
{
    let points_name = String::from_str("points");
    let domain = if *estimate_type == points_name {
        points_domain()
    } else {
        hours_domain()
    };
    match drawn(&domain, MAX_CHANCE) {
        Some(estimate) => *estimate,
        None => DEFAULT_ESTIMATE,
    }
}

/// Builds the payload of one synthetic issue of type `issue_type` for a
/// project with the given preferences and metadata.
pub fn synthesize(
    issue_type: &String,
    preferences: &ProjectPreferences,
    initiatives: &Vec<Issue>,
    epics: &Vec<Issue>,
    members: &Vec<ProjectMember>,
    labels: &Vec<Label>,
    statuses: &Vec<IssueStatus>,
) -> (payload: CreateIssueBody)
    ensures
        follows_policy(
            payload@,
            issue_type@,
            preferences.estimate_type@,
            initiatives@,
            epics@,
            members@,
            labels@,
            statuses@,
        ),
{
    let picks = draw_picks(issue_type, initiatives, epics, members, labels, statuses);
    let title = catch_phrase();
    let first = catch_phrase();
    let second = catch_phrase();
    let third = catch_phrase();
    let fourth = catch_phrase();
    let description = describe(first.as_str(), second.as_str(), third.as_str(), fourth.as_str());
    let estimate = draw_estimate(&preferences.estimate_type);
    let ghost phrases = seq![first@, second@, third@, fourth@];
    let ghost title_text = title@;
    let payload = build_payload(
        issue_type,
        &preferences.estimate_type,
        title,
        description,
        estimate,
        &picks,
    );
    assert(payload@ == payload_of(
        issue_type@,
        preferences.estimate_type@,
        title_text,
        description_of(phrases[0], phrases[1], phrases[2], phrases[3]),
        estimate,
        picks,
    ));
    payload
}

/// Builds the payloads of `count` synthetic issues, each on its own draws.
pub fn synthesize_batch(
    count: u32,
    issue_type: &String,
    preferences: &ProjectPreferences,
    initiatives: &Vec<Issue>,
    epics: &Vec<Issue>,
    members: &Vec<ProjectMember>,
    labels: &Vec<Label>,
    statuses: &Vec<IssueStatus>,
) -> (batch: Vec<CreateIssueBody>)
    ensures
        batch.len() == count,
        forall|i: int|
            0 <= i < batch.len() ==> follows_policy(
                (#[trigger] batch[i])@,
                issue_type@,
                preferences.estimate_type@,
                initiatives@,
                epics@,
                members@,
                labels@,
                statuses@,
            ),
{
    let mut batch: Vec<CreateIssueBody> = Vec::new();
    let mut made: u32 = 0;
    while made < count
        invariant
            made <= count,
            batch.len() == made,
            forall|i: int|
                0 <= i < batch.len() ==> follows_policy(
                    (#[trigger] batch[i])@,
                    issue_type@,
                    preferences.estimate_type@,
                    initiatives@,
                    epics@,
                    members@,
                    labels@,
                    statuses@,
                ),
        decreases count - made,
    {
        let payload = synthesize(
            issue_type,
            preferences,
            initiatives,
            epics,
            members,
            labels,
            statuses,
        );
        batch.push(payload);
        made = made + 1;
    }
    batch
}

} // verus!
