//! The bulk creation of issues: what is prepared before anything is sent.

use vstd::prelude::*;
use crate::config::Config;
use crate::model::{CreateIssueBody, Issue, IssueStatus, Label, ProjectMember, ProjectPreferences};
use crate::payload::{follows_policy, synthesize_batch};

verus! {

/// The statuses in which an issue may be created: all but the last one of the
/// project, which stands for work that is done.
pub open spec fn statuses_to_create(statuses: Seq<IssueStatus>) -> Seq<IssueStatus> {
    if statuses.len() > 0 {
        statuses.drop_last()
    } else {
        statuses
    }
}

/// The type of the issues that a run creates: the one of the configuration
/// where it names one, else the one that the project prefers.
pub open spec fn issue_type_to_create(config: Config, preferences: ProjectPreferences) -> Seq<
    char,
> {
    match config.issue_type {
        Some(name) => name@,
        None => preferences.issue_type@,
    }
}

/// Drops the last status of a project, so that no issue is created as done.
pub fn creatable_statuses(statuses: Vec<IssueStatus>) -> (kept: Vec<IssueStatus>)
    ensures
        kept@ == statuses_to_create(statuses@),
{
    let mut kept = statuses;
    if kept.len() > 0 {
        kept.pop();
    }
    kept
}

/// The type of the issues that a run creates.
pub fn chosen_issue_type(config: &Config, preferences: &ProjectPreferences) -> (name: String)
    ensures
        name@ == issue_type_to_create(*config, *preferences),
{
    match &config.issue_type {
        Some(name) => name.clone(),
        None => preferences.issue_type.clone(),
    }
}

/// Builds the payloads of one run: as many as the configuration asks for,
/// each of the chosen issue type and following the policy for the project's
/// metadata, with the last status of the project left out.
pub fn bulk_payloads(
    config: &Config,
    preferences: &ProjectPreferences,
    initiatives: &Vec<Issue>,
    epics: &Vec<Issue>,
    members: &Vec<ProjectMember>,
    labels: &Vec<Label>,
    statuses: Vec<IssueStatus>,
) -> (batch: Vec<CreateIssueBody>)
    ensures
        batch.len() == config.issue_count,
        forall|i: int|
            0 <= i < batch.len() ==> follows_policy(
                (#[trigger] batch[i])@,
                issue_type_to_create(*config, *preferences),
                preferences.estimate_type@,
                initiatives@,
                epics@,
                members@,
                labels@,
                statuses_to_create(statuses@),
            ),
{
    let statuses = creatable_statuses(statuses);
    let issue_type = chosen_issue_type(config, preferences);
    synthesize_batch(
        config.issue_count,
        &issue_type,
        preferences,
        initiatives,
        epics,
        members,
        labels,
        &statuses,
    )
}

} // verus!
