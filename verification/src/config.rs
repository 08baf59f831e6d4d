//! The configuration of a run, and the rules it has to meet.

use vstd::prelude::*;
use vstd::string::*;

verus! {

/// The smallest number of issues that one run may create.
pub const MIN_ISSUE_COUNT: u32 = 1;

/// The largest number of issues that one run may create.
pub const MAX_ISSUE_COUNT: u32 = 100;

/// What a run does.
#[derive(Clone, Copy, Debug, PartialEq, Eq, Structural)]
pub enum Commands {
    /// Create issues in the configured project.
    Create,
    /// Crawl all issues of the configured project.
    CrawlIssues,
    /// Crawl all issues of all visible projects.
    CrawlAllIssues,
}

/// Why a configuration is refused.
#[derive(Clone, Copy, Debug, PartialEq, Eq, Structural)]
pub enum ConfigError {
    /// The issue count is zero or above the largest count.
    IssueCountOutOfRange,
    /// The issue type is none of the names of an issue type.
    InvalidIssueType,
}

impl ConfigError {
    /// The words for the error.
    pub open spec fn spec_message(self) -> Seq<char> {
        match self {
            ConfigError::IssueCountOutOfRange => "Issue count must be between 1 to 100"@,
            ConfigError::InvalidIssueType => "Issue type is invalid."@,
        }
    }

    /// The words for the error.
    pub fn message(&self) -> (text: String)
        ensures
            text@ == self.spec_message(),
    {
        match self {
            ConfigError::IssueCountOutOfRange => String::from_str(
                "Issue count must be between 1 to 100",
            ),
            ConfigError::InvalidIssueType => String::from_str("Issue type is invalid."),
        }
    }
}

/// The names of the issue types.
pub open spec fn issue_type_names() -> Seq<Seq<char>> {
    seq![
        "initiative"@,
        "epic"@,
        "user_story"@,
        "task"@,
        "issue"@,
        "feature"@,
        "bug"@,
        "test_case"@,
    ]
}

/// Whether `count` issues may be created in one run.
pub open spec fn is_issue_count(count: u32) -> bool {
    MIN_ISSUE_COUNT <= count <= MAX_ISSUE_COUNT
}

/// Whether `name` is the name of an issue type.
pub fn is_issue_type(name: &String) -> (known: bool)
    ensures
        known == issue_type_names().contains(name@),
{
    let ghost names = issue_type_names();
    let initiative = String::from_str("initiative");
    let epic = String::from_str("epic");
    let user_story = String::from_str("user_story");
    let task = String::from_str("task");
    let issue = String::from_str("issue");
    let feature = String::from_str("feature");
    let bug = String::from_str("bug");
    let test_case = String::from_str("test_case");
    let known = *name == initiative || *name == epic || *name == user_story || *name == task
        || *name == issue || *name == feature || *name == bug || *name == test_case;
    proof {
        assert(names[0] == "initiative"@);
        assert(names[1] == "epic"@);
        assert(names[2] == "user_story"@);
        assert(names[3] == "task"@);
        assert(names[4] == "issue"@);
        assert(names[5] == "feature"@);
        assert(names[6] == "bug"@);
        assert(names[7] == "test_case"@);
        assert(names.len() == 8);
    }
    known
}

/// The configuration of a run.
#[derive(Clone, Debug)]
pub struct Config {
    /// The bearer token of the user.
    pub token: String,
    /// The address of the service, without a slash at its end.
    pub base_url: String,
    /// The project in which issues are created or crawled.
    pub project_id: String,
    /// How many issues one run creates.
    pub issue_count: u32,
    /// The type of the issues to create, where the project's own is not wanted.
    pub issue_type: Option<String>,
}

impl Config {
    /// Whether the configuration meets the rules: the issue count is in
    /// range, and the issue type, if there is one, is known.
    pub open spec fn is_valid(self) -> bool {
        &&& is_issue_count(self.issue_count)
        &&& self.issue_type matches Some(name) ==> issue_type_names().contains(name@)
    }

    /// Makes a configuration of the given values if they meet the rules. The
    /// issue count is judged first.
    pub fn build(
        token: String,
        base_url: String,
        project_id: String,
        issue_count: u32,
        issue_type: Option<String>,
    ) -> (built: Result<Config, ConfigError>)
        ensures
            built is Ok <==> is_issue_count(issue_count) && (issue_type matches Some(name)
                ==> issue_type_names().contains(name@)),
            !is_issue_count(issue_count) <==> built == Err::<Config, ConfigError>(
                ConfigError::IssueCountOutOfRange,
            ),
            is_issue_count(issue_count) && issue_type is Some && !issue_type_names().contains(
                issue_type->0@,
            ) <==> built == Err::<Config, ConfigError>(ConfigError::InvalidIssueType),
            built matches Ok(config) ==> config.is_valid() && config == (Config {
                token,
                base_url,
                project_id,
                issue_count,
                issue_type,
            }),
    {
        if issue_count == 0 || issue_count > MAX_ISSUE_COUNT {
            return Err(ConfigError::IssueCountOutOfRange);
        }
        if let Some(name) = &issue_type {
            if !is_issue_type(name) {
                return Err(ConfigError::InvalidIssueType);
            }
        }
        Ok(Config { token, base_url, project_id, issue_count, issue_type })
    }
}

} // verus!
