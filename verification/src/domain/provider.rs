use vstd::prelude::*;
use crate::error::AppError;

verus! {

/// A pull request as reported by a hosting provider.
#[derive(Clone, Debug, PartialEq)]
pub struct PullRequest {
    pub id: String,
    pub number: u64,
    pub title: String,
    pub body: Option<String>,
    pub state: String,
    pub author: String,
    pub created_at: String,
    pub updated_at: String,
    pub url: String,
    pub head_ref: String,
    pub base_ref: String,
}

/// The fields needed to open a new pull request.
#[derive(Clone, Debug)]
pub struct CreatePullRequest {
    pub title: String,
    pub body: Option<String>,
    pub head: String,
    pub base: String,
}

/// An issue as reported by a hosting provider.
#[derive(Clone, Debug, PartialEq)]
pub struct Issue {
    pub id: String,
    pub number: u64,
    pub title: String,
    pub body: Option<String>,
    pub state: String,
    pub author: String,
    pub created_at: String,
    pub updated_at: String,
    pub url: String,
}

/// The fields needed to open a new issue.
#[derive(Clone, Debug)]
pub struct CreateIssue {
    pub title: String,
    pub body: Option<String>,
}

/// A hosting-provider integration: lists and creates pull requests and
/// issues for one remote repository. Implementations live outside this
/// library (they perform network I/O), so no behaviour is promised of them
/// here.
pub trait GitProvider {
    fn get_pr_list(&self, owner: &str, repo: &str) -> Result<Vec<PullRequest>, AppError>;

    fn get_issue_list(&self, owner: &str, repo: &str) -> Result<Vec<Issue>, AppError>;

    fn create_pr(&self, owner: &str, repo: &str, pr: CreatePullRequest) -> Result<
        PullRequest,
        AppError,
    >;

    fn create_issue(&self, owner: &str, repo: &str, issue: CreateIssue) -> Result<
        Issue,
        AppError,
    >;
}

} // verus!
