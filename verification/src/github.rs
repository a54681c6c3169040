//! The decoded GitHub push-event payload.
//!
//! The webhook JSON schema is fixed externally; these types hold its fields
//! as plain values. Decoding the JSON into them happens outside the library;
//! the router only reads `repository.full_name` and `reference`.

use vstd::prelude::*;

verus! {

/// A commit hash as GitHub sends it.
pub struct GitHubSHA(pub String);

/// A git ref name, such as `refs/heads/main`.
pub struct GitHubRef(pub String);

/// A URL string from the payload.
pub struct GitHubURL(pub String);

/// The author/committer/pusher identity attached to a commit.
pub struct GitUser {
    pub email: Option<String>,
    pub name: Option<String>,
    pub username: Option<String>,
}

/// One commit entry of the push payload.
pub struct GitHubCommit {
    pub added: Vec<String>,
    pub modified: Vec<String>,
    pub removed: Vec<String>,
    pub id: GitHubSHA,
    pub author: GitUser,
    pub committer: GitUser,
    pub message: String,
    pub distinct: bool,
    pub timestamp: String,
    pub tree_id: GitHubSHA,
    pub url: String,
}

/// The repository block of the push payload. The router reads `full_name`.
pub struct GitHubRepository {
    pub archive_url: GitHubURL,
    pub archived: bool,
    pub assignees_url: GitHubURL,
    pub blobs_url: GitHubURL,
    pub branches_url: GitHubURL,
    pub clone_url: GitHubURL,
    pub collaborators_url: GitHubURL,
    pub comments_url: GitHubURL,
    pub commits_url: GitHubURL,
    pub compare_url: GitHubURL,
    pub contents_url: GitHubURL,
    pub contributors_url: GitHubURL,
    pub created_at: u64,
    pub default_branch: String,
    pub deployments_url: GitHubURL,
    pub description: String,
    pub disabled: bool,
    pub downloads_url: GitHubURL,
    pub events_url: GitHubURL,
    pub fork: bool,
    pub forks: usize,
    pub forks_count: usize,
    pub forks_url: GitHubURL,
    pub full_name: String,
    pub git_commits_url: GitHubURL,
    pub git_refs_url: GitHubURL,
    pub git_tags_url: GitHubURL,
    pub git_url: GitHubURL,
    pub has_downloads: bool,
    pub has_issues: bool,
    pub has_pages: bool,
    pub has_projects: bool,
    pub has_wiki: bool,
    pub homepage: Option<GitHubURL>,
    pub hooks_url: GitHubURL,
    pub html_url: GitHubURL,
    pub id: u64,
    pub issue_comment_url: GitHubURL,
    pub issue_events_url: GitHubURL,
    pub issues_url: GitHubURL,
    pub keys_url: GitHubURL,
    pub labels_url: GitHubURL,
    pub language: String,
    pub languages_url: GitHubURL,
    pub license: Option<String>,
    pub master_branch: String,
    pub merges_url: GitHubURL,
    pub milestones_url: GitHubURL,
    pub mirror_url: Option<GitHubURL>,
    pub name: String,
    pub node_id: String,
    pub notifications_url: GitHubURL,
    pub open_issues: usize,
    pub open_issues_count: usize,
    pub owner: GitHubUser,
    pub private: bool,
    pub pulls_url: GitHubURL,
    pub pushed_at: u64,
    pub releases_url: GitHubURL,
    pub size: usize,
    pub ssh_url: GitHubURL,
    pub stargazers: usize,
    pub stargazers_count: usize,
    pub stargazers_url: GitHubURL,
    pub statuses_url: GitHubURL,
    pub subscribers_url: GitHubURL,
    pub subscription_url: GitHubURL,
    pub svn_url: GitHubURL,
    pub tags_url: GitHubURL,
    pub teams_url: GitHubURL,
    pub trees_url: GitHubURL,
    pub updated_at: String,
    pub url: GitHubURL,
    pub watchers: usize,
    pub watchers_count: usize,
}

/// A GitHub account as it appears in the payload's `owner` and `sender`.
pub struct GitHubUser {
    pub avatar_url: GitHubURL,
    pub email: Option<String>,
    pub events_url: GitHubURL,
    pub followers_url: GitHubURL,
    pub following_url: GitHubURL,
    pub gists_url: GitHubURL,
    pub gravatar_id: String,
    pub html_url: GitHubURL,
    pub id: u64,
    pub login: String,
    pub name: Option<String>,
    pub node_id: String,
    pub organizations_url: GitHubURL,
    pub received_events_url: GitHubURL,
    pub repos_url: GitHubURL,
    pub site_admin: bool,
    pub starred_url: GitHubURL,
    pub subscriptions_url: GitHubURL,
    pub user_type: String,
    pub url: GitHubURL,
}

/// A whole decoded push event. The router consumes `repository.full_name`
/// and `reference`; the rest rides along for the worker.
pub struct GithubPushEvent {
    pub after: Option<GitHubSHA>,
    pub before: Option<GitHubSHA>,
    pub base_ref: Option<GitHubRef>,
    pub commits: Option<Vec<GitHubCommit>>,
    pub compare: Option<GitHubURL>,
    pub created: bool,
    pub deleted: bool,
    pub forced: bool,
    pub head_commit: GitHubCommit,
    pub pusher: GitUser,
    pub reference: GitHubRef,
    pub repository: GitHubRepository,
    pub sender: GitHubUser,
}

} // verus!
