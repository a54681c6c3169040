use hookdeploy::auth::AuthError;
use hookdeploy::git::CommandOutput;
use hookdeploy::github::{
    GitHubCommit, GitHubRef, GitHubRepository, GitHubSHA, GitHubURL, GitHubUser, GitUser,
    GithubPushEvent,
};
use hookdeploy::hook::HookConfig;
use hookdeploy::pipeline::HookPipeline;
use hookdeploy::queue::{Event, EventQueue};
use hookdeploy::route::{Route, RouteError};

fn url() -> GitHubURL {
    GitHubURL(String::new())
}

fn git_user() -> GitUser {
    GitUser { email: None, name: None, username: None }
}

fn commit() -> GitHubCommit {
    GitHubCommit {
        added: vec![],
        modified: vec![],
        removed: vec![],
        id: GitHubSHA(String::new()),
        author: git_user(),
        committer: git_user(),
        message: String::new(),
        distinct: true,
        timestamp: String::new(),
        tree_id: GitHubSHA(String::new()),
        url: String::new(),
    }
}

fn account() -> GitHubUser {
    GitHubUser {
        avatar_url: url(),
        email: None,
        events_url: url(),
        followers_url: url(),
        following_url: url(),
        gists_url: url(),
        gravatar_id: String::new(),
        html_url: url(),
        id: 1,
        login: String::from("octocat"),
        name: None,
        node_id: String::new(),
        organizations_url: url(),
        received_events_url: url(),
        repos_url: url(),
        site_admin: false,
        starred_url: url(),
        subscriptions_url: url(),
        user_type: String::from("User"),
        url: url(),
    }
}

fn repository(full_name: &str) -> GitHubRepository {
    GitHubRepository {
        archive_url: url(),
        archived: false,
        assignees_url: url(),
        blobs_url: url(),
        branches_url: url(),
        clone_url: url(),
        collaborators_url: url(),
        comments_url: url(),
        commits_url: url(),
        compare_url: url(),
        contents_url: url(),
        contributors_url: url(),
        created_at: 0,
        default_branch: String::from("main"),
        deployments_url: url(),
        description: String::new(),
        disabled: false,
        downloads_url: url(),
        events_url: url(),
        fork: false,
        forks: 0,
        forks_count: 0,
        forks_url: url(),
        full_name: String::from(full_name),
        git_commits_url: url(),
        git_refs_url: url(),
        git_tags_url: url(),
        git_url: url(),
        has_downloads: false,
        has_issues: false,
        has_pages: false,
        has_projects: false,
        has_wiki: false,
        homepage: None,
        hooks_url: url(),
        html_url: url(),
        id: 1,
        issue_comment_url: url(),
        issue_events_url: url(),
        issues_url: url(),
        keys_url: url(),
        labels_url: url(),
        language: String::new(),
        languages_url: url(),
        license: None,
        master_branch: String::from("main"),
        merges_url: url(),
        milestones_url: url(),
        mirror_url: None,
        name: String::new(),
        node_id: String::new(),
        notifications_url: url(),
        open_issues: 0,
        open_issues_count: 0,
        owner: account(),
        private: false,
        pulls_url: url(),
        pushed_at: 0,
        releases_url: url(),
        size: 0,
        ssh_url: url(),
        stargazers: 0,
        stargazers_count: 0,
        stargazers_url: url(),
        statuses_url: url(),
        subscribers_url: url(),
        subscription_url: url(),
        svn_url: url(),
        tags_url: url(),
        teams_url: url(),
        trees_url: url(),
        updated_at: String::new(),
        url: url(),
        watchers: 0,
        watchers_count: 0,
    }
}

fn push_event(full_name: &str, reference: &str) -> GithubPushEvent {
    GithubPushEvent {
        after: None,
        before: None,
        base_ref: None,
        commits: None,
        compare: None,
        created: false,
        deleted: false,
        forced: false,
        head_commit: commit(),
        pusher: git_user(),
        reference: GitHubRef(String::from(reference)),
        repository: repository(full_name),
        sender: account(),
    }
}

fn hook(name: &str, repo_name: &str, branch: &str, secret: Option<&str>) -> HookConfig {
    HookConfig {
        name: String::from(name),
        repo_name: String::from(repo_name),
        hook_route: String::from("/hook"),
        repository_directory: String::from("/srv/checkout"),
        script: String::from("./deploy.sh"),
        branch: String::from(branch),
        secret: secret.map(String::from),
    }
}

#[test]
fn route_keeps_its_path() {
    let route = Route::new(String::from("/hook"));
    assert_eq!(route.route(), "/hook");
}

#[test]
fn router_matches_repository_and_branch_exactly() {
    let mut route = Route::new(String::from("/hook"));
    route.add_hook(hook("a", "org/repo", "main", None));
    let found = route.hook_for_event(&push_event("org/repo", "refs/heads/main"));
    assert_eq!(found.unwrap().name, "a");
}

#[test]
fn router_rejects_wrong_branch() {
    let mut route = Route::new(String::from("/hook"));
    route.add_hook(hook("a", "org/repo", "main", None));
    assert!(route.hook_for_event(&push_event("org/repo", "refs/heads/dev")).is_none());
}

#[test]
fn router_rejects_wrong_repository() {
    let mut route = Route::new(String::from("/hook"));
    route.add_hook(hook("a", "org/repo", "main", None));
    assert!(route.hook_for_event(&push_event("org/other", "refs/heads/main")).is_none());
}

#[test]
fn router_rejects_branch_name_without_heads_prefix() {
    let mut route = Route::new(String::from("/hook"));
    route.add_hook(hook("a", "org/repo", "main", None));
    assert!(route.hook_for_event(&push_event("org/repo", "main")).is_none());
    assert!(route.hook_for_event(&push_event("org/repo", "refs/tags/main")).is_none());
}

#[test]
fn shared_route_path_disambiguates_by_repository_and_branch() {
    let mut route = Route::new(String::from("/hook"));
    route.add_hook(hook("first", "org/repo", "main", None));
    route.add_hook(hook("second", "org/repo", "dev", None));
    route.add_hook(hook("third", "org/other", "main", None));
    let found = route.hook_for_event(&push_event("org/repo", "refs/heads/dev"));
    assert_eq!(found.unwrap().name, "second");
    let found = route.hook_for_event(&push_event("org/other", "refs/heads/main"));
    assert_eq!(found.unwrap().name, "third");
}

#[test]
fn first_matching_hook_wins() {
    let mut route = Route::new(String::from("/hook"));
    route.add_hook(hook("first", "org/repo", "main", None));
    route.add_hook(hook("shadowed", "org/repo", "main", None));
    let found = route.hook_for_event(&push_event("org/repo", "refs/heads/main"));
    assert_eq!(found.unwrap().name, "first");
}

#[test]
fn scenario_push_without_secret_is_enqueued() {
    let mut route = Route::new(String::from("/hook"));
    route.add_hook(hook("a", "org/repo", "main", None));
    let mut queue = EventQueue::new();
    let body: Vec<u8> = b"{}".to_vec();
    let r = route.process_request(push_event("org/repo", "refs/heads/main"), &body, None, &mut queue);
    assert!(r.is_ok());
    assert_eq!(queue.len(), 1);
    match queue.receive() {
        Some(Event::PushEvent(job)) => {
            assert_eq!(job.hook.name, "a");
            assert_eq!(job.content.repository.full_name, "org/repo");
        }
        _ => panic!("expected the queued job"),
    }
}

#[test]
fn scenario_missing_signature_is_rejected_and_nothing_enqueued() {
    let mut route = Route::new(String::from("/hook"));
    route.add_hook(hook("a", "org/repo", "main", Some("s3cr3t")));
    let mut queue = EventQueue::new();
    let body: Vec<u8> = b"{}".to_vec();
    let r = route.process_request(push_event("org/repo", "refs/heads/main"), &body, None, &mut queue);
    assert!(matches!(
        r,
        Err(RouteError::AuthenticationError(AuthError::Malformed))
    ));
    assert_eq!(queue.len(), 0);
}

#[test]
fn scenario_signed_push_is_enqueued() {
    let mut route = Route::new(String::from("/hook"));
    route.add_hook(hook("a", "org/repo", "main", Some("s3cr3t")));
    let mut queue = EventQueue::new();
    let body: Vec<u8> = b"{\"ok\":true}".to_vec();
    let key = ring::hmac::Key::new(ring::hmac::HMAC_SHA256, b"s3cr3t");
    let tag = ring::hmac::sign(&key, &body);
    let header = format!("sha256={}", hex::encode(tag.as_ref()));
    let r = route.process_request(
        push_event("org/repo", "refs/heads/main"),
        &body,
        Some(&header),
        &mut queue,
    );
    assert!(r.is_ok());
    assert_eq!(queue.len(), 1);
}

#[test]
fn scenario_accepted_push_runs_the_whole_pipeline() {
    let mut route = Route::new(String::from("/hook"));
    route.add_hook(hook("a", "org/repo", "main", None));
    let mut queue = EventQueue::new();
    let body: Vec<u8> = b"{}".to_vec();
    let r = route.process_request(push_event("org/repo", "refs/heads/main"), &body, None, &mut queue);
    assert!(r.is_ok());

    let job = match queue.receive() {
        Some(Event::PushEvent(job)) => job,
        _ => panic!("expected the queued job"),
    };
    let mut pipeline = HookPipeline::new(&job.hook);
    let mut stages = Vec::new();
    while let Some(cmd) = pipeline.next_command() {
        stages.push(cmd.stage.clone());
        pipeline.advance(Ok(CommandOutput {
            code: Some(0),
            stdout: String::new(),
            stderr: String::new(),
        }));
    }
    assert!(pipeline.is_finished());
    assert!(!pipeline.failed());
    assert_eq!(
        stages,
        vec![
            "fetching latest changes",
            "checking out main branch",
            "rebasing onto latest changes",
            "running hook"
        ]
    );
}

#[test]
fn scenario_unconfigured_branch_is_a_routing_failure() {
    let mut route = Route::new(String::from("/hook"));
    route.add_hook(hook("a", "org/repo", "main", None));
    let mut queue = EventQueue::new();
    let body: Vec<u8> = b"{}".to_vec();
    let r = route.process_request(
        push_event("org/repo", "refs/heads/feature-x"),
        &body,
        None,
        &mut queue,
    );
    assert!(matches!(r, Err(RouteError::RoutingError)));
    assert_eq!(queue.len(), 0);
}
