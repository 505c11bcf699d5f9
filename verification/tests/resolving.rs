use gitea_webhooks::model::{
    Action, PullRequest, PullRequestState, Repository, User, Webhook,
};
use gitea_webhooks::resolve::{user_lookup_path, user_lookup_url};

fn user(name: &str, email: &str) -> User {
    User { email: email.to_string(), username: name.to_string() }
}

fn webhook(action: Action) -> Webhook {
    Webhook {
        action,
        pull_request: PullRequest {
            body: String::new(),
            comments: 0,
            id: 1,
            user: user("carol", "carol@anon.example"),
            title: "Fix bug".to_string(),
            url: "https://git.example/acme/widgets/pulls/1".to_string(),
            state: PullRequestState::Open,
        },
        sender: user("alice", "alice@anon.example"),
        repository: Repository { full_name: "acme/widgets".to_string() },
    }
}

#[test]
fn failed_lookups_keep_the_anonymized_emails() {
    let w = webhook(Action::Opened).try_deanonymise_emails(None, None, None);
    assert_eq!(w.sender.email, "alice@anon.example");
    assert_eq!(w.pull_request.user.email, "carol@anon.example");
}

#[test]
fn successful_lookups_overwrite_the_emails() {
    let w = webhook(Action::Opened).try_deanonymise_emails(
        Some("alice@real.example".to_string()),
        Some("carol@real.example".to_string()),
        None,
    );
    assert_eq!(w.sender.email, "alice@real.example");
    assert_eq!(w.sender.username, "alice");
    assert_eq!(w.pull_request.user.email, "carol@real.example");
}

#[test]
fn lookups_apply_independently() {
    let w = webhook(Action::Opened).try_deanonymise_emails(
        Some("alice@real.example".to_string()),
        None,
        None,
    );
    assert_eq!(w.sender.email, "alice@real.example");
    assert_eq!(w.pull_request.user.email, "carol@anon.example");
}

#[test]
fn requested_reviewer_is_resolved_only_for_review_requests() {
    let w = webhook(Action::ReviewRequested {
        requested_reviewer: user("bob", "bob@anon.example"),
    })
    .try_deanonymise_emails(None, None, Some("bob@real.example".to_string()));
    match w.action {
        Action::ReviewRequested { requested_reviewer } => {
            assert_eq!(requested_reviewer.email, "bob@real.example")
        }
        _ => panic!("the action kind must be preserved"),
    }

    let w = webhook(Action::Opened).try_deanonymise_emails(
        None,
        None,
        Some("bob@real.example".to_string()),
    );
    assert!(matches!(w.action, Action::Opened));
}

#[test]
fn lookup_path_appends_the_username() {
    assert_eq!(user_lookup_path("alice"), "api/v1/users/alice");
}

#[test]
fn lookup_url_keeps_scheme_and_host_and_replaces_the_path() {
    let r = user_lookup_url("https://git.example/acme/widgets/pulls/1", "alice");
    assert_eq!(r.as_deref(), Some("https://git.example/api/v1/users/alice"));
}

#[test]
fn lookup_url_on_an_unparseable_base_yields_nothing() {
    assert!(user_lookup_url("not a url", "alice").is_none());
}
