use gitea_webhooks::model::{
    parse_action, parse_review, parse_state, Action, Comment, ParseError, PullRequest,
    PullRequestState, Repository, Review, User, Webhook,
};

fn user(name: &str, email: &str) -> User {
    User { email: email.to_string(), username: name.to_string() }
}

fn pull_request() -> PullRequest {
    PullRequest {
        body: "body".to_string(),
        comments: 0,
        id: 1,
        user: user("alice", "alice@anon.example"),
        title: "Fix bug".to_string(),
        url: "https://git.example/acme/widgets/pulls/1".to_string(),
        state: PullRequestState::Open,
    }
}

#[test]
fn parse_opened_tag() {
    let r = parse_action("opened", None, None, None);
    assert!(matches!(r, Ok(Action::Opened)));
}

#[test]
fn parse_closed_tag() {
    let r = parse_action("closed", None, None, None);
    assert!(matches!(r, Ok(Action::Closed)));
}

#[test]
fn parse_reopened_tag() {
    let r = parse_action("reopened", None, None, None);
    assert!(matches!(r, Ok(Action::Reopened)));
}

#[test]
fn parse_merged_tag() {
    let r = parse_action("merged", None, None, None);
    assert!(matches!(r, Ok(Action::Merged)));
}

#[test]
fn parse_created_tag() {
    let comment = Comment { body: "@bob hi".to_string() };
    let r = parse_action("created", Some(comment), None, None);
    match r {
        Ok(Action::Created { comment }) => assert_eq!(comment.body, "@bob hi"),
        other => panic!("unexpected parse outcome: {:?}", other.is_ok()),
    }
}

#[test]
fn parse_reviewed_tag() {
    let review = Some(("pull_request_review_approved".to_string(), "looks fine".to_string()));
    let r = parse_action("reviewed", None, review, None);
    match r {
        Ok(Action::Reviewed { review: Review::Approved { content } }) => {
            assert_eq!(content, "looks fine")
        }
        other => panic!("unexpected parse outcome: {:?}", other.is_ok()),
    }
}

#[test]
fn parse_review_requested_tag() {
    let r = parse_action("review_requested", None, None, Some(user("bob", "bob@anon.example")));
    match r {
        Ok(Action::ReviewRequested { requested_reviewer }) => {
            assert_eq!(requested_reviewer.username, "bob")
        }
        other => panic!("unexpected parse outcome: {:?}", other.is_ok()),
    }
}

#[test]
fn parse_unrecognized_tag_is_rejected() {
    let r = parse_action("deleted", None, None, None);
    assert_eq!(r.err(), Some(ParseError::UnrecognizedActionTag));
}

#[test]
fn parse_created_without_comment_is_rejected() {
    let r = parse_action("created", None, None, None);
    assert_eq!(r.err(), Some(ParseError::MissingComment));
}

#[test]
fn parse_reviewed_without_review_is_rejected() {
    let r = parse_action("reviewed", None, None, None);
    assert_eq!(r.err(), Some(ParseError::MissingReview));
}

#[test]
fn parse_reviewed_with_unknown_type_is_rejected() {
    let review = Some(("pull_request_review_dismissed".to_string(), "x".to_string()));
    let r = parse_action("reviewed", None, review, None);
    assert_eq!(r.err(), Some(ParseError::UnrecognizedReviewType));
}

#[test]
fn parse_review_requested_without_reviewer_is_rejected() {
    let r = parse_action("review_requested", None, None, None);
    assert_eq!(r.err(), Some(ParseError::MissingReviewer));
}

#[test]
fn parse_review_type_tags() {
    assert!(matches!(
        parse_review("pull_request_review_approved", "a".to_string()),
        Ok(Review::Approved { .. })
    ));
    assert!(matches!(
        parse_review("pull_request_review_rejected", "b".to_string()),
        Ok(Review::Rejected { .. })
    ));
    assert!(matches!(
        parse_review("pull_request_review_comment", "c".to_string()),
        Ok(Review::Comment { .. })
    ));
}

#[test]
fn parse_state_tags() {
    assert_eq!(parse_state("open").ok(), Some(PullRequestState::Open));
    assert_eq!(parse_state("closed").ok(), Some(PullRequestState::Closed));
    assert_eq!(parse_state("merged").err(), Some(ParseError::UnrecognizedState));
}

#[test]
fn from_parts_assembles_the_event() {
    let r = Webhook::from_parts(
        "opened",
        None,
        None,
        None,
        pull_request(),
        user("alice", "alice@anon.example"),
        Repository { full_name: "acme/widgets".to_string() },
    );
    match r {
        Ok(w) => {
            assert!(matches!(w.action, Action::Opened));
            assert_eq!(w.sender.username, "alice");
            assert_eq!(w.repository.full_name, "acme/widgets");
            assert_eq!(w.pull_request.title, "Fix bug");
        }
        Err(_) => panic!("expected the event to parse"),
    }
}

#[test]
fn from_parts_surfaces_the_parse_error() {
    let r = Webhook::from_parts(
        "created",
        None,
        None,
        None,
        pull_request(),
        user("alice", "alice@anon.example"),
        Repository { full_name: "acme/widgets".to_string() },
    );
    assert_eq!(r.err(), Some(ParseError::MissingComment));
}
