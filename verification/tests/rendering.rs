use gitea_webhooks::model::{
    Action, Comment, PullRequest, PullRequestState, Repository, Review, User, Webhook,
};
use gitea_webhooks::render::{Block, RenderError, RenderedNotification};

fn user(name: &str, email: &str) -> User {
    User { email: email.to_string(), username: name.to_string() }
}

fn webhook(action: Action) -> Webhook {
    Webhook {
        action,
        pull_request: PullRequest {
            body: "line1\nline2".to_string(),
            comments: 0,
            id: 1,
            user: user("carol", "carol@anon.example"),
            title: "Fix bug".to_string(),
            url: "https://git.example/acme/widgets/pulls/1".to_string(),
            state: PullRequestState::Open,
        },
        sender: user("alice", "alice@anon.example"),
        repository: Repository { full_name: "acme/widgets".to_string() },
    }
}

fn block_texts(n: &RenderedNotification) -> Vec<(bool, String)> {
    n.blocks
        .iter()
        .map(|b| match b {
            Block::Header { text } => (true, text.clone()),
            Block::Section { text } => (false, text.clone()),
        })
        .collect()
}

#[test]
fn opened_event_renders_header_announcement_and_quoted_body() {
    let w = webhook(Action::Opened);
    let r = w.render(Vec::new()).expect("rendering must succeed");
    let n = r.expect("an opened event always renders");
    let blocks = block_texts(&n);
    assert_eq!(blocks.len(), 3);
    assert_eq!(blocks[0], (true, "acme | widgets".to_string()));
    assert_eq!(
        blocks[1],
        (
            false,
            "Pull request <https://git.example/acme/widgets/pulls/1|Fix bug> opened by alice"
                .to_string()
        )
    );
    assert_eq!(blocks[2], (false, ">line1\n>line2".to_string()));
}

#[test]
fn opened_event_with_trailing_newline_body_quotes_each_line() {
    let mut w = webhook(Action::Opened);
    w.pull_request.body = "one\n".to_string();
    let n = w.render(Vec::new()).unwrap().unwrap();
    let blocks = block_texts(&n);
    assert_eq!(blocks[2], (false, ">one\n".to_string()));
}

#[test]
fn malformed_repository_name_is_a_fatal_rendering_error() {
    let mut w = webhook(Action::Opened);
    w.repository.full_name = "acmewidgets".to_string();
    let r = w.render(Vec::new());
    assert!(matches!(r, Err(RenderError::MalformedRepositoryName)));
}

#[test]
fn repository_name_splits_on_the_first_separator() {
    let mut w = webhook(Action::Opened);
    w.repository.full_name = "acme/widgets/extra".to_string();
    let n = w.render(Vec::new()).unwrap().unwrap();
    let blocks = block_texts(&n);
    assert_eq!(blocks[0], (true, "acme | widgets/extra".to_string()));
}

#[test]
fn closed_event_renders_the_generic_section() {
    let w = webhook(Action::Closed);
    let n = w.render(Vec::new()).unwrap().unwrap();
    let blocks = block_texts(&n);
    assert_eq!(blocks.len(), 1);
    assert_eq!(
        blocks[0],
        (false, "<https://git.example/acme/widgets/pulls/1|Fix bug> was closed".to_string())
    );
}

#[test]
fn merged_and_reopened_use_their_own_action_names() {
    let merged = webhook(Action::Merged).render(Vec::new()).unwrap().unwrap();
    assert_eq!(
        block_texts(&merged)[0].1,
        "<https://git.example/acme/widgets/pulls/1|Fix bug> was merged"
    );
    let reopened = webhook(Action::Reopened).render(Vec::new()).unwrap().unwrap();
    assert_eq!(
        block_texts(&reopened)[0].1,
        "<https://git.example/acme/widgets/pulls/1|Fix bug> was reopened"
    );
}

#[test]
fn reviewed_approved_uses_the_approved_verb() {
    let w = webhook(Action::Reviewed { review: Review::Approved { content: "ok".to_string() } });
    let n = w.render(Vec::new()).unwrap().unwrap();
    assert_eq!(block_texts(&n)[0].1, "carol, alice has approved your PR");
}

#[test]
fn reviewed_rejected_uses_the_rejected_verb() {
    let w = webhook(Action::Reviewed { review: Review::Rejected { content: "no".to_string() } });
    let n = w.render(Vec::new()).unwrap().unwrap();
    assert_eq!(block_texts(&n)[0].1, "carol, alice has rejected your PR");
}

#[test]
fn reviewed_comment_uses_the_commented_on_verb() {
    let w = webhook(Action::Reviewed { review: Review::Comment { content: "hm".to_string() } });
    let n = w.render(Vec::new()).unwrap().unwrap();
    assert_eq!(block_texts(&n)[0].1, "carol, alice has commented on your PR");
}

#[test]
fn reviewed_with_a_resolved_handle_uses_the_mention_tag() {
    let w = webhook(Action::Reviewed { review: Review::Approved { content: "ok".to_string() } });
    let n = w.render(vec!["U123".to_string()]).unwrap().unwrap();
    assert_eq!(block_texts(&n)[0].1, "<@U123>, alice has approved your PR");
}

#[test]
fn review_requested_without_chat_account_falls_back_to_the_username() {
    let w = webhook(Action::ReviewRequested {
        requested_reviewer: user("bob", "bob@anon.example"),
    });
    let n = w.render(Vec::new()).unwrap().unwrap();
    assert_eq!(
        block_texts(&n)[0].1,
        "bob, alice has requested you to review <https://git.example/acme/widgets/pulls/1|Fix bug>"
    );
}

#[test]
fn review_requested_with_a_handle_uses_the_mention_tag() {
    let w = webhook(Action::ReviewRequested {
        requested_reviewer: user("bob", "bob@anon.example"),
    });
    let n = w.render(vec!["U77".to_string()]).unwrap().unwrap();
    assert_eq!(
        block_texts(&n)[0].1,
        "<@U77>, alice has requested you to review <https://git.example/acme/widgets/pulls/1|Fix bug>"
    );
}

#[test]
fn comment_with_no_resolved_handle_yields_no_notification() {
    let w = webhook(Action::Created { comment: Comment { body: "@ghost hi".to_string() } });
    let r = w.render(Vec::new()).expect("suppression is not an error");
    assert!(r.is_none());
}

#[test]
fn comment_with_handles_lists_them_space_joined_in_order() {
    let w = webhook(Action::Created { comment: Comment { body: "@a @b".to_string() } });
    let n = w.render(vec!["U1".to_string(), "U2".to_string()]).unwrap().unwrap();
    let blocks = block_texts(&n);
    assert_eq!(blocks.len(), 1);
    assert_eq!(blocks[0].1, "<@U1> <@U2>, you were mentioned in a comment");
}

#[test]
fn rendering_twice_with_identical_inputs_is_identical() {
    let make = || webhook(Action::Reviewed { review: Review::Approved { content: "ok".to_string() } });
    let a = make().render(vec!["U9".to_string()]).unwrap().unwrap();
    let b = make().render(vec!["U9".to_string()]).unwrap().unwrap();
    assert_eq!(block_texts(&a), block_texts(&b));
}

#[test]
fn recipient_emails_follow_the_action_kind() {
    let reviewed =
        webhook(Action::Reviewed { review: Review::Approved { content: "ok".to_string() } });
    assert_eq!(reviewed.recipient_emails(Vec::new()), vec!["carol@anon.example".to_string()]);

    let requested = webhook(Action::ReviewRequested {
        requested_reviewer: user("bob", "bob@real.example"),
    });
    assert_eq!(requested.recipient_emails(Vec::new()), vec!["bob@real.example".to_string()]);

    let created = webhook(Action::Created { comment: Comment { body: "@a".to_string() } });
    assert_eq!(
        created.recipient_emails(vec!["a@real.example".to_string()]),
        vec!["a@real.example".to_string()]
    );

    let opened = webhook(Action::Opened);
    assert_eq!(
        opened.recipient_emails(vec!["ignored@real.example".to_string()]),
        Vec::<String>::new()
    );
}
