use gitea_webhooks::mentions::mention_usernames;

#[test]
fn quoted_lines_are_ignored() {
    let r = mention_usernames("> @alice\n@bob");
    assert_eq!(r, vec!["bob".to_string()]);
}

#[test]
fn quote_marker_after_leading_whitespace_still_quotes() {
    let r = mention_usernames("   > @alice\n@bob");
    assert_eq!(r, vec!["bob".to_string()]);
}

#[test]
fn duplicates_are_kept_in_first_occurrence_order() {
    let r = mention_usernames("@alice @bob @alice");
    assert_eq!(r, vec!["alice".to_string(), "bob".to_string(), "alice".to_string()]);
}

#[test]
fn plain_tokens_contribute_nothing() {
    let r = mention_usernames("hello world, nothing here");
    assert_eq!(r, Vec::<String>::new());
}

#[test]
fn empty_body_has_no_mentions() {
    let r = mention_usernames("");
    assert_eq!(r, Vec::<String>::new());
}

#[test]
fn repeated_markers_are_all_stripped() {
    let r = mention_usernames("@@carol");
    assert_eq!(r, vec!["carol".to_string()]);
}

#[test]
fn mentions_span_multiple_lines() {
    let r = mention_usernames("cc @alice\nplease look @bob\n> @carol quoted");
    assert_eq!(r, vec!["alice".to_string(), "bob".to_string()]);
}

#[test]
fn carriage_returns_do_not_join_tokens() {
    let r = mention_usernames("> @alice\r\n@bob x");
    assert_eq!(r, vec!["bob".to_string()]);
}

#[test]
fn marker_inside_a_token_is_not_a_mention() {
    let r = mention_usernames("mail me at alice@example.com");
    assert_eq!(r, Vec::<String>::new());
}

#[test]
fn tabs_separate_tokens() {
    let r = mention_usernames("\t@dave\tsee above");
    assert_eq!(r, vec!["dave".to_string()]);
}
