use crate::text::str_eq;
use vstd::prelude::*;

verus! {

/// A forge user as it appears in event payloads: a stable username and an
/// email address, which starts out anonymized and may later be overwritten
/// by directory resolution.
pub struct User {
    pub email: String,
    pub username: String,
}

pub struct UserView {
    pub email: Seq<char>,
    pub username: Seq<char>,
}

impl View for User {
    type V = UserView;

    open spec fn view(&self) -> UserView {
        UserView { email: self.email@, username: self.username@ }
    }
}

/// Lifecycle state of a pull request, as carried by the event payload.
#[derive(Clone, Copy, PartialEq, Eq, Structural, Debug)]
pub enum PullRequestState {
    Open,
    Closed,
}

/// The repository an event concerns, identified by its fully qualified
/// `owner/name` form.
pub struct Repository {
    pub full_name: String,
}

pub struct RepositoryView {
    pub full_name: Seq<char>,
}

impl View for Repository {
    type V = RepositoryView;

    open spec fn view(&self) -> RepositoryView {
        RepositoryView { full_name: self.full_name@ }
    }
}

/// A comment posted on a pull request; only its body is of interest, for
/// mention scanning.
pub struct Comment {
    pub body: String,
}

pub struct CommentView {
    pub body: Seq<char>,
}

impl View for Comment {
    type V = CommentView;

    open spec fn view(&self) -> CommentView {
        CommentView { body: self.body@ }
    }
}

/// Snapshot of the pull request an event concerns.
pub struct PullRequest {
    pub body: String,
    pub comments: u64,
    pub id: u64,
    pub user: User,
    pub title: String,
    pub url: String,
    pub state: PullRequestState,
}

pub struct PullRequestView {
    pub body: Seq<char>,
    pub comments: u64,
    pub id: u64,
    pub user: UserView,
    pub title: Seq<char>,
    pub url: Seq<char>,
    pub state: PullRequestState,
}

impl View for PullRequest {
    type V = PullRequestView;

    open spec fn view(&self) -> PullRequestView {
        PullRequestView {
            body: self.body@,
            comments: self.comments,
            id: self.id,
            user: self.user@,
            title: self.title@,
            url: self.url@,
            state: self.state,
        }
    }
}

/// The outcome of a submitted review, distinguished by the verb used when
/// rendering it.
pub enum Review {
    Approved { content: String },
    Rejected { content: String },
    Comment { content: String },
}

pub enum ReviewView {
    Approved { content: Seq<char> },
    Rejected { content: Seq<char> },
    Comment { content: Seq<char> },
}

impl View for Review {
    type V = ReviewView;

    open spec fn view(&self) -> ReviewView {
        match self {
            Review::Approved { content } => ReviewView::Approved { content: content@ },
            Review::Rejected { content } => ReviewView::Rejected { content: content@ },
            Review::Comment { content } => ReviewView::Comment { content: content@ },
        }
    }
}

/// What happened to the pull request, with the payload specific to each kind.
pub enum Action {
    Opened,
    Closed,
    Reopened,
    Merged,
    Created { comment: Comment },
    Reviewed { review: Review },
    ReviewRequested { requested_reviewer: User },
}

pub enum ActionView {
    Opened,
    Closed,
    Reopened,
    Merged,
    Created { comment: CommentView },
    Reviewed { review: ReviewView },
    ReviewRequested { requested_reviewer: UserView },
}

impl View for Action {
    type V = ActionView;

    open spec fn view(&self) -> ActionView {
        match self {
            Action::Opened => ActionView::Opened,
            Action::Closed => ActionView::Closed,
            Action::Reopened => ActionView::Reopened,
            Action::Merged => ActionView::Merged,
            Action::Created { comment } => ActionView::Created { comment: comment@ },
            Action::Reviewed { review } => ActionView::Reviewed { review: review@ },
            Action::ReviewRequested { requested_reviewer } => ActionView::ReviewRequested {
                requested_reviewer: requested_reviewer@,
            },
        }
    }
}

/// The top-level event: the action that happened, the pull request it
/// concerns, the user who triggered it, and the repository.
pub struct Webhook {
    pub action: Action,
    pub pull_request: PullRequest,
    pub sender: User,
    pub repository: Repository,
}

pub struct WebhookView {
    pub action: ActionView,
    pub pull_request: PullRequestView,
    pub sender: UserView,
    pub repository: RepositoryView,
}

impl View for Webhook {
    type V = WebhookView;

    open spec fn view(&self) -> WebhookView {
        WebhookView {
            action: self.action@,
            pull_request: self.pull_request@,
            sender: self.sender@,
            repository: self.repository@,
        }
    }
}

/// Payload shape for notifying an external consumer of a resolved event;
/// kept as plain text fields.
pub struct OutgoingWebhook {
    pub email: String,
    pub title: String,
    pub body: String,
}

/// Why an inbound payload could not be turned into an event. All of these
/// are fatal: the event is rejected, nothing is partially processed.
#[derive(Clone, Copy, PartialEq, Eq, Structural, Debug)]
pub enum ParseError {
    UnrecognizedActionTag,
    UnrecognizedReviewType,
    UnrecognizedState,
    MissingComment,
    MissingReview,
    MissingReviewer,
}

/// The wire tag naming each action kind.
pub open spec fn action_tag_of(a: ActionView) -> Seq<char> {
    match a {
        ActionView::Opened => "opened"@,
        ActionView::Closed => "closed"@,
        ActionView::Reopened => "reopened"@,
        ActionView::Merged => "merged"@,
        ActionView::Created { .. } => "created"@,
        ActionView::Reviewed { .. } => "reviewed"@,
        ActionView::ReviewRequested { .. } => "review_requested"@,
    }
}

pub open spec fn recognized_action_tag(tag: Seq<char>) -> bool {
    ||| tag == "opened"@
    ||| tag == "closed"@
    ||| tag == "reopened"@
    ||| tag == "merged"@
    ||| tag == "created"@
    ||| tag == "reviewed"@
    ||| tag == "review_requested"@
}

pub open spec fn recognized_review_tag(tag: Seq<char>) -> bool {
    ||| tag == "pull_request_review_approved"@
    ||| tag == "pull_request_review_rejected"@
    ||| tag == "pull_request_review_comment"@
}

pub open spec fn parse_review_spec(tag: Seq<char>, content: Seq<char>) -> Result<
    ReviewView,
    ParseError,
> {
    if tag == "pull_request_review_approved"@ {
        Ok(ReviewView::Approved { content })
    } else if tag == "pull_request_review_rejected"@ {
        Ok(ReviewView::Rejected { content })
    } else if tag == "pull_request_review_comment"@ {
        Ok(ReviewView::Comment { content })
    } else {
        Err(ParseError::UnrecognizedReviewType)
    }
}

pub open spec fn parse_state_spec(tag: Seq<char>) -> Result<PullRequestState, ParseError> {
    if tag == "open"@ {
        Ok(PullRequestState::Open)
    } else if tag == "closed"@ {
        Ok(PullRequestState::Closed)
    } else {
        Err(ParseError::UnrecognizedState)
    }
}

pub open spec fn parse_action_spec(
    tag: Seq<char>,
    comment: Option<CommentView>,
    review: Option<(Seq<char>, Seq<char>)>,
    reviewer: Option<UserView>,
) -> Result<ActionView, ParseError> {
    if tag == "opened"@ {
        Ok(ActionView::Opened)
    } else if tag == "closed"@ {
        Ok(ActionView::Closed)
    } else if tag == "reopened"@ {
        Ok(ActionView::Reopened)
    } else if tag == "merged"@ {
        Ok(ActionView::Merged)
    } else if tag == "created"@ {
        match comment {
            Some(c) => Ok(ActionView::Created { comment: c }),
            None => Err(ParseError::MissingComment),
        }
    } else if tag == "reviewed"@ {
        match review {
            Some(r) => match parse_review_spec(r.0, r.1) {
                Ok(rv) => Ok(ActionView::Reviewed { review: rv }),
                Err(e) => Err(e),
            },
            None => Err(ParseError::MissingReview),
        }
    } else if tag == "review_requested"@ {
        match reviewer {
            Some(u) => Ok(ActionView::ReviewRequested { requested_reviewer: u }),
            None => Err(ParseError::MissingReviewer),
        }
    } else {
        Err(ParseError::UnrecognizedActionTag)
    }
}

pub open spec fn review_result_view(r: Result<Review, ParseError>) -> Result<
    ReviewView,
    ParseError,
> {
    match r {
        Ok(x) => Ok(x@),
        Err(e) => Err(e),
    }
}

pub open spec fn state_result_view(r: Result<PullRequestState, ParseError>) -> Result<
    PullRequestState,
    ParseError,
> {
    match r {
        Ok(x) => Ok(x),
        Err(e) => Err(e),
    }
}

pub open spec fn action_result_view(r: Result<Action, ParseError>) -> Result<
    ActionView,
    ParseError,
> {
    match r {
        Ok(x) => Ok(x@),
        Err(e) => Err(e),
    }
}

pub open spec fn webhook_result_view(r: Result<Webhook, ParseError>) -> Result<
    WebhookView,
    ParseError,
> {
    match r {
        Ok(x) => Ok(x@),
        Err(e) => Err(e),
    }
}

/// Parse the inner type tag of a submitted review.
pub fn parse_review(tag: &str, content: String) -> (r: Result<Review, ParseError>)
    ensures
        review_result_view(r) == parse_review_spec(tag@, content@),
{
    if str_eq(tag, "pull_request_review_approved") {
        Ok(Review::Approved { content })
    } else if str_eq(tag, "pull_request_review_rejected") {
        Ok(Review::Rejected { content })
    } else if str_eq(tag, "pull_request_review_comment") {
        Ok(Review::Comment { content })
    } else {
        Err(ParseError::UnrecognizedReviewType)
    }
}

/// Parse the lifecycle state tag of a pull request.
pub fn parse_state(tag: &str) -> (r: Result<PullRequestState, ParseError>)
    ensures
        state_result_view(r) == parse_state_spec(tag@),
{
    if str_eq(tag, "open") {
        Ok(PullRequestState::Open)
    } else if str_eq(tag, "closed") {
        Ok(PullRequestState::Closed)
    } else {
        Err(ParseError::UnrecognizedState)
    }
}

/// Parse the top-level action tag together with the payload fields that the
/// tagged kind requires. A recognized tag with its required payload present
/// always yields the action of that tag; anything else is a parse error.
pub fn parse_action(
    tag: &str,
    comment: Option<Comment>,
    review: Option<(String, String)>,
    reviewer: Option<User>,
) -> (r: Result<Action, ParseError>)
    ensures
        action_result_view(r) == parse_action_spec(
            tag@,
            match comment {
                Some(c) => Some(c@),
                None => None,
            },
            match review {
                Some(p) => Some((p.0@, p.1@)),
                None => None,
            },
            match reviewer {
                Some(u) => Some(u@),
                None => None,
            },
        ),
{
    if str_eq(tag, "opened") {
        Ok(Action::Opened)
    } else if str_eq(tag, "closed") {
        Ok(Action::Closed)
    } else if str_eq(tag, "reopened") {
        Ok(Action::Reopened)
    } else if str_eq(tag, "merged") {
        Ok(Action::Merged)
    } else if str_eq(tag, "created") {
        match comment {
            Some(c) => Ok(Action::Created { comment: c }),
            None => Err(ParseError::MissingComment),
        }
    } else if str_eq(tag, "reviewed") {
        match review {
            Some(p) => match parse_review(p.0.as_str(), p.1) {
                Ok(rv) => Ok(Action::Reviewed { review: rv }),
                Err(e) => Err(e),
            },
            None => Err(ParseError::MissingReview),
        }
    } else if str_eq(tag, "review_requested") {
        match reviewer {
            Some(u) => Ok(Action::ReviewRequested { requested_reviewer: u }),
            None => Err(ParseError::MissingReviewer),
        }
    } else {
        Err(ParseError::UnrecognizedActionTag)
    }
}

/// Does the payload carry what the tagged action kind requires?
pub open spec fn action_payload_present(
    tag: Seq<char>,
    comment: Option<CommentView>,
    review: Option<(Seq<char>, Seq<char>)>,
    reviewer: Option<UserView>,
) -> bool {
    &&& (tag == "created"@ ==> comment is Some)
    &&& (tag == "reviewed"@ ==> (review matches Some(r) && recognized_review_tag(r.0)))
    &&& (tag == "review_requested"@ ==> reviewer is Some)
}

/// Parsing is total on recognized tags: whenever the action tag is one of
/// the recognized kinds and the payload that kind requires is present,
/// parsing succeeds, and the parsed action's own tag equals the input tag.
pub proof fn lemma_parse_total(
    tag: Seq<char>,
    comment: Option<CommentView>,
    review: Option<(Seq<char>, Seq<char>)>,
    reviewer: Option<UserView>,
)
    requires
        recognized_action_tag(tag),
        action_payload_present(tag, comment, review, reviewer),
    ensures
        parse_action_spec(tag, comment, review, reviewer) is Ok,
        action_tag_of(parse_action_spec(tag, comment, review, reviewer)->Ok_0) == tag,
{
}

impl Webhook {
    /// Assemble an event from its parsed wire parts. Succeeds exactly when
    /// the action parts parse; the remaining fields are carried unchanged.
    pub fn from_parts(
        tag: &str,
        comment: Option<Comment>,
        review: Option<(String, String)>,
        reviewer: Option<User>,
        pull_request: PullRequest,
        sender: User,
        repository: Repository,
    ) -> (r: Result<Webhook, ParseError>)
        ensures
            webhook_result_view(r) == (match parse_action_spec(
                tag@,
                match comment {
                    Some(c) => Some(c@),
                    None => None,
                },
                match review {
                    Some(p) => Some((p.0@, p.1@)),
                    None => None,
                },
                match reviewer {
                    Some(u) => Some(u@),
                    None => None,
                },
            ) {
                Ok(a) => Ok::<WebhookView, ParseError>(
                    WebhookView {
                        action: a,
                        pull_request: pull_request@,
                        sender: sender@,
                        repository: repository@,
                    },
                ),
                Err(e) => Err::<WebhookView, ParseError>(e),
            }),
    {
        match parse_action(tag, comment, review, reviewer) {
            Ok(action) => Ok(Webhook { action, pull_request, sender, repository }),
            Err(e) => Err(e),
        }
    }
}

} // verus!
