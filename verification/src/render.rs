use crate::mentions::{find_line_end, line_end};
use crate::model::{
    action_tag_of, Action, ActionView, PullRequest, Review, ReviewView, User, Webhook, WebhookView,
};
use vstd::prelude::*;
use vstd::string::StringExecFns;

verus! {

/// One display block of a notification: a header or a body section, each
/// carrying already-formatted text.
pub enum Block {
    Header { text: String },
    Section { text: String },
}

pub enum BlockView {
    Header { text: Seq<char> },
    Section { text: Seq<char> },
}

impl View for Block {
    type V = BlockView;

    open spec fn view(&self) -> BlockView {
        match self {
            Block::Header { text } => BlockView::Header { text: text@ },
            Block::Section { text } => BlockView::Section { text: text@ },
        }
    }
}

/// A rendered notification: the ordered blocks to post, independent of the
/// target platform's wire types.
pub struct RenderedNotification {
    pub blocks: Vec<Block>,
}

impl View for RenderedNotification {
    type V = Seq<BlockView>;

    open spec fn view(&self) -> Seq<BlockView> {
        self.blocks@.map_values(|b: Block| b@)
    }
}

/// Why a notification could not be rendered at all.
#[derive(Clone, Copy, PartialEq, Eq, Structural, Debug)]
pub enum RenderError {
    MalformedRepositoryName,
}

/// The fixed hyperlink convention of the target platform.
pub open spec fn link_of(url: Seq<char>, title: Seq<char>) -> Seq<char> {
    "<"@ + url + "|"@ + title + ">"@
}

/// The mention-tag convention of the target platform for a user handle.
pub open spec fn mention_tag_of(id: Seq<char>) -> Seq<char> {
    "<@"@ + id + ">"@
}

/// The display verb for each review outcome.
pub open spec fn verb_of(r: ReviewView) -> Seq<char> {
    match r {
        ReviewView::Approved { .. } => "approved"@,
        ReviewView::Rejected { .. } => "rejected"@,
        ReviewView::Comment { .. } => "commented on"@,
    }
}

/// The verb mapping is exhaustive over the three review outcomes: a review
/// is rendered with "approved", "rejected" or "commented on", by variant.
pub proof fn lemma_review_verb_exhaustive(r: ReviewView)
    ensures
        r matches ReviewView::Approved { .. } ==> verb_of(r) == "approved"@,
        r matches ReviewView::Rejected { .. } ==> verb_of(r) == "rejected"@,
        r matches ReviewView::Comment { .. } ==> verb_of(r) == "commented on"@,
{
}

/// Index of the first separator in a repository full name, or its length.
pub open spec fn first_slash(s: Seq<char>) -> int
    decreases s.len(),
{
    if s.len() == 0 {
        0
    } else if s[0] == '/' {
        0
    } else {
        1 + first_slash(s.drop_first())
    }
}

/// A repository full name is well formed when it contains the separator.
pub open spec fn repo_name_well_formed(full: Seq<char>) -> bool {
    first_slash(full) < full.len()
}

/// The header text for a well-formed `owner/name`: the part before the
/// first separator, then " | ", then everything after it.
pub open spec fn repo_header_of(full: Seq<char>) -> Seq<char> {
    full.take(first_slash(full)) + " | "@ + full.skip(first_slash(full) + 1)
}

/// The body of a pull request with every physical line prefixed by the
/// quote marker, so that it reads as quoted context.
pub open spec fn quoted_body_of(s: Seq<char>) -> Seq<char>
    decreases s.len(),
    via quoted_body_of_decreases
{
    if s.len() == 0 {
        s
    } else {
        let e = line_end(s);
        if e < s.len() {
            ">"@ + s.take(e + 1) + quoted_body_of(s.skip(e + 1))
        } else {
            ">"@ + s
        }
    }
}

#[via_fn]
proof fn quoted_body_of_decreases(s: Seq<char>) {
    crate::mentions::lemma_line_end_bounds(s);
}

/// The space-joined mention tags of a recipient-handle list.
pub open spec fn joined_mentions(hs: Seq<Seq<char>>) -> Seq<char>
    decreases hs.len(),
{
    if hs.len() == 0 {
        Seq::empty()
    } else if hs.len() == 1 {
        mention_tag_of(hs[0])
    } else {
        mention_tag_of(hs[0]) + " "@ + joined_mentions(hs.drop_first())
    }
}

/// The single section of a generic lifecycle notification.
pub open spec fn basic_text_of(w: WebhookView) -> Seq<char> {
    link_of(w.pull_request.url, w.pull_request.title) + " was "@ + action_tag_of(w.action)
}

/// The single section of a comment-mention notification.
pub open spec fn comment_text_of(handles: Seq<Seq<char>>) -> Seq<char> {
    joined_mentions(handles) + ", you were mentioned in a comment"@
}

/// The addressee of a review notification: the first resolved handle as a
/// mention tag, or the raw fallback username when none resolved.
pub open spec fn addressee_of(handles: Seq<Seq<char>>, fallback: Seq<char>) -> Seq<char> {
    if handles.len() > 0 {
        mention_tag_of(handles[0])
    } else {
        fallback
    }
}

/// The single section of a review notification.
pub open spec fn reviewed_text_of(w: WebhookView, handles: Seq<Seq<char>>, r: ReviewView) -> Seq<
    char,
> {
    addressee_of(handles, w.pull_request.user.username) + ", "@ + w.sender.username + " has "@
        + verb_of(r) + " your PR"@
}

/// The single section of a review-request notification.
pub open spec fn review_requested_text_of(
    w: WebhookView,
    handles: Seq<Seq<char>>,
    reviewer: crate::model::UserView,
) -> Seq<char> {
    addressee_of(handles, reviewer.username) + ", "@ + w.sender.username
        + " has requested you to review "@ + link_of(w.pull_request.url, w.pull_request.title)
}

/// The blocks of an opened-pull-request notification.
pub open spec fn opened_blocks_of(w: WebhookView) -> Seq<BlockView> {
    seq![
        BlockView::Header { text: repo_header_of(w.repository.full_name) },
        BlockView::Section {
            text: "Pull request "@ + link_of(w.pull_request.url, w.pull_request.title)
                + " opened by "@ + w.sender.username,
        },
        BlockView::Section { text: quoted_body_of(w.pull_request.body) },
    ]
}

/// What the per-kind template renders, before the comment-mention
/// suppression rule is applied.
pub open spec fn template_spec(w: WebhookView, handles: Seq<Seq<char>>) -> Result<
    Seq<BlockView>,
    RenderError,
> {
    match w.action {
        ActionView::Opened => if repo_name_well_formed(w.repository.full_name) {
            Ok(opened_blocks_of(w))
        } else {
            Err(RenderError::MalformedRepositoryName)
        },
        ActionView::Reviewed { review } => Ok(
            seq![BlockView::Section { text: reviewed_text_of(w, handles, review) }],
        ),
        ActionView::ReviewRequested { requested_reviewer } => Ok(
            seq![
                BlockView::Section {
                    text: review_requested_text_of(w, handles, requested_reviewer),
                },
            ],
        ),
        ActionView::Created { .. } => Ok(
            seq![BlockView::Section { text: comment_text_of(handles) }],
        ),
        _ => Ok(seq![BlockView::Section { text: basic_text_of(w) }]),
    }
}

/// What rendering yields for an event and its resolved recipient handles:
/// a comment-mention event with no resolved handle yields no notification
/// at all; every other case yields the per-kind template.
pub open spec fn render_spec(w: WebhookView, handles: Seq<Seq<char>>) -> Result<
    Option<Seq<BlockView>>,
    RenderError,
> {
    if w.action matches ActionView::Created { .. } && handles.len() == 0 {
        Ok(None)
    } else {
        match template_spec(w, handles) {
            Ok(blocks) => Ok(Some(blocks)),
            Err(e) => Err(e),
        }
    }
}

/// Comment-mention rendering is all-or-nothing: with no resolved handle the
/// whole notification is suppressed; with at least one, the single section
/// lists exactly the resolved handles, space-joined, in resolution order.
pub proof fn lemma_comment_all_or_nothing(w: WebhookView, handles: Seq<Seq<char>>)
    requires
        w.action matches ActionView::Created { .. },
    ensures
        handles.len() == 0 ==> render_spec(w, handles) == Ok::<_, RenderError>(
            None::<Seq<BlockView>>,
        ),
        handles.len() > 0 ==> render_spec(w, handles) == Ok::<_, RenderError>(
            Some(seq![BlockView::Section { text: comment_text_of(handles) }]),
        ),
{
}

/// A repository full name without the separator is a fatal rendering error
/// for an opened-pull-request event; with the separator present, rendering
/// succeeds and opens with the split header.
pub proof fn lemma_repo_split(w: WebhookView, handles: Seq<Seq<char>>)
    requires
        w.action matches ActionView::Opened,
    ensures
        !repo_name_well_formed(w.repository.full_name) ==> render_spec(w, handles) == Err::<
            Option<Seq<BlockView>>,
            _,
        >(RenderError::MalformedRepositoryName),
        repo_name_well_formed(w.repository.full_name) ==> (render_spec(w, handles) matches Ok(
            Some(blocks),
        ) && blocks[0] == (BlockView::Header { text: repo_header_of(w.repository.full_name) })),
{
}

/// Rendering is a pure function of the event and the resolved recipients:
/// identical inputs render identically.
pub proof fn lemma_render_pure(
    w1: WebhookView,
    w2: WebhookView,
    h1: Seq<Seq<char>>,
    h2: Seq<Seq<char>>,
)
    requires
        w1 == w2,
        h1 == h2,
    ensures
        render_spec(w1, h1) == render_spec(w2, h2),
{
}

/// The hyperlink text for a pull request.
pub fn format_pull_request_url(pull_request: &PullRequest) -> (r: String)
    ensures
        r@ == link_of(pull_request@.url, pull_request@.title),
{
    let mut r = String::new();
    r.append("<");
    r.append(pull_request.url.as_str());
    r.append("|");
    r.append(pull_request.title.as_str());
    r.append(">");
    proof {
        assert(r@ =~= link_of(pull_request@.url, pull_request@.title));
    }
    r
}

/// The mention tag for one resolved handle.
fn format_mention_tag(id: &str) -> (r: String)
    ensures
        r@ == mention_tag_of(id@),
{
    let mut r = String::new();
    r.append("<@");
    r.append(id);
    r.append(">");
    proof {
        assert(r@ =~= mention_tag_of(id@));
    }
    r
}

/// The lowercase tag naming an action kind, as used in generic notification
/// text.
pub fn action_name(a: &Action) -> (r: &'static str)
    ensures
        r@ == action_tag_of(a@),
{
    match a {
        Action::Opened => "opened",
        Action::Closed => "closed",
        Action::Reopened => "reopened",
        Action::Merged => "merged",
        Action::Created { .. } => "created",
        Action::Reviewed { .. } => "reviewed",
        Action::ReviewRequested { .. } => "review_requested",
    }
}

/// The display verb for a review outcome.
pub fn review_verb(r: &Review) -> (v: &'static str)
    ensures
        v@ == verb_of(r@),
{
    match r {
        Review::Approved { .. } => "approved",
        Review::Rejected { .. } => "rejected",
        Review::Comment { .. } => "commented on",
    }
}

/// Append the quote-prefixed lines of `s[j..]` to `out`.
fn quote_lines(s: &str, j: usize, out: &mut String)
    requires
        j <= s@.len(),
    ensures
        final (out)@ == old(out)@ + quoted_body_of(s@.skip(j as int)),
    decreases s@.len() - j,
{
    let n = s.unicode_len();
    let ghost rest = s@.skip(j as int);
    if j == n {
        proof {
            assert(rest =~= Seq::<char>::empty());
            assert(out@ =~= out@ + quoted_body_of(rest));
        }
        return ;
    }
    let e = find_line_end(s, j, n);
    proof {
        assert(rest =~= s@.subrange(j as int, n as int));
        assert(line_end(rest) == e - j);
    }
    out.append(">");
    if e < n {
        out.append(s.substring_char(j, e + 1));
        proof {
            assert(rest.take(e - j + 1) =~= s@.subrange(j as int, e as int + 1));
        }
        quote_lines(s, e + 1, out);
        proof {
            assert(rest.skip(e - j + 1) =~= s@.skip(e as int + 1));
            assert(out@ =~= old(out)@ + quoted_body_of(rest));
        }
    } else {
        out.append(s.substring_char(j, n));
        proof {
            assert(rest =~= s@.subrange(j as int, n as int));
            assert(out@ =~= old(out)@ + quoted_body_of(rest));
        }
    }
}

/// The pull-request body with every line quote-prefixed.
pub fn quote_pull_request_body(body: &str) -> (r: String)
    ensures
        r@ == quoted_body_of(body@),
{
    let mut out = String::new();
    quote_lines(body, 0, &mut out);
    proof {
        assert(body@.skip(0) =~= body@);
    }
    out
}

/// Append the space-joined mention tags of `hs[i..]` to `out`.
fn join_mention_tags(hs: &Vec<String>, i: usize, out: &mut String)
    requires
        i <= hs@.len(),
    ensures
        final (out)@ == old(out)@ + joined_mentions(hs.deep_view().skip(i as int)),
    decreases hs@.len() - i,
{
    let ghost rest = hs.deep_view().skip(i as int);
    if i == hs.len() {
        proof {
            assert(rest =~= Seq::<Seq<char>>::empty());
            assert(out@ =~= out@ + joined_mentions(rest));
        }
        return ;
    }
    let tag = format_mention_tag(hs[i].as_str());
    out.append(tag.as_str());
    proof {
        assert(rest[0] == hs.deep_view()[i as int]);
    }
    if i + 1 == hs.len() {
        proof {
            assert(rest.len() == 1);
            assert(out@ =~= old(out)@ + joined_mentions(rest));
        }
    } else {
        out.append(" ");
        join_mention_tags(hs, i + 1, out);
        proof {
            assert(rest.drop_first() =~= hs.deep_view().skip(i as int + 1));
            assert(out@ =~= old(out)@ + joined_mentions(rest));
        }
    }
}

/// The notification rendered for the generic lifecycle kinds: a single
/// section saying the pull request "was" whatever happened to it.
pub fn render_basic_action(webhook: &Webhook) -> (r: RenderedNotification)
    ensures
        r@ == seq![BlockView::Section { text: basic_text_of(webhook@) }],
{
    let mut text = format_pull_request_url(&webhook.pull_request);
    text.append(" was ");
    text.append(action_name(&webhook.action));
    proof {
        assert(text@ =~= basic_text_of(webhook@));
    }
    let r = RenderedNotification { blocks: vec![Block::Section { text }] };
    proof {
        assert(r@ =~= seq![BlockView::Section { text: basic_text_of(webhook@) }]);
    }
    r
}

/// An event together with the chat handles resolved for its recipients.
pub struct MySlackMessage<'a> {
    pub webhook: &'a Webhook,
    pub slack_user: Vec<String>,
}

pub struct MySlackMessageView {
    pub webhook: WebhookView,
    pub slack_user: Seq<Seq<char>>,
}

impl<'a> View for MySlackMessage<'a> {
    type V = MySlackMessageView;

    open spec fn view(&self) -> MySlackMessageView {
        MySlackMessageView { webhook: self.webhook@, slack_user: self.slack_user.deep_view() }
    }
}

/// The notification rendered for a comment with resolved mentions: the
/// mention tags, space-joined, then the fixed notice.
pub fn render_comment(slack_message: &MySlackMessage<'_>) -> (r: RenderedNotification)
    ensures
        r@ == seq![BlockView::Section { text: comment_text_of(slack_message@.slack_user) }],
{
    let mut text = String::new();
    join_mention_tags(&slack_message.slack_user, 0, &mut text);
    proof {
        assert(slack_message.slack_user.deep_view().skip(0) =~= slack_message@.slack_user);
    }
    text.append(", you were mentioned in a comment");
    proof {
        assert(text@ =~= comment_text_of(slack_message@.slack_user));
    }
    let r = RenderedNotification { blocks: vec![Block::Section { text }] };
    proof {
        assert(r@ =~= seq![
            BlockView::Section { text: comment_text_of(slack_message@.slack_user) },
        ]);
    }
    r
}

/// The addressee of a notification: the first resolved handle as a mention
/// tag, else the fallback username.
fn format_addressee(handles: &Vec<String>, fallback: &str) -> (r: String)
    ensures
        r@ == addressee_of(handles.deep_view(), fallback@),
{
    if handles.len() > 0 {
        let r = format_mention_tag(handles[0].as_str());
        proof {
            assert(handles.deep_view()[0] == handles@[0]@);
        }
        r
    } else {
        fallback.to_owned()
    }
}

/// The notification rendered for a submitted review: the addressee, then
/// who reviewed, with the verb of the outcome.
pub fn render_reviewed(slack_message: &MySlackMessage<'_>, review: &Review) -> (r:
    RenderedNotification)
    ensures
        r@ == seq![
            BlockView::Section {
                text: reviewed_text_of(slack_message@.webhook, slack_message@.slack_user, review@),
            },
        ],
{
    let mut text = format_addressee(
        &slack_message.slack_user,
        slack_message.webhook.pull_request.user.username.as_str(),
    );
    text.append(", ");
    text.append(slack_message.webhook.sender.username.as_str());
    text.append(" has ");
    text.append(review_verb(review));
    text.append(" your PR");
    proof {
        assert(text@ =~= reviewed_text_of(
            slack_message@.webhook,
            slack_message@.slack_user,
            review@,
        ));
    }
    let r = RenderedNotification { blocks: vec![Block::Section { text }] };
    proof {
        assert(r@ =~= seq![
            BlockView::Section {
                text: reviewed_text_of(slack_message@.webhook, slack_message@.slack_user, review@),
            },
        ]);
    }
    r
}

/// The notification rendered for a review request: the addressee, then who
/// asked, with the pull-request link.
pub fn render_review_requested(slack_message: &MySlackMessage<'_>, reviewer: &User) -> (r:
    RenderedNotification)
    ensures
        r@ == seq![
            BlockView::Section {
                text: review_requested_text_of(
                    slack_message@.webhook,
                    slack_message@.slack_user,
                    reviewer@,
                ),
            },
        ],
{
    let mut text = format_addressee(&slack_message.slack_user, reviewer.username.as_str());
    text.append(", ");
    text.append(slack_message.webhook.sender.username.as_str());
    text.append(" has requested you to review ");
    let link = format_pull_request_url(&slack_message.webhook.pull_request);
    text.append(link.as_str());
    proof {
        assert(text@ =~= review_requested_text_of(
            slack_message@.webhook,
            slack_message@.slack_user,
            reviewer@,
        ));
    }
    let r = RenderedNotification { blocks: vec![Block::Section { text }] };
    proof {
        assert(r@ =~= seq![
            BlockView::Section {
                text: review_requested_text_of(
                    slack_message@.webhook,
                    slack_message@.slack_user,
                    reviewer@,
                ),
            },
        ]);
    }
    r
}

/// First separator at or after `j` and before `end`, or `end`.
fn find_slash(s: &str, j: usize, end: usize) -> (r: usize)
    requires
        j <= end <= s@.len(),
    ensures
        j <= r <= end,
        r - j == first_slash(s@.subrange(j as int, end as int)),
    decreases end - j,
{
    if j == end {
        proof {
            assert(s@.subrange(j as int, end as int) =~= Seq::<char>::empty());
        }
        j
    } else {
        let c = s.get_char(j);
        proof {
            assert(s@.subrange(j as int, end as int)[0] == s@[j as int]);
        }
        if c == '/' {
            j
        } else {
            let r = find_slash(s, j + 1, end);
            proof {
                assert(s@.subrange(j as int, end as int).drop_first() =~= s@.subrange(
                    j as int + 1,
                    end as int,
                ));
            }
            r
        }
    }
}

pub open spec fn rendered_result_view(r: Result<RenderedNotification, RenderError>) -> Result<
    Seq<BlockView>,
    RenderError,
> {
    match r {
        Ok(n) => Ok(n@),
        Err(e) => Err(e),
    }
}

/// The notification rendered for a newly opened pull request: the split
/// repository header, the announcement section, and the quote-prefixed
/// body. A full name without the separator cannot be rendered.
pub fn render_pr_opened(webhook: &Webhook) -> (r: Result<RenderedNotification, RenderError>)
    ensures
        rendered_result_view(r) == (if repo_name_well_formed(webhook@.repository.full_name) {
            Ok::<Seq<BlockView>, RenderError>(opened_blocks_of(webhook@))
        } else {
            Err::<Seq<BlockView>, RenderError>(RenderError::MalformedRepositoryName)
        }),
{
    let full = webhook.repository.full_name.as_str();
    let n = full.unicode_len();
    let ghost fullv = webhook@.repository.full_name;
    let i = find_slash(full, 0, n);
    proof {
        assert(full@.subrange(0, n as int) =~= fullv);
    }
    if i == n {
        return Err(RenderError::MalformedRepositoryName);
    }
    let mut header = full.substring_char(0, i).to_owned();
    header.append(" | ");
    header.append(full.substring_char(i + 1, n));
    proof {
        assert(fullv.take(first_slash(fullv)) =~= full@.subrange(0, i as int));
        assert(fullv.skip(first_slash(fullv) + 1) =~= full@.subrange(i as int + 1, n as int));
        assert(header@ =~= repo_header_of(fullv));
    }
    let mut announce = String::new();
    announce.append("Pull request ");
    let link = format_pull_request_url(&webhook.pull_request);
    announce.append(link.as_str());
    announce.append(" opened by ");
    announce.append(webhook.sender.username.as_str());
    proof {
        assert(announce@ =~= "Pull request "@ + link_of(
            webhook@.pull_request.url,
            webhook@.pull_request.title,
        ) + " opened by "@ + webhook@.sender.username);
    }
    let body = quote_pull_request_body(webhook.pull_request.body.as_str());
    let r = RenderedNotification {
        blocks: vec![
            Block::Header { text: header },
            Block::Section { text: announce },
            Block::Section { text: body },
        ],
    };
    proof {
        assert(r@ =~= opened_blocks_of(webhook@));
    }
    Ok(r)
}

impl<'a> MySlackMessage<'a> {
    /// Render the notification for this event and its resolved handles,
    /// by the rule of its action kind.
    pub fn render_template(&self) -> (r: Result<RenderedNotification, RenderError>)
        ensures
            rendered_result_view(r) == template_spec(self@.webhook, self@.slack_user),
    {
        match &self.webhook.action {
            Action::Opened => render_pr_opened(self.webhook),
            Action::Reviewed { review } => Ok(render_reviewed(self, review)),
            Action::ReviewRequested { requested_reviewer } => Ok(
                render_review_requested(self, requested_reviewer),
            ),
            Action::Created { .. } => Ok(render_comment(self)),
            _ => Ok(render_basic_action(self.webhook)),
        }
    }
}

pub open spec fn render_result_view(r: Result<Option<RenderedNotification>, RenderError>) -> Result<
    Option<Seq<BlockView>>,
    RenderError,
> {
    match r {
        Ok(Some(n)) => Ok(Some(n@)),
        Ok(None) => Ok(None),
        Err(e) => Err(e),
    }
}

/// The emails whose chat handles a notification addresses, by action kind:
/// for a review request the email of the user it names, for a review the
/// pull-request author's, for a comment the resolved mention emails, none
/// otherwise.
pub open spec fn recipient_emails_spec(w: WebhookView, mention_emails: Seq<Seq<char>>) -> Seq<
    Seq<char>,
> {
    match w.action {
        ActionView::ReviewRequested { requested_reviewer } => seq![requested_reviewer.email],
        ActionView::Reviewed { .. } => seq![w.pull_request.user.email],
        ActionView::Created { .. } => mention_emails,
        _ => Seq::empty(),
    }
}

impl Webhook {
    /// Select the emails whose chat handles this event's notification
    /// addresses. `mention_emails` are the emails already resolved from the
    /// comment's mentions; they are used only when the action is a comment.
    pub fn recipient_emails(&self, mention_emails: Vec<String>) -> (r: Vec<String>)
        ensures
            r.deep_view() == recipient_emails_spec(self@, mention_emails.deep_view()),
    {
        match &self.action {
            Action::ReviewRequested { requested_reviewer } => {
                let v = vec![requested_reviewer.email.clone()];
                proof {
                    assert(v.deep_view() =~= recipient_emails_spec(
                        self@,
                        mention_emails.deep_view(),
                    ));
                }
                v
            },
            Action::Reviewed { .. } => {
                let v = vec![self.pull_request.user.email.clone()];
                proof {
                    assert(v.deep_view() =~= recipient_emails_spec(
                        self@,
                        mention_emails.deep_view(),
                    ));
                }
                v
            },
            Action::Created { .. } => mention_emails,
            _ => {
                let v: Vec<String> = Vec::new();
                proof {
                    assert(v.deep_view() =~= recipient_emails_spec(
                        self@,
                        mention_emails.deep_view(),
                    ));
                }
                v
            },
        }
    }

    /// Pair this event with its resolved chat handles, unless the event is
    /// a comment whose mentions resolved to no handle at all: such a
    /// notification is suppressed entirely.
    pub fn into_my_slack<'a>(&'a self, slack_user: Vec<String>) -> (r: Option<MySlackMessage<'a>>)
        ensures
            (self@.action matches ActionView::Created { .. } && slack_user.deep_view().len() == 0)
                ==> r is None,
            !(self@.action matches ActionView::Created { .. } && slack_user.deep_view().len() == 0)
                ==> (r matches Some(m) && m@ == MySlackMessageView {
                webhook: self@,
                slack_user: slack_user.deep_view(),
            }),
    {
        if let Action::Created { .. } = &self.action {
            if slack_user.len() == 0 {
                return None;
            }
        }
        Some(MySlackMessage { webhook: self, slack_user })
    }

    /// Render the notification for this event and the handles resolved for
    /// its recipients: no notification at all for a comment without any
    /// resolved mention, the kind's template otherwise.
    pub fn render(&self, slack_user: Vec<String>) -> (r: Result<
        Option<RenderedNotification>,
        RenderError,
    >)
        ensures
            render_result_view(r) == render_spec(self@, slack_user.deep_view()),
    {
        match self.into_my_slack(slack_user) {
            None => Ok(None),
            Some(m) => match m.render_template() {
                Ok(n) => Ok(Some(n)),
                Err(e) => Err(e),
            },
        }
    }
}

} // verus!
