use crate::model::{
    Action, ActionView, PullRequestView, User, UserView, Webhook, WebhookView,
};
use vstd::prelude::*;
use vstd::string::StringExecFns;

verus! {

/// What serializing a URL yields after its path has been replaced: a
/// function of the base URL and the new path alone.
pub uninterp spec fn url_with_path(base: Seq<char>, path: Seq<char>) -> Seq<char>;

/// Whether a string parses as an absolute URL: a function of the string
/// alone.
pub uninterp spec fn url_parse_ok(base: Seq<char>) -> bool;

/// The scheme-and-host part of a URL's serialization.
pub uninterp spec fn url_origin_of(u: Seq<char>) -> Seq<char>;

/// Relies on url::Url::parse, url::Url::set_path and url::Url::as_str:
/// parsing succeeds or fails on the base alone; a parseable base has its
/// path replaced and is serialized again, and set_path rewrites only the
/// path segment, so scheme and host are those of the base. The length
/// bound is a machine limit: the crate serializes through 32-bit indices
/// and panics past 2^32 bytes, and an admitted character grows to at most
/// a dozen bytes under parsing and escaping, so the bound keeps the
/// rebuilt serialization far below that limit.
#[verifier::external_body]
fn set_url_path(base: &str, path: &str) -> (r: Option<String>)
    requires
        base@.len() + path@.len() < 100000000,
    ensures
        r is Some <==> url_parse_ok(base@),
        r matches Some(u) ==> u@ == url_with_path(base@, path@),
        r matches Some(u) ==> url_origin_of(u@) == url_origin_of(base@),
{
    match url::Url::parse(base) {
        Ok(mut u) => {
            u.set_path(path);
            Some(u.as_str().to_string())
        },
        Err(_) => None,
    }
}

/// The fixed per-user path of the forge's lookup endpoint.
pub open spec fn lookup_path_of(username: Seq<char>) -> Seq<char> {
    "api/v1/users/"@ + username
}

pub fn user_lookup_path(username: &str) -> (r: String)
    ensures
        r@ == lookup_path_of(username@),
{
    let mut r = String::new();
    r.append("api/v1/users/");
    r.append(username);
    proof {
        assert(r@ =~= lookup_path_of(username@));
    }
    r
}

/// The forge lookup endpoint for a username: the pull request's canonical
/// URL with its path replaced by the fixed per-user lookup path, keeping
/// the base's scheme and host. An endpoint is produced exactly when the
/// base parses as a URL. The length bound is the machine limit of the
/// URL serializer (see `set_url_path`).
pub fn user_lookup_url(base: &str, username: &str) -> (r: Option<String>)
    requires
        base@.len() + username@.len() + 13 < 100000000,
    ensures
        r is Some <==> url_parse_ok(base@),
        r matches Some(u) ==> u@ == url_with_path(base@, lookup_path_of(username@)),
        r matches Some(u) ==> url_origin_of(u@) == url_origin_of(base@),
{
    let path = user_lookup_path(username);
    proof {
        reveal_strlit("api/v1/users/");
        assert(path@.len() == 13 + username@.len());
    }
    set_url_path(base, path.as_str())
}

/// A user after one directory lookup has been applied to it, fail-open: a
/// resolved email replaces the anonymized one, a failed lookup keeps it.
pub open spec fn resolved_user(u: UserView, e: Option<Seq<char>>) -> UserView {
    match e {
        Some(e) => UserView { email: e, username: u.username },
        None => u,
    }
}

impl User {
    /// Apply the outcome of one directory lookup, fail-open: the email
    /// after a failed lookup equals its value before.
    pub fn apply_resolved_email(&mut self, resolved: Option<String>)
        ensures
            final (self)@ == resolved_user(
                old(self)@,
                match resolved {
                    Some(e) => Some(e@),
                    None => None,
                },
            ),
    {
        if let Some(e) = resolved {
            self.email = e;
        }
    }
}

/// The event after the deanonymization pass: the sender's and the author's
/// emails overwritten where their lookups succeeded, and likewise the email
/// of the user a review request names; everything else untouched.
pub open spec fn deanonymised_view(
    w: WebhookView,
    sender_email: Option<Seq<char>>,
    author_email: Option<Seq<char>>,
    reviewer_email: Option<Seq<char>>,
) -> WebhookView {
    WebhookView {
        sender: resolved_user(w.sender, sender_email),
        pull_request: PullRequestView {
            user: resolved_user(w.pull_request.user, author_email),
            ..w.pull_request
        },
        action: match w.action {
            ActionView::ReviewRequested { requested_reviewer } => ActionView::ReviewRequested {
                requested_reviewer: resolved_user(requested_reviewer, reviewer_email),
            },
            a => a,
        },
        repository: w.repository,
    }
}

impl Webhook {
    /// Apply the independently looked-up emails of the sender, the pull
    /// request author and (for a review request) the user it names.
    /// Each lookup is fail-open: where it produced nothing, the anonymized
    /// email is kept; no other part of the event changes.
    pub fn try_deanonymise_emails(
        self,
        sender_email: Option<String>,
        author_email: Option<String>,
        reviewer_email: Option<String>,
    ) -> (r: Self)
        ensures
            r@ == deanonymised_view(
                self@,
                match sender_email {
                    Some(e) => Some(e@),
                    None => None,
                },
                match author_email {
                    Some(e) => Some(e@),
                    None => None,
                },
                match reviewer_email {
                    Some(e) => Some(e@),
                    None => None,
                },
            ),
    {
        let Webhook { action, mut pull_request, mut sender, repository } = self;
        sender.apply_resolved_email(sender_email);
        pull_request.user.apply_resolved_email(author_email);
        let action = match action {
            Action::ReviewRequested { mut requested_reviewer } => {
                requested_reviewer.apply_resolved_email(reviewer_email);
                Action::ReviewRequested { requested_reviewer }
            },
            a => a,
        };
        Webhook { action, pull_request, sender, repository }
    }
}

} // verus!
