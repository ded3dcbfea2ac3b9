//! OAuth integrator: the three-legged GitHub exchange that verifies a
//! human's identity and organization membership.
//!
//! The network legs — exchanging the code, fetching the profile and
//! emails, querying org membership — are performed by the caller, which
//! feeds each outcome back as an event. This module owns every decision
//! of the flow: it is a state machine from state and event to next state,
//! and a caller drives it until it reaches `Completed` or `Failed`. On
//! any leg's failure the flow short-circuits; partial state is never
//! persisted or reused.

use vstd::prelude::*;

use crate::auth::random::{all_token_chars, random_alphanumeric};
use crate::models::auth::{GitHubUser, GitHubUserView};

verus! {

/// Length of the random anti-forgery token attached to an authorization
/// request.
pub const STATE_TOKEN_LENGTH: usize = 32;

/// Configuration of the exchange, sourced from the environment by the
/// caller.
#[derive(Debug)]
pub struct GitHubOAuthConfig {
    pub client_id: String,
    pub client_secret: String,
    pub redirect_url: String,
    pub org_name: String,
}

/// A required configuration value was missing: fatal at startup, never
/// per-request.
#[derive(Debug)]
pub enum ConfigError {
    MissingClientId,
    MissingClientSecret,
    MissingRedirectUrl,
}

impl ConfigError {
    /// The environment variable whose absence caused the failure.
    pub fn message(&self) -> (r: &'static str)
        ensures
            (self is MissingClientId ==> r@ == "GITHUB_CLIENT_ID not set"@),
            (self is MissingClientSecret ==> r@ == "GITHUB_CLIENT_SECRET not set"@),
            (self is MissingRedirectUrl ==> r@ == "GITHUB_REDIRECT_URL not set"@),
    {
        match self {
            ConfigError::MissingClientId => "GITHUB_CLIENT_ID not set",
            ConfigError::MissingClientSecret => "GITHUB_CLIENT_SECRET not set",
            ConfigError::MissingRedirectUrl => "GITHUB_REDIRECT_URL not set",
        }
    }
}

impl GitHubOAuthConfig {
    /// Builds the configuration from looked-up environment values: client
    /// id, secret and redirect URL are required, in that order of
    /// complaint; the organization name defaults when absent.
    pub fn from_values(
        client_id: Option<String>,
        client_secret: Option<String>,
        redirect_url: Option<String>,
        org_name: Option<String>,
    ) -> (r: Result<GitHubOAuthConfig, ConfigError>)
        ensures
            (client_id is None ==> (r matches Err(e) && e is MissingClientId)),
            (client_id is Some && client_secret is None ==> (r matches Err(e)
                && e is MissingClientSecret)),
            (client_id is Some && client_secret is Some && redirect_url is None ==> (r matches Err(
                e,
            ) && e is MissingRedirectUrl)),
            (client_id is Some && client_secret is Some && redirect_url is Some ==> (r matches Ok(c)
                && {
                &&& Some(c.client_id@) == client_id.deep_view()
                &&& Some(c.client_secret@) == client_secret.deep_view()
                &&& Some(c.redirect_url@) == redirect_url.deep_view()
                &&& c.org_name@ == (match org_name {
                    Some(o) => o@,
                    None => "amfoss"@,
                })
            })),
    {
        let client_id = match client_id {
            Some(v) => v,
            None => {
                return Err(ConfigError::MissingClientId);
            },
        };
        let client_secret = match client_secret {
            Some(v) => v,
            None => {
                return Err(ConfigError::MissingClientSecret);
            },
        };
        let redirect_url = match redirect_url {
            Some(v) => v,
            None => {
                return Err(ConfigError::MissingRedirectUrl);
            },
        };
        let org_name = match org_name {
            Some(o) => o,
            None => "amfoss".to_owned(),
        };
        Ok(GitHubOAuthConfig { client_id, client_secret, redirect_url, org_name })
    }
}

/// The pieces of a provider authorization request: the three scopes the
/// exchange needs, and a fresh random anti-forgery token that the caller
/// must persist and re-check on callback.
#[derive(Debug)]
pub struct AuthorizationRequest {
    pub scopes: Vec<String>,
    pub state: String,
}


/// Whether some pending login carries this anti-forgery token.
pub open spec fn contains_state(states: Seq<Seq<char>>, state: Seq<char>) -> bool {
    exists|i: int| 0 <= i < states.len() && states[i] == state
}

/// Keeping a pending token on consumption: it differs from the one
/// consumed.
pub open spec fn keeps_state(state: Seq<char>) -> spec_fn(Seq<char>) -> bool {
    |s: Seq<char>| s != state
}

/// The server-side registry of anti-forgery tokens for pending login
/// attempts. A callback whose `state` the registry does not hold is
/// rejected; a held token is consumed by the first callback that presents
/// it, so it cannot be replayed.
#[derive(Debug)]
pub struct PendingLogins {
    states: Vec<String>,
}

impl View for PendingLogins {
    type V = Seq<Seq<char>>;

    closed spec fn view(&self) -> Seq<Seq<char>> {
        self.states.deep_view()
    }
}

impl PendingLogins {
    pub fn new() -> (r: PendingLogins)
        ensures
            r@ =~= Seq::<Seq<char>>::empty(),
    {
        PendingLogins { states: Vec::new() }
    }

    /// Records the anti-forgery token of a freshly issued authorization
    /// request.
    pub fn register(&mut self, state: String)
        ensures
            final(self)@ =~= old(self)@.push(state@),
    {
        self.states.push(state);
    }

    /// Checks a callback's `state` against the pending logins: a held
    /// token is consumed — every copy of it — and accepted; an unknown
    /// one is rejected and the registry is left as it was.
    pub fn verify_and_consume(&mut self, state: &str) -> (r: bool)
        ensures
            r == contains_state(old(self)@, state@),
            final(self)@ == old(self)@.filter(keeps_state(state@)),
    {
        let ghost orig = self@;
        let owned = state.to_owned();
        let mut kept: Vec<String> = Vec::new();
        let mut found = false;
        let n = self.states.len();
        let mut i: usize = 0;
        proof {
            assert(orig.take(0) =~= Seq::<Seq<char>>::empty());
            assert(orig.take(0).filter(keeps_state(state@)) =~= kept.deep_view());
        }
        while i < n
            invariant
                i <= n == self.states.len(),
                orig == self@,
                owned@ == state@,
                kept.deep_view() == orig.take(i as int).filter(keeps_state(state@)),
                found == contains_state(orig.take(i as int), state@),
            decreases n - i,
        {
            proof {
                crate::auth::session::lemma_filter_take_step(orig, keeps_state(state@), i as int);
                assert(orig.take(i + 1).take(i as int) =~= orig.take(i as int));
            }
            let ghost pre = orig.take(i as int);
            let s = &self.states[i];
            if *s == owned {
                found = true;
                proof {
                    assert(orig.take(i + 1)[i as int] == state@);
                    assert(contains_state(orig.take(i + 1), state@));
                }
            } else {
                kept.push(s.clone());
                proof {
                    assert(keeps_state(state@)(orig[i as int]));
                    assert forall|k: int|
                        0 <= k < orig.take(i + 1).len() && orig.take(i + 1)[k] == state@ implies (
                    0 <= k < pre.len() && pre[k] == state@) by {
                        assert(orig.take(i + 1)[k] == orig[k]);
                    }
                    assert(contains_state(orig.take(i + 1), state@) == contains_state(pre, state@));
                }
            }
            i = i + 1;
        }
        proof {
            assert(orig.take(n as int) =~= orig);
        }
        self.states = kept;
        found
    }
}

/// The profile the provider returns for the authenticated user; the
/// public email may be absent.
#[derive(Debug)]
pub struct GitHubProfile {
    pub id: i64,
    pub login: String,
    pub name: Option<String>,
    pub email: Option<String>,
}

/// Mathematical image of a `GitHubProfile`.
pub struct GitHubProfileView {
    pub id: i64,
    pub login: Seq<char>,
    pub name: Option<Seq<char>>,
    pub email: Option<Seq<char>>,
}

impl View for GitHubProfile {
    type V = GitHubProfileView;

    open spec fn view(&self) -> GitHubProfileView {
        GitHubProfileView {
            id: self.id,
            login: self.login@,
            name: self.name.deep_view(),
            email: self.email.deep_view(),
        }
    }
}

impl DeepView for GitHubProfile {
    type V = GitHubProfileView;

    open spec fn deep_view(&self) -> GitHubProfileView {
        self.view()
    }
}

/// One entry of the provider's list-emails endpoint.
#[derive(Debug)]
pub struct EmailEntry {
    pub email: String,
    pub primary: bool,
    pub verified: bool,
}

/// Mathematical image of an `EmailEntry`.
pub struct EmailEntryView {
    pub email: Seq<char>,
    pub primary: bool,
    pub verified: bool,
}

impl View for EmailEntry {
    type V = EmailEntryView;

    open spec fn view(&self) -> EmailEntryView {
        EmailEntryView { email: self.email@, primary: self.primary, verified: self.verified }
    }
}

impl DeepView for EmailEntry {
    type V = EmailEntryView;

    open spec fn deep_view(&self) -> EmailEntryView {
        self.view()
    }
}

/// Why the flow failed. Failures of the provider itself are kept apart
/// from the one policy rejection — not being a member of the configured
/// organization — and from an indeterminate membership answer, which must
/// never be conflated with "not a member".
#[derive(Debug)]
pub enum OAuthError {
    ExchangeFailed { detail: String },
    ProfileFetchFailed { detail: String },
    EmailsFetchFailed { detail: String },
    NoVerifiedPrimaryEmail,
    OrgCheckFailed { detail: String },
    NotOrgMember { org: String },
    MembershipIndeterminate { status: u16 },
}

/// Mathematical image of an `OAuthError`.
pub enum OAuthErrorView {
    ExchangeFailed { detail: Seq<char> },
    ProfileFetchFailed { detail: Seq<char> },
    EmailsFetchFailed { detail: Seq<char> },
    NoVerifiedPrimaryEmail,
    OrgCheckFailed { detail: Seq<char> },
    NotOrgMember { org: Seq<char> },
    MembershipIndeterminate { status: u16 },
}

impl View for OAuthError {
    type V = OAuthErrorView;

    open spec fn view(&self) -> OAuthErrorView {
        match self {
            OAuthError::ExchangeFailed { detail } => OAuthErrorView::ExchangeFailed {
                detail: detail@,
            },
            OAuthError::ProfileFetchFailed { detail } => OAuthErrorView::ProfileFetchFailed {
                detail: detail@,
            },
            OAuthError::EmailsFetchFailed { detail } => OAuthErrorView::EmailsFetchFailed {
                detail: detail@,
            },
            OAuthError::NoVerifiedPrimaryEmail => OAuthErrorView::NoVerifiedPrimaryEmail,
            OAuthError::OrgCheckFailed { detail } => OAuthErrorView::OrgCheckFailed {
                detail: detail@,
            },
            OAuthError::NotOrgMember { org } => OAuthErrorView::NotOrgMember { org: org@ },
            OAuthError::MembershipIndeterminate { status } => (
            OAuthErrorView::MembershipIndeterminate { status: *status }),
        }
    }
}

impl DeepView for OAuthError {
    type V = OAuthErrorView;

    open spec fn deep_view(&self) -> OAuthErrorView {
        self.view()
    }
}


impl OAuthError {
    /// The user-facing description of the failure: provider failures name
    /// the failed leg and its detail, the policy rejection names the
    /// organization, and an indeterminate membership answer names the
    /// status it could not interpret.
    pub fn message(&self) -> (r: String)
        ensures
            (self matches OAuthError::ExchangeFailed { detail } ==> r@ == "Failed to exchange code: "@
                + detail@),
            (self matches OAuthError::ProfileFetchFailed { detail } ==> r@
                == "Failed to fetch user info: "@ + detail@),
            (self matches OAuthError::EmailsFetchFailed { detail } ==> r@
                == "Failed to fetch user emails: "@ + detail@),
            (self is NoVerifiedPrimaryEmail ==> r@ == "No verified primary email found"@),
            (self matches OAuthError::OrgCheckFailed { detail } ==> r@
                == "Failed to check org membership: "@ + detail@),
            (self matches OAuthError::NotOrgMember { org } ==> r@ == "User is not a member of the "@
                + org@ + " organization"@),
            (self matches OAuthError::MembershipIndeterminate { status } ==> r@
                == "Could not determine org membership: status "@ + crate::text::decimal_digits(
                *status as int,
            )),
    {
        let mut out = String::new();
        match self {
            OAuthError::ExchangeFailed { detail } => {
                out.append("Failed to exchange code: ");
                out.append(detail.as_str());
            },
            OAuthError::ProfileFetchFailed { detail } => {
                out.append("Failed to fetch user info: ");
                out.append(detail.as_str());
            },
            OAuthError::EmailsFetchFailed { detail } => {
                out.append("Failed to fetch user emails: ");
                out.append(detail.as_str());
            },
            OAuthError::NoVerifiedPrimaryEmail => {
                out.append("No verified primary email found");
            },
            OAuthError::OrgCheckFailed { detail } => {
                out.append("Failed to check org membership: ");
                out.append(detail.as_str());
            },
            OAuthError::NotOrgMember { org } => {
                out.append("User is not a member of the ");
                out.append(org.as_str());
                out.append(" organization");
            },
            OAuthError::MembershipIndeterminate { status } => {
                out.append("Could not determine org membership: status ");
                let digits = crate::text::u64_to_decimal(*status as u64);
                out.append(digits.as_str());
            },
        }
        proof {
            assert(Seq::<char>::empty() + "Failed to exchange code: "@ =~= "Failed to exchange code: "@);
            assert(Seq::<char>::empty() + "Failed to fetch user info: "@ =~= "Failed to fetch user info: "@);
            assert(Seq::<char>::empty() + "Failed to fetch user emails: "@ =~= "Failed to fetch user emails: "@);
            assert(Seq::<char>::empty() + "No verified primary email found"@ =~= "No verified primary email found"@);
            assert(Seq::<char>::empty() + "Failed to check org membership: "@ =~= "Failed to check org membership: "@);
            assert(Seq::<char>::empty() + "User is not a member of the "@ =~= "User is not a member of the "@);
            assert(Seq::<char>::empty() + "Could not determine org membership: status "@ =~= "Could not determine org membership: status "@);
        }
        out
    }
}

/// The flow's position: which provider leg it awaits, or how it ended.
#[derive(Debug)]
pub enum FlowState {
    AwaitingToken { code: String },
    AwaitingProfile { access_token: String },
    AwaitingEmails { access_token: String, profile: GitHubProfile },
    AwaitingOrgCheck { access_token: String, user: GitHubUser },
    Completed { user: GitHubUser },
    Failed { error: OAuthError },
}

/// Mathematical image of a `FlowState`.
pub enum FlowStateView {
    AwaitingToken { code: Seq<char> },
    AwaitingProfile { access_token: Seq<char> },
    AwaitingEmails { access_token: Seq<char>, profile: GitHubProfileView },
    AwaitingOrgCheck { access_token: Seq<char>, user: GitHubUserView },
    Completed { user: GitHubUserView },
    Failed { error: OAuthErrorView },
}

impl View for FlowState {
    type V = FlowStateView;

    open spec fn view(&self) -> FlowStateView {
        match self {
            FlowState::AwaitingToken { code } => FlowStateView::AwaitingToken { code: code@ },
            FlowState::AwaitingProfile { access_token } => FlowStateView::AwaitingProfile {
                access_token: access_token@,
            },
            FlowState::AwaitingEmails { access_token, profile } => FlowStateView::AwaitingEmails {
                access_token: access_token@,
                profile: profile@,
            },
            FlowState::AwaitingOrgCheck { access_token, user } => (FlowStateView::AwaitingOrgCheck {
                access_token: access_token@,
                user: user@,
            }),
            FlowState::Completed { user } => FlowStateView::Completed { user: user@ },
            FlowState::Failed { error } => FlowStateView::Failed { error: error@ },
        }
    }
}

/// What the caller reports back after performing the leg the state asked
/// for; each carries the provider's answer or an error description.
#[derive(Debug)]
pub enum FlowEvent {
    TokenResult { outcome: Result<String, String> },
    ProfileResult { outcome: Result<GitHubProfile, String> },
    EmailsResult { outcome: Result<Vec<EmailEntry>, String> },
    OrgStatusResult { outcome: Result<u16, String> },
}

/// Mathematical image of a `FlowEvent`.
pub enum FlowEventView {
    TokenResult { outcome: Result<Seq<char>, Seq<char>> },
    ProfileResult { outcome: Result<GitHubProfileView, Seq<char>> },
    EmailsResult { outcome: Result<Seq<EmailEntryView>, Seq<char>> },
    OrgStatusResult { outcome: Result<u16, Seq<char>> },
}

impl View for FlowEvent {
    type V = FlowEventView;

    open spec fn view(&self) -> FlowEventView {
        match self {
            FlowEvent::TokenResult { outcome } => FlowEventView::TokenResult {
                outcome: (match outcome {
                    Ok(t) => Ok(t@),
                    Err(e) => Err(e@),
                }),
            },
            FlowEvent::ProfileResult { outcome } => FlowEventView::ProfileResult {
                outcome: (match outcome {
                    Ok(p) => Ok(p@),
                    Err(e) => Err(e@),
                }),
            },
            FlowEvent::EmailsResult { outcome } => FlowEventView::EmailsResult {
                outcome: (match outcome {
                    Ok(v) => Ok(v.deep_view()),
                    Err(e) => Err(e@),
                }),
            },
            FlowEvent::OrgStatusResult { outcome } => FlowEventView::OrgStatusResult {
                outcome: (match outcome {
                    Ok(s) => Ok(*s),
                    Err(e) => Err(e@),
                }),
            },
        }
    }
}

/// The organization-membership answer, classified. Membership is
/// signaled by one specific status, absence by another; anything else is
/// indeterminate and must be treated as a hard failure of the flow, never
/// as "not a member".
#[derive(Clone, Copy, PartialEq, Eq, Structural, Debug)]
pub enum OrgMembership {
    Member,
    NotMember,
    Indeterminate,
}

/// Classifies the provider's org-membership status code: 204 signals
/// membership, 404 signals a non-member, anything else is indeterminate.
pub fn classify_org_status(status: u16) -> (r: OrgMembership)
    ensures
        r == spec_classify_org_status(status),
{
    if status == 204 {
        OrgMembership::Member
    } else if status == 404 {
        OrgMembership::NotMember
    } else {
        OrgMembership::Indeterminate
    }
}

/// See `classify_org_status`.
pub open spec fn spec_classify_org_status(status: u16) -> OrgMembership {
    if status == 204 {
        OrgMembership::Member
    } else if status == 404 {
        OrgMembership::NotMember
    } else {
        OrgMembership::Indeterminate
    }
}

/// The address to use for a fetched profile: the first entry flagged both
/// primary and verified, if any.
pub open spec fn find_primary_verified(emails: Seq<EmailEntryView>) -> Option<Seq<char>>
    decreases emails.len(),
{
    if emails.len() == 0 {
        None
    } else if emails[0].primary && emails[0].verified {
        Some(emails[0].email)
    } else {
        find_primary_verified(emails.drop_first())
    }
}

/// Selects the first email flagged both primary and verified.
pub fn select_primary_verified_email(emails: &Vec<EmailEntry>) -> (r: Option<String>)
    ensures
        r.deep_view() == find_primary_verified(emails.deep_view()),
{
    let n = emails.len();
    let mut i: usize = 0;
    proof {
        assert(emails.deep_view().skip(0) =~= emails.deep_view());
    }
    while i < n
        invariant
            i <= n == emails.deep_view().len() == emails@.len(),
            find_primary_verified(emails.deep_view()) == find_primary_verified(
                emails.deep_view().skip(i as int),
            ),
        decreases n - i,
    {
        proof {
            assert(emails.deep_view().skip(i as int)[0] == emails.deep_view()[i as int]);
            assert(emails.deep_view().skip(i as int).drop_first() =~= emails.deep_view().skip(
                i + 1,
            ));
        }
        let e = &emails[i];
        if e.primary && e.verified {
            return Some(e.email.clone());
        }
        i = i + 1;
    }
    proof {
        assert(emails.deep_view().skip(n as int) =~= Seq::<EmailEntryView>::empty());
    }
    None
}

/// The normalized identity for a profile once an address is settled: the
/// display name falls back to a placeholder when the profile has none.
pub open spec fn spec_user_from_profile(p: GitHubProfileView, email: Seq<char>) -> GitHubUserView {
    GitHubUserView {
        github_id: p.id,
        github_username: p.login,
        name: (match p.name {
            Some(n) => n,
            None => "Unknown"@,
        }),
        email: email,
    }
}

/// One decision step of the flow: from the current state and the outcome
/// of the leg it awaited, to the next state. Terminal states, and events
/// that answer a leg the state did not ask for, leave the state as it is.
pub open spec fn spec_step(state: FlowStateView, event: FlowEventView, org: Seq<char>) -> FlowStateView {
    match (state, event) {
        (FlowStateView::AwaitingToken { code }, FlowEventView::TokenResult { outcome }) => (match outcome {
            Ok(t) => FlowStateView::AwaitingProfile { access_token: t },
            Err(e) => FlowStateView::Failed {
                error: OAuthErrorView::ExchangeFailed { detail: e },
            },
        }),
        (FlowStateView::AwaitingProfile { access_token }, FlowEventView::ProfileResult { outcome }) => (match outcome {
            Ok(p) => (match p.email {
                Some(e) => FlowStateView::AwaitingOrgCheck {
                    access_token,
                    user: spec_user_from_profile(p, e),
                },
                None => FlowStateView::AwaitingEmails { access_token, profile: p },
            }),
            Err(e) => FlowStateView::Failed {
                error: OAuthErrorView::ProfileFetchFailed { detail: e },
            },
        }),
        (
            FlowStateView::AwaitingEmails { access_token, profile },
            FlowEventView::EmailsResult { outcome },
        ) => (match outcome {
            Ok(list) => (match find_primary_verified(list) {
                Some(e) => FlowStateView::AwaitingOrgCheck {
                    access_token,
                    user: spec_user_from_profile(profile, e),
                },
                None => FlowStateView::Failed {
                    error: OAuthErrorView::NoVerifiedPrimaryEmail,
                },
            }),
            Err(e) => FlowStateView::Failed {
                error: OAuthErrorView::EmailsFetchFailed { detail: e },
            },
        }),
        (
            FlowStateView::AwaitingOrgCheck { access_token, user },
            FlowEventView::OrgStatusResult { outcome },
        ) => (match outcome {
            Ok(s) => (match spec_classify_org_status(s) {
                OrgMembership::Member => FlowStateView::Completed { user },
                OrgMembership::NotMember => FlowStateView::Failed {
                    error: OAuthErrorView::NotOrgMember { org },
                },
                OrgMembership::Indeterminate => FlowStateView::Failed {
                    error: OAuthErrorView::MembershipIndeterminate { status: s },
                },
            }),
            Err(e) => FlowStateView::Failed {
                error: OAuthErrorView::OrgCheckFailed { detail: e },
            },
        }),
        _ => state,
    }
}

/// Drives the decisions of the GitHub exchange against one configuration.
#[derive(Debug)]
pub struct GitHubOAuthService {
    pub config: GitHubOAuthConfig,
}

impl GitHubOAuthService {
    pub fn new(config: GitHubOAuthConfig) -> (r: GitHubOAuthService)
        ensures
            r.config == config,
    {
        GitHubOAuthService { config }
    }

    /// The authorization request for the login-initiation redirect: the
    /// three scopes the flow needs, and a fresh anti-forgery token.
    pub fn authorization_request(&self) -> (r: AuthorizationRequest)
        ensures
            r.scopes.deep_view() =~= seq!["read:user"@, "user:email"@, "read:org"@],
            r.state@.len() == STATE_TOKEN_LENGTH,
            all_token_chars(r.state@),
    {
        let mut scopes: Vec<String> = Vec::new();
        scopes.push("read:user".to_owned());
        scopes.push("user:email".to_owned());
        scopes.push("read:org".to_owned());
        let state = random_alphanumeric(STATE_TOKEN_LENGTH);
        proof {
            assert(scopes.deep_view() =~= seq!["read:user"@, "user:email"@, "read:org"@]);
        }
        AuthorizationRequest { scopes, state }
    }

    /// Where the flow begins: awaiting the exchange of the one-time
    /// authorization code.
    pub fn start_flow(&self, code: String) -> (r: FlowState)
        ensures
            r@ == (FlowStateView::AwaitingToken { code: code@ }),
    {
        FlowState::AwaitingToken { code }
    }

    /// Performs one decision step of the flow. Everything the provider
    /// answered is in `event`; the next state says which leg to perform
    /// next, or how the flow ended.
    pub fn step(&self, state: FlowState, event: FlowEvent) -> (r: FlowState)
        ensures
            r@ == spec_step(state@, event@, self.config.org_name@),
    {
        match (state, event) {
            (FlowState::AwaitingToken { code: _ }, FlowEvent::TokenResult { outcome }) => (match outcome {
                Ok(t) => FlowState::AwaitingProfile { access_token: t },
                Err(e) => FlowState::Failed {
                    error: OAuthError::ExchangeFailed { detail: e },
                },
            }),
            (
                FlowState::AwaitingProfile { access_token },
                FlowEvent::ProfileResult { outcome },
            ) => (match outcome {
                Ok(p) => (match p.email {
                    Some(e) => FlowState::AwaitingOrgCheck {
                        access_token,
                        user: GitHubUser {
                            github_id: p.id,
                            github_username: p.login,
                            name: (match p.name {
                                Some(n) => n,
                                None => "Unknown".to_owned(),
                            }),
                            email: e,
                        },
                    },
                    None => FlowState::AwaitingEmails {
                        access_token,
                        profile: GitHubProfile {
                            id: p.id,
                            login: p.login,
                            name: p.name,
                            email: None,
                        },
                    },
                }),
                Err(e) => FlowState::Failed {
                    error: OAuthError::ProfileFetchFailed { detail: e },
                },
            }),
            (
                FlowState::AwaitingEmails { access_token, profile },
                FlowEvent::EmailsResult { outcome },
            ) => (match outcome {
                Ok(list) => (match select_primary_verified_email(&list) {
                    Some(e) => FlowState::AwaitingOrgCheck {
                        access_token,
                        user: GitHubUser {
                            github_id: profile.id,
                            github_username: profile.login,
                            name: (match profile.name {
                                Some(n) => n,
                                None => "Unknown".to_owned(),
                            }),
                            email: e,
                        },
                    },
                    None => FlowState::Failed {
                        error: OAuthError::NoVerifiedPrimaryEmail,
                    },
                }),
                Err(e) => FlowState::Failed {
                    error: OAuthError::EmailsFetchFailed { detail: e },
                },
            }),
            (
                FlowState::AwaitingOrgCheck { access_token: _, user },
                FlowEvent::OrgStatusResult { outcome },
            ) => (match outcome {
                Ok(s) => (match classify_org_status(s) {
                    OrgMembership::Member => FlowState::Completed { user },
                    OrgMembership::NotMember => FlowState::Failed {
                        error: OAuthError::NotOrgMember { org: self.config.org_name.clone() },
                    },
                    OrgMembership::Indeterminate => FlowState::Failed {
                        error: OAuthError::MembershipIndeterminate { status: s },
                    },
                }),
                Err(e) => FlowState::Failed {
                    error: OAuthError::OrgCheckFailed { detail: e },
                },
            }),
            (other, _) => other,
        }
    }
}


/// Law: the organization gate. From the org-check leg, a "not a member"
/// answer fails the flow with the error naming the organization; an
/// indeterminate status fails it with a distinct error that names the
/// status instead — the two are never conflated, and neither completes
/// the flow, so no identity is handed on and no session can follow. Only
/// the one membership status completes it.
pub proof fn lemma_org_gate(
    access_token: Seq<char>,
    user: GitHubUserView,
    status: u16,
    org: Seq<char>,
)
    ensures
        (spec_classify_org_status(status) == OrgMembership::NotMember ==> spec_step(
            (FlowStateView::AwaitingOrgCheck { access_token, user }),
            (FlowEventView::OrgStatusResult { outcome: Ok(status) }),
            org,
        ) == (FlowStateView::Failed { error: OAuthErrorView::NotOrgMember { org } })),
        (spec_classify_org_status(status) == OrgMembership::Indeterminate ==> spec_step(
            (FlowStateView::AwaitingOrgCheck { access_token, user }),
            (FlowEventView::OrgStatusResult { outcome: Ok(status) }),
            org,
        ) == (FlowStateView::Failed {
            error: OAuthErrorView::MembershipIndeterminate { status },
        })),
        (OAuthErrorView::NotOrgMember { org } != OAuthErrorView::MembershipIndeterminate {
            status,
        }),
        (spec_classify_org_status(status) != OrgMembership::Member ==> !(spec_step(
            (FlowStateView::AwaitingOrgCheck { access_token, user }),
            (FlowEventView::OrgStatusResult { outcome: Ok(status) }),
            org,
        ) is Completed)),
        (spec_classify_org_status(status) == OrgMembership::Member ==> spec_step(
            (FlowStateView::AwaitingOrgCheck { access_token, user }),
            (FlowEventView::OrgStatusResult { outcome: Ok(status) }),
            org,
        ) == (FlowStateView::Completed { user })),
{
}

} // verus!
