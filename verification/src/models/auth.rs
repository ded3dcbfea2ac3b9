//! Credential records: roles, sessions, API keys and the identity record
//! produced by a completed OAuth exchange.
//!
//! Times are absolute timestamps in seconds; identifiers are signed so a
//! bot principal can carry the negation of its API key id.

use vstd::prelude::*;

use crate::models::member::Member;

verus! {

/// Closed set of roles. `Admin` and `Bot` are each authorized for their
/// own operation sets; `Member` is the default for self-service.
#[derive(Clone, Copy, PartialEq, Eq, Structural, Debug)]
pub enum Role {
    Admin,
    Member,
    Bot,
}

/// A durable record linking a member to a bearer token. Only the one-way
/// digest of the token is ever stored, never the raw token.
#[derive(Debug)]
pub struct Session {
    pub session_id: i64,
    pub member_id: i64,
    pub token_hash: String,
    pub expires_at: u64,
    pub created_at: u64,
}

/// Mathematical image of a `Session`.
pub struct SessionView {
    pub session_id: i64,
    pub member_id: i64,
    pub token_hash: Seq<char>,
    pub expires_at: u64,
    pub created_at: u64,
}

impl View for Session {
    type V = SessionView;

    open spec fn view(&self) -> SessionView {
        SessionView {
            session_id: self.session_id,
            member_id: self.member_id,
            token_hash: self.token_hash@,
            expires_at: self.expires_at,
            created_at: self.created_at,
        }
    }
}

impl DeepView for Session {
    type V = SessionView;

    open spec fn deep_view(&self) -> SessionView {
        self.view()
    }
}

impl Clone for Session {
    fn clone(&self) -> (r: Self)
        ensures
            r@ == self@,
    {
        Session {
            session_id: self.session_id,
            member_id: self.member_id,
            token_hash: self.token_hash.clone(),
            expires_at: self.expires_at,
            created_at: self.created_at,
        }
    }
}

/// A durable record for a bot credential. Only the salted hash of the raw
/// key persists; the raw key is returned to the caller exactly once.
#[derive(Debug)]
pub struct ApiKey {
    pub api_key_id: i64,
    pub name: String,
    pub key_hash: String,
    pub created_by: Option<i64>,
    pub created_at: u64,
    pub last_used_at: Option<u64>,
}

/// Mathematical image of an `ApiKey`.
pub struct ApiKeyView {
    pub api_key_id: i64,
    pub name: Seq<char>,
    pub key_hash: Seq<char>,
    pub created_by: Option<i64>,
    pub created_at: u64,
    pub last_used_at: Option<u64>,
}

impl View for ApiKey {
    type V = ApiKeyView;

    open spec fn view(&self) -> ApiKeyView {
        ApiKeyView {
            api_key_id: self.api_key_id,
            name: self.name@,
            key_hash: self.key_hash@,
            created_by: self.created_by,
            created_at: self.created_at,
            last_used_at: self.last_used_at,
        }
    }
}

impl DeepView for ApiKey {
    type V = ApiKeyView;

    open spec fn deep_view(&self) -> ApiKeyView {
        self.view()
    }
}

impl Clone for ApiKey {
    fn clone(&self) -> (r: Self)
        ensures
            r@ == self@,
    {
        ApiKey {
            api_key_id: self.api_key_id,
            name: self.name.clone(),
            key_hash: self.key_hash.clone(),
            created_by: self.created_by,
            created_at: self.created_at,
            last_used_at: self.last_used_at,
        }
    }
}

/// What a successful login hands back: the member and the raw session
/// token that was issued for them.
#[derive(Debug)]
pub struct AuthResponse {
    pub member: Member,
    pub session_token: String,
}

/// What creating a bot credential hands back: the raw key, shown once.
#[derive(Debug)]
pub struct ApiKeyResponse {
    pub api_key: String,
}

/// The normalized external identity produced by a completed OAuth
/// exchange. Transient: consumed to find or create a member, then
/// discarded.
#[derive(Debug)]
pub struct GitHubUser {
    pub github_id: i64,
    pub github_username: String,
    pub name: String,
    pub email: String,
}

/// Mathematical image of a `GitHubUser`.
pub struct GitHubUserView {
    pub github_id: i64,
    pub github_username: Seq<char>,
    pub name: Seq<char>,
    pub email: Seq<char>,
}

impl View for GitHubUser {
    type V = GitHubUserView;

    open spec fn view(&self) -> GitHubUserView {
        GitHubUserView {
            github_id: self.github_id,
            github_username: self.github_username@,
            name: self.name@,
            email: self.email@,
        }
    }
}

impl DeepView for GitHubUser {
    type V = GitHubUserView;

    open spec fn deep_view(&self) -> GitHubUserView {
        self.view()
    }
}

impl Clone for GitHubUser {
    fn clone(&self) -> (r: Self)
        ensures
            r@ == self@,
    {
        GitHubUser {
            github_id: self.github_id,
            github_username: self.github_username.clone(),
            name: self.name.clone(),
            email: self.email.clone(),
        }
    }
}

} // verus!
