//! Login-callback orchestration: once the OAuth flow has settled, find
//! the member the verified identity belongs to, or provision one.

use vstd::prelude::*;

use crate::auth::oauth::OAuthError;
use crate::auth::random::all_token_chars;
use crate::auth::session::{SessionService, SESSION_DURATION_SECONDS, TOKEN_LENGTH};
use crate::models::auth::{AuthResponse, GitHubUser, Role, SessionView};
use crate::models::member::{find_member_by_github, Member, MemberDirectory};

verus! {

/// Composes a settled OAuth outcome with the member directory.
pub struct AuthService;

impl AuthService {
    /// The callback decision: a failed flow is propagated untouched and
    /// the directory is left alone; a verified identity resolves to the
    /// member already linked to its GitHub username, or is enrolled as a
    /// brand-new self-service member.
    pub fn handle_github_callback(
        dir: &mut MemberDirectory,
        outcome: Result<GitHubUser, OAuthError>,
        now: u64,
    ) -> (r: Result<Member, OAuthError>)
        requires
            old(dir).wf(),
            old(dir).spec_next_member_id() < i64::MAX,
        ensures
            final(dir).wf(),
            (outcome matches Err(e) ==> (r matches Err(e2) && e2@ == e@ && final(dir)@ == old(
                dir,
            )@)),
            (outcome matches Ok(user) ==> (r matches Ok(m) && (match find_member_by_github(
                old(dir)@,
                user.github_username@,
            ) {
                Some(existing) => m@ == existing && final(dir)@ == old(dir)@,
                None => {
                    &&& final(dir)@ =~= old(dir)@.push(m@)
                    &&& m@.member_id == old(dir).spec_next_member_id()
                    &&& m@.name == user.name@
                    &&& m@.email == user.email@
                    &&& m@.github_user == Some(user.github_username@)
                    &&& m@.role == Role::Member
                    &&& m@.created_at == now
                    &&& m@.updated_at == now
                },
            }))),
    {
        let user = match outcome {
            Ok(u) => u,
            Err(e) => {
                return Err(e);
            },
        };
        match dir.find_by_github(user.github_username.as_str()) {
            Some(m) => Ok(m),
            None => Ok(Self::register_member(dir, user, now)),
        }
    }

    /// The whole login callback: settle the member for the verified
    /// identity, then issue them a session. A failed flow changes
    /// neither the directory nor the session store — no session is ever
    /// created for a rejected login.
    pub fn login(
        dir: &mut MemberDirectory,
        sessions: &mut SessionService,
        outcome: Result<GitHubUser, OAuthError>,
        now: u64,
    ) -> (r: Result<AuthResponse, OAuthError>)
        requires
            old(dir).wf(),
            old(dir).spec_next_member_id() < i64::MAX,
            old(sessions).wf(),
            old(sessions).spec_next_session_id() < i64::MAX,
            now <= u64::MAX - SESSION_DURATION_SECONDS,
        ensures
            final(dir).wf(),
            final(sessions).wf(),
            (outcome matches Err(e) ==> (r matches Err(e2) && e2@ == e@ && final(sessions)@ == old(
                sessions,
            )@ && final(dir)@ == old(dir)@)),
            (outcome matches Ok(user) ==> (r matches Ok(a) && {
                &&& (match find_member_by_github(old(dir)@, user.github_username@) {
                    Some(existing) => a.member@ == existing && final(dir)@ == old(dir)@,
                    None => {
                        &&& final(dir)@ =~= old(dir)@.push(a.member@)
                        &&& a.member@.member_id == old(dir).spec_next_member_id()
                        &&& a.member@.name == user.name@
                        &&& a.member@.email == user.email@
                        &&& a.member@.github_user == Some(user.github_username@)
                        &&& a.member@.role == Role::Member
                    },
                })
                &&& a.session_token@.len() == TOKEN_LENGTH
                &&& all_token_chars(a.session_token@)
                &&& final(sessions)@ =~= old(sessions)@.push(
                    (SessionView {
                        session_id: old(sessions).spec_next_session_id(),
                        member_id: a.member@.member_id,
                        token_hash: crate::auth::hashing::sha256_hex_of(a.session_token@),
                        expires_at: (now + SESSION_DURATION_SECONDS) as u64,
                        created_at: now,
                    }),
                )
            })),
    {
        let member = match Self::handle_github_callback(dir, outcome, now) {
            Ok(m) => m,
            Err(e) => {
                return Err(e);
            },
        };
        let session_token = sessions.create_session(member.member_id, now);
        Ok(AuthResponse { member, session_token })
    }

    /// Enrols a first-time verified identity: a fresh directory entry
    /// under the default self-service role.
    fn register_member(dir: &mut MemberDirectory, user: GitHubUser, now: u64) -> (m: Member)
        requires
            old(dir).wf(),
            old(dir).spec_next_member_id() < i64::MAX,
        ensures
            final(dir).wf(),
            final(dir)@ =~= old(dir)@.push(m@),
            m@.member_id == old(dir).spec_next_member_id(),
            m@.name == user.name@,
            m@.email == user.email@,
            m@.github_user == Some(user.github_username@),
            m@.role == Role::Member,
            m@.created_at == now,
            m@.updated_at == now,
    {
        dir.insert_new(user.name, user.email, Some(user.github_username), Role::Member, now)
    }
}

} // verus!
