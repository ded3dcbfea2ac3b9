//! Authentication and authorization: credential stores, the OAuth
//! integrator, the per-request identity resolver and the guards.

pub mod api_key;
pub mod auth_service;
pub mod guards;
pub mod hashing;
pub mod middleware;
pub mod oauth;
pub mod operations;
pub mod random;
pub mod session;

use vstd::prelude::*;

use crate::models::auth::Role;
use crate::models::member::Member;

verus! {

/// The immutable identity attached to one request: the resolved member,
/// or nothing for an anonymous caller. Produced once per request by the
/// identity resolver and discarded at request end; never persisted.
#[derive(Debug)]
pub struct AuthContext {
    pub user: Option<Member>,
}

impl AuthContext {
    /// The role of the resolved member, absent for an anonymous caller.
    pub open spec fn spec_role(&self) -> Option<Role> {
        match self.user {
            Some(u) => Some(u.role),
            None => None,
        }
    }

    /// Whether any member was resolved at all.
    pub open spec fn spec_is_authenticated(&self) -> bool {
        self.user is Some
    }

    pub open spec fn spec_is_admin(&self) -> bool {
        self.spec_role() == Some(Role::Admin)
    }

    pub open spec fn spec_is_bot(&self) -> bool {
        self.spec_role() == Some(Role::Bot)
    }

    pub fn new(user: Option<Member>) -> (r: AuthContext)
        ensures
            r.user == user,
    {
        AuthContext { user }
    }

    pub fn user(&self) -> (r: Option<&Member>)
        ensures
            r.deep_view() == self.user.deep_view(),
            r is Some <==> self.user is Some,
    {
        self.user.as_ref()
    }

    pub fn role(&self) -> (r: Option<Role>)
        ensures
            r == self.spec_role(),
    {
        match &self.user {
            Some(u) => Some(u.role),
            None => None,
        }
    }

    pub fn has_role(&self, role: Role) -> (r: bool)
        ensures
            r == (self.spec_role() == Some(role)),
    {
        match &self.user {
            Some(u) => u.role == role,
            None => false,
        }
    }

    pub fn is_authenticated(&self) -> (r: bool)
        ensures
            r == self.spec_is_authenticated(),
    {
        match &self.user {
            Some(_) => true,
            None => false,
        }
    }

    pub fn is_admin(&self) -> (r: bool)
        ensures
            r == self.spec_is_admin(),
    {
        self.has_role(Role::Admin)
    }

    pub fn is_bot(&self) -> (r: bool)
        ensures
            r == self.spec_is_bot(),
    {
        self.has_role(Role::Bot)
    }
}

} // verus!
