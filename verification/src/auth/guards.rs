//! Authorization guards: stateless predicate checks evaluated against the
//! request's principal before a protected operation runs.
//!
//! A failing guard aborts the operation with a clear message naming the
//! required role, and never leaks whether the underlying resource exists.

use vstd::prelude::*;

use crate::auth::AuthContext;
use crate::models::auth::Role;

verus! {

/// Why a guard rejected the request.
#[derive(Debug)]
pub enum AuthzError {
    AuthenticationRequired,
    AdminRequired,
    AdminOrBotRequired,
}

impl AuthzError {
    /// The user-facing description of the rejection.
    pub fn message(&self) -> (r: &'static str)
        ensures
            (self is AuthenticationRequired ==> r@ == "Authentication required to access this resource."@),
            (self is AdminRequired ==> r@ == "Admin privileges required for this operation"@),
            (self is AdminOrBotRequired ==> r@ == "Admin or Bot privileges required for this operation"@),
    {
        match self {
            AuthzError::AuthenticationRequired => "Authentication required to access this resource.",
            AuthzError::AdminRequired => "Admin privileges required for this operation",
            AuthzError::AdminOrBotRequired => "Admin or Bot privileges required for this operation",
        }
    }
}

/// Guard that passes for any authenticated principal.
pub struct AuthGuard;

impl AuthGuard {
    pub fn check(&self, auth: &AuthContext) -> (r: Result<(), AuthzError>)
        ensures
            r is Ok <==> auth.spec_is_authenticated(),
            (r matches Err(e) ==> e is AuthenticationRequired),
    {
        if auth.is_authenticated() {
            Ok(())
        } else {
            Err(AuthzError::AuthenticationRequired)
        }
    }
}

/// Guard that passes only for the `Admin` role.
pub struct AdminGuard;

impl AdminGuard {
    pub fn check(&self, auth: &AuthContext) -> (r: Result<(), AuthzError>)
        ensures
            r is Ok <==> auth.spec_is_admin(),
            (r matches Err(e) ==> e is AdminRequired),
    {
        if auth.is_admin() {
            Ok(())
        } else {
            Err(AuthzError::AdminRequired)
        }
    }
}

/// Guard that passes for the `Admin` and `Bot` roles.
pub struct AdminOrBotGuard;

impl AdminOrBotGuard {
    pub fn check(&self, auth: &AuthContext) -> (r: Result<(), AuthzError>)
        ensures
            r is Ok <==> (auth.spec_is_bot() || auth.spec_is_admin()),
            (r matches Err(e) ==> e is AdminOrBotRequired),
    {
        if auth.is_bot() || auth.is_admin() {
            Ok(())
        } else {
            Err(AuthzError::AdminOrBotRequired)
        }
    }
}

/// Law: guard composition over the closed role set. The admin-or-bot
/// check passes exactly for the `Admin` and `Bot` roles and fails for
/// `Member` and for an anonymous principal; the admin check never passes
/// for a `Bot`; and no guard but the authentication one passes for an
/// anonymous principal.
pub proof fn lemma_guard_composition(auth: AuthContext)
    ensures
        auth.spec_role() == Some(Role::Admin) ==> (auth.spec_is_bot() || auth.spec_is_admin()),
        auth.spec_role() == Some(Role::Bot) ==> (auth.spec_is_bot() || auth.spec_is_admin()),
        auth.spec_role() == Some(Role::Member) ==> !(auth.spec_is_bot() || auth.spec_is_admin()),
        !auth.spec_is_authenticated() ==> !(auth.spec_is_bot() || auth.spec_is_admin()),
        auth.spec_role() == Some(Role::Bot) ==> !auth.spec_is_admin(),
        !auth.spec_is_authenticated() ==> auth.spec_role() is None,
{
}

} // verus!
