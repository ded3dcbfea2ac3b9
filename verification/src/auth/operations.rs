//! Guarded administrative operations: the guard runs before the
//! operation, and a rejection leaks nothing but the required role.

use vstd::prelude::*;

use crate::auth::api_key::{has_api_key_prefix, ApiKeyService, API_KEY_BODY_LENGTH};
use crate::auth::guards::AdminGuard;
use crate::auth::hashing::bcrypt_accepts;
use crate::auth::random::all_token_chars;
use crate::auth::AuthContext;
use crate::models::auth::ApiKeyResponse;

verus! {

/// Why creating a bot credential failed: the caller is no admin, or the
/// salted-hash primitive was unavailable (in which case nothing was
/// stored).
#[derive(Debug)]
pub enum CreateBotError {
    AdminRequired,
    HashingFailed,
}

impl CreateBotError {
    /// The user-facing description of the failure.
    pub fn message(&self) -> (r: &'static str)
        ensures
            (self is AdminRequired ==> r@ == "Admin privileges required for this operation"@),
            (self is HashingFailed ==> r@ == "Failed to create bot"@),
    {
        match self {
            CreateBotError::AdminRequired => "Admin privileges required for this operation",
            CreateBotError::HashingFailed => "Failed to create bot",
        }
    }
}

/// The administrative mutations over credentials.
pub struct AuthMutations;

impl AuthMutations {
    /// Creates a new bot credential, admin only: the admin guard runs
    /// before the store is touched, the issuing admin's member id is
    /// recorded on the new key, and the raw key is returned exactly once.
    pub fn create_bot(
        &self,
        auth: &AuthContext,
        keys: &mut ApiKeyService,
        name: String,
        now: u64,
    ) -> (r: Result<ApiKeyResponse, CreateBotError>)
        requires
            old(keys).wf(),
            old(keys).spec_next_key_id() < i64::MAX,
        ensures
            final(keys).wf(),
            (!auth.spec_is_admin() ==> (r matches Err(e) && e is AdminRequired && final(keys)@
                == old(keys)@ && final(keys).spec_next_key_id() == old(keys).spec_next_key_id())),
            (auth.spec_is_admin() ==> (match r {
                Ok(resp) => {
                    &&& resp.api_key@.len() == 5 + API_KEY_BODY_LENGTH
                    &&& has_api_key_prefix(resp.api_key@)
                    &&& all_token_chars(resp.api_key@.skip(5))
                    &&& final(keys)@.len() == old(keys)@.len() + 1
                    &&& final(keys)@.take(old(keys)@.len() as int) == old(keys)@
                    &&& final(keys)@.last().api_key_id == old(keys).spec_next_key_id()
                    &&& final(keys)@.last().name == name@
                    &&& bcrypt_accepts(resp.api_key@, final(keys)@.last().key_hash)
                    &&& (match auth.user {
                        Some(m) => final(keys)@.last().created_by == Some(m.member_id),
                        None => false,
                    })
                    &&& final(keys)@.last().created_at == now
                    &&& final(keys)@.last().last_used_at is None
                    &&& final(keys).spec_next_key_id() == old(keys).spec_next_key_id() + 1
                },
                Err(e) => e is HashingFailed && final(keys)@ == old(keys)@
                    && final(keys).spec_next_key_id() == old(keys).spec_next_key_id(),
            })),
    {
        if AdminGuard.check(auth).is_err() {
            return Err(CreateBotError::AdminRequired);
        }
        let admin_id = match auth.user() {
            Some(m) => m.member_id,
            None => {
                // An admin principal always carries a member.
                return Err(CreateBotError::AdminRequired);
            },
        };
        match keys.create_api_key(name, admin_id, now) {
            Ok(api_key) => Ok(ApiKeyResponse { api_key }),
            Err(_) => Err(CreateBotError::HashingFailed),
        }
    }
}

} // verus!
