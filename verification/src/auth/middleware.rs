//! Identity resolver: turns one request's raw credential material into
//! exactly one principal, possibly anonymous.
//!
//! Resolution order is a deliberate design choice, stated here as the
//! contract: a valid session named by the cookie wins; otherwise the
//! `Authorization` header value, with an optional `Bearer ` prefix
//! stripped, is tried first as a session token and then as an API key;
//! otherwise the principal is anonymous. The resolver never errors on
//! bad credentials — guards decide acceptance downstream.

use vstd::prelude::*;

use crate::auth::api_key::{
    first_matching_key, has_api_key_prefix, spec_validate_api_key, with_last_used, ApiKeyService,
};
use crate::auth::session::{spec_validate_session, SessionService};
use crate::auth::AuthContext;
use crate::models::auth::{ApiKeyView, SessionView};
use crate::models::member::{MemberDirectory, MemberView};

verus! {

/// The token inside an `Authorization` header value: the value with an
/// optional `Bearer ` prefix removed.
pub open spec fn spec_strip_bearer(h: Seq<char>) -> Seq<char> {
    if h.len() >= 7 && h.subrange(0, 7) == "Bearer "@ {
        h.skip(7)
    } else {
        h
    }
}

/// Removes an optional `Bearer ` prefix from a header value.
pub fn strip_bearer(header: &str) -> (r: &str)
    ensures
        r@ == spec_strip_bearer(header@),
{
    proof {
        reveal_strlit("Bearer ");
    }
    let n = header.unicode_len();
    if n < 7 {
        return header;
    }
    let has_prefix = header.get_char(0) == 'B' && header.get_char(1) == 'e' && header.get_char(2)
        == 'a' && header.get_char(3) == 'r' && header.get_char(4) == 'e' && header.get_char(5)
        == 'r' && header.get_char(6) == ' ';
    if has_prefix {
        proof {
            assert(header@.subrange(0, 7) =~= "Bearer "@);
        }
        header.substring_char(7, n)
    } else {
        proof {
            let sub = header@.subrange(0, 7);
            assert(sub[0] == header@[0] && sub[1] == header@[1] && sub[2] == header@[2] && sub[3]
                == header@[3] && sub[4] == header@[4] && sub[5] == header@[5] && sub[6]
                == header@[6]);
            assert("Bearer "@[0] == 'B' && "Bearer "@[1] == 'e' && "Bearer "@[2] == 'a'
                && "Bearer "@[3] == 'r' && "Bearer "@[4] == 'e' && "Bearer "@[5] == 'r'
                && "Bearer "@[6] == ' ');
            if sub == "Bearer "@ {
                assert(sub[0] == 'B' && sub[1] == 'e' && sub[2] == 'a' && sub[3] == 'r' && sub[4]
                    == 'e' && sub[5] == 'r' && sub[6] == ' ');
                assert(false);
            }
        }
        header
    }
}

/// The principal an `Authorization` header alone resolves to: the value,
/// with an optional `Bearer ` prefix stripped, tried first as a session
/// token and then as an API key.
pub open spec fn spec_resolve_header(
    sessions: Seq<SessionView>,
    keys: Seq<ApiKeyView>,
    members: Seq<MemberView>,
    header: Option<Seq<char>>,
    now: u64,
) -> Option<MemberView> {
    match header {
        Some(h) => {
            let t = spec_strip_bearer(h);
            match spec_validate_session(sessions, members, t, now) {
                Some(m) => Some(m),
                None => spec_validate_api_key(keys, t),
            }
        },
        None => None,
    }
}

/// The principal one request resolves to: the strict precedence
/// cookie-session, then header-as-session, then header-as-API-key, then
/// anonymous. A cookie that names no live session falls through to the
/// header.
pub open spec fn spec_resolve(
    sessions: Seq<SessionView>,
    keys: Seq<ApiKeyView>,
    members: Seq<MemberView>,
    cookie: Option<Seq<char>>,
    header: Option<Seq<char>>,
    now: u64,
) -> Option<MemberView> {
    match cookie {
        Some(c) => match spec_validate_session(sessions, members, c, now) {
            Some(m) => Some(m),
            None => spec_resolve_header(sessions, keys, members, header, now),
        },
        None => spec_resolve_header(sessions, keys, members, header, now),
    }
}

/// Resolves one request's credentials to a principal. Never fails:
/// malformed, unknown or expired credentials yield the anonymous
/// principal. Validating a presented API key may update that key's
/// advisory last-used time; nothing else in the key store changes.
pub fn resolve_principal(
    sessions: &SessionService,
    keys: &mut ApiKeyService,
    dir: &MemberDirectory,
    cookie: Option<&str>,
    header: Option<&str>,
    now: u64,
) -> (r: AuthContext)
    requires
        old(keys).wf(),
    ensures
        final(keys).wf(),
        final(keys).spec_next_key_id() == old(keys).spec_next_key_id(),
        r.user.deep_view() == spec_resolve(
            sessions@,
            old(keys)@,
            dir@,
            cookie.deep_view(),
            header.deep_view(),
            now,
        ),
        final(keys)@.len() == old(keys)@.len(),
        forall|i: int|
            0 <= i < old(keys)@.len() ==> ((#[trigger] final(keys)@[i]) == old(keys)@[i]
                || final(keys)@[i] == with_last_used(old(keys)@[i], now)),
{
    if let Some(c) = cookie {
        let m = sessions.validate_session(dir, c, now);
        if m.is_some() {
            return AuthContext::new(m);
        }
    }
    match header {
        Some(h) => {
            let t = strip_bearer(h);
            match sessions.validate_session(dir, t, now) {
                Some(m) => AuthContext::new(Some(m)),
                None => {
                    let m = keys.validate_api_key(t, now);
                    proof {
                        assert forall|i: int| 0 <= i < old(keys)@.len() implies ((
                        #[trigger] keys@[i]) == old(keys)@[i] || keys@[i] == with_last_used(
                            old(keys)@[i],
                            now,
                        )) by {
                            if has_api_key_prefix(t@) {
                                crate::auth::api_key::lemma_first_matching_key(old(keys)@, t@);
                                if let Some(j) = first_matching_key(old(keys)@, t@) {
                                    assert(keys@ == old(keys)@.update(
                                        j,
                                        with_last_used(old(keys)@[j], now),
                                    ));
                                    assert(keys@[i] == old(keys)@.update(
                                        j,
                                        with_last_used(old(keys)@[j], now),
                                    )[i]);
                                    assert(old(keys)@.update(
                                        j,
                                        with_last_used(old(keys)@[j], now),
                                    ).len() == old(keys)@.len());
                                }
                            }
                        }
                    }
                    proof {
                        if has_api_key_prefix(t@) {
                            crate::auth::api_key::lemma_first_matching_key(old(keys)@, t@);
                            if let Some(j) = first_matching_key(old(keys)@, t@) {
                                assert(keys@ == old(keys)@.update(
                                    j,
                                    with_last_used(old(keys)@[j], now),
                                ));
                                assert(keys@.len() == old(keys)@.len());
                            }
                        }
                    }
                    AuthContext::new(m)
                },
            }
        },
        None => AuthContext::new(None),
    }
}

} // verus!
