//! Session store: issues, validates and revokes short-lived login
//! sessions bound to a member identity.
//!
//! Storage is keyed by the SHA-256 digest of the token — the raw token is
//! returned to the caller once and never stored. A session is live only
//! while its expiry lies strictly in the future.

use vstd::prelude::*;

use crate::auth::hashing::{digest, sha256_hex_of};
use crate::auth::random::{all_token_chars, random_alphanumeric};
use crate::models::auth::{Session, SessionView};
use crate::models::member::{find_member_by_id, Member, MemberDirectory, MemberView};

verus! {

/// How long a session lives: 30 days, in seconds.
pub const SESSION_DURATION_SECONDS: u64 = 30 * 86400;

/// Length of a raw session token, in characters.
pub const TOKEN_LENGTH: usize = 64;

/// Whether `s` admits a presented token with digest `d` at time `now`:
/// the stored digest matches and the expiry is strictly in the future.
pub open spec fn session_live(s: SessionView, d: Seq<char>, now: u64) -> bool {
    s.token_hash == d && s.expires_at > now
}

/// The most recently issued session that admits digest `d` at `now`.
pub open spec fn find_live_session(sessions: Seq<SessionView>, d: Seq<char>, now: u64) -> Option<
    SessionView,
>
    decreases sessions.len(),
{
    if sessions.len() == 0 {
        None
    } else if session_live(sessions.last(), d, now) {
        Some(sessions.last())
    } else {
        find_live_session(sessions.drop_last(), d, now)
    }
}

/// What validating a raw token returns: the member owning the most recent
/// live session whose stored digest is the token's digest, if the
/// directory still holds that member.
pub open spec fn spec_validate_session(
    sessions: Seq<SessionView>,
    members: Seq<MemberView>,
    token: Seq<char>,
    now: u64,
) -> Option<MemberView> {
    match find_live_session(sessions, sha256_hex_of(token), now) {
        Some(s) => find_member_by_id(members, s.member_id),
        None => None,
    }
}

/// Keeping a session on token deletion: its stored digest differs from
/// the deleted token's digest.
pub open spec fn keeps_digest(d: Seq<char>) -> spec_fn(SessionView) -> bool {
    |s: SessionView| s.token_hash != d
}

/// Keeping a session on cleanup: it has not yet expired.
pub open spec fn still_unexpired(now: u64) -> spec_fn(SessionView) -> bool {
    |s: SessionView| s.expires_at > now
}

/// The sessions that survive deleting a token: all whose stored digest
/// differs from the token's digest.
pub open spec fn remove_sessions_with_digest(sessions: Seq<SessionView>, d: Seq<char>) -> Seq<
    SessionView,
> {
    sessions.filter(keeps_digest(d))
}

/// The sessions that survive a cleanup at `now`: all not yet expired.
pub open spec fn unexpired_sessions(sessions: Seq<SessionView>, now: u64) -> Seq<SessionView> {
    sessions.filter(still_unexpired(now))
}

/// One step of a forward filter scan: filtering `i + 1` elements keeps
/// what filtering `i` elements kept, plus the `i`-th element if the
/// predicate holds of it.
pub proof fn lemma_filter_take_step<A>(s: Seq<A>, pred: spec_fn(A) -> bool, i: int)
    requires
        0 <= i < s.len(),
    ensures
        s.take(i + 1).filter(pred) == (if pred(s[i]) {
            s.take(i).filter(pred).push(s[i])
        } else {
            s.take(i).filter(pred)
        }),
{
    reveal_with_fuel(Seq::filter, 2);
    assert(s.take(i + 1).drop_last() =~= s.take(i));
    assert(s.take(i + 1).last() == s[i]);
    assert(s.take(i + 1).len() == i + 1);
}

/// Every element of a filtered sequence is an element of the original.
pub proof fn lemma_filter_subset<A>(s: Seq<A>, pred: spec_fn(A) -> bool, i: int)
    requires
        0 <= i < s.filter(pred).len(),
    ensures
        s.contains(s.filter(pred)[i]),
    decreases s.len(),
{
    broadcast use vstd::seq_lib::group_filter_ensures;

    reveal_with_fuel(Seq::filter, 2);
    if s.len() != 0 {
        if i < s.drop_last().filter(pred).len() {
            lemma_filter_subset(s.drop_last(), pred, i);
            assert(s.drop_last().contains(s.drop_last().filter(pred)[i]));
            let j = choose|j: int|
                0 <= j < s.drop_last().len() && s.drop_last()[j] == s.drop_last().filter(pred)[i];
            assert(s[j] == s.filter(pred)[i]);
        } else {
            assert(s.filter(pred)[i] == s.last());
        }
    }
}

/// The session store. Its view is the sequence of stored records in
/// order of issuance.
pub struct SessionService {
    sessions: Vec<Session>,
    next_session_id: i64,
}

impl View for SessionService {
    type V = Seq<SessionView>;

    closed spec fn view(&self) -> Seq<SessionView> {
        self.sessions.deep_view()
    }
}

impl SessionService {
    /// The id the store will assign to the next issued session.
    pub closed spec fn spec_next_session_id(&self) -> i64 {
        self.next_session_id
    }

    /// Session ids are positive and below the next free id.
    pub closed spec fn wf(&self) -> bool {
        &&& 1 <= self.next_session_id
        &&& forall|i: int|
            0 <= i < self@.len() ==> 1 <= (#[trigger] self@[i]).session_id
                < self.next_session_id
    }

    pub fn new() -> (r: SessionService)
        ensures
            r.wf(),
            r@ =~= Seq::<SessionView>::empty(),
            r.spec_next_session_id() == 1,
    {
        SessionService { sessions: Vec::new(), next_session_id: 1 }
    }

    /// Issues a new session for `member_id`: generates a random 64-character
    /// token, stores its digest with a 30-day expiry, and returns the raw
    /// token to the caller — the one time it is ever visible.
    pub fn create_session(&mut self, member_id: i64, now: u64) -> (token: String)
        requires
            old(self).wf(),
            old(self).spec_next_session_id() < i64::MAX,
            now <= u64::MAX - SESSION_DURATION_SECONDS,
        ensures
            final(self).wf(),
            token@.len() == TOKEN_LENGTH,
            all_token_chars(token@),
            final(self)@ =~= old(self)@.push(
                (SessionView {
                    session_id: old(self).spec_next_session_id(),
                    member_id: member_id,
                    token_hash: sha256_hex_of(token@),
                    expires_at: (now + SESSION_DURATION_SECONDS) as u64,
                    created_at: now,
                }),
            ),
            final(self).spec_next_session_id() == old(self).spec_next_session_id() + 1,
    {
        let token = random_alphanumeric(TOKEN_LENGTH);
        let token_hash = digest(token.as_str());
        let record = Session {
            session_id: self.next_session_id,
            member_id,
            token_hash,
            expires_at: now + SESSION_DURATION_SECONDS,
            created_at: now,
        };
        let ghost rv = record@;
        self.sessions.push(record);
        self.next_session_id = self.next_session_id + 1;
        proof {
            assert(self@ =~= old(self)@.push(rv));
        }
        token
    }

    /// Validates a presented token at `now`: hashes it, looks for the most
    /// recent live session with that digest, and joins to the owning member.
    /// Anything else — unknown digest, expired session, vanished member —
    /// yields `None`, with no side effect.
    pub fn validate_session(&self, dir: &MemberDirectory, token: &str, now: u64) -> (r: Option<
        Member,
    >)
        ensures
            r.deep_view() == spec_validate_session(self@, dir@, token@, now),
    {
        let d = digest(token);
        let ghost dv = d@;
        let mut j = self.sessions.len();
        proof {
            assert(self@.take(j as int) =~= self@);
        }
        while j > 0
            invariant
                j <= self@.len() == self.sessions.len(),
                d@ == dv,
                dv == sha256_hex_of(token@),
                find_live_session(self@, dv, now) == find_live_session(
                    self@.take(j as int),
                    dv,
                    now,
                ),
            decreases j,
        {
            let s = &self.sessions[j - 1];
            proof {
                assert(s@ == self@[j - 1]);
                assert(self@.take(j as int).last() == self@[j - 1]);
                assert(self@.take(j as int).drop_last() =~= self@.take(j - 1));
            }
            if s.token_hash == d && s.expires_at > now {
                proof {
                    assert(session_live(self@[j - 1], dv, now));
                    assert(find_live_session(self@.take(j as int), dv, now) == Some(
                        self@[j - 1],
                    ));
                }
                return dir.find_by_id(s.member_id);
            }
            proof {
                assert(!session_live(self@[j - 1], dv, now));
                assert(find_live_session(self@.take(j as int), dv, now) == find_live_session(
                    self@.take(j - 1),
                    dv,
                    now,
                ));
            }
            j = j - 1;
        }
        proof {
            assert(self@.take(0) =~= Seq::<SessionView>::empty());
        }
        None
    }

    /// Removes every session matching the presented token's digest.
    /// Idempotent: deleting an unknown token removes nothing and is not
    /// an error.
    pub fn delete_session_by_token(&mut self, token: &str)
        requires
            old(self).wf(),
        ensures
            final(self).wf(),
            final(self)@ == remove_sessions_with_digest(old(self)@, sha256_hex_of(token@)),
            final(self).spec_next_session_id() == old(self).spec_next_session_id(),
    {
        let d = digest(token);
        let ghost dv = d@;
        let ghost orig = self@;
        let mut kept: Vec<Session> = Vec::new();
        let n = self.sessions.len();
        let mut i: usize = 0;
        proof {
            assert(orig.take(0) =~= Seq::<SessionView>::empty());
            assert(remove_sessions_with_digest(orig.take(0), dv) =~= kept.deep_view());
        }
        while i < n
            invariant
                i <= n == self.sessions.len(),
                d@ == dv,
                orig == self@,
                kept.deep_view() == remove_sessions_with_digest(orig.take(i as int), dv),
            decreases n - i,
        {
            let s = &self.sessions[i];
            proof {
                lemma_filter_take_step(orig, keeps_digest(dv), i as int);
            }
            if s.token_hash == d {
                proof {
                    assert(!keeps_digest(dv)(orig[i as int]));
                }
            } else {
                kept.push(s.clone());
                proof {
                    assert(keeps_digest(dv)(orig[i as int]));
                }
            }
            i = i + 1;
        }
        proof {
            assert(orig.take(n as int) =~= orig);
        }
        self.sessions = kept;
        proof {
            assert forall|k: int| 0 <= k < self@.len() implies 1 <= (#[trigger] self@[k]).session_id
                < self.next_session_id by {
                lemma_filter_subset(orig, keeps_digest(dv), k);
            }
        }
    }

    /// Deletes every session whose expiry has passed and returns how many
    /// were removed. Safe to run at any time: a session only ever moves
    /// from live to expired, never back.
    pub fn cleanup_expired_sessions(&mut self, now: u64) -> (count: usize)
        requires
            old(self).wf(),
        ensures
            final(self).wf(),
            final(self)@ == unexpired_sessions(old(self)@, now),
            count == old(self)@.len() - final(self)@.len(),
            final(self).spec_next_session_id() == old(self).spec_next_session_id(),
    {
        let ghost orig = self@;
        let mut kept: Vec<Session> = Vec::new();
        let n = self.sessions.len();
        let mut i: usize = 0;
        proof {
            assert(orig.take(0) =~= Seq::<SessionView>::empty());
            assert(unexpired_sessions(orig.take(0), now) =~= kept.deep_view());
        }
        while i < n
            invariant
                i <= n == self.sessions.len(),
                orig == self@,
                kept.deep_view() == unexpired_sessions(orig.take(i as int), now),
                kept.len() <= i,
            decreases n - i,
        {
            let s = &self.sessions[i];
            proof {
                lemma_filter_take_step(orig, still_unexpired(now), i as int);
            }
            if s.expires_at > now {
                kept.push(s.clone());
                proof {
                    assert(still_unexpired(now)(orig[i as int]));
                }
            } else {
                proof {
                    assert(!still_unexpired(now)(orig[i as int]));
                }
            }
            i = i + 1;
        }
        proof {
            assert(orig.take(n as int) =~= orig);
        }
        let count = n - kept.len();
        self.sessions = kept;
        proof {
            assert forall|k: int| 0 <= k < self@.len() implies 1 <= (#[trigger] self@[k]).session_id
                < self.next_session_id by {
                lemma_filter_subset(orig, still_unexpired(now), k);
            }
        }
        count
    }
}

/// What the live-session search can return: a found session is live for
/// the digest and stored; a miss means no stored session is live for it.
pub proof fn lemma_find_live_session(sessions: Seq<SessionView>, d: Seq<char>, now: u64)
    ensures
        (match find_live_session(sessions, d, now) {
            Some(s) => session_live(s, d, now) && (exists|i: int|
                0 <= i < sessions.len() && sessions[i] == s),
            None => forall|i: int|
                0 <= i < sessions.len() ==> !session_live(#[trigger] sessions[i], d, now),
        }),
    decreases sessions.len(),
{
    if sessions.len() != 0 {
        let head = sessions.drop_last();
        if !session_live(sessions.last(), d, now) {
            lemma_find_live_session(head, d, now);
            match find_live_session(head, d, now) {
                Some(s) => {
                    let i = choose|i: int| 0 <= i < head.len() && head[i] == s;
                    assert(sessions[i] == s);
                },
                None => {
                    assert forall|i: int| 0 <= i < sessions.len() implies !session_live(
                        #[trigger] sessions[i],
                        d,
                        now,
                    ) by {
                        if i < sessions.len() - 1 {
                            assert(sessions[i] == head[i]);
                        }
                    }
                },
            }
        }
    }
}

/// Law: a session that is valid and not expired is accepted. If the
/// session at `i` is live for the token's digest, no other session
/// carries that digest, and the directory holds the owning member, then
/// validation returns exactly that member.
pub proof fn lemma_validate_session_live(
    sessions: Seq<SessionView>,
    members: Seq<MemberView>,
    token: Seq<char>,
    now: u64,
    i: int,
)
    requires
        0 <= i < sessions.len(),
        session_live(sessions[i], sha256_hex_of(token), now),
        forall|j: int|
            0 <= j < sessions.len() && j != i ==> (#[trigger] sessions[j]).token_hash
                != sha256_hex_of(token),
    ensures
        spec_validate_session(sessions, members, token, now) == find_member_by_id(
            members,
            sessions[i].member_id,
        ),
        (match find_member_by_id(members, sessions[i].member_id) {
            Some(m) => m.member_id == sessions[i].member_id,
            None => true,
        }),
{
    let d = sha256_hex_of(token);
    lemma_find_live_session_unique(sessions, d, now, i);
    crate::models::member::lemma_find_member_by_id(members, sessions[i].member_id);
}

/// The live-session search finds the one live session when its digest is
/// unique in the store.
proof fn lemma_find_live_session_unique(sessions: Seq<SessionView>, d: Seq<char>, now: u64, i: int)
    requires
        0 <= i < sessions.len(),
        session_live(sessions[i], d, now),
        forall|j: int|
            0 <= j < sessions.len() && j != i ==> (#[trigger] sessions[j]).token_hash != d,
    ensures
        find_live_session(sessions, d, now) == Some(sessions[i]),
    decreases sessions.len(),
{
    if i == sessions.len() - 1 {
    } else {
        let head = sessions.drop_last();
        assert(head[i] == sessions[i]);
        lemma_find_live_session_unique(head, d, now, i);
    }
}

/// Law: expiry alone defeats a matching digest. When every stored
/// session carrying the token's digest has expired, validation returns
/// the anonymous outcome, whatever the directory holds.
pub proof fn lemma_validate_session_expired(
    sessions: Seq<SessionView>,
    members: Seq<MemberView>,
    token: Seq<char>,
    now: u64,
)
    requires
        forall|i: int|
            0 <= i < sessions.len() && (#[trigger] sessions[i]).token_hash == sha256_hex_of(token)
                ==> sessions[i].expires_at <= now,
    ensures
        spec_validate_session(sessions, members, token, now) is None,
{
    lemma_find_live_session(sessions, sha256_hex_of(token), now);
    if let Some(s) = find_live_session(sessions, sha256_hex_of(token), now) {
        let i = choose|i: int| 0 <= i < sessions.len() && sessions[i] == s;
        assert(false);
    }
}

/// Law: a session issued now validates at once. Validating the fresh
/// token right after it was stored — before its expiry has passed — finds
/// the new record and returns exactly the directory's entry for the
/// member the session was created for.
pub proof fn lemma_create_then_validate(
    sessions: Seq<SessionView>,
    members: Seq<MemberView>,
    token: Seq<char>,
    fresh: SessionView,
    now: u64,
)
    requires
        fresh.token_hash == sha256_hex_of(token),
        fresh.expires_at > now,
    ensures
        spec_validate_session(sessions.push(fresh), members, token, now) == find_member_by_id(
            members,
            fresh.member_id,
        ),
        (match find_member_by_id(members, fresh.member_id) {
            Some(m) => m.member_id == fresh.member_id,
            None => true,
        }),
{
    assert(sessions.push(fresh).last() == fresh);
    crate::models::member::lemma_find_member_by_id(members, fresh.member_id);
}

/// Law: deletion revokes. After every session carrying the token's
/// digest is removed, validating that token returns the anonymous
/// outcome; deleting a token no session carries removes nothing.
pub proof fn lemma_delete_then_validate(
    sessions: Seq<SessionView>,
    members: Seq<MemberView>,
    token: Seq<char>,
    now: u64,
)
    ensures
        spec_validate_session(
            remove_sessions_with_digest(sessions, sha256_hex_of(token)),
            members,
            token,
            now,
        ) is None,
        (forall|i: int|
            0 <= i < sessions.len() ==> (#[trigger] sessions[i]).token_hash != sha256_hex_of(token))
            ==> remove_sessions_with_digest(sessions, sha256_hex_of(token)) == sessions,
{
    broadcast use vstd::seq_lib::group_filter_ensures;

    let d = sha256_hex_of(token);
    let kept = remove_sessions_with_digest(sessions, d);
    assert(forall|i: int|
        0 <= i < kept.len() ==> (#[trigger] kept[i]).token_hash != d);
    lemma_find_live_session(kept, d, now);
    if let Some(s) = find_live_session(kept, d, now) {
        let i = choose|i: int| 0 <= i < kept.len() && kept[i] == s;
        assert(false);
    }
    if forall|i: int|
        0 <= i < sessions.len() ==> (#[trigger] sessions[i]).token_hash != d {
        lemma_filter_all(sessions, keeps_digest(d));
    }
}


/// Cleanup commutes with the live-session search at the time it runs:
/// only expired records are removed, and none of those can be the live
/// session a digest finds.
proof fn lemma_cleanup_find(sessions: Seq<SessionView>, d: Seq<char>, now: u64)
    ensures
        find_live_session(unexpired_sessions(sessions, now), d, now) == find_live_session(
            sessions,
            d,
            now,
        ),
    decreases sessions.len(),
{
    reveal_with_fuel(Seq::filter, 2);
    if sessions.len() != 0 {
        let head = sessions.drop_last();
        let s = sessions.last();
        lemma_cleanup_find(head, d, now);
        if s.expires_at > now {
            assert(unexpired_sessions(sessions, now) == unexpired_sessions(head, now).push(s));
            assert(unexpired_sessions(sessions, now).drop_last() =~= unexpired_sessions(
                head,
                now,
            ));
            assert(unexpired_sessions(sessions, now).last() == s);
        } else {
            assert(unexpired_sessions(sessions, now) == unexpired_sessions(head, now));
            assert(!session_live(s, d, now));
        }
    } else {
        assert(unexpired_sessions(sessions, now) =~= sessions);
    }
}

/// Law: cleanup is invisible to validation at the moment it runs. A
/// session only ever moves from live to expired, so removing the expired
/// records changes no validation outcome: the expired tokens were already
/// anonymous, and every live one still resolves to the same member.
pub proof fn lemma_cleanup_then_validate(
    sessions: Seq<SessionView>,
    members: Seq<MemberView>,
    token: Seq<char>,
    now: u64,
)
    ensures
        spec_validate_session(unexpired_sessions(sessions, now), members, token, now)
            == spec_validate_session(sessions, members, token, now),
{
    lemma_cleanup_find(sessions, sha256_hex_of(token), now);
}

/// Filtering with a predicate every element satisfies keeps the sequence
/// as it is.
proof fn lemma_filter_all<A>(s: Seq<A>, pred: spec_fn(A) -> bool)
    requires
        forall|i: int| 0 <= i < s.len() ==> pred(#[trigger] s[i]),
    ensures
        s.filter(pred) == s,
    decreases s.len(),
{
    reveal_with_fuel(Seq::filter, 2);
    if s.len() != 0 {
        assert(forall|i: int| 0 <= i < s.drop_last().len() ==> #[trigger] s.drop_last()[i] == s[i]);
        lemma_filter_all(s.drop_last(), pred);
        assert(s.filter(pred) =~= s);
    } else {
        assert(s.filter(pred) =~= s);
    }
}


/// How a raw session token travels back to a browser: the `session_token`
/// cookie, HTTP-only, lax same-site, secure outside local development,
/// scoped to the configured domain at the root path, and aged like the
/// session itself.
#[derive(Debug)]
pub struct SessionCookie {
    pub name: String,
    pub value: String,
    pub path: String,
    pub domain: String,
    pub http_only: bool,
    pub secure: bool,
    pub same_site_lax: bool,
    pub max_age_seconds: u64,
}

/// Builds the session cookie for a freshly issued token.
pub fn build_session_cookie(token: String, domain: String, development: bool) -> (r: SessionCookie)
    ensures
        r.name@ == "session_token"@,
        r.value@ == token@,
        r.path@ == "/"@,
        r.domain@ == domain@,
        r.http_only,
        r.secure == !development,
        r.same_site_lax,
        r.max_age_seconds == SESSION_DURATION_SECONDS,
{
    SessionCookie {
        name: "session_token".to_owned(),
        value: token,
        path: "/".to_owned(),
        domain,
        http_only: true,
        secure: !development,
        same_site_lax: true,
        max_age_seconds: SESSION_DURATION_SECONDS,
    }
}

} // verus!
