//! API key store: issues, validates and revokes long-lived bot
//! credentials.
//!
//! Keys are stored as salted hashes, not digests, so validation is a
//! deliberate linear verify-scan across all stored keys: key volume is
//! low (admin-provisioned), and the salted hash defends a stolen table
//! against offline cracking. A matching key yields an ephemeral bot
//! principal whose member id is the negation of the key id, so it can
//! never collide with a real (positive) member id.

use vstd::prelude::*;
use vstd::pervasive::VecAdditionalExecFns;

use crate::auth::hashing::{bcrypt_accepts, salted_hash, verify};
use crate::auth::random::{all_token_chars, random_alphanumeric};
use crate::models::auth::{ApiKey, ApiKeyView, Role};
use crate::models::member::{Member, MemberView};
use crate::text::{decimal_digits, u64_to_decimal};

verus! {

/// Length of the random body of a raw API key, after the prefix.
pub const API_KEY_BODY_LENGTH: usize = 48;

/// A raw API key starts with the recognized public prefix, so bearer
/// headers can be cheaply pre-filtered before any storage access.
pub open spec fn has_api_key_prefix(s: Seq<char>) -> bool {
    s.len() >= 5 && s.subrange(0, 5) == "root_"@
}

/// The synthetic address carried by a bot principal for key id `id`.
pub open spec fn spec_bot_email(id: i64) -> Seq<char> {
    "bot-"@ + decimal_digits(id as int) + "@internal.amfoss.in"@
}

/// The ephemeral bot principal synthesized from a matching API key:
/// member id is the negation of the key id, the role is always `Bot`,
/// and nothing of it is ever persisted.
pub open spec fn spec_bot_member(k: ApiKeyView) -> MemberView {
    MemberView {
        member_id: (-(k.api_key_id as int)) as i64,
        roll_no: None,
        name: k.name,
        email: spec_bot_email(k.api_key_id),
        sex: None,
        year: None,
        hostel: None,
        mac_address: None,
        discord_id: None,
        group_id: None,
        role: Role::Bot,
        track: None,
        github_user: None,
        created_at: k.created_at,
        updated_at: k.created_at,
    }
}

/// The index of the first stored key whose salted hash verifies the
/// presented raw key; in practice at most one matches, since keys are
/// independently random.
pub open spec fn first_matching_key(keys: Seq<ApiKeyView>, raw: Seq<char>) -> Option<int>
    decreases keys.len(),
{
    if keys.len() == 0 {
        None
    } else if bcrypt_accepts(raw, keys[0].key_hash) {
        Some(0 as int)
    } else {
        match first_matching_key(keys.drop_first(), raw) {
            Some(i) => Some(i + 1),
            None => None,
        }
    }
}

/// Where `first_matching_key` points: a returned index is in bounds,
/// names a key that verifies the presented raw key, and no earlier key
/// does; when nothing is returned, no stored key verifies it.
pub proof fn lemma_first_matching_key(keys: Seq<ApiKeyView>, raw: Seq<char>)
    ensures
        (match first_matching_key(keys, raw) {
            Some(i) => 0 <= i < keys.len() && bcrypt_accepts(raw, keys[i].key_hash) && (forall|
                k: int,
            | 0 <= k < i ==> !bcrypt_accepts(raw, (#[trigger] keys[k]).key_hash)),
            None => forall|k: int|
                0 <= k < keys.len() ==> !bcrypt_accepts(raw, (#[trigger] keys[k]).key_hash),
        }),
    decreases keys.len(),
{
    if keys.len() != 0 {
        if !bcrypt_accepts(raw, keys[0].key_hash) {
            let rest = keys.drop_first();
            lemma_first_matching_key(rest, raw);
            match first_matching_key(rest, raw) {
                Some(i) => {
                    assert forall|k: int| 0 <= k < i + 1 implies !bcrypt_accepts(
                        raw,
                        (#[trigger] keys[k]).key_hash,
                    ) by {
                        if k >= 1 {
                            assert(keys[k] == rest[k - 1]);
                        }
                    }
                },
                None => {
                    assert forall|k: int| 0 <= k < keys.len() implies !bcrypt_accepts(
                        raw,
                        (#[trigger] keys[k]).key_hash,
                    ) by {
                        if k >= 1 {
                            assert(keys[k] == rest[k - 1]);
                        }
                    }
                },
            }
        }
    }
}

/// What validating a raw key returns: nothing without the public prefix
/// (no storage access), otherwise the bot principal of the first stored
/// key that verifies it.
pub open spec fn spec_validate_api_key(keys: Seq<ApiKeyView>, raw: Seq<char>) -> Option<
    MemberView,
> {
    if !has_api_key_prefix(raw) {
        None
    } else {
        match first_matching_key(keys, raw) {
            Some(i) => Some(spec_bot_member(keys[i])),
            None => None,
        }
    }
}

/// A key record with its advisory last-used time set to `now`.
pub open spec fn with_last_used(k: ApiKeyView, now: u64) -> ApiKeyView {
    ApiKeyView {
        api_key_id: k.api_key_id,
        name: k.name,
        key_hash: k.key_hash,
        created_by: k.created_by,
        created_at: k.created_at,
        last_used_at: Some(now),
    }
}

/// Issuing a key can fail only if the salted-hash primitive does; in that
/// case nothing is stored.
#[derive(Debug)]
pub enum ApiKeyError {
    HashingFailed,
}

impl ApiKeyError {
    /// A user-facing description of the failure.
    pub fn message(&self) -> (r: &'static str)
        ensures
            r@ == "Failed to hash API key"@,
    {
        "Failed to hash API key"
    }
}

/// The API key store. Its view is the sequence of stored records in
/// order of issuance.
pub struct ApiKeyService {
    keys: Vec<ApiKey>,
    next_key_id: i64,
}

impl View for ApiKeyService {
    type V = Seq<ApiKeyView>;

    closed spec fn view(&self) -> Seq<ApiKeyView> {
        self.keys.deep_view()
    }
}

impl ApiKeyService {
    /// The id the store will assign to the next issued key.
    pub closed spec fn spec_next_key_id(&self) -> i64 {
        self.next_key_id
    }

    /// Key ids are positive and below the next free id — positivity is
    /// what keeps every synthesized bot member id strictly negative.
    pub closed spec fn wf(&self) -> bool {
        &&& 1 <= self.next_key_id
        &&& forall|i: int|
            0 <= i < self@.len() ==> 1 <= (#[trigger] self@[i]).api_key_id < self.next_key_id
    }

    pub fn new() -> (r: ApiKeyService)
        ensures
            r.wf(),
            r@ =~= Seq::<ApiKeyView>::empty(),
            r.spec_next_key_id() == 1,
    {
        ApiKeyService { keys: Vec::new(), next_key_id: 1 }
    }

    /// Issues a new bot credential: generates a prefixed random key,
    /// stores its salted hash together with the issuing admin's id, and
    /// returns the raw key — the one time it is ever visible. If hashing
    /// fails, nothing is stored.
    pub fn create_api_key(&mut self, name: String, created_by: i64, now: u64) -> (r: Result<
        String,
        ApiKeyError,
    >)
        requires
            old(self).wf(),
            old(self).spec_next_key_id() < i64::MAX,
        ensures
            final(self).wf(),
            (r matches Ok(raw) ==> {
                &&& raw@.len() == 5 + API_KEY_BODY_LENGTH
                &&& has_api_key_prefix(raw@)
                &&& all_token_chars(raw@.skip(5))
                &&& final(self)@.len() == old(self)@.len() + 1
                &&& final(self)@.take(old(self)@.len() as int) == old(self)@
                &&& final(self)@.last().api_key_id == old(self).spec_next_key_id()
                &&& final(self)@.last().name == name@
                &&& bcrypt_accepts(raw@, final(self)@.last().key_hash)
                &&& final(self)@.last().created_by == Some(created_by)
                &&& final(self)@.last().created_at == now
                &&& final(self)@.last().last_used_at is None
                &&& final(self).spec_next_key_id() == old(self).spec_next_key_id() + 1
            }),
            (r matches Err(e) ==> {
                &&& e is HashingFailed
                &&& final(self)@ == old(self)@
                &&& final(self).spec_next_key_id() == old(self).spec_next_key_id()
            }),
    {
        proof {
            reveal_strlit("root_");
        }
        let mut raw = String::new();
        raw.append("root_");
        let body = random_alphanumeric(API_KEY_BODY_LENGTH);
        raw.append(body.as_str());
        proof {
            assert(raw@ =~= "root_"@ + body@);
            assert(raw@.subrange(0, 5) =~= "root_"@);
            assert(raw@.skip(5) =~= body@);
        }
        match salted_hash(raw.as_str()) {
            Some(key_hash) => {
                let record = ApiKey {
                    api_key_id: self.next_key_id,
                    name,
                    key_hash,
                    created_by: Some(created_by),
                    created_at: now,
                    last_used_at: None,
                };
                let ghost rv = record@;
                self.keys.push(record);
                self.next_key_id = self.next_key_id + 1;
                proof {
                    assert(self@ =~= old(self)@.push(rv));
                    assert(self@.take(old(self)@.len() as int) =~= old(self)@);
                }
                Ok(raw)
            },
            None => Err(ApiKeyError::HashingFailed),
        }
    }

    /// Validates a presented raw key: rejects immediately without the
    /// public prefix, otherwise runs the salted-hash check against every
    /// stored key until one matches. A match synthesizes the bot
    /// principal and opportunistically records the time of use — advisory
    /// bookkeeping that is no part of the trust decision.
    pub fn validate_api_key(&mut self, raw: &str, now: u64) -> (r: Option<Member>)
        requires
            old(self).wf(),
        ensures
            final(self).wf(),
            r.deep_view() == spec_validate_api_key(old(self)@, raw@),
            final(self).spec_next_key_id() == old(self).spec_next_key_id(),
            (if has_api_key_prefix(raw@) {
                match first_matching_key(old(self)@, raw@) {
                    Some(i) => final(self)@ == old(self)@.update(
                        i,
                        with_last_used(old(self)@[i], now),
                    ),
                    None => final(self)@ == old(self)@,
                }
            } else {
                final(self)@ == old(self)@
            }),
    {
        if !has_prefix_root(raw) {
            return None;
        }
        let n = self.keys.len();
        let mut i: usize = 0;
        proof {
            assert(old(self)@.skip(0) =~= old(self)@);
        }
        while i < n
            invariant
                i <= n == self.keys.len(),
                self@ == old(self)@,
                old(self).wf(),
                self.wf(),
                self.spec_next_key_id() == old(self).spec_next_key_id(),
                has_api_key_prefix(raw@),
                first_matching_key(old(self)@, raw@) == (match first_matching_key(
                    old(self)@.skip(i as int),
                    raw@,
                ) {
                    Some(j) => Some(j + i as int),
                    None => None::<int>,
                }),
            decreases n - i,
        {
            proof {
                assert(old(self)@.skip(i as int)[0] == old(self)@[i as int]);
                assert(old(self)@.skip(i as int).drop_first() =~= old(self)@.skip(i + 1));
            }
            let hit = verify(raw, self.keys[i].key_hash.as_str());
            proof {
                assert(self@[i as int].key_hash == self.keys@[i as int].key_hash@);
            }
            if hit {
                let key_id = self.keys[i].api_key_id;
                proof {
                    assert(key_id == old(self)@[i as int].api_key_id);
                    assert(1 <= key_id);
                    assert(first_matching_key(old(self)@, raw@) == Some(i as int));
                }
                let bot_name = self.keys[i].name.clone();
                let created = self.keys[i].created_at;
                // Advisory bookkeeping: record when the key was last seen.
                let mut touched = self.keys[i].clone();
                touched.last_used_at = Some(now);
                self.keys.set(i, touched);
                proof {
                    assert(self@ =~= old(self)@.update(
                        i as int,
                        with_last_used(old(self)@[i as int], now),
                    ));
                    assert forall|k: int| 0 <= k < self@.len() implies 1 <= (
                    #[trigger] self@[k]).api_key_id < self.next_key_id by {
                        assert(old(self)@[k].api_key_id == self@[k].api_key_id);
                    }
                }
                let mut email = String::new();
                email.append("bot-");
                let id_digits = u64_to_decimal(key_id as u64);
                email.append(id_digits.as_str());
                email.append("@internal.amfoss.in");
                let bot = Member {
                    member_id: -key_id,
                    roll_no: None,
                    name: bot_name,
                    email,
                    sex: None,
                    year: None,
                    hostel: None,
                    mac_address: None,
                    discord_id: None,
                    group_id: None,
                    role: Role::Bot,
                    track: None,
                    github_user: None,
                    created_at: created,
                    updated_at: created,
                };
                proof {
                    assert(bot@.email =~= spec_bot_email(key_id));
                    assert(bot@ == spec_bot_member(old(self)@[i as int]));
                }
                return Some(bot);
            }
            i = i + 1;
        }
        proof {
            assert(old(self)@.skip(n as int) =~= Seq::<ApiKeyView>::empty());
        }
        None
    }

    /// Removes the key record with the given id. Idempotent: removing an
    /// unknown id removes nothing and is not an error.
    pub fn delete_api_key(&mut self, api_key_id: i64)
        requires
            old(self).wf(),
        ensures
            final(self).wf(),
            final(self)@ == old(self)@.filter(keeps_key_id(api_key_id)),
            final(self).spec_next_key_id() == old(self).spec_next_key_id(),
    {
        let ghost orig = self@;
        let mut kept: Vec<ApiKey> = Vec::new();
        let n = self.keys.len();
        let mut i: usize = 0;
        proof {
            assert(orig.take(0) =~= Seq::<ApiKeyView>::empty());
            assert(orig.take(0).filter(keeps_key_id(api_key_id)) =~= kept.deep_view());
        }
        while i < n
            invariant
                i <= n == self.keys.len(),
                orig == self@,
                kept.deep_view() == orig.take(i as int).filter(keeps_key_id(api_key_id)),
            decreases n - i,
        {
            let s = &self.keys[i];
            proof {
                crate::auth::session::lemma_filter_take_step(orig, keeps_key_id(api_key_id), i as int);
            }
            if s.api_key_id == api_key_id {
                proof {
                    assert(!keeps_key_id(api_key_id)(orig[i as int]));
                }
            } else {
                kept.push(s.clone());
                proof {
                    assert(keeps_key_id(api_key_id)(orig[i as int]));
                }
            }
            i = i + 1;
        }
        proof {
            assert(orig.take(n as int) =~= orig);
        }
        self.keys = kept;
        proof {
            assert forall|k: int| 0 <= k < self@.len() implies 1 <= (#[trigger] self@[k]).api_key_id
                < self.next_key_id by {
                crate::auth::session::lemma_filter_subset(orig, keeps_key_id(api_key_id), k);
            }
        }
    }
}

/// Keeping a key on deletion: its id differs from the deleted one.
pub open spec fn keeps_key_id(id: i64) -> spec_fn(ApiKeyView) -> bool {
    |k: ApiKeyView| k.api_key_id != id
}

/// Whether a presented key carries the recognized public prefix.
pub fn has_prefix_root(raw: &str) -> (r: bool)
    ensures
        r == has_api_key_prefix(raw@),
{
    proof {
        reveal_strlit("root_");
    }
    let n = raw.unicode_len();
    if n < 5 {
        return false;
    }
    let r = raw.get_char(0) == 'r' && raw.get_char(1) == 'o' && raw.get_char(2) == 'o'
        && raw.get_char(3) == 't' && raw.get_char(4) == '_';
    proof {
        if r {
            assert(raw@.subrange(0, 5) =~= "root_"@);
        } else {
            let sub = raw@.subrange(0, 5);
            assert(sub[0] == raw@[0] && sub[1] == raw@[1] && sub[2] == raw@[2] && sub[3]
                == raw@[3] && sub[4] == raw@[4]);
            assert("root_"@[0] == 'r' && "root_"@[1] == 'o' && "root_"@[2] == 'o' && "root_"@[3]
                == 't' && "root_"@[4] == '_');
            if sub == "root_"@ {
                assert(sub[0] == 'r' && sub[1] == 'o' && sub[2] == 'o' && sub[3] == 't' && sub[4]
                    == '_');
                assert(false);
            }
        }
    }
    r
}


/// Law: an issued key validates. If some stored key's salted hash
/// verifies the presented raw key — as the hash stored at issuance
/// verifies the key that was returned — and the key carries the public
/// prefix, validation yields a principal.
pub proof fn lemma_issued_key_validates(keys: Seq<ApiKeyView>, raw: Seq<char>)
    requires
        has_api_key_prefix(raw),
        exists|i: int| 0 <= i < keys.len() && bcrypt_accepts(raw, (#[trigger] keys[i]).key_hash),
    ensures
        spec_validate_api_key(keys, raw) is Some,
{
    lemma_first_matching_key(keys, raw);
    if first_matching_key(keys, raw) is None {
        let i = choose|i: int|
            0 <= i < keys.len() && bcrypt_accepts(raw, (#[trigger] keys[i]).key_hash);
        assert(false);
    }
}

/// Law: a validated key never yields a principal without the prefix, and
/// a deleted key no longer validates — once no stored hash verifies the
/// raw key, validation yields the anonymous outcome.
pub proof fn lemma_unmatched_key_anonymous(keys: Seq<ApiKeyView>, raw: Seq<char>)
    requires
        forall|i: int| 0 <= i < keys.len() ==> !bcrypt_accepts(raw, (#[trigger] keys[i]).key_hash),
    ensures
        spec_validate_api_key(keys, raw) is None,
{
    lemma_first_matching_key(keys, raw);
    if let Some(i) = first_matching_key(keys, raw) {
        assert(false);
    }
}

/// Law: the shape of a bot principal. When key ids are positive — as the
/// store keeps them — a principal synthesized from a matching key always
/// has the `Bot` role and a member id that is exactly the negation of the
/// matched key's id, hence strictly negative and never a real (positive)
/// member id.
pub proof fn lemma_bot_principal_shape(keys: Seq<ApiKeyView>, raw: Seq<char>)
    requires
        forall|i: int| 0 <= i < keys.len() ==> 1 <= (#[trigger] keys[i]).api_key_id,
    ensures
        (match spec_validate_api_key(keys, raw) {
            Some(m) => {
                &&& m.role == Role::Bot
                &&& m.member_id < 0
                &&& (match first_matching_key(keys, raw) {
                    Some(i) => m.member_id as int == -(keys[i].api_key_id as int),
                    None => false,
                })
            },
            None => true,
        }),
{
    if has_api_key_prefix(raw) {
        lemma_first_matching_key(keys, raw);
    }
}

} // verus!
