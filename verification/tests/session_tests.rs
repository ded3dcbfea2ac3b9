use root_auth::auth::session::{build_session_cookie, SessionService};
use root_auth::models::auth::Role;
use root_auth::models::member::{Member, MemberDirectory};

fn human(member_id: i64, name: &str, role: Role) -> Member {
    Member {
        member_id,
        roll_no: None,
        name: name.to_string(),
        email: format!("{}@example.org", name),
        sex: None,
        year: None,
        hostel: None,
        mac_address: None,
        discord_id: None,
        group_id: None,
        role,
        track: None,
        github_user: None,
        created_at: 0,
        updated_at: 0,
    }
}

fn tamper(token: &str) -> String {
    let mut chars: Vec<char> = token.chars().collect();
    let flipped = if chars[0] == 'A' { 'B' } else { 'A' };
    chars[0] = flipped;
    chars.into_iter().collect()
}

#[test]
fn token_is_long_and_alphanumeric() {
    let mut store = SessionService::new();
    let token = store.create_session(1, 1_000);
    assert_eq!(token.len(), 64);
    assert!(token.chars().all(|c| c.is_ascii_alphanumeric()));
}

#[test]
fn create_then_validate_returns_same_member() {
    let mut dir = MemberDirectory::new();
    dir.add_member(human(42, "alice", Role::Member));
    let mut store = SessionService::new();
    let now = 1_000_000;
    let token = store.create_session(42, now);
    let found = store.validate_session(&dir, &token, now);
    let member = found.expect("fresh session must validate");
    assert_eq!(member.member_id, 42);
    assert_eq!(member.name, "alice");
}

#[test]
fn tampered_token_is_anonymous_but_original_still_works() {
    let mut dir = MemberDirectory::new();
    dir.add_member(human(42, "alice", Role::Member));
    let mut store = SessionService::new();
    let now = 1_000_000;
    let token = store.create_session(42, now);

    let bad = tamper(&token);
    assert!(store.validate_session(&dir, &bad, now).is_none());

    let member = store.validate_session(&dir, &token, now).expect("original token must validate");
    assert_eq!(member.member_id, 42);
}

#[test]
fn expired_session_is_anonymous_even_with_matching_digest() {
    let mut dir = MemberDirectory::new();
    dir.add_member(human(7, "bob", Role::Member));
    let mut store = SessionService::new();
    let created = 1_000;
    let token = store.create_session(7, created);
    // 30 days after creation the expiry is no longer strictly in the future.
    let at_expiry = created + 30 * 86400;
    assert!(store.validate_session(&dir, &token, at_expiry).is_none());
    assert!(store.validate_session(&dir, &token, at_expiry - 1).is_some());
}

#[test]
fn delete_then_validate_is_anonymous() {
    let mut dir = MemberDirectory::new();
    dir.add_member(human(42, "alice", Role::Member));
    let mut store = SessionService::new();
    let now = 1_000_000;
    let token = store.create_session(42, now);
    store.delete_session_by_token(&token);
    assert!(store.validate_session(&dir, &token, now).is_none());
}

#[test]
fn deleting_unknown_token_is_a_noop() {
    let mut dir = MemberDirectory::new();
    dir.add_member(human(42, "alice", Role::Member));
    let mut store = SessionService::new();
    let now = 1_000_000;
    let token = store.create_session(42, now);
    store.delete_session_by_token("root_not_even_a_session_token");
    let member = store.validate_session(&dir, &token, now).expect("unrelated delete must not revoke");
    assert_eq!(member.member_id, 42);
}

#[test]
fn cleanup_removes_exactly_the_expired_session() {
    let mut dir = MemberDirectory::new();
    dir.add_member(human(1, "old", Role::Member));
    dir.add_member(human(2, "young", Role::Member));
    let mut store = SessionService::new();
    let old_token = store.create_session(1, 1_000);
    let young_token = store.create_session(2, 5_000_000);

    // Past the first session's expiry (1_000 + 30 days), before the second's.
    let now = 4_000_000;
    let removed = store.cleanup_expired_sessions(now);
    assert_eq!(removed, 1);
    assert!(store.validate_session(&dir, &old_token, now).is_none());
    let member = store.validate_session(&dir, &young_token, now).expect("live session survives cleanup");
    assert_eq!(member.member_id, 2);
}

#[test]
fn validation_without_member_in_directory_is_anonymous() {
    let dir = MemberDirectory::new();
    let mut store = SessionService::new();
    let now = 1_000_000;
    let token = store.create_session(99, now);
    assert!(store.validate_session(&dir, &token, now).is_none());
}

#[test]
fn session_cookie_attributes() {
    let c = build_session_cookie("tok123".to_string(), "example.org".to_string(), false);
    assert_eq!(c.name, "session_token");
    assert_eq!(c.value, "tok123");
    assert_eq!(c.path, "/");
    assert_eq!(c.domain, "example.org");
    assert!(c.http_only);
    assert!(c.secure);
    assert!(c.same_site_lax);
    assert_eq!(c.max_age_seconds, 30 * 86400);

    let dev = build_session_cookie("t".to_string(), "localhost".to_string(), true);
    assert!(!dev.secure);
}
