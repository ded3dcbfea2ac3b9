use root_auth::auth::api_key::ApiKeyService;
use root_auth::auth::middleware::{resolve_principal, strip_bearer};
use root_auth::auth::session::SessionService;
use root_auth::models::auth::Role;
use root_auth::models::member::{Member, MemberDirectory};

fn human(member_id: i64, name: &str, role: Role) -> Member {
    Member {
        member_id,
        roll_no: None,
        name: name.to_string(),
        email: format!("{}@example.org", name),
        sex: None,
        year: None,
        hostel: None,
        mac_address: None,
        discord_id: None,
        group_id: None,
        role,
        track: None,
        github_user: None,
        created_at: 0,
        updated_at: 0,
    }
}

#[test]
fn bearer_prefix_is_stripped_once() {
    assert_eq!(strip_bearer("Bearer abc"), "abc");
    assert_eq!(strip_bearer("abc"), "abc");
    assert_eq!(strip_bearer("Bearer "), "");
    assert_eq!(strip_bearer("bearer abc"), "bearer abc");
    assert_eq!(strip_bearer("Bear"), "Bear");
}

#[test]
fn cookie_session_takes_precedence_over_header() {
    let mut dir = MemberDirectory::new();
    dir.add_member(human(1, "cookie-owner", Role::Member));
    dir.add_member(human(2, "header-owner", Role::Member));
    let mut sessions = SessionService::new();
    let mut keys = ApiKeyService::new();
    let now = 1_000_000;
    let cookie_token = sessions.create_session(1, now);
    let header_token = sessions.create_session(2, now);

    let header = format!("Bearer {}", header_token);
    let ctx = resolve_principal(&sessions, &mut keys, &dir, Some(&cookie_token), Some(&header), now);
    assert_eq!(ctx.user().expect("cookie session wins").member_id, 1);
}

#[test]
fn invalid_cookie_falls_through_to_header_session() {
    let mut dir = MemberDirectory::new();
    dir.add_member(human(2, "header-owner", Role::Member));
    let mut sessions = SessionService::new();
    let mut keys = ApiKeyService::new();
    let now = 1_000_000;
    let header_token = sessions.create_session(2, now);

    let header = format!("Bearer {}", header_token);
    let ctx = resolve_principal(&sessions, &mut keys, &dir, Some("stale-cookie"), Some(&header), now);
    assert_eq!(ctx.user().expect("header session resolves").member_id, 2);
}

#[test]
fn header_without_bearer_prefix_also_resolves() {
    let mut dir = MemberDirectory::new();
    dir.add_member(human(3, "raw-header", Role::Member));
    let mut sessions = SessionService::new();
    let mut keys = ApiKeyService::new();
    let now = 1_000_000;
    let token = sessions.create_session(3, now);

    let ctx = resolve_principal(&sessions, &mut keys, &dir, None, Some(&token), now);
    assert_eq!(ctx.user().expect("raw header token resolves").member_id, 3);
}

#[test]
fn header_falls_back_to_api_key_when_no_session_matches() {
    let dir = MemberDirectory::new();
    let sessions = SessionService::new();
    let mut keys = ApiKeyService::new();
    let raw = keys.create_api_key("resolver-bot".to_string(), 1, 500).expect("hashing available");

    let header = format!("Bearer {}", raw);
    let ctx = resolve_principal(&sessions, &mut keys, &dir, None, Some(&header), 600);
    let bot = ctx.user().expect("api key resolves to a bot");
    assert_eq!(bot.member_id, -1);
    assert!(matches!(bot.role, Role::Bot));
    assert!(ctx.is_bot());
}

#[test]
fn no_credentials_is_anonymous_not_an_error() {
    let dir = MemberDirectory::new();
    let sessions = SessionService::new();
    let mut keys = ApiKeyService::new();
    let ctx = resolve_principal(&sessions, &mut keys, &dir, None, None, 100);
    assert!(ctx.user().is_none());
    assert!(!ctx.is_authenticated());
}

#[test]
fn garbage_credentials_are_anonymous() {
    let dir = MemberDirectory::new();
    let sessions = SessionService::new();
    let mut keys = ApiKeyService::new();
    let ctx = resolve_principal(
        &sessions,
        &mut keys,
        &dir,
        Some("nonsense"),
        Some("Bearer root_notarealkey"),
        100,
    );
    assert!(ctx.user().is_none());
}
