use root_auth::auth::api_key::{ApiKeyError, ApiKeyService};
use root_auth::auth::operations::{AuthMutations, CreateBotError};
use root_auth::auth::AuthContext;
use root_auth::models::auth::Role;
use root_auth::models::member::Member;

fn principal(member_id: i64, role: Role) -> AuthContext {
    AuthContext::new(Some(Member {
        member_id,
        roll_no: None,
        name: "admin".to_string(),
        email: "admin@example.org".to_string(),
        sex: None,
        year: None,
        hostel: None,
        mac_address: None,
        discord_id: None,
        group_id: None,
        role,
        track: None,
        github_user: None,
        created_at: 0,
        updated_at: 0,
    }))
}

#[test]
fn issued_key_round_trip_and_revocation() {
    let mut store = ApiKeyService::new();
    let now = 2_000;
    let raw = store.create_api_key("deploy-bot".to_string(), 1, now).expect("hashing available");

    // The raw key carries the public prefix and a generous random body.
    assert!(raw.starts_with("root_"));
    assert!(raw.len() >= "root_".len() + 5);
    assert_eq!(raw.len(), 53);

    // Validating the exact issued key yields a bot principal with the
    // negated key id.
    let bot = store.validate_api_key(&raw, now + 10).expect("issued key must validate");
    assert_eq!(bot.member_id, -1);
    assert!(bot.member_id < 0);
    assert!(matches!(bot.role, Role::Bot));
    assert_eq!(bot.name, "deploy-bot");
    assert_eq!(bot.email, "bot-1@internal.amfoss.in");

    // Deleting the key revokes it: the same raw key is anonymous after.
    store.delete_api_key(1);
    assert!(store.validate_api_key(&raw, now + 20).is_none());
}

#[test]
fn single_character_mutation_fails_validation() {
    let mut store = ApiKeyService::new();
    let raw = store.create_api_key("ci-bot".to_string(), 1, 5_000).expect("hashing available");

    let mut chars: Vec<char> = raw.chars().collect();
    let last = chars.len() - 1;
    chars[last] = if chars[last] == 'x' { 'y' } else { 'x' };
    let mutated: String = chars.into_iter().collect();

    assert!(store.validate_api_key(&mutated, 5_100).is_none());
}

#[test]
fn key_without_prefix_is_rejected_before_any_scan() {
    let mut store = ApiKeyService::new();
    let _ = store.create_api_key("ci-bot".to_string(), 1, 5_000).expect("hashing available");
    assert!(store.validate_api_key("toor_abcdefghij", 5_100).is_none());
    assert!(store.validate_api_key("", 5_100).is_none());
    assert!(store.validate_api_key("root", 5_100).is_none());
}

#[test]
fn second_key_gets_second_id() {
    let mut store = ApiKeyService::new();
    let _first = store.create_api_key("first".to_string(), 1, 100).expect("hashing available");
    let second = store.create_api_key("second".to_string(), 2, 200).expect("hashing available");
    let bot = store.validate_api_key(&second, 300).expect("issued key must validate");
    assert_eq!(bot.member_id, -2);
    assert_eq!(bot.email, "bot-2@internal.amfoss.in");
    assert_eq!(bot.created_at, 200);
}

#[test]
fn hashing_failure_message() {
    let e = ApiKeyError::HashingFailed;
    assert_eq!(e.message(), "Failed to hash API key");
}

#[test]
fn create_bot_is_admin_only() {
    let mut keys = ApiKeyService::new();

    let denied = AuthMutations.create_bot(&principal(3, Role::Member), &mut keys, "b".to_string(), 50);
    assert!(matches!(denied.unwrap_err(), CreateBotError::AdminRequired));
    let denied = AuthMutations.create_bot(&AuthContext::new(None), &mut keys, "b".to_string(), 50);
    assert!(matches!(denied.unwrap_err(), CreateBotError::AdminRequired));
    let denied = AuthMutations.create_bot(&principal(3, Role::Bot), &mut keys, "b".to_string(), 50);
    let e = denied.unwrap_err();
    assert_eq!(e.message(), "Admin privileges required for this operation");

    let resp = AuthMutations
        .create_bot(&principal(3, Role::Admin), &mut keys, "deploy-bot".to_string(), 50)
        .expect("admin may create bots");
    assert!(resp.api_key.starts_with("root_"));
    let bot = keys.validate_api_key(&resp.api_key, 60).expect("issued key validates");
    assert_eq!(bot.member_id, -1);
    assert!(matches!(bot.role, Role::Bot));
}
