use root_auth::auth::auth_service::AuthService;
use root_auth::auth::oauth::OAuthError;
use root_auth::auth::session::SessionService;
use root_auth::models::auth::{GitHubUser, Role};
use root_auth::models::member::{Member, MemberDirectory, UpdateMemberInput};
use root_auth::text::u64_to_decimal;

fn base_member() -> Member {
    Member {
        member_id: 5,
        roll_no: Some("AM1".to_string()),
        name: "old name".to_string(),
        email: "old@example.org".to_string(),
        sex: None,
        year: Some(2),
        hostel: None,
        mac_address: None,
        discord_id: None,
        group_id: Some(1),
        role: Role::Member,
        track: None,
        github_user: Some("oldgh".to_string()),
        created_at: 11,
        updated_at: 12,
    }
}

fn no_update() -> UpdateMemberInput {
    UpdateMemberInput {
        roll_no: None,
        name: None,
        email: None,
        sex: None,
        year: None,
        hostel: None,
        mac_address: None,
        discord_id: None,
        group_id: None,
        track: None,
        github_user: None,
    }
}

#[test]
fn apply_update_keeps_absent_fields_and_replaces_present_ones() {
    let m = base_member();
    let mut input = no_update();
    input.name = Some("new name".to_string());
    input.year = Some(3);
    input.track = Some("systems".to_string());
    let r = m.apply_update(input);

    assert_eq!(r.member_id, 5);
    assert_eq!(r.name, "new name");
    assert_eq!(r.year, Some(3));
    assert_eq!(r.track.as_deref(), Some("systems"));
    // Untouched fields keep their values.
    assert_eq!(r.email, "old@example.org");
    assert_eq!(r.roll_no.as_deref(), Some("AM1"));
    assert_eq!(r.github_user.as_deref(), Some("oldgh"));
    assert!(matches!(r.role, Role::Member));

    let unchanged = base_member().apply_update(no_update());
    assert_eq!(unchanged.name, "old name");
    assert_eq!(unchanged.year, Some(2));
}

#[test]
fn directory_lookups() {
    let mut dir = MemberDirectory::new();
    dir.add_member(base_member());
    assert_eq!(dir.find_by_id(5).expect("present").name, "old name");
    assert!(dir.find_by_id(6).is_none());
    assert_eq!(dir.find_by_github("oldgh").expect("present").member_id, 5);
    assert!(dir.find_by_github("nobody").is_none());
}

#[test]
fn callback_returns_the_member_already_linked() {
    let mut dir = MemberDirectory::new();
    dir.add_member(base_member());
    let user = GitHubUser {
        github_id: 99,
        github_username: "oldgh".to_string(),
        name: "ignored".to_string(),
        email: "ignored@example.org".to_string(),
    };
    let m = AuthService::handle_github_callback(&mut dir, Ok(user), 777).expect("flow succeeded");
    assert_eq!(m.member_id, 5);
    assert_eq!(m.name, "old name");
}

#[test]
fn callback_provisions_a_new_member_with_default_role() {
    let mut dir = MemberDirectory::new();
    dir.add_member(base_member());
    let user = GitHubUser {
        github_id: 99,
        github_username: "newgh".to_string(),
        name: "New Person".to_string(),
        email: "new@example.org".to_string(),
    };
    let m = AuthService::handle_github_callback(&mut dir, Ok(user), 777).expect("flow succeeded");
    assert_eq!(m.member_id, 6);
    assert_eq!(m.name, "New Person");
    assert_eq!(m.email, "new@example.org");
    assert_eq!(m.github_user.as_deref(), Some("newgh"));
    assert!(matches!(m.role, Role::Member));
    assert_eq!(m.created_at, 777);
    assert_eq!(dir.find_by_github("newgh").expect("enrolled").member_id, 6);
}

#[test]
fn callback_propagates_a_failed_flow_untouched() {
    let mut dir = MemberDirectory::new();
    let outcome = Err(OAuthError::NotOrgMember { org: "amfoss".to_string() });
    let e = AuthService::handle_github_callback(&mut dir, outcome, 777).unwrap_err();
    assert!(matches!(e, OAuthError::NotOrgMember { .. }));
    assert!(dir.find_by_id(1).is_none());
}

#[test]
fn decimal_rendering_is_exact() {
    assert_eq!(u64_to_decimal(0), "0");
    assert_eq!(u64_to_decimal(7), "7");
    assert_eq!(u64_to_decimal(10), "10");
    assert_eq!(u64_to_decimal(42), "42");
    assert_eq!(u64_to_decimal(1009), "1009");
    assert_eq!(u64_to_decimal(u64::MAX), "18446744073709551615");
}

#[test]
fn login_issues_a_validating_session_for_the_member() {
    let mut dir = MemberDirectory::new();
    let mut sessions = SessionService::new();
    let user = GitHubUser {
        github_id: 1,
        github_username: "fresh".to_string(),
        name: "Fresh".to_string(),
        email: "fresh@example.org".to_string(),
    };
    let now = 9_000;
    let auth = AuthService::login(&mut dir, &mut sessions, Ok(user), now).expect("flow succeeded");
    assert_eq!(auth.member.member_id, 1);
    let resolved = sessions
        .validate_session(&dir, &auth.session_token, now)
        .expect("issued session validates");
    assert_eq!(resolved.member_id, auth.member.member_id);
}

#[test]
fn failed_login_creates_no_session_and_no_member() {
    let mut dir = MemberDirectory::new();
    let mut sessions = SessionService::new();
    let outcome = Err(OAuthError::MembershipIndeterminate { status: 500 });
    assert!(AuthService::login(&mut dir, &mut sessions, outcome, 9_000).is_err());
    assert!(dir.find_by_id(1).is_none());
    // Nothing was issued: cleaning up at any time removes nothing.
    assert_eq!(sessions.cleanup_expired_sessions(u64::MAX - 1), 0);
}
