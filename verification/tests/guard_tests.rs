use root_auth::auth::guards::{AdminGuard, AdminOrBotGuard, AuthGuard, AuthzError};
use root_auth::auth::AuthContext;
use root_auth::models::auth::Role;
use root_auth::models::member::Member;

fn principal(role: Role) -> AuthContext {
    AuthContext::new(Some(Member {
        member_id: 10,
        roll_no: None,
        name: "p".to_string(),
        email: "p@example.org".to_string(),
        sex: None,
        year: None,
        hostel: None,
        mac_address: None,
        discord_id: None,
        group_id: None,
        role,
        track: None,
        github_user: None,
        created_at: 0,
        updated_at: 0,
    }))
}

fn anonymous() -> AuthContext {
    AuthContext::new(None)
}

#[test]
fn auth_guard_passes_for_any_member_and_fails_anonymous() {
    assert!(AuthGuard.check(&principal(Role::Member)).is_ok());
    assert!(AuthGuard.check(&principal(Role::Admin)).is_ok());
    assert!(AuthGuard.check(&principal(Role::Bot)).is_ok());
    let err = AuthGuard.check(&anonymous()).unwrap_err();
    assert_eq!(err.message(), "Authentication required to access this resource.");
}

#[test]
fn admin_guard_passes_only_for_admin() {
    assert!(AdminGuard.check(&principal(Role::Admin)).is_ok());
    assert!(AdminGuard.check(&principal(Role::Member)).is_err());
    assert!(AdminGuard.check(&principal(Role::Bot)).is_err());
    assert!(AdminGuard.check(&anonymous()).is_err());
    let err = AdminGuard.check(&principal(Role::Bot)).unwrap_err();
    assert_eq!(err.message(), "Admin privileges required for this operation");
}

#[test]
fn admin_or_bot_guard_composition() {
    assert!(AdminOrBotGuard.check(&principal(Role::Admin)).is_ok());
    assert!(AdminOrBotGuard.check(&principal(Role::Bot)).is_ok());
    assert!(AdminOrBotGuard.check(&principal(Role::Member)).is_err());
    assert!(AdminOrBotGuard.check(&anonymous()).is_err());
    let err = AdminOrBotGuard.check(&anonymous()).unwrap_err();
    assert!(matches!(err, AuthzError::AdminOrBotRequired));
    assert_eq!(err.message(), "Admin or Bot privileges required for this operation");
}

#[test]
fn auth_context_accessors() {
    let ctx = principal(Role::Admin);
    assert!(ctx.is_authenticated());
    assert!(ctx.is_admin());
    assert!(!ctx.is_bot());
    assert!(ctx.has_role(Role::Admin));
    assert!(!ctx.has_role(Role::Member));
    assert!(matches!(ctx.role(), Some(Role::Admin)));
    assert_eq!(ctx.user().unwrap().member_id, 10);

    let anon = anonymous();
    assert!(!anon.is_authenticated());
    assert!(!anon.is_admin());
    assert!(!anon.is_bot());
    assert!(anon.role().is_none());
    assert!(anon.user().is_none());
}
