use root_auth::auth::oauth::{
    classify_org_status, ConfigError, EmailEntry, FlowEvent, FlowState, GitHubOAuthConfig,
    GitHubOAuthService, GitHubProfile, OAuthError, OrgMembership, PendingLogins,
};

fn config() -> GitHubOAuthConfig {
    GitHubOAuthConfig::from_values(
        Some("id".to_string()),
        Some("secret".to_string()),
        Some("https://example.org/cb".to_string()),
        None,
    )
    .expect("complete values")
}

fn profile(email: Option<&str>) -> GitHubProfile {
    GitHubProfile {
        id: 77,
        login: "octocat".to_string(),
        name: Some("Octo Cat".to_string()),
        email: email.map(|e| e.to_string()),
    }
}

#[test]
fn config_reports_the_first_missing_value() {
    let e = GitHubOAuthConfig::from_values(None, None, None, None).unwrap_err();
    assert!(matches!(e, ConfigError::MissingClientId));
    assert_eq!(e.message(), "GITHUB_CLIENT_ID not set");

    let e = GitHubOAuthConfig::from_values(Some("id".to_string()), None, None, None).unwrap_err();
    assert!(matches!(e, ConfigError::MissingClientSecret));
    assert_eq!(e.message(), "GITHUB_CLIENT_SECRET not set");

    let e = GitHubOAuthConfig::from_values(
        Some("id".to_string()),
        Some("secret".to_string()),
        None,
        None,
    )
    .unwrap_err();
    assert!(matches!(e, ConfigError::MissingRedirectUrl));
    assert_eq!(e.message(), "GITHUB_REDIRECT_URL not set");
}

#[test]
fn org_name_defaults_when_absent() {
    let c = config();
    assert_eq!(c.org_name, "amfoss");
    let c2 = GitHubOAuthConfig::from_values(
        Some("id".to_string()),
        Some("secret".to_string()),
        Some("https://example.org/cb".to_string()),
        Some("some-org".to_string()),
    )
    .expect("complete values");
    assert_eq!(c2.org_name, "some-org");
}

#[test]
fn authorization_request_names_three_scopes_and_a_state_token() {
    let service = GitHubOAuthService::new(config());
    let req = service.authorization_request();
    assert_eq!(req.scopes, vec!["read:user", "user:email", "read:org"]);
    assert_eq!(req.state.len(), 32);
    assert!(req.state.chars().all(|c| c.is_ascii_alphanumeric()));
}

#[test]
fn happy_path_completes_with_profile_email() {
    let service = GitHubOAuthService::new(config());
    let s = service.start_flow("one-time-code".to_string());
    let s = service.step(s, FlowEvent::TokenResult { outcome: Ok("tok".to_string()) });
    assert!(matches!(&s, FlowState::AwaitingProfile { access_token } if access_token == "tok"));
    let s = service.step(
        s,
        FlowEvent::ProfileResult { outcome: Ok(profile(Some("octo@example.org"))) },
    );
    assert!(matches!(&s, FlowState::AwaitingOrgCheck { .. }));
    let s = service.step(s, FlowEvent::OrgStatusResult { outcome: Ok(204) });
    match s {
        FlowState::Completed { user } => {
            assert_eq!(user.github_id, 77);
            assert_eq!(user.github_username, "octocat");
            assert_eq!(user.name, "Octo Cat");
            assert_eq!(user.email, "octo@example.org");
        },
        _ => panic!("expected a completed flow"),
    }
}

#[test]
fn missing_profile_email_falls_back_to_primary_verified() {
    let service = GitHubOAuthService::new(config());
    let s = service.start_flow("c".to_string());
    let s = service.step(s, FlowEvent::TokenResult { outcome: Ok("tok".to_string()) });
    let s = service.step(s, FlowEvent::ProfileResult { outcome: Ok(profile(None)) });
    assert!(matches!(&s, FlowState::AwaitingEmails { .. }));
    let emails = vec![
        EmailEntry { email: "a@example.org".to_string(), primary: false, verified: true },
        EmailEntry { email: "b@example.org".to_string(), primary: true, verified: false },
        EmailEntry { email: "c@example.org".to_string(), primary: true, verified: true },
        EmailEntry { email: "d@example.org".to_string(), primary: true, verified: true },
    ];
    let s = service.step(s, FlowEvent::EmailsResult { outcome: Ok(emails) });
    match s {
        FlowState::AwaitingOrgCheck { user, .. } => {
            assert_eq!(user.email, "c@example.org");
            assert_eq!(user.name, "Octo Cat");
        },
        _ => panic!("expected the org check to be next"),
    }
}

#[test]
fn no_primary_verified_email_fails_the_flow() {
    let service = GitHubOAuthService::new(config());
    let s = service.start_flow("c".to_string());
    let s = service.step(s, FlowEvent::TokenResult { outcome: Ok("tok".to_string()) });
    let s = service.step(s, FlowEvent::ProfileResult { outcome: Ok(profile(None)) });
    let emails = vec![EmailEntry {
        email: "a@example.org".to_string(),
        primary: true,
        verified: false,
    }];
    let s = service.step(s, FlowEvent::EmailsResult { outcome: Ok(emails) });
    match s {
        FlowState::Failed { error } => {
            assert!(matches!(error, OAuthError::NoVerifiedPrimaryEmail));
            assert_eq!(error.message(), "No verified primary email found");
        },
        _ => panic!("expected a failed flow"),
    }
}

#[test]
fn missing_name_falls_back_to_placeholder() {
    let service = GitHubOAuthService::new(config());
    let s = service.start_flow("c".to_string());
    let s = service.step(s, FlowEvent::TokenResult { outcome: Ok("tok".to_string()) });
    let p = GitHubProfile {
        id: 5,
        login: "ghost".to_string(),
        name: None,
        email: Some("g@example.org".to_string()),
    };
    let s = service.step(s, FlowEvent::ProfileResult { outcome: Ok(p) });
    match s {
        FlowState::AwaitingOrgCheck { user, .. } => assert_eq!(user.name, "Unknown"),
        _ => panic!("expected the org check to be next"),
    }
}

#[test]
fn non_member_fails_with_the_organization_named() {
    let service = GitHubOAuthService::new(config());
    let s = service.start_flow("c".to_string());
    let s = service.step(s, FlowEvent::TokenResult { outcome: Ok("tok".to_string()) });
    let s = service.step(
        s,
        FlowEvent::ProfileResult { outcome: Ok(profile(Some("octo@example.org"))) },
    );
    let s = service.step(s, FlowEvent::OrgStatusResult { outcome: Ok(404) });
    match s {
        FlowState::Failed { error } => {
            assert!(matches!(&error, OAuthError::NotOrgMember { org } if org == "amfoss"));
            assert_eq!(error.message(), "User is not a member of the amfoss organization");
        },
        _ => panic!("expected a failed flow"),
    }
}

#[test]
fn indeterminate_status_fails_distinctly_from_not_a_member() {
    let service = GitHubOAuthService::new(config());
    let s = service.start_flow("c".to_string());
    let s = service.step(s, FlowEvent::TokenResult { outcome: Ok("tok".to_string()) });
    let s = service.step(
        s,
        FlowEvent::ProfileResult { outcome: Ok(profile(Some("octo@example.org"))) },
    );
    let s = service.step(s, FlowEvent::OrgStatusResult { outcome: Ok(302) });
    match s {
        FlowState::Failed { error } => {
            assert!(matches!(&error, OAuthError::MembershipIndeterminate { status: 302 }));
            assert!(!matches!(&error, OAuthError::NotOrgMember { .. }));
            assert_eq!(error.message(), "Could not determine org membership: status 302");
        },
        _ => panic!("expected a failed flow"),
    }
}

#[test]
fn rejected_exchange_fails_the_whole_flow() {
    let service = GitHubOAuthService::new(config());
    let s = service.start_flow("expired-code".to_string());
    let s = service.step(
        s,
        FlowEvent::TokenResult { outcome: Err("invalid_grant".to_string()) },
    );
    match s {
        FlowState::Failed { error } => {
            assert_eq!(error.message(), "Failed to exchange code: invalid_grant");
        },
        _ => panic!("expected a failed flow"),
    }
}

#[test]
fn org_status_classification() {
    assert!(matches!(classify_org_status(204), OrgMembership::Member));
    assert!(matches!(classify_org_status(404), OrgMembership::NotMember));
    assert!(matches!(classify_org_status(302), OrgMembership::Indeterminate));
    assert!(matches!(classify_org_status(500), OrgMembership::Indeterminate));
    assert!(matches!(classify_org_status(200), OrgMembership::Indeterminate));
}

#[test]
fn anti_forgery_token_is_one_time_and_must_match() {
    let mut pending = PendingLogins::new();
    let service = GitHubOAuthService::new(config());
    let req = service.authorization_request();
    pending.register(req.state.clone());

    // A callback with a token nobody issued is rejected.
    assert!(!pending.verify_and_consume("forged-state"));

    // The issued token is accepted once, then consumed.
    assert!(pending.verify_and_consume(&req.state));
    assert!(!pending.verify_and_consume(&req.state));
}
