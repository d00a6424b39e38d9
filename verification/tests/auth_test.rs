use backend::auth::{
    check_creator_exists, registration_outcome, login_verdict, check_login, check_refresh_session, github_display_name, logout_token,
    prepare_registration, refresh_lookup_key, refresh_token_from, select_github_email,
    session_key, GitHubEmail, RegisterRequest,
};
use backend::cookies::{
    build_access_cookie, build_clear_cookie, build_refresh_cookie, cookie_samesite,
    extract_token_from_cookie, extract_token_from_header, parse_cookie_value,
    select_request_token,
};
use backend::error::AppError;
use backend::jwt::{claims_for, creator_from_claims, token_expiry, Claims};

fn register(email: &str, password: &str, name: &str) -> RegisterRequest {
    RegisterRequest {
        email: email.to_string(),
        password: password.to_string(),
        display_name: name.to_string(),
    }
}

#[test]
fn cookies_use_lax_on_localhost_and_secure_none_elsewhere() {
    assert_eq!(cookie_samesite("http://localhost:3000"), "Lax");
    assert_eq!(cookie_samesite("https://trendcart.example"), "None");
    assert_eq!(cookie_samesite(""), "None");
    assert_eq!(
        build_access_cookie("abc", "http://localhost:3000"),
        "tc_token=abc; Path=/; SameSite=Lax; Max-Age=604800"
    );
    assert_eq!(
        build_access_cookie("abc", "https://trendcart.example"),
        "tc_token=abc; Path=/; SameSite=None; Max-Age=604800; Secure"
    );
    assert_eq!(
        build_refresh_cookie("r1", "http://localhost:5173"),
        "tc_refresh=r1; Path=/; HttpOnly; SameSite=Lax; Max-Age=2592000"
    );
    assert_eq!(
        build_clear_cookie("tc_token", "https://x.example"),
        "tc_token=; Path=/; HttpOnly; SameSite=None; Max-Age=0; Secure"
    );
}

#[test]
fn parse_cookie_value_finds_named_cookie() {
    assert_eq!(parse_cookie_value("a=1; tc_refresh=xyz; b=2", "tc_refresh"), Some("xyz"));
    assert_eq!(parse_cookie_value("tc_refresh=", "tc_refresh"), Some(""));
    assert_eq!(parse_cookie_value("  tc_token=t1  ;x=y", "tc_token"), Some("t1"));
    assert_eq!(parse_cookie_value("tc_token2=t1", "tc_token"), None);
    assert_eq!(parse_cookie_value("", "tc_token"), None);
    assert_eq!(parse_cookie_value("a=1;;tc_token=v=w", "tc_token"), Some("v=w"));
}

#[test]
fn extract_token_from_cookie_reads_tc_token() {
    assert_eq!(extract_token_from_cookie(Some("x=1; tc_token = abc ")), Some("abc".to_string()));
    assert_eq!(extract_token_from_cookie(Some("tc_token=a=b")), Some("a=b".to_string()));
    assert_eq!(extract_token_from_cookie(None), None);
    // A part without '=' before the token ends the search.
    assert_eq!(extract_token_from_cookie(Some("flag; tc_token=abc")), Some("abc".to_string()));
    assert_eq!(extract_token_from_cookie(Some("theme; tc_token=abc.def.ghi")), Some("abc.def.ghi".to_string()));
    assert_eq!(extract_token_from_cookie(Some("theme; other=1")), None);
    assert_eq!(extract_token_from_cookie(Some("tc_token=abc; flag")), Some("abc".to_string()));
    assert_eq!(extract_token_from_cookie(Some("")), None);
}

#[test]
fn auth_creator_extracts_uuid_from_valid_bearer_token() {
    let id: u128 = 0x0123_4567_89ab_cdef_0123_4567_89ab_cdef;
    let claims = claims_for(id, 1_700_000_000);
    let token = select_request_token(None, Some("Bearer sometoken"));
    assert_eq!(token, Some("sometoken".to_string()));
    assert_eq!(creator_from_claims(Some(&claims)).ok(), Some(id));
    assert_eq!(claims.sub, "01234567-89ab-cdef-0123-456789abcdef");
}

#[test]
fn auth_creator_rejects_missing_authorization_header() {
    assert_eq!(select_request_token(None, None), None);
    assert!(matches!(creator_from_claims(None), Err(AppError::Unauthorized)));
}

#[test]
fn auth_creator_rejects_malformed_header_without_bearer_prefix() {
    assert_eq!(extract_token_from_header(Some("Token abc123")), None);
    assert_eq!(select_request_token(None, Some("Token abc123")), None);
    assert_eq!(extract_token_from_header(Some("bearer abc")), None);
}

#[test]
fn auth_creator_rejects_expired_or_invalid_token() {
    let bad = Claims { sub: "not-a-uuid".to_string(), exp: 0 };
    assert!(matches!(creator_from_claims(Some(&bad)), Err(AppError::Unauthorized)));
    assert!(matches!(creator_from_claims(None), Err(AppError::Unauthorized)));
}

#[test]
fn cookie_token_takes_precedence_over_bearer_header() {
    assert_eq!(
        select_request_token(Some("tc_token=fromcookie"), Some("Bearer fromheader")),
        Some("fromcookie".to_string())
    );
    assert_eq!(
        select_request_token(Some("other=1"), Some("Bearer fromheader")),
        Some("fromheader".to_string())
    );
}

#[test]
fn token_expiry_is_seven_days_later() {
    assert_eq!(token_expiry(1_700_000_000), 1_700_604_800);
    assert_eq!(claims_for(1, 0).exp, 604_800);
}

#[test]
fn register_rejects_short_password_with_400() {
    let err = register("shortpw@trendcart.test", "short", "Short Password").validate().unwrap_err();
    assert_eq!(err.status_code(), 400);
    assert_eq!(err.code(), "VALIDATION_ERROR");
    assert_eq!(err.message(), "Password must be at least 8 characters");
}

#[test]
fn registration_rules_are_checked_in_order() {
    let e = register("   ", "x", "").validate().unwrap_err();
    assert_eq!(e.message(), "A valid email is required");
    let e = register("no-at-sign", "password123", "A").validate().unwrap_err();
    assert_eq!(e.message(), "A valid email is required");
    let e = register("a@b", "password123", "  ").validate().unwrap_err();
    assert_eq!(e.message(), "display_name is required and must be 1-100 chars");
    let e = register("a@b", "password123", &"n".repeat(101)).validate().unwrap_err();
    assert_eq!(e.message(), "display_name is required and must be 1-100 chars");
    assert!(register("a@b", "password123", &"n".repeat(100)).validate().is_ok());
    // Length is counted in bytes: four 2-byte characters make 8 bytes.
    assert!(register("a@b", "éééé", "Name").validate().is_ok());
}

#[test]
fn registered_password_logs_in_and_wrong_password_is_rejected() {
    let hash = prepare_registration(&register("login@trendcart.test", "password123", "Login Test"))
        .expect("registration should succeed");
    assert!(check_login(true, Some(&hash), "password123").is_ok());
    assert!(matches!(
        check_login(true, Some(&hash), "totally_wrong_password"),
        Err(AppError::Unauthorized)
    ));
}

#[test]
fn login_rejects_unknown_email_with_401() {
    assert!(matches!(check_login(false, None, "password123"), Err(AppError::Unauthorized)));
    assert!(matches!(check_login(true, None, "password123"), Err(AppError::Unauthorized)));
    assert!(matches!(check_login(true, Some("not a hash"), "password123"), Err(AppError::Internal(_))));
}

#[test]
fn session_keys_are_namespaced() {
    assert_eq!(session_key("u1"), "session:refresh:u1");
    assert_eq!(refresh_lookup_key("tok"), "session:rt:tok");
}

#[test]
fn refresh_token_comes_from_body_then_cookie() {
    assert_eq!(refresh_token_from(Some("body".to_string()), Some("tc_refresh=c")).ok(), Some("body".to_string()));
    assert_eq!(refresh_token_from(None, Some("a=1; tc_refresh=c")).ok(), Some("c".to_string()));
    assert!(matches!(refresh_token_from(None, None), Err(AppError::Unauthorized)));
    assert!(matches!(refresh_token_from(None, Some("a=1")), Err(AppError::Unauthorized)));
}

#[test]
fn refresh_session_must_hold_the_presented_token() {
    let owner = "01234567-89ab-cdef-0123-456789abcdef";
    let id: u128 = 0x0123_4567_89ab_cdef_0123_4567_89ab_cdef;
    assert_eq!(check_refresh_session(Some(owner), Some("t1"), "t1").ok(), Some(id));
    assert!(matches!(check_refresh_session(Some(owner), Some("t2"), "t1"), Err(AppError::Unauthorized)));
    assert!(matches!(check_refresh_session(Some(owner), None, "t1"), Err(AppError::Unauthorized)));
    assert!(matches!(check_refresh_session(None, Some("t1"), "t1"), Err(AppError::Unauthorized)));
    let e = check_refresh_session(Some("garbage"), Some("t1"), "t1").unwrap_err();
    assert_eq!(e.message(), "Invalid user id in session");
    assert_eq!(e.status_code(), 500);
}

#[test]
fn logout_reads_access_cookie() {
    assert_eq!(logout_token(Some("tc_token=abc; tc_refresh=def")), Some("abc"));
    assert_eq!(logout_token(None), None);
}

#[test]
fn creator_lookup_must_answer() {
    assert!(check_creator_exists(Some(true)).is_ok());
    assert!(check_creator_exists(Some(false)).is_ok());
    assert!(matches!(check_creator_exists(None), Err(AppError::Unauthorized)));
}

#[test]
fn github_email_prefers_profile_then_first_primary_verified() {
    let entries = vec![
        GitHubEmail { primary: false, verified: true, email: Some("a@x".to_string()) },
        GitHubEmail { primary: true, verified: true, email: Some("b@x".to_string()) },
        GitHubEmail { primary: true, verified: true, email: Some("c@x".to_string()) },
    ];
    assert_eq!(select_github_email(Some("p@x".to_string()), &entries).ok(), Some("p@x".to_string()));
    assert_eq!(select_github_email(None, &entries).ok(), Some("b@x".to_string()));
    let none = vec![GitHubEmail { primary: true, verified: false, email: Some("a@x".to_string()) }];
    let e = select_github_email(None, &none).unwrap_err();
    assert_eq!(e.message(), "No verified email found on GitHub");
    let not_string = vec![
        GitHubEmail { primary: true, verified: true, email: None },
        GitHubEmail { primary: true, verified: true, email: Some("late@x".to_string()) },
    ];
    assert!(select_github_email(None, &not_string).is_err());
    assert_eq!(github_display_name(None, "octocat".to_string()), "octocat");
    assert_eq!(github_display_name(Some("Mona".to_string()), "octocat".to_string()), "Mona");
}

#[test]
fn duplicate_email_registration_is_a_conflict() {
    assert_eq!(registration_outcome(Some(5)).ok(), Some(5));
    let e = registration_outcome::<u8>(None).unwrap_err();
    assert_eq!(e.status_code(), 409);
    assert_eq!(e.message(), "Email already registered");
}

#[test]
fn login_verdict_follows_the_password_check() {
    assert!(login_verdict(Ok(true)).is_ok());
    assert!(matches!(login_verdict(Ok(false)), Err(AppError::Unauthorized)));
    let e = login_verdict(Err("invalid hash".to_string())).unwrap_err();
    assert_eq!(e.status_code(), 500);
    assert!(matches!(e, AppError::Internal(ref m) if m == "invalid hash"));
}

#[test]
fn built_session_cookies_read_back_by_name() {
    for origin in ["http://localhost:3000", "https://trendcart.example", ""] {
        let access = build_access_cookie("eyJ.abc.def", origin);
        assert_eq!(parse_cookie_value(&access, "tc_token"), Some("eyJ.abc.def"));
        let refresh = build_refresh_cookie("r-123", origin);
        assert_eq!(parse_cookie_value(&refresh, "tc_refresh"), Some("r-123"));
        assert_eq!(parse_cookie_value(&build_clear_cookie("tc_token", origin), "tc_token"), Some(""));
        assert_eq!(parse_cookie_value(&build_clear_cookie("tc_refresh", origin), "tc_refresh"), Some(""));
    }
}
