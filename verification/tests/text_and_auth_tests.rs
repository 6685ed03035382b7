use boxing_gym_backend::auth::{
    build_claims, check_can_cancel_booking, hashed_password_outcome, issue_claims, login_outcome, check_can_update_member, check_can_view_booking,
    check_can_view_member, check_can_view_member_bookings, extract_token_from_header, hash_new_password,
    require_admin, require_instructor_or_admin, token_from_auth_header, user_from_claims,
    verify_login_password, AuthenticatedUser, Claims,
};
use boxing_gym_backend::error::AppError;
use boxing_gym_backend::models::blog::{generate_slug, read_tags};
use boxing_gym_backend::models::member::MemberRole;
use boxing_gym_backend::text::{i32_to_string, join_strings, split_trimmed};

fn user(id: &str, role: MemberRole) -> AuthenticatedUser {
    AuthenticatedUser { id: id.to_string(), email: format!("{}@example.com", id), role }
}

#[test]
fn slugs_from_titles() {
    assert_eq!(generate_slug("Boxing Training Tips"), "boxing-training-tips");
    assert_eq!(generate_slug("My Amazing Blog Post"), "my-amazing-blog-post");
    assert_eq!(generate_slug("  Hello,  World!! "), "hello-world");
    assert_eq!(generate_slug("--A--B--"), "a-b");
    assert_eq!(generate_slug("!!!"), "");
    assert_eq!(generate_slug(""), "");
    assert_eq!(generate_slug("Top 10 Drills"), "top-10-drills");
    assert_eq!(generate_slug("Café Olé"), "café-olé");
}

#[test]
fn slugs_are_well_formed() {
    for title in ["a", "-a-", "a--b", "Round 1: Jab & Cross", "   ", "x_y"] {
        let s = generate_slug(title);
        assert!(!s.starts_with('-') && !s.ends_with('-'));
        assert!(!s.contains("--"));
    }
}

#[test]
fn tags_split_and_trimmed() {
    assert_eq!(split_trimmed("boxing, tips ,training", ','), vec!["boxing", "tips", "training"]);
    assert_eq!(split_trimmed("", ','), vec![""]);
    assert_eq!(split_trimmed("a,,b,", ','), vec!["a", "", "b", ""]);
    assert_eq!(split_trimmed(" \t x \n", ','), vec!["x"]);
    assert_eq!(read_tags(&None), Vec::<String>::new());
    assert_eq!(read_tags(&Some("boxing,tips".to_string())), vec!["boxing", "tips"]);
}

#[test]
fn tags_written_are_read_back() {
    let tags = vec!["boxing".to_string(), "tips".to_string(), "training".to_string()];
    let stored = join_strings(&tags, ",");
    assert_eq!(stored, "boxing,tips,training");
    assert_eq!(read_tags(&Some(stored)), tags);
}

#[test]
fn decimal_numbers() {
    assert_eq!(i32_to_string(0), "0");
    assert_eq!(i32_to_string(7), "7");
    assert_eq!(i32_to_string(42), "42");
    assert_eq!(i32_to_string(-305), "-305");
    assert_eq!(i32_to_string(i32::MAX), "2147483647");
    assert_eq!(i32_to_string(i32::MIN), "-2147483648");
}

#[test]
fn bearer_tokens() {
    assert_eq!(extract_token_from_header("Bearer abc.def"), Some("abc.def"));
    assert_eq!(extract_token_from_header("Bearer "), Some(""));
    assert_eq!(extract_token_from_header("bearer abc"), None);
    assert_eq!(extract_token_from_header("Basic abc"), None);
    assert_eq!(extract_token_from_header("Bear"), None);
    assert_eq!(token_from_auth_header(Some("Bearer t0k")).unwrap(), "t0k");
    match token_from_auth_header(None) {
        Err(AppError::AuthenticationError(m)) => assert_eq!(m, "Missing authorization header"),
        other => panic!("unexpected {:?}", other),
    }
    match token_from_auth_header(Some("Token x")) {
        Err(AppError::AuthenticationError(m)) => assert_eq!(m, "Invalid authorization header format"),
        other => panic!("unexpected {:?}", other),
    }
}

#[test]
fn claims_and_callers() {
    let c = build_claims("m1", "m1@example.com", &MemberRole::Instructor, 100, 3700);
    assert_eq!(c.sub, "m1");
    assert_eq!(c.role, "instructor");
    assert_eq!((c.iat, c.exp), (100, 3700));
    let u = user_from_claims(Claims { sub: "m2".to_string(), email: "e".to_string(), role: "ADMIN".to_string(), exp: 1, iat: 0 });
    assert_eq!(u.id, "m2");
    assert_eq!(u.role, MemberRole::Admin);
}

#[test]
fn role_requirements() {
    assert!(require_admin(&user("a", MemberRole::Admin)).is_ok());
    match require_admin(&user("i", MemberRole::Instructor)) {
        Err(AppError::AuthorizationError(m)) => assert_eq!(m, "Admin access required"),
        other => panic!("unexpected {:?}", other),
    }
    assert!(require_instructor_or_admin(&user("i", MemberRole::Instructor)).is_ok());
    assert!(require_instructor_or_admin(&user("a", MemberRole::Admin)).is_ok());
    match require_instructor_or_admin(&user("m", MemberRole::Member)) {
        Err(AppError::AuthorizationError(m)) => assert_eq!(m, "Instructor or admin access required"),
        other => panic!("unexpected {:?}", other),
    }
}

#[test]
fn access_to_accounts_and_bookings() {
    let me = user("m1", MemberRole::Member);
    let admin = user("a1", MemberRole::Admin);
    let coach = user("c1", MemberRole::Instructor);
    assert!(check_can_view_member(&me, "m1").is_ok());
    assert!(check_can_view_member(&admin, "m1").is_ok());
    assert!(matches!(check_can_view_member(&coach, "m1"), Err(AppError::AuthorizationError(_))));
    assert!(check_can_update_member(&me, "m1", false).is_ok());
    match check_can_update_member(&me, "m1", true) {
        Err(AppError::AuthorizationError(m)) => assert_eq!(m, "Only admins can change member status"),
        other => panic!("unexpected {:?}", other),
    }
    match check_can_update_member(&me, "m2", false) {
        Err(AppError::AuthorizationError(m)) => assert_eq!(m, "Not authorized to update this member"),
        other => panic!("unexpected {:?}", other),
    }
    assert!(check_can_update_member(&admin, "m2", true).is_ok());
    assert!(check_can_view_member_bookings(&me, "m1").is_ok());
    assert!(check_can_view_member_bookings(&me, "m2").is_err());
    assert!(check_can_view_booking(&coach, "m1").is_ok());
    assert!(check_can_view_booking(&me, "m2").is_err());
    assert!(check_can_cancel_booking(&me, "m1").is_ok());
    match check_can_cancel_booking(&coach, "m1") {
        Err(AppError::AuthorizationError(m)) => assert_eq!(m, "Not authorized to cancel this booking"),
        other => panic!("unexpected {:?}", other),
    }
}

#[test]
fn registered_password_signs_in() {
    let hash = hash_new_password("password123").unwrap();
    assert!(verify_login_password("password123", &hash).is_ok());
    match verify_login_password("wrongpassword", &hash) {
        Err(AppError::AuthenticationError(m)) => assert_eq!(m, "Invalid credentials"),
        other => panic!("unexpected {:?}", other),
    }
    assert!(matches!(verify_login_password("password123", "not-a-hash"), Err(AppError::InternalError(_))));
}

#[test]
fn issued_tokens_last_the_configured_hours() {
    let c = issue_claims("m1", "m1@example.com", &MemberRole::Member, 24);
    assert_eq!(c.exp - c.iat, 24 * 3600);
    assert_eq!((c.sub.as_str(), c.email.as_str(), c.role.as_str()), ("m1", "m1@example.com", "member"));
    assert!(c.iat > 1_600_000_000);
    let short = issue_claims("m2", "e", &MemberRole::Admin, 0);
    assert_eq!(short.exp, short.iat);
    assert_eq!(short.role, "admin");
}

#[test]
fn token_names_its_member() {
    for role in [MemberRole::Member, MemberRole::Instructor, MemberRole::Admin] {
        let c = issue_claims("m9", "m9@example.com", &role, 1);
        let u = user_from_claims(c);
        assert_eq!(u.id, "m9");
        assert_eq!(u.email, "m9@example.com");
        assert_eq!(u.role, role);
    }
}

#[test]
fn password_outcomes() {
    assert_eq!(hashed_password_outcome(Ok("$2b$12$abc".to_string())).unwrap(), "$2b$12$abc");
    match hashed_password_outcome(Err(bcrypt::BcryptError::CostNotAllowed(2))) {
        Err(AppError::InternalError(m)) => assert!(m.contains("Cost")),
        other => panic!("unexpected {:?}", other),
    }
    assert!(login_outcome(Ok(true)).is_ok());
    match login_outcome(Ok(false)) {
        Err(AppError::AuthenticationError(m)) => assert_eq!(m, "Invalid credentials"),
        other => panic!("unexpected {:?}", other),
    }
    match login_outcome(Err(bcrypt::BcryptError::InvalidHash("x".to_string()))) {
        Err(AppError::InternalError(m)) => assert!(m.contains("Invalid hash")),
        other => panic!("unexpected {:?}", other),
    }
}
