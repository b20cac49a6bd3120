use payroll_system::auth::{authenticated_org, bearer_token, claims_for};
use payroll_system::errors::AppError;
use payroll_system::models::{Claims, Uuid};

fn unauthorized(r: Result<&str, AppError>) -> String {
    match r {
        Err(AppError::Unauthorized(m)) => m,
        other => panic!("expected a refusal, got {:?}", other),
    }
}

#[test]
fn bearer_token_follows_the_prefix() {
    assert_eq!(bearer_token(Some("Bearer abc.def.ghi")).unwrap(), "abc.def.ghi");
    assert_eq!(bearer_token(Some("Bearer ")).unwrap(), "");
    assert_eq!(bearer_token(Some("Bearer Bearer x")).unwrap(), "Bearer x");
}

#[test]
fn bearer_token_keeps_text_beyond_ascii() {
    assert_eq!(bearer_token(Some("Bearer \u{20a6}\u{e9}x")).unwrap(), "\u{20a6}\u{e9}x");
}

#[test]
fn bearer_token_without_a_header() {
    assert_eq!(unauthorized(bearer_token(None)), "Missing Authorization header");
}

#[test]
fn bearer_token_in_another_format() {
    for header in ["", "Bearer", "bearer abc", "Basic dXNlcjpwYXNz", "Bearerabc", " Bearer abc"] {
        assert_eq!(unauthorized(bearer_token(Some(header))), "Invalid Authorization format");
    }
}

#[test]
fn claims_name_the_organization() {
    let claims = Claims {
        sub: "01234567-89ab-cdef-0123-456789abcdef".to_string(),
        org_name: "Acme".to_string(),
        exp: 2,
        iat: 1,
    };
    let org = authenticated_org(claims).unwrap();
    assert_eq!(org.id, Uuid::from_u128(0x0123456789abcdef0123456789abcdef));
    assert_eq!(org.name, "Acme");
}

#[test]
fn claims_with_a_subject_that_is_no_identifier() {
    let claims =
        Claims { sub: "not-an-id".to_string(), org_name: "Acme".to_string(), exp: 2, iat: 1 };
    assert!(matches!(authenticated_org(claims), Err(AppError::InvalidToken)));
}

#[test]
fn identifiers_are_read_in_several_forms() {
    let id = Uuid::from_u128(0x0123456789abcdef0123456789abcdef);
    assert_eq!(Uuid::parse_str("01234567-89ab-cdef-0123-456789abcdef"), Some(id));
    assert_eq!(Uuid::parse_str("0123456789ABCDEF0123456789ABCDEF"), Some(id));
    assert_eq!(Uuid::parse_str(&id.to_text()), Some(id));
    assert_eq!(Uuid::parse_str("0123"), None);
    assert_eq!(Uuid::parse_str(""), None);
}

#[test]
fn claims_for_a_day() {
    let claims = claims_for(Uuid::from_u128(9), "Acme", 1_714_000_000, 24).unwrap();
    assert_eq!(claims.sub, "00000000-0000-0000-0000-000000000009");
    assert_eq!(claims.org_name, "Acme");
    assert_eq!(claims.iat, 1_714_000_000);
    assert_eq!(claims.exp, 1_714_086_400);
}

#[test]
fn claims_may_expire_at_once_or_before() {
    let claims = claims_for(Uuid::from_u128(9), "Acme", 7200, 0).unwrap();
    assert_eq!(claims.exp, 7200);
    let claims = claims_for(Uuid::from_u128(9), "Acme", 7200, -2).unwrap();
    assert_eq!(claims.exp, 0);
}

#[test]
fn claims_out_of_range_are_refused() {
    for (now, hours) in [(-1, 24), (7200, -3), (1, i64::MAX), (i64::MAX, 1), (0, i64::MIN)] {
        match claims_for(Uuid::from_u128(9), "Acme", now, hours) {
            Err(AppError::Internal(m)) => assert_eq!(m, "Token validity is out of range"),
            other => panic!("expected a refusal for {} and {}, got {:?}", now, hours, other),
        }
    }
}
