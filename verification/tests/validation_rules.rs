use rst02_users_crud_auth::model::{UserLogin, UserRegister, UserUpdate};
use rst02_users_crud_auth::response::{Body, FieldError, FieldReport, StatusCode};
use rst02_users_crud_auth::replies::validate_error_response;
use rst02_users_crud_auth::validation::{
    length_between, matches_username_pattern, validate_account, ValidationErrors,
};

fn register(username: &str, email: &str, password: &str) -> UserRegister {
    UserRegister {
        username: username.to_string(),
        email: email.to_string(),
        password: password.to_string(),
    }
}

fn summary(e: &ValidationErrors) -> Vec<(String, Vec<(String, String)>)> {
    e.reports
        .iter()
        .map(|r| {
            (
                r.field.clone(),
                r.errors.iter().map(|x| (x.code.clone(), x.message.clone().unwrap())).collect(),
            )
        })
        .collect()
}

const LEN_USER: &str = "fails validation - must be 3-25 characters long";
const REGEX_USER: &str = "fails validation - is not only alphanumeric/underscore characters";
const EMAIL: &str = "fails validation - is not a valid email address";
const LEN_PASS: &str = "fails validation - must be 8-75 characters long";

#[test]
fn valid_registration_passes() {
    assert!(register("alice01", "alice@example.com", "secret123").validate().is_ok());
}

#[test]
fn username_pattern_examples() {
    assert!(matches_username_pattern("abcde"));
    assert!(matches_username_pattern("A1b2C3"));
    assert!(!matches_username_pattern("abcd"));
    assert!(!matches_username_pattern("abc_de"));
    assert!(!matches_username_pattern("abcdé"));
    assert!(!matches_username_pattern(""));
}

#[test]
fn length_counts_characters() {
    assert!(length_between("ééé", 3, 3));
    assert!(!length_between("ab", 3, 25));
    assert!(length_between("abc", 3, 25));
    assert!(!length_between(&"a".repeat(26), 3, 25));
}

#[test]
fn short_username_fails_length_and_format() {
    let e = register("ab", "ab@example.com", "secret123").validate().unwrap_err();
    assert_eq!(
        summary(&e),
        vec![(
            "username".to_string(),
            vec![
                ("length".to_string(), LEN_USER.to_string()),
                ("regex".to_string(), REGEX_USER.to_string())
            ]
        )]
    );
}

#[test]
fn underscore_username_fails_format_only() {
    let e = register("abc_def", "a@example.com", "secret123").validate().unwrap_err();
    assert_eq!(
        summary(&e),
        vec![("username".to_string(), vec![("regex".to_string(), REGEX_USER.to_string())])]
    );
}

#[test]
fn four_character_username_fails_format_only() {
    let e = register("abcd", "a@example.com", "secret123").validate().unwrap_err();
    assert_eq!(
        summary(&e),
        vec![("username".to_string(), vec![("regex".to_string(), REGEX_USER.to_string())])]
    );
}

#[test]
fn long_username_fails_length_only() {
    let name = "a".repeat(26);
    let e = register(&name, "a@example.com", "secret123").validate().unwrap_err();
    assert_eq!(
        summary(&e),
        vec![("username".to_string(), vec![("length".to_string(), LEN_USER.to_string())])]
    );
}

#[test]
fn every_field_failing_is_reported_in_name_order() {
    let e = register("a_", "not-an-email", "short").validate().unwrap_err();
    assert_eq!(
        summary(&e),
        vec![
            ("email".to_string(), vec![("email".to_string(), EMAIL.to_string())]),
            ("password".to_string(), vec![("length".to_string(), LEN_PASS.to_string())]),
            (
                "username".to_string(),
                vec![
                    ("length".to_string(), LEN_USER.to_string()),
                    ("regex".to_string(), REGEX_USER.to_string())
                ]
            ),
        ]
    );
}

#[test]
fn email_rule_follows_the_email_check() {
    assert!(register("alice01", "email@here.com", "secret123").validate().is_ok());
    assert!(register("alice01", "abc@bar", "secret123").validate().is_ok());
    assert!(register("alice01", "abc", "secret123").validate().is_err());
    assert!(register("alice01", "abc@", "secret123").validate().is_err());
    assert!(register("alice01", "", "secret123").validate().is_err());
}

#[test]
fn email_verdict_given_explicitly() {
    let p = register("alice01", "whatever", "secret123");
    assert!(p.validate_given(true).is_ok());
    let e = p.validate_given(false).unwrap_err();
    assert_eq!(summary(&e), vec![("email".to_string(), vec![("email".to_string(), EMAIL.to_string())])]);
}

#[test]
fn password_length_bounds() {
    assert!(register("alice01", "a@b.com", "12345678").validate().is_ok());
    assert!(register("alice01", "a@b.com", "1234567").validate().is_err());
    assert!(register("alice01", "a@b.com", &"x".repeat(75)).validate().is_ok());
    assert!(register("alice01", "a@b.com", &"x".repeat(76)).validate().is_err());
}

#[test]
fn update_uses_the_registration_rules() {
    let u = UserUpdate {
        username: "bob12".to_string(),
        email: "bob@example.com".to_string(),
        password: "pw".to_string(),
    };
    let e = u.validate().unwrap_err();
    assert_eq!(summary(&e), vec![("password".to_string(), vec![("length".to_string(), LEN_PASS.to_string())])]);
}

#[test]
fn login_checks_username_and_password() {
    let ok = UserLogin { username: "alice01".to_string(), password: "secret123".to_string() };
    assert!(ok.validate().is_ok());
    let bad = UserLogin { username: "al".to_string(), password: "x".to_string() };
    let e = bad.validate().unwrap_err();
    assert_eq!(
        summary(&e),
        vec![
            ("password".to_string(), vec![("length".to_string(), LEN_PASS.to_string())]),
            (
                "username".to_string(),
                vec![
                    ("length".to_string(), LEN_USER.to_string()),
                    ("regex".to_string(), REGEX_USER.to_string())
                ]
            ),
        ]
    );
}

#[test]
fn validate_account_direct() {
    assert!(validate_account("alice01", true, "secret123").is_ok());
    assert!(validate_account("alice01", false, "secret123").is_err());
}

#[test]
fn validation_error_response_shape() {
    let e = register("ab", "ab@example.com", "secret123").validate().unwrap_err();
    let r = validate_error_response(&e);
    assert_eq!(r.status, StatusCode::BadRequest);
    assert_eq!(r.status.as_u16(), 400);
    match r.body {
        Body::Validation { status, msg, details } => {
            assert_eq!(status, "failed");
            assert_eq!(msg, "validation failed");
            assert_eq!(details.len(), 1);
            assert_eq!(details[0].field, "username");
            assert_eq!(details[0].errors.len(), 2);
        }
        _ => panic!("wrong body"),
    }
}

#[test]
fn messages_are_present_on_every_rule() {
    let e = register("a_", "nope", "x").validate().unwrap_err();
    for r in &e.reports {
        for x in &r.errors {
            assert!(x.message.is_some());
        }
    }
}

#[test]
fn email_without_at_sign_is_refused() {
    let u = UserUpdate {
        username: "bob12".to_string(),
        email: "bob.example.com".to_string(),
        password: "secret123".to_string(),
    };
    assert!(u.validate().is_err());
    assert!(register("bob12", "bob.example.com", "secret123").validate().is_err());
}

#[test]
fn validation_error_without_message() {
    let errors = ValidationErrors {
        reports: vec![FieldReport {
            field: "username".to_string(),
            errors: vec![FieldError { code: "length".to_string(), message: None }],
        }],
    };
    let r = validate_error_response(&errors);
    assert_eq!(r.status.as_u16(), 400);
    match r.body {
        Body::Validation { status, msg, details } => {
            assert_eq!(status, "failed");
            assert_eq!(msg, "validation failed");
            assert_eq!(details[0].field, "username");
            assert_eq!(details[0].errors[0].code, "length");
            assert!(details[0].errors[0].message.is_none());
        }
        _ => panic!("wrong body"),
    }
}
