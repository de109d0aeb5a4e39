use rst02_users_crud_auth::password::{
    hash_password, hashing_outcome, try_verify_password, verify_password,
};
use rst02_users_crud_auth::response::{Body, StatusCode};

#[test]
fn hash_then_verify_round_trip() {
    let h = hash_password(b"secret123").ok().unwrap();
    assert!(h.starts_with("$argon2id$v=19$"));
    assert_eq!(verify_password(b"secret123", h.clone()).ok(), Some(true));
    assert_eq!(verify_password(b"secret124", h).ok(), Some(false));
}

#[test]
fn hashes_are_salted() {
    let a = hash_password(b"secret123").ok().unwrap();
    let b = hash_password(b"secret123").ok().unwrap();
    assert_ne!(a, b);
}

#[test]
fn unparsable_hash_has_no_verdict() {
    assert!(try_verify_password(b"secret123", "not a phc string".to_string()).is_none());
    assert!(try_verify_password(b"secret123", String::new()).is_none());
}

#[test]
fn parsable_hash_has_a_verdict() {
    let h = hash_password(b"pw-pw-pw").ok().unwrap();
    match try_verify_password(b"pw-pw-pw", h.clone()) {
        Some(Ok(b)) => assert!(b),
        _ => panic!("expected a verdict"),
    }
    match try_verify_password(b"other-pw", h) {
        Some(Ok(b)) => assert!(!b),
        _ => panic!("expected a verdict"),
    }
}

#[test]
fn hashing_outcome_maps_both_ways() {
    assert_eq!(hashing_outcome(Ok("$argon2id$x".to_string())).ok(), Some("$argon2id$x".to_string()));
    let e = match hashing_outcome(Err("salt too short".to_string())) {
        Err(e) => e,
        Ok(_) => panic!("expected an error"),
    };
    assert_eq!(e.status, StatusCode::InternalServerError);
    match e.body {
        Body::Message { status, msg, details } => {
            assert_eq!(status.as_deref(), Some("failed"));
            assert_eq!(msg, "error hashing password");
            assert_eq!(details.as_deref(), Some("salt too short"));
        }
        _ => panic!("wrong body"),
    }
}

#[test]
fn empty_password_hashes_too() {
    let h = hash_password(b"").ok().unwrap();
    assert!(h.starts_with("$argon2id$v=19$"));
    assert_eq!(verify_password(b"", h).ok(), Some(true));
}

#[test]
fn stored_form_of_a_hash() {
    let h = hash_password(b"secret123").ok().unwrap();
    assert!(h.starts_with("$argon2id$v=19$m=19456,t=2,p=1$"));
    assert!(h.len() >= 86);
    assert_ne!(h, "secret123");
}
