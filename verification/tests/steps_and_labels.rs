use rst02_users_crud_auth::flows::{
    login_user, login_verdict, register_store, update_store, update_user, Action, Event, Stage,
};
use rst02_users_crud_auth::model::{User, UserLogin, UserRegister, UserUpdate};
use rst02_users_crud_auth::password::hashing_outcome;
use rst02_users_crud_auth::replies::{
    check_email, check_username, delete_user, get_all_users, get_user, validate_error_response,
};
use rst02_users_crud_auth::response::{message, ApiResponse, Body, StatusCode};

fn label(r: &ApiResponse) -> Option<String> {
    match &r.body {
        Body::Message { status, .. } => status.clone(),
        Body::Validation { status, .. } => Some(status.clone()),
        Body::UserList { status, .. } => Some(status.clone()),
        Body::SingleUser { status, .. } => Some(status.clone()),
    }
}

fn well_labelled(r: &ApiResponse) -> bool {
    let code = r.status.as_u16();
    match label(r) {
        None => true,
        Some(l) => {
            if (200..300).contains(&code) {
                l == "success"
            } else {
                l == "failed"
            }
        }
    }
}

fn user(name: &str) -> User {
    User { username: name.to_string(), email: "e@x.com".to_string(), password: "h".to_string() }
}

#[test]
fn register_store_outcomes() {
    let p = UserRegister {
        username: "carol1".to_string(),
        email: "c@x.com".to_string(),
        password: "secret123".to_string(),
    };
    match register_store(&p, Ok("HASH".to_string())) {
        (Stage::Store, Action::InsertUser { username, email, password_hash }) => {
            assert_eq!(username, "carol1");
            assert_eq!(email, "c@x.com");
            assert_eq!(password_hash, "HASH");
        }
        other => panic!("unexpected {:?}", other),
    }
    let failed = hashing_outcome(Err("bad".to_string()));
    assert!(matches!(register_store(&p, failed), (Stage::Finished, Action::Abort)));
}

#[test]
fn update_store_outcomes() {
    let p = UserUpdate {
        username: "carol2".to_string(),
        email: "c@x.com".to_string(),
        password: "secret123".to_string(),
    };
    match update_store("carol1", &p, Ok("HASH".to_string())) {
        (Stage::Store, Action::UpdateUser { current, username, email, password_hash }) => {
            assert_eq!(current, "carol1");
            assert_eq!(username, "carol2");
            assert_eq!(email, "c@x.com");
            assert_eq!(password_hash, "HASH");
        }
        other => panic!("unexpected {:?}", other),
    }
    let failed = hashing_outcome(Err("bad".to_string()));
    assert!(matches!(update_store("carol1", &p, failed), (Stage::Finished, Action::Abort)));
}

#[test]
fn login_verdict_outcomes() {
    assert!(matches!(login_verdict(None), (Stage::Finished, Action::Abort)));
    match login_verdict(Some(Ok(true))) {
        (Stage::Finished, Action::Reply(r)) => assert_eq!(r.status.as_u16(), 200),
        other => panic!("unexpected {:?}", other),
    }
    match login_verdict(Some(Ok(false))) {
        (Stage::Finished, Action::Reply(r)) => assert_eq!(r.status.as_u16(), 401),
        other => panic!("unexpected {:?}", other),
    }
    let err = message(StatusCode::InternalServerError, Some("failed".to_string()), "x".to_string(), None);
    match login_verdict(Some(Err(err))) {
        (Stage::Finished, Action::Reply(r)) => assert_eq!(r.status.as_u16(), 500),
        other => panic!("unexpected {:?}", other),
    }
}

#[test]
fn updated_password_logs_in() {
    let p = UserUpdate {
        username: "dave01".to_string(),
        email: "d@x.com".to_string(),
        password: "brandnew99".to_string(),
    };
    let (_, a) = update_user("dave01", &p, Stage::CheckEmail, Event::EmailRows(Ok(vec![])));
    let h = match a {
        Action::UpdateUser { password_hash, .. } => password_hash,
        other => panic!("unexpected {:?}", other),
    };
    let l = UserLogin { username: "dave01".to_string(), password: "brandnew99".to_string() };
    match login_user(&l, Stage::CheckPassword, Event::StoredPassword(Ok(h))) {
        (Stage::Finished, Action::Reply(r)) => assert_eq!(r.status.as_u16(), 200),
        other => panic!("unexpected {:?}", other),
    }
}

#[test]
fn every_reply_is_well_labelled() {
    let mut replies: Vec<ApiResponse> = Vec::new();
    replies.push(check_username("u1234", Ok(1)).unwrap());
    replies.push(check_username("u1234", Err("e".to_string())).unwrap());
    replies.push(check_email("e@x.com", "u1234", Ok(vec![user("v1234")])).unwrap());
    replies.push(check_email("e@x.com", "u1234", Err("e".to_string())).unwrap());
    replies.push(get_user("u1234", Ok(Some(user("u1234")))));
    replies.push(get_user("u1234", Ok(None)));
    replies.push(get_user("u1234", Err("e".to_string())));
    replies.push(get_all_users(Ok(vec![user("u1234")])));
    replies.push(get_all_users(Err("e".to_string())));
    replies.push(delete_user("u1234", Ok(1)));
    replies.push(delete_user("u1234", Ok(0)));
    replies.push(delete_user("u1234", Err("e".to_string())));
    let bad = UserRegister { username: "x".to_string(), email: "y".to_string(), password: "z".to_string() };
    replies.push(validate_error_response(&bad.validate().unwrap_err()));
    if let Err(e) = hashing_outcome(Err("e".to_string())) {
        replies.push(e);
    }
    for v in [Some(Ok(true)), Some(Ok(false))] {
        if let (_, Action::Reply(r)) = login_verdict(v) {
            replies.push(r);
        }
    }
    assert_eq!(replies.len(), 16);
    for r in &replies {
        assert!(well_labelled(r), "{:?}", r);
    }
}
