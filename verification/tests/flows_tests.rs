use rst02_users_crud_auth::flows::{login_user, register_user, update_user, Action, Event, Stage};
use rst02_users_crud_auth::model::{User, UserLogin, UserRegister, UserUpdate};
use rst02_users_crud_auth::password::verify_password;
use rst02_users_crud_auth::response::{ApiResponse, Body};

fn reg() -> UserRegister {
    UserRegister {
        username: "alice01".to_string(),
        email: "alice@example.com".to_string(),
        password: "secret123".to_string(),
    }
}

fn reply(a: Action) -> ApiResponse {
    match a {
        Action::Reply(r) => r,
        other => panic!("expected a reply, got {:?}", other),
    }
}

fn msg(r: &ApiResponse) -> String {
    match &r.body {
        Body::Message { msg, .. } => msg.clone(),
        Body::Validation { msg, .. } => msg.clone(),
        _ => panic!("no message"),
    }
}

fn user(name: &str, email: &str) -> User {
    User { username: name.to_string(), email: email.to_string(), password: "x".to_string() }
}

/// Runs a registration to the insert and returns the stored hash.
fn register_to_insert(p: &UserRegister) -> String {
    let (s, a) = register_user(p, Stage::Start, Event::Received);
    assert_eq!(s, Stage::CheckUsername);
    assert!(matches!(a, Action::FindUsername(ref u) if u == "alice01"));
    let (s, a) = register_user(p, s, Event::UsernameRows(Ok(0)));
    assert_eq!(s, Stage::CheckEmail);
    assert!(matches!(a, Action::FindEmail(ref e) if e == "alice@example.com"));
    let (s, a) = register_user(p, s, Event::EmailRows(Ok(vec![])));
    assert_eq!(s, Stage::Store);
    match a {
        Action::InsertUser { username, email, password_hash } => {
            assert_eq!(username, "alice01");
            assert_eq!(email, "alice@example.com");
            assert_ne!(password_hash, "secret123");
            assert!(password_hash.starts_with("$argon2id$v=19$"));
            password_hash
        }
        other => panic!("expected an insert, got {:?}", other),
    }
}

#[test]
fn registration_happy_path() {
    let p = reg();
    let h = register_to_insert(&p);
    assert_eq!(verify_password(b"secret123", h).ok(), Some(true));
    let (s, a) = register_user(&p, Stage::Store, Event::Written(Ok(1)));
    assert_eq!(s, Stage::Finished);
    let r = reply(a);
    assert_eq!(r.status.as_u16(), 201);
    assert_eq!(msg(&r), "user alice01 successfully created");
}

#[test]
fn registration_write_outcomes() {
    let p = reg();
    let r = reply(register_user(&p, Stage::Store, Event::Written(Ok(0))).1);
    assert_eq!(r.status.as_u16(), 400);
    assert_eq!(msg(&r), "user alice01 cannot created");
    let r = reply(register_user(&p, Stage::Store, Event::Written(Err("dup".to_string()))).1);
    assert_eq!(r.status.as_u16(), 500);
    assert_eq!(msg(&r), "failed create user");
}

#[test]
fn registration_refuses_invalid_payload() {
    let mut p = reg();
    p.password = "short".to_string();
    let (s, a) = register_user(&p, Stage::Start, Event::Received);
    assert_eq!(s, Stage::Finished);
    let r = reply(a);
    assert_eq!(r.status.as_u16(), 400);
    assert_eq!(msg(&r), "validation failed");
}

#[test]
fn registration_refuses_taken_username() {
    let p = reg();
    let (s, a) = register_user(&p, Stage::CheckUsername, Event::UsernameRows(Ok(1)));
    assert_eq!(s, Stage::Finished);
    let r = reply(a);
    assert_eq!(r.status.as_u16(), 409);
    assert_eq!(msg(&r), "username alice01 is already taken");
}

#[test]
fn registration_refuses_email_of_another_user() {
    let p = reg();
    let (s, a) = register_user(
        &p,
        Stage::CheckEmail,
        Event::EmailRows(Ok(vec![user("bob01", "alice@example.com")])),
    );
    assert_eq!(s, Stage::Finished);
    let r = reply(a);
    assert_eq!(r.status.as_u16(), 409);
    assert_eq!(msg(&r), "email alice@example.com is already binded to another user");
}

#[test]
fn update_with_same_username_skips_the_username_lookup() {
    let p = UserUpdate {
        username: "alice01".to_string(),
        email: "alice@example.com".to_string(),
        password: "newsecret1".to_string(),
    };
    let (s, a) = update_user("alice01", &p, Stage::Start, Event::Received);
    assert_eq!(s, Stage::CheckEmail);
    assert!(matches!(a, Action::FindEmail(ref e) if e == "alice@example.com"));
    let (s, a) = update_user("alice01", &p, s, Event::EmailRows(Ok(vec![user("alice01", "alice@example.com")])));
    assert_eq!(s, Stage::Store);
    let h = match a {
        Action::UpdateUser { current, username, email, password_hash } => {
            assert_eq!(current, "alice01");
            assert_eq!(username, "alice01");
            assert_eq!(email, "alice@example.com");
            password_hash
        }
        other => panic!("expected an update, got {:?}", other),
    };
    assert_eq!(verify_password(b"newsecret1", h).ok(), Some(true));
    let r = reply(update_user("alice01", &p, Stage::Store, Event::Written(Ok(1))).1);
    assert_eq!(r.status.as_u16(), 200);
    assert_eq!(msg(&r), "user alice01 successfully updated");
}

#[test]
fn update_with_new_username_looks_it_up() {
    let p = UserUpdate {
        username: "alice02".to_string(),
        email: "alice@example.com".to_string(),
        password: "newsecret1".to_string(),
    };
    let (s, a) = update_user("alice01", &p, Stage::Start, Event::Received);
    assert_eq!(s, Stage::CheckUsername);
    assert!(matches!(a, Action::FindUsername(ref u) if u == "alice02"));
    let r = reply(update_user("alice01", &p, Stage::CheckUsername, Event::UsernameRows(Ok(1))).1);
    assert_eq!(msg(&r), "username alice02 is already taken");
    let (s, _) = update_user("alice01", &p, Stage::CheckUsername, Event::UsernameRows(Ok(0)));
    assert_eq!(s, Stage::CheckEmail);
    let r = reply(
        update_user("alice01", &p, Stage::CheckEmail, Event::EmailRows(Ok(vec![user("bob01", "x")]))).1,
    );
    assert_eq!(r.status.as_u16(), 409);
    let r = reply(update_user("alice01", &p, Stage::Store, Event::Written(Ok(0))).1);
    assert_eq!(msg(&r), "user alice01 cannot updated");
    let r = reply(update_user("alice01", &p, Stage::Store, Event::Written(Err("e".to_string()))).1);
    assert_eq!(msg(&r), "failed update user");
}

#[test]
fn registered_password_logs_in() {
    let p = reg();
    let h = register_to_insert(&p);
    let l = UserLogin { username: "alice01".to_string(), password: "secret123".to_string() };
    let (s, a) = login_user(&l, Stage::Start, Event::Received);
    assert_eq!(s, Stage::CheckPassword);
    assert!(matches!(a, Action::FindPassword(ref u) if u == "alice01"));
    let (s, a) = login_user(&l, s, Event::StoredPassword(Ok(h.clone())));
    assert_eq!(s, Stage::Finished);
    let r = reply(a);
    assert_eq!(r.status.as_u16(), 200);
    assert_eq!(msg(&r), "Authentication Successfully");
    let wrong = UserLogin { username: "alice01".to_string(), password: "secret124".to_string() };
    let r = reply(login_user(&wrong, Stage::CheckPassword, Event::StoredPassword(Ok(h))).1);
    assert_eq!(r.status.as_u16(), 401);
    assert_eq!(msg(&r), "Authentication Failed");
}

#[test]
fn login_of_unknown_user() {
    let l = UserLogin { username: "ghost1".to_string(), password: "secret123".to_string() };
    let r = reply(login_user(&l, Stage::CheckPassword, Event::StoredPassword(Err("no rows".to_string()))).1);
    assert_eq!(r.status.as_u16(), 500);
    assert_eq!(msg(&r), "user ghost1 does not exist");
}

#[test]
fn login_with_unreadable_hash_gives_up() {
    let l = UserLogin { username: "alice01".to_string(), password: "secret123".to_string() };
    let (s, a) = login_user(&l, Stage::CheckPassword, Event::StoredPassword(Ok("plain".to_string())));
    assert_eq!(s, Stage::Finished);
    assert!(matches!(a, Action::Abort));
}

#[test]
fn login_refuses_invalid_payload() {
    let l = UserLogin { username: "alice01".to_string(), password: "x".to_string() };
    let r = reply(login_user(&l, Stage::Start, Event::Received).1);
    assert_eq!(r.status.as_u16(), 400);
}
