use rst02_users_crud_auth::model::User;
use rst02_users_crud_auth::replies::{
    check_email, check_username, delete_user, get_all_users, get_user, write_response,
};
use rst02_users_crud_auth::response::{ApiResponse, Body, StatusCode};

fn user(name: &str, email: &str) -> User {
    User { username: name.to_string(), email: email.to_string(), password: "h".to_string() }
}

fn message_of(r: &ApiResponse) -> (Option<String>, String, Option<String>) {
    match &r.body {
        Body::Message { status, msg, details } => (status.clone(), msg.clone(), details.clone()),
        _ => panic!("not a message"),
    }
}

#[test]
fn taken_username_is_a_conflict() {
    let r = check_username("alice01", Ok(1)).unwrap();
    assert_eq!(r.status, StatusCode::Conflict);
    assert_eq!(r.status.as_u16(), 409);
    assert_eq!(message_of(&r), (None, "username alice01 is already taken".to_string(), None));
    assert!(check_username("alice01", Ok(3)).is_some());
}

#[test]
fn free_username_passes() {
    assert!(check_username("alice01", Ok(0)).is_none());
}

#[test]
fn username_lookup_error_is_500() {
    let r = check_username("alice01", Err("db down".to_string())).unwrap();
    assert_eq!(r.status.as_u16(), 500);
    assert_eq!(
        message_of(&r),
        (Some("failed".to_string()), "failed checking username".to_string(), Some("db down".to_string()))
    );
}

#[test]
fn email_of_another_user_is_a_conflict() {
    let r = check_email("a@x.com", "alice01", Ok(vec![user("bob01", "a@x.com")])).unwrap();
    assert_eq!(r.status, StatusCode::Conflict);
    assert_eq!(message_of(&r), (None, "email a@x.com is already binded to another user".to_string(), None));
}

#[test]
fn own_email_is_no_conflict() {
    assert!(check_email("a@x.com", "alice01", Ok(vec![user("alice01", "a@x.com")])).is_none());
    assert!(check_email("a@x.com", "alice01", Ok(vec![])).is_none());
}

#[test]
fn only_the_first_row_decides() {
    let rows = vec![user("alice01", "a@x.com"), user("bob01", "a@x.com")];
    assert!(check_email("a@x.com", "alice01", Ok(rows)).is_none());
}

#[test]
fn email_lookup_error_is_500() {
    let r = check_email("a@x.com", "alice01", Err("timeout".to_string())).unwrap();
    assert_eq!(
        message_of(&r),
        (Some("failed".to_string()), "failed checking email".to_string(), Some("timeout".to_string()))
    );
}

#[test]
fn get_user_found() {
    let r = get_user("alice01", Ok(Some(user("alice01", "a@x.com"))));
    assert_eq!(r.status.as_u16(), 200);
    match r.body {
        Body::SingleUser { status, data } => {
            assert_eq!(status, "success");
            assert_eq!(data.username, "alice01");
            assert_eq!(data.email, "a@x.com");
        }
        _ => panic!("wrong body"),
    }
}

#[test]
fn get_user_missing() {
    let r = get_user("ghost1", Ok(None));
    assert_eq!(r.status, StatusCode::NotFound);
    assert_eq!(message_of(&r), (Some("failed".to_string()), "user ghost1 not found".to_string(), None));
}

#[test]
fn get_user_error() {
    let r = get_user("ghost1", Err("boom".to_string()));
    assert_eq!(r.status.as_u16(), 500);
    assert_eq!(
        message_of(&r),
        (Some("failed".to_string()), "failed to get user ghost1".to_string(), Some("boom".to_string()))
    );
}

#[test]
fn get_all_users_lists_with_length() {
    let r = get_all_users(Ok(vec![user("a1234", "a@x"), user("b1234", "b@x")]));
    assert_eq!(r.status, StatusCode::Okay);
    match r.body {
        Body::UserList { status, length, data } => {
            assert_eq!(status, "success");
            assert_eq!(length, 2);
            assert_eq!(data[1].username, "b1234");
        }
        _ => panic!("wrong body"),
    }
    let empty = get_all_users(Ok(vec![]));
    match empty.body {
        Body::UserList { length, .. } => assert_eq!(length, 0),
        _ => panic!("wrong body"),
    }
}

#[test]
fn get_all_users_error() {
    let r = get_all_users(Err("no table".to_string()));
    assert_eq!(
        message_of(&r),
        (Some("failed".to_string()), "failed get users list".to_string(), Some("no table".to_string()))
    );
}

#[test]
fn delete_outcomes() {
    let ok = delete_user("alice01", Ok(1));
    assert_eq!(ok.status.as_u16(), 200);
    assert_eq!(message_of(&ok), (Some("success".to_string()), "user alice01 successfully deleted".to_string(), None));
    let none = delete_user("alice01", Ok(0));
    assert_eq!(none.status.as_u16(), 400);
    assert_eq!(message_of(&none), (Some("failed".to_string()), "user alice01 cannot deleted".to_string(), None));
    let err = delete_user("alice01", Err("locked".to_string()));
    assert_eq!(err.status.as_u16(), 500);
    assert_eq!(
        message_of(&err),
        (Some("failed".to_string()), "failed delete user".to_string(), Some("locked".to_string()))
    );
}

#[test]
fn write_response_with_other_verbs() {
    let r = write_response(StatusCode::Created, "bob01", "created", "failed create user", Ok(1));
    assert_eq!(r.status.as_u16(), 201);
    assert_eq!(message_of(&r), (Some("success".to_string()), "user bob01 successfully created".to_string(), None));
}

#[test]
fn status_codes() {
    let all = [
        (StatusCode::Okay, 200),
        (StatusCode::Created, 201),
        (StatusCode::BadRequest, 400),
        (StatusCode::Unauthorized, 401),
        (StatusCode::NotFound, 404),
        (StatusCode::Conflict, 409),
        (StatusCode::InternalServerError, 500),
    ];
    for (s, c) in all {
        assert_eq!(s.as_u16(), c);
    }
}
