use vstd::prelude::*;
use vstd::utf8::encode_utf8;
use crate::model::{LoginView, User, UserLogin, UserRegister, UserUpdate, UserView};
use crate::password::{argon2_verdict, hash_password, stored_phc, try_verify_password};
use crate::replies::{
    check_email, check_username, db_view, email_conflict, notice, rows_view, username_conflict,
    validate_error_response, validation_failed, write_response, write_result,
};
use crate::response::{
    failure_label, message, success_label, text, text3, ApiResponse, ResponseView,
    StatusCode,
};
use crate::validation::{account_report, email_accepted, login_report};

verus! {

/// Where a request stands between two exchanges with the database.
#[derive(Clone, Copy, Debug, PartialEq, Eq, Structural)]
pub enum Stage {
    /// The request has not been looked at yet.
    Start,
    /// Waiting for the rows that hold the requested username.
    CheckUsername,
    /// Waiting for the rows that hold the requested email address.
    CheckEmail,
    /// Waiting for the outcome of the write.
    Store,
    /// Waiting for the stored password hash of the user logging in.
    CheckPassword,
    /// The request has been answered.
    Finished,
}

/// What the database (or the request itself) hands to a flow.
#[derive(Debug)]
pub enum Event {
    /// The request arrived.
    Received,
    /// Number of users with the looked-up username, or the database error.
    UsernameRows(Result<usize, String>),
    /// Users with the looked-up email address, or the database error.
    EmailRows(Result<Vec<User>, String>),
    /// The stored password hash of the user, or the database error (no such user among them).
    StoredPassword(Result<String, String>),
    /// Number of rows the write touched, or the database error.
    Written(Result<u64, String>),
}

pub enum EventView {
    Received,
    UsernameRows(Result<usize, Seq<char>>),
    EmailRows(Result<Seq<UserView>, Seq<char>>),
    StoredPassword(Result<Seq<char>, Seq<char>>),
    Written(Result<u64, Seq<char>>),
}

impl View for Event {
    type V = EventView;

    open spec fn view(&self) -> EventView {
        match self {
            Event::Received => EventView::Received,
            Event::UsernameRows(r) => EventView::UsernameRows(db_view(*r)),
            Event::EmailRows(r) => EventView::EmailRows(rows_view(*r)),
            Event::StoredPassword(r) => EventView::StoredPassword(
                match r {
                    Ok(s) => Ok(s@),
                    Err(e) => Err(e@),
                },
            ),
            Event::Written(r) => EventView::Written(db_view(*r)),
        }
    }
}

/// What a flow asks the service to do next.
#[derive(Debug)]
pub enum Action {
    /// Send this response; the request is over.
    Reply(ApiResponse),
    /// `SELECT username FROM users WHERE username = ?`
    FindUsername(String),
    /// `SELECT * FROM users WHERE email = ?`
    FindEmail(String),
    /// `SELECT password FROM users WHERE username = ?`
    FindPassword(String),
    /// `INSERT INTO users (username, email, password) VALUES (?, ?, ?)`
    InsertUser { username: String, email: String, password_hash: String },
    /// `UPDATE users SET username = ?, email = ?, password = ? WHERE username = ?`
    UpdateUser { current: String, username: String, email: String, password_hash: String },
    /// Give the request up without an answer (the stored hash is unreadable, or hashing failed).
    Abort,
}

pub enum ActionView {
    Reply(ResponseView),
    FindUsername(Seq<char>),
    FindEmail(Seq<char>),
    FindPassword(Seq<char>),
    InsertUser { username: Seq<char>, email: Seq<char>, password_hash: Seq<char> },
    UpdateUser {
        current: Seq<char>,
        username: Seq<char>,
        email: Seq<char>,
        password_hash: Seq<char>,
    },
    Abort,
}

impl View for Action {
    type V = ActionView;

    open spec fn view(&self) -> ActionView {
        match self {
            Action::Reply(r) => ActionView::Reply(r@),
            Action::FindUsername(u) => ActionView::FindUsername(u@),
            Action::FindEmail(e) => ActionView::FindEmail(e@),
            Action::FindPassword(u) => ActionView::FindPassword(u@),
            Action::InsertUser { username, email, password_hash } => ActionView::InsertUser {
                username: username@,
                email: email@,
                password_hash: password_hash@,
            },
            Action::UpdateUser { current, username, email, password_hash } =>
                ActionView::UpdateUser {
                current: current@,
                username: username@,
                email: email@,
                password_hash: password_hash@,
            },
            Action::Abort => ActionView::Abort,
        }
    }
}

/// The password as the hasher receives it: its UTF-8 bytes.
pub open spec fn password_bytes(password: Seq<char>) -> Seq<u8> {
    encode_utf8(password)
}

/// `hash` is an argon2 PHC string that verifies for `password`.
pub open spec fn hash_of(password: Seq<char>, hash: Seq<char>) -> bool {
    argon2_verdict(password_bytes(password), hash) == Some(true)
}

/// `hash` is what the service stores for `password`: the Argon2id PHC string
/// that argon2 makes of its UTF-8 bytes with a salt of `SALT_LENGTH` bytes (and
/// no other salt), which parses and verifies for it.
pub open spec fn stored_hash_of(password: Seq<char>, hash: Seq<char>) -> bool {
    stored_phc(password_bytes(password), hash)
}

/// Argon2 takes the password: its UTF-8 bytes are at most 0xFFFFFFFF.
pub open spec fn hashable(password: Seq<char>) -> bool {
    password_bytes(password).len() <= 0xFFFF_FFFF
}

// ---------------------------------------------------------------- register

/// `action` inserts the user of payload `p`, its password stored as a hash of it.
pub open spec fn inserts(p: UserView, action: ActionView) -> bool {
    match action {
        ActionView::InsertUser { username, email, password_hash } => {
            &&& username == p.username
            &&& email == p.email
            &&& stored_hash_of(p.password, password_hash)
        },
        _ => false,
    }
}

/// The events that registration waits for at each stage.
pub open spec fn register_expects(stage: Stage, event: EventView) -> bool {
    match event {
        EventView::Received => stage == Stage::Start,
        EventView::UsernameRows(_) => stage == Stage::CheckUsername,
        EventView::EmailRows(_) => stage == Stage::CheckEmail,
        EventView::Written(_) => stage == Stage::Store,
        EventView::StoredPassword(_) => false,
    }
}

/// The registration step that follows hashing: insert the user with the hash,
/// or give the request up where hashing failed.
pub open spec fn register_store_step(p: UserView, hashed: Result<Seq<char>, ResponseView>) -> (
    Stage,
    ActionView,
) {
    match hashed {
        Ok(h) => (
            Stage::Store,
            ActionView::InsertUser { username: p.username, email: p.email, password_hash: h },
        ),
        Err(_) => (Stage::Finished, ActionView::Abort),
    }
}

pub open spec fn hashed_view(r: Result<String, ApiResponse>) -> Result<Seq<char>, ResponseView> {
    match r {
        Ok(h) => Ok(h@),
        Err(e) => Err(e@),
    }
}

/// What registration does with the outcome of hashing the password.
pub fn register_store(payload: &UserRegister, hashed: Result<String, ApiResponse>) -> (res: (
    Stage,
    Action,
))
    ensures
        (res.0, res.1@) == register_store_step(payload@, hashed_view(hashed)),
{
    match hashed {
        Ok(h) => (
            Stage::Store,
            Action::InsertUser {
                username: payload.username.clone(),
                email: payload.email.clone(),
                password_hash: h,
            },
        ),
        Err(_) => (Stage::Finished, Action::Abort),
    }
}

/// One step of `POST /users/register` for payload `p`, where `email_ok` is the
/// email check's answer on `p.email`: validate, then refuse a taken username,
/// then refuse an email address of another user, then insert the user with a
/// hash of the password, then report the insert. The request is given up only
/// where hashing fails, which argon2 does only for a password over 0xFFFFFFFF bytes.
pub open spec fn register_allows(
    p: UserView,
    email_ok: bool,
    stage: Stage,
    event: EventView,
    next: Stage,
    action: ActionView,
) -> bool {
    register_expects(stage, event) && match event {
        EventView::Received => {
            let report = account_report(p, email_ok);
            if report.len() > 0 {
                next == Stage::Finished && action == ActionView::Reply(validation_failed(report))
            } else {
                next == Stage::CheckUsername && action == ActionView::FindUsername(p.username)
            }
        },
        EventView::UsernameRows(found) => match username_conflict(p.username, found) {
            Some(r) => next == Stage::Finished && action == ActionView::Reply(r),
            None => next == Stage::CheckEmail && action == ActionView::FindEmail(p.email),
        },
        EventView::EmailRows(found) => match email_conflict(p.email, p.username, found) {
            Some(r) => next == Stage::Finished && action == ActionView::Reply(r),
            None => if hashable(p.password) {
                next == Stage::Store && inserts(p, action)
            } else {
                ||| next == Stage::Store && inserts(p, action)
                ||| next == Stage::Finished && action == ActionView::Abort
            },
        },
        EventView::Written(affected) => next == Stage::Finished && action == ActionView::Reply(
            write_result(StatusCode::Created, p.username, "created"@, "failed create user"@, affected),
        ),
        EventView::StoredPassword(_) => false,
    }
}

/// One step of `POST /users/register`: from the stage and the event to the
/// next stage and the action to perform.
pub fn register_user(payload: &UserRegister, stage: Stage, event: Event) -> (res: (Stage, Action))
    requires
        register_expects(stage, event@),
    ensures
        register_allows(payload@, email_accepted(payload.email@), stage, event@, res.0, res.1@),
{
    match event {
        Event::Received => match payload.validate() {
            Err(errors) => (Stage::Finished, Action::Reply(validate_error_response(&errors))),
            Ok(()) => (Stage::CheckUsername, Action::FindUsername(payload.username.clone())),
        },
        Event::UsernameRows(found) => match check_username(payload.username.as_str(), found) {
            Some(r) => (Stage::Finished, Action::Reply(r)),
            None => (Stage::CheckEmail, Action::FindEmail(payload.email.clone())),
        },
        Event::EmailRows(found) => match check_email(
            payload.email.as_str(),
            payload.username.as_str(),
            found,
        ) {
            Some(r) => (Stage::Finished, Action::Reply(r)),
            None => register_store(payload, hash_password(payload.password.as_str().as_bytes())),
        },
        Event::Written(affected) => (
            Stage::Finished,
            Action::Reply(
                write_response(
                    StatusCode::Created,
                    payload.username.as_str(),
                    "created",
                    "failed create user",
                    affected,
                ),
            ),
        ),
        Event::StoredPassword(_) => (Stage::Finished, Action::Abort),
    }
}

// ---------------------------------------------------------------- update

/// `action` rewrites the row of `current` with payload `p`, its password stored
/// as a hash of it.
pub open spec fn updates(current: Seq<char>, p: UserView, action: ActionView) -> bool {
    match action {
        ActionView::UpdateUser { current: c, username, email, password_hash } => {
            &&& c == current
            &&& username == p.username
            &&& email == p.email
            &&& stored_hash_of(p.password, password_hash)
        },
        _ => false,
    }
}

/// The events that an update waits for at each stage: as a registration.
pub open spec fn update_expects(stage: Stage, event: EventView) -> bool {
    register_expects(stage, event)
}

/// One step of `PUT /users/{current}` with payload `p`, where `email_ok` is the
/// email check's answer on `p.email`: validate; look the new username up only
/// when it differs from `current`; refuse an email address of a user other
/// than `current`; rewrite the row with a hash of the password; report the write.
/// The request is given up only where hashing fails, as for a registration.
pub open spec fn update_allows(
    current: Seq<char>,
    p: UserView,
    email_ok: bool,
    stage: Stage,
    event: EventView,
    next: Stage,
    action: ActionView,
) -> bool {
    update_expects(stage, event) && match event {
        EventView::Received => {
            let report = account_report(p, email_ok);
            if report.len() > 0 {
                next == Stage::Finished && action == ActionView::Reply(validation_failed(report))
            } else if current != p.username {
                next == Stage::CheckUsername && action == ActionView::FindUsername(p.username)
            } else {
                next == Stage::CheckEmail && action == ActionView::FindEmail(p.email)
            }
        },
        EventView::UsernameRows(found) => match username_conflict(p.username, found) {
            Some(r) => next == Stage::Finished && action == ActionView::Reply(r),
            None => next == Stage::CheckEmail && action == ActionView::FindEmail(p.email),
        },
        EventView::EmailRows(found) => match email_conflict(p.email, current, found) {
            Some(r) => next == Stage::Finished && action == ActionView::Reply(r),
            None => if hashable(p.password) {
                next == Stage::Store && updates(current, p, action)
            } else {
                ||| next == Stage::Store && updates(current, p, action)
                ||| next == Stage::Finished && action == ActionView::Abort
            },
        },
        EventView::Written(affected) => next == Stage::Finished && action == ActionView::Reply(
            write_result(StatusCode::Okay, current, "updated"@, "failed update user"@, affected),
        ),
        EventView::StoredPassword(_) => false,
    }
}

/// The update step that follows hashing: rewrite the row of `current` with the
/// hash, or give the request up where hashing failed.
pub open spec fn update_store_step(
    current: Seq<char>,
    p: UserView,
    hashed: Result<Seq<char>, ResponseView>,
) -> (Stage, ActionView) {
    match hashed {
        Ok(h) => (
            Stage::Store,
            ActionView::UpdateUser {
                current,
                username: p.username,
                email: p.email,
                password_hash: h,
            },
        ),
        Err(_) => (Stage::Finished, ActionView::Abort),
    }
}

/// What an update does with the outcome of hashing the new password.
pub fn update_store(username: &str, payload: &UserUpdate, hashed: Result<String, ApiResponse>) -> (res: (
    Stage,
    Action,
))
    ensures
        (res.0, res.1@) == update_store_step(username@, payload@, hashed_view(hashed)),
{
    match hashed {
        Ok(h) => (
            Stage::Store,
            Action::UpdateUser {
                current: text(username),
                username: payload.username.clone(),
                email: payload.email.clone(),
                password_hash: h,
            },
        ),
        Err(_) => (Stage::Finished, Action::Abort),
    }
}

/// One step of `PUT /users/{username}`: from the stage and the event to the
/// next stage and the action to perform.
pub fn update_user(username: &str, payload: &UserUpdate, stage: Stage, event: Event) -> (res: (
    Stage,
    Action,
))
    requires
        update_expects(stage, event@),
    ensures
        update_allows(
            username@,
            payload@,
            email_accepted(payload.email@),
            stage,
            event@,
            res.0,
            res.1@,
        ),
{
    match event {
        Event::Received => match payload.validate() {
            Err(errors) => (Stage::Finished, Action::Reply(validate_error_response(&errors))),
            Ok(()) => {
                let current = text(username);
                if !(current == payload.username) {
                    (Stage::CheckUsername, Action::FindUsername(payload.username.clone()))
                } else {
                    (Stage::CheckEmail, Action::FindEmail(payload.email.clone()))
                }
            },
        },
        Event::UsernameRows(found) => match check_username(payload.username.as_str(), found) {
            Some(r) => (Stage::Finished, Action::Reply(r)),
            None => (Stage::CheckEmail, Action::FindEmail(payload.email.clone())),
        },
        Event::EmailRows(found) => match check_email(payload.email.as_str(), username, found) {
            Some(r) => (Stage::Finished, Action::Reply(r)),
            None => update_store(username, payload, hash_password(payload.password.as_str().as_bytes())),
        },
        Event::Written(affected) => (
            Stage::Finished,
            Action::Reply(
                write_response(StatusCode::Okay, username, "updated", "failed update user", affected),
            ),
        ),
        Event::StoredPassword(_) => (Stage::Finished, Action::Abort),
    }
}

// ---------------------------------------------------------------- login

/// The events that a login waits for at each stage.
pub open spec fn login_expects(stage: Stage, event: EventView) -> bool {
    match event {
        EventView::Received => stage == Stage::Start,
        EventView::StoredPassword(_) => stage == Stage::CheckPassword,
        _ => false,
    }
}

/// 200 `"Authentication Successfully"`.
pub open spec fn authenticated() -> ResponseView {
    notice(StatusCode::Okay, success_label(), "Authentication Successfully"@)
}

/// 401 `"Authentication Failed"`.
pub open spec fn refused() -> ResponseView {
    notice(StatusCode::Unauthorized, failure_label(), "Authentication Failed"@)
}

/// 500 `"user {username} does not exist"`, sent when the password lookup fails.
pub open spec fn unknown_user(username: Seq<char>) -> ResponseView {
    notice(
        StatusCode::InternalServerError,
        failure_label(),
        "user "@ + username + " does not exist"@,
    )
}

/// One step of `POST /users/login` for payload `p`: validate, look the stored
/// hash up, and accept exactly when the password verifies against it. A stored
/// hash that does not parse gives the request up.
pub open spec fn login_step(p: LoginView, stage: Stage, event: EventView) -> (Stage, ActionView) {
    match event {
        EventView::Received => {
            let report = login_report(p);
            if report.len() > 0 {
                (Stage::Finished, ActionView::Reply(validation_failed(report)))
            } else {
                (Stage::CheckPassword, ActionView::FindPassword(p.username))
            }
        },
        EventView::StoredPassword(Err(_)) => (
            Stage::Finished,
            ActionView::Reply(unknown_user(p.username)),
        ),
        EventView::StoredPassword(Ok(stored)) => match argon2_verdict(
            password_bytes(p.password),
            stored,
        ) {
            Some(true) => (Stage::Finished, ActionView::Reply(authenticated())),
            Some(false) => (Stage::Finished, ActionView::Reply(refused())),
            None => (Stage::Finished, ActionView::Abort),
        },
        _ => (Stage::Finished, ActionView::Abort),
    }
}

/// The login step that follows checking the password: `verdict` is `None` where
/// the stored hash did not parse, else what checking the password returned.
pub open spec fn login_verdict_step(verdict: Option<Result<bool, ResponseView>>) -> (
    Stage,
    ActionView,
) {
    match verdict {
        None => (Stage::Finished, ActionView::Abort),
        Some(Ok(true)) => (Stage::Finished, ActionView::Reply(authenticated())),
        Some(Ok(false)) => (Stage::Finished, ActionView::Reply(refused())),
        Some(Err(r)) => (Stage::Finished, ActionView::Reply(r)),
    }
}

pub open spec fn verdict_view(v: Option<Result<bool, ApiResponse>>) -> Option<Result<bool, ResponseView>> {
    match v {
        None => None,
        Some(Ok(b)) => Some(Ok(b)),
        Some(Err(r)) => Some(Err(r@)),
    }
}

/// What a login does with the outcome of checking the password.
pub fn login_verdict(verdict: Option<Result<bool, ApiResponse>>) -> (res: (Stage, Action))
    ensures
        (res.0, res.1@) == login_verdict_step(verdict_view(verdict)),
{
    match verdict {
        None => (Stage::Finished, Action::Abort),
        Some(Ok(true)) => (
            Stage::Finished,
            Action::Reply(
                message(
                    StatusCode::Okay,
                    Some(text("success")),
                    text("Authentication Successfully"),
                    None,
                ),
            ),
        ),
        Some(Ok(false)) => (
            Stage::Finished,
            Action::Reply(
                message(
                    StatusCode::Unauthorized,
                    Some(text("failed")),
                    text("Authentication Failed"),
                    None,
                ),
            ),
        ),
        Some(Err(r)) => (Stage::Finished, Action::Reply(r)),
    }
}

/// One step of `POST /users/login`: from the stage and the event to the next
/// stage and the action to perform.
pub fn login_user(payload: &UserLogin, stage: Stage, event: Event) -> (res: (Stage, Action))
    requires
        login_expects(stage, event@),
    ensures
        (res.0, res.1@) == login_step(payload@, stage, event@),
{
    match event {
        Event::Received => match payload.validate() {
            Err(errors) => (Stage::Finished, Action::Reply(validate_error_response(&errors))),
            Ok(()) => (Stage::CheckPassword, Action::FindPassword(payload.username.clone())),
        },
        Event::StoredPassword(Err(_)) => {
            let msg = text3("user ", payload.username.as_str(), " does not exist");
            (
                Stage::Finished,
                Action::Reply(
                    message(StatusCode::InternalServerError, Some(text("failed")), msg, None),
                ),
            )
        },
        Event::StoredPassword(Ok(stored)) => login_verdict(
            try_verify_password(payload.password.as_str().as_bytes(), stored),
        ),
        _ => (Stage::Finished, Action::Abort),
    }
}

} // verus!
