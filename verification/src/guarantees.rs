use vstd::prelude::*;
use crate::flows::{
    hashable, login_step, password_bytes, register_allows, update_allows, updates, ActionView,
    EventView, Stage,
};
use crate::password::{argon2_verdict, hashing_failed};
use crate::model::{LoginView, UserView};
use crate::replies::{
    deletion, email_conflict, single_user, user_list, username_conflict, validation_failed,
    write_result,
};
use crate::response::{
    failure_label, success_label, BodyView, FieldErrorView, FieldReportView, ResponseView,
    StatusCode,
};
use crate::validation::{
    account_report, email_errors, login_report, password_errors, username_errors,
};

verus! {

/// `c` is an ASCII digit or an ASCII letter.
pub open spec fn ascii_digit_or_letter(c: char) -> bool {
    ||| '0' <= c && c <= '9'
    ||| 'a' <= c && c <= 'z'
    ||| 'A' <= c && c <= 'Z'
}

/// A username the rules accept: 5 to 25 characters, each a digit or an ASCII letter.
pub open spec fn acceptable_username(s: Seq<char>) -> bool {
    &&& 5 <= s.len() <= 25
    &&& forall|i: int| 0 <= i < s.len() ==> ascii_digit_or_letter(#[trigger] s[i])
}

/// A password the rules accept: 8 to 75 characters.
pub open spec fn acceptable_password(s: Seq<char>) -> bool {
    8 <= s.len() <= 75
}

pub open spec fn failed(b: bool) -> int {
    if b {
        0
    } else {
        1
    }
}

/// The username rule refuses exactly the usernames that are not 5 to 25 ASCII
/// digits and letters: an accepted one has no failed rule, a refused one has
/// one or two, every failed rule naming its code.
pub proof fn law_username_rule(s: Seq<char>)
    ensures
        username_errors(s).len() == 0 <==> acceptable_username(s),
        username_errors(s).len() == failed(3 <= s.len() <= 25) + failed(
            s.len() >= 5 && forall|i: int| 0 <= i < s.len() ==> ascii_digit_or_letter(#[trigger] s[i]),
        ),
        !(3 <= s.len() <= 25) ==> username_errors(s)[0].code == "length"@,
        !(s.len() >= 5 && forall|i: int| 0 <= i < s.len() ==> ascii_digit_or_letter(#[trigger] s[i]))
            ==> username_errors(s).last().code == "regex"@,
{
}

/// The password rule refuses exactly the passwords outside 8 to 75 characters.
pub proof fn law_password_rule(s: Seq<char>)
    ensures
        password_errors(s).len() == 0 <==> acceptable_password(s),
        password_errors(s).len() == failed(acceptable_password(s)),
        !acceptable_password(s) ==> password_errors(s)[0].code == "length"@,
{
}

/// The email rule follows the email check's answer and nothing else.
pub proof fn law_email_rule(accepted: bool)
    ensures
        email_errors(accepted).len() == 0 <==> accepted,
        email_errors(accepted).len() == failed(accepted),
        !accepted ==> email_errors(accepted)[0].code == "email"@,
{
}

/// A register or update payload passes exactly when its username and password
/// are acceptable and the email check accepts its address; otherwise the report
/// holds one entry per failed field, none of them empty.
pub proof fn law_account_rules(u: UserView, email_ok: bool)
    ensures
        account_report(u, email_ok).len() == 0 <==> acceptable_username(u.username)
            && acceptable_password(u.password) && email_ok,
        account_report(u, email_ok).len() == failed(email_ok) + failed(
            acceptable_password(u.password),
        ) + failed(acceptable_username(u.username)),
        forall|i: int|
            0 <= i < account_report(u, email_ok).len() ==> (#[trigger] account_report(
                u,
                email_ok,
            )[i]).errors.len() > 0,
{
    law_username_rule(u.username);
    law_password_rule(u.password);
    law_email_rule(email_ok);
}

/// The address itself plays no part in the report beyond the email check's answer:
/// two payloads with the same username and password, and the same answer of the
/// email check, get the same report.
pub proof fn law_account_report_ignores_the_address(u1: UserView, u2: UserView, email_ok: bool)
    requires
        u1.username == u2.username,
        u1.password == u2.password,
    ensures
        account_report(u1, email_ok) == account_report(u2, email_ok),
{
}

/// A login payload passes exactly when its username and password are acceptable;
/// otherwise the report holds one entry per failed field, none of them empty.
pub proof fn law_login_rules(l: LoginView)
    ensures
        login_report(l).len() == 0 <==> acceptable_username(l.username) && acceptable_password(
            l.password,
        ),
        login_report(l).len() == failed(acceptable_password(l.password)) + failed(
            acceptable_username(l.username),
        ),
        forall|i: int| 0 <= i < login_report(l).len() ==> (#[trigger] login_report(l)[i]).errors.len() > 0,
{
    law_username_rule(l.username);
    law_password_rule(l.password);
}

/// Whoever can register can log in: the login rules accept the username and
/// password of every payload that registration accepts.
pub proof fn law_registered_credentials_pass_login(u: UserView, email_ok: bool)
    requires
        account_report(u, email_ok).len() == 0,
    ensures
        login_report(LoginView { username: u.username, password: u.password }).len() == 0,
{
    law_account_rules(u, email_ok);
    law_login_rules(LoginView { username: u.username, password: u.password });
}

/// The answer to a failed validation is 400 and carries the whole report: every
/// failed field with all of its failed rules, in order.
pub proof fn law_validation_reply_carries_the_report(report: Seq<FieldReportView>)
    ensures
        validation_failed(report).status == StatusCode::BadRequest,
        validation_failed(report).body matches BodyView::Validation { status, details, .. } && status
            == failure_label() && details == report,
{
}

/// Listing the users answers 200 with the rows exactly as fetched and their
/// count; a database error answers 500 with the error text.
pub proof fn law_user_list_is_the_rows(fetched: Result<Seq<UserView>, Seq<char>>)
    ensures
        fetched matches Ok(users) ==> {
            &&& user_list(fetched).status == StatusCode::Okay
            &&& user_list(fetched).body matches BodyView::UserList { status, length, data } && status
                == success_label() && data == users && length == users.len()
        },
        fetched matches Err(e) ==> {
            &&& user_list(fetched).status == StatusCode::InternalServerError
            &&& user_list(fetched).body matches BodyView::Message { details, .. } && details
                == Some(e)
        },
{
}

/// Reading one user answers 200 with the row exactly as fetched, 404 when there
/// is none, and 500 with the error text on a database error.
pub proof fn law_single_user_is_the_row(
    username: Seq<char>,
    fetched: Result<Option<UserView>, Seq<char>>,
)
    ensures
        fetched matches Ok(Some(u)) ==> {
            &&& single_user(username, fetched).status == StatusCode::Okay
            &&& single_user(username, fetched).body matches BodyView::SingleUser { status, data }
                && status == success_label() && data == u
        },
        fetched == Ok::<Option<UserView>, Seq<char>>(None) ==> single_user(username, fetched).status
            == StatusCode::NotFound,
        fetched matches Err(e) ==> {
            &&& single_user(username, fetched).status == StatusCode::InternalServerError
            &&& single_user(username, fetched).body matches BodyView::Message { details, .. }
                && details == Some(e)
        },
{
}

/// A username lookup lets the request go on exactly when it found no row; a
/// found row answers 409, a database error 500.
pub proof fn law_username_lookup(username: Seq<char>, found: Result<usize, Seq<char>>)
    ensures
        username_conflict(username, found) is None <==> found == Ok::<usize, Seq<char>>(0),
        found matches Ok(n) && n >= 1 ==> username_conflict(username, found)->0.status
            == StatusCode::Conflict,
        found is Err ==> username_conflict(username, found)->0.status
            == StatusCode::InternalServerError,
{
}

/// An email lookup lets the request go on exactly when it found no row, or its
/// first row belongs to `username`; a row of another user answers 409, a
/// database error 500.
pub proof fn law_email_lookup(
    email: Seq<char>,
    username: Seq<char>,
    found: Result<Seq<UserView>, Seq<char>>,
)
    ensures
        email_conflict(email, username, found) is None <==> (found matches Ok(rows) && (rows.len()
            == 0 || rows[0].username == username)),
        found matches Ok(rows) && rows.len() > 0 && rows[0].username != username ==> email_conflict(
            email,
            username,
            found,
        )->0.status == StatusCode::Conflict,
        found is Err ==> email_conflict(email, username, found)->0.status
            == StatusCode::InternalServerError,
{
}

/// A write answers its success status exactly when it touched a row, 400 when it
/// touched none, and 500 with the error text on a database error.
pub proof fn law_write_outcome(
    done: StatusCode,
    username: Seq<char>,
    verb: Seq<char>,
    failure: Seq<char>,
    affected: Result<u64, Seq<char>>,
)
    ensures
        affected matches Ok(n) && n >= 1 ==> write_result(done, username, verb, failure, affected).status
            == done,
        affected == Ok::<u64, Seq<char>>(0) ==> write_result(
            done,
            username,
            verb,
            failure,
            affected,
        ).status == StatusCode::BadRequest,
        affected matches Err(e) ==> {
            &&& write_result(done, username, verb, failure, affected).status
                == StatusCode::InternalServerError
            &&& write_result(done, username, verb, failure, affected).body matches BodyView::Message {
                details,
                ..
            } && details == Some(e)
        },
{
}

/// A registration whose username and password are acceptable and whose address
/// the email check accepts goes on to look the username up.
pub proof fn law_acceptable_registration_proceeds(
    p: UserView,
    email_ok: bool,
    next: Stage,
    action: ActionView,
)
    requires
        acceptable_username(p.username),
        acceptable_password(p.password),
        email_ok,
        register_allows(p, email_ok, Stage::Start, EventView::Received, next, action),
    ensures
        next == Stage::CheckUsername,
        action == ActionView::FindUsername(p.username),
{
    law_account_rules(p, email_ok);
}

/// An update whose username and password are acceptable and whose address the
/// email check accepts goes on to a lookup: of the new username where it
/// changed, else of the address.
pub proof fn law_acceptable_update_proceeds(
    current: Seq<char>,
    p: UserView,
    email_ok: bool,
    next: Stage,
    action: ActionView,
)
    requires
        acceptable_username(p.username),
        acceptable_password(p.password),
        email_ok,
        update_allows(current, p, email_ok, Stage::Start, EventView::Received, next, action),
    ensures
        current != p.username ==> next == Stage::CheckUsername && action
            == ActionView::FindUsername(p.username),
        current == p.username ==> next == Stage::CheckEmail && action == ActionView::FindEmail(
            p.email,
        ),
{
    law_account_rules(p, email_ok);
}

/// A login whose username and password are acceptable goes on to fetch the
/// stored hash of that username.
pub proof fn law_acceptable_login_proceeds(l: LoginView)
    requires
        acceptable_username(l.username),
        acceptable_password(l.password),
    ensures
        login_step(l, Stage::Start, EventView::Received) == (
            Stage::CheckPassword,
            ActionView::FindPassword(l.username),
        ),
{
    law_login_rules(l);
}

/// `r` is the message response `{ "status"?: label, "msg": msg, "details"?: details }`
/// with HTTP status `status`.
pub open spec fn says(
    r: ResponseView,
    status: StatusCode,
    label: Option<Seq<char>>,
    msg: Seq<char>,
    details: Option<Seq<char>>,
) -> bool {
    r == ResponseView { status, body: BodyView::Message { status: label, msg, details } }
}

/// The action that sends such a message response.
pub open spec fn message_reply(
    status: StatusCode,
    label: Option<Seq<char>>,
    msg: Seq<char>,
    details: Option<Seq<char>>,
) -> ActionView {
    ActionView::Reply(ResponseView { status, body: BodyView::Message { status: label, msg, details } })
}

/// The entry of a field in a report: present only when a rule of it failed.
pub open spec fn entry(field: Seq<char>, errors: Seq<FieldErrorView>) -> Seq<FieldReportView> {
    if errors.len() > 0 {
        seq![FieldReportView { field, errors }]
    } else {
        Seq::empty()
    }
}

/// The messages of the failed rules, as the payloads declare them.
pub proof fn law_rule_messages(s: Seq<char>, accepted: bool)
    ensures
        !(3 <= s.len() <= 25) ==> username_errors(s)[0] == (FieldErrorView {
            code: "length"@,
            message: Some("fails validation - must be 3-25 characters long"@),
        }),
        !(s.len() >= 5 && forall|i: int| 0 <= i < s.len() ==> ascii_digit_or_letter(#[trigger] s[i]))
            ==> username_errors(s).last() == (FieldErrorView {
            code: "regex"@,
            message: Some("fails validation - is not only alphanumeric/underscore characters"@),
        }),
        !acceptable_password(s) ==> password_errors(s) == seq![
            FieldErrorView {
                code: "length"@,
                message: Some("fails validation - must be 8-75 characters long"@),
            },
        ],
        !accepted ==> email_errors(accepted) == seq![
            FieldErrorView {
                code: "email"@,
                message: Some("fails validation - is not a valid email address"@),
            },
        ],
{
}

/// The report of a register or update payload lists, in this order, the email
/// address, the password and the username, each only where one of its rules
/// failed, with all of its failed rules.
pub proof fn law_account_report_fields(u: UserView, email_ok: bool)
    ensures
        account_report(u, email_ok) == entry("email"@, email_errors(email_ok)) + entry(
            "password"@,
            password_errors(u.password),
        ) + entry("username"@, username_errors(u.username)),
{
}

/// The report of a login payload lists the password, then the username, each
/// only where one of its rules failed.
pub proof fn law_login_report_fields(l: LoginView)
    ensures
        login_report(l) == entry("password"@, password_errors(l.password)) + entry(
            "username"@,
            username_errors(l.username),
        ),
{
}

/// The texts of the replies to lookups and reads.
pub proof fn law_reply_texts(
    username: Seq<char>,
    email: Seq<char>,
    count: Result<usize, Seq<char>>,
    rows: Result<Seq<UserView>, Seq<char>>,
    one: Result<Option<UserView>, Seq<char>>,
    affected: Result<u64, Seq<char>>,
    details: Seq<char>,
    report: Seq<FieldReportView>,
)
    ensures
        count matches Ok(n) && n >= 1 ==> says(
            username_conflict(username, count)->0,
            StatusCode::Conflict,
            None,
            "username "@ + username + " is already taken"@,
            None,
        ),
        count matches Err(e) ==> says(
            username_conflict(username, count)->0,
            StatusCode::InternalServerError,
            Some("failed"@),
            "failed checking username"@,
            Some(e),
        ),
        rows matches Ok(r) && r.len() > 0 && r[0].username != username ==> says(
            email_conflict(email, username, rows)->0,
            StatusCode::Conflict,
            None,
            "email "@ + email + " is already binded to another user"@,
            None,
        ),
        rows matches Err(e) ==> says(
            email_conflict(email, username, rows)->0,
            StatusCode::InternalServerError,
            Some("failed"@),
            "failed checking email"@,
            Some(e),
        ),
        one == Ok::<Option<UserView>, Seq<char>>(None) ==> says(
            single_user(username, one),
            StatusCode::NotFound,
            Some("failed"@),
            "user "@ + username + " not found"@,
            None,
        ),
        one matches Err(e) ==> says(
            single_user(username, one),
            StatusCode::InternalServerError,
            Some("failed"@),
            "failed to get user "@ + username,
            Some(e),
        ),
        rows matches Err(e) ==> says(
            user_list(rows),
            StatusCode::InternalServerError,
            Some("failed"@),
            "failed get users list"@,
            Some(e),
        ),
        affected matches Ok(n) && n >= 1 ==> says(
            deletion(username, affected),
            StatusCode::Okay,
            Some("success"@),
            "user "@ + username + " successfully deleted"@,
            None,
        ),
        affected == Ok::<u64, Seq<char>>(0) ==> says(
            deletion(username, affected),
            StatusCode::BadRequest,
            Some("failed"@),
            "user "@ + username + " cannot deleted"@,
            None,
        ),
        affected matches Err(e) ==> says(
            deletion(username, affected),
            StatusCode::InternalServerError,
            Some("failed"@),
            "failed delete user"@,
            Some(e),
        ),
        says(
            hashing_failed(details),
            StatusCode::InternalServerError,
            Some("failed"@),
            "error hashing password"@,
            Some(details),
        ),
        validation_failed(report) == (ResponseView {
            status: StatusCode::BadRequest,
            body: BodyView::Validation {
                status: "failed"@,
                msg: "validation failed"@,
                details: report,
            },
        }),
{
    reveal_strlit("user ");
    reveal_strlit(" successfully ");
    reveal_strlit(" successfully deleted");
    reveal_strlit(" cannot ");
    reveal_strlit(" cannot deleted");
    reveal_strlit("deleted");
    assert(" successfully "@ + "deleted"@ =~= " successfully deleted"@);
    assert(" cannot "@ + "deleted"@ =~= " cannot deleted"@);
    assert(("user "@ + username + " successfully "@) + "deleted"@ =~= "user "@ + username
        + " successfully deleted"@);
    assert(("user "@ + username + " cannot "@) + "deleted"@ =~= "user "@ + username
        + " cannot deleted"@);
}

/// Registration: after a free username it looks the email address up; a taken
/// username answers 409; the insert answers 201 `"user {username} successfully
/// created"` when it wrote a row, 400 `"user {username} cannot created"` when it
/// wrote none, 500 `"failed create user"` on a database error.
pub proof fn law_registration_steps(
    p: UserView,
    email_ok: bool,
    stage: Stage,
    event: EventView,
    next: Stage,
    action: ActionView,
)
    requires
        register_allows(p, email_ok, stage, event, next, action),
    ensures
        event == EventView::UsernameRows(Ok(0)) ==> next == Stage::CheckEmail && action
            == ActionView::FindEmail(p.email),
        event matches EventView::UsernameRows(Ok(n)) && n >= 1 ==> (next == Stage::Finished
            && action is Reply && action->Reply_0.status == StatusCode::Conflict),
        event matches EventView::Written(Ok(n)) && n >= 1 ==> action == message_reply(StatusCode::Created,
            Some("success"@),
            "user "@ + p.username + " successfully created"@,
            None,
        ),
        event == EventView::Written(Ok(0)) ==> action == message_reply(StatusCode::BadRequest,
            Some("failed"@),
            "user "@ + p.username + " cannot created"@,
            None,
        ),
        event matches EventView::Written(Err(e)) ==> action == message_reply(StatusCode::InternalServerError,
            Some("failed"@),
            "failed create user"@,
            Some(e),
        ),
{
    reveal_strlit(" successfully ");
    reveal_strlit(" successfully created");
    reveal_strlit(" cannot ");
    reveal_strlit(" cannot created");
    reveal_strlit("created");
    assert(("user "@ + p.username + " successfully "@) + "created"@ =~= "user "@ + p.username
        + " successfully created"@);
    assert(("user "@ + p.username + " cannot "@) + "created"@ =~= "user "@ + p.username
        + " cannot created"@);
}

/// Update: after a free new username it looks the email address up; the row of
/// `current` holding the address is no conflict, so the update goes on to
/// rewrite that row; the write answers 200 `"user {current} successfully
/// updated"`, 400 `"user {current} cannot updated"` or 500 `"failed update user"`.
pub proof fn law_update_steps(
    current: Seq<char>,
    p: UserView,
    email_ok: bool,
    stage: Stage,
    event: EventView,
    next: Stage,
    action: ActionView,
)
    requires
        update_allows(current, p, email_ok, stage, event, next, action),
    ensures
        event == EventView::UsernameRows(Ok(0)) ==> next == Stage::CheckEmail && action
            == ActionView::FindEmail(p.email),
        event matches EventView::EmailRows(Ok(rows)) && rows.len() > 0 && rows[0].username
            == current && hashable(p.password) ==> next == Stage::Store && updates(
            current,
            p,
            action,
        ),
        event matches EventView::Written(Ok(n)) && n >= 1 ==> action == message_reply(StatusCode::Okay,
            Some("success"@),
            "user "@ + current + " successfully updated"@,
            None,
        ),
        event == EventView::Written(Ok(0)) ==> action == message_reply(StatusCode::BadRequest,
            Some("failed"@),
            "user "@ + current + " cannot updated"@,
            None,
        ),
        event matches EventView::Written(Err(e)) ==> action == message_reply(StatusCode::InternalServerError,
            Some("failed"@),
            "failed update user"@,
            Some(e),
        ),
{
    reveal_strlit(" successfully ");
    reveal_strlit(" successfully updated");
    reveal_strlit(" cannot ");
    reveal_strlit(" cannot updated");
    reveal_strlit("updated");
    assert(("user "@ + current + " successfully "@) + "updated"@ =~= "user "@ + current
        + " successfully updated"@);
    assert(("user "@ + current + " cannot "@) + "updated"@ =~= "user "@ + current
        + " cannot updated"@);
}

/// Login on the stored hash: 200 `"Authentication Successfully"` exactly when
/// the password verifies, 401 `"Authentication Failed"` when it does not, given
/// up when the hash does not parse; a failed lookup answers 500 `"user
/// {username} does not exist"`; an invalid payload answers its report.
pub proof fn law_login_answers(l: LoginView, stored: Result<Seq<char>, Seq<char>>)
    ensures
        stored matches Ok(h) && argon2_verdict(password_bytes(l.password), h) == Some(true)
            ==> login_step(l, Stage::CheckPassword, EventView::StoredPassword(stored)).1 == message_reply(StatusCode::Okay, Some("success"@), "Authentication Successfully"@, None),
        stored matches Ok(h) && argon2_verdict(password_bytes(l.password), h) == Some(false)
            ==> login_step(l, Stage::CheckPassword, EventView::StoredPassword(stored)).1 == message_reply(StatusCode::Unauthorized, Some("failed"@), "Authentication Failed"@, None),
        stored matches Ok(h) && argon2_verdict(password_bytes(l.password), h) is None
            ==> login_step(l, Stage::CheckPassword, EventView::StoredPassword(stored)).1
            == ActionView::Abort,
        stored is Err ==> login_step(l, Stage::CheckPassword, EventView::StoredPassword(stored)).1 == message_reply(StatusCode::InternalServerError,
            Some("failed"@),
            "user "@ + l.username + " does not exist"@,
            None,
        ),
        login_report(l).len() > 0 ==> login_step(l, Stage::Start, EventView::Received)
            == (Stage::Finished, ActionView::Reply(validation_failed(login_report(l)))),
{
}

} // verus!
