use vstd::prelude::*;
use crate::model::{User, UserView};
use crate::response::{
    copy_reports, failure_label, message, message_response, server_error, server_error_response,
    success_label, text, text3, users_view, ApiResponse, Body, BodyView, ResponseView, StatusCode,
};
use crate::validation::ValidationErrors;

verus! {

/// A database answer as seen by the contracts: its value, or the error text.
pub open spec fn db_view<T>(r: Result<T, String>) -> Result<T, Seq<char>> {
    match r {
        Ok(v) => Ok(v),
        Err(e) => Err(e@),
    }
}

pub open spec fn rows_view(r: Result<Vec<User>, String>) -> Result<Seq<UserView>, Seq<char>> {
    match r {
        Ok(v) => Ok(users_view(v@)),
        Err(e) => Err(e@),
    }
}

pub open spec fn found_view(r: Result<Option<User>, String>) -> Result<Option<UserView>, Seq<char>> {
    match r {
        Ok(Some(u)) => Ok(Some(u@)),
        Ok(None) => Ok(None),
        Err(e) => Err(e@),
    }
}

/// 400 with the report of the failed fields.
pub open spec fn validation_failed(report: Seq<crate::response::FieldReportView>) -> ResponseView {
    ResponseView {
        status: StatusCode::BadRequest,
        body: BodyView::Validation {
            status: failure_label(),
            msg: "validation failed"@,
            details: report,
        },
    }
}

/// The response to a payload that failed validation.
pub fn validate_error_response(validation_errors: &ValidationErrors) -> (r: ApiResponse)
    ensures
        r@ == validation_failed(validation_errors@),
{
    ApiResponse {
        status: StatusCode::BadRequest,
        body: Body::Validation {
            status: text("failed"),
            msg: text("validation failed"),
            details: copy_reports(&validation_errors.reports),
        },
    }
}

/// The answer to a lookup of `username` among the users: `found` is the number
/// of rows with that username, or the database error. `None` lets the request go on.
pub open spec fn username_conflict(username: Seq<char>, found: Result<usize, Seq<char>>) -> Option<
    ResponseView,
> {
    match found {
        Ok(n) => if n >= 1 {
            Some(
                message_response(
                    StatusCode::Conflict,
                    None,
                    "username "@ + username + " is already taken"@,
                    None,
                ),
            )
        } else {
            None
        },
        Err(e) => Some(server_error("failed checking username"@, e)),
    }
}

pub open spec fn opt_response_view(r: Option<ApiResponse>) -> Option<ResponseView> {
    match r {
        Some(x) => Some(x@),
        None => None,
    }
}

/// Refuses a username that is already taken, or that could not be looked up.
pub fn check_username(username: &str, found: Result<usize, String>) -> (r: Option<ApiResponse>)
    ensures
        opt_response_view(r) == username_conflict(username@, db_view(found)),
{
    match found {
        Ok(n) => {
            if n >= 1 {
                Some(
                    message(
                        StatusCode::Conflict,
                        None,
                        text3("username ", username, " is already taken"),
                        None,
                    ),
                )
            } else {
                None
            }
        },
        Err(e) => Some(server_error_response("failed checking username", e)),
    }
}

/// The answer to a lookup of `email` among the users on behalf of `username`:
/// `found` is the rows with that email, in the order the database gave them.
/// The address is refused when the first row belongs to another user.
pub open spec fn email_conflict(
    email: Seq<char>,
    username: Seq<char>,
    found: Result<Seq<UserView>, Seq<char>>,
) -> Option<ResponseView> {
    match found {
        Ok(rows) => if rows.len() >= 1 && rows[0].username != username {
            Some(
                message_response(
                    StatusCode::Conflict,
                    None,
                    "email "@ + email + " is already binded to another user"@,
                    None,
                ),
            )
        } else {
            None
        },
        Err(e) => Some(server_error("failed checking email"@, e)),
    }
}

/// Refuses an email address bound to another user, or that could not be looked up.
pub fn check_email(email: &str, username: &str, found: Result<Vec<User>, String>) -> (r: Option<
    ApiResponse,
>)
    ensures
        opt_response_view(r) == email_conflict(email@, username@, rows_view(found)),
{
    match found {
        Ok(rows) => {
            let taken = if rows.len() >= 1 {
                let own = text(username);
                !(rows[0].username == own)
            } else {
                false
            };
            if taken {
                Some(
                    message(
                        StatusCode::Conflict,
                        None,
                        text3("email ", email, " is already binded to another user"),
                        None,
                    ),
                )
            } else {
                None
            }
        },
        Err(e) => Some(server_error_response("failed checking email", e)),
    }
}

/// `{ "status": label, "msg": msg }` with the given status.
pub open spec fn notice(status: StatusCode, label: Seq<char>, msg: Seq<char>) -> ResponseView {
    message_response(status, Some(label), msg, None)
}

fn notice_response(status: StatusCode, label: &str, msg: String) -> (r: ApiResponse)
    ensures
        r@ == notice(status, label@, msg@),
{
    message(status, Some(text(label)), msg, None)
}

/// The answer to reading one user: the user, 404 when there is none, 500 on a
/// database error.
pub open spec fn single_user(username: Seq<char>, fetched: Result<Option<UserView>, Seq<char>>) -> ResponseView {
    match fetched {
        Ok(Some(u)) => ResponseView {
            status: StatusCode::Okay,
            body: BodyView::SingleUser { status: success_label(), data: u },
        },
        Ok(None) => notice(
            StatusCode::NotFound,
            failure_label(),
            "user "@ + username + " not found"@,
        ),
        Err(e) => server_error("failed to get user "@ + username, e),
    }
}

/// The response to `GET /users/{username}`, given what the database returned.
pub fn get_user(username: &str, fetched: Result<Option<User>, String>) -> (r: ApiResponse)
    ensures
        r@ == single_user(username@, found_view(fetched)),
{
    match fetched {
        Ok(Some(user)) => ApiResponse {
            status: StatusCode::Okay,
            body: Body::SingleUser { status: text("success"), data: user },
        },
        Ok(None) => notice_response(
            StatusCode::NotFound,
            "failed",
            text3("user ", username, " not found"),
        ),
        Err(e) => {
            let mut msg = text("failed to get user ");
            msg.append(username);
            message(StatusCode::InternalServerError, Some(text("failed")), msg, Some(e))
        },
    }
}

/// The answer to listing the users.
pub open spec fn user_list(fetched: Result<Seq<UserView>, Seq<char>>) -> ResponseView {
    match fetched {
        Ok(users) => ResponseView {
            status: StatusCode::Okay,
            body: BodyView::UserList { status: success_label(), length: users.len(), data: users },
        },
        Err(e) => server_error("failed get users list"@, e),
    }
}

/// The response to `GET /users`, given what the database returned.
pub fn get_all_users(fetched: Result<Vec<User>, String>) -> (r: ApiResponse)
    ensures
        r@ == user_list(rows_view(fetched)),
{
    match fetched {
        Ok(users) => {
            let length = users.len();
            ApiResponse {
                status: StatusCode::Okay,
                body: Body::UserList { status: text("success"), length, data: users },
            }
        },
        Err(e) => server_error_response("failed get users list", e),
    }
}

/// The answer to a write on the row of `username`: `affected` is the number of
/// rows written, or the database error. A write that touched no row is refused.
pub open spec fn write_result(
    done: StatusCode,
    username: Seq<char>,
    verb: Seq<char>,
    failure: Seq<char>,
    affected: Result<u64, Seq<char>>,
) -> ResponseView {
    match affected {
        Ok(n) => if n >= 1 {
            notice(done, success_label(), "user "@ + username + " successfully "@ + verb)
        } else {
            notice(StatusCode::BadRequest, failure_label(), "user "@ + username + " cannot "@ + verb)
        },
        Err(e) => server_error(failure, e),
    }
}

/// Builds the answer to a write; `verb` is the past participle of the write.
pub fn write_response(
    done: StatusCode,
    username: &str,
    verb: &str,
    failure: &str,
    affected: Result<u64, String>,
) -> (r: ApiResponse)
    ensures
        r@ == write_result(done, username@, verb@, failure@, db_view(affected)),
{
    match affected {
        Ok(n) => {
            if n >= 1 {
                let mut msg = text3("user ", username, " successfully ");
                msg.append(verb);
                notice_response(done, "success", msg)
            } else {
                let mut msg = text3("user ", username, " cannot ");
                msg.append(verb);
                notice_response(StatusCode::BadRequest, "failed", msg)
            }
        },
        Err(e) => server_error_response(failure, e),
    }
}

/// The answer to `DELETE /users/{username}`.
pub open spec fn deletion(username: Seq<char>, affected: Result<u64, Seq<char>>) -> ResponseView {
    write_result(StatusCode::Okay, username, "deleted"@, "failed delete user"@, affected)
}

/// The response to `DELETE /users/{username}`, given the rows the delete touched.
pub fn delete_user(username: &str, affected: Result<u64, String>) -> (r: ApiResponse)
    ensures
        r@ == deletion(username@, db_view(affected)),
{
    write_response(StatusCode::Okay, username, "deleted", "failed delete user", affected)
}

} // verus!
