use vstd::prelude::*;
use crate::model::{User, UserView};

verus! {

/// HTTP status of a response sent by the service.
#[derive(Clone, Copy, Debug, PartialEq, Eq, Structural)]
pub enum StatusCode {
    Okay,
    Created,
    BadRequest,
    Unauthorized,
    NotFound,
    Conflict,
    InternalServerError,
}

impl StatusCode {
    /// The numeric HTTP status.
    pub open spec fn code(self) -> u16 {
        match self {
            StatusCode::Okay => 200,
            StatusCode::Created => 201,
            StatusCode::BadRequest => 400,
            StatusCode::Unauthorized => 401,
            StatusCode::NotFound => 404,
            StatusCode::Conflict => 409,
            StatusCode::InternalServerError => 500,
        }
    }

    /// A 2xx status.
    pub open spec fn is_success(self) -> bool {
        200 <= self.code() < 300
    }

    pub fn as_u16(&self) -> (c: u16)
        ensures
            c == self.code(),
    {
        match self {
            StatusCode::Okay => 200,
            StatusCode::Created => 201,
            StatusCode::BadRequest => 400,
            StatusCode::Unauthorized => 401,
            StatusCode::NotFound => 404,
            StatusCode::Conflict => 409,
            StatusCode::InternalServerError => 500,
        }
    }
}

/// One failed rule of a field: `{ "code": ..., "msg": ... }`; a rule without
/// a message renders `"msg": null`.
#[derive(Debug)]
pub struct FieldError {
    pub code: String,
    pub message: Option<String>,
}

pub struct FieldErrorView {
    pub code: Seq<char>,
    pub message: Option<Seq<char>>,
}

impl View for FieldError {
    type V = FieldErrorView;

    open spec fn view(&self) -> FieldErrorView {
        FieldErrorView { code: self.code@, message: text_view(self.message) }
    }
}

impl FieldError {
    pub fn copied(&self) -> (r: FieldError)
        ensures
            r@ == self@,
    {
        let message = match &self.message {
            Some(m) => Some(m.clone()),
            None => None,
        };
        FieldError { code: self.code.clone(), message }
    }
}

pub open spec fn errors_view(v: Seq<FieldError>) -> Seq<FieldErrorView> {
    v.map_values(|e: FieldError| e@)
}

/// The failed rules of one field, in the order the rules are checked.
#[derive(Debug)]
pub struct FieldReport {
    pub field: String,
    pub errors: Vec<FieldError>,
}

pub struct FieldReportView {
    pub field: Seq<char>,
    pub errors: Seq<FieldErrorView>,
}

impl View for FieldReport {
    type V = FieldReportView;

    open spec fn view(&self) -> FieldReportView {
        FieldReportView { field: self.field@, errors: errors_view(self.errors@) }
    }
}

pub open spec fn reports_view(v: Seq<FieldReport>) -> Seq<FieldReportView> {
    v.map_values(|r: FieldReport| r@)
}

pub open spec fn users_view(v: Seq<User>) -> Seq<UserView> {
    v.map_values(|u: User| u@)
}

pub fn copy_errors(v: &Vec<FieldError>) -> (r: Vec<FieldError>)
    ensures
        errors_view(r@) == errors_view(v@),
{
    let mut r: Vec<FieldError> = Vec::new();
    let mut i: usize = 0;
    while i < v.len()
        invariant
            i <= v.len(),
            r.len() == i,
            forall|j: int| 0 <= j < i ==> (#[trigger] r@[j])@ == v@[j]@,
        decreases v.len() - i,
    {
        r.push(v[i].copied());
        i = i + 1;
    }
    assert(errors_view(r@) =~= errors_view(v@));
    r
}

impl FieldReport {
    pub fn copied(&self) -> (r: FieldReport)
        ensures
            r@ == self@,
    {
        FieldReport { field: self.field.clone(), errors: copy_errors(&self.errors) }
    }
}

pub fn copy_reports(v: &Vec<FieldReport>) -> (r: Vec<FieldReport>)
    ensures
        reports_view(r@) == reports_view(v@),
{
    let mut r: Vec<FieldReport> = Vec::new();
    let mut i: usize = 0;
    while i < v.len()
        invariant
            i <= v.len(),
            r.len() == i,
            forall|j: int| 0 <= j < i ==> (#[trigger] r@[j])@ == v@[j]@,
        decreases v.len() - i,
    {
        r.push(v[i].copied());
        i = i + 1;
    }
    assert(reports_view(r@) =~= reports_view(v@));
    r
}

/// The JSON body of a response. The field names in comments are the JSON keys.
#[allow(inconsistent_fields)]
#[derive(Debug)]
pub enum Body {
    /// `{ "status"?: ..., "msg": ..., "details"?: ... }`
    Message { status: Option<String>, msg: String, details: Option<String> },
    /// `{ "status": ..., "msg": ..., "details": { field: [ { "code", "msg" } ] } }`
    Validation { status: String, msg: String, details: Vec<FieldReport> },
    /// `{ "status": ..., "length": ..., "data": [ user ] }`
    UserList { status: String, length: usize, data: Vec<User> },
    /// `{ "status": ..., "data": user }`
    SingleUser { status: String, data: User },
}

#[allow(inconsistent_fields)]
pub enum BodyView {
    Message { status: Option<Seq<char>>, msg: Seq<char>, details: Option<Seq<char>> },
    Validation { status: Seq<char>, msg: Seq<char>, details: Seq<FieldReportView> },
    UserList { status: Seq<char>, length: nat, data: Seq<UserView> },
    SingleUser { status: Seq<char>, data: UserView },
}

pub open spec fn text_view(o: Option<String>) -> Option<Seq<char>> {
    match o {
        Some(s) => Some(s@),
        None => None,
    }
}

impl View for Body {
    type V = BodyView;

    open spec fn view(&self) -> BodyView {
        match self {
            Body::Message { status, msg, details } => BodyView::Message {
                status: text_view(*status),
                msg: msg@,
                details: text_view(*details),
            },
            Body::Validation { status, msg, details } => BodyView::Validation {
                status: status@,
                msg: msg@,
                details: reports_view(details@),
            },
            Body::UserList { status, length, data } => BodyView::UserList {
                status: status@,
                length: *length as nat,
                data: users_view(data@),
            },
            Body::SingleUser { status, data } => BodyView::SingleUser {
                status: status@,
                data: data@,
            },
        }
    }
}

impl BodyView {
    /// The value of the body's `"status"` key, where it has one.
    pub open spec fn label(self) -> Option<Seq<char>> {
        match self {
            BodyView::Message { status, .. } => status,
            BodyView::Validation { status, .. } => Some(status),
            BodyView::UserList { status, .. } => Some(status),
            BodyView::SingleUser { status, .. } => Some(status),
        }
    }
}

/// A response: an HTTP status and a JSON body.
#[derive(Debug)]
pub struct ApiResponse {
    pub status: StatusCode,
    pub body: Body,
}

pub struct ResponseView {
    pub status: StatusCode,
    pub body: BodyView,
}

impl View for ApiResponse {
    type V = ResponseView;

    open spec fn view(&self) -> ResponseView {
        ResponseView { status: self.status, body: self.body@ }
    }
}

pub open spec fn success_label() -> Seq<char> {
    "success"@
}

pub open spec fn failure_label() -> Seq<char> {
    "failed"@
}

impl ResponseView {
    /// The body's `"status"` says `"success"` exactly on a 2xx status and
    /// `"failed"` otherwise; a body without the key is not constrained.
    pub open spec fn well_labelled(self) -> bool {
        match self.body.label() {
            Some(l) => if self.status.is_success() {
                l == success_label()
            } else {
                l == failure_label()
            },
            None => true,
        }
    }
}

/// `{ "msg": msg }`, and `"status"` / `"details"` where given.
pub open spec fn message_response(
    status: StatusCode,
    label: Option<Seq<char>>,
    msg: Seq<char>,
    details: Option<Seq<char>>,
) -> ResponseView {
    ResponseView { status, body: BodyView::Message { status: label, msg, details } }
}

/// `{ "status": "failed", "msg": msg, "details": details }` with status 500.
pub open spec fn server_error(msg: Seq<char>, details: Seq<char>) -> ResponseView {
    message_response(StatusCode::InternalServerError, Some(failure_label()), msg, Some(details))
}

pub fn text(s: &str) -> (r: String)
    ensures
        r@ == s@,
{
    String::from_str(s)
}

/// `a`, then `b`, then `c`.
pub fn text3(a: &str, b: &str, c: &str) -> (r: String)
    ensures
        r@ == a@ + b@ + c@,
{
    let mut r = String::from_str(a);
    r.append(b);
    r.append(c);
    r
}

pub fn message(status: StatusCode, label: Option<String>, msg: String, details: Option<String>) -> (r:
    ApiResponse)
    ensures
        r@ == message_response(status, text_view(label), msg@, text_view(details)),
{
    ApiResponse { status, body: Body::Message { status: label, msg, details } }
}

pub fn server_error_response(msg: &str, details: String) -> (r: ApiResponse)
    ensures
        r@ == server_error(msg@, details@),
{
    message(StatusCode::InternalServerError, Some(text("failed")), text(msg), Some(details))
}

} // verus!
