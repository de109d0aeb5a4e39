use vstd::prelude::*;
use crate::model::{LoginView, UserLogin, UserRegister, UserUpdate, UserView};
use crate::response::{
    errors_view, reports_view, text, FieldError, FieldErrorView, FieldReport, FieldReportView,
};

verus! {

broadcast use vstd::string::group_string_axioms;

/// A character of the class `[0-9a-zA-Z]`.
pub open spec fn is_alphanumeric(c: char) -> bool {
    ('0' <= c && c <= '9') || ('a' <= c && c <= 'z') || ('A' <= c && c <= 'Z')
}

/// The username format `^[0-9a-zA-Z]{5,}$`: five or more characters, each a
/// digit or an ASCII letter.
pub open spec fn username_pattern(s: Seq<char>) -> bool {
    &&& s.len() >= 5
    &&& forall|i: int| 0 <= i < s.len() ==> is_alphanumeric(#[trigger] s[i])
}

/// The `length(min, max)` rule: the number of characters lies in `min..=max`.
pub open spec fn length_within(s: Seq<char>, min: nat, max: nat) -> bool {
    min <= s.len() <= max
}

pub open spec fn rule_error(code: Seq<char>, message: Seq<char>) -> FieldErrorView {
    FieldErrorView { code, message: Some(message) }
}

/// The failed rules of a username: its length, then its format.
pub open spec fn username_errors(s: Seq<char>) -> Seq<FieldErrorView> {
    (if length_within(s, 3, 25) {
        Seq::empty()
    } else {
        seq![rule_error("length"@, "fails validation - must be 3-25 characters long"@)]
    }) + (if username_pattern(s) {
        Seq::empty()
    } else {
        seq![
            rule_error(
                "regex"@,
                "fails validation - is not only alphanumeric/underscore characters"@,
            ),
        ]
    })
}

/// The failed rules of an email address, given whether the email check accepted it.
pub open spec fn email_errors(accepted: bool) -> Seq<FieldErrorView> {
    if accepted {
        Seq::empty()
    } else {
        seq![rule_error("email"@, "fails validation - is not a valid email address"@)]
    }
}

/// The failed rules of a password: its length.
pub open spec fn password_errors(s: Seq<char>) -> Seq<FieldErrorView> {
    if length_within(s, 8, 75) {
        Seq::empty()
    } else {
        seq![rule_error("length"@, "fails validation - must be 8-75 characters long"@)]
    }
}

/// A field appears in a report only when one of its rules failed.
pub open spec fn field_report(field: Seq<char>, errors: Seq<FieldErrorView>) -> Seq<
    FieldReportView,
> {
    if errors.len() == 0 {
        Seq::empty()
    } else {
        seq![FieldReportView { field, errors }]
    }
}

/// The report on a register or update payload, fields in the order of their
/// names; `email_accepted` is the email check's answer on `u.email`.
pub open spec fn account_report(u: UserView, email_accepted: bool) -> Seq<FieldReportView> {
    credentials_report(u.username, email_accepted, u.password)
}

/// The report on a username, an email check's answer and a password.
pub open spec fn credentials_report(username: Seq<char>, email_accepted: bool, password: Seq<char>) -> Seq<
    FieldReportView,
> {
    field_report("email"@, email_errors(email_accepted)) + field_report(
        "password"@,
        password_errors(password),
    ) + field_report("username"@, username_errors(username))
}

/// The report on a login payload, fields in the order of their names.
pub open spec fn login_report(l: LoginView) -> Seq<FieldReportView> {
    field_report("password"@, password_errors(l.password)) + field_report(
        "username"@,
        username_errors(l.username),
    )
}

/// The failed fields of a payload; never empty when returned.
#[derive(Debug)]
pub struct ValidationErrors {
    pub reports: Vec<FieldReport>,
}

impl View for ValidationErrors {
    type V = Seq<FieldReportView>;

    open spec fn view(&self) -> Seq<FieldReportView> {
        reports_view(self.reports@)
    }
}

/// `r` is what validating against `report` gives: `Ok` on an empty report,
/// else the report itself.
pub open spec fn judged(r: Result<(), ValidationErrors>, report: Seq<FieldReportView>) -> bool {
    match r {
        Ok(_) => report.len() == 0,
        Err(e) => report.len() > 0 && e@ == report,
    }
}

/// What `validator::validate_email` answers on this text.
pub uninterp spec fn email_accepted(email: Seq<char>) -> bool;

/// Calls `validator::validate_email`, the check behind the `email` rule of the
/// payloads. Its answer is named by `email_accepted`. The function refuses an
/// empty text and a text without `'@'` before anything else; which other texts
/// it accepts (HTML5 address syntax, IDNA domains, IP literals) is left unsaid.
#[verifier::external_body]
fn email_check(email: &str) -> (r: bool)
    ensures
        r == email_accepted(email@),
        !email@.contains('@') ==> !r,
{
    validator::validate_email(email)
}

pub fn is_alphanumeric_char(c: char) -> (r: bool)
    ensures
        r == is_alphanumeric(c),
{
    ('0' <= c && c <= '9') || ('a' <= c && c <= 'z') || ('A' <= c && c <= 'Z')
}

/// Whether `s` has the username format `^[0-9a-zA-Z]{5,}$`.
pub fn matches_username_pattern(s: &str) -> (r: bool)
    ensures
        r == username_pattern(s@),
{
    let n = s.unicode_len();
    if n < 5 {
        return false;
    }
    for c in it: s.chars()
        invariant
            it.seq() == s@,
            forall|j: int| 0 <= j < it.index() ==> is_alphanumeric(#[trigger] s@[j]),
    {
        if !is_alphanumeric_char(c) {
            return false;
        }
    }
    true
}

/// Whether `s` has between `min` and `max` characters, both included.
pub fn length_between(s: &str, min: usize, max: usize) -> (r: bool)
    ensures
        r == length_within(s@, min as nat, max as nat),
{
    let n = s.unicode_len();
    min <= n && n <= max
}

fn rule(code: &str, message: &str) -> (r: FieldError)
    ensures
        r@ == rule_error(code@, message@),
{
    FieldError { code: text(code), message: Some(text(message)) }
}

/// The failed rules of a username, in the order they are checked.
pub fn username_errors_of(username: &str) -> (r: Vec<FieldError>)
    ensures
        errors_view(r@) == username_errors(username@),
{
    let mut r: Vec<FieldError> = Vec::new();
    if !length_between(username, 3, 25) {
        r.push(rule("length", "fails validation - must be 3-25 characters long"));
    }
    if !matches_username_pattern(username) {
        r.push(rule("regex", "fails validation - is not only alphanumeric/underscore characters"));
    }
    assert(errors_view(r@) =~= username_errors(username@));
    r
}

/// The failed rules of an email address, given the email check's answer.
pub fn email_errors_of(accepted: bool) -> (r: Vec<FieldError>)
    ensures
        errors_view(r@) == email_errors(accepted),
{
    let mut r: Vec<FieldError> = Vec::new();
    if !accepted {
        r.push(rule("email", "fails validation - is not a valid email address"));
    }
    assert(errors_view(r@) =~= email_errors(accepted));
    r
}

/// The failed rules of a password.
pub fn password_errors_of(password: &str) -> (r: Vec<FieldError>)
    ensures
        errors_view(r@) == password_errors(password@),
{
    let mut r: Vec<FieldError> = Vec::new();
    if !length_between(password, 8, 75) {
        r.push(rule("length", "fails validation - must be 8-75 characters long"));
    }
    assert(errors_view(r@) =~= password_errors(password@));
    r
}

/// Appends the report of `field` when `errors` is not empty.
fn add_report(reports: &mut Vec<FieldReport>, field: &str, errors: Vec<FieldError>)
    ensures
        reports_view(final(reports)@) == reports_view(old(reports)@) + field_report(
            field@,
            errors_view(errors@),
        ),
{
    let ghost expected = reports_view(old(reports)@) + field_report(field@, errors_view(errors@));
    if errors.len() > 0 {
        reports.push(FieldReport { field: text(field), errors });
    }
    assert(reports_view(reports@) =~= expected);
}

fn judge(reports: Vec<FieldReport>) -> (r: Result<(), ValidationErrors>)
    ensures
        judged(r, reports_view(reports@)),
{
    if reports.len() == 0 {
        Ok(())
    } else {
        Err(ValidationErrors { reports })
    }
}

/// Checks the rules of a register or update payload, given the email check's
/// answer on its email address.
pub fn validate_account(username: &str, email_accepted: bool, password: &str) -> (r: Result<
    (),
    ValidationErrors,
>)
    ensures
        judged(r, credentials_report(username@, email_accepted, password@)),
{
    let mut reports: Vec<FieldReport> = Vec::new();
    add_report(&mut reports, "email", email_errors_of(email_accepted));
    add_report(&mut reports, "password", password_errors_of(password));
    add_report(&mut reports, "username", username_errors_of(username));
    judge(reports)
}

impl UserRegister {
    /// The rules of the payload, with `email_accepted` standing for the email
    /// check's answer on `self.email`.
    pub fn validate_given(&self, email_accepted: bool) -> (r: Result<(), ValidationErrors>)
        ensures
            judged(r, account_report(self@, email_accepted)),
    {
        validate_account(self.username.as_str(), email_accepted, self.password.as_str())
    }

    /// Checks the payload: username of 3 to 25 characters in the format
    /// `^[0-9a-zA-Z]{5,}$`, an email address that the email check accepts,
    /// a password of 8 to 75 characters.
    pub fn validate(&self) -> (r: Result<(), ValidationErrors>)
        ensures
            judged(r, account_report(self@, email_accepted(self.email@))),
            !self.email@.contains('@') ==> r is Err,
    {
        let accepted = email_check(self.email.as_str());
        self.validate_given(accepted)
    }
}

impl UserUpdate {
    /// The rules of the payload, with `email_accepted` standing for the email
    /// check's answer on `self.email`.
    pub fn validate_given(&self, email_accepted: bool) -> (r: Result<(), ValidationErrors>)
        ensures
            judged(r, account_report(self@, email_accepted)),
    {
        validate_account(self.username.as_str(), email_accepted, self.password.as_str())
    }

    /// Checks the payload by the same rules as a registration.
    pub fn validate(&self) -> (r: Result<(), ValidationErrors>)
        ensures
            judged(r, account_report(self@, email_accepted(self.email@))),
            !self.email@.contains('@') ==> r is Err,
    {
        let accepted = email_check(self.email.as_str());
        self.validate_given(accepted)
    }
}

impl UserLogin {
    /// Checks the payload: username and password by the registration rules.
    pub fn validate(&self) -> (r: Result<(), ValidationErrors>)
        ensures
            judged(r, login_report(self@)),
    {
        let mut reports: Vec<FieldReport> = Vec::new();
        add_report(&mut reports, "password", password_errors_of(self.password.as_str()));
        add_report(&mut reports, "username", username_errors_of(self.username.as_str()));
        judge(reports)
    }
}

} // verus!
