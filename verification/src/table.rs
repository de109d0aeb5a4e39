use vstd::prelude::*;
use crate::flows::{ActionView, EventView};
use crate::model::UserView;
use crate::password::phc_parses;

verus! {

/// The `users` table as a sequence of rows, in the order the database returns them.
pub type Table = Seq<UserView>;

/// No two rows share a username, no two rows share an email address, and
/// every stored password hash parses as a PHC string.
pub open spec fn table_inv(db: Table) -> bool {
    &&& forall|i: int, j: int|
        0 <= i < db.len() && 0 <= j < db.len() && i != j ==> {
            &&& (#[trigger] db[i]).username != (#[trigger] db[j]).username
            &&& db[i].email != db[j].email
        }
    &&& forall|i: int| 0 <= i < db.len() ==> phc_parses(#[trigger] db[i].password)
}

pub open spec fn named(username: Seq<char>) -> spec_fn(UserView) -> bool {
    |r: UserView| r.username == username
}

pub open spec fn with_email(email: Seq<char>) -> spec_fn(UserView) -> bool {
    |r: UserView| r.email == email
}

/// `SELECT * FROM users WHERE username = ?`
pub open spec fn rows_named(db: Table, username: Seq<char>) -> Table {
    db.filter(named(username))
}

/// `SELECT * FROM users WHERE email = ?`
pub open spec fn rows_with_email(db: Table, email: Seq<char>) -> Table {
    db.filter(with_email(email))
}

/// What the table answers to a lookup or a write of a register or update flow.
pub open spec fn table_answer(db: Table, action: ActionView) -> EventView {
    match action {
        ActionView::FindUsername(u) => EventView::UsernameRows(Ok(rows_named(db, u).len() as usize)),
        ActionView::FindEmail(e) => EventView::EmailRows(Ok(rows_with_email(db, e))),
        ActionView::InsertUser { .. } => EventView::Written(Ok(1)),
        ActionView::UpdateUser { current, .. } => EventView::Written(
            Ok(rows_named(db, current).len() as u64),
        ),
        _ => EventView::Received,
    }
}

/// The row written by an update.
pub open spec fn rewritten(
    current: Seq<char>,
    username: Seq<char>,
    email: Seq<char>,
    hash: Seq<char>,
    r: UserView,
) -> UserView {
    if r.username == current {
        UserView { username, email, password: hash }
    } else {
        r
    }
}

/// The table after a write: an insert appends a row; an update rewrites the
/// rows of `current`; other actions leave it alone.
pub open spec fn table_after(db: Table, action: ActionView) -> Table {
    match action {
        ActionView::InsertUser { username, email, password_hash } => db.push(
            UserView { username, email, password: password_hash },
        ),
        ActionView::UpdateUser { current, username, email, password_hash } => db.map_values(
            |r: UserView| rewritten(current, username, email, password_hash, r),
        ),
        _ => db,
    }
}

pub open spec fn not_named(username: Seq<char>) -> spec_fn(UserView) -> bool {
    |r: UserView| r.username != username
}

/// The table after `DELETE FROM users WHERE username = ?`.
pub open spec fn table_without(db: Table, username: Seq<char>) -> Table {
    db.filter(not_named(username))
}

/// What `DELETE FROM users WHERE username = ?` answers: the rows it touched.
pub open spec fn deleted_count(db: Table, username: Seq<char>) -> u64 {
    rows_named(db, username).len() as u64
}

/// What `SELECT * FROM users WHERE username = ?` read with `fetch_optional`
/// answers: the first row of that name, if any.
pub open spec fn table_read(db: Table, username: Seq<char>) -> Result<Option<UserView>, Seq<char>> {
    if rows_named(db, username).len() > 0 {
        Ok(Some(rows_named(db, username)[0]))
    } else {
        Ok(None)
    }
}

/// Filtering by a predicate that every element meets keeps the sequence.
pub proof fn lemma_filter_keeps_all(s: Table, pred: spec_fn(UserView) -> bool)
    requires
        forall|i: int| 0 <= i < s.len() ==> pred(#[trigger] s[i]),
    ensures
        s.filter(pred) == s,
    decreases s.len(),
{
    reveal(Seq::filter);
    if s.len() > 0 {
        lemma_filter_keeps_all(s.drop_last(), pred);
        assert(s.drop_last().push(s.last()) =~= s);
    }
}

/// A table row with this username exists.
pub proof fn lemma_named_row_is_found(db: Table, username: Seq<char>, j: int)
    requires
        0 <= j < db.len(),
        db[j].username == username,
    ensures
        rows_named(db, username).len() > 0,
{
    db.lemma_filter_contains(named(username), j);
}

/// A table row with this email address exists.
pub proof fn lemma_email_row_is_found(db: Table, email: Seq<char>, j: int)
    requires
        0 <= j < db.len(),
        db[j].email == email,
    ensures
        rows_with_email(db, email).len() > 0,
{
    db.lemma_filter_contains(with_email(email), j);
}

/// The first row found by email is a row of the table with that email.
pub proof fn lemma_email_row_in_table(db: Table, email: Seq<char>)
    requires
        rows_with_email(db, email).len() > 0,
    ensures
        exists|m: int| 0 <= m < db.len() && db[m] == rows_with_email(db, email)[0] && db[m].email
            == email,
{
    let rows = rows_with_email(db, email);
    db.lemma_filter_pred(with_email(email), 0);
    assert(rows.contains(rows[0]));
    db.lemma_filter_contains_rev(with_email(email), rows[0]);
}

} // verus!
