use vstd::prelude::*;
use vstd::utf8::encode_utf8;
use crate::flows::{
    authenticated, hashable, inserts, login_step, password_bytes, register_allows,
    stored_hash_of, update_allows, updates, ActionView, EventView, Stage,
};
use crate::model::{LoginView, UserView};
use crate::password::{argon2_phc, hashing_failed, min_phc_len, phc_of_salt_only};
use crate::replies::{deletion, email_conflict, single_user, user_list, username_conflict};
use crate::replies::notice;
use crate::response::{failure_label, success_label, BodyView, ResponseView, StatusCode};
use crate::table::{
    deleted_count, lemma_email_row_in_table, lemma_email_row_is_found, lemma_filter_keeps_all,
    lemma_named_row_is_found, named, not_named, rewritten, rows_named, rows_with_email, table_after,
    table_answer, table_inv, table_read, table_without, Table,
};
use crate::validation::{account_report, is_alphanumeric, login_report, username_pattern};

verus! {

/// A run of registration: `stages[i]` is the stage before event `i`, and each
/// step from it was allowed.
pub open spec fn register_run(
    p: UserView,
    email_ok: bool,
    stages: Seq<Stage>,
    events: Seq<EventView>,
    actions: Seq<ActionView>,
) -> bool {
    &&& stages.len() == events.len() + 1
    &&& actions.len() == events.len()
    &&& stages[0] == Stage::Start
    &&& forall|i: int|
        0 <= i < events.len() ==> register_allows(
            p,
            email_ok,
            #[trigger] stages[i],
            events[i],
            stages[i + 1],
            actions[i],
        )
}

/// A run of an update of the user `current`.
pub open spec fn update_run(
    current: Seq<char>,
    p: UserView,
    email_ok: bool,
    stages: Seq<Stage>,
    events: Seq<EventView>,
    actions: Seq<ActionView>,
) -> bool {
    &&& stages.len() == events.len() + 1
    &&& actions.len() == events.len()
    &&& stages[0] == Stage::Start
    &&& forall|i: int|
        0 <= i < events.len() ==> update_allows(
            current,
            p,
            email_ok,
            #[trigger] stages[i],
            events[i],
            stages[i + 1],
            actions[i],
        )
}

/// A registration inserts a user only as its third step, after the payload
/// passed validation, the username lookup found no row, and the email lookup
/// found no row of another user.
pub proof fn law_register_inserts_only_checked_users(
    p: UserView,
    email_ok: bool,
    stages: Seq<Stage>,
    events: Seq<EventView>,
    actions: Seq<ActionView>,
    k: int,
)
    requires
        register_run(p, email_ok, stages, events, actions),
        0 <= k < actions.len(),
        actions[k] is InsertUser,
    ensures
        k == 2,
        account_report(p, email_ok).len() == 0,
        events[1] == EventView::UsernameRows(Ok(0)),
        events[2] matches EventView::EmailRows(found) && email_conflict(
            p.email,
            p.username,
            found,
        ) is None,
{
    assert(register_allows(p, email_ok, stages[k], events[k], stages[k + 1], actions[k]));
    assert(stages[k] == Stage::CheckEmail);
    assert(k >= 1);
    assert(register_allows(p, email_ok, stages[k - 1], events[k - 1], stages[k], actions[k - 1]));
    assert(stages[k - 1] == Stage::CheckUsername);
    assert(k >= 2);
    assert(register_allows(p, email_ok, stages[k - 2], events[k - 2], stages[k - 1], actions[k - 2]));
    assert(stages[k - 2] == Stage::Start);
    if k > 2 {
        assert(register_allows(
            p,
            email_ok,
            stages[k - 3],
            events[k - 3],
            stages[k - 2],
            actions[k - 3],
        ));
    }
    if let EventView::UsernameRows(found) = events[1] {
        assert(username_conflict(p.username, found) is None);
    }
}

/// An update rewrites the row only after the payload passed validation and
/// the email lookup found no row of another user. The new username is looked
/// up (and found free) exactly when it differs from the current one: an
/// unchanged username writes at the second step, a changed one at the third.
pub proof fn law_update_writes_only_checked_users(
    current: Seq<char>,
    p: UserView,
    email_ok: bool,
    stages: Seq<Stage>,
    events: Seq<EventView>,
    actions: Seq<ActionView>,
    k: int,
)
    requires
        update_run(current, p, email_ok, stages, events, actions),
        0 <= k < actions.len(),
        actions[k] is UpdateUser,
    ensures
        account_report(p, email_ok).len() == 0,
        events[k] matches EventView::EmailRows(found) && email_conflict(p.email, current, found)
            is None,
        current == p.username ==> k == 1,
        current != p.username ==> k == 2 && events[1] == EventView::UsernameRows(Ok(0)),
{
    assert(update_allows(current, p, email_ok, stages[k], events[k], stages[k + 1], actions[k]));
    assert(stages[k] == Stage::CheckEmail);
    assert(k >= 1);
    assert(update_allows(
        current,
        p,
        email_ok,
        stages[k - 1],
        events[k - 1],
        stages[k],
        actions[k - 1],
    ));
    if stages[k - 1] == Stage::Start {
        if k > 1 {
            assert(update_allows(
                current,
                p,
                email_ok,
                stages[k - 2],
                events[k - 2],
                stages[k - 1],
                actions[k - 2],
            ));
        }
    } else {
        assert(stages[k - 1] == Stage::CheckUsername);
        assert(k >= 2);
        assert(update_allows(
            current,
            p,
            email_ok,
            stages[k - 2],
            events[k - 2],
            stages[k - 1],
            actions[k - 2],
        ));
        assert(stages[k - 2] == Stage::Start);
        if k > 2 {
            assert(update_allows(
                current,
                p,
                email_ok,
                stages[k - 3],
                events[k - 3],
                stages[k - 2],
                actions[k - 3],
            ));
        }
        if let EventView::UsernameRows(found) = events[1] {
            assert(username_conflict(p.username, found) is None);
        }
    }
}

/// What registration stores is read back by login: a login with the password
/// that was registered, against the hash that registration inserted, is
/// accepted with 200.
pub proof fn law_registered_password_logs_in(
    p: UserView,
    email_ok: bool,
    stage: Stage,
    event: EventView,
    next: Stage,
    username: Seq<char>,
    email: Seq<char>,
    password_hash: Seq<char>,
    login: LoginView,
)
    requires
        register_allows(
            p,
            email_ok,
            stage,
            event,
            next,
            ActionView::InsertUser { username, email, password_hash },
        ),
        login.password == p.password,
    ensures
        login_step(login, Stage::CheckPassword, EventView::StoredPassword(Ok(password_hash)))
            == (Stage::Finished, ActionView::Reply(authenticated())),
{
}

/// The same of an update: the new password logs in against the hash it wrote.
pub proof fn law_updated_password_logs_in(
    current: Seq<char>,
    p: UserView,
    email_ok: bool,
    stage: Stage,
    event: EventView,
    next: Stage,
    username: Seq<char>,
    email: Seq<char>,
    password_hash: Seq<char>,
    login: LoginView,
)
    requires
        update_allows(
            current,
            p,
            email_ok,
            stage,
            event,
            next,
            ActionView::UpdateUser { current, username, email, password_hash },
        ),
        login.password == p.password,
    ensures
        login_step(login, Stage::CheckPassword, EventView::StoredPassword(Ok(password_hash)))
            == (Stage::Finished, ActionView::Reply(authenticated())),
{
}

/// A login is accepted only where the password verifies against the stored
/// hash, and only after the payload passed validation.
pub proof fn law_login_accepts_only_verified_passwords(
    login: LoginView,
    stage: Stage,
    event: EventView,
)
    requires
        login_step(login, stage, event).1 == ActionView::Reply(authenticated()),
    ensures
        event matches EventView::StoredPassword(Ok(stored)) && crate::flows::hash_of(
            login.password,
            stored,
        ),
{
    if event is Received {
        let report = login_report(login);
        if report.len() > 0 {
            assert(crate::replies::validation_failed(report).status != authenticated().status);
        }
    }
}

/// Every payload that passes validation has a username of 5 to 25 characters,
/// each a digit or an ASCII letter, an email address that the email check
/// accepts, and a password of 8 to 75 characters.
pub proof fn law_accepted_accounts_are_well_formed(u: UserView, email_ok: bool)
    requires
        account_report(u, email_ok).len() == 0,
    ensures
        5 <= u.username.len() <= 25,
        forall|i: int| 0 <= i < u.username.len() ==> is_alphanumeric(#[trigger] u.username[i]),
        email_ok,
        8 <= u.password.len() <= 75,
        password_bytes(u.password).len() <= 300,
        hashable(u.password),
{
    assert(username_pattern(u.username));
    lemma_utf8_len_bound(u.password);
}

/// Each character takes at most four bytes in UTF-8.
pub proof fn lemma_utf8_len_bound(chars: Seq<char>)
    ensures
        encode_utf8(chars).len() <= 4 * chars.len(),
    decreases chars.len(),
{
    if chars.len() > 0 {
        lemma_utf8_len_bound(chars.drop_first());
    }
}

/// The same of a login payload, for its username and password.
pub proof fn law_accepted_logins_are_well_formed(l: LoginView)
    requires
        login_report(l).len() == 0,
    ensures
        5 <= l.username.len() <= 25,
        forall|i: int| 0 <= i < l.username.len() ==> is_alphanumeric(#[trigger] l.username[i]),
        8 <= l.password.len() <= 75,
{
    assert(username_pattern(l.username));
}

/// The user's own row is never a conflict: an email address whose first row
/// belongs to `username` is let through.
pub proof fn law_own_email_is_no_conflict(
    email: Seq<char>,
    username: Seq<char>,
    rows: Seq<UserView>,
)
    requires
        rows.len() >= 1,
        rows[0].username == username,
    ensures
        email_conflict(email, username, Ok(rows)) is None,
{
}

/// The `"status"` of every reply of a registration step agrees with its HTTP
/// status: `"success"` on 2xx, `"failed"` otherwise.
pub proof fn law_register_replies_are_well_labelled(
    p: UserView,
    email_ok: bool,
    stage: Stage,
    event: EventView,
    next: Stage,
    action: ActionView,
)
    requires
        register_allows(p, email_ok, stage, event, next, action),
        action is Reply,
    ensures
        action->Reply_0.well_labelled(),
{
}

/// The same of an update step.
pub proof fn law_update_replies_are_well_labelled(
    current: Seq<char>,
    p: UserView,
    email_ok: bool,
    stage: Stage,
    event: EventView,
    next: Stage,
    action: ActionView,
)
    requires
        update_allows(current, p, email_ok, stage, event, next, action),
        action is Reply,
    ensures
        action->Reply_0.well_labelled(),
{
}

/// The same of a login step.
pub proof fn law_login_replies_are_well_labelled(login: LoginView, stage: Stage, event: EventView)
    requires
        login_step(login, stage, event).1 is Reply,
    ensures
        login_step(login, stage, event).1->Reply_0.well_labelled(),
{
}

/// The same of the replies to reading one user, listing the users, deleting a
/// user, and a failed hashing.
pub proof fn law_other_replies_are_well_labelled(
    username: Seq<char>,
    one: Result<Option<UserView>, Seq<char>>,
    all: Result<Seq<UserView>, Seq<char>>,
    affected: Result<u64, Seq<char>>,
    details: Seq<char>,
)
    ensures
        single_user(username, one).well_labelled(),
        user_list(all).well_labelled(),
        deletion(username, affected).well_labelled(),
        hashing_failed(details).well_labelled(),
{
}

/// A registration run against the table `db` that nothing else writes: each
/// answer is the table's answer to the previous action.
pub open spec fn answered_by(db: Table, events: Seq<EventView>, actions: Seq<ActionView>, k: int) -> bool {
    forall|i: int| 1 <= i <= k ==> #[trigger] events[i] == table_answer(db, actions[i - 1])
}

/// Registration keeps usernames and email addresses unique: where the table
/// held no two rows with the same username or email and answered the run's
/// lookups, the table after the insert still holds none; and the registered
/// user reads back as exactly one row, with a stored hash of its password.
pub proof fn law_register_keeps_users_unique(
    p: UserView,
    email_ok: bool,
    stages: Seq<Stage>,
    events: Seq<EventView>,
    actions: Seq<ActionView>,
    k: int,
    db: Table,
)
    requires
        register_run(p, email_ok, stages, events, actions),
        0 <= k < actions.len(),
        actions[k] is InsertUser,
        table_inv(db),
        db.len() <= usize::MAX,
        answered_by(db, events, actions, k),
    ensures
        table_inv(table_after(db, actions[k])),
        rows_named(table_after(db, actions[k]), p.username).len() == 1,
        rows_named(table_after(db, actions[k]), p.username)[0].email == p.email,
        stored_hash_of(p.password, rows_named(table_after(db, actions[k]), p.username)[0].password),
{
    law_register_inserts_only_checked_users(p, email_ok, stages, events, actions, k);
    assert(register_allows(p, email_ok, stages[0], events[0], stages[1], actions[0]));
    assert(actions[0] == ActionView::FindUsername(p.username));
    assert(register_allows(p, email_ok, stages[1], events[1], stages[2], actions[1]));
    assert(actions[1] == ActionView::FindEmail(p.email));
    assert(register_allows(p, email_ok, stages[2], events[2], stages[3], actions[2]));
    assert(events[1] == table_answer(db, actions[0]));
    assert(events[2] == table_answer(db, actions[1]));
    db.lemma_filter_len(named(p.username));
    assert(rows_named(db, p.username).len() == 0);
    assert forall|j: int| 0 <= j < db.len() implies db[j].username != p.username by {
        if db[j].username == p.username {
            lemma_named_row_is_found(db, p.username, j);
        }
    }
    let rows = rows_with_email(db, p.email);
    if rows.len() > 0 {
        lemma_email_row_in_table(db, p.email);
        assert(false);
    }
    assert forall|j: int| 0 <= j < db.len() implies db[j].email != p.email by {
        if db[j].email == p.email {
            lemma_email_row_is_found(db, p.email, j);
        }
    }
    let new_row = match actions[2] {
        ActionView::InsertUser { username, email, password_hash } => UserView {
            username,
            email,
            password: password_hash,
        },
        _ => p,
    };
    let after = table_after(db, actions[2]);
    assert(after == db.push(new_row));
    assert forall|i: int, j: int|
        0 <= i < after.len() && 0 <= j < after.len() && i != j implies {
        &&& (#[trigger] after[i]).username != (#[trigger] after[j]).username
        &&& after[i].email != after[j].email
    } by {
        if i < db.len() && j < db.len() {
            assert(after[i] == db[i] && after[j] == db[j]);
        }
    }
    db.lemma_filter_push(new_row, named(p.username));
    assert(rows_named(db, p.username) =~= Seq::<UserView>::empty());
    assert(rows_named(after, p.username) =~= seq![new_row]);
}

/// Updates keep usernames and email addresses unique: where the table held no
/// two rows with the same username or email and answered the run's lookups,
/// the table after the update still holds none.
pub proof fn law_update_keeps_users_unique(
    current: Seq<char>,
    p: UserView,
    email_ok: bool,
    stages: Seq<Stage>,
    events: Seq<EventView>,
    actions: Seq<ActionView>,
    k: int,
    db: Table,
)
    requires
        update_run(current, p, email_ok, stages, events, actions),
        0 <= k < actions.len(),
        actions[k] is UpdateUser,
        table_inv(db),
        db.len() <= usize::MAX,
        answered_by(db, events, actions, k),
    ensures
        table_inv(table_after(db, actions[k])),
{
    law_update_writes_only_checked_users(current, p, email_ok, stages, events, actions, k);
    assert(update_allows(current, p, email_ok, stages[0], events[0], stages[1], actions[0]));
    assert(update_allows(current, p, email_ok, stages[k], events[k], stages[k + 1], actions[k]));
    // the email lookup is the step before the write
    if k == 2 {
        assert(actions[0] == ActionView::FindUsername(p.username));
        assert(update_allows(current, p, email_ok, stages[1], events[1], stages[2], actions[1]));
        assert(events[1] == table_answer(db, actions[0]));
        db.lemma_filter_len(named(p.username));
        assert forall|j: int| 0 <= j < db.len() implies db[j].username != p.username by {
            if db[j].username == p.username {
                lemma_named_row_is_found(db, p.username, j);
            }
        }
    }
    assert(actions[k - 1] == ActionView::FindEmail(p.email));
    assert(events[k] == table_answer(db, actions[k - 1]));
    let rows = rows_with_email(db, p.email);
    // every row with the new email address is the row of `current`
    assert forall|j: int| 0 <= j < db.len() && db[j].email == p.email implies db[j].username
        == current by {
        lemma_email_row_is_found(db, p.email, j);
        lemma_email_row_in_table(db, p.email);
        let m = choose|m: int| 0 <= m < db.len() && db[m] == rows[0] && db[m].email == p.email;
        if m != j {
            assert(db[m].email != db[j].email);
        }
    }
    let (u, e, h) = match actions[k] {
        ActionView::UpdateUser { username, email, password_hash, .. } => (
            username,
            email,
            password_hash,
        ),
        _ => (p.username, p.email, p.password),
    };
    assert(u == p.username && e == p.email);
    let after = table_after(db, actions[k]);
    assert(after == db.map_values(|r: UserView| rewritten(current, u, e, h, r)));
    assert forall|i: int, j: int|
        0 <= i < after.len() && 0 <= j < after.len() && i != j implies {
        &&& (#[trigger] after[i]).username != (#[trigger] after[j]).username
        &&& after[i].email != after[j].email
    } by {
        assert(after[i] == rewritten(current, u, e, h, db[i]));
        assert(after[j] == rewritten(current, u, e, h, db[j]));
        assert(db[i].username != db[j].username && db[i].email != db[j].email);
        if db[i].username == current {
            assert(db[j].username != current);
            assert(db[j].email != p.email);
        } else if db[j].username == current {
            assert(db[i].email != p.email);
        }
    }
}

/// After a delete the user is gone: no row of the table bears its name, a read
/// answers 404 `"user {username} not found"`, and a second delete touches no
/// row, answers 400 `"user {username} cannot deleted"` and leaves the table as
/// it was.
pub proof fn law_deleted_user_is_gone(db: Table, username: Seq<char>)
    ensures
        rows_named(table_without(db, username), username).len() == 0,
        single_user(username, table_read(table_without(db, username), username)) == notice(
            StatusCode::NotFound,
            failure_label(),
            "user "@ + username + " not found"@,
        ),
        deleted_count(table_without(db, username), username) == 0,
        deletion(username, Ok(deleted_count(table_without(db, username), username))) == notice(
            StatusCode::BadRequest,
            failure_label(),
            "user "@ + username + " cannot "@ + "deleted"@,
        ),
        table_without(table_without(db, username), username) == table_without(db, username),
{
    let after = table_without(db, username);
    if rows_named(after, username).len() > 0 {
        after.lemma_filter_pred(named(username), 0);
        let r = rows_named(after, username)[0];
        assert(rows_named(after, username).contains(r));
        after.lemma_filter_contains_rev(named(username), r);
        let m = choose|m: int| 0 <= m < after.len() && after[m] == r;
        db.lemma_filter_pred(not_named(username), m);
    }
    assert forall|i: int| 0 <= i < after.len() implies (not_named(username))(#[trigger] after[i]) by {
        db.lemma_filter_pred(not_named(username), i);
    }
    lemma_filter_keeps_all(after, not_named(username));
}

/// What registration writes reads back: after the insert, reading the new
/// username answers 200 with the registered email address and a stored hash of
/// the password.
pub proof fn law_registered_user_reads_back(
    p: UserView,
    email_ok: bool,
    stages: Seq<Stage>,
    events: Seq<EventView>,
    actions: Seq<ActionView>,
    k: int,
    db: Table,
)
    requires
        register_run(p, email_ok, stages, events, actions),
        0 <= k < actions.len(),
        actions[k] is InsertUser,
        table_inv(db),
        db.len() <= usize::MAX,
        answered_by(db, events, actions, k),
    ensures
        exists|h: Seq<char>|
            stored_hash_of(p.password, h) && #[trigger] single_user(
                p.username,
                table_read(table_after(db, actions[k]), p.username),
            ) == (ResponseView {
                status: StatusCode::Okay,
                body: BodyView::SingleUser {
                    status: success_label(),
                    data: UserView { username: p.username, email: p.email, password: h },
                },
            }),
{
    law_register_keeps_users_unique(p, email_ok, stages, events, actions, k, db);
    let row = rows_named(table_after(db, actions[k]), p.username)[0];
    table_after(db, actions[k]).lemma_filter_pred(named(p.username), 0);
    assert(row == UserView { username: p.username, email: p.email, password: row.password });
    assert(stored_hash_of(p.password, row.password));
}

/// A registration whose payload passed validation and whose email lookup found
/// no row of another user goes on to insert the user with a stored hash of its
/// password: it is not given up.
pub proof fn law_valid_registration_is_written(
    p: UserView,
    email_ok: bool,
    found: Result<Seq<UserView>, Seq<char>>,
    next: Stage,
    action: ActionView,
)
    requires
        account_report(p, email_ok).len() == 0,
        email_conflict(p.email, p.username, found) is None,
        register_allows(p, email_ok, Stage::CheckEmail, EventView::EmailRows(found), next, action),
    ensures
        next == Stage::Store,
        inserts(p, action),
{
    law_accepted_accounts_are_well_formed(p, email_ok);
}

/// The same of an update: it goes on to rewrite the row of `current`.
pub proof fn law_valid_update_is_written(
    current: Seq<char>,
    p: UserView,
    email_ok: bool,
    found: Result<Seq<UserView>, Seq<char>>,
    next: Stage,
    action: ActionView,
)
    requires
        account_report(p, email_ok).len() == 0,
        email_conflict(p.email, current, found) is None,
        update_allows(
            current,
            p,
            email_ok,
            Stage::CheckEmail,
            EventView::EmailRows(found),
            next,
            action,
        ),
    ensures
        next == Stage::Store,
        updates(current, p, action),
{
    law_accepted_accounts_are_well_formed(p, email_ok);
}

/// The service never stores a password in the clear: a stored hash is at least
/// 86 characters long, so it differs from every password the rules accept (at
/// most 75 characters), and from any other password shorter than that.
pub proof fn law_stored_hash_is_not_the_password(password: Seq<char>, h: Seq<char>)
    requires
        stored_hash_of(password, h),
        password.len() < min_phc_len(),
    ensures
        h != password,
{
}

/// Hashes drawn with different salts differ: each stored string is argon2's
/// hash of the password with its own salt, and with no other salt.
pub proof fn law_distinct_salts_give_distinct_hashes(
    password: Seq<u8>,
    salt1: Seq<u8>,
    salt2: Seq<u8>,
    h1: Seq<char>,
    h2: Seq<char>,
)
    requires
        phc_of_salt_only(password, salt1, h1),
        phc_of_salt_only(password, salt2, h2),
        8 <= salt2.len() <= 48,
        salt1 != salt2,
    ensures
        h1 != h2,
{
    if h1 == h2 {
        assert(argon2_phc(password, salt2) == Ok::<Seq<char>, Seq<char>>(h1));
    }
}

} // verus!
