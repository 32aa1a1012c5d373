//! The decisions of the database adapter and its error type.
use vstd::prelude::*;

use crate::adapters::db::models::{Review, User};
use crate::models::Id;

verus! {

/// Failures of the database adapter.
#[derive(Debug)]
pub enum DbError {
    /// The driver failed; holds the driver's description of the failure.
    Sqlx(String),
    /// The username is already taken; holds the username.
    UsernameConflict(String),
    /// No row matched.
    NotFound,
}

/// The text a database failure is shown as.
pub open spec fn db_error_text(e: DbError) -> Seq<char> {
    match e {
        DbError::Sqlx(s) => "Database error: "@ + s@,
        DbError::UsernameConflict(u) => "Username already exists: "@ + u@,
        DbError::NotFound => "Not found"@,
    }
}

impl DbError {
    /// The text this failure is shown as.
    pub fn to_string(&self) -> (t: String)
        ensures
            t@ == db_error_text(*self),
    {
        match self {
            DbError::Sqlx(s) => {
                let mut t = String::from_str("Database error: ");
                t.append(s.as_str());
                t
            },
            DbError::UsernameConflict(u) => {
                let mut t = String::from_str("Username already exists: ");
                t.append(u.as_str());
                t
            },
            DbError::NotFound => String::from_str("Not found"),
        }
    }
}

/// Decides a registration after looking the username up: it may go ahead
/// only when no user has the name, and otherwise fails naming it.
pub fn check_username_free(username: &str, existing: Option<Id>) -> (r: Result<(), DbError>)
    ensures
        r is Ok <==> existing is None,
        r matches Err(e) ==> e matches DbError::UsernameConflict(u) && u@ == username@,
{
    match existing {
        Some(_) => Err(DbError::UsernameConflict(String::from_str(username))),
        None => Ok(()),
    }
}

/// What a login attempt comes to once the username has been looked up.
#[derive(Debug, PartialEq, Eq, Structural)]
pub enum LoginDecision {
    /// The user exists and the passcode differs: no user id is given.
    Reject,
    /// The user exists and the passcode matches: this is their id.
    Accept(Id),
    /// No such user: register one with these credentials.
    Register,
}

/// The entry a login finds under a username: the user's id and passcode.
pub open spec fn user_entry(existing: Option<User>) -> Option<(Id, Seq<char>)> {
    match existing {
        Some(u) => Some((u.id, u.passcode@)),
        None => None,
    }
}

/// The decision of a login with `passcode` against the entry found under the
/// username: a matching passcode gives the user's id, another is refused, and
/// an unknown name registers.
pub open spec fn login_decision(entry: Option<(Id, Seq<char>)>, passcode: Seq<char>) -> LoginDecision {
    match entry {
        Some((id, stored)) => if stored == passcode { LoginDecision::Accept(id) } else { LoginDecision::Reject },
        None => LoginDecision::Register,
    }
}

/// Decides a login attempt with `passcode` against the user found under the
/// username, if any.
pub fn decide_login(passcode: &str, existing: Option<User>) -> (d: LoginDecision)
    ensures
        d == login_decision(user_entry(existing), passcode@),
{
    match existing {
        Some(user) => {
            let given = String::from_str(passcode);
            if user.passcode == given {
                LoginDecision::Accept(user.id)
            } else {
                LoginDecision::Reject
            }
        },
        None => LoginDecision::Register,
    }
}

/// The users table as logins see it: each username with its user's id and
/// passcode.
pub type UsersTable = Map<Seq<char>, (Id, Seq<char>)>;

/// A login against the users table: the id answered (`None` when the passcode
/// is refused) and the table afterwards. An unknown username is registered
/// with the passcode under the id `fresh` that the database assigns.
pub open spec fn login_in(users: UsersTable, username: Seq<char>, passcode: Seq<char>, fresh: Id) -> (Option<Id>, UsersTable) {
    let entry = if users.contains_key(username) { Some(users[username]) } else { None };
    match login_decision(entry, passcode) {
        LoginDecision::Accept(id) => (Some(id), users),
        LoginDecision::Reject => (None, users),
        LoginDecision::Register => (Some(fresh), users.insert(username, (fresh, passcode))),
    }
}

/// Logging in twice with the same credentials, with no other change to the
/// users table in between, answers the same id the second time and adds no
/// user; and once a login has answered an id, any other passcode for that
/// username is refused and changes nothing.
pub proof fn lemma_login_twice(
    users: UsersTable,
    username: Seq<char>,
    passcode: Seq<char>,
    other: Seq<char>,
    fresh: Id,
    fresh_again: Id,
)
    requires
        other != passcode,
    ensures
        ({
            let (first, after) = login_in(users, username, passcode, fresh);
            first is Some ==> {
                &&& login_in(after, username, passcode, fresh_again) == (first, after)
                &&& login_in(after, username, other, fresh_again) == (None::<Id>, after)
            }
        }),
{
}

/// The result of an update that returns the changed row: a missing row means
/// no review had the id.
pub fn updated_or_not_found(row: Option<Review>) -> (r: Result<Review, DbError>)
    ensures
        match row {
            Some(review) => r == Ok::<Review, DbError>(review),
            None => r matches Err(DbError::NotFound),
        },
{
    match row {
        Some(review) => Ok(review),
        None => Err(DbError::NotFound),
    }
}

/// A statement of the transaction that records a recommendation.
#[derive(Debug)]
pub enum RecordStep {
    /// Open the transaction.
    Begin,
    /// Delete the earlier recommendations of the series.
    DeleteEarlier { tmdb_series_id: i64 },
    /// Insert the recommendation.
    Insert { tmdb_series_id: i64, confidence: i16 },
    /// Commit the transaction.
    Commit,
    /// The transaction is over with this outcome; on failure it was not
    /// committed.
    Done(Result<(), DbError>),
}

/// The `k`-th statement of the transaction that records a recommendation:
/// open, delete earlier rows of the series, insert the new row, commit.
pub open spec fn record_plan(tmdb_series_id: i64, confidence: i16, k: nat) -> RecordStep {
    if k == 0 {
        RecordStep::Begin
    } else if k == 1 {
        RecordStep::DeleteEarlier { tmdb_series_id }
    } else if k == 2 {
        RecordStep::Insert { tmdb_series_id, confidence }
    } else {
        RecordStep::Commit
    }
}

/// The number of statements in the recording transaction.
pub open spec fn record_plan_len() -> nat {
    4
}

/// The recording of a recommendation: re-recommending a series replaces its
/// earlier rows, so that the creation time and confidence are those of the
/// latest suggestion; all of it in one transaction.
pub struct RecordRecommendation {
    tmdb_series_id: i64,
    confidence: i16,
    issued: u8,
}

impl RecordRecommendation {
    /// The series being recorded.
    pub closed spec fn series(&self) -> i64 {
        self.tmdb_series_id
    }

    /// The confidence being recorded.
    pub closed spec fn confidence(&self) -> i16 {
        self.confidence
    }

    /// How many statements have been issued.
    pub closed spec fn issued(&self) -> nat {
        self.issued as nat
    }

    /// The recording awaits the outcome of its latest statement.
    pub closed spec fn wf(&self) -> bool {
        1 <= self.issued <= 4
    }

    /// Starts recording; the first statement opens the transaction.
    pub fn start(tmdb_series_id: i64, confidence: i16) -> (res: (RecordRecommendation, RecordStep))
        ensures
            res.0.wf(),
            res.0.series() == tmdb_series_id,
            res.0.confidence() == confidence,
            res.0.issued() == 1,
            res.1 == record_plan(tmdb_series_id, confidence, 0),
    {
        (RecordRecommendation { tmdb_series_id, confidence, issued: 1 }, RecordStep::Begin)
    }

    /// Takes the outcome of the latest statement: a failure ends the
    /// transaction uncommitted with that failure; a success issues the next
    /// statement of the plan, and after the commit ends it successfully.
    pub fn advance(&mut self, outcome: Result<(), DbError>) -> (step: RecordStep)
        requires
            old(self).wf(),
        ensures
            final(self).series() == old(self).series(),
            final(self).confidence() == old(self).confidence(),
            match outcome {
                Err(e) => step == RecordStep::Done(Err(e)),
                Ok(()) => if old(self).issued() < record_plan_len() {
                    &&& step == record_plan(old(self).series(), old(self).confidence(), old(self).issued())
                    &&& final(self).issued() == old(self).issued() + 1
                    &&& final(self).wf()
                } else {
                    step == RecordStep::Done(Ok(()))
                },
            },
    {
        match outcome {
            Err(e) => RecordStep::Done(Err(e)),
            Ok(()) => {
                if self.issued == 1 {
                    self.issued = 2;
                    RecordStep::DeleteEarlier { tmdb_series_id: self.tmdb_series_id }
                } else if self.issued == 2 {
                    self.issued = 3;
                    RecordStep::Insert { tmdb_series_id: self.tmdb_series_id, confidence: self.confidence }
                } else if self.issued == 3 {
                    self.issued = 4;
                    RecordStep::Commit
                } else {
                    RecordStep::Done(Ok(()))
                }
            },
        }
    }
}

/// A row of the recommendations table: the series, the confidence, and the
/// creation time.
pub type RecommendationRow = (i64, i16, int);

/// The rows of other series than `tmdb_series_id`, in table order.
pub open spec fn without_series(rows: Seq<RecommendationRow>, tmdb_series_id: i64) -> Seq<RecommendationRow>
    decreases rows.len(),
{
    if rows.len() == 0 {
        rows
    } else {
        let rest = without_series(rows.drop_last(), tmdb_series_id);
        if rows.last().0 == tmdb_series_id { rest } else { rest.push(rows.last()) }
    }
}

/// The rows of the series `tmdb_series_id`, in table order.
pub open spec fn rows_for(rows: Seq<RecommendationRow>, tmdb_series_id: i64) -> Seq<RecommendationRow>
    decreases rows.len(),
{
    if rows.len() == 0 {
        rows
    } else {
        let rest = rows_for(rows.drop_last(), tmdb_series_id);
        if rows.last().0 == tmdb_series_id { rest.push(rows.last()) } else { rest }
    }
}

/// Whether the series has a recommendation row, as asking whether a series
/// was recommended answers.
pub open spec fn series_recommended(rows: Seq<RecommendationRow>, tmdb_series_id: i64) -> bool {
    rows_for(rows, tmdb_series_id).len() > 0
}

/// What one statement of the recording does to the rows, at time `now`: the
/// delete drops the series' rows, the insert appends a row stamped `now`, and
/// opening or committing the transaction changes none.
pub open spec fn statement_effect(rows: Seq<RecommendationRow>, step: RecordStep, now: int) -> Seq<RecommendationRow> {
    match step {
        RecordStep::DeleteEarlier { tmdb_series_id } => without_series(rows, tmdb_series_id),
        RecordStep::Insert { tmdb_series_id, confidence } => rows.push((tmdb_series_id, confidence, now)),
        _ => rows,
    }
}

/// The rows after the first `k` statements of the recording plan.
pub open spec fn after_plan(rows: Seq<RecommendationRow>, tmdb_series_id: i64, confidence: i16, now: int, k: nat) -> Seq<RecommendationRow>
    decreases k,
{
    if k == 0 {
        rows
    } else {
        statement_effect(
            after_plan(rows, tmdb_series_id, confidence, now, (k - 1) as nat),
            record_plan(tmdb_series_id, confidence, (k - 1) as nat),
            now,
        )
    }
}

/// The rows after a committed recording of `confidence` for the series at
/// time `now`: every statement of the plan applied.
pub open spec fn recorded(rows: Seq<RecommendationRow>, tmdb_series_id: i64, confidence: i16, now: int) -> Seq<RecommendationRow> {
    after_plan(rows, tmdb_series_id, confidence, now, record_plan_len())
}

proof fn lemma_rows_for_without(rows: Seq<RecommendationRow>, t: i64, s: i64)
    ensures
        rows_for(without_series(rows, t), s) == if s == t { Seq::<RecommendationRow>::empty() } else { rows_for(rows, s) },
    decreases rows.len(),
{
    if rows.len() > 0 {
        lemma_rows_for_without(rows.drop_last(), t, s);
        let rest = without_series(rows.drop_last(), t);
        if rows.last().0 != t {
            assert(without_series(rows, t) == rest.push(rows.last()));
            assert(rest.push(rows.last()).drop_last() == rest);
        }
    }
}

proof fn lemma_rows_for_push(rows: Seq<RecommendationRow>, row: RecommendationRow, s: i64)
    ensures
        rows_for(rows.push(row), s) == if row.0 == s { rows_for(rows, s).push(row) } else { rows_for(rows, s) },
{
    assert(rows.push(row).drop_last() == rows);
}

/// The rows of each series after a committed recording: the recorded series
/// has exactly the one new row, and every other series keeps its rows.
pub proof fn lemma_recorded_rows(rows: Seq<RecommendationRow>, tmdb_series_id: i64, confidence: i16, now: int, s: i64)
    ensures
        rows_for(recorded(rows, tmdb_series_id, confidence, now), s) == if s == tmdb_series_id {
            seq![(tmdb_series_id, confidence, now)]
        } else {
            rows_for(rows, s)
        },
{
    reveal_with_fuel(after_plan, 5);
    let deleted = without_series(rows, tmdb_series_id);
    assert(recorded(rows, tmdb_series_id, confidence, now) == deleted.push((tmdb_series_id, confidence, now)));
    lemma_rows_for_without(rows, tmdb_series_id, s);
    lemma_rows_for_push(deleted, (tmdb_series_id, confidence, now), s);
    if s == tmdb_series_id {
        assert(Seq::<RecommendationRow>::empty().push((tmdb_series_id, confidence, now)) == seq![(tmdb_series_id, confidence, now)]);
    }
}

/// Recording the same series twice, the second at a time no earlier than the
/// first, leaves exactly one row for it: the second one, with the latest
/// confidence and a creation time no earlier than the first row's, so that
/// the series surfaces as new; the series counts as recommended; and the
/// rows of every other series are as they were before either recording.
pub proof fn lemma_record_twice(
    rows: Seq<RecommendationRow>,
    tmdb_series_id: i64,
    first_confidence: i16,
    first_time: int,
    second_confidence: i16,
    second_time: int,
    other: i64,
)
    requires
        first_time <= second_time,
        other != tmdb_series_id,
    ensures
        ({
            let once = recorded(rows, tmdb_series_id, first_confidence, first_time);
            let twice = recorded(once, tmdb_series_id, second_confidence, second_time);
            &&& rows_for(twice, tmdb_series_id) == seq![(tmdb_series_id, second_confidence, second_time)]
            &&& rows_for(twice, tmdb_series_id)[0].2 >= rows_for(once, tmdb_series_id)[0].2
            &&& series_recommended(twice, tmdb_series_id)
            &&& rows_for(twice, other) == rows_for(rows, other)
        }),
{
    let once = recorded(rows, tmdb_series_id, first_confidence, first_time);
    lemma_recorded_rows(rows, tmdb_series_id, first_confidence, first_time, tmdb_series_id);
    lemma_recorded_rows(rows, tmdb_series_id, first_confidence, first_time, other);
    lemma_recorded_rows(once, tmdb_series_id, second_confidence, second_time, tmdb_series_id);
    lemma_recorded_rows(once, tmdb_series_id, second_confidence, second_time, other);
}


} // verus!
