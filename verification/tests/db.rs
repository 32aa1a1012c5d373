use backend::adapters::db::adapter::{
    check_username_free, decide_login, updated_or_not_found, DbError, LoginDecision,
    RecordRecommendation, RecordStep,
};
use backend::adapters::db::models::{Review, User};
use backend::models::{Id, Timestamp};
use std::collections::HashMap;

fn user(passcode: &str) -> User {
    User { id: Id(42), username: "bob".to_string(), passcode: passcode.to_string(), created_at: Timestamp(0) }
}

#[test]
fn new_username_may_register() {
    assert!(check_username_free("bob", None).is_ok());
}

#[test]
fn duplicate_username_is_rejected() {
    match check_username_free("bob", Some(Id(42))) {
        Err(DbError::UsernameConflict(u)) => assert_eq!(u, "bob"),
        other => panic!("unexpected {:?}", other),
    }
}

#[test]
fn login_with_matching_passcode() {
    assert_eq!(decide_login("pass123", Some(user("pass123"))), LoginDecision::Accept(Id(42)));
}

#[test]
fn login_with_wrong_passcode() {
    assert_eq!(decide_login("nope", Some(user("pass123"))), LoginDecision::Reject);
}

#[test]
fn login_of_unknown_user_registers() {
    assert_eq!(decide_login("pass123", None), LoginDecision::Register);
}

#[test]
fn update_of_missing_review_is_not_found() {
    assert!(matches!(updated_or_not_found(None), Err(DbError::NotFound)));
    let r = Review {
        id: Id(1),
        series_id: Id(2),
        user_id: Id(3),
        tmdb_series_id: None,
        rating: 4,
        liked: None,
        disliked: None,
        was_recommended: false,
        created_at: Timestamp(5),
    };
    assert_eq!(updated_or_not_found(Some(r)).unwrap().rating, 4);
}

#[test]
fn recording_deletes_before_inserting_then_commits() {
    let (mut rec, step) = RecordRecommendation::start(12345, 90);
    assert!(matches!(step, RecordStep::Begin));
    assert!(matches!(rec.advance(Ok(())), RecordStep::DeleteEarlier { tmdb_series_id: 12345 }));
    assert!(matches!(rec.advance(Ok(())), RecordStep::Insert { tmdb_series_id: 12345, confidence: 90 }));
    assert!(matches!(rec.advance(Ok(())), RecordStep::Commit));
    assert!(matches!(rec.advance(Ok(())), RecordStep::Done(Ok(()))));
}

#[test]
fn recording_stops_at_the_first_failure() {
    let (mut rec, _) = RecordRecommendation::start(7, 10);
    assert!(matches!(rec.advance(Ok(())), RecordStep::DeleteEarlier { .. }));
    match rec.advance(Err(DbError::Sqlx("deadlock".to_string()))) {
        RecordStep::Done(Err(DbError::Sqlx(m))) => assert_eq!(m, "deadlock"),
        other => panic!("unexpected {:?}", other),
    }
}

/// Drives one login against an in-memory users table, inserting under
/// `fresh` when the decision is to register.
fn login(table: &mut HashMap<String, User>, username: &str, passcode: &str, fresh: u128) -> Option<Id> {
    let existing = table.get(username).map(|u| User {
        id: u.id,
        username: u.username.clone(),
        passcode: u.passcode.clone(),
        created_at: u.created_at,
    });
    match decide_login(passcode, existing) {
        LoginDecision::Accept(id) => Some(id),
        LoginDecision::Reject => None,
        LoginDecision::Register => {
            let user = User {
                id: Id(fresh),
                username: username.to_string(),
                passcode: passcode.to_string(),
                created_at: Timestamp(0),
            };
            table.insert(username.to_string(), user);
            Some(Id(fresh))
        }
    }
}

#[test]
fn login_twice_gives_the_same_id() {
    let mut table = HashMap::new();
    let first = login(&mut table, "alice", "secret", 1);
    assert_eq!(first, Some(Id(1)));
    assert_eq!(login(&mut table, "alice", "secret", 2), first);
    assert_eq!(table.len(), 1);
    assert_eq!(login(&mut table, "alice", "other", 3), None);
    assert_eq!(table.len(), 1);
}

/// Drives a recording to its end against an in-memory table of
/// `(series, confidence, created_at)` rows, stamping inserts with `now`.
fn record(rows: &mut Vec<(i64, i16, i64)>, series: i64, confidence: i16, now: i64) {
    let (mut rec, mut step) = RecordRecommendation::start(series, confidence);
    loop {
        step = match step {
            RecordStep::Begin | RecordStep::Commit => rec.advance(Ok(())),
            RecordStep::DeleteEarlier { tmdb_series_id } => {
                rows.retain(|r| r.0 != tmdb_series_id);
                rec.advance(Ok(()))
            }
            RecordStep::Insert { tmdb_series_id, confidence } => {
                rows.push((tmdb_series_id, confidence, now));
                rec.advance(Ok(()))
            }
            RecordStep::Done(outcome) => {
                assert!(outcome.is_ok());
                return;
            }
        };
    }
}

#[test]
fn recording_twice_keeps_one_row_with_the_latest_confidence() {
    let mut rows = vec![(5, 40, 0)];
    record(&mut rows, 12345, 70, 10);
    record(&mut rows, 12345, 95, 20);
    assert_eq!(rows, vec![(5, 40, 0), (12345, 95, 20)]);
    assert!(rows.iter().any(|r| r.0 == 12345));
}
