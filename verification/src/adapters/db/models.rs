//! Rows of the `reviews`, `users` and `recommendations` tables.
use vstd::prelude::*;

use crate::models::{Id, Timestamp};

verus! {

/// A stored review of a series by a user.
#[derive(Debug)]
pub struct Review {
    pub id: Id,
    pub series_id: Id,
    pub user_id: Id,
    pub tmdb_series_id: Option<i64>,
    pub rating: i16,
    pub liked: Option<String>,
    pub disliked: Option<String>,
    pub was_recommended: bool,
    pub created_at: Timestamp,
}

/// A registered user with the passcode they log in with.
#[derive(Debug)]
pub struct User {
    pub id: Id,
    pub username: String,
    pub passcode: String,
    pub created_at: Timestamp,
}

/// A series the recommender suggested, with the confidence it gave.
#[derive(Debug)]
pub struct Recommendation {
    pub id: Id,
    pub tmdb_series_id: i64,
    pub confidence: i16,
    pub created_at: Timestamp,
}

} // verus!
