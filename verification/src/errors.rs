//! The error type of the HTTP API: how each failure is shown and which status
//! it is answered with.
use vstd::prelude::*;

use crate::adapters::db::adapter::{db_error_text, DbError};
use crate::adapters::llm::adapter::{llm_error_text, LlmError};
use crate::adapters::tmdb::adapter::{tmdb_error_text, TmdbError};

verus! {

/// Failures of an API request.
#[derive(Debug)]
pub enum AppError {
    Tmdb(TmdbError),
    Db(DbError),
    Llm(LlmError),
    NotFound,
    BadRequest(String),
    ValidationError(String),
    Conflict(String),
}

/// The text an API failure is shown as.
pub open spec fn app_error_text(e: AppError) -> Seq<char> {
    match e {
        AppError::Tmdb(inner) => "TMDB error: "@ + tmdb_error_text(inner),
        AppError::Db(inner) => "Database error: "@ + db_error_text(inner),
        AppError::Llm(inner) => "LLM error: "@ + llm_error_text(inner),
        AppError::NotFound => "Not found"@,
        AppError::BadRequest(s) => "Bad request: "@ + s@,
        AppError::ValidationError(s) => "Validation error: "@ + s@,
        AppError::Conflict(s) => "Conflict: "@ + s@,
    }
}

/// The HTTP status an API failure is answered with.
pub open spec fn app_error_status(e: AppError) -> u16 {
    match e {
        AppError::Tmdb(_) => 502,
        AppError::Db(_) => 500,
        AppError::Llm(_) => 502,
        AppError::NotFound => 404,
        AppError::BadRequest(_) => 400,
        AppError::ValidationError(_) => 422,
        AppError::Conflict(_) => 409,
    }
}

/// How a database failure surfaces in the API: a taken username becomes a
/// conflict naming it, a missing row becomes "not found", and a driver
/// failure is passed on as a database error.
pub open spec fn db_error_surfaces_as(e: DbError, a: AppError) -> bool {
    match e {
        DbError::UsernameConflict(u) => a matches AppError::Conflict(m)
            && m@ == "username '"@ + u@ + "' already exists"@,
        DbError::NotFound => a is NotFound,
        DbError::Sqlx(s) => a matches AppError::Db(DbError::Sqlx(s2)) && s2@ == s@,
    }
}

impl AppError {
    /// The API failure a database failure surfaces as.
    pub fn from_db_error(e: DbError) -> (a: AppError)
        ensures
            db_error_surfaces_as(e, a),
    {
        match e {
            DbError::UsernameConflict(u) => {
                let mut m = String::from_str("username '");
                m.append(u.as_str());
                m.append("' already exists");
                AppError::Conflict(m)
            },
            DbError::NotFound => AppError::NotFound,
            DbError::Sqlx(s) => AppError::Db(DbError::Sqlx(s)),
        }
    }

    /// The text this failure is shown as.
    pub fn to_string(&self) -> (t: String)
        ensures
            t@ == app_error_text(*self),
    {
        match self {
            AppError::Tmdb(inner) => {
                let mut t = String::from_str("TMDB error: ");
                let it = inner.to_string();
                t.append(it.as_str());
                t
            },
            AppError::Db(inner) => {
                let mut t = String::from_str("Database error: ");
                let it = inner.to_string();
                t.append(it.as_str());
                t
            },
            AppError::Llm(inner) => {
                let mut t = String::from_str("LLM error: ");
                let it = inner.to_string();
                t.append(it.as_str());
                t
            },
            AppError::NotFound => String::from_str("Not found"),
            AppError::BadRequest(s) => {
                let mut t = String::from_str("Bad request: ");
                t.append(s.as_str());
                t
            },
            AppError::ValidationError(s) => {
                let mut t = String::from_str("Validation error: ");
                t.append(s.as_str());
                t
            },
            AppError::Conflict(s) => {
                let mut t = String::from_str("Conflict: ");
                t.append(s.as_str());
                t
            },
        }
    }

    /// The HTTP status this failure is answered with.
    pub fn status_code(&self) -> (c: u16)
        ensures
            c == app_error_status(*self),
    {
        match self {
            AppError::Tmdb(_) => 502,
            AppError::Db(_) => 500,
            AppError::Llm(_) => 502,
            AppError::NotFound => 404,
            AppError::BadRequest(_) => 400,
            AppError::ValidationError(_) => 422,
            AppError::Conflict(_) => 409,
        }
    }

    /// The status and the text of the error response for this failure.
    pub fn response_parts(&self) -> (parts: (u16, String))
        ensures
            parts.0 == app_error_status(*self),
            parts.1@ == app_error_text(*self),
    {
        (self.status_code(), self.to_string())
    }
}

/// A database failure is answered with 409 when the username is taken
/// (saying "Conflict: username '<name>' already exists"), 404 when no row
/// matched, and 500 when the driver failed.
pub proof fn lemma_db_failure_status(e: DbError, a: AppError)
    requires
        db_error_surfaces_as(e, a),
    ensures
        app_error_status(a) == match e {
            DbError::UsernameConflict(_) => 409u16,
            DbError::NotFound => 404u16,
            DbError::Sqlx(_) => 500u16,
        },
        e matches DbError::UsernameConflict(u) ==> app_error_text(a) == "Conflict: "@ + ("username '"@ + u@
            + "' already exists"@),
        e is NotFound ==> app_error_text(a) == "Not found"@,
{
}

/// A failure of the catalogue or of the recommender is answered with 502,
/// and its text names the service before the service's own description.
pub proof fn lemma_upstream_failure_answer(t: TmdbError, l: LlmError)
    ensures
        app_error_status(AppError::Tmdb(t)) == 502,
        app_error_status(AppError::Llm(l)) == 502,
        app_error_text(AppError::Tmdb(t)) == "TMDB error: "@ + tmdb_error_text(t),
        app_error_text(AppError::Llm(l)) == "LLM error: "@ + llm_error_text(l),
{
}

impl From<TmdbError> for AppError {
    fn from(e: TmdbError) -> (a: Self) {
        AppError::Tmdb(e)
    }
}

impl vstd::std_specs::convert::FromSpecImpl<TmdbError> for AppError {
    open spec fn obeys_from_spec() -> bool {
        true
    }

    open spec fn from_spec(e: TmdbError) -> AppError {
        AppError::Tmdb(e)
    }
}

impl From<LlmError> for AppError {
    fn from(e: LlmError) -> (a: Self) {
        AppError::Llm(e)
    }
}

impl vstd::std_specs::convert::FromSpecImpl<LlmError> for AppError {
    open spec fn obeys_from_spec() -> bool {
        true
    }

    open spec fn from_spec(e: LlmError) -> AppError {
        AppError::Llm(e)
    }
}

} // verus!
