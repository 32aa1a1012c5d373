use backend::adapters::db::adapter::DbError;
use backend::adapters::db::models::{Recommendation, Review};
use backend::adapters::llm::adapter::LlmError;
use backend::adapters::llm::models::{Recommendation as Suggestion, SeriesRecommendations};
use backend::adapters::tmdb::adapter::TmdbError;
use backend::api::handlers::{
    begin_patch_review, begin_save_review, login_credentials, registration_credentials, reply_db,
    reply_optional_review, reply_reviews, reply_tmdb, review_to_insert, RecommendationRun, RunStep,
    StoredRecommendationsRun, StoredStep,
};
use backend::errors::AppError;
use backend::models::{CreateUserRequest, Id, LoginRequest, ReviewRequest, Timestamp, UpdateReviewRequest};

fn review(n: u128, tmdb: Option<i64>) -> Review {
    Review {
        id: Id(n),
        series_id: Id(100),
        user_id: Id(9),
        tmdb_series_id: tmdb,
        rating: 8,
        liked: None,
        disliked: None,
        was_recommended: false,
        created_at: Timestamp(n as i64),
    }
}

fn request(rating: i16) -> ReviewRequest {
    ReviewRequest { series_id: Id(1), user_id: Id(2), tmdb_series_id: 12345, rating, liked: Some("Great pacing".to_string()), disliked: None }
}

#[test]
fn usernames_are_lowercased() {
    let (u, p) = login_credentials(&LoginRequest { username: "BoB".to_string(), passcode: "Pass".to_string() });
    assert_eq!((u.as_str(), p.as_str()), ("bob", "Pass"));
    let (u, p) = registration_credentials(&CreateUserRequest { username: "ÅSE".to_string(), passcode: "x".to_string() });
    assert_eq!((u.as_str(), p.as_str()), ("åse", "x"));
}

#[test]
fn replies_carry_status_or_failure() {
    assert!(matches!(reply_db(201, Ok::<Id, DbError>(Id(5))), Ok((201, Id(5)))));
    let conflict = reply_db::<Id>(201, Err(DbError::UsernameConflict("bob".to_string()))).unwrap_err();
    assert_eq!(conflict.status_code(), 409);
    assert!(matches!(reply_tmdb(200, Ok::<u8, TmdbError>(1)), Ok((200, 1))));
    assert!(matches!(reply_tmdb::<u8>(200, Err(TmdbError::Api("x".to_string()))), Err(AppError::Tmdb(_))));
}

#[test]
fn optional_review_reply() {
    assert!(matches!(reply_optional_review(Ok(None)), Ok((200, None))));
    let (status, dto) = reply_optional_review(Ok(Some(review(3, Some(1))))).unwrap();
    assert_eq!((status, dto.unwrap().id), (200, Id(3)));
    assert!(matches!(reply_optional_review(Err(DbError::NotFound)), Err(AppError::NotFound)));
}

#[test]
fn reviews_reply_keeps_order() {
    let (status, dtos) = reply_reviews(Ok(vec![review(2, None), review(1, None)])).unwrap();
    assert_eq!(status, 200);
    assert_eq!(dtos.iter().map(|d| d.id).collect::<Vec<_>>(), vec![Id(2), Id(1)]);
}

#[test]
fn invalid_review_is_unprocessable() {
    let err = begin_save_review(request(11)).unwrap_err();
    match &err {
        AppError::ValidationError(report) => {
            assert!(report.starts_with("rating: Validation error: range ["));
            assert!(report.ends_with(']'));
        }
        other => panic!("unexpected {:?}", other),
    }
    assert!(err.to_string().starts_with("Validation error: rating: Validation error: range ["));
    assert_eq!(err.status_code(), 422);
    let err = begin_patch_review(UpdateReviewRequest { rating: 0, liked: None, disliked: None }).unwrap_err();
    assert_eq!(err.status_code(), 422);
    assert!(begin_patch_review(UpdateReviewRequest { rating: 10, liked: None, disliked: None }).is_ok());
}

#[test]
fn saved_review_records_the_recommendation_flag() {
    let payload = begin_save_review(request(8)).unwrap();
    let new = review_to_insert(payload, Ok(true)).unwrap();
    assert!(new.was_recommended);
    assert_eq!((new.tmdb_series_id, new.rating), (12345, 8));
    assert_eq!(new.liked.as_deref(), Some("Great pacing"));
    let payload = begin_save_review(request(8)).unwrap();
    assert!(!review_to_insert(payload, Ok(false)).unwrap().was_recommended);
    let payload = begin_save_review(request(8)).unwrap();
    let err = review_to_insert(payload, Err(DbError::Sqlx("down".to_string()))).unwrap_err();
    assert_eq!(err.status_code(), 500);
}

fn stored(n: u128, tmdb: i64, confidence: i16) -> Recommendation {
    Recommendation { id: Id(n), tmdb_series_id: tmdb, confidence, created_at: Timestamp(n as i64) }
}

#[test]
fn stored_recommendations_skip_missing_details() {
    let (mut run, step) = StoredRecommendationsRun::<&str>::begin(Id(5), Ok(vec![stored(3, 10, 90), stored(2, -1, 80), stored(1, 30, 70)]));
    assert!(matches!(step, StoredStep::FetchDetails(10)));
    let step = run.on_details(Ok("Ten"));
    assert!(matches!(step, StoredStep::FetchDetails(id) if id == u64::MAX));
    let step = run.on_details(Err(TmdbError::Api("404".to_string())));
    assert!(matches!(step, StoredStep::FetchDetails(30)));
    match run.on_details(Ok("Thirty")) {
        StoredStep::Respond(Ok((200, listed))) => {
            assert_eq!(listed.len(), 2);
            assert_eq!((listed[0].series, listed[0].confidence, listed[0].created_at), ("Ten", 90, Timestamp(3)));
            assert_eq!((listed[1].series, listed[1].confidence, listed[1].created_at), ("Thirty", 70, Timestamp(1)));
        }
        other => panic!("unexpected {:?}", other),
    }
}

#[test]
fn stored_recommendations_without_rows_or_database() {
    let (_, step) = StoredRecommendationsRun::<&str>::begin(Id(5), Ok(vec![]));
    assert!(matches!(step, StoredStep::Respond(Ok((200, l))) if l.is_empty()));
    let (_, step) = StoredRecommendationsRun::<&str>::begin(Id(5), Err(DbError::Sqlx("down".to_string())));
    assert!(matches!(step, StoredStep::Respond(Err(AppError::Db(_)))));
}

fn suggestion(title: &str, confidence: u8) -> Suggestion {
    Suggestion { title: title.to_string(), genre: "Drama".to_string(), confidence }
}

#[test]
fn recommendation_run_end_to_end() {
    let (mut run, step) = RecommendationRun::<&str>::start(Id(9));
    assert!(matches!(step, RunStep::LoadReviews(Id(9))));
    let step = run.on_reviews(Ok(vec![review(1, None), review(2, Some(1396)), review(3, Some(69740))]));
    assert!(matches!(step, RunStep::FetchDetails(1396)));
    let step = run.on_details(Ok("Breaking Bad".to_string()));
    assert!(matches!(step, RunStep::FetchDetails(69740)));
    let asked = match run.on_details(Err(TmdbError::Http("timeout".to_string()))) {
        RunStep::AskLlm(asked) => asked,
        other => panic!("unexpected {:?}", other),
    };
    assert_eq!(asked.len(), 1);
    assert_eq!((asked[0].0.id, asked[0].1.as_str()), (Id(2), "Breaking Bad"));
    let answer = SeriesRecommendations {
        recommendations: vec![suggestion("Better Call Saul", 95), suggestion("Nothing Like It", 40), suggestion("The Wire", 80)],
        taste_summary: "Crime.".to_string(),
    };
    let step = run.on_recommendations(Ok(answer));
    assert!(matches!(step, RunStep::Search(t) if t == "Better Call Saul"));
    let step = run.on_search(Ok(vec![(60059, "BCS"), (1, "other")]));
    assert!(matches!(step, RunStep::SaveRecommendation { tmdb_series_id: 60059, confidence: 95 }));
    let step = run.on_saved(Err(DbError::Sqlx("ignored".to_string())));
    assert!(matches!(step, RunStep::Search(t) if t == "Nothing Like It"));
    let step = run.on_search(Ok(vec![]));
    assert!(matches!(step, RunStep::Search(t) if t == "The Wire"));
    let step = run.on_search(Ok(vec![(1438, "The Wire")]));
    assert!(matches!(step, RunStep::SaveRecommendation { tmdb_series_id: 1438, confidence: 80 }));
    match run.on_saved(Ok(())) {
        RunStep::Respond(Ok((200, listed))) => assert_eq!(listed, vec!["BCS", "The Wire"]),
        other => panic!("unexpected {:?}", other),
    }
}

#[test]
fn recommendation_run_without_reviews_skips_the_recommender() {
    let (mut run, _) = RecommendationRun::<&str>::start(Id(1));
    assert!(matches!(run.on_reviews(Ok(vec![])), RunStep::Respond(Ok((200, l))) if l.is_empty()));
    let (mut run, _) = RecommendationRun::<&str>::start(Id(1));
    assert!(matches!(run.on_reviews(Ok(vec![review(1, None)])), RunStep::Respond(Ok((200, l))) if l.is_empty()));
    let (mut run, _) = RecommendationRun::<&str>::start(Id(1));
    assert!(matches!(run.on_reviews(Ok(vec![review(1, Some(5))])), RunStep::FetchDetails(5)));
    assert!(matches!(run.on_details(Err(TmdbError::Api("404".to_string()))), RunStep::Respond(Ok((200, l))) if l.is_empty()));
}

#[test]
fn recommendation_run_failures() {
    let (mut run, _) = RecommendationRun::<&str>::start(Id(1));
    assert!(matches!(run.on_reviews(Err(DbError::Sqlx("down".to_string()))), RunStep::Respond(Err(AppError::Db(_)))));
    let (mut run, _) = RecommendationRun::<&str>::start(Id(1));
    run.on_reviews(Ok(vec![review(1, Some(5))]));
    assert!(matches!(run.on_details(Ok("Five".to_string())), RunStep::AskLlm(_)));
    let step = run.on_recommendations(Err(LlmError::Api("quota".to_string())));
    assert!(matches!(step, RunStep::Respond(Err(AppError::Llm(LlmError::Api(_))))));
}

fn listing_for(user: Id) -> Vec<(&'static str, i16, Timestamp)> {
    let recs = vec![stored(3, 10, 90), stored(2, 20, 80)];
    let (mut run, step) = StoredRecommendationsRun::<&str>::begin(user, Ok(recs));
    assert!(matches!(step, StoredStep::FetchDetails(10)));
    assert!(matches!(run.on_details(Ok("Ten")), StoredStep::FetchDetails(20)));
    match run.on_details(Err(TmdbError::Http("timeout".to_string()))) {
        StoredStep::Respond(Ok((200, listed))) => {
            listed.iter().map(|s| (s.series, s.confidence, s.created_at)).collect()
        }
        other => panic!("unexpected {:?}", other),
    }
}

#[test]
fn stored_listing_is_the_same_for_every_user() {
    let first = listing_for(Id(1));
    assert_eq!(first, vec![("Ten", 90, Timestamp(3))]);
    assert_eq!(listing_for(Id(99)), first);
}
