use backend::adapters::db::models::Review;
use backend::models::{
    reviews_to_dtos, Id, PagedQuery, ReviewDto, ReviewRequest, Timestamp, UpdateReviewRequest,
};

fn review(n: u128, rating: i16) -> Review {
    Review {
        id: Id(n),
        series_id: Id(100 + n),
        user_id: Id(7),
        tmdb_series_id: Some(1396),
        rating,
        liked: Some("Great writing".to_string()),
        disliked: None,
        was_recommended: n % 2 == 0,
        created_at: Timestamp(1_700_000_000_000_000 + n as i64),
    }
}

fn request(rating: i16) -> ReviewRequest {
    ReviewRequest {
        series_id: Id(1),
        user_id: Id(2),
        tmdb_series_id: 1396,
        rating,
        liked: None,
        disliked: None,
    }
}

#[test]
fn page_defaults_to_first() {
    assert_eq!(PagedQuery::new(None).page(), 1);
}

#[test]
fn page_zero_is_first() {
    assert_eq!(PagedQuery::new(Some(0)).page(), 1);
}

#[test]
fn page_is_kept_otherwise() {
    assert_eq!(PagedQuery::new(Some(1)).page(), 1);
    assert_eq!(PagedQuery::new(Some(7)).page(), 7);
    assert_eq!(PagedQuery::new(Some(255)).page(), 255);
}

#[test]
fn ratings_in_range_validate() {
    for r in 1..=10 {
        assert!(request(r).validate().is_ok());
        let update = UpdateReviewRequest { rating: r, liked: None, disliked: None };
        assert!(update.validate().is_ok());
    }
}

#[test]
fn ratings_out_of_range_are_rejected() {
    for r in [i16::MIN, -1, 0, 11, 100, i16::MAX] {
        let f = request(r).validate().unwrap_err();
        assert_eq!(f.field, "rating");
        assert_eq!(f.value, r);
        assert!(f.report.starts_with("rating: Validation error: range"));
        assert!(f.report.contains(&r.to_string()));
        let update = UpdateReviewRequest { rating: r, liked: None, disliked: None };
        assert!(update.validate().is_err());
    }
}

#[test]
fn dto_keeps_every_field() {
    let dto = ReviewDto::from(review(4, 9));
    assert_eq!(dto.id, Id(4));
    assert_eq!(dto.series_id, Id(104));
    assert_eq!(dto.user_id, Id(7));
    assert_eq!(dto.tmdb_series_id, Some(1396));
    assert_eq!(dto.rating, 9);
    assert_eq!(dto.liked.as_deref(), Some("Great writing"));
    assert_eq!(dto.disliked, None);
    assert!(dto.was_recommended);
    assert_eq!(dto.created_at, Timestamp(1_700_000_000_000_004));
}

#[test]
fn dtos_keep_review_order() {
    let dtos = reviews_to_dtos(vec![review(3, 5), review(1, 8), review(2, 2)]);
    let ids: Vec<Id> = dtos.iter().map(|d| d.id).collect();
    assert_eq!(ids, vec![Id(3), Id(1), Id(2)]);
    assert_eq!(dtos[1].rating, 8);
    assert!(reviews_to_dtos(vec![]).is_empty());
}
