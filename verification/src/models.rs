//! Request and response bodies of the HTTP API, and the identifier and time
//! values they carry.
use vstd::prelude::*;

use crate::adapters::db::models::Review;

verus! {

/// A 128-bit universally unique identifier, held as its integer value.
#[derive(Clone, Copy, Debug, PartialEq, Eq, Structural)]
pub struct Id(pub u128);

/// An instant in UTC, held as microseconds since the Unix epoch.
#[derive(Clone, Copy, Debug, PartialEq, Eq, Structural)]
pub struct Timestamp(pub i64);

/// The page served when a paged query names none.
pub const DEFAULT_PAGE: u8 = 1;

/// The lowest rating a review may give.
pub const RATING_MIN: i16 = 1;

/// The highest rating a review may give.
pub const RATING_MAX: i16 = 10;

/// Whether a rating lies in the accepted range `RATING_MIN..=RATING_MAX`.
pub open spec fn rating_in_range(rating: i16) -> bool {
    RATING_MIN <= rating <= RATING_MAX
}

/// A series of the local catalogue.
#[derive(Debug)]
pub struct Series {
    pub id: Id,
    pub title: String,
    pub description: String,
    pub genre: String,
    pub year: u32,
}

/// A rejected field constraint: the field, the value it held, and validator's
/// report of the violation.
#[derive(Debug)]
pub struct ValidationFailure {
    pub field: &'static str,
    pub value: i16,
    pub report: String,
}

/// The frame of validator's report for one broken `range` constraint on a
/// field: the field, `": Validation error: range ["`, the constraint's
/// parameters, and a closing `]`.
pub open spec fn range_report_frame(field: Seq<char>, report: Seq<char>) -> bool {
    let head = field + ": Validation error: range ["@;
    &&& report.len() > head.len()
    &&& report.subrange(0, head.len() as int) == head
    &&& report.last() == ']'
}

/// Renders validator's report for a `range` constraint on `field` that `value`
/// broke: builds `validator::ValidationError::new("range")` with the
/// parameters `min`, `max` and `value` (as the `Validate` derive records them),
/// adds it to a fresh `validator::ValidationErrors` under `field`, and returns
/// that collection's `Display` text. validator writes the one field's entry
/// as the field, `": "`, and the error as `"Validation error: range ["`, the
/// `Debug` text of the parameter map and `"]"`; that frame is what is stated.
/// The parameters sit in a `HashMap` whose walk order differs between
/// processes, and their `Debug` text is std's, so nothing is stated of what
/// stands between the brackets.
#[verifier::external_body]
fn range_report(field: &'static str, min: i16, max: i16, value: i16) -> (report: String)
    ensures
        range_report_frame(field@, report@),
{
    let mut err = validator::ValidationError::new("range");
    err.add_param(std::borrow::Cow::from("min"), &min);
    err.add_param(std::borrow::Cow::from("max"), &max);
    err.add_param(std::borrow::Cow::from("value"), &value);
    let mut errors = validator::ValidationErrors::new();
    errors.add(field, err);
    errors.to_string()
}

/// Checks that `rating` lies in `RATING_MIN..=RATING_MAX`; on failure reports
/// the violation for the field `rating`.
fn check_rating(rating: i16) -> (res: Result<(), ValidationFailure>)
    ensures
        res is Ok <==> rating_in_range(rating),
        res matches Err(f) ==> f.field@ == "rating"@ && f.value == rating
            && range_report_frame("rating"@, f.report@),
{
    if RATING_MIN <= rating && rating <= RATING_MAX {
        Ok(())
    } else {
        let field = "rating";
        Err(ValidationFailure { field, value: rating, report: range_report(field, RATING_MIN, RATING_MAX, rating) })
    }
}

/// A new review as submitted by a client.
#[derive(Debug)]
pub struct ReviewRequest {
    pub series_id: Id,
    pub user_id: Id,
    pub tmdb_series_id: i64,
    pub rating: i16,
    pub liked: Option<String>,
    pub disliked: Option<String>,
}

impl ReviewRequest {
    /// Checks the field constraints: the rating must lie in `1..=10`.
    pub fn validate(&self) -> (res: Result<(), ValidationFailure>)
        ensures
            res is Ok <==> rating_in_range(self.rating),
            res matches Err(f) ==> f.field@ == "rating"@ && f.value == self.rating
                && range_report_frame("rating"@, f.report@),
    {
        check_rating(self.rating)
    }
}

/// A review as returned to clients.
#[derive(Debug)]
pub struct ReviewDto {
    pub id: Id,
    pub series_id: Id,
    pub user_id: Id,
    pub tmdb_series_id: Option<i64>,
    pub rating: i16,
    pub liked: Option<String>,
    pub disliked: Option<String>,
    pub was_recommended: bool,
    pub created_at: Timestamp,
}

/// The client view of a stored review: every field carried over as it is.
pub open spec fn review_dto_of(r: Review) -> ReviewDto {
    ReviewDto {
        id: r.id,
        series_id: r.series_id,
        user_id: r.user_id,
        tmdb_series_id: r.tmdb_series_id,
        rating: r.rating,
        liked: r.liked,
        disliked: r.disliked,
        was_recommended: r.was_recommended,
        created_at: r.created_at,
    }
}

/// A client sees a review as it is stored: the DTO carries each field of the
/// review unchanged, the recommended flag included.
pub proof fn lemma_dto_keeps_fields(r: Review)
    ensures
        review_dto_of(r).id == r.id,
        review_dto_of(r).series_id == r.series_id,
        review_dto_of(r).user_id == r.user_id,
        review_dto_of(r).tmdb_series_id == r.tmdb_series_id,
        review_dto_of(r).rating == r.rating,
        review_dto_of(r).liked == r.liked,
        review_dto_of(r).disliked == r.disliked,
        review_dto_of(r).was_recommended == r.was_recommended,
        review_dto_of(r).created_at == r.created_at,
{
}

/// Listing reviews keeps one DTO per review, in order, each with the
/// review's fields; in particular its recommended flag is the review's own.
pub proof fn lemma_dtos_keep_reviews(reviews: Seq<Review>)
    ensures
        reviews.map_values(|r: Review| review_dto_of(r)).len() == reviews.len(),
        forall|i: int| #![trigger reviews[i]] 0 <= i < reviews.len() ==> {
            let d = reviews.map_values(|r: Review| review_dto_of(r))[i];
            &&& d.id == reviews[i].id
            &&& d.tmdb_series_id == reviews[i].tmdb_series_id
            &&& d.rating == reviews[i].rating
            &&& d.was_recommended == reviews[i].was_recommended
            &&& d.created_at == reviews[i].created_at
        },
{
}

impl From<Review> for ReviewDto {
    fn from(r: Review) -> (dto: Self) {
        ReviewDto {
            id: r.id,
            series_id: r.series_id,
            user_id: r.user_id,
            tmdb_series_id: r.tmdb_series_id,
            rating: r.rating,
            liked: r.liked,
            disliked: r.disliked,
            was_recommended: r.was_recommended,
            created_at: r.created_at,
        }
    }
}

impl vstd::std_specs::convert::FromSpecImpl<Review> for ReviewDto {
    open spec fn obeys_from_spec() -> bool {
        true
    }

    open spec fn from_spec(r: Review) -> ReviewDto {
        review_dto_of(r)
    }
}

/// Converts stored reviews to their client view, keeping their order.
pub fn reviews_to_dtos(reviews: Vec<Review>) -> (dtos: Vec<ReviewDto>)
    ensures
        dtos@ == reviews@.map_values(|r: Review| review_dto_of(r)),
{
    let mut dtos: Vec<ReviewDto> = Vec::new();
    let mut rest = reviews;
    let ghost all = rest@;
    while rest.len() > 0
        invariant
            all.len() == dtos.len() + rest.len(),
            rest@ == all.skip(dtos.len() as int),
            dtos@ == all.take(dtos.len() as int).map_values(|r: Review| review_dto_of(r)),
        decreases rest.len(),
    {
        let ghost k = dtos.len() as int;
        let r = rest.remove(0);
        proof {
            assert(r == all[k]);
            assert(all.take(k + 1) == all.take(k).push(all[k]));
            assert(rest@ == all.skip(k + 1));
        }
        dtos.push(ReviewDto::from(r));
    }
    proof {
        assert(all.take(all.len() as int) == all);
    }
    dtos
}

/// A change to an existing review.
#[derive(Debug)]
pub struct UpdateReviewRequest {
    pub rating: i16,
    pub liked: Option<String>,
    pub disliked: Option<String>,
}

impl UpdateReviewRequest {
    /// Checks the field constraints: the rating must lie in `1..=10`.
    pub fn validate(&self) -> (res: Result<(), ValidationFailure>)
        ensures
            res is Ok <==> rating_in_range(self.rating),
            res matches Err(f) ==> f.field@ == "rating"@ && f.value == self.rating
                && range_report_frame("rating"@, f.report@),
    {
        check_rating(self.rating)
    }
}

/// Credentials for registering a user.
#[derive(Debug)]
pub struct CreateUserRequest {
    pub username: String,
    pub passcode: String,
}

/// Credentials for logging in.
#[derive(Debug)]
pub struct LoginRequest {
    pub username: String,
    pub passcode: String,
}

/// A query that selects one page of a paged listing.
#[derive(Clone, Copy, Debug)]
pub struct PagedQuery {
    page: Option<u8>,
}

/// The page a query selects: the requested page, where no page or page 0
/// selects the first.
pub open spec fn selected_page(requested: Option<u8>) -> u8 {
    match requested {
        Some(p) => if p == 0 { 1 } else { p },
        None => DEFAULT_PAGE,
    }
}

/// Every page from 1 up is served as requested; page 0 and no page at all
/// serve the first page.
pub proof fn lemma_selected_page(p: u8)
    ensures
        p >= 1 ==> selected_page(Some(p)) == p,
        selected_page(Some(0)) == 1,
        selected_page(None) == 1,
        selected_page(Some(p)) >= 1,
{
}

impl PagedQuery {
    /// A query for the given page, or for the default page when `None`.
    pub fn new(page: Option<u8>) -> (q: Self)
        ensures
            q.requested() == page,
    {
        PagedQuery { page }
    }

    /// The page as the client asked for it.
    pub closed spec fn requested(&self) -> Option<u8> {
        self.page
    }

    /// The page to serve: the requested page, or the first page when none or
    /// page 0 was asked for.
    pub fn page(&self) -> (p: u8)
        ensures
            p == selected_page(self.requested()),
            p >= 1,
            self.requested() matches Some(q) ==> (q >= 1 ==> p == q),
            self.requested() is None ==> p == DEFAULT_PAGE,
    {
        let p = match self.page {
            Some(p) => p,
            None => DEFAULT_PAGE,
        };
        if p == 0 { 1 } else { p }
    }
}

} // verus!
