//! The decisions of the HTTP handlers: what each request asks of the
//! database, the catalogue and the recommender, and what it answers.
use vstd::prelude::*;

use crate::adapters::db::adapter::DbError;
use crate::adapters::db::models::{Recommendation, Review};
use crate::adapters::llm::adapter::LlmError;
use crate::adapters::llm::models::{Recommendation as Suggestion, SeriesRecommendations};
use crate::adapters::tmdb::adapter::TmdbError;
use crate::errors::{db_error_surfaces_as, AppError};
use crate::models::{
    range_report_frame, rating_in_range, review_dto_of, reviews_to_dtos, CreateUserRequest, Id, LoginRequest,
    ReviewDto, ReviewRequest, Timestamp, UpdateReviewRequest,
};

verus! {

/// The status of a successful read.
pub const OK: u16 = 200;

/// The status of a successful creation.
pub const CREATED: u16 = 201;

/// The status of a successful deletion.
pub const NO_CONTENT: u16 = 204;

/// The query of a series search.
#[derive(Debug)]
pub struct SearchParams {
    pub q: String,
}

/// The query that selects one user's review of one series.
#[derive(Debug, Clone, Copy)]
pub struct UserReviewParams {
    pub user_id: Id,
    pub tmdb_series_id: i64,
}

/// A stored recommendation with the catalogue's details of its series and
/// the confidence the recommender gave when it suggested it.
#[derive(Debug)]
pub struct StoredRecommendation<D> {
    pub series: D,
    pub confidence: i16,
    pub created_at: Timestamp,
}

/// The Unicode lowercase mapping of a text, as `str::to_lowercase` computes it.
pub uninterp spec fn lowercase(s: Seq<char>) -> Seq<char>;

/// Calls `str::to_lowercase`; the result is named `lowercase` of the text.
#[verifier::external_body]
fn to_lowercase(s: &str) -> (lower: String)
    ensures
        lower@ == lowercase(s@),
{
    s.to_lowercase()
}

/// The credentials a login looks up: the username in lowercase and the
/// passcode as given.
pub fn login_credentials(body: &LoginRequest) -> (creds: (String, String))
    ensures
        creds.0@ == lowercase(body.username@),
        creds.1@ == body.passcode@,
{
    (to_lowercase(body.username.as_str()), body.passcode.clone())
}

/// The credentials a registration stores: the username in lowercase and the
/// passcode as given.
pub fn registration_credentials(body: &CreateUserRequest) -> (creds: (String, String))
    ensures
        creds.0@ == lowercase(body.username@),
        creds.1@ == body.passcode@,
{
    (to_lowercase(body.username.as_str()), body.passcode.clone())
}

/// The answer to a request whose work was one database call: its value with
/// `status`, or the failure it surfaces as.
pub fn reply_db<T>(status: u16, result: Result<T, DbError>) -> (reply: Result<(u16, T), AppError>)
    ensures
        match result {
            Ok(v) => reply == Ok::<(u16, T), AppError>((status, v)),
            Err(e) => reply matches Err(a) && db_error_surfaces_as(e, a),
        },
{
    match result {
        Ok(v) => Ok((status, v)),
        Err(e) => Err(AppError::from_db_error(e)),
    }
}

/// The answer to a request whose work was one catalogue call: its value with
/// `status`, or the catalogue failure.
pub fn reply_tmdb<T>(status: u16, result: Result<T, TmdbError>) -> (reply: Result<(u16, T), AppError>)
    ensures
        match result {
            Ok(v) => reply == Ok::<(u16, T), AppError>((status, v)),
            Err(e) => reply == Err::<(u16, T), AppError>(AppError::Tmdb(e)),
        },
{
    match result {
        Ok(v) => Ok((status, v)),
        Err(e) => Err(AppError::Tmdb(e)),
    }
}

/// The answer with a review: its client view with `status`, or the failure
/// the database failure surfaces as.
pub fn reply_review(status: u16, result: Result<Review, DbError>) -> (reply: Result<(u16, ReviewDto), AppError>)
    ensures
        match result {
            Ok(r) => reply == Ok::<(u16, ReviewDto), AppError>((status, review_dto_of(r))),
            Err(e) => reply matches Err(a) && db_error_surfaces_as(e, a),
        },
{
    match result {
        Ok(r) => Ok((status, ReviewDto::from(r))),
        Err(e) => Err(AppError::from_db_error(e)),
    }
}

/// The answer with a user's review of a series, if there is one.
pub fn reply_optional_review(result: Result<Option<Review>, DbError>) -> (reply: Result<(u16, Option<ReviewDto>), AppError>)
    ensures
        match result {
            Ok(Some(r)) => reply == Ok::<(u16, Option<ReviewDto>), AppError>((OK, Some(review_dto_of(r)))),
            Ok(None) => reply == Ok::<(u16, Option<ReviewDto>), AppError>((OK, None)),
            Err(e) => reply matches Err(a) && db_error_surfaces_as(e, a),
        },
{
    match result {
        Ok(Some(r)) => Ok((OK, Some(ReviewDto::from(r)))),
        Ok(None) => Ok((OK, None)),
        Err(e) => Err(AppError::from_db_error(e)),
    }
}

/// The answer with all reviews of a user, in the order the database gave
/// them (newest first).
pub fn reply_reviews(result: Result<Vec<Review>, DbError>) -> (reply: Result<(u16, Vec<ReviewDto>), AppError>)
    ensures
        match result {
            Ok(rs) => reply matches Ok((status, dtos)) && status == OK
                && dtos@ == rs@.map_values(|r: Review| review_dto_of(r)),
            Err(e) => reply matches Err(a) && db_error_surfaces_as(e, a),
        },
{
    match result {
        Ok(rs) => Ok((OK, reviews_to_dtos(rs))),
        Err(e) => Err(AppError::from_db_error(e)),
    }
}

/// A review to insert: the submitted fields and whether the series had been
/// recommended.
#[derive(Debug)]
pub struct NewReview {
    pub series_id: Id,
    pub user_id: Id,
    pub tmdb_series_id: i64,
    pub rating: i16,
    pub liked: Option<String>,
    pub disliked: Option<String>,
    pub was_recommended: bool,
}

/// The first decision of saving a review: a request whose rating lies
/// outside `1..=10` is refused with validator's report; any other goes on to
/// ask whether its series was recommended.
pub fn begin_save_review(payload: ReviewRequest) -> (next: Result<ReviewRequest, AppError>)
    ensures
        next is Ok <==> rating_in_range(payload.rating),
        next matches Ok(p) ==> p == payload,
        next matches Err(e) ==> e matches AppError::ValidationError(report)
            && range_report_frame("rating"@, report@),
{
    match payload.validate() {
        Ok(()) => Ok(payload),
        Err(f) => Err(AppError::ValidationError(f.report)),
    }
}

/// The second decision of saving a review: with the answer to whether its
/// series was recommended, the review to insert, or the failure.
pub fn review_to_insert(payload: ReviewRequest, recommended: Result<bool, DbError>) -> (next: Result<NewReview, AppError>)
    ensures
        match recommended {
            Ok(flag) => next == Ok::<NewReview, AppError>(NewReview {
                series_id: payload.series_id,
                user_id: payload.user_id,
                tmdb_series_id: payload.tmdb_series_id,
                rating: payload.rating,
                liked: payload.liked,
                disliked: payload.disliked,
                was_recommended: flag,
            }),
            Err(e) => next matches Err(a) && db_error_surfaces_as(e, a),
        },
{
    match recommended {
        Ok(flag) => Ok(NewReview {
            series_id: payload.series_id,
            user_id: payload.user_id,
            tmdb_series_id: payload.tmdb_series_id,
            rating: payload.rating,
            liked: payload.liked,
            disliked: payload.disliked,
            was_recommended: flag,
        }),
        Err(e) => Err(AppError::from_db_error(e)),
    }
}

/// The first decision of changing a review: a change whose rating lies
/// outside `1..=10` is refused with validator's report; any other goes on to
/// the update.
pub fn begin_patch_review(payload: UpdateReviewRequest) -> (next: Result<UpdateReviewRequest, AppError>)
    ensures
        next is Ok <==> rating_in_range(payload.rating),
        next matches Ok(p) ==> p == payload,
        next matches Err(e) ==> e matches AppError::ValidationError(report)
            && range_report_frame("rating"@, report@),
{
    match payload.validate() {
        Ok(()) => Ok(payload),
        Err(f) => Err(AppError::ValidationError(f.report)),
    }
}

/// The stored recommendations with details, one for each recommendation
/// whose details were found (`found` holds, per recommendation in order, the
/// details or `None` when the lookup failed), in the order of the
/// recommendations.
pub open spec fn stored_from<D>(recs: Seq<Recommendation>, found: Seq<Option<D>>) -> Seq<StoredRecommendation<D>>
    decreases found.len(),
{
    if found.len() == 0 {
        Seq::empty()
    } else {
        let k = found.len() - 1;
        let prev = stored_from(recs, found.drop_last());
        match found.last() {
            Some(d) => prev.push(StoredRecommendation { series: d, confidence: recs[k].confidence, created_at: recs[k].created_at }),
            None => prev,
        }
    }
}

/// Every stored recommendation whose details were found is listed, whatever
/// its confidence, with those details and its own confidence and creation
/// time, in the order of the recommendations, and nothing else is: the
/// listing is the recommendations paired with their lookups, kept where
/// details were found; it has one entry per found detail; and when every
/// lookup succeeded, its `i`-th entry is the `i`-th recommendation's.
pub proof fn lemma_listing_every_found<D>(recs: Seq<Recommendation>, found: Seq<Option<D>>)
    ensures
        stored_from(recs, found) == Seq::new(found.len(), |i: int| (recs[i], found[i]))
            .filter(|p: (Recommendation, Option<D>)| p.1 is Some)
            .map_values(|p: (Recommendation, Option<D>)| StoredRecommendation {
                series: p.1.unwrap(),
                confidence: p.0.confidence,
                created_at: p.0.created_at,
            }),
        stored_from(recs, found).len() == found.filter(|d: Option<D>| d is Some).len(),
        (forall|i: int| 0 <= i < found.len() ==> #[trigger] found[i] is Some) ==> {
            &&& stored_from(recs, found).len() == found.len()
            &&& forall|i: int| 0 <= i < found.len() ==> {
                &&& (#[trigger] stored_from(recs, found)[i]).series == found[i].unwrap()
                &&& stored_from(recs, found)[i].confidence == recs[i].confidence
                &&& stored_from(recs, found)[i].created_at == recs[i].created_at
            }
        },
    decreases found.len(),
{
    reveal(Seq::filter);
    let pairs = Seq::new(found.len(), |i: int| (recs[i], found[i]));
    let keep = |p: (Recommendation, Option<D>)| p.1 is Some;
    let listed = |p: (Recommendation, Option<D>)| StoredRecommendation {
        series: p.1.unwrap(),
        confidence: p.0.confidence,
        created_at: p.0.created_at,
    };
    if found.len() > 0 {
        let prev_found = found.drop_last();
        lemma_listing_every_found(recs, prev_found);
        let prev_pairs = Seq::new(prev_found.len(), |i: int| (recs[i], prev_found[i]));
        assert(prev_pairs == pairs.drop_last());
        assert(pairs.last() == (recs[found.len() - 1], found.last()));
        let kept = prev_pairs.filter(keep);
        if found.last() is Some {
            assert(pairs.filter(keep) == kept.push(pairs.last()));
            assert(kept.push(pairs.last()).map_values(listed) == kept.map_values(listed).push(listed(pairs.last())));
        } else {
            assert(pairs.filter(keep) == kept);
        }
        if forall|i: int| 0 <= i < found.len() ==> #[trigger] found[i] is Some {
            assert forall|i: int| 0 <= i < prev_found.len() implies #[trigger] prev_found[i] is Some by {
                assert(found[i] is Some);
            }
            assert(found[found.len() - 1] is Some);
        }
    } else {
        assert(pairs.len() == 0);
    }
}

/// What the listing of stored recommendations asks its driver to do next.
#[derive(Debug)]
pub enum StoredStep<D> {
    /// Fetch the catalogue details of this series.
    FetchDetails(u64),
    /// Answer with this.
    Respond(Result<(u16, Vec<StoredRecommendation<D>>), AppError>),
}

/// The listing of stored recommendations: each recommendation, newest first,
/// with the catalogue's details of its series; a recommendation whose details
/// cannot be fetched is left out.
pub struct StoredRecommendationsRun<D> {
    rest: Vec<Recommendation>,
    current: Option<Recommendation>,
    stored: Vec<StoredRecommendation<D>>,
    recs: Ghost<Seq<Recommendation>>,
    found: Ghost<Seq<Option<D>>>,
    user: Ghost<Id>,
}

impl<D> StoredRecommendationsRun<D> {
    /// The recommendations being listed, in the order the database gave them.
    pub closed spec fn recommendations(&self) -> Seq<Recommendation> {
        self.recs@
    }

    /// Per recommendation looked up so far, its details or `None`.
    pub closed spec fn found(&self) -> Seq<Option<D>> {
        self.found@
    }

    /// The user whose listing was asked for.
    pub closed spec fn user(&self) -> Id {
        self.user@
    }

    /// The listing the run answers with once every recommendation has been
    /// looked up: the recommendations whose details were found, with them.
    pub open spec fn listing(&self) -> Seq<StoredRecommendation<D>> {
        stored_from(self.recommendations(), self.found())
    }

    /// The stored listing is determined by the loaded recommendations and the
    /// catalogue's answers alone: two runs that loaded the same
    /// recommendations and got the same details answer the same listing,
    /// whichever users they were asked for.
    pub proof fn lemma_listing_ignores_user(a: &Self, b: &Self)
        requires
            a.recommendations() == b.recommendations(),
            a.found() == b.found(),
        ensures
            a.listing() == b.listing(),
    {
    }

    /// The listing holds every recommendation whose details were found, with
    /// its details, confidence and creation time, one entry per found detail,
    /// in the order of the recommendations, whatever the confidences.
    pub proof fn lemma_listing_holds_found(&self)
        ensures
            self.listing() == Seq::new(self.found().len(), |i: int| (self.recommendations()[i], self.found()[i]))
                .filter(|p: (Recommendation, Option<D>)| p.1 is Some)
                .map_values(|p: (Recommendation, Option<D>)| StoredRecommendation {
                    series: p.1.unwrap(),
                    confidence: p.0.confidence,
                    created_at: p.0.created_at,
                }),
            self.listing().len() == self.found().filter(|d: Option<D>| d is Some).len(),
    {
        lemma_listing_every_found(self.recommendations(), self.found());
    }

    /// The run awaits the details of the next recommendation.
    pub closed spec fn wf(&self) -> bool {
        &&& self.found@.len() < self.recs@.len()
        &&& self.current == Some(self.recs@[self.found@.len() as int])
        &&& self.rest@ == self.recs@.skip(self.found@.len() as int + 1)
        &&& self.stored@ == stored_from(self.recs@, self.found@)
    }

    closed spec fn between(&self) -> bool {
        &&& self.current is None
        &&& self.found@.len() <= self.recs@.len()
        &&& self.rest@ == self.recs@.skip(self.found@.len() as int)
        &&& self.stored@ == stored_from(self.recs@, self.found@)
    }

    fn fetch_next(&mut self) -> (step: StoredStep<D>)
        requires
            old(self).between(),
        ensures
            final(self).recommendations() == old(self).recommendations(),
            final(self).found() == old(self).found(),
            final(self).user() == old(self).user(),
            if old(self).found().len() < old(self).recommendations().len() {
                &&& final(self).wf()
                &&& step == StoredStep::<D>::FetchDetails(
                    old(self).recommendations()[old(self).found().len() as int].tmdb_series_id as u64,
                )
            } else {
                step matches StoredStep::Respond(Ok((status, listed))) && status == OK
                    && listed@ == stored_from(old(self).recommendations(), old(self).found())
            },
    {
        if self.rest.len() > 0 {
            let r = self.rest.remove(0);
            proof {
                assert(r == self.recs@[self.found@.len() as int]);
                assert(self.rest@ == self.recs@.skip(self.found@.len() as int + 1));
            }
            let id = r.tmdb_series_id as u64;
            self.current = Some(r);
            StoredStep::FetchDetails(id)
        } else {
            let mut listed: Vec<StoredRecommendation<D>> = Vec::new();
            std::mem::swap(&mut listed, &mut self.stored);
            StoredStep::Respond(Ok((OK, listed)))
        }
    }

    /// Starts the listing asked for by `user_id` from the recommendations the
    /// database returned; the listing is the same for every user.
    pub fn begin(user_id: Id, loaded: Result<Vec<Recommendation>, DbError>) -> (res: (StoredRecommendationsRun<D>, StoredStep<D>))
        ensures
            res.0.user() == user_id,
            match loaded {
                Err(e) => res.1 matches StoredStep::Respond(Err(a)) && db_error_surfaces_as(e, a),
                Ok(recs) => {
                    &&& res.0.recommendations() == recs@
                    &&& res.0.found() == Seq::<Option<D>>::empty()
                    &&& if recs@.len() > 0 {
                        res.0.wf() && res.1 == StoredStep::<D>::FetchDetails(recs@[0].tmdb_series_id as u64)
                    } else {
                        res.1 matches StoredStep::Respond(Ok((status, listed))) && status == OK
                            && listed@.len() == 0 && listed@ == res.0.listing()
                    }
                },
            },
    {
        match loaded {
            Err(e) => {
                let run = StoredRecommendationsRun {
                    rest: Vec::new(),
                    current: None,
                    stored: Vec::new(),
                    recs: Ghost(Seq::empty()),
                    found: Ghost(Seq::empty()),
                    user: Ghost(user_id),
                };
                (run, StoredStep::Respond(Err(AppError::from_db_error(e))))
            },
            Ok(recs) => {
                let ghost all = recs@;
                let mut run = StoredRecommendationsRun {
                    rest: recs,
                    current: None,
                    stored: Vec::new(),
                    recs: Ghost(all),
                    found: Ghost(Seq::empty()),
                    user: Ghost(user_id),
                };
                proof {
                    assert(run.rest@ == all.skip(0));
                }
                let step = run.fetch_next();
                (run, step)
            },
        }
    }

    /// Takes the details of the awaited recommendation's series: found
    /// details join the listing with the recommendation's confidence and
    /// creation time, a failed lookup leaves it out; then the next
    /// recommendation is looked up, or, after the last, the listing is
    /// answered.
    pub fn on_details(&mut self, fetched: Result<D, TmdbError>) -> (step: StoredStep<D>)
        requires
            old(self).wf(),
        ensures
            final(self).recommendations() == old(self).recommendations(),
            final(self).user() == old(self).user(),
            final(self).found() == old(self).found().push(
                match fetched {
                    Ok(d) => Some(d),
                    Err(_) => None,
                },
            ),
            if final(self).found().len() < final(self).recommendations().len() {
                &&& final(self).wf()
                &&& step == StoredStep::<D>::FetchDetails(
                    final(self).recommendations()[final(self).found().len() as int].tmdb_series_id as u64,
                )
            } else {
                step matches StoredStep::Respond(Ok((status, listed))) && status == OK
                    && listed@ == final(self).listing()
            },
    {
        let rec = self.current.take().unwrap();
        let ghost old_found = self.found@;
        match fetched {
            Ok(d) => {
                self.found = Ghost(self.found@.push(Some(d)));
                self.stored.push(StoredRecommendation { series: d, confidence: rec.confidence, created_at: rec.created_at });
            },
            Err(_) => {
                self.found = Ghost(self.found@.push(None));
            },
        }
        proof {
            assert(self.found@.drop_last() == old_found);
        }
        self.fetch_next()
    }
}

/// The reviews paired with the names found for their series (`names` holds,
/// per review in order, the name or `None` when no name was found), in
/// review order.
pub open spec fn titled_so_far(reviews: Seq<Review>, names: Seq<Option<Seq<char>>>) -> Seq<(Review, Seq<char>)>
    decreases names.len(),
{
    if names.len() == 0 {
        Seq::empty()
    } else {
        let prev = titled_so_far(reviews, names.drop_last());
        match names.last() {
            Some(n) => prev.push((reviews[names.len() - 1], n)),
            None => prev,
        }
    }
}

/// Reviews paired with series names, the names as texts.
pub open spec fn titled_view(t: Seq<(Review, String)>) -> Seq<(Review, Seq<char>)> {
    t.map_values(|p: (Review, String)| (p.0, p.1@))
}

/// The series picked from the searches (`hits` holds, per recommendation in
/// order, the first result of its search with that series' TMDB id, or
/// `None` when the search failed or found nothing), in recommendation order.
pub open spec fn picked_so_far<S>(hits: Seq<Option<(u64, S)>>) -> Seq<S>
    decreases hits.len(),
{
    if hits.len() == 0 {
        Seq::empty()
    } else {
        let prev = picked_so_far(hits.drop_last());
        match hits.last() {
            Some(hit) => prev.push(hit.1),
            None => prev,
        }
    }
}

/// Only reviews that name a TMDB series can have a series name.
pub open spec fn names_follow_ids(reviews: Seq<Review>, names: Seq<Option<Seq<char>>>) -> bool {
    &&& names.len() <= reviews.len()
    &&& forall|i: int|
        0 <= i < names.len() && #[trigger] reviews[i].tmdb_series_id is None ==> names[i] is None
}

/// The stage a recommendation run is in.
#[derive(Debug, Clone, Copy, PartialEq, Eq, Structural)]
pub enum RunStage {
    /// Awaiting the user's reviews.
    Reviews,
    /// Awaiting the series name of a review.
    Details,
    /// Awaiting the recommender's answer.
    Llm,
    /// Awaiting the catalogue search for a recommendation.
    Search,
    /// Awaiting the recording of a picked series.
    Save,
    /// Answered.
    Done,
}

/// What a recommendation run asks its driver to do next.
#[derive(Debug)]
pub enum RunStep<S> {
    /// Load all reviews of this user, newest first.
    LoadReviews(Id),
    /// Fetch the catalogue details of this series.
    FetchDetails(u64),
    /// Ask the recommender, with these reviews and the names of their series.
    AskLlm(Vec<(Review, String)>),
    /// Search the catalogue for a series with this title.
    Search(String),
    /// Record this recommendation (its outcome does not matter).
    SaveRecommendation { tmdb_series_id: i64, confidence: i16 },
    /// Answer with this.
    Respond(Result<(u16, Vec<S>), AppError>),
}

/// A run of the recommendation request for one user: name the series of
/// the user's reviews, ask the recommender, look each suggestion up in the
/// catalogue, record and answer the first match of each.
pub struct RecommendationRun<S> {
    stage: RunStage,
    rest: Vec<Review>,
    current: Option<Review>,
    titled: Vec<(Review, String)>,
    rest_recs: Vec<Suggestion>,
    current_rec: Option<Suggestion>,
    pending: Option<S>,
    picks: Vec<S>,
    reviews: Ghost<Seq<Review>>,
    names: Ghost<Seq<Option<Seq<char>>>>,
    asked: Ghost<Seq<(Review, Seq<char>)>>,
    recs: Ghost<Seq<Suggestion>>,
    hits: Ghost<Seq<Option<(u64, S)>>>,
}

/// What may follow the naming of the reviews' series: the next review that
/// names a series is looked up; or, after the last review, the recommender
/// is asked with the named reviews; or, when none could be named, the
/// answer is an empty list.
pub open spec fn after_lookup<S>(run: RecommendationRun<S>, step: RunStep<S>) -> bool {
    ||| {
        &&& run.stage() == RunStage::Details
        &&& run.names().len() < run.reviews().len()
        &&& run.reviews()[run.names().len() as int].tmdb_series_id matches Some(t)
            && step == RunStep::<S>::FetchDetails(t as u64)
    }
    ||| {
        &&& run.stage() == RunStage::Llm
        &&& run.names().len() == run.reviews().len()
        &&& step matches RunStep::AskLlm(t) && titled_view(t@) == run.asked()
            && run.asked() == titled_so_far(run.reviews(), run.names())
        &&& run.asked().len() > 0
    }
    ||| {
        &&& run.stage() == RunStage::Done
        &&& run.names().len() == run.reviews().len()
        &&& titled_so_far(run.reviews(), run.names()).len() == 0
        &&& step matches RunStep::Respond(Ok((status, listed))) && status == OK && listed@.len() == 0
    }
}

/// What may follow a recommendation's search: the next recommendation is
/// searched for; or, after the last, the answer lists the picked series.
pub open spec fn after_search<S>(run: RecommendationRun<S>, step: RunStep<S>) -> bool {
    ||| {
        &&& run.stage() == RunStage::Search
        &&& run.hits().len() < run.recommendations().len()
        &&& step matches RunStep::Search(title) && title@ == run.recommendations()[run.hits().len() as int].title@
    }
    ||| {
        &&& run.stage() == RunStage::Done
        &&& run.hits().len() == run.recommendations().len()
        &&& step matches RunStep::Respond(Ok((status, listed))) && status == OK
            && listed@ == picked_so_far(run.hits())
    }
}

/// The recommender is asked with every review whose series name was found,
/// each with its name, in review order, and with nothing else: the asked
/// list is the reviews paired with their lookups, kept where a name was
/// found; it has one entry per found name; and when every name was found,
/// its `i`-th entry is the `i`-th review with its name.
pub proof fn lemma_asked_every_named_review(reviews: Seq<Review>, names: Seq<Option<Seq<char>>>)
    ensures
        titled_so_far(reviews, names) == Seq::new(names.len(), |i: int| (reviews[i], names[i]))
            .filter(|p: (Review, Option<Seq<char>>)| p.1 is Some)
            .map_values(|p: (Review, Option<Seq<char>>)| (p.0, p.1.unwrap())),
        titled_so_far(reviews, names).len() == names.filter(|n: Option<Seq<char>>| n is Some).len(),
        (forall|i: int| 0 <= i < names.len() ==> #[trigger] names[i] is Some) ==> {
            &&& titled_so_far(reviews, names).len() == names.len()
            &&& forall|i: int| 0 <= i < names.len() ==> #[trigger] titled_so_far(reviews, names)[i]
                == (reviews[i], names[i].unwrap())
        },
    decreases names.len(),
{
    reveal(Seq::filter);
    let pairs = Seq::new(names.len(), |i: int| (reviews[i], names[i]));
    let keep = |p: (Review, Option<Seq<char>>)| p.1 is Some;
    let named = |p: (Review, Option<Seq<char>>)| (p.0, p.1.unwrap());
    if names.len() > 0 {
        let prev_names = names.drop_last();
        lemma_asked_every_named_review(reviews, prev_names);
        let prev_pairs = Seq::new(prev_names.len(), |i: int| (reviews[i], prev_names[i]));
        assert(prev_pairs == pairs.drop_last());
        assert(pairs.last() == (reviews[names.len() - 1], names.last()));
        let kept = prev_pairs.filter(keep);
        if names.last() is Some {
            assert(pairs.filter(keep) == kept.push(pairs.last()));
            assert(kept.push(pairs.last()).map_values(named) == kept.map_values(named).push(named(pairs.last())));
        } else {
            assert(pairs.filter(keep) == kept);
        }
        if forall|i: int| 0 <= i < names.len() ==> #[trigger] names[i] is Some {
            assert forall|i: int| 0 <= i < prev_names.len() implies #[trigger] prev_names[i] is Some by {
                assert(names[i] is Some);
            }
            assert(names[names.len() - 1] is Some);
        }
    } else {
        assert(pairs.len() == 0);
    }
}

/// The answer lists the first match of every suggestion whose search found
/// one, in suggestion order, and nothing else: one entry per successful
/// search, and when every search succeeded, the `i`-th entry is the `i`-th
/// suggestion's match.
pub proof fn lemma_picked_every_hit<S>(hits: Seq<Option<(u64, S)>>)
    ensures
        picked_so_far(hits) == hits.filter(|h: Option<(u64, S)>| h is Some)
            .map_values(|h: Option<(u64, S)>| h.unwrap().1),
        picked_so_far(hits).len() == hits.filter(|h: Option<(u64, S)>| h is Some).len(),
        (forall|i: int| 0 <= i < hits.len() ==> #[trigger] hits[i] is Some) ==> {
            &&& picked_so_far(hits).len() == hits.len()
            &&& forall|i: int| 0 <= i < hits.len() ==> #[trigger] picked_so_far(hits)[i] == hits[i].unwrap().1
        },
    decreases hits.len(),
{
    reveal(Seq::filter);
    let keep = |h: Option<(u64, S)>| h is Some;
    let pick = |h: Option<(u64, S)>| h.unwrap().1;
    if hits.len() > 0 {
        let prev = hits.drop_last();
        lemma_picked_every_hit(prev);
        let kept = prev.filter(keep);
        if hits.last() is Some {
            assert(hits.filter(keep) == kept.push(hits.last()));
            assert(kept.push(hits.last()).map_values(pick) == kept.map_values(pick).push(pick(hits.last())));
        } else {
            assert(hits.filter(keep) == kept);
        }
        if forall|i: int| 0 <= i < hits.len() ==> #[trigger] hits[i] is Some {
            assert forall|i: int| 0 <= i < prev.len() implies #[trigger] prev[i] is Some by {
                assert(hits[i] is Some);
            }
            assert(hits[hits.len() - 1] is Some);
        }
    }
}

proof fn lemma_titled_skip(reviews: Seq<Review>, names: Seq<Option<Seq<char>>>)
    ensures
        titled_so_far(reviews, names.push(None)) == titled_so_far(reviews, names),
{
    assert(names.push(None).drop_last() == names);
}

proof fn lemma_picked_skip<S>(hits: Seq<Option<(u64, S)>>)
    ensures
        picked_so_far(hits.push(None)) == picked_so_far(hits),
{
    assert(hits.push(None).drop_last() == hits);
}

impl<S> RecommendationRun<S> {
    /// The stage the run is in.
    pub closed spec fn stage(&self) -> RunStage {
        self.stage
    }

    /// The user's reviews, newest first.
    pub closed spec fn reviews(&self) -> Seq<Review> {
        self.reviews@
    }

    /// Per review handled so far, the name found for its series, if any.
    pub closed spec fn names(&self) -> Seq<Option<Seq<char>>> {
        self.names@
    }

    /// The reviews with series names the recommender was asked with.
    pub closed spec fn asked(&self) -> Seq<(Review, Seq<char>)> {
        self.asked@
    }

    /// The recommender's suggestions, in its order.
    pub closed spec fn recommendations(&self) -> Seq<Suggestion> {
        self.recs@
    }

    /// Per suggestion searched so far, the first result with its id, if any.
    pub closed spec fn hits(&self) -> Seq<Option<(u64, S)>> {
        self.hits@
    }

    /// The run's state is consistent with its history.
    pub closed spec fn wf(&self) -> bool {
        match self.stage {
            RunStage::Reviews => true,
            RunStage::Details => {
                &&& self.names@.len() < self.reviews@.len()
                &&& self.current matches Some(c) && c == self.reviews@[self.names@.len() as int]
                    && c.tmdb_series_id is Some
                &&& self.rest@ == self.reviews@.skip(self.names@.len() as int + 1)
                &&& titled_view(self.titled@) == titled_so_far(self.reviews@, self.names@)
                &&& names_follow_ids(self.reviews@, self.names@)
            },
            RunStage::Llm => {
                &&& self.names@.len() == self.reviews@.len()
                &&& self.asked@ == titled_so_far(self.reviews@, self.names@)
                &&& self.asked@.len() > 0
                &&& names_follow_ids(self.reviews@, self.names@)
            },
            RunStage::Search => {
                &&& self.names@.len() == self.reviews@.len()
                &&& self.asked@ == titled_so_far(self.reviews@, self.names@)
                &&& names_follow_ids(self.reviews@, self.names@)
                &&& self.hits@.len() < self.recs@.len()
                &&& self.current_rec == Some(self.recs@[self.hits@.len() as int])
                &&& self.rest_recs@ == self.recs@.skip(self.hits@.len() as int + 1)
                &&& self.picks@ == picked_so_far(self.hits@)
                &&& self.pending is None
            },
            RunStage::Save => {
                &&& self.names@.len() == self.reviews@.len()
                &&& self.asked@ == titled_so_far(self.reviews@, self.names@)
                &&& names_follow_ids(self.reviews@, self.names@)
                &&& 0 < self.hits@.len() <= self.recs@.len()
                &&& self.rest_recs@ == self.recs@.skip(self.hits@.len() as int)
                &&& self.hits@.last() matches Some(hit) && self.pending == Some(hit.1)
                &&& self.picks@ == picked_so_far(self.hits@.drop_last())
                &&& self.current_rec is None
            },
            RunStage::Done => true,
        }
    }

    /// Facts of every consistent run: only reviews that name a series get a
    /// series name, and once the recommender is asked, it is asked with
    /// exactly the named reviews, in review order.
    pub proof fn lemma_run_facts(&self)
        requires
            self.wf(),
        ensures
            self.stage() == RunStage::Details ==> names_follow_ids(self.reviews(), self.names()),
            self.stage() == RunStage::Llm || self.stage() == RunStage::Search || self.stage()
                == RunStage::Save ==> {
                &&& names_follow_ids(self.reviews(), self.names())
                &&& self.names().len() == self.reviews().len()
                &&& self.asked() == titled_so_far(self.reviews(), self.names())
            },
            self.stage() == RunStage::Search ==> self.hits().len() < self.recommendations().len(),
            self.stage() == RunStage::Save ==> 0 < self.hits().len() <= self.recommendations().len()
                && self.hits().last() is Some,
    {
    }

    /// Once the recommender has been asked, it was asked with every review
    /// whose series name was found, each with its name, in review order, and
    /// with nothing else: one entry per found name.
    pub proof fn lemma_asked_named_reviews(&self)
        requires
            self.wf(),
            self.stage() == RunStage::Llm || self.stage() == RunStage::Search || self.stage()
                == RunStage::Save,
        ensures
            self.asked() == Seq::new(self.names().len(), |i: int| (self.reviews()[i], self.names()[i]))
                .filter(|p: (Review, Option<Seq<char>>)| p.1 is Some)
                .map_values(|p: (Review, Option<Seq<char>>)| (p.0, p.1.unwrap())),
            self.asked().len() == self.names().filter(|n: Option<Seq<char>>| n is Some).len(),
            self.names().len() == self.reviews().len(),
    {
        lemma_asked_every_named_review(self.reviews(), self.names());
    }

    /// Starts the run for a user; the first step loads their reviews.
    pub fn start(user_id: Id) -> (res: (RecommendationRun<S>, RunStep<S>))
        ensures
            res.0.stage() == RunStage::Reviews,
            res.0.wf(),
            res.1 == RunStep::<S>::LoadReviews(user_id),
    {
        let run = RecommendationRun {
            stage: RunStage::Reviews,
            rest: Vec::new(),
            current: None,
            titled: Vec::new(),
            rest_recs: Vec::new(),
            current_rec: None,
            pending: None,
            picks: Vec::new(),
            reviews: Ghost(Seq::empty()),
            names: Ghost(Seq::empty()),
            asked: Ghost(Seq::empty()),
            recs: Ghost(Seq::empty()),
            hits: Ghost(Seq::empty()),
        };
        (run, RunStep::LoadReviews(user_id))
    }

    fn lookup_next(&mut self) -> (step: RunStep<S>)
        requires
            old(self).current is None,
            old(self).reviews@.len() > 0,
            old(self).names@.len() <= old(self).reviews@.len(),
            old(self).rest@ == old(self).reviews@.skip(old(self).names@.len() as int),
            titled_view(old(self).titled@) == titled_so_far(old(self).reviews@, old(self).names@),
            names_follow_ids(old(self).reviews@, old(self).names@),
        ensures
            final(self).wf(),
            after_lookup(*final(self), step),
            final(self).reviews() == old(self).reviews(),
            final(self).recs == old(self).recs,
            final(self).hits == old(self).hits,
            old(self).names@.len() <= final(self).names().len(),
            final(self).names().take(old(self).names@.len() as int) == old(self).names@,
            forall|i: int|
                old(self).names@.len() <= i < final(self).names().len() ==> #[trigger] final(self).names()[i]
                    is None && final(self).reviews()[i].tmdb_series_id is None,
    {
        let ghost start_names = self.names@;
        while self.rest.len() > 0
            invariant
                self.current is None,
                self.reviews@.len() > 0,
                self.names@.len() <= self.reviews@.len(),
                self.names@.len() + self.rest@.len() == self.reviews@.len(),
                self.rest@ == self.reviews@.skip(self.names@.len() as int),
                titled_view(self.titled@) == titled_so_far(self.reviews@, self.names@),
                names_follow_ids(self.reviews@, self.names@),
                start_names.len() <= self.names@.len(),
                self.names@.take(start_names.len() as int) == start_names,
                forall|i: int| start_names.len() <= i < self.names@.len() ==> #[trigger] self.names@[i] is None
                    && self.reviews@[i].tmdb_series_id is None,
                self.recs == old(self).recs,
                self.hits == old(self).hits,
                self.reviews == old(self).reviews,
                start_names == old(self).names@,
            decreases self.rest@.len(),
        {
            let ghost k = self.names@.len() as int;
            let r = self.rest.remove(0);
            proof {
                assert(r == self.reviews@[k]);
                assert(self.rest@ == self.reviews@.skip(k + 1));
            }
            match r.tmdb_series_id {
                Some(t) => {
                    self.current = Some(r);
                    self.stage = RunStage::Details;
                    return RunStep::FetchDetails(t as u64);
                },
                None => {
                    proof {
                        lemma_titled_skip(self.reviews@, self.names@);
                    }
                    let ghost prev = self.names@;
                    self.names = Ghost(self.names@.push(None));
                    proof {
                        assert(self.names@.take(start_names.len() as int) == prev.take(start_names.len() as int));
                        assert forall|i: int|
                            0 <= i < self.names@.len() && #[trigger] self.reviews@[i].tmdb_series_id is None
                            implies self.names@[i] is None by {
                            if i < k {
                                assert(self.names@[i] == prev[i]);
                            }
                        }
                    }
                },
            }
        }
        if self.titled.len() == 0 {
            self.stage = RunStage::Done;
            RunStep::Respond(Ok((OK, Vec::new())))
        } else {
            let mut asked: Vec<(Review, String)> = Vec::new();
            std::mem::swap(&mut asked, &mut self.titled);
            self.asked = Ghost(titled_view(asked@));
            self.stage = RunStage::Llm;
            RunStep::AskLlm(asked)
        }
    }

    /// Takes the user's reviews: a failure is answered as the failure it
    /// surfaces as, no reviews with an empty list, and otherwise the series
    /// of the reviews are named, starting with the first review that names a
    /// series.
    pub fn on_reviews(&mut self, loaded: Result<Vec<Review>, DbError>) -> (step: RunStep<S>)
        requires
            old(self).stage() == RunStage::Reviews,
        ensures
            final(self).wf(),
            match loaded {
                Err(e) => {
                    &&& final(self).stage() == RunStage::Done
                    &&& step matches RunStep::Respond(Err(a)) && db_error_surfaces_as(e, a)
                },
                Ok(reviews) => if reviews@.len() == 0 {
                    &&& final(self).stage() == RunStage::Done
                    &&& step matches RunStep::Respond(Ok((status, listed))) && status == OK && listed@.len() == 0
                } else {
                    &&& final(self).reviews() == reviews@
                    &&& after_lookup(*final(self), step)
                    &&& forall|i: int| 0 <= i < final(self).names().len() ==> #[trigger] final(self).names()[i] is None
                        && final(self).reviews()[i].tmdb_series_id is None
                },
            },
    {
        match loaded {
            Err(e) => {
                self.stage = RunStage::Done;
                RunStep::Respond(Err(AppError::from_db_error(e)))
            },
            Ok(reviews) => {
                if reviews.len() == 0 {
                    self.stage = RunStage::Done;
                    RunStep::Respond(Ok((OK, Vec::new())))
                } else {
                    self.reviews = Ghost(reviews@);
                    self.names = Ghost(Seq::empty());
                    self.titled = Vec::new();
                    self.current = None;
                    self.rest = reviews;
                    proof {
                        assert(self.rest@ == self.reviews@.skip(0));
                        assert(titled_view(self.titled@) =~= Seq::<(Review, Seq<char>)>::empty());
                    }
                    self.lookup_next()
                }
            },
        }
    }

    /// Takes the details of the awaited review's series: the review is paired
    /// with the series name, or left out when the lookup failed; then the
    /// naming goes on with the next review that names a series.
    pub fn on_details(&mut self, fetched: Result<String, TmdbError>) -> (step: RunStep<S>)
        requires
            old(self).stage() == RunStage::Details,
            old(self).wf(),
        ensures
            final(self).wf(),
            after_lookup(*final(self), step),
            final(self).reviews() == old(self).reviews(),
            old(self).names().len() < final(self).names().len(),
            final(self).names().take(old(self).names().len() as int) == old(self).names(),
            final(self).names()[old(self).names().len() as int] == match fetched {
                Ok(name) => Some(name@),
                Err(_) => None::<Seq<char>>,
            },
            forall|i: int|
                old(self).names().len() < i < final(self).names().len() ==> #[trigger] final(self).names()[i]
                    is None && final(self).reviews()[i].tmdb_series_id is None,
    {
        let review = self.current.take().unwrap();
        let ghost k = self.names@.len() as int;
        let ghost prev = self.names@;
        let ghost prev_titled = self.titled@;
        match fetched {
            Ok(name) => {
                self.names = Ghost(self.names@.push(Some(name@)));
                proof {
                    assert(self.names@.drop_last() == prev);
                }
                self.titled.push((review, name));
                proof {
                    assert(titled_view(self.titled@) == titled_view(prev_titled).push((review, name@)));
                }
            },
            Err(_) => {
                proof {
                    lemma_titled_skip(self.reviews@, self.names@);
                }
                self.names = Ghost(self.names@.push(None));
            },
        }
        proof {
            assert(self.names@.take(k) == prev);
            assert forall|i: int|
                0 <= i < self.names@.len() && #[trigger] self.reviews@[i].tmdb_series_id is None
                implies self.names@[i] is None by {
                if i < k {
                    assert(self.names@[i] == prev[i]);
                }
            }
            assert(self.rest@ == self.reviews@.skip(self.names@.len() as int));
        }
        self.lookup_next()
    }

    fn search_next(&mut self) -> (step: RunStep<S>)
        requires
            old(self).current_rec is None,
            old(self).pending is None,
            old(self).hits@.len() <= old(self).recs@.len(),
            old(self).rest_recs@ == old(self).recs@.skip(old(self).hits@.len() as int),
            old(self).picks@ == picked_so_far(old(self).hits@),
            old(self).names@.len() == old(self).reviews@.len(),
            old(self).asked@ == titled_so_far(old(self).reviews@, old(self).names@),
            names_follow_ids(old(self).reviews@, old(self).names@),
        ensures
            final(self).wf(),
            after_search(*final(self), step),
            final(self).reviews() == old(self).reviews(),
            final(self).names() == old(self).names(),
            final(self).asked() == old(self).asked(),
            final(self).recommendations() == old(self).recs@,
            final(self).hits() == old(self).hits@,
    {
        if self.rest_recs.len() > 0 {
            let rec = self.rest_recs.remove(0);
            proof {
                assert(rec == self.recs@[self.hits@.len() as int]);
                assert(self.rest_recs@ == self.recs@.skip(self.hits@.len() as int + 1));
            }
            let title = rec.title.clone();
            self.current_rec = Some(rec);
            self.stage = RunStage::Search;
            RunStep::Search(title)
        } else {
            let mut listed: Vec<S> = Vec::new();
            std::mem::swap(&mut listed, &mut self.picks);
            self.stage = RunStage::Done;
            RunStep::Respond(Ok((OK, listed)))
        }
    }

    /// Takes the recommender's answer: a failure is answered as an LLM
    /// error; otherwise its suggestions are searched for in order.
    pub fn on_recommendations(&mut self, answer: Result<SeriesRecommendations, LlmError>) -> (step: RunStep<S>)
        requires
            old(self).stage() == RunStage::Llm,
            old(self).wf(),
        ensures
            final(self).wf(),
            final(self).reviews() == old(self).reviews(),
            final(self).names() == old(self).names(),
            final(self).asked() == old(self).asked(),
            match answer {
                Err(e) => final(self).stage() == RunStage::Done
                    && step == RunStep::<S>::Respond(Err(AppError::Llm(e))),
                Ok(recs) => {
                    &&& final(self).recommendations() == recs.recommendations@
                    &&& final(self).hits().len() == 0
                    &&& after_search(*final(self), step)
                },
            },
    {
        match answer {
            Err(e) => {
                self.stage = RunStage::Done;
                RunStep::Respond(Err(AppError::Llm(e)))
            },
            Ok(recs) => {
                self.recs = Ghost(recs.recommendations@);
                self.hits = Ghost(Seq::empty());
                self.rest_recs = recs.recommendations;
                self.current_rec = None;
                self.pending = None;
                self.picks = Vec::new();
                proof {
                    assert(self.rest_recs@ == self.recs@.skip(0));
                }
                self.search_next()
            },
        }
    }

    /// Takes the catalogue's search results for the awaited suggestion: the
    /// first result, if the search succeeded and found any, is recorded as a
    /// recommendation with its TMDB id and the suggestion's confidence before
    /// it joins the answer; otherwise the next suggestion is searched for.
    pub fn on_search(&mut self, found: Result<Vec<(u64, S)>, TmdbError>) -> (step: RunStep<S>)
        requires
            old(self).stage() == RunStage::Search,
            old(self).wf(),
        ensures
            final(self).wf(),
            final(self).reviews() == old(self).reviews(),
            final(self).names() == old(self).names(),
            final(self).asked() == old(self).asked(),
            final(self).recommendations() == old(self).recommendations(),
            match found {
                Ok(results) if results@.len() > 0 => {
                    &&& final(self).hits() == old(self).hits().push(Some(results@[0]))
                    &&& final(self).stage() == RunStage::Save
                    &&& step == RunStep::<S>::SaveRecommendation {
                        tmdb_series_id: results@[0].0 as i64,
                        confidence: old(self).recommendations()[old(self).hits().len() as int].confidence as i16,
                    }
                },
                _ => {
                    &&& final(self).hits() == old(self).hits().push(None)
                    &&& after_search(*final(self), step)
                },
            },
    {
        let rec = self.current_rec.take().unwrap();
        let ghost prev = self.hits@;
        match found {
            Ok(mut results) => {
                if results.len() > 0 {
                    let first = results.remove(0);
                    self.hits = Ghost(self.hits@.push(Some(first)));
                    let (id, series) = first;
                    self.pending = Some(series);
                    self.stage = RunStage::Save;
                    proof {
                        assert(self.hits@.drop_last() == prev);
                        assert(self.rest_recs@ == self.recs@.skip(self.hits@.len() as int));
                    }
                    return RunStep::SaveRecommendation { tmdb_series_id: id as i64, confidence: rec.confidence as i16 };
                }
            },
            Err(_) => {},
        }
        proof {
            lemma_picked_skip::<S>(self.hits@);
        }
        self.hits = Ghost(self.hits@.push(None));
        proof {
            assert(self.rest_recs@ == self.recs@.skip(self.hits@.len() as int));
        }
        self.search_next()
    }

    /// Takes the outcome of recording the picked series, whatever it is: the
    /// series joins the answer and the next suggestion is searched for.
    pub fn on_saved(&mut self, saved: Result<(), DbError>) -> (step: RunStep<S>)
        requires
            old(self).stage() == RunStage::Save,
            old(self).wf(),
        ensures
            final(self).wf(),
            final(self).reviews() == old(self).reviews(),
            final(self).names() == old(self).names(),
            final(self).asked() == old(self).asked(),
            final(self).recommendations() == old(self).recommendations(),
            final(self).hits() == old(self).hits(),
            after_search(*final(self), step),
    {
        let ghost hits = self.hits@;
        proof {
            assert(hits.len() > 0);
            assert(hits.last() is Some);
            assert(picked_so_far(hits) == picked_so_far(hits.drop_last()).push(hits.last().unwrap().1));
        }
        let series = self.pending.take().unwrap();
        self.picks.push(series);
        self.search_next()
    }
}

} // verus!
