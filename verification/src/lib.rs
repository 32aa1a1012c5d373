//! Series tracking and recommendation backend: reviews, users, stored
//! recommendations, a TMDB catalogue client and an LLM recommender, with the
//! decisions of every request flow stated and proved.
pub mod adapters;
pub mod api;
pub mod errors;
pub mod models;
pub mod text;
