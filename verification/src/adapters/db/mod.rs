pub mod adapter;
pub mod models;

pub use adapter::DbError;
pub use models::{Recommendation, Review, User};
