pub mod adapter;
pub mod models;
