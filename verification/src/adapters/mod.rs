pub mod db;
pub mod llm;
pub mod tmdb;
