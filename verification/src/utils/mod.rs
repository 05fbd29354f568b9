pub mod error_responses;
pub mod models;
pub mod search;
pub mod text;
pub mod validations;
pub mod config;
