//! An in-memory registry of telecom operator records, keyed by TADIG code,
//! IMSI prefix, MSISDN prefix and country, with the validation rules that
//! guard every change and the queries that read it.

pub mod app_state;
pub mod handlers;
pub mod operators;
pub mod utils;
