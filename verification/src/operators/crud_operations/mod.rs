pub mod create;
pub mod delete;
pub mod read;
pub mod update;
pub mod invariants;
