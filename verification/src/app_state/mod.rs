pub mod loaders;
pub mod model;

pub use model::AppState;
