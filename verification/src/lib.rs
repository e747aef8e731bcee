pub mod classifier;
pub mod finding;
pub mod freshener;
pub mod laws;
pub mod manifest;
pub mod registry;
pub mod sequences;
pub mod substring;
