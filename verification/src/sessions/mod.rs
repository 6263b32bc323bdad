pub mod discover;
pub mod enrich;
pub mod poll;
pub mod raw;
pub mod store;
