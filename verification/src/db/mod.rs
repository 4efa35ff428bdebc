//! Persistence: the error kind and the natural-key document store.

pub mod database;
pub mod repository;
