//! A verified core for a dictionary-definition service: challenge-aware
//! fetching policy, HTML-to-model extraction for two dictionary sources,
//! audio attachment, an idempotent natural-key document store, and the
//! cache-or-fetch orchestration over them.

pub mod cloning;
pub mod cloudflare_bypasser;
pub mod db;
pub mod dtos;
pub mod env;
pub mod html;
pub mod models;
pub mod oxford;
pub mod service;
pub mod text;
pub mod vocabulary;
