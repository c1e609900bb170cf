//! A catalog of movies, series and their reviews, kept in three independent
//! collections whose cross-collection rules (a shared `imdbId` namespace,
//! review ownership, patch allow-lists) are enforced and proved here.

pub mod error;
pub mod formats;
pub mod models;
pub mod services;
pub mod routes;
