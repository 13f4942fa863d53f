//! A small article service: a table of articles, the worker that runs
//! operations against it, and the mapping from outcomes to HTTP replies.

pub mod actors;
pub mod history;
pub mod ident;
pub mod laws;
pub mod models;
pub mod response;
pub mod routes;
pub mod store;
