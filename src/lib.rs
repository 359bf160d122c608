//! Users and articles of a small blog backend: the records, the error kinds of
//! the store, a verified in-memory store with the same constraints as the
//! relational one, and the decisions that the request handlers take.
use vstd::prelude::*;

pub mod models;
pub mod error;
pub mod db;
pub mod laws;
pub mod outcome;
pub mod pages;
