//! Core logic of an online-judge backend: a cache-aside entity layer over a
//! relational store and a key-value store, the contest scheduler with its
//! result aggregation, the pool of judge slots and the ranklist cache.
//!
//! Every decision is a verified function from plain values to plain values;
//! the stores, the clock, the timers and the judging service are driven by
//! the caller, who performs the commands this crate issues and hands back
//! what came of them.

pub mod aggregate;
pub mod bodies;
pub mod cache;
pub mod clock;
pub mod constants;
pub mod contest;
pub mod error;
pub mod forms;
pub mod generator;
pub mod judge;
pub mod keys;
pub mod laws;
pub mod listing;
pub mod model;
pub mod policy;
pub mod problem_index;
pub mod ranklist;
pub mod schema;
pub mod score;
pub mod sql;
pub mod status;
pub mod store;
pub mod test_cases;
pub mod text;
pub mod token;
pub mod user_stats;
pub mod value;
pub mod wire;
