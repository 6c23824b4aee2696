//! The entities and what the cache layer has to know of each.

pub mod comment;
pub mod contest;
pub mod csubmission;
pub mod post;
pub mod problem;
pub mod submission;
pub mod team;
pub mod traits;
pub mod tsubmission;
pub mod user;
