//! Reconciles a blog's newest post with the discussion threads of a repository:
//! it decides whether a comment thread already exists for the post, resolves the
//! repository and category identifiers, composes the creation request and checks
//! what the remote API answers.

pub mod error;
pub mod parse;
pub mod post;
pub mod response;
pub mod finder;
pub mod category;
pub mod repository;
pub mod creation;
pub mod orchestrator;
pub mod source;
pub mod query;
