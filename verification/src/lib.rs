//! The core of a small comment-hosting service.
//!
//! Clients post comments against a named thread, list a thread as a
//! two-level tree of roots and replies, and soft-delete a comment by proving
//! knowledge of its password. This crate holds what the service decides and
//! computes; the rows themselves live in a store that the caller owns.
//!
//! - [`models`]: the records, each with its mathematical value.
//! - [`tree`]: assembly of a thread's rows into its tree.
//! - [`laws`]: what holds of every assembled thread.
//! - [`password`]: hashing and checking of comment passwords.
//! - [`stamp`]: the identifier and the time that a new comment is given.
//! - [`handlers`]: the three requests, step by step around the store.
//! - [`error`]: the failures and their statuses.

pub mod error;
pub mod handlers;
pub mod laws;
pub mod models;
pub mod password;
pub mod stamp;
pub mod tree;
