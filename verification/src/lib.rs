//! Verified core of a practice-tracking backend.
//!
//! Users log practice sessions, keep a shared catalog of pieces, and link
//! the pieces they practiced to their practice sessions. This crate holds
//! the rules of that data: who may read and change which rows, how changes
//! that span tables keep every reference intact, and how failures are named
//! to the caller.
//!
//! - [`store`] keeps the four tables and enforces their rules; [`state`]
//!   says what a store holds and [`rules`] proves that every change keeps
//!   the rules.
//! - [`sessions`] resolves bearer tokens to users; [`identity`] registers
//!   users and logs them in and out, with digests from [`password`].
//! - [`guard`] is the ownership check, [`cascade`] the changes that span
//!   tables, [`service`] the operations that a client can ask for. What
//!   guard and cascade ask of a store, request by request, is laid down in
//!   [`requests`], so that the same decisions run against any store.
//! - [`error`] is the taxonomy of failures and the classifier of storage
//!   failures.
//! - [`filter`] and [`text`] say which rows a read selects; [`datetime`]
//!   and [`display`] show rows as text; [`catalog`] prepares pieces for a
//!   bulk import.
//! - [`guarantees`] states what holds of the operations taken together.

pub mod cascade;
pub mod catalog;
pub mod datetime;
pub mod display;
pub mod error;
pub mod filter;
pub mod guarantees;
pub mod guard;
pub mod identity;
pub mod models;
pub mod password;
pub mod requests;
pub mod rules;
pub mod selection;
pub mod service;
pub mod sessions;
pub mod state;
pub mod store;
pub mod text;

pub use error::AppError;
pub use guard::verify_practice_session_ownership;
pub use models::{Credentials, NewPracticeSessionData, PracticeSessionWithPieces};
