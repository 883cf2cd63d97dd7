//! Lifecycle rules for bearer-style access grants of a multi-tenant
//! database: issuing a grant, showing grants, revoking them, and purging
//! those that have been expired or revoked for long enough.
//!
//! The crate decides; it never talks to a store, a session, a clock or an
//! evaluator of conditions itself. A statement is a [`engine::Run`]: it
//! asks for what it needs to know, one thing after the other, and for the
//! effects that are due, and ends with its result. Whoever drives the run
//! carries the requests out and hands the answers back.
//!
//! - [`grant`]: the grant, its predicates and its redacted form.
//! - [`bearer`]: bearer keys, how they are drawn and how they are hashed.
//! - [`method`], [`tenancy`], [`statement`]: access methods, levels, and
//!   the four statements.
//! - [`create`], [`show`], [`revoke`], [`purge`]: what each statement
//!   decides, given what was read.
//! - [`effect`]: what a statement asks to be done.
//! - [`document`]: grants as documents.
//! - [`protocol`], [`engine`]: the questions and answers of a run, and
//!   the run itself.
//! - [`model`]: the run as mathematics, and the laws of every run.
//! - [`store`]: what is expected of the store, and what the statements
//!   come to on it.

pub mod text;
pub mod views;
pub mod time;
pub mod error;
pub mod tenancy;
pub mod grant;
pub mod method;
pub mod bearer;
pub mod statement;
pub mod effect;
pub mod document;
pub mod create;
pub mod show;
pub mod revoke;
pub mod purge;
pub mod protocol;
pub mod model;
pub mod engine;
pub mod store;
