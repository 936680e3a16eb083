//! The core of a URL-shortening service, with machine-checked contracts.
//!
//! The crate allocates collision-free short codes, resolves them to their
//! targets under an expiry policy, counts clicks without holding up the
//! redirect, and limits how often a client may call. Every function states
//! what it returns and changes over a mathematical model of its data, and
//! Verus proves that the code keeps its word.
//!
//! * [`services`] holds the operations: creating, resolving and deleting
//!   links ([`services::UrlService`]), accounts
//!   ([`services::AuthService`]), and the laws that hold of them
//!   ([`services::laws`]).
//! * [`database`] holds the link and user tables and their models.
//! * [`api`] holds the fixed-window rate limiter and what is read from
//!   request headers.
//! * [`models`], [`config`], [`error`] and [`validation`] hold the data that
//!   travels between the layers.
//! * [`utils`], [`text`] and [`time`] hold code generation, text helpers and
//!   instants.
//!
//! What depends on the clock or on randomness comes in two forms: one that
//! takes the reading or the random values as arguments and is a function of
//! them, and one that draws them itself. Calls into other crates stand
//! behind small functions whose contracts are trusted, not proved; each says
//! so in its documentation.

pub mod api;
pub mod config;
pub mod database;
pub mod error;
pub mod models;
pub mod services;
pub mod text;
pub mod time;
pub mod utils;
pub mod validation;
