//! Session control for an OAuth2 authentication gateway.
//!
//! The crate holds the decisions of the gateway: which store commands a
//! login, a callback and a logout issue, how session tokens are minted and
//! checked, and when a request is let through. Network and database work is
//! left to the caller, who performs the actions that the steps return and
//! hands back what came of them.
//!
//! - [`token`] mints and checks the signed session tokens.
//! - [`store`] is the gateway's side of the ephemeral key-value store, with
//!   what is assumed of a store that honours time-to-live.
//! - [`state`] holds the settings and secrets, and the operations on CSRF
//!   state, tokens and revocations that depend on them.
//! - [`controllers`] holds the handlers for login, callback, logout and
//!   authentication, each as a step from state and event to state and
//!   action.
//! - [`guarantees`] states what follows: a CSRF state is consumed once, a
//!   revoked token is locked out, a failing store lets nobody through.
//! - [`config`], [`logger`], [`cli`], [`redirect`], [`models`], [`error`] and
//!   [`time`] hold the settings, values and small decisions around them.

pub mod cli;
pub mod config;
pub mod controllers;
pub mod error;
pub mod guarantees;
pub mod logger;
pub mod models;
pub mod redirect;
pub mod state;
pub mod store;
pub mod time;
pub mod token;
