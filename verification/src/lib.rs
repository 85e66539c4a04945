//! Provisioning of child execution units on behalf of callers.
//!
//! An orchestrator creates a unit with a budget, fetches code for it,
//! installs the code, hands the unit its initial application state, and then
//! enters it in its registry. Every one of these is a remote call that may
//! be rejected, and between any two of them other requests may be served.
//! This library holds the rules of that protocol and proves them; it makes
//! no remote call itself. Whoever embeds it sends what the library asks for
//! and hands the answers back.
//!
//! - [`identity`]: identities of units and callers, and where calls go.
//! - [`rejection`], [`error`]: what remote parties answer when they refuse,
//!   and how a failure is worded for the caller.
//! - [`settings`]: the configuration of a unit and its canonical form.
//! - [`creation`], [`fetch`], [`install`]: the single remote operations.
//! - [`signup`], [`signup_laws`]: the four-stage flow and what holds of it.
//! - [`registry`]: the units that were provisioned in full.
//! - [`lookup`], [`app_state`]: the record a unit keeps, and asking for it.
//! - [`balance`], [`chart`], [`greeting`]: the orchestrator's own budget and
//!   its small talk.

pub mod identity;
pub mod rejection;
pub mod error;
pub mod settings;
pub mod creation;
pub mod fetch;
pub mod install;
pub mod signup;
pub mod signup_laws;
pub mod registry;
pub mod app_state;
pub mod lookup;
pub mod balance;
pub mod chart;
pub mod greeting;
