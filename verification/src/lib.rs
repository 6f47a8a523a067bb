//! Governance and treasury core of a member-owned organization.
//!
//! Members hold "energy" (voting weight), admit new members through access
//! proposals, and release treasury funds across milestones through project
//! proposals. All state lives in one explicit [`dao::Module`] aggregate; the
//! host passes the current moment into every time-dependent call, so a
//! replay from the same initial state and the same calls gives the same
//! result.

pub mod dao;
pub mod errors;
pub mod laws;
pub mod ledger;
pub mod proposal;
pub mod roster;
