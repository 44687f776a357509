//! A membership-weighted governance engine.
//!
//! Members hold integer voting power, submit proposals, and vote within a
//! time window; a proposal that meets quorum and majority becomes eligible
//! for execution after a mandatory delay. The whole state machine is held
//! in [`contract::DAOGovernanceContract`]; the surrounding host supplies
//! authentication, the clock, and persistence.

pub mod errors;
pub mod types;
pub mod model;
pub mod contract;
pub mod laws;
