//! A proposal-gated store of quantum seeds and processed values.
//!
//! Every action is first described as a call that a governance service must
//! approve. Each proposal owns two append-only histories, one of seeds and one
//! of processed values.

pub mod types;
pub mod dispatch;
pub mod table;
pub mod store;
pub mod state;
pub mod laws;
