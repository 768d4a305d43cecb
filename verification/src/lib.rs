//! BelizeChain governance: proposals, voting, councils, elections,
//! referendums, treasury and emergency powers, as a verified state machine.
use vstd::prelude::*;

pub mod arith;
pub mod board;
pub mod call_data;
pub mod config;
pub mod delegation;
pub mod departments;
pub mod elections;
pub mod emergency;
pub mod events;
pub mod getters;
pub mod execution;
pub mod hashing;
pub mod laws;
pub mod params;
pub mod proposals;
pub mod providers;
pub mod referendum;
pub mod state;
pub mod storage_order;
pub mod treasury;
pub mod types;
pub mod vec_map;
pub mod weights;

verus! {

} // verus!
