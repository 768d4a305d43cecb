//! The runtime's constants for the governance pallet.
use vstd::prelude::*;

use crate::types::{Balance, BlockNumber};

verus! {

/// Constants the runtime configures the pallet with.
#[derive(Clone, Copy, Debug, PartialEq, Eq, Structural)]
pub struct Config {
    /// Deposit reserved from a proposer.
    pub minimum_deposit: Balance,
    /// Length of a proposal's voting period.
    pub voting_period: BlockNumber,
    /// Delay between submission and the start of voting.
    pub launch_period: BlockNumber,
    /// Bound on candidates per election, and on council walks.
    pub max_candidates_per_election: u32,
    /// Consecutive terms a member may serve before a break.
    pub max_consecutive_terms: u8,
    /// Advisory bound on permanent-role term extensions.
    pub max_permanent_term_extensions: u8,
    /// Blocks between two non-emergency submissions of one account.
    pub proposal_cooldown: BlockNumber,
    pub enactment_period_constitutional: BlockNumber,
    pub enactment_period_economic: BlockNumber,
    pub enactment_period_standard: BlockNumber,
    /// Whether stake units are square-rooted before they weigh a vote.
    pub quadratic_voting_enabled: bool,
    /// Ceiling on stake-derived voting units.
    pub max_voting_units: u32,
    /// Balance per raw stake unit.
    pub stake_unit_size: Balance,
    /// Free balance from which an account is a large holder.
    pub large_holder_stake_threshold: Balance,
    /// Minimum quarterly participation rate of large holders, in percent.
    pub large_holder_min_participation_rate: u8,
    /// Blocks for which an exit proof stays valid.
    pub exit_proof_validity: BlockNumber,
    /// Blocks a declared emergency waits in its veto window.
    pub emergency_veto_window: BlockNumber,
    pub runtime_upgrade_min_timelock: BlockNumber,
    pub parameter_change_min_timelock: BlockNumber,
    /// Cap on treasury spending per period.
    pub max_treasury_spend_per_period: Balance,
    /// Length of a treasury spending period.
    pub treasury_spend_period: BlockNumber,
    /// Floor on referendum quorums, in percent.
    pub min_quorum_percentage: u8,
}

} // verus!
