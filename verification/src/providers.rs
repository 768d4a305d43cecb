//! What the runtime answers the pallet: compliance, behavior flags and
//! dual-house membership. The pallet's calls take these answers as
//! arguments.
use vstd::prelude::*;

verus! {

/// Compliance checking.
pub trait ComplianceCheck<AccountId> {
    /// Whether the account may take part in governance.
    fn can_participate_in_governance(account: &AccountId) -> bool;

    /// The number of accounts eligible to vote; one by default, so that
    /// quorums never divide by zero.
    fn eligible_voter_count() -> (n: u32)
        default_ensures
            n == 1,
    {
        1
    }
}

/// Behavior flags raised against accounts.
pub trait BehaviorFlagProvider<AccountId, BlockNumber> {
    /// Whether the account has an active, unexpired behavior flag.
    fn has_active_flag(account: &AccountId) -> bool;

    /// The block at which the account's behavior cooldown ends, if any.
    fn cooldown_end(account: &AccountId) -> Option<BlockNumber>;
}

/// Membership of the two houses that ratify constitutional proposals.
pub trait DualHouseProvider<AccountId> {
    /// Whether the account sits in the technical house.
    fn is_technical_house_member(account: &AccountId) -> bool;

    /// Whether the account sits in the governance house.
    fn is_governance_house_member(account: &AccountId) -> bool;
}

} // verus!
