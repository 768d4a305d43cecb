//! Treasury: district budgets, multi-approval spend proposals, the
//! per-period spend cap, participation rewards and the priority queue.
use vstd::prelude::*;

use crate::config::Config;
use crate::hashing::treasury_account_id;
use crate::events::{Error, Event, Origin};
use crate::proposals::{block_as_u32, sat_add_u64, signer_of};
use crate::state::{GovView, Pallet};
use crate::storage_order::{
    first_proposals_in_storage_order, lemma_in_key_order, lemma_proposal_encoding_injective, proposal_encoding,
    proposal_ids_of, proposals_in_storage_order,
};
use crate::types::{
    district_index_of, district_of, AccountId, Balance, BelizeDistrict, BlockNumber, DistrictBudget,
    ProposalPriority, TreasurySpendProposal, BLOCKS_PER_YEAR,
};
use crate::vec_map::map_get_or;

verus! {

/// Blocks a treasury spend proposal stays open (30 days).
pub const TREASURY_PROPOSAL_LIFETIME: u64 = 432_000;

/// Approvals a treasury spend proposal can hold.
pub const MAX_TREASURY_APPROVALS: usize = 7;

/// Proposals a district budget can fund in one fiscal year.
pub const MAX_FUNDED_PER_BUDGET: usize = 100;

/// Proposals a priority queue can hold.
pub const MAX_PRIORITY_QUEUE: usize = 50;

/// Proposals and proposal ids looked at when a reward is claimed.
pub const REWARD_SCAN_LIMIT: u32 = 50;

/// Blocks between two council rewards: thirty days of six-second blocks.
pub const COUNCIL_REWARD_PERIOD: u64 = 432_000;

pub const VOTE_REWARD: Balance = 10_000_000_000_000;

pub const PROPOSAL_REWARD: Balance = 100_000_000_000_000;

pub const COUNCIL_REWARD: Balance = 500_000_000_000_000;

/// Funding of 100 million DALLA for the governance treasury.
pub const TREASURY_FUNDING: Balance = 100_000_000_000_000_000;

/// The governance treasury's account with the funding it is given to pay
/// rewards from.
pub fn fund_governance_treasury() -> (f: (AccountId, Balance))
    ensures
        f == (treasury_account_id(), TREASURY_FUNDING),
{
    (Pallet::account_id(), TREASURY_FUNDING)
}

pub open spec fn sat_add_u128(a: u128, b: u128) -> u128 {
    if a + b > u128::MAX {
        u128::MAX
    } else {
        (a + b) as u128
    }
}

pub open spec fn sat_sub_u128(a: u128, b: u128) -> u128 {
    if a < b {
        0
    } else {
        (a - b) as u128
    }
}

// ---------------------------------------------------------------------------
// District budgets
// ---------------------------------------------------------------------------

pub open spec fn allocate_budget_error(
    s: GovView,
    origin: Origin,
    district_index: u8,
    fiscal_year_blocks: u32,
) -> Option<Error> {
    if origin != Origin::Root {
        Some(Error::BadOrigin)
    } else if district_of(district_index) is None {
        Some(Error::InvalidDistrict)
    } else if fiscal_year_blocks == 0 {
        Some(Error::InvalidFiscalYearPeriod)
    } else if s.district_budgets.contains_key(district_of(district_index).unwrap())
        && s.district_budgets[district_of(district_index).unwrap()].is_active {
        Some(Error::DistrictBudgetAlreadyExists)
    } else {
        None
    }
}

/// A fresh, active budget; `funded` is its (empty) list of funded proposals.
pub open spec fn fresh_budget(
    district: BelizeDistrict,
    allocated: Balance,
    start: BlockNumber,
    end: BlockNumber,
    funded: Vec<u32>,
) -> DistrictBudget {
    DistrictBudget {
        district,
        allocated,
        spent: 0,
        proposals_funded: funded,
        fiscal_year_start: start,
        fiscal_year_end: end,
        is_active: true,
    }
}

pub open spec fn allocate_budget_post(
    s: GovView,
    now: BlockNumber,
    district_index: u8,
    amount: Balance,
    fiscal_year_blocks: u32,
    funded: Vec<u32>,
) -> GovView {
    let d = district_of(district_index).unwrap();
    let end = (now + fiscal_year_blocks) as u64;
    GovView {
        district_budgets: s.district_budgets.insert(d, fresh_budget(d, amount, now, end, funded)),
        events: s.events.push(
            Event::DistrictBudgetAllocated {
                district_index,
                amount,
                fiscal_year_start: now,
                fiscal_year_end: end,
            },
        ),
        ..s
    }
}

pub open spec fn transfer_budget_error(
    s: GovView,
    origin: Origin,
    from_index: u8,
    to_index: u8,
    amount: Balance,
    reason_len: nat,
) -> Option<Error> {
    let from = district_of(from_index).unwrap();
    let fb = s.district_budgets[from];
    if origin != Origin::Root {
        Some(Error::BadOrigin)
    } else if from_index == to_index {
        Some(Error::InvalidDistrict)
    } else if district_of(from_index) is None || district_of(to_index) is None {
        Some(Error::InvalidDistrict)
    } else if reason_len > 256 {
        Some(Error::DescriptionTooLong)
    } else if !s.district_budgets.contains_key(from) {
        Some(Error::DistrictBudgetNotFound)
    } else if sat_sub_u128(fb.allocated, fb.spent) < amount {
        Some(Error::TransferExceedsSourceBudget)
    } else {
        None
    }
}

/// The destination budget before a transfer: the stored one, or a fresh
/// one-year budget holding `funded`.
pub open spec fn destination_budget(
    s: GovView,
    now: BlockNumber,
    to: BelizeDistrict,
    funded: Vec<u32>,
) -> DistrictBudget {
    if s.district_budgets.contains_key(to) {
        s.district_budgets[to]
    } else {
        fresh_budget(to, 0, now, (now + BLOCKS_PER_YEAR) as u64, funded)
    }
}

pub open spec fn transfer_budget_post(
    s: GovView,
    now: BlockNumber,
    from_index: u8,
    to_index: u8,
    amount: Balance,
    reason: Vec<u8>,
    funded: Vec<u32>,
) -> GovView {
    let from = district_of(from_index).unwrap();
    let to = district_of(to_index).unwrap();
    let fb = s.district_budgets[from];
    let tb = destination_budget(s, now, to, funded);
    GovView {
        district_budgets: s.district_budgets.insert(
            from,
            DistrictBudget { allocated: sat_sub_u128(fb.allocated, amount), ..fb },
        ).insert(to, DistrictBudget { allocated: sat_add_u128(tb.allocated, amount), ..tb }),
        events: s.events.push(
            Event::DistrictBudgetTransferred {
                from_district_index: from_index,
                to_district_index: to_index,
                amount,
                reason,
            },
        ),
        ..s
    }
}

// ---------------------------------------------------------------------------
// Treasury spend proposals
// ---------------------------------------------------------------------------

/// Approvals a spend of `amount` needs: one below 10,000 DALLA, three from
/// 10,000 to 100,000 DALLA, four above 100,000 DALLA.
pub open spec fn spend_threshold(amount: Balance) -> u8 {
    if amount < 10_000_000_000_000 {
        1
    } else if amount <= 100_000_000_000_000 {
        3
    } else {
        4
    }
}

/// Why `propose_treasury_spend` refuses, checked in order: only council
/// members (the FSC representative among them) may propose a spend.
pub open spec fn propose_spend_error(
    s: GovView,
    origin: Origin,
    compliant: bool,
    description_len: nat,
    district_index: Option<u8>,
) -> Option<Error> {
    if signer_of(origin) is None {
        Some(Error::BadOrigin)
    } else if !s.council_members.contains_key(signer_of(origin).unwrap()) {
        Some(Error::NotCouncilMember)
    } else if !compliant {
        Some(Error::NotCompliant)
    } else if description_len > 512 {
        Some(Error::TreasuryDescriptionTooLong)
    } else if district_index is Some && district_of(district_index.unwrap()) is None {
        Some(Error::InvalidDistrict)
    } else {
        None
    }
}

pub open spec fn propose_spend_post(
    s: GovView,
    now: BlockNumber,
    proposer: AccountId,
    recipient: AccountId,
    amount: Balance,
    description: Vec<u8>,
    district_index: Option<u8>,
    approvals: Vec<AccountId>,
) -> GovView {
    let id = s.next_treasury_proposal_id;
    let district = match district_index {
        Some(i) => district_of(i),
        None => None,
    };
    GovView {
        treasury_spend_proposals: s.treasury_spend_proposals.insert(
            id,
            TreasurySpendProposal {
                id,
                proposer,
                recipient,
                amount,
                description,
                district,
                approvals,
                threshold: spend_threshold(amount),
                created_at: now,
                expires_at: (now + TREASURY_PROPOSAL_LIFETIME) as u64,
                executed: false,
            },
        ),
        next_treasury_proposal_id: (id + 1) as u32,
        events: s.events.push(
            Event::TreasurySpendProposed {
                proposal_id: id,
                proposer,
                recipient,
                amount,
                threshold: spend_threshold(amount),
            },
        ),
        ..s
    }
}

pub open spec fn approve_spend_error(s: GovView, now: BlockNumber, origin: Origin, proposal_id: u32) -> Option<
    Error,
> {
    let who = signer_of(origin).unwrap();
    let p = s.treasury_spend_proposals[proposal_id];
    if signer_of(origin) is None {
        Some(Error::BadOrigin)
    } else if !s.council_members.contains_key(who) {
        Some(Error::NotCouncilMember)
    } else if !s.treasury_spend_proposals.contains_key(proposal_id) {
        Some(Error::TreasuryProposalNotFound)
    } else if p.executed {
        Some(Error::TreasuryProposalAlreadyExecuted)
    } else if now > p.expires_at {
        Some(Error::TreasuryProposalExpired)
    } else if p.approvals@.contains(who) {
        Some(Error::AlreadyApprovedTreasuryProposal)
    } else if p.approvals@.len() >= MAX_TREASURY_APPROVALS {
        Some(Error::TooManyApprovals)
    } else {
        None
    }
}

pub open spec fn approve_spend_post(s: GovView, who: AccountId, proposal_id: u32, approvals: Vec<AccountId>) -> GovView {
    let p = s.treasury_spend_proposals[proposal_id];
    GovView {
        treasury_spend_proposals: s.treasury_spend_proposals.insert(
            proposal_id,
            TreasurySpendProposal { approvals, ..p },
        ),
        events: s.events.push(
            Event::TreasurySpendApproved {
                proposal_id,
                approver: who,
                approvals_count: approvals@.len() as u8,
                threshold: p.threshold,
            },
        ),
        ..s
    }
}

// ---------------------------------------------------------------------------
// Spending from the treasury account, under the per-period cap
// ---------------------------------------------------------------------------

/// The spend period that block `now` falls in.
pub open spec fn spend_period(cfg: Config, now: BlockNumber) -> u32 {
    let len = block_as_u32(cfg.treasury_spend_period);
    if len > 0 {
        (block_as_u32(now) / len) as u32
    } else {
        0
    }
}

/// What has been spent in the current period, before this spend.
pub open spec fn spent_this_period(s: GovView, cfg: Config, now: BlockNumber) -> Balance {
    if s.treasury_spend_tracker.0 == spend_period(cfg, now) {
        s.treasury_spend_tracker.1
    } else {
        0
    }
}

/// Why spending `amount` from the treasury account fails, given its free
/// balance and whether the currency transfer goes through.
pub open spec fn spend_error(
    s: GovView,
    cfg: Config,
    now: BlockNumber,
    amount: Balance,
    treasury_balance: Balance,
    transfer_ok: bool,
) -> Option<Error> {
    if sat_add_u128(spent_this_period(s, cfg, now), amount) > cfg.max_treasury_spend_per_period {
        Some(Error::TreasurySpendCapExceeded)
    } else if treasury_balance < amount {
        Some(Error::InsufficientTreasuryBalance)
    } else if !transfer_ok {
        Some(Error::CurrencyFailure)
    } else {
        None
    }
}

pub open spec fn spend_post(
    s: GovView,
    cfg: Config,
    now: BlockNumber,
    recipient: AccountId,
    amount: Balance,
    proposal_id: u32,
) -> GovView {
    GovView {
        treasury_spend_tracker: (
            spend_period(cfg, now),
            sat_add_u128(spent_this_period(s, cfg, now), amount),
        ),
        events: s.events.push(
            Event::TreasurySpendExecuted { proposal_id, recipient, amount, district_index: None },
        ),
        ..s
    }
}

pub open spec fn execute_spend_proposal_error(
    s: GovView,
    cfg: Config,
    now: BlockNumber,
    origin: Origin,
    proposal_id: u32,
    treasury_balance: Balance,
    transfer_ok: bool,
) -> Option<Error> {
    let p = s.treasury_spend_proposals[proposal_id];
    if signer_of(origin) is None {
        Some(Error::BadOrigin)
    } else if !s.treasury_spend_proposals.contains_key(proposal_id) {
        Some(Error::TreasuryProposalNotFound)
    } else if p.executed {
        Some(Error::TreasuryProposalAlreadyExecuted)
    } else if now > p.expires_at {
        Some(Error::TreasuryProposalExpired)
    } else if (p.approvals@.len() as u8) < p.threshold {
        Some(Error::InsufficientTreasuryApprovals)
    } else {
        match p.district {
            Some(d) => {
                let b = s.district_budgets[d];
                if !s.district_budgets.contains_key(d) {
                    Some(Error::DistrictBudgetNotFound)
                } else if b.allocated < b.spent + p.amount {
                    Some(Error::InsufficientDistrictBudget)
                } else if b.proposals_funded@.len() >= MAX_FUNDED_PER_BUDGET {
                    Some(Error::TooManyProposals)
                } else {
                    spend_error(s, cfg, now, p.amount, treasury_balance, transfer_ok)
                }
            },
            None => {
                if s.national_treasury_reserve < p.amount {
                    Some(Error::InsufficientNationalTreasury)
                } else {
                    spend_error(s, cfg, now, p.amount, treasury_balance, transfer_ok)
                }
            },
        }
    }
}

/// The state after the proposal's money leaves its source: the district
/// budget (whose funded list becomes `funded`) or the national reserve.
pub open spec fn charge_source(s: GovView, proposal_id: u32, funded: Vec<u32>) -> GovView {
    let p = s.treasury_spend_proposals[proposal_id];
    match p.district {
        Some(d) => {
            let b = s.district_budgets[d];
            let spent = (b.spent + p.amount) as u128;
            GovView {
                district_budgets: s.district_budgets.insert(
                    d,
                    DistrictBudget { spent, proposals_funded: funded, ..b },
                ),
                events: s.events.push(
                    Event::DistrictBudgetSpent {
                        district_index: district_index_of(d),
                        proposal_id,
                        amount: p.amount,
                        remaining: (b.allocated - spent) as u128,
                    },
                ),
                ..s
            }
        },
        None => GovView { national_treasury_reserve: (s.national_treasury_reserve - p.amount) as u128, ..s },
    }
}

pub open spec fn execute_spend_proposal_post(
    s: GovView,
    cfg: Config,
    now: BlockNumber,
    proposal_id: u32,
    funded: Vec<u32>,
) -> GovView {
    let p = s.treasury_spend_proposals[proposal_id];
    let s1 = spend_post(charge_source(s, proposal_id, funded), cfg, now, p.recipient, p.amount, proposal_id);
    GovView {
        treasury_spend_proposals: s1.treasury_spend_proposals.insert(
            proposal_id,
            TreasurySpendProposal { executed: true, ..p },
        ),
        events: s1.events.push(
            Event::TreasurySpendExecuted {
                proposal_id,
                recipient: p.recipient,
                amount: p.amount,
                district_index: match p.district {
                    Some(d) => Some(district_index_of(d)),
                    None => None,
                },
            },
        ),
        ..s1
    }
}

/// The funded list of a district-financed proposal grows by the proposal.
pub open spec fn funded_after(s: GovView, proposal_id: u32, funded: Vec<u32>) -> bool {
    let p = s.treasury_spend_proposals[proposal_id];
    p.district is Some ==> funded@ == s.district_budgets[p.district.unwrap()].proposals_funded@.push(proposal_id)
}

// ---------------------------------------------------------------------------
// Participation rewards
// ---------------------------------------------------------------------------

/// Whether `who` voted on one of the first proposal ids (up to 50).
pub open spec fn voted_recently(s: GovView, who: AccountId) -> bool {
    exists|pid: u32|
        pid < s.next_proposal_id && pid < REWARD_SCAN_LIMIT && #[trigger] s.votes.contains_key((pid, who))
}

/// Whether `who` authored one of the first stored proposals (up to 50),
/// `order` being the order in which proposals are stored.
pub open spec fn authored_recently(s: GovView, order: Seq<u32>, who: AccountId) -> bool {
    exists|i: int|
        0 <= i < order.len() && i < REWARD_SCAN_LIMIT && (#[trigger] s.proposals[order[i]]).proposer == who
}

/// The reward of each type: votes, proposals, council service.
pub open spec fn reward_amount(reward_type: u8) -> Balance {
    if reward_type == 0 {
        VOTE_REWARD
    } else if reward_type == 1 {
        PROPOSAL_REWARD
    } else {
        COUNCIL_REWARD
    }
}

/// Whether `who` has claimed reward type `reward_type` so that it cannot
/// claim it at `now`: vote and proposal rewards once, the council reward
/// once per month.
pub open spec fn reward_claimed(s: GovView, now: BlockNumber, who: AccountId, reward_type: u8) -> bool {
    if reward_type == 2 {
        s.council_reward_claimed_at.contains_key(who) && now < sat_add_u64(
            s.council_reward_claimed_at[who],
            COUNCIL_REWARD_PERIOD,
        )
    } else {
        map_get_or(s.rewards_claimed, (who, reward_type), 0u128) != 0
    }
}

pub open spec fn claim_reward_error(
    s: GovView,
    order: Seq<u32>,
    now: BlockNumber,
    origin: Origin,
    reward_type: u8,
    treasury_balance: Balance,
    transfer_ok: bool,
) -> Option<Error> {
    let who = signer_of(origin).unwrap();
    if signer_of(origin) is None {
        Some(Error::BadOrigin)
    } else if reward_type > 2 {
        Some(Error::InvalidPriority)
    } else if reward_type == 0 && !voted_recently(s, who) {
        Some(Error::NoRewardAvailable)
    } else if reward_type == 1 && !authored_recently(s, order, who) {
        Some(Error::NoRewardAvailable)
    } else if reward_type == 2 && !s.council_members.contains_key(who) {
        Some(Error::NoRewardAvailable)
    } else if reward_claimed(s, now, who, reward_type) {
        Some(Error::RewardAlreadyClaimed)
    } else if treasury_balance < reward_amount(reward_type) {
        Some(Error::InsufficientTreasuryForRewards)
    } else if !transfer_ok {
        Some(Error::CurrencyFailure)
    } else {
        None
    }
}

pub open spec fn claim_reward_post(s: GovView, now: BlockNumber, who: AccountId, reward_type: u8) -> GovView {
    let amount = reward_amount(reward_type);
    GovView {
        rewards_claimed: s.rewards_claimed.insert(
            (who, reward_type),
            sat_add_u128(map_get_or(s.rewards_claimed, (who, reward_type), 0u128), amount),
        ),
        council_reward_claimed_at: if reward_type == 2 {
            s.council_reward_claimed_at.insert(who, now)
        } else {
            s.council_reward_claimed_at
        },
        total_rewards_distributed: sat_add_u128(s.total_rewards_distributed, amount),
        events: s.events.push(Event::RewardClaimed { account: who, reward_type, amount }),
        ..s
    }
}

/// Rewards an account has claimed, over the three reward types, saturating.
pub open spec fn rewards_claimed_by(s: GovView, account: AccountId) -> Balance {
    sat_add_u128(
        sat_add_u128(
            map_get_or(s.rewards_claimed, (account, 0u8), 0u128),
            map_get_or(s.rewards_claimed, (account, 1u8), 0u128),
        ),
        map_get_or(s.rewards_claimed, (account, 2u8), 0u128),
    )
}

// ---------------------------------------------------------------------------
// Priority queue
// ---------------------------------------------------------------------------

/// The priority with value `v` (1 to 4).
pub open spec fn priority_of_value(v: u8) -> ProposalPriority {
    if v == 1 {
        ProposalPriority::Low
    } else if v == 2 {
        ProposalPriority::Normal
    } else if v == 3 {
        ProposalPriority::High
    } else {
        ProposalPriority::Critical
    }
}

/// A priority queue's entries; empty where none is stored.
pub open spec fn queue_of(s: GovView, p: ProposalPriority) -> Seq<u32> {
    if s.proposal_queue.contains_key(p) {
        s.proposal_queue[p]@
    } else {
        Seq::empty()
    }
}

pub open spec fn set_priority_error(s: GovView, origin: Origin, proposal_id: u32, priority: u8) -> Option<Error> {
    if origin != Origin::Root {
        Some(Error::BadOrigin)
    } else if !(1 <= priority && priority <= 4) {
        Some(Error::InvalidPriority)
    } else if !s.proposals.contains_key(proposal_id) {
        Some(Error::ProposalNotFound)
    } else if queue_of(s, priority_of_value(priority)).len() >= MAX_PRIORITY_QUEUE {
        Some(Error::PriorityQueueFull)
    } else {
        None
    }
}

/// The state after queueing: the queue (then `queue`) gains the proposal
/// unless it holds it already.
pub open spec fn set_priority_post(s: GovView, proposal_id: u32, priority: u8, queue: Vec<u32>) -> GovView {
    let p = priority_of_value(priority);
    GovView {
        proposal_queue: if queue_of(s, p).contains(proposal_id) {
            s.proposal_queue
        } else {
            s.proposal_queue.insert(p, queue)
        },
        events: s.events.push(Event::ProposalQueuedWithPriority { proposal_id, priority_index: priority }),
        ..s
    }
}

impl Pallet {
    /// Allocates a district's budget for a fiscal year of
    /// `fiscal_year_blocks` from now (root only); an active budget cannot be
    /// replaced.
    pub fn allocate_district_budget(
        &mut self,
        now: BlockNumber,
        origin: Origin,
        district_index: u8,
        amount: Balance,
        fiscal_year_blocks: u32,
    ) -> (r: Result<(), Error>)
        requires
            now + fiscal_year_blocks <= u64::MAX,
        ensures
            r == (match allocate_budget_error(old(self)@, origin, district_index, fiscal_year_blocks) {
                Some(e) => Err(e),
                None => Ok(()),
            }),
            r is Err ==> final(self)@ == old(self)@,
            r is Ok ==> ({
                let funded = final(self)@.district_budgets[district_of(district_index).unwrap()].proposals_funded;
                &&& funded@.len() == 0
                &&& final(self)@ == allocate_budget_post(
                    old(self)@,
                    now,
                    district_index,
                    amount,
                    fiscal_year_blocks,
                    funded,
                )
            }),
    {
        if origin != Origin::Root {
            return Err(Error::BadOrigin);
        }
        let district = match BelizeDistrict::from_index(district_index) {
            Some(d) => d,
            None => return Err(Error::InvalidDistrict),
        };
        if fiscal_year_blocks == 0 {
            return Err(Error::InvalidFiscalYearPeriod);
        }
        let fiscal_year_end = now + fiscal_year_blocks as u64;
        match self.district_budgets.get(&district) {
            Some(existing) => {
                if existing.is_active {
                    return Err(Error::DistrictBudgetAlreadyExists);
                }
            },
            None => {},
        }
        let ghost s0 = self@;
        let funded: Vec<u32> = Vec::new();
        let ghost funded_g = funded;
        self.district_budgets.insert(
            district,
            DistrictBudget {
                district,
                allocated: amount,
                spent: 0,
                proposals_funded: funded,
                fiscal_year_start: now,
                fiscal_year_end,
                is_active: true,
            },
        );
        self.events.push(
            Event::DistrictBudgetAllocated {
                district_index,
                amount,
                fiscal_year_start: now,
                fiscal_year_end,
            },
        );
        proof {
            assert(self@ =~= allocate_budget_post(s0, now, district_index, amount, fiscal_year_blocks, funded_g));
        }
        Ok(())
    }

    /// Moves unspent budget from one district to another (root only); the
    /// destination gets a one-year budget where it has none.
    pub fn transfer_district_budget(
        &mut self,
        now: BlockNumber,
        origin: Origin,
        from_district_index: u8,
        to_district_index: u8,
        amount: Balance,
        reason: Vec<u8>,
    ) -> (r: Result<(), Error>)
        requires
            district_of(to_district_index) is Some && !old(self)@.district_budgets.contains_key(
                district_of(to_district_index).unwrap(),
            ) ==> now + BLOCKS_PER_YEAR <= u64::MAX,
        ensures
            r == (match transfer_budget_error(
                old(self)@,
                origin,
                from_district_index,
                to_district_index,
                amount,
                reason@.len(),
            ) {
                Some(e) => Err(e),
                None => Ok(()),
            }),
            r is Err ==> final(self)@ == old(self)@,
            r is Ok ==> ({
                let to = district_of(to_district_index).unwrap();
                let funded = final(self)@.district_budgets[to].proposals_funded;
                &&& !old(self)@.district_budgets.contains_key(to) ==> funded@.len() == 0
                &&& final(self)@ == transfer_budget_post(
                    old(self)@,
                    now,
                    from_district_index,
                    to_district_index,
                    amount,
                    reason,
                    funded,
                )
            }),
    {
        if origin != Origin::Root {
            return Err(Error::BadOrigin);
        }
        if from_district_index == to_district_index {
            return Err(Error::InvalidDistrict);
        }
        let from = match BelizeDistrict::from_index(from_district_index) {
            Some(d) => d,
            None => return Err(Error::InvalidDistrict),
        };
        let to = match BelizeDistrict::from_index(to_district_index) {
            Some(d) => d,
            None => return Err(Error::InvalidDistrict),
        };
        if reason.len() > 256 {
            return Err(Error::DescriptionTooLong);
        }
        match self.district_budgets.get(&from) {
            Some(fb) => {
                if fb.allocated.saturating_sub(fb.spent) < amount {
                    return Err(Error::TransferExceedsSourceBudget);
                }
            },
            None => return Err(Error::DistrictBudgetNotFound),
        }
        let ghost s0 = self@;
        let ghost reason_g = reason;
        proof {
            assert(from != to);
        }
        match self.district_budgets.take(&from) {
            Some((pos, fb)) => {
                let nb = DistrictBudget { allocated: fb.allocated.saturating_sub(amount), ..fb };
                self.district_budgets.restore(pos, from, nb);
            },
            None => {},
        }
        let ghost funded_g: Vec<u32>;
        match self.district_budgets.take(&to) {
            Some((pos, tb)) => {
                proof {
                    funded_g = tb.proposals_funded;
                }
                let nb = DistrictBudget { allocated: tb.allocated.saturating_add(amount), ..tb };
                self.district_budgets.restore(pos, to, nb);
            },
            None => {
                let funded: Vec<u32> = Vec::new();
                proof {
                    funded_g = funded;
                }
                self.district_budgets.insert(
                    to,
                    DistrictBudget {
                        district: to,
                        allocated: amount,
                        spent: 0,
                        proposals_funded: funded,
                        fiscal_year_start: now,
                        fiscal_year_end: now + BLOCKS_PER_YEAR as u64,
                        is_active: true,
                    },
                );
            },
        }
        self.events.push(
            Event::DistrictBudgetTransferred {
                from_district_index,
                to_district_index,
                amount,
                reason,
            },
        );
        proof {
            assert(self@ =~= transfer_budget_post(
                s0,
                now,
                from_district_index,
                to_district_index,
                amount,
                reason_g,
                funded_g,
            ));
        }
        Ok(())
    }

    /// Proposes a treasury spend; it needs one, three or four council
    /// approvals by amount and expires after 30 days. `compliant` is the
    /// compliance provider's answer for the signer.
    pub fn propose_treasury_spend(
        &mut self,
        now: BlockNumber,
        origin: Origin,
        compliant: bool,
        recipient: AccountId,
        amount: Balance,
        description: Vec<u8>,
        district_index: Option<u8>,
    ) -> (r: Result<(), Error>)
        requires
            now + TREASURY_PROPOSAL_LIFETIME <= u64::MAX,
            old(self)@.next_treasury_proposal_id < u32::MAX,
        ensures
            r == (match propose_spend_error(old(self)@, origin, compliant, description@.len(), district_index) {
                Some(e) => Err(e),
                None => Ok(()),
            }),
            r is Err ==> final(self)@ == old(self)@,
            r is Ok ==> ({
                let id = old(self)@.next_treasury_proposal_id;
                let ap = final(self)@.treasury_spend_proposals[id].approvals;
                &&& ap@.len() == 0
                &&& final(self)@ == propose_spend_post(
                    old(self)@,
                    now,
                    signer_of(origin).unwrap(),
                    recipient,
                    amount,
                    description,
                    district_index,
                    ap,
                )
            }),
    {
        let proposer = match origin {
            Origin::Signed(w) => w,
            _ => return Err(Error::BadOrigin),
        };
        if !self.council_members.contains_key(&proposer) {
            return Err(Error::NotCouncilMember);
        }
        if !compliant {
            return Err(Error::NotCompliant);
        }
        if description.len() > 512 {
            return Err(Error::TreasuryDescriptionTooLong);
        }
        let district = match district_index {
            Some(idx) => match BelizeDistrict::from_index(idx) {
                Some(d) => Some(d),
                None => return Err(Error::InvalidDistrict),
            },
            None => None,
        };
        let threshold: u8 = if amount < 10_000_000_000_000 {
            1
        } else if amount <= 100_000_000_000_000 {
            3
        } else {
            4
        };
        let ghost s0 = self@;
        let ghost desc_g = description;
        let expires_at = now + TREASURY_PROPOSAL_LIFETIME;
        let id = self.next_treasury_proposal_id;
        let approvals: Vec<AccountId> = Vec::new();
        let ghost ap_g = approvals;
        self.treasury_spend_proposals.insert(
            id,
            TreasurySpendProposal {
                id,
                proposer,
                recipient,
                amount,
                description,
                district,
                approvals,
                threshold,
                created_at: now,
                expires_at,
                executed: false,
            },
        );
        self.next_treasury_proposal_id = id + 1;
        self.events.push(Event::TreasurySpendProposed { proposal_id: id, proposer, recipient, amount, threshold });
        proof {
            assert(self@ =~= propose_spend_post(
                s0,
                now,
                proposer,
                recipient,
                amount,
                desc_g,
                district_index,
                ap_g,
            ));
        }
        Ok(())
    }

    /// A council member's approval of an open treasury spend proposal.
    pub fn approve_treasury_spend(&mut self, now: BlockNumber, origin: Origin, proposal_id: u32) -> (r: Result<
        (),
        Error,
    >)
        ensures
            r == (match approve_spend_error(old(self)@, now, origin, proposal_id) {
                Some(e) => Err(e),
                None => Ok(()),
            }),
            r is Err ==> final(self)@ == old(self)@,
            r is Ok ==> ({
                let who = signer_of(origin).unwrap();
                let ap = final(self)@.treasury_spend_proposals[proposal_id].approvals;
                &&& ap@ == old(self)@.treasury_spend_proposals[proposal_id].approvals@.push(who)
                &&& final(self)@ == approve_spend_post(old(self)@, who, proposal_id, ap)
            }),
    {
        let who = match origin {
            Origin::Signed(w) => w,
            _ => return Err(Error::BadOrigin),
        };
        if !self.council_members.contains_key(&who) {
            return Err(Error::NotCouncilMember);
        }
        match self.treasury_spend_proposals.get(&proposal_id) {
            Some(p) => {
                if p.executed {
                    return Err(Error::TreasuryProposalAlreadyExecuted);
                }
                if now > p.expires_at {
                    return Err(Error::TreasuryProposalExpired);
                }
                if contains_account(&p.approvals, who) {
                    return Err(Error::AlreadyApprovedTreasuryProposal);
                }
                if p.approvals.len() >= MAX_TREASURY_APPROVALS {
                    return Err(Error::TooManyApprovals);
                }
            },
            None => return Err(Error::TreasuryProposalNotFound),
        }
        let ghost s0 = self@;
        match self.treasury_spend_proposals.take(&proposal_id) {
            Some((pos, p)) => {
                let mut p = p;
                p.approvals.push(who);
                let count = p.approvals.len() as u8;
                let threshold = p.threshold;
                let ghost ap_g = p.approvals;
                self.treasury_spend_proposals.restore(pos, proposal_id, p);
                self.events.push(
                    Event::TreasurySpendApproved { proposal_id, approver: who, approvals_count: count, threshold },
                );
                proof {
                    assert(self@ =~= approve_spend_post(s0, who, proposal_id, ap_g));
                }
                Ok(())
            },
            None => Err(Error::TreasuryProposalNotFound),
        }
    }

    /// Pays `amount` from the treasury account to `recipient` under the
    /// per-period spend cap. `treasury_balance` is the account's free
    /// balance and `transfer_ok` whether the currency transfer succeeds.
    pub fn execute_treasury_spend(
        &mut self,
        cfg: &Config,
        now: BlockNumber,
        recipient: AccountId,
        amount: Balance,
        proposal_id: u32,
        treasury_balance: Balance,
        transfer_ok: bool,
    ) -> (r: Result<(), Error>)
        ensures
            r == (match spend_error(old(self)@, *cfg, now, amount, treasury_balance, transfer_ok) {
                Some(e) => Err(e),
                None => Ok(()),
            }),
            r is Err ==> final(self)@ == old(self)@,
            r is Ok ==> final(self)@ == spend_post(old(self)@, *cfg, now, recipient, amount, proposal_id),
    {
        let period = current_spend_period(cfg, now);
        let (stored_period, already) = self.treasury_spend_tracker;
        let effective: Balance = if stored_period == period {
            already
        } else {
            0
        };
        if effective.saturating_add(amount) > cfg.max_treasury_spend_per_period {
            return Err(Error::TreasurySpendCapExceeded);
        }
        if treasury_balance < amount {
            return Err(Error::InsufficientTreasuryBalance);
        }
        if !transfer_ok {
            return Err(Error::CurrencyFailure);
        }
        let ghost s0 = self@;
        self.treasury_spend_tracker = (period, effective.saturating_add(amount));
        self.events.push(Event::TreasurySpendExecuted { proposal_id, recipient, amount, district_index: None });
        proof {
            assert(self@ =~= spend_post(s0, *cfg, now, recipient, amount, proposal_id));
        }
        Ok(())
    }

    /// Executes an approved treasury spend proposal from its district
    /// budget, or else from the national reserve, then pays it out.
    /// `treasury_balance` is the treasury account's free balance and
    /// `transfer_ok` whether the currency transfer succeeds.
    pub fn execute_treasury_proposal(
        &mut self,
        cfg: &Config,
        now: BlockNumber,
        origin: Origin,
        proposal_id: u32,
        treasury_balance: Balance,
        transfer_ok: bool,
    ) -> (r: Result<(), Error>)
        requires
            ({
                let p = old(self)@.treasury_spend_proposals[proposal_id];
                old(self)@.treasury_spend_proposals.contains_key(proposal_id) && p.district is Some
                    && old(self)@.district_budgets.contains_key(p.district.unwrap()) ==> old(
                    self,
                )@.district_budgets[p.district.unwrap()].spent + p.amount <= u128::MAX
            }),
        ensures
            r == (match execute_spend_proposal_error(
                old(self)@,
                *cfg,
                now,
                origin,
                proposal_id,
                treasury_balance,
                transfer_ok,
            ) {
                Some(e) => Err(e),
                None => Ok(()),
            }),
            r is Err ==> final(self)@ == old(self)@,
            r is Ok ==> ({
                let p = old(self)@.treasury_spend_proposals[proposal_id];
                let funded = if p.district is Some {
                    final(self)@.district_budgets[p.district.unwrap()].proposals_funded
                } else {
                    arbitrary()
                };
                &&& funded_after(old(self)@, proposal_id, funded)
                &&& final(self)@ == execute_spend_proposal_post(old(self)@, *cfg, now, proposal_id, funded)
            }),
    {
        match origin {
            Origin::Signed(_) => {},
            _ => return Err(Error::BadOrigin),
        }
        let (amount, recipient, district) = match self.treasury_spend_proposals.get(&proposal_id) {
            Some(p) => {
                if p.executed {
                    return Err(Error::TreasuryProposalAlreadyExecuted);
                }
                if now > p.expires_at {
                    return Err(Error::TreasuryProposalExpired);
                }
                if (p.approvals.len() as u8) < p.threshold {
                    return Err(Error::InsufficientTreasuryApprovals);
                }
                (p.amount, p.recipient, p.district)
            },
            None => return Err(Error::TreasuryProposalNotFound),
        };
        match district {
            Some(d) => match self.district_budgets.get(&d) {
                Some(b) => {
                    if b.allocated < b.spent + amount {
                        return Err(Error::InsufficientDistrictBudget);
                    }
                    if b.proposals_funded.len() >= MAX_FUNDED_PER_BUDGET {
                        return Err(Error::TooManyProposals);
                    }
                },
                None => return Err(Error::DistrictBudgetNotFound),
            },
            None => {
                if self.national_treasury_reserve < amount {
                    return Err(Error::InsufficientNationalTreasury);
                }
            },
        }
        // The spend's own checks come first: the call fails as a whole.
        let period = current_spend_period(cfg, now);
        let (stored_period, already) = self.treasury_spend_tracker;
        let effective: Balance = if stored_period == period {
            already
        } else {
            0
        };
        if effective.saturating_add(amount) > cfg.max_treasury_spend_per_period {
            return Err(Error::TreasurySpendCapExceeded);
        }
        if treasury_balance < amount {
            return Err(Error::InsufficientTreasuryBalance);
        }
        if !transfer_ok {
            return Err(Error::CurrencyFailure);
        }
        let ghost s0 = self@;
        let ghost funded_g: Vec<u32>;
        match district {
            Some(d) => match self.district_budgets.take(&d) {
                Some((pos, b)) => {
                    let mut b = b;
                    b.spent = b.spent + amount;
                    b.proposals_funded.push(proposal_id);
                    let remaining = b.allocated - b.spent;
                    proof {
                        funded_g = b.proposals_funded;
                    }
                    self.district_budgets.restore(pos, d, b);
                    self.events.push(
                        Event::DistrictBudgetSpent {
                            district_index: d.to_index(),
                            proposal_id,
                            amount,
                            remaining,
                        },
                    );
                },
                None => {},
            },
            None => {
                self.national_treasury_reserve = self.national_treasury_reserve - amount;
            },
        }
        let ghost s1 = self@;
        proof {
            assert(s1 =~= charge_source(s0, proposal_id, funded_g));
        }
        match self.execute_treasury_spend(cfg, now, recipient, amount, proposal_id, treasury_balance, transfer_ok) {
            Ok(()) => {},
            Err(e) => return Err(e),
        }
        match self.treasury_spend_proposals.take(&proposal_id) {
            Some((pos, p)) => {
                let np = TreasurySpendProposal { executed: true, ..p };
                self.treasury_spend_proposals.restore(pos, proposal_id, np);
            },
            None => {},
        }
        let district_index = match district {
            Some(d) => Some(d.to_index()),
            None => None,
        };
        self.events.push(Event::TreasurySpendExecuted { proposal_id, recipient, amount, district_index });
        proof {
            assert(self@ =~= execute_spend_proposal_post(s0, *cfg, now, proposal_id, funded_g));
        }
        Ok(())
    }

    /// Claims a participation reward: 0 for having voted, 1 for having
    /// proposed, 2 for council service; each type once per account.
    /// `treasury_balance` is the treasury account's free balance and
    /// `transfer_ok` whether the currency transfer succeeds.
    pub fn claim_participation_reward(
        &mut self,
        now: BlockNumber,
        origin: Origin,
        reward_type: u8,
        treasury_balance: Balance,
        transfer_ok: bool,
    ) -> (r: Result<(), Error>)
        ensures
            r == (match claim_reward_error(
                old(self)@,
                proposals_in_storage_order(old(self)@.proposals.dom()),
                now,
                origin,
                reward_type,
                treasury_balance,
                transfer_ok,
            ) {
                Some(e) => Err(e),
                None => Ok(()),
            }),
            r is Err ==> final(self)@ == old(self)@,
            r is Ok ==> final(self)@ == claim_reward_post(old(self)@, now, signer_of(origin).unwrap(), reward_type),
    {
        let who = match origin {
            Origin::Signed(w) => w,
            _ => return Err(Error::BadOrigin),
        };
        let amount: Balance = if reward_type == 0 {
            if !self.has_voted_recently(who) {
                return Err(Error::NoRewardAvailable);
            }
            VOTE_REWARD
        } else if reward_type == 1 {
            if !self.has_authored_recently(who) {
                return Err(Error::NoRewardAvailable);
            }
            PROPOSAL_REWARD
        } else if reward_type == 2 {
            if !self.council_members.contains_key(&who) {
                return Err(Error::NoRewardAvailable);
            }
            COUNCIL_REWARD
        } else {
            return Err(Error::InvalidPriority);
        };
        let claimed_before = self.rewards_claimed.get_or(&(who, reward_type), 0u128);
        if reward_type == 2 {
            match self.council_reward_claimed_at.get(&who) {
                Some(last) => {
                    if now < last.saturating_add(COUNCIL_REWARD_PERIOD) {
                        return Err(Error::RewardAlreadyClaimed);
                    }
                },
                None => {},
            }
        } else if claimed_before != 0 {
            return Err(Error::RewardAlreadyClaimed);
        }
        if treasury_balance < amount {
            return Err(Error::InsufficientTreasuryForRewards);
        }
        if !transfer_ok {
            return Err(Error::CurrencyFailure);
        }
        let ghost s0 = self@;
        self.rewards_claimed.insert((who, reward_type), claimed_before.saturating_add(amount));
        if reward_type == 2 {
            self.council_reward_claimed_at.insert(who, now);
        }
        self.total_rewards_distributed = self.total_rewards_distributed.saturating_add(amount);
        self.events.push(Event::RewardClaimed { account: who, reward_type, amount });
        proof {
            assert(self@ =~= claim_reward_post(s0, now, who, reward_type));
        }
        Ok(())
    }

    /// Whether `who` voted on one of the first 50 proposal ids.
    fn has_voted_recently(&self, who: AccountId) -> (b: bool)
        ensures
            b == voted_recently(self@, who),
    {
        let limit = if self.next_proposal_id < REWARD_SCAN_LIMIT {
            self.next_proposal_id
        } else {
            REWARD_SCAN_LIMIT
        };
        let mut pid: u32 = 0;
        while pid < limit
            invariant
                pid <= limit,
                limit <= self@.next_proposal_id,
                limit <= REWARD_SCAN_LIMIT,
                limit == self@.next_proposal_id || limit == REWARD_SCAN_LIMIT,
                forall|q: u32| q < pid ==> !(#[trigger] self@.votes.contains_key((q, who))),
            decreases limit - pid,
        {
            if self.votes.contains_key(&(pid, who)) {
                assert(self@.votes.contains_key((pid, who)));
                return true;
            }
            pid = pid + 1;
        }
        false
    }

    /// Whether `who` authored one of the first 50 proposals in the order the
    /// runtime walks the proposals.
    fn has_authored_recently(&self, who: AccountId) -> (b: bool)
        ensures
            b == authored_recently(self@, proposals_in_storage_order(self@.proposals.dom()), who),
    {
        let keys = proposal_ids_of(&self.proposals);
        let ghost dom = self@.proposals.dom();
        let n = keys.len();
        let order = first_proposals_in_storage_order(&keys, REWARD_SCAN_LIMIT as usize);
        let ghost full = proposals_in_storage_order(dom);
        proof {
            lemma_proposal_encoding_injective();
            lemma_in_key_order(dom, proposal_encoding());
        }
        let limit = order.len();
        let mut j: usize = 0;
        while j < limit
            invariant
                j <= limit,
                limit == order@.len(),
                dom == self@.proposals.dom(),
                full == proposals_in_storage_order(dom),
                full.len() == n,
                limit <= n,
                limit <= REWARD_SCAN_LIMIT,
                limit == n || limit == REWARD_SCAN_LIMIT,
                order@ == full.take(limit as int),
                forall|x: u32| #[trigger] full.contains(x) <==> dom.contains(x),
                forall|x: int| 0 <= x < j ==> (#[trigger] self@.proposals[full[x]]).proposer != who,
            decreases limit - j,
        {
            let id = order[j];
            assert(full[j as int] == id);
            assert(full.contains(id));
            match self.proposals.get(&id) {
                Some(p) => {
                    if p.proposer == who {
                        assert((self@.proposals[full[j as int]]).proposer == who);
                        return true;
                    }
                },
                None => {},
            }
            j = j + 1;
        }
        false
    }

    /// Queues a proposal at priority 1 (low) to 4 (critical) (root only).
    pub fn set_proposal_priority(&mut self, origin: Origin, proposal_id: u32, priority: u8) -> (r: Result<
        (),
        Error,
    >)
        ensures
            r == (match set_priority_error(old(self)@, origin, proposal_id, priority) {
                Some(e) => Err(e),
                None => Ok(()),
            }),
            r is Err ==> final(self)@ == old(self)@,
            r is Ok ==> ({
                let p = priority_of_value(priority);
                let q = final(self)@.proposal_queue[p];
                &&& !queue_of(old(self)@, p).contains(proposal_id) ==> q@ == queue_of(old(self)@, p).push(proposal_id)
                &&& final(self)@ == set_priority_post(old(self)@, proposal_id, priority, q)
            }),
    {
        if origin != Origin::Root {
            return Err(Error::BadOrigin);
        }
        if !(1 <= priority && priority <= 4) {
            return Err(Error::InvalidPriority);
        }
        if !self.proposals.contains_key(&proposal_id) {
            return Err(Error::ProposalNotFound);
        }
        let p = if priority == 1 {
            ProposalPriority::Low
        } else if priority == 2 {
            ProposalPriority::Normal
        } else if priority == 3 {
            ProposalPriority::High
        } else {
            ProposalPriority::Critical
        };
        let present = match self.proposal_queue.get(&p) {
            Some(q) => {
                if q.len() >= MAX_PRIORITY_QUEUE {
                    return Err(Error::PriorityQueueFull);
                }
                contains_u32(q, proposal_id)
            },
            None => false,
        };
        let ghost s0 = self@;
        let ghost q_g: Vec<u32>;
        if !present {
            let mut q: Vec<u32> = match self.proposal_queue.remove(&p) {
                Some(q) => q,
                None => Vec::new(),
            };
            q.push(proposal_id);
            proof {
                q_g = q;
            }
            self.proposal_queue.insert(p, q);
        } else {
            proof {
                q_g = s0.proposal_queue[p];
            }
        }
        self.events.push(Event::ProposalQueuedWithPriority { proposal_id, priority_index: priority });
        proof {
            assert(self@ =~= set_priority_post(s0, proposal_id, priority, q_g));
        }
        Ok(())
    }

    /// Rewards the account has claimed, over all reward types.
    pub fn get_rewards_claimed(&self, account: AccountId) -> (b: Balance)
        ensures
            b == rewards_claimed_by(self@, account),
    {
        let mut total: Balance = 0;
        total = total.saturating_add(self.rewards_claimed.get_or(&(account, 0u8), 0u128));
        total = total.saturating_add(self.rewards_claimed.get_or(&(account, 1u8), 0u128));
        total = total.saturating_add(self.rewards_claimed.get_or(&(account, 2u8), 0u128));
        total
    }

    /// Rewards paid out so far.
    pub fn get_total_rewards_distributed(&self) -> (b: Balance)
        ensures
            b == self@.total_rewards_distributed,
    {
        self.total_rewards_distributed
    }
}

/// The spend period that block `now` falls in.
fn current_spend_period(cfg: &Config, now: BlockNumber) -> (p: u32)
    ensures
        p == spend_period(*cfg, now),
{
    let len: u32 = if cfg.treasury_spend_period > u32::MAX as u64 {
        u32::MAX
    } else {
        cfg.treasury_spend_period as u32
    };
    let block: u32 = if now > u32::MAX as u64 {
        u32::MAX
    } else {
        now as u32
    };
    if len > 0 {
        block / len
    } else {
        0
    }
}

/// Whether `a` occurs in `v`.
pub(crate) fn contains_account(v: &Vec<AccountId>, a: AccountId) -> (b: bool)
    ensures
        b == v@.contains(a),
{
    let mut i: usize = 0;
    while i < v.len()
        invariant
            i <= v@.len(),
            forall|j: int| 0 <= j < i ==> v@[j] != a,
        decreases v@.len() - i,
    {
        if v[i] == a {
            return true;
        }
        i = i + 1;
    }
    false
}

/// Whether `x` occurs in `v`.
pub(crate) fn contains_u32(v: &Vec<u32>, x: u32) -> (b: bool)
    ensures
        b == v@.contains(x),
{
    let mut i: usize = 0;
    while i < v.len()
        invariant
            i <= v@.len(),
            forall|j: int| 0 <= j < i ==> v@[j] != x,
        decreases v@.len() - i,
    {
        if v[i] == x {
            return true;
        }
        i = i + 1;
    }
    false
}

} // verus!
