//! The pallet's storage, its abstract view, genesis, and read accessors.
use vstd::prelude::*;

use crate::events::Event;
use crate::types::{
    AccountId, Balance, BelizeDistrict, BlockNumber, BoardRole, CouncilMember, Department,
    DistrictBudget, Election, ElectionCandidate, EmergencyStatus, GovernanceParameter, Proposal,
    ProposalAmendment, ProposalPriority, Referendum, TreasurySpendProposal, Vote, VoteDelegation,
    BLOCKS_PER_YEAR, VOTING_PERIOD,
};
use crate::vec_map::VecMap;

verus! {

/// All storage of the governance pallet.
pub struct Pallet {
    pub council_members: VecMap<AccountId, CouncilMember>,
    pub proposals: VecMap<u32, Proposal>,
    pub votes: VecMap<(u32, AccountId), Vote>,
    pub vote_commitments: VecMap<(u32, AccountId), [u8; 32]>,
    pub community_ranks: VecMap<AccountId, u32>,
    pub pouw_contributions: VecMap<AccountId, u32>,
    pub next_proposal_id: u32,
    pub council_term: u32,
    pub jaguar_mode: Option<EmergencyStatus>,
    pub emergency_vetoes: VecMap<AccountId, BlockNumber>,
    pub department_managers: VecMap<Department, AccountId>,
    pub department_proposal_count: VecMap<Department, u32>,
    pub cross_department_approvals: VecMap<(u32, Department), bool>,
    pub board_composition: VecMap<BoardRole, u32>,
    pub term_expiry_queue: VecMap<BlockNumber, Vec<AccountId>>,
    pub account_last_proposal: VecMap<AccountId, BlockNumber>,
    pub proposal_enactment_block: VecMap<u32, BlockNumber>,
    pub account_vote_participation: VecMap<AccountId, (u32, u32)>,
    pub effective_voting_multiplier: VecMap<AccountId, u8>,
    pub last_participation_check_block: BlockNumber,
    pub delegate_nominees: VecMap<AccountId, u32>,
    pub delegate_voters: VecMap<(BlockNumber, AccountId), AccountId>,
    pub current_election: Option<BlockNumber>,
    pub governance_parameters: VecMap<GovernanceParameter, u32>,
    pub department_treasury_balances: VecMap<Department, Balance>,
    pub executed_proposals: VecMap<u32, BlockNumber>,
    pub pending_runtime_upgrade: Option<[u8; 32]>,
    pub district_elections: VecMap<BelizeDistrict, Election>,
    pub election_candidates: VecMap<(BlockNumber, AccountId), ElectionCandidate>,
    pub election_votes: VecMap<(BlockNumber, AccountId), AccountId>,
    pub district_representation: VecMap<BelizeDistrict, Vec<AccountId>>,
    pub vote_delegations: VecMap<AccountId, VoteDelegation>,
    pub delegation_receivers: VecMap<AccountId, Vec<AccountId>>,
    pub proposal_amendments: VecMap<u32, ProposalAmendment>,
    pub proposal_queue: VecMap<ProposalPriority, Vec<u32>>,
    pub rewards_claimed: VecMap<(AccountId, u8), Balance>,
    pub council_reward_claimed_at: VecMap<AccountId, BlockNumber>,
    pub total_rewards_distributed: Balance,
    pub referendums: VecMap<u32, Referendum>,
    pub next_referendum_id: u32,
    pub referendum_votes: VecMap<(u32, AccountId), u8>,
    pub referendum_eligible_voters: VecMap<u32, u32>,
    pub district_budgets: VecMap<BelizeDistrict, DistrictBudget>,
    pub treasury_spend_proposals: VecMap<u32, TreasurySpendProposal>,
    pub next_treasury_proposal_id: u32,
    pub national_treasury_reserve: Balance,
    pub treasury_spend_tracker: (u32, Balance),
    pub department_policies: VecMap<(Department, Vec<u8>), Vec<u8>>,
    pub chain_parameters: VecMap<Vec<u8>, u64>,
    pub constitutional_ratifications: VecMap<u32, (bool, bool)>,
    pub locked_parameters: VecMap<Vec<u8>, bool>,
    /// Events deposited so far, oldest first.
    pub events: Vec<Event>,
}

/// The abstract state: every storage item by its view.
#[verifier::ext_equal]
pub struct GovView {
    pub council_members: Map<AccountId, CouncilMember>,
    pub proposals: Map<u32, Proposal>,
    pub votes: Map<(u32, AccountId), Vote>,
    pub vote_commitments: Map<(u32, AccountId), [u8; 32]>,
    pub community_ranks: Map<AccountId, u32>,
    pub pouw_contributions: Map<AccountId, u32>,
    pub next_proposal_id: u32,
    pub council_term: u32,
    pub jaguar_mode: Option<EmergencyStatus>,
    pub emergency_vetoes: Map<AccountId, BlockNumber>,
    pub department_managers: Map<Department, AccountId>,
    pub department_proposal_count: Map<Department, u32>,
    pub cross_department_approvals: Map<(u32, Department), bool>,
    pub board_composition: Map<BoardRole, u32>,
    pub term_expiry_queue: Map<BlockNumber, Vec<AccountId>>,
    pub account_last_proposal: Map<AccountId, BlockNumber>,
    pub proposal_enactment_block: Map<u32, BlockNumber>,
    pub account_vote_participation: Map<AccountId, (u32, u32)>,
    pub effective_voting_multiplier: Map<AccountId, u8>,
    pub last_participation_check_block: BlockNumber,
    pub delegate_nominees: Map<AccountId, u32>,
    pub delegate_voters: Map<(BlockNumber, AccountId), AccountId>,
    pub current_election: Option<BlockNumber>,
    pub governance_parameters: Map<GovernanceParameter, u32>,
    pub department_treasury_balances: Map<Department, Balance>,
    pub executed_proposals: Map<u32, BlockNumber>,
    pub pending_runtime_upgrade: Option<[u8; 32]>,
    pub district_elections: Map<BelizeDistrict, Election>,
    pub election_candidates: Map<(BlockNumber, AccountId), ElectionCandidate>,
    pub election_votes: Map<(BlockNumber, AccountId), AccountId>,
    pub district_representation: Map<BelizeDistrict, Vec<AccountId>>,
    pub vote_delegations: Map<AccountId, VoteDelegation>,
    pub delegation_receivers: Map<AccountId, Seq<AccountId>>,
    pub proposal_amendments: Map<u32, ProposalAmendment>,
    pub proposal_queue: Map<ProposalPriority, Vec<u32>>,
    pub rewards_claimed: Map<(AccountId, u8), Balance>,
    pub council_reward_claimed_at: Map<AccountId, BlockNumber>,
    pub total_rewards_distributed: Balance,
    pub referendums: Map<u32, Referendum>,
    pub next_referendum_id: u32,
    pub referendum_votes: Map<(u32, AccountId), u8>,
    pub referendum_eligible_voters: Map<u32, u32>,
    pub district_budgets: Map<BelizeDistrict, DistrictBudget>,
    pub treasury_spend_proposals: Map<u32, TreasurySpendProposal>,
    pub next_treasury_proposal_id: u32,
    pub national_treasury_reserve: Balance,
    pub treasury_spend_tracker: (u32, Balance),
    pub department_policies: Map<(Department, Seq<u8>), Vec<u8>>,
    pub chain_parameters: Map<Seq<u8>, u64>,
    pub constitutional_ratifications: Map<u32, (bool, bool)>,
    pub locked_parameters: Map<Seq<u8>, bool>,
    pub events: Seq<Event>,
}

impl View for Pallet {
    type V = GovView;

    open spec fn view(&self) -> GovView {
        GovView {
            council_members: self.council_members@,
            proposals: self.proposals@,
            votes: self.votes@,
            vote_commitments: self.vote_commitments@,
            community_ranks: self.community_ranks@,
            pouw_contributions: self.pouw_contributions@,
            next_proposal_id: self.next_proposal_id,
            council_term: self.council_term,
            jaguar_mode: self.jaguar_mode,
            emergency_vetoes: self.emergency_vetoes@,
            department_managers: self.department_managers@,
            department_proposal_count: self.department_proposal_count@,
            cross_department_approvals: self.cross_department_approvals@,
            board_composition: self.board_composition@,
            term_expiry_queue: self.term_expiry_queue@,
            account_last_proposal: self.account_last_proposal@,
            proposal_enactment_block: self.proposal_enactment_block@,
            account_vote_participation: self.account_vote_participation@,
            effective_voting_multiplier: self.effective_voting_multiplier@,
            last_participation_check_block: self.last_participation_check_block,
            delegate_nominees: self.delegate_nominees@,
            delegate_voters: self.delegate_voters@,
            current_election: self.current_election,
            governance_parameters: self.governance_parameters@,
            department_treasury_balances: self.department_treasury_balances@,
            executed_proposals: self.executed_proposals@,
            pending_runtime_upgrade: self.pending_runtime_upgrade,
            district_elections: self.district_elections@,
            election_candidates: self.election_candidates@,
            election_votes: self.election_votes@,
            district_representation: self.district_representation@,
            vote_delegations: self.vote_delegations@,
            delegation_receivers: self.delegation_receivers@.map_values(|q: Vec<AccountId>| q@),
            proposal_amendments: self.proposal_amendments@,
            proposal_queue: self.proposal_queue@,
            rewards_claimed: self.rewards_claimed@,
            council_reward_claimed_at: self.council_reward_claimed_at@,
            total_rewards_distributed: self.total_rewards_distributed,
            referendums: self.referendums@,
            next_referendum_id: self.next_referendum_id,
            referendum_votes: self.referendum_votes@,
            referendum_eligible_voters: self.referendum_eligible_voters@,
            district_budgets: self.district_budgets@,
            treasury_spend_proposals: self.treasury_spend_proposals@,
            next_treasury_proposal_id: self.next_treasury_proposal_id,
            national_treasury_reserve: self.national_treasury_reserve,
            treasury_spend_tracker: self.treasury_spend_tracker,
            department_policies: self.department_policies@,
            chain_parameters: self.chain_parameters@,
            constitutional_ratifications: self.constitutional_ratifications@,
            locked_parameters: self.locked_parameters@,
            events: self.events@,
        }
    }
}

/// The genesis record of a council member with the given scores.
pub open spec fn genesis_member(account: AccountId, rank: u32, pouw: u32) -> CouncilMember {
    CouncilMember {
        account,
        role: BoardRole::Founder,
        term_end: (BLOCKS_PER_YEAR * 2) as u64,
        is_rotating: false,
        community_rank: rank,
        pouw_contribution: pouw,
        voting_weight: (rank + pouw) as u32,
        term_start: 0,
        votes_received: (rank + pouw) as u32,
        proposals_authored: 0,
        participation_rate: 100,
        consecutive_terms: 0,
    }
}

/// Council members seated at genesis; a later entry for an account
/// replaces an earlier one.
pub open spec fn genesis_council(ms: Seq<(AccountId, u32, u32)>) -> Map<AccountId, CouncilMember>
    decreases ms.len(),
{
    if ms.len() == 0 {
        Map::empty()
    } else {
        let m = ms.last();
        genesis_council(ms.drop_last()).insert(m.0, genesis_member(m.0, m.1, m.2))
    }
}

pub open spec fn genesis_ranks(ms: Seq<(AccountId, u32, u32)>) -> Map<AccountId, u32>
    decreases ms.len(),
{
    if ms.len() == 0 {
        Map::empty()
    } else {
        genesis_ranks(ms.drop_last()).insert(ms.last().0, ms.last().1)
    }
}

pub open spec fn genesis_pouw(ms: Seq<(AccountId, u32, u32)>) -> Map<AccountId, u32>
    decreases ms.len(),
{
    if ms.len() == 0 {
        Map::empty()
    } else {
        genesis_pouw(ms.drop_last()).insert(ms.last().0, ms.last().2)
    }
}

/// The abstract state of empty storage: every map empty, every counter
/// zero, no emergency, no pending upgrade, no events.
pub open spec fn empty_view() -> GovView {
    GovView {
        council_members: Map::empty(),
        proposals: Map::empty(),
        votes: Map::empty(),
        vote_commitments: Map::empty(),
        community_ranks: Map::empty(),
        pouw_contributions: Map::empty(),
        next_proposal_id: 0,
        council_term: 0,
        jaguar_mode: None,
        emergency_vetoes: Map::empty(),
        department_managers: Map::empty(),
        department_proposal_count: Map::empty(),
        cross_department_approvals: Map::empty(),
        board_composition: Map::empty(),
        term_expiry_queue: Map::empty(),
        account_last_proposal: Map::empty(),
        proposal_enactment_block: Map::empty(),
        account_vote_participation: Map::empty(),
        effective_voting_multiplier: Map::empty(),
        last_participation_check_block: 0,
        delegate_nominees: Map::empty(),
        delegate_voters: Map::empty(),
        current_election: None,
        governance_parameters: Map::empty(),
        department_treasury_balances: Map::empty(),
        executed_proposals: Map::empty(),
        pending_runtime_upgrade: None,
        district_elections: Map::empty(),
        election_candidates: Map::empty(),
        election_votes: Map::empty(),
        district_representation: Map::empty(),
        vote_delegations: Map::empty(),
        delegation_receivers: Map::empty(),
        proposal_amendments: Map::empty(),
        proposal_queue: Map::empty(),
        rewards_claimed: Map::empty(),
        council_reward_claimed_at: Map::empty(),
        total_rewards_distributed: 0,
        referendums: Map::empty(),
        next_referendum_id: 0,
        referendum_votes: Map::empty(),
        referendum_eligible_voters: Map::empty(),
        district_budgets: Map::empty(),
        treasury_spend_proposals: Map::empty(),
        next_treasury_proposal_id: 0,
        national_treasury_reserve: 0,
        treasury_spend_tracker: (0, 0),
        department_policies: Map::empty(),
        chain_parameters: Map::empty(),
        constitutional_ratifications: Map::empty(),
        locked_parameters: Map::empty(),
        events: Seq::empty(),
    }
}

/// The abstract state genesis starts a chain with: the given members seated
/// with their scores, council term 1, the default governance parameters and
/// nothing else.
pub open spec fn genesis_view(members: Seq<(AccountId, u32, u32)>) -> GovView {
    GovView {
        council_members: genesis_council(members),
        community_ranks: genesis_ranks(members),
        pouw_contributions: genesis_pouw(members),
        council_term: 1,
        governance_parameters: genesis_parameters(),
        ..empty_view()
    }
}

/// Governance parameters at genesis.
pub open spec fn genesis_parameters() -> Map<GovernanceParameter, u32> {
    Map::empty().insert(GovernanceParameter::VotingPeriod, VOTING_PERIOD).insert(
        GovernanceParameter::LaunchPeriod,
        28800u32,
    ).insert(GovernanceParameter::MinimumDeposit, 1000u32).insert(
        GovernanceParameter::SupermajorityThreshold,
        66u32,
    ).insert(GovernanceParameter::CouncilSize, 15u32).insert(
        GovernanceParameter::EmergencyTimeout,
        86400u32,
    )
}

/// Each member's scores sum within `u32`.
pub open spec fn no_overflowing_member(ms: Seq<(AccountId, u32, u32)>) -> bool {
    forall|i: int| 0 <= i < ms.len() ==> ms[i].1 + ms[i].2 <= u32::MAX
}

/// The pallet's genesis configuration.
pub struct GenesisConfig {
    /// Initial council members: account, community rank, PoUW contribution.
    pub council_members: Vec<(AccountId, u32, u32)>,
    /// Democracy launch period.
    pub democracy_launch_period: BlockNumber,
    /// Democracy voting period.
    pub democracy_voting_period: BlockNumber,
    /// Minimum proposal deposit.
    pub democracy_minimum_deposit: Balance,
}

impl Default for GenesisConfig {
    fn default() -> (g: Self)
        ensures
            g.council_members@.len() == 0,
            g.democracy_launch_period == 28800,
            g.democracy_voting_period == VOTING_PERIOD,
            g.democracy_minimum_deposit == 1000,
    {
        GenesisConfig {
            council_members: Vec::new(),
            democracy_launch_period: 28800,
            democracy_voting_period: VOTING_PERIOD as u64,
            democracy_minimum_deposit: 1000,
        }
    }
}

impl GenesisConfig {
    /// The storage this configuration starts a chain with.
    pub fn build(&self) -> (g: Pallet)
        requires
            no_overflowing_member(self.council_members@),
        ensures
            g@ == genesis_view(self.council_members@),
    {
        Pallet::genesis(&self.council_members)
    }
}

impl Pallet {
    /// Empty storage.
    pub fn empty() -> (g: Self)
        ensures
            g@ == empty_view(),
    {
        let g = Pallet {
            council_members: VecMap::new(),
            proposals: VecMap::new(),
            votes: VecMap::new(),
            vote_commitments: VecMap::new(),
            community_ranks: VecMap::new(),
            pouw_contributions: VecMap::new(),
            next_proposal_id: 0,
            council_term: 0,
            jaguar_mode: None,
            emergency_vetoes: VecMap::new(),
            department_managers: VecMap::new(),
            department_proposal_count: VecMap::new(),
            cross_department_approvals: VecMap::new(),
            board_composition: VecMap::new(),
            term_expiry_queue: VecMap::new(),
            account_last_proposal: VecMap::new(),
            proposal_enactment_block: VecMap::new(),
            account_vote_participation: VecMap::new(),
            effective_voting_multiplier: VecMap::new(),
            last_participation_check_block: 0,
            delegate_nominees: VecMap::new(),
            delegate_voters: VecMap::new(),
            current_election: None,
            governance_parameters: VecMap::new(),
            department_treasury_balances: VecMap::new(),
            executed_proposals: VecMap::new(),
            pending_runtime_upgrade: None,
            district_elections: VecMap::new(),
            election_candidates: VecMap::new(),
            election_votes: VecMap::new(),
            district_representation: VecMap::new(),
            vote_delegations: VecMap::new(),
            delegation_receivers: VecMap::new(),
            proposal_amendments: VecMap::new(),
            proposal_queue: VecMap::new(),
            rewards_claimed: VecMap::new(),
            council_reward_claimed_at: VecMap::new(),
            total_rewards_distributed: 0,
            referendums: VecMap::new(),
            next_referendum_id: 0,
            referendum_votes: VecMap::new(),
            referendum_eligible_voters: VecMap::new(),
            district_budgets: VecMap::new(),
            treasury_spend_proposals: VecMap::new(),
            next_treasury_proposal_id: 0,
            national_treasury_reserve: 0,
            treasury_spend_tracker: (0, 0),
            department_policies: VecMap::new(),
            chain_parameters: VecMap::new(),
            constitutional_ratifications: VecMap::new(),
            locked_parameters: VecMap::new(),
            events: Vec::new(),
        };
        proof {
            assert(g@.delegation_receivers =~= Map::<AccountId, Seq<AccountId>>::empty());
            assert(g@.events =~= Seq::<Event>::empty());
            assert(g@ =~= empty_view());
        }
        g
    }

    /// Genesis: seats the given `(account, community_rank, pouw)` members as
    /// Founders with two-year terms, records their scores, starts council
    /// term 1 and sets the governance parameters to their defaults.
    pub fn genesis(council_members: &Vec<(AccountId, u32, u32)>) -> (g: Self)
        requires
            no_overflowing_member(council_members@),
        ensures
            g@ == genesis_view(council_members@),
    {
        let mut g = Pallet::empty();
        let mut i: usize = 0;
        while i < council_members.len()
            invariant
                i <= council_members@.len(),
                no_overflowing_member(council_members@),
                g@ == (GovView {
                    council_members: genesis_council(council_members@.subrange(0, i as int)),
                    community_ranks: genesis_ranks(council_members@.subrange(0, i as int)),
                    pouw_contributions: genesis_pouw(council_members@.subrange(0, i as int)),
                    ..empty_view()
                }),
            decreases council_members@.len() - i,
        {
            let (member, rank, pouw) = council_members[i];
            let weight = rank + pouw;
            let cm = CouncilMember {
                account: member,
                role: BoardRole::Founder,
                term_end: (BLOCKS_PER_YEAR * 2) as u64,
                is_rotating: false,
                community_rank: rank,
                pouw_contribution: pouw,
                voting_weight: weight,
                term_start: 0,
                votes_received: weight,
                proposals_authored: 0,
                participation_rate: 100,
                consecutive_terms: 0,
            };
            g.council_members.insert(member, cm);
            g.community_ranks.insert(member, rank);
            g.pouw_contributions.insert(member, pouw);
            proof {
                let pre = council_members@.subrange(0, i as int);
                let post = council_members@.subrange(0, i + 1);
                assert(post.drop_last() =~= pre);
                assert(post.last() == council_members@[i as int]);
                assert(g@ =~= GovView {
                    council_members: genesis_council(post),
                    community_ranks: genesis_ranks(post),
                    pouw_contributions: genesis_pouw(post),
                    ..empty_view()
                });
            }
            i = i + 1;
        }
        assert(council_members@.subrange(0, council_members@.len() as int) =~= council_members@);
        g.council_term = 1;
        g.governance_parameters.insert(GovernanceParameter::VotingPeriod, VOTING_PERIOD);
        g.governance_parameters.insert(GovernanceParameter::LaunchPeriod, 28800u32);
        g.governance_parameters.insert(GovernanceParameter::MinimumDeposit, 1000u32);
        g.governance_parameters.insert(GovernanceParameter::SupermajorityThreshold, 66u32);
        g.governance_parameters.insert(GovernanceParameter::CouncilSize, 15u32);
        g.governance_parameters.insert(GovernanceParameter::EmergencyTimeout, 86400u32);
        proof {
            assert(g@ =~= genesis_view(council_members@));
        }
        g
    }
}

} // verus!
