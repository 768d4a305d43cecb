//! Scenarios of the governance pallet on a small test chain: five funded
//! accounts, three genesis council members, account 999 failing compliance.

use std::collections::HashMap;

use belize_governance::config::Config;
use belize_governance::events::{Error, Event, Origin};
use belize_governance::state::{GenesisConfig, Pallet};
use belize_governance::types::{
    BelizeDistrict, BoardRole, CouncilMember, Department, ElectionStatus, EmergencyActionType, EmergencyStatus,
    EmergencyType, GovernanceParameter,
    Proposal, ProposalAction, ProposalPriority, ProposalStatus, ProposalType, ReferendumStatus,
    VoteTally, VotingThreshold,
};
use belize_governance::arith::saturating_mul_u32;
use belize_governance::call_data::decode_department_call;
use belize_governance::types::DepartmentCall;
use belize_governance::weights::{RuntimeDbWeight, SubstrateWeight, Weight, WeightInfo};
use frame_support::{Blake2_128Concat, StorageHasher};
use parity_scale_codec::Encode;

const TREASURY_ED: u128 = 1;

/// The test chain: the pallet's storage, its configuration, the block
/// number and the balances the runtime keeps.
struct Ext {
    gov: Pallet,
    cfg: Config,
    now: u64,
    free: HashMap<u64, u128>,
    reserved: HashMap<u64, u128>,
    eligible_voters: u32,
}

fn test_config() -> Config {
    Config {
        minimum_deposit: 1_000_000_000,
        voting_period: 100_800,
        launch_period: 28_800,
        max_candidates_per_election: 50,
        max_consecutive_terms: 3,
        max_permanent_term_extensions: 2,
        proposal_cooldown: 0,
        enactment_period_constitutional: 0,
        enactment_period_economic: 0,
        enactment_period_standard: 0,
        quadratic_voting_enabled: false,
        max_voting_units: 1_000,
        stake_unit_size: 1_000_000_000_000,
        large_holder_stake_threshold: 1_000_000_000_000_000,
        large_holder_min_participation_rate: 50,
        exit_proof_validity: 432_000,
        emergency_veto_window: 100,
        runtime_upgrade_min_timelock: 0,
        parameter_change_min_timelock: 0,
        max_treasury_spend_per_period: u128::MAX,
        treasury_spend_period: 100_800,
        min_quorum_percentage: 10,
    }
}

fn new_test_ext() -> Ext {
    let genesis = GenesisConfig {
        council_members: vec![(1, 100, 200), (2, 80, 150), (3, 60, 100)],
        democracy_launch_period: 28_800,
        democracy_voting_period: 100_800,
        democracy_minimum_deposit: 1_000_000_000,
    };
    let mut free = HashMap::new();
    free.insert(1u64, 100_000_000_000u128);
    free.insert(2u64, 100_000_000_000u128);
    free.insert(3u64, 100_000_000_000u128);
    free.insert(4u64, 50_000_000_000u128);
    free.insert(5u64, 50_000_000_000u128);
    Ext {
        gov: genesis.build(),
        cfg: test_config(),
        now: 1,
        free,
        reserved: HashMap::new(),
        eligible_voters: 1_000,
    }
}

fn signed(who: u64) -> Origin {
    Origin::Signed(who)
}

fn root() -> Origin {
    Origin::Root
}

fn who_of(origin: Origin) -> u64 {
    match origin {
        Origin::Signed(w) => w,
        _ => 0,
    }
}

fn compliant(who: u64) -> bool {
    who != 999
}

fn treasury() -> u64 {
    Pallet::account_id()
}

/// A proposal record with the fields the scenarios vary.
fn proposal_record(
    id: u32,
    proposal_type: ProposalType,
    threshold: VotingThreshold,
    status: ProposalStatus,
    is_emergency: bool,
    ayes: u32,
    nays: u32,
    action: Option<ProposalAction>,
) -> Proposal {
    Proposal {
        id,
        proposer: 1,
        title: b"t".to_vec(),
        description: b"d".to_vec(),
        proposal_type,
        threshold,
        deposit: 0,
        voting_start: 1,
        voting_end: 1_000_000,
        vote_tally: VoteTally {
            ayes,
            nays,
            abstentions: 0,
            total_weight: ayes + nays,
            participation: 100,
        },
        status,
        is_emergency,
        department: None,
        district: None,
        requires_cross_approval: false,
        cross_approved_by: Vec::new(),
        action,
        executed_at: None,
    }
}

/// An approved economic proposal carrying `action`.
fn approved_with(id: u32, action: ProposalAction) -> Proposal {
    proposal_record(
        id,
        ProposalType::Economic,
        VotingThreshold::SimpleMajority,
        ProposalStatus::Approved,
        false,
        100,
        0,
        Some(action),
    )
}

impl Ext {
    fn free_balance(&self, who: u64) -> u128 {
        *self.free.get(&who).unwrap_or(&0)
    }

    fn set_balance(&mut self, who: u64, amount: u128) {
        self.free.insert(who, amount);
    }

    fn reserve(&mut self, who: u64, amount: u128) {
        let f = self.free_balance(who);
        self.free.insert(who, f - amount);
        let r = *self.reserved.get(&who).unwrap_or(&0);
        self.reserved.insert(who, r + amount);
    }

    fn unreserve(&mut self, who: u64, amount: u128) {
        let r = *self.reserved.get(&who).unwrap_or(&0);
        let back = if r < amount { r } else { amount };
        self.reserved.insert(who, r - back);
        let f = self.free_balance(who);
        self.free.insert(who, f + back);
    }

    fn transfer(&mut self, from: u64, to: u64, amount: u128) {
        let f = self.free_balance(from);
        self.free.insert(from, f - amount);
        let t = self.free_balance(to);
        self.free.insert(to, t + amount);
    }

    /// Pays out the treasury spends that events from position `from` on
    /// report; at most `limit` of them.
    fn pay_spends(&mut self, from: usize, limit: usize) {
        let mut paid = 0;
        let mut payments = Vec::new();
        for e in self.gov.events[from..].iter() {
            if paid == limit {
                break;
            }
            if let Event::TreasurySpendExecuted { recipient, amount, district_index: None, .. } = e {
                payments.push((*recipient, *amount));
                paid += 1;
            }
        }
        for (to, amount) in payments {
            self.transfer(treasury(), to, amount);
        }
    }

    /// Whether the treasury can pay `amount` and stay alive.
    fn treasury_keeps_alive(&self, amount: u128) -> bool {
        self.free_balance(treasury()) >= amount + TREASURY_ED
    }

    fn set_block_number(&mut self, n: u64) {
        self.now = n;
    }

    /// Advances block by block to `n`, running the pallet's block hook.
    fn run_to_block(&mut self, n: u64) {
        while self.now < n {
            self.now += 1;
            let audited = self.gov.quarterly_audit_accounts();
            let balances: Vec<u128> = audited.iter().map(|a| self.free_balance(*a)).collect();
            let cfg = self.cfg;
            let db = RuntimeDbWeight { read: 0, write: 0 };
            let expire = <() as WeightInfo>::expire_council_member(db);
            self.gov.on_initialize(&cfg, self.now, &balances, db, expire);
        }
    }

    fn events(&self) -> &Vec<Event> {
        &self.gov.events
    }

    fn last_event(&self) -> &Event {
        self.gov.events.last().expect("Event expected")
    }

    fn proposal(&self, id: u32) -> &Proposal {
        self.gov.proposals(id).expect("proposal exists")
    }

    fn submit_proposal(
        &mut self,
        origin: Origin,
        title: &[u8],
        description: &[u8],
        proposal_type_index: u8,
        threshold_index: u8,
        is_emergency: bool,
        district_index: Option<u8>,
    ) -> Result<(), Error> {
        let who = who_of(origin);
        let deposit = self.cfg.minimum_deposit;
        let reserve_ok = self.free_balance(who) >= deposit;
        let cfg = self.cfg;
        let r = self.gov.submit_proposal(
            &cfg,
            self.now,
            origin,
            compliant(who),
            false,
            reserve_ok,
            title.to_vec(),
            description.to_vec(),
            proposal_type_index,
            threshold_index,
            is_emergency,
            district_index,
        );
        if r.is_ok() {
            self.reserve(who, deposit);
        }
        r
    }

    /// A standard Economic, simple-majority proposal; its id is 0 on a
    /// fresh chain.
    fn submit_standard_proposal(&mut self, who: u64) -> u32 {
        let id = self.gov.next_proposal_id();
        assert_eq!(
            self.submit_proposal(
                signed(who),
                b"Test Proposal",
                b"A description of the test proposal",
                1,
                0,
                false,
                None,
            ),
            Ok(())
        );
        id
    }

    fn cast_vote(&mut self, origin: Origin, proposal_id: u32, choice: u8, conviction: u8) -> Result<(), Error> {
        let who = who_of(origin);
        let balance = self.free_balance(who);
        let cfg = self.cfg;
        self.gov.cast_vote(&cfg, self.now, origin, compliant(who), false, balance, proposal_id, choice, conviction)
    }

    fn finalize_proposal(&mut self, origin: Origin, proposal_id: u32) -> Result<(), Error> {
        let cfg = self.cfg;
        match self.gov.finalize_proposal(&cfg, self.now, origin, proposal_id) {
            Ok((proposer, deposit)) => {
                self.unreserve(proposer, deposit);
                Ok(())
            },
            Err(e) => Err(e),
        }
    }

    fn council_override(&mut self, origin: Origin, proposal_id: u32, reason: &[u8]) -> Result<(), Error> {
        let cfg = self.cfg;
        self.gov.council_override(&cfg, self.now, origin == Origin::Root, proposal_id, reason.to_vec())
    }

    fn submit_department_proposal(
        &mut self,
        origin: Origin,
        department_index: u8,
        title: &[u8],
        description: &[u8],
        proposal_type_index: u8,
        threshold_index: u8,
        requires_cross_approval: bool,
    ) -> Result<(), Error> {
        let who = who_of(origin);
        let deposit = self.cfg.minimum_deposit;
        let reserve_ok = self.free_balance(who) >= deposit;
        let cfg = self.cfg;
        let r = self.gov.submit_department_proposal(
            &cfg,
            self.now,
            origin,
            compliant(who),
            reserve_ok,
            department_index,
            title.to_vec(),
            description.to_vec(),
            proposal_type_index,
            threshold_index,
            requires_cross_approval,
        );
        if r.is_ok() {
            self.reserve(who, deposit);
        }
        r
    }

    fn add_board_member(&mut self, origin: Origin, account: u64, role_index: u8, term_years: u8) -> Result<(), Error> {
        let cfg = self.cfg;
        self.gov.add_board_member(&cfg, self.now, origin == Origin::Root, account, role_index, term_years)
    }

    fn remove_board_member(&mut self, origin: Origin, account: u64, reason: &[u8]) -> Result<(), Error> {
        self.gov.remove_board_member(origin == Origin::Root, account, reason.to_vec())
    }

    fn declare_emergency(&mut self, origin: Origin, type_index: u8, description: &[u8], hours: u32) -> Result<(), Error> {
        let cfg = self.cfg;
        self.gov.declare_emergency(&cfg, self.now, origin, origin == Origin::Root, type_index, description.to_vec(), hours)
    }

    /// Declares an emergency and lets its veto window pass, so that it is
    /// active.
    fn declare_and_activate_emergency(&mut self, type_index: u8, description: &[u8], hours: u32) {
        assert_eq!(self.declare_emergency(root(), type_index, description, hours), Ok(()));
        let until = self.now + self.cfg.emergency_veto_window + 1;
        self.run_to_block(until);
        assert!(self.gov.emergency_status().unwrap().active);
    }

    fn end_emergency(&mut self, origin: Origin) -> Result<(), Error> {
        self.gov.end_emergency(origin, origin == Origin::Root)
    }

    fn veto_emergency(&mut self, origin: Origin) -> Result<(), Error> {
        let cfg = self.cfg;
        self.gov.veto_emergency(&cfg, self.now, origin)
    }

    fn delegate_vote(&mut self, origin: Origin, delegate: u64, expires_at: Option<u64>) -> Result<(), Error> {
        let who = who_of(origin);
        self.gov.delegate_vote(self.now, origin, compliant(who), compliant(delegate), delegate, expires_at)
    }

    fn nominate_for_delegate(&mut self, origin: Origin, nominee: u64) -> Result<(), Error> {
        self.gov.nominate_for_delegate(origin, compliant(nominee), nominee)
    }

    fn vote_for_delegate(&mut self, origin: Origin, nominee: u64) -> Result<(), Error> {
        let who = who_of(origin);
        self.gov.vote_for_delegate(origin, compliant(who), nominee)
    }

    fn create_referendum(
        &mut self,
        origin: Origin,
        title: &[u8],
        description: &[u8],
        options: Vec<Vec<u8>>,
        quorum: u8,
        duration: u32,
        district_index: Option<u8>,
    ) -> Result<(), Error> {
        let who = who_of(origin);
        let cfg = self.cfg;
        let eligible = self.eligible_voters;
        self.gov.create_referendum(
            &cfg,
            self.now,
            origin,
            compliant(who),
            title.to_vec(),
            description.to_vec(),
            options,
            quorum,
            duration,
            district_index,
            eligible,
        )
    }

    fn yes_no_referendum(&mut self, who: u64, quorum: u8, duration: u32) {
        assert_eq!(
            self.create_referendum(
                signed(who),
                b"Park?",
                b"Build a park",
                vec![b"Yes".to_vec(), b"No".to_vec()],
                quorum,
                duration,
                None,
            ),
            Ok(())
        );
    }

    fn vote_on_referendum(&mut self, origin: Origin, referendum_id: u32, option: u8) -> Result<(), Error> {
        let who = who_of(origin);
        self.gov.vote_on_referendum(self.now, origin, compliant(who), referendum_id, option)
    }

    fn finalize_referendum(&mut self, origin: Origin, referendum_id: u32) -> Result<(), Error> {
        self.gov.finalize_referendum(self.now, origin, referendum_id)
    }

    fn fast_track_referendum(&mut self, origin: Origin, referendum_id: u32) -> Result<(), Error> {
        self.gov.fast_track_referendum(self.now, origin, origin == Origin::Root, referendum_id)
    }

    fn propose_treasury_spend(
        &mut self,
        origin: Origin,
        recipient: u64,
        amount: u128,
        description: &[u8],
        district_index: Option<u8>,
    ) -> Result<(), Error> {
        let who = who_of(origin);
        self.gov.propose_treasury_spend(self.now, origin, compliant(who), recipient, amount, description.to_vec(), district_index)
    }

    fn approve_treasury_spend(&mut self, origin: Origin, proposal_id: u32) -> Result<(), Error> {
        self.gov.approve_treasury_spend(self.now, origin, proposal_id)
    }

    fn execute_treasury_proposal(&mut self, origin: Origin, proposal_id: u32) -> Result<(), Error> {
        let amount = self.gov.treasury_spend_proposals.get(&proposal_id).map(|p| p.amount).unwrap_or(0);
        let balance = self.free_balance(treasury());
        let ok = self.treasury_keeps_alive(amount);
        let cfg = self.cfg;
        let from = self.gov.events.len();
        let r = self.gov.execute_treasury_proposal(&cfg, self.now, origin, proposal_id, balance, ok);
        if r.is_ok() {
            self.pay_spends(from, 1);
        }
        r
    }

    fn execute_proposal(&mut self, origin: Origin, proposal_id: u32) -> Result<(), Error> {
        let balance = self.free_balance(treasury());
        let cfg = self.cfg;
        let from = self.gov.events.len();
        let r = self.gov.execute_proposal(&cfg, self.now, origin, proposal_id, balance, true);
        if r.is_ok() {
            self.pay_spends(from, usize::MAX);
        }
        r
    }

    fn execute_emergency_proposal(&mut self, origin: Origin, proposal_id: u32) -> Result<(), Error> {
        let balance = self.free_balance(treasury());
        let cfg = self.cfg;
        let from = self.gov.events.len();
        let r = self.gov.execute_emergency_proposal(&cfg, self.now, origin, origin == Origin::Root, proposal_id, balance, true);
        if r.is_ok() {
            self.pay_spends(from, usize::MAX);
        }
        r
    }

    fn claim_participation_reward(&mut self, origin: Origin, reward_type: u8) -> Result<(), Error> {
        let who = who_of(origin);
        let balance = self.free_balance(treasury());
        let from = self.gov.events.len();
        let now = self.now;
        let r = self.gov.claim_participation_reward(now, origin, reward_type, balance, true);
        if r.is_ok() {
            let mut amount = 0;
            for e in self.gov.events[from..].iter() {
                if let Event::RewardClaimed { amount: a, .. } = e {
                    amount = *a;
                }
            }
            self.transfer(treasury(), who, amount);
        }
        r
    }

    fn generate_exit_proof(&mut self, origin: Origin) -> Result<(), Error> {
        let who = who_of(origin);
        let balance = self.free_balance(who);
        let cfg = self.cfg;
        self.gov.generate_exit_proof(&cfg, self.now, origin, balance)
    }
}

// ---------------------------------------------------------------------------
// submit_proposal
// ---------------------------------------------------------------------------

#[test]
fn submit_proposal_works() {
    let mut ext = new_test_ext();
    let proposal_id = ext.submit_standard_proposal(1);
    assert!(ext.gov.proposals(proposal_id).is_some());
}

#[test]
fn submit_proposal_blocked_for_restricted_account() {
    let mut ext = new_test_ext();
    assert_eq!(
        ext.submit_proposal(signed(999), b"title", b"desc", 1, 0, false, None),
        Err(Error::InsufficientCompliance)
    );
}

#[test]
fn submit_proposal_fails_with_invalid_proposal_type() {
    let mut ext = new_test_ext();
    assert_eq!(
        ext.submit_proposal(signed(1), b"title", b"desc", 99, 0, false, None),
        Err(Error::InvalidProposalType)
    );
}

#[test]
fn submit_proposal_fails_with_invalid_threshold() {
    let mut ext = new_test_ext();
    assert_eq!(
        ext.submit_proposal(signed(1), b"title", b"desc", 0, 99, false, None),
        Err(Error::InvalidThreshold)
    );
}

#[test]
fn submit_district_local_proposal_requires_district() {
    let mut ext = new_test_ext();
    assert_eq!(
        ext.submit_proposal(signed(1), b"title", b"desc", 7, 0, false, None),
        Err(Error::DistrictRequired)
    );
}

#[test]
fn submit_district_local_proposal_with_valid_district() {
    let mut ext = new_test_ext();
    assert_eq!(
        ext.submit_proposal(
            signed(1),
            b"Local Budget Request",
            b"Allocate funds to Cayo district",
            7,
            0,
            false,
            Some(1),
        ),
        Ok(())
    );
}

#[test]
fn submit_proposal_fails_with_invalid_district_index() {
    let mut ext = new_test_ext();
    assert_eq!(
        ext.submit_proposal(signed(1), b"title", b"desc", 7, 0, false, Some(99)),
        Err(Error::InvalidDistrict)
    );
}

#[test]
fn submit_proposal_increments_counter() {
    let mut ext = new_test_ext();
    ext.submit_standard_proposal(1);
    assert_eq!(ext.submit_proposal(signed(2), b"Proposal 2", b"Another proposal", 2, 0, false, None), Ok(()));
    assert!(ext.gov.proposals(0).is_some());
    assert!(ext.gov.proposals(1).is_some());
}

// ---------------------------------------------------------------------------
// cast_vote
// ---------------------------------------------------------------------------

#[test]
fn cast_vote_aye_works() {
    let mut ext = new_test_ext();
    let id = ext.submit_standard_proposal(1);
    let start = ext.proposal(id).voting_start;
    ext.run_to_block(start + 1);
    assert_eq!(ext.cast_vote(signed(2), id, 0, 1), Ok(()));
    assert!(ext.proposal(id).vote_tally.ayes > 0);
}

#[test]
fn cast_vote_nay_works() {
    let mut ext = new_test_ext();
    let id = ext.submit_standard_proposal(1);
    let start = ext.proposal(id).voting_start;
    ext.run_to_block(start + 1);
    assert_eq!(ext.cast_vote(signed(2), id, 1, 1), Ok(()));
    assert!(ext.proposal(id).vote_tally.nays > 0);
}

#[test]
fn cast_vote_abstain_works() {
    let mut ext = new_test_ext();
    let id = ext.submit_standard_proposal(1);
    let start = ext.proposal(id).voting_start;
    ext.run_to_block(start + 1);
    assert_eq!(ext.cast_vote(signed(2), id, 2, 1), Ok(()));
    assert!(ext.proposal(id).vote_tally.abstentions > 0);
}

#[test]
fn cast_vote_fails_before_voting_start() {
    let mut ext = new_test_ext();
    let id = ext.submit_standard_proposal(1);
    assert_eq!(ext.cast_vote(signed(2), id, 0, 1), Err(Error::VotingPeriodNotStarted));
}

#[test]
fn cast_vote_fails_after_voting_end() {
    let mut ext = new_test_ext();
    let id = ext.submit_standard_proposal(1);
    let end = ext.proposal(id).voting_end;
    ext.run_to_block(end + 1);
    assert_eq!(ext.cast_vote(signed(2), id, 0, 1), Err(Error::VotingPeriodEnded));
}

#[test]
fn cast_vote_fails_when_already_voted() {
    let mut ext = new_test_ext();
    let id = ext.submit_standard_proposal(1);
    let start = ext.proposal(id).voting_start;
    ext.run_to_block(start + 1);
    assert_eq!(ext.cast_vote(signed(2), id, 0, 1), Ok(()));
    assert_eq!(ext.cast_vote(signed(2), id, 0, 1), Err(Error::AlreadyVoted));
}

#[test]
fn cast_vote_fails_for_nonexistent_proposal() {
    let mut ext = new_test_ext();
    assert_eq!(ext.cast_vote(signed(1), 9999, 0, 1), Err(Error::ProposalNotFound));
}

#[test]
fn cast_vote_blocked_for_restricted_account() {
    let mut ext = new_test_ext();
    let id = ext.submit_standard_proposal(1);
    let start = ext.proposal(id).voting_start;
    ext.run_to_block(start + 1);
    assert_eq!(ext.cast_vote(signed(999), id, 0, 1), Err(Error::InsufficientCompliance));
}

// ---------------------------------------------------------------------------
// finalize_proposal
// ---------------------------------------------------------------------------

#[test]
fn finalize_proposal_approves_when_ayes_win() {
    let mut ext = new_test_ext();
    let id = ext.submit_standard_proposal(1);
    let (start, end) = (ext.proposal(id).voting_start, ext.proposal(id).voting_end);
    ext.run_to_block(start + 1);
    assert_eq!(ext.cast_vote(signed(1), id, 0, 1), Ok(()));
    assert_eq!(ext.cast_vote(signed(2), id, 0, 1), Ok(()));
    assert_eq!(ext.cast_vote(signed(3), id, 1, 1), Ok(()));
    ext.run_to_block(end + 1);
    assert_eq!(ext.finalize_proposal(signed(1), id), Ok(()));
    assert_eq!(ext.proposal(id).status, ProposalStatus::Approved);
}

#[test]
fn finalize_proposal_rejects_when_nays_win() {
    let mut ext = new_test_ext();
    let id = ext.submit_standard_proposal(1);
    let (start, end) = (ext.proposal(id).voting_start, ext.proposal(id).voting_end);
    ext.run_to_block(start + 1);
    assert_eq!(ext.cast_vote(signed(1), id, 1, 1), Ok(()));
    assert_eq!(ext.cast_vote(signed(2), id, 1, 1), Ok(()));
    assert_eq!(ext.cast_vote(signed(3), id, 0, 1), Ok(()));
    ext.run_to_block(end + 1);
    assert_eq!(ext.finalize_proposal(signed(1), id), Ok(()));
    assert_eq!(ext.proposal(id).status, ProposalStatus::Rejected);
}

#[test]
fn finalize_proposal_fails_before_voting_end() {
    let mut ext = new_test_ext();
    let id = ext.submit_standard_proposal(1);
    let start = ext.proposal(id).voting_start;
    ext.run_to_block(start + 1);
    assert_eq!(ext.finalize_proposal(signed(1), id), Err(Error::VotingPeriodEnded));
}

#[test]
fn finalize_proposal_fails_for_nonexistent_proposal() {
    let mut ext = new_test_ext();
    assert_eq!(ext.finalize_proposal(signed(1), 9999), Err(Error::ProposalNotFound));
}

// ---------------------------------------------------------------------------
// update_community_rank / update_pouw_contribution
// ---------------------------------------------------------------------------

#[test]
fn update_community_rank_works() {
    let mut ext = new_test_ext();
    assert_eq!(ext.gov.update_community_rank(root(), 4, 500), Ok(()));
    assert_eq!(ext.gov.community_ranks(4), 500);
}

#[test]
fn update_community_rank_also_updates_council_member() {
    let mut ext = new_test_ext();
    assert_eq!(ext.gov.update_community_rank(root(), 1, 999), Ok(()));
    let member = ext.gov.council_members(1).expect("council member exists");
    assert_eq!(member.community_rank, 999);
}

#[test]
fn update_community_rank_requires_root() {
    let mut ext = new_test_ext();
    assert_eq!(ext.gov.update_community_rank(signed(1), 2, 100), Err(Error::BadOrigin));
}

#[test]
fn update_pouw_contribution_works() {
    let mut ext = new_test_ext();
    assert_eq!(ext.gov.update_pouw_contribution(root(), 4, 250), Ok(()));
    assert_eq!(ext.gov.pouw_contributions(4), 250);
}

#[test]
fn update_pouw_contribution_also_updates_council_member() {
    let mut ext = new_test_ext();
    assert_eq!(ext.gov.update_pouw_contribution(root(), 2, 888), Ok(()));
    let member = ext.gov.council_members(2).expect("council member exists");
    assert_eq!(member.pouw_contribution, 888);
}

#[test]
fn update_pouw_contribution_requires_root() {
    let mut ext = new_test_ext();
    assert_eq!(ext.gov.update_pouw_contribution(signed(1), 2, 100), Err(Error::BadOrigin));
}

// ---------------------------------------------------------------------------
// council_override
// ---------------------------------------------------------------------------

#[test]
fn council_override_works_for_emergency_proposal() {
    let mut ext = new_test_ext();
    assert_eq!(
        ext.submit_proposal(signed(1), b"Emergency Action", b"Critical system upgrade", 4, 0, true, None),
        Ok(())
    );
    ext.declare_and_activate_emergency(0, b"Critical threat", 24);
    assert_eq!(ext.council_override(root(), 0, b"Urgent security patch"), Ok(()));
    assert_eq!(ext.proposal(0).status, ProposalStatus::Approved);
}

#[test]
fn council_override_fails_for_non_emergency_proposal_outside_jaguar_mode() {
    let mut ext = new_test_ext();
    let id = ext.submit_standard_proposal(1);
    assert_eq!(ext.council_override(root(), id, b"reason"), Err(Error::NotInEmergencyMode));
}

#[test]
fn council_override_fails_for_nonexistent_proposal() {
    let mut ext = new_test_ext();
    assert_eq!(ext.council_override(root(), 9999, b"reason"), Err(Error::ProposalNotFound));
}

// ---------------------------------------------------------------------------
// set_department_manager
// ---------------------------------------------------------------------------

#[test]
fn tests_set_department_manager_works() {
    let mut ext = new_test_ext();
    assert_eq!(ext.gov.set_department_manager(root(), 0, 4), Ok(()));
    assert_eq!(ext.gov.department_managers(Department::Finance), Some(4));
}

#[test]
fn tests_set_department_manager_requires_root() {
    let mut ext = new_test_ext();
    assert_eq!(ext.gov.set_department_manager(signed(1), 0, 2), Err(Error::BadOrigin));
}

#[test]
fn set_department_manager_fails_invalid_department() {
    let mut ext = new_test_ext();
    assert_eq!(ext.gov.set_department_manager(root(), 99, 1), Err(Error::InvalidDepartment));
}

// ---------------------------------------------------------------------------
// Emergency / Jaguar Mode
// ---------------------------------------------------------------------------

#[test]
fn declare_emergency_works() {
    let mut ext = new_test_ext();
    assert_eq!(ext.declare_emergency(root(), 3, b"Critical network threat", 24), Ok(()));
    let mode = ext.gov.emergency_status().expect("declared");
    assert!(!mode.active);
    assert!(mode.is_pending);
    let until = ext.now + 101;
    ext.run_to_block(until);
    assert!(ext.gov.emergency_status().expect("declared").active);
}

#[test]
fn declare_emergency_twice_fails() {
    let mut ext = new_test_ext();
    ext.declare_and_activate_emergency(3, b"First emergency", 24);
    assert_eq!(
        ext.declare_emergency(root(), 3, b"Second emergency", 24),
        Err(Error::EmergencyAlreadyActive)
    );
}

#[test]
fn end_emergency_works() {
    let mut ext = new_test_ext();
    assert_eq!(ext.declare_emergency(root(), 3, b"Emergency", 24), Ok(()));
    assert_eq!(ext.end_emergency(root()), Ok(()));
    assert!(ext.gov.emergency_status().map_or(true, |m| !m.active));
}

#[test]
fn end_emergency_without_active_emergency_fails() {
    let mut ext = new_test_ext();
    assert_eq!(ext.end_emergency(root()), Err(Error::NoActiveEmergency));
}

// ---------------------------------------------------------------------------
// Delegation
// ---------------------------------------------------------------------------

#[test]
fn tests_delegate_vote_works() {
    let mut ext = new_test_ext();
    assert_eq!(ext.delegate_vote(signed(4), 1, None), Ok(()));
}

#[test]
fn delegate_to_self_fails() {
    let mut ext = new_test_ext();
    assert_eq!(ext.delegate_vote(signed(1), 1, None), Err(Error::CannotDelegateToSelf));
}

#[test]
fn delegate_twice_fails() {
    let mut ext = new_test_ext();
    assert_eq!(ext.delegate_vote(signed(4), 1, None), Ok(()));
    assert_eq!(ext.delegate_vote(signed(4), 2, None), Err(Error::DelegationAlreadyExists));
}

#[test]
fn tests_revoke_delegation_works() {
    let mut ext = new_test_ext();
    assert_eq!(ext.delegate_vote(signed(4), 1, None), Ok(()));
    assert_eq!(ext.gov.revoke_delegation(signed(4)), Ok(()));
}

#[test]
fn revoke_delegation_without_active_delegation_fails() {
    let mut ext = new_test_ext();
    assert_eq!(ext.gov.revoke_delegation(signed(4)), Err(Error::NoDelegationFound));
}

// ---------------------------------------------------------------------------
// Events
// ---------------------------------------------------------------------------

#[test]
fn submit_proposal_emits_event() {
    let mut ext = new_test_ext();
    ext.submit_standard_proposal(1);
    assert!(
        ext.events().iter().any(|e| matches!(e, Event::ProposalSubmitted { proposal_id: 0, .. })),
        "ProposalSubmitted event expected"
    );
}

#[test]
fn cast_vote_emits_event() {
    let mut ext = new_test_ext();
    let id = ext.submit_standard_proposal(1);
    let start = ext.proposal(id).voting_start;
    ext.run_to_block(start + 1);
    assert_eq!(ext.cast_vote(signed(2), id, 0, 1), Ok(()));
    assert!(
        ext.events().iter().any(|e| matches!(e, Event::VoteCast { proposal_id: 0, voter: 2, .. })),
        "VoteCast event expected"
    );
}

#[test]
fn update_community_rank_emits_event() {
    let mut ext = new_test_ext();
    assert_eq!(ext.gov.update_community_rank(root(), 5, 77), Ok(()));
    assert_eq!(*ext.last_event(), Event::CommunityRankUpdated { account: 5, old_rank: 0, new_rank: 77 });
}

// ---------------------------------------------------------------------------
// add_board_member / remove_board_member
// ---------------------------------------------------------------------------

#[test]
fn tests_add_board_member_works() {
    let mut ext = new_test_ext();
    assert_eq!(ext.add_board_member(root(), 10, 1, 1), Ok(()));
    assert!(ext.gov.council_members(10).is_some());
    assert!(ext.events().iter().any(|e| matches!(e, Event::BoardMemberAdded { member: 10, role_index: 1, .. })));
}

#[test]
fn add_board_member_invalid_term_fails() {
    let mut ext = new_test_ext();
    assert_eq!(ext.add_board_member(root(), 10, 1, 3), Err(Error::InvalidTermDuration));
}

#[test]
fn tests_add_board_member_invalid_role_fails() {
    let mut ext = new_test_ext();
    assert_eq!(ext.add_board_member(root(), 10, 7, 1), Err(Error::InvalidBoardRole));
}

#[test]
fn tests_remove_board_member_works() {
    let mut ext = new_test_ext();
    assert_eq!(ext.add_board_member(root(), 10, 1, 1), Ok(()));
    assert!(ext.gov.council_members(10).is_some());
    assert_eq!(ext.remove_board_member(root(), 10, b"Term completed"), Ok(()));
    assert!(ext.gov.council_members(10).is_none());
}

#[test]
fn remove_board_member_nonexistent_fails() {
    let mut ext = new_test_ext();
    assert_eq!(ext.remove_board_member(root(), 99, b""), Err(Error::MemberNotFound));
}

// ---------------------------------------------------------------------------
// Treasury spend proposals
// ---------------------------------------------------------------------------

#[test]
fn tests_propose_treasury_spend_works() {
    let mut ext = new_test_ext();
    let amount: u128 = 1_000_000_000_000;
    assert_eq!(ext.propose_treasury_spend(signed(1), 5, amount, b"Test treasury proposal", None), Ok(()));
    assert!(ext.gov.treasury_spend_proposals.get(&0).is_some());
}

#[test]
fn approve_treasury_spend_works() {
    let mut ext = new_test_ext();
    let amount: u128 = 1_000_000_000_000;
    assert_eq!(ext.propose_treasury_spend(signed(1), 5, amount, b"Test", None), Ok(()));
    assert_eq!(ext.approve_treasury_spend(signed(2), 0), Ok(()));
    assert_eq!(ext.gov.treasury_spend_proposals.get(&0).unwrap().approvals.len(), 1);
}

#[test]
fn approve_treasury_spend_non_council_fails() {
    let mut ext = new_test_ext();
    let amount: u128 = 1_000_000_000_000;
    assert_eq!(ext.propose_treasury_spend(signed(1), 5, amount, b"Test", None), Ok(()));
    assert_eq!(ext.approve_treasury_spend(signed(4), 0), Err(Error::NotCouncilMember));
}

#[test]
fn execute_treasury_proposal_works() {
    let mut ext = new_test_ext();
    let amount: u128 = 1_000_000_000_000;
    assert_eq!(ext.propose_treasury_spend(signed(1), 5, amount, b"Test", None), Ok(()));
    assert_eq!(ext.approve_treasury_spend(signed(1), 0), Ok(()));
    ext.gov.national_treasury_reserve = amount + 1;
    ext.set_balance(treasury(), amount + 1_000_000);
    let recipient_before = ext.free_balance(5);
    assert_eq!(ext.execute_treasury_proposal(signed(2), 0), Ok(()));
    assert!(ext.free_balance(5) > recipient_before);
    assert!(ext.gov.treasury_spend_proposals.get(&0).unwrap().executed);
}

// ---------------------------------------------------------------------------
// Referendums
// ---------------------------------------------------------------------------

#[test]
fn tests_create_referendum_works() {
    let mut ext = new_test_ext();
    assert_eq!(
        ext.create_referendum(
            signed(1),
            b"Should we build a new park?",
            b"Proposal to build a community park in Belmopan",
            vec![b"Yes".to_vec(), b"No".to_vec()],
            30,
            100,
            None,
        ),
        Ok(())
    );
    assert!(ext.gov.referendums.get(&0).is_some());
}

#[test]
fn tests_vote_on_referendum_works() {
    let mut ext = new_test_ext();
    ext.yes_no_referendum(1, 30, 100);
    assert_eq!(ext.vote_on_referendum(signed(1), 0, 0), Ok(()));
    let referendum = ext.gov.referendums.get(&0).unwrap();
    assert_eq!(referendum.vote_counts[0], 300);
    assert_eq!(referendum.total_votes, 300);
}

#[test]
fn finalize_referendum_passes_with_quorum() {
    let mut ext = new_test_ext();
    ext.yes_no_referendum(1, 30, 10);
    assert_eq!(ext.vote_on_referendum(signed(1), 0, 0), Ok(()));
    ext.run_to_block(12);
    assert_eq!(ext.finalize_referendum(signed(2), 0), Ok(()));
    let referendum = ext.gov.referendums.get(&0).unwrap();
    assert_eq!(referendum.status, ReferendumStatus::Passed);
    assert_eq!(referendum.winning_option, Some(0));
}

#[test]
fn finalize_referendum_fails_without_quorum() {
    let mut ext = new_test_ext();
    ext.yes_no_referendum(1, 50, 10);
    assert_eq!(ext.vote_on_referendum(signed(4), 0, 0), Ok(()));
    ext.run_to_block(12);
    assert_eq!(ext.finalize_referendum(signed(2), 0), Ok(()));
    assert_eq!(ext.gov.referendums.get(&0).unwrap().status, ReferendumStatus::Failed);
}

#[test]
fn finalize_referendum_fails_before_voting_end() {
    let mut ext = new_test_ext();
    ext.yes_no_referendum(1, 30, 100);
    assert_eq!(ext.finalize_referendum(signed(2), 0), Err(Error::VotingPeriodNotEnded));
}

// ---------------------------------------------------------------------------
// Chain parameters, priorities, amendments, rewards
// ---------------------------------------------------------------------------

#[test]
fn update_chain_parameter_works() {
    let mut ext = new_test_ext();
    assert_eq!(ext.gov.update_chain_parameter(root(), b"max_validators".to_vec(), 100), Ok(()));
    assert_eq!(ext.gov.chain_parameters.get(&b"max_validators".to_vec()), Some(&100u64));
}

#[test]
fn tests_set_proposal_priority_works() {
    let mut ext = new_test_ext();
    let id = ext.submit_standard_proposal(1);
    assert_eq!(ext.gov.set_proposal_priority(root(), id, 3), Ok(()));
    assert!(ext
        .events()
        .iter()
        .any(|e| matches!(e, Event::ProposalQueuedWithPriority { proposal_id: 0, priority_index: 3 })));
}

#[test]
fn set_proposal_priority_invalid_fails() {
    let mut ext = new_test_ext();
    let id = ext.submit_standard_proposal(1);
    assert_eq!(ext.gov.set_proposal_priority(root(), id, 5), Err(Error::InvalidPriority));
}

#[test]
fn tests_amend_proposal_works() {
    let mut ext = new_test_ext();
    let id = ext.submit_standard_proposal(1);
    let now = ext.now;
    assert_eq!(ext.gov.amend_proposal(now, signed(1), id, Some(b"Updated Title".to_vec()), None), Ok(()));
    assert_eq!(ext.proposal(id).title, b"Updated Title".to_vec());
}

#[test]
fn amend_proposal_wrong_author_fails() {
    let mut ext = new_test_ext();
    let id = ext.submit_standard_proposal(1);
    let now = ext.now;
    assert_eq!(
        ext.gov.amend_proposal(now, signed(2), id, Some(b"Hijacked Title".to_vec()), None),
        Err(Error::NotProposalAuthor)
    );
}

#[test]
fn claim_participation_reward_council_works() {
    let mut ext = new_test_ext();
    let reward_amount: u128 = 500_000_000_000_000;
    ext.set_balance(treasury(), reward_amount + 1_000_000);
    let before = ext.free_balance(1);
    assert_eq!(ext.claim_participation_reward(signed(1), 2), Ok(()));
    assert_eq!(ext.free_balance(1), before + reward_amount);
}

// ---------------------------------------------------------------------------
// Departments
// ---------------------------------------------------------------------------

#[test]
fn tests_submit_department_proposal_works() {
    let mut ext = new_test_ext();
    assert_eq!(ext.gov.set_department_manager(root(), 0, 4), Ok(()));
    assert_eq!(
        ext.submit_department_proposal(signed(4), 0, b"Finance Reform", b"Description of the finance reform", 1, 0, false),
        Ok(())
    );
    let proposal = ext.proposal(0);
    assert_eq!(proposal.department, Some(Department::Finance));
    assert_eq!(proposal.proposer, 4);
}

#[test]
fn submit_department_proposal_not_manager_fails() {
    let mut ext = new_test_ext();
    assert_eq!(ext.gov.set_department_manager(root(), 0, 4), Ok(()));
    assert_eq!(
        ext.submit_department_proposal(signed(5), 0, b"title", b"desc", 1, 0, false),
        Err(Error::NotDepartmentManager)
    );
}

#[test]
fn tests_approve_cross_department_works() {
    let mut ext = new_test_ext();
    assert_eq!(ext.gov.set_department_manager(root(), 0, 4), Ok(()));
    assert_eq!(ext.gov.set_department_manager(root(), 1, 5), Ok(()));
    assert_eq!(
        ext.submit_department_proposal(
            signed(4),
            0,
            b"Cross-Dept Reform",
            b"Requires education department approval too",
            1,
            0,
            true,
        ),
        Ok(())
    );
    assert_eq!(ext.gov.approve_cross_department(signed(5), 0, 1), Ok(()));
    assert_eq!(ext.proposal(0).cross_approved_by.len(), 1);
}

// ---------------------------------------------------------------------------
// Delegate elections
// ---------------------------------------------------------------------------

#[test]
fn tests_nominate_for_delegate_works() {
    let mut ext = new_test_ext();
    ext.gov.current_election = Some(1);
    assert_eq!(ext.nominate_for_delegate(signed(1), 4), Ok(()));
    assert!(ext.gov.delegate_nominees.contains_key(&4));
}

#[test]
fn tests_nominate_for_delegate_no_election_fails() {
    let mut ext = new_test_ext();
    assert_eq!(ext.nominate_for_delegate(signed(1), 4), Err(Error::NoActiveElection));
}

#[test]
fn tests_vote_for_delegate_works() {
    let mut ext = new_test_ext();
    ext.gov.current_election = Some(1);
    assert_eq!(ext.nominate_for_delegate(signed(1), 4), Ok(()));
    assert_eq!(ext.vote_for_delegate(signed(2), 4), Ok(()));
    assert_eq!(ext.gov.delegate_nominees(4), 1);
}

// ---------------------------------------------------------------------------
// execute_proposal
// ---------------------------------------------------------------------------

#[test]
fn tests_execute_proposal_works() {
    let mut ext = new_test_ext();
    ext.gov.proposals.insert(
        0,
        approved_with(0, ProposalAction::ParameterChange { parameter: GovernanceParameter::VotingPeriod, new_value: 50_400 }),
    );
    assert_eq!(ext.execute_proposal(signed(1), 0), Ok(()));
    assert_eq!(ext.proposal(0).status, ProposalStatus::Executed);
}

// ---------------------------------------------------------------------------
// District elections
// ---------------------------------------------------------------------------

#[test]
fn tests_start_district_election_works() {
    let mut ext = new_test_ext();
    let now = ext.now;
    assert_eq!(ext.gov.start_district_election(now, root(), 0, 2, 100, 200), Ok(()));
    assert!(ext.gov.district_elections.contains_key(&BelizeDistrict::Belize));
}

#[test]
fn start_district_election_duplicate_fails() {
    let mut ext = new_test_ext();
    let now = ext.now;
    assert_eq!(ext.gov.start_district_election(now, root(), 0, 2, 100, 200), Ok(()));
    assert_eq!(ext.gov.start_district_election(now, root(), 0, 2, 100, 200), Err(Error::ElectionAlreadyActive));
}

impl Ext {
    fn start_district_election(&mut self, district: u8, seats: u32, registration: u32, voting: u32) -> Result<(), Error> {
        self.gov.start_district_election(self.now, root(), district, seats, registration, voting)
    }

    fn register_candidate(&mut self, origin: Origin, district: u8, platform: &[u8]) -> Result<(), Error> {
        let who = who_of(origin);
        let cfg = self.cfg;
        self.gov.register_candidate(&cfg, self.now, origin, compliant(who), district, platform.to_vec())
    }

    fn vote_in_district_election(&mut self, origin: Origin, district: u8, candidate: u64) -> Result<(), Error> {
        let who = who_of(origin);
        self.gov.vote_in_district_election(self.now, origin, compliant(who), district, candidate)
    }

    fn finalize_district_election(&mut self, origin: Origin, district: u8) -> Result<(), Error> {
        let cfg = self.cfg;
        self.gov.finalize_district_election(&cfg, self.now, origin, district)
    }
}

#[test]
fn tests_register_candidate_works() {
    let mut ext = new_test_ext();
    assert_eq!(ext.start_district_election(0, 2, 100, 200), Ok(()));
    assert_eq!(ext.register_candidate(signed(1), 0, b"Roads and schools for all"), Ok(()));
    assert!(ext.gov.election_candidates.contains_key(&(1u64, 1u64)));
}

#[test]
fn tests_vote_in_district_election_works() {
    let mut ext = new_test_ext();
    assert_eq!(ext.start_district_election(0, 2, 100, 200), Ok(()));
    assert_eq!(ext.register_candidate(signed(1), 0, b"platform"), Ok(()));
    ext.set_block_number(101);
    assert_eq!(ext.vote_in_district_election(signed(2), 0, 1), Ok(()));
    assert_eq!(ext.gov.get_district_election(BelizeDistrict::Belize).unwrap().total_votes, 1);
}

#[test]
fn tests_finalize_district_election_works() {
    let mut ext = new_test_ext();
    assert_eq!(ext.start_district_election(0, 2, 100, 200), Ok(()));
    assert_eq!(ext.register_candidate(signed(1), 0, b"platform"), Ok(()));
    ext.set_block_number(101);
    assert_eq!(ext.vote_in_district_election(signed(2), 0, 1), Ok(()));
    ext.set_block_number(302);
    assert_eq!(ext.finalize_district_election(root(), 0), Ok(()));
    assert_eq!(ext.gov.get_district_election(BelizeDistrict::Belize).unwrap().status, ElectionStatus::Finalized);
}

// ---------------------------------------------------------------------------
// District budgets
// ---------------------------------------------------------------------------

impl Ext {
    fn allocate_district_budget(&mut self, origin: Origin, district: u8, amount: u128, blocks: u32) -> Result<(), Error> {
        self.gov.allocate_district_budget(self.now, origin, district, amount, blocks)
    }

    fn transfer_district_budget(&mut self, origin: Origin, from: u8, to: u8, amount: u128, reason: &[u8]) -> Result<(), Error> {
        self.gov.transfer_district_budget(self.now, origin, from, to, amount, reason.to_vec())
    }
}

#[test]
fn tests_allocate_district_budget_works() {
    let mut ext = new_test_ext();
    assert_eq!(ext.allocate_district_budget(root(), 0, 1_000_000, 1_000), Ok(()));
    let budget = ext.gov.district_budgets.get(&BelizeDistrict::Belize).unwrap();
    assert_eq!(budget.allocated, 1_000_000);
    assert!(budget.is_active);
}

#[test]
fn allocate_district_budget_duplicate_active_fails() {
    let mut ext = new_test_ext();
    assert_eq!(ext.allocate_district_budget(root(), 0, 1_000_000, 100), Ok(()));
    assert_eq!(ext.allocate_district_budget(root(), 0, 500_000, 100), Err(Error::DistrictBudgetAlreadyExists));
}

#[test]
fn tests_transfer_district_budget_works() {
    let mut ext = new_test_ext();
    assert_eq!(ext.allocate_district_budget(root(), 0, 1_000_000, 1_000), Ok(()));
    assert_eq!(ext.transfer_district_budget(root(), 0, 1, 300_000, b"Emergency reallocation to Cayo"), Ok(()));
    assert_eq!(ext.gov.district_budgets.get(&BelizeDistrict::Belize).unwrap().allocated, 700_000);
    assert_eq!(ext.gov.district_budgets.get(&BelizeDistrict::Cayo).unwrap().allocated, 300_000);
}

// ---------------------------------------------------------------------------
// Emergency procedures
// ---------------------------------------------------------------------------

#[test]
fn execute_emergency_proposal_works() {
    let mut ext = new_test_ext();
    ext.declare_and_activate_emergency(0, b"Test hurricane", 24);
    let mut p = proposal_record(
        5,
        ProposalType::Emergency,
        VotingThreshold::Supermajority,
        ProposalStatus::Voting,
        true,
        70,
        30,
        None,
    );
    p.title = b"Emergency Measure".to_vec();
    ext.gov.proposals.insert(5, p);
    assert_eq!(ext.execute_emergency_proposal(root(), 5), Ok(()));
    assert_eq!(ext.proposal(5).status, ProposalStatus::Executed);
}

#[test]
fn fast_track_referendum_works() {
    let mut ext = new_test_ext();
    ext.declare_and_activate_emergency(0, b"Emergency", 24);
    assert_eq!(
        ext.create_referendum(
            signed(1),
            b"Referendum Title",
            b"Should we do X?",
            vec![b"Yes".to_vec(), b"No".to_vec()],
            50,
            10_000,
            None,
        ),
        Ok(())
    );
    assert_eq!(ext.fast_track_referendum(root(), 0), Ok(()));
    let after = ext.gov.referendums.get(&0).unwrap().voting_end;
    assert_eq!(after, ext.now + 10_800);
}

#[test]
fn emergency_override_proposal_works() {
    let mut ext = new_test_ext();
    ext.declare_and_activate_emergency(0, b"Emergency", 24);
    let mut p = proposal_record(
        7,
        ProposalType::Economic,
        VotingThreshold::SimpleMajority,
        ProposalStatus::Pending,
        false,
        0,
        0,
        None,
    );
    p.voting_end = 1_000;
    ext.gov.proposals.insert(7, p);
    let now = ext.now;
    assert_eq!(
        ext.gov.emergency_override_proposal(now, root(), 7, true, b"Force execution during hurricane".to_vec()),
        Ok(())
    );
    assert_eq!(ext.proposal(7).status, ProposalStatus::Executed);
}

// ---------------------------------------------------------------------------
// Commit-reveal voting
// ---------------------------------------------------------------------------

/// The commitment to `choice` under `salt`: the BLAKE2-256 digest of the
/// choice byte followed by the salt.
fn commitment(choice: u8, salt: [u8; 32]) -> [u8; 32] {
    let mut preimage = vec![choice];
    preimage.extend_from_slice(&salt);
    sp_io::hashing::blake2_256(&preimage)
}

impl Ext {
    fn commit_vote(&mut self, origin: Origin, proposal_id: u32, commitment: [u8; 32]) -> Result<(), Error> {
        self.gov.commit_vote(self.now, origin, proposal_id, commitment)
    }

    fn reveal_vote(&mut self, origin: Origin, proposal_id: u32, choice: u8, salt: [u8; 32], conviction: u8) -> Result<(), Error> {
        let who = who_of(origin);
        let balance = self.free_balance(who);
        let cfg = self.cfg;
        self.gov.reveal_vote(&cfg, self.now, origin, balance, proposal_id, choice, salt, conviction)
    }
}

#[test]
fn commit_vote_works() {
    let mut ext = new_test_ext();
    let proposal_id = ext.submit_standard_proposal(1);
    ext.set_block_number(28_801);
    assert_eq!(ext.commit_vote(signed(1), proposal_id, commitment(0, [1u8; 32])), Ok(()));
    assert!(ext.gov.vote_commitments.contains_key(&(proposal_id, 1u64)));
}

#[test]
fn reveal_vote_works() {
    let mut ext = new_test_ext();
    let proposal_id = ext.submit_standard_proposal(1);
    ext.set_block_number(28_801);
    let salt = [2u8; 32];
    assert_eq!(ext.commit_vote(signed(1), proposal_id, commitment(0, salt)), Ok(()));
    assert_eq!(ext.reveal_vote(signed(1), proposal_id, 0, salt, 1), Ok(()));
    assert!(ext.gov.votes.contains_key(&(proposal_id, 1u64)));
    assert!(!ext.gov.vote_commitments.contains_key(&(proposal_id, 1u64)));
}

// ---------------------------------------------------------------------------
// Department proposals: error paths
// ---------------------------------------------------------------------------

#[test]
fn submit_department_proposal_invalid_dept_fails() {
    let mut ext = new_test_ext();
    assert_eq!(
        ext.submit_department_proposal(signed(4), 8, b"title", b"desc", 1, 0, false),
        Err(Error::InvalidDepartment)
    );
}

#[test]
fn submit_department_proposal_no_manager_set_fails() {
    let mut ext = new_test_ext();
    assert_eq!(
        ext.submit_department_proposal(signed(4), 0, b"title", b"desc", 1, 0, false),
        Err(Error::DepartmentNotFound)
    );
}

#[test]
fn submit_department_proposal_invalid_proposal_type_fails() {
    let mut ext = new_test_ext();
    assert_eq!(ext.gov.set_department_manager(root(), 0, 4), Ok(()));
    assert_eq!(
        ext.submit_department_proposal(signed(4), 0, b"title", b"desc", 99, 0, false),
        Err(Error::InvalidProposalType)
    );
}

#[test]
fn submit_department_proposal_invalid_threshold_fails() {
    let mut ext = new_test_ext();
    assert_eq!(ext.gov.set_department_manager(root(), 0, 4), Ok(()));
    assert_eq!(
        ext.submit_department_proposal(signed(4), 0, b"title", b"desc", 1, 99, false),
        Err(Error::InvalidThreshold)
    );
}

#[test]
fn approve_cross_department_dept_not_found_fails() {
    let mut ext = new_test_ext();
    assert_eq!(ext.gov.approve_cross_department(signed(5), 0, 1), Err(Error::DepartmentNotFound));
}

#[test]
fn approve_cross_department_proposal_not_found_fails() {
    let mut ext = new_test_ext();
    assert_eq!(ext.gov.set_department_manager(root(), 1, 5), Ok(()));
    assert_eq!(ext.gov.approve_cross_department(signed(5), 999, 1), Err(Error::ProposalNotFound));
}

#[test]
fn approve_cross_department_no_cross_approval_fails() {
    let mut ext = new_test_ext();
    assert_eq!(ext.gov.set_department_manager(root(), 0, 4), Ok(()));
    assert_eq!(ext.gov.set_department_manager(root(), 1, 5), Ok(()));
    assert_eq!(ext.submit_department_proposal(signed(4), 0, b"t", b"d", 1, 0, false), Ok(()));
    assert_eq!(ext.gov.approve_cross_department(signed(5), 0, 1), Err(Error::CrossApprovalNotRequired));
}

#[test]
fn approve_cross_department_already_approved_fails() {
    let mut ext = new_test_ext();
    assert_eq!(ext.gov.set_department_manager(root(), 0, 4), Ok(()));
    assert_eq!(ext.gov.set_department_manager(root(), 1, 5), Ok(()));
    assert_eq!(ext.submit_department_proposal(signed(4), 0, b"t", b"d", 1, 0, true), Ok(()));
    assert_eq!(ext.gov.approve_cross_department(signed(5), 0, 1), Ok(()));
    assert_eq!(ext.gov.approve_cross_department(signed(5), 0, 1), Err(Error::DepartmentAlreadyApproved));
}

// ---------------------------------------------------------------------------
// execute_proposal: error paths
// ---------------------------------------------------------------------------

#[test]
fn execute_proposal_not_council_member_fails() {
    let mut ext = new_test_ext();
    assert_eq!(ext.execute_proposal(signed(4), 0), Err(Error::NotCouncilMember));
}

#[test]
fn execute_proposal_not_found_fails() {
    let mut ext = new_test_ext();
    assert_eq!(ext.execute_proposal(signed(1), 999), Err(Error::ProposalNotFound));
}

#[test]
fn tests_execute_proposal_not_approved_fails() {
    let mut ext = new_test_ext();
    let p = proposal_record(0, ProposalType::Economic, VotingThreshold::SimpleMajority, ProposalStatus::Pending, false, 0, 0, None);
    ext.gov.proposals.insert(0, p);
    assert_eq!(ext.execute_proposal(signed(1), 0), Err(Error::ProposalNotApproved));
}

#[test]
fn execute_proposal_no_action_defined_fails() {
    let mut ext = new_test_ext();
    let p = proposal_record(0, ProposalType::Economic, VotingThreshold::SimpleMajority, ProposalStatus::Approved, false, 100, 0, None);
    ext.gov.proposals.insert(0, p);
    assert_eq!(ext.execute_proposal(signed(1), 0), Err(Error::NoActionDefined));
}

#[test]
fn tests_execute_proposal_already_executed_fails() {
    let mut ext = new_test_ext();
    let mut p = proposal_record(0, ProposalType::Economic, VotingThreshold::SimpleMajority, ProposalStatus::Executed, false, 100, 0, None);
    p.executed_at = Some(1);
    ext.gov.proposals.insert(0, p);
    assert_eq!(ext.execute_proposal(signed(1), 0), Err(Error::AlreadyExecuted));
}

// ---------------------------------------------------------------------------
// District elections: error paths
// ---------------------------------------------------------------------------

#[test]
fn start_district_election_invalid_district_fails() {
    let mut ext = new_test_ext();
    assert_eq!(ext.start_district_election(6, 2, 100, 200), Err(Error::InvalidDistrict));
}

#[test]
fn register_candidate_past_registration_fails() {
    let mut ext = new_test_ext();
    assert_eq!(ext.start_district_election(0, 2, 100, 200), Ok(()));
    ext.set_block_number(105);
    assert_eq!(ext.register_candidate(signed(1), 0, b"platform"), Err(Error::NotInRegistrationPhase));
}

#[test]
fn register_candidate_duplicate_fails() {
    let mut ext = new_test_ext();
    assert_eq!(ext.start_district_election(0, 2, 100, 200), Ok(()));
    assert_eq!(ext.register_candidate(signed(1), 0, b"platform"), Ok(()));
    assert_eq!(ext.register_candidate(signed(1), 0, b"platform2"), Err(Error::CandidateAlreadyRegistered));
}

#[test]
fn vote_in_district_election_registration_phase_fails() {
    let mut ext = new_test_ext();
    assert_eq!(ext.start_district_election(0, 2, 100, 200), Ok(()));
    assert_eq!(ext.vote_in_district_election(signed(2), 0, 1), Err(Error::NotInVotingPhase));
}

#[test]
fn finalize_district_election_too_early_fails() {
    let mut ext = new_test_ext();
    assert_eq!(ext.start_district_election(0, 2, 100, 200), Ok(()));
    assert_eq!(ext.finalize_district_election(root(), 0), Err(Error::VotingPeriodNotEnded));
}

#[test]
fn finalize_district_election_no_candidates_fails() {
    let mut ext = new_test_ext();
    assert_eq!(ext.start_district_election(0, 2, 100, 200), Ok(()));
    ext.set_block_number(302);
    assert_eq!(ext.finalize_district_election(root(), 0), Err(Error::InsufficientCandidates));
}

// ---------------------------------------------------------------------------
// Commit-reveal: error paths
// ---------------------------------------------------------------------------

#[test]
fn commit_vote_before_voting_start_fails() {
    let mut ext = new_test_ext();
    let proposal_id = ext.submit_standard_proposal(1);
    assert_eq!(ext.commit_vote(signed(1), proposal_id, [0u8; 32]), Err(Error::VotingPeriodNotStarted));
}

#[test]
fn commit_vote_already_committed_fails() {
    let mut ext = new_test_ext();
    let proposal_id = ext.submit_standard_proposal(1);
    ext.set_block_number(28_801);
    assert_eq!(ext.commit_vote(signed(1), proposal_id, [1u8; 32]), Ok(()));
    assert_eq!(ext.commit_vote(signed(1), proposal_id, [1u8; 32]), Err(Error::VoteAlreadyCommitted));
}

#[test]
fn reveal_vote_no_commitment_fails() {
    let mut ext = new_test_ext();
    let proposal_id = ext.submit_standard_proposal(1);
    ext.set_block_number(28_801);
    assert_eq!(ext.reveal_vote(signed(1), proposal_id, 0, [0u8; 32], 1), Err(Error::NoCommitmentFound));
}

#[test]
fn reveal_vote_wrong_hash_fails() {
    let mut ext = new_test_ext();
    let proposal_id = ext.submit_standard_proposal(1);
    ext.set_block_number(28_801);
    assert_eq!(ext.commit_vote(signed(1), proposal_id, commitment(0, [3u8; 32])), Ok(()));
    assert_eq!(ext.reveal_vote(signed(1), proposal_id, 0, [9u8; 32], 1), Err(Error::CommitmentHashMismatch));
}

// ---------------------------------------------------------------------------
// Runtime upgrades: error paths
// ---------------------------------------------------------------------------

#[test]
fn apply_pending_runtime_upgrade_no_pending_fails() {
    let mut ext = new_test_ext();
    assert_eq!(
        ext.gov.apply_pending_runtime_upgrade(root(), &b"some_code".to_vec(), true),
        Err(Error::RuntimeUpgradeNotPending)
    );
}

#[test]
fn apply_pending_runtime_upgrade_hash_mismatch_fails() {
    let mut ext = new_test_ext();
    ext.gov.pending_runtime_upgrade = Some([1u8; 32]);
    assert_eq!(
        ext.gov.apply_pending_runtime_upgrade(root(), &b"wrong_code".to_vec(), true),
        Err(Error::RuntimeCodeHashMismatch)
    );
}

// ---------------------------------------------------------------------------
// District budgets: error paths
// ---------------------------------------------------------------------------

#[test]
fn allocate_district_budget_zero_fiscal_year_fails() {
    let mut ext = new_test_ext();
    assert_eq!(ext.allocate_district_budget(root(), 0, 1_000_000, 0), Err(Error::InvalidFiscalYearPeriod));
}

#[test]
fn transfer_district_budget_no_source_fails() {
    let mut ext = new_test_ext();
    assert_eq!(ext.transfer_district_budget(root(), 0, 1, 100, b"realloc"), Err(Error::DistrictBudgetNotFound));
}

#[test]
fn transfer_district_budget_insufficient_fails() {
    let mut ext = new_test_ext();
    assert_eq!(ext.allocate_district_budget(root(), 0, 100, 1000), Ok(()));
    assert_eq!(ext.transfer_district_budget(root(), 0, 1, 200, b"too much"), Err(Error::TransferExceedsSourceBudget));
}

// ---------------------------------------------------------------------------
// Participation rewards
// ---------------------------------------------------------------------------

#[test]
fn claim_participation_reward_vote_type_works() {
    let mut ext = new_test_ext();
    let proposal_id = ext.submit_standard_proposal(1);
    ext.set_block_number(28_801);
    assert_eq!(ext.cast_vote(signed(4), proposal_id, 0, 1), Ok(()));
    let reward: u128 = 10_000_000_000_000;
    ext.set_balance(treasury(), reward + 1_000);
    let before = ext.free_balance(4);
    assert_eq!(ext.claim_participation_reward(signed(4), 0), Ok(()));
    assert_eq!(ext.free_balance(4), before + reward);
}

#[test]
fn claim_participation_reward_proposal_type_works() {
    let mut ext = new_test_ext();
    ext.submit_standard_proposal(4);
    let reward: u128 = 100_000_000_000_000;
    ext.set_balance(treasury(), reward + 1_000);
    let before = ext.free_balance(4);
    assert_eq!(ext.claim_participation_reward(signed(4), 1), Ok(()));
    assert_eq!(ext.free_balance(4), before + reward);
}

// ---------------------------------------------------------------------------
// Delegate elections: error paths
// ---------------------------------------------------------------------------

#[test]
fn nominate_for_delegate_non_compliant_nominee_fails() {
    let mut ext = new_test_ext();
    ext.gov.current_election = Some(1);
    assert_eq!(ext.nominate_for_delegate(signed(1), 999), Err(Error::InsufficientCompliance));
}

#[test]
fn tests_vote_for_delegate_nominee_not_found_fails() {
    let mut ext = new_test_ext();
    ext.gov.current_election = Some(1);
    assert_eq!(ext.vote_for_delegate(signed(2), 4), Err(Error::NomineeNotFound));
}

#[test]
fn vote_for_delegate_already_voted_fails() {
    let mut ext = new_test_ext();
    ext.gov.current_election = Some(1);
    assert_eq!(ext.nominate_for_delegate(signed(1), 4), Ok(()));
    assert_eq!(ext.vote_for_delegate(signed(2), 4), Ok(()));
    assert_eq!(ext.vote_for_delegate(signed(2), 4), Err(Error::AlreadyVotedInElection));
}

// ---------------------------------------------------------------------------
// execute_proposal: every kind of action
// ---------------------------------------------------------------------------

#[test]
fn execute_proposal_treasury_spend_works() {
    let mut ext = new_test_ext();
    ext.set_balance(treasury(), 10_000_000_000);
    let before = ext.free_balance(5);
    ext.gov.proposals.insert(0, approved_with(0, ProposalAction::TreasurySpend { recipient: 5, amount: 1_000 }));
    assert_eq!(ext.execute_proposal(signed(1), 0), Ok(()));
    assert!(ext.free_balance(5) > before);
    assert_eq!(ext.proposal(0).status, ProposalStatus::Executed);
}

#[test]
fn execute_proposal_treasury_spend_insufficient_balance_fails() {
    let mut ext = new_test_ext();
    ext.gov.proposals.insert(
        0,
        approved_with(0, ProposalAction::TreasurySpend { recipient: 5, amount: 999_999_999_999 }),
    );
    assert_eq!(ext.execute_proposal(signed(1), 0), Err(Error::InsufficientTreasuryBalance));
}

#[test]
fn execute_proposal_runtime_upgrade_works() {
    let mut ext = new_test_ext();
    let mut p = approved_with(0, ProposalAction::RuntimeUpgrade { code_hash: [2u8; 32].to_vec() });
    p.proposal_type = ProposalType::Technical;
    p.threshold = VotingThreshold::Supermajority;
    ext.gov.proposals.insert(0, p);
    assert_eq!(ext.execute_proposal(signed(1), 0), Ok(()));
    assert_eq!(ext.gov.pending_runtime_upgrade, Some([2u8; 32]));
}

#[test]
fn execute_proposal_runtime_upgrade_bad_hash_size_fails() {
    let mut ext = new_test_ext();
    let mut p = approved_with(0, ProposalAction::RuntimeUpgrade { code_hash: [9u8; 16].to_vec() });
    p.proposal_type = ProposalType::Technical;
    ext.gov.proposals.insert(0, p);
    assert_eq!(ext.execute_proposal(signed(1), 0), Err(Error::RuntimeCodeTooLarge));
}

#[test]
fn execute_proposal_department_action_noop_works() {
    let mut ext = new_test_ext();
    let call_data = 2u8.encode();
    let mut p = approved_with(0, ProposalAction::DepartmentAction { department: Department::Finance, call_data });
    p.department = Some(Department::Finance);
    ext.gov.proposals.insert(0, p);
    assert_eq!(ext.execute_proposal(signed(1), 0), Ok(()));
}

#[test]
fn execute_proposal_department_action_update_policy_works() {
    let mut ext = new_test_ext();
    let call_data = (1u8, b"max_budget".to_vec(), b"1000000".to_vec()).encode();
    let mut p = approved_with(0, ProposalAction::DepartmentAction { department: Department::Education, call_data });
    p.department = Some(Department::Education);
    ext.gov.proposals.insert(0, p);
    assert_eq!(ext.execute_proposal(signed(1), 0), Ok(()));
    assert_eq!(
        ext.gov.department_policies.get(&(Department::Education, b"max_budget".to_vec())),
        Some(&b"1000000".to_vec())
    );
}

#[test]
fn execute_proposal_department_action_spend_budget_works() {
    let mut ext = new_test_ext();
    ext.set_balance(treasury(), 10_000_000_000);
    let call_data = (0u8, 5u64, 500u128).encode();
    let mut p = approved_with(0, ProposalAction::DepartmentAction { department: Department::Finance, call_data });
    p.department = Some(Department::Finance);
    ext.gov.proposals.insert(0, p);
    let before = ext.free_balance(5);
    assert_eq!(ext.execute_proposal(signed(1), 0), Ok(()));
    assert_eq!(ext.free_balance(5), before + 500);
}

#[test]
fn execute_proposal_department_action_invalid_call_data_fails() {
    let mut ext = new_test_ext();
    let call_data = vec![0xFF, 0xFF, 0xFF, 0xFF];
    let mut p = approved_with(0, ProposalAction::DepartmentAction { department: Department::Finance, call_data });
    p.department = Some(Department::Finance);
    ext.gov.proposals.insert(0, p);
    assert_eq!(ext.execute_proposal(signed(1), 0), Err(Error::InvalidCallData));
}

fn emergency_action_proposal(id: u32, action_type: EmergencyActionType) -> Proposal {
    proposal_record(
        id,
        ProposalType::Emergency,
        VotingThreshold::Supermajority,
        ProposalStatus::Approved,
        true,
        100,
        0,
        Some(ProposalAction::EmergencyAction { action_type }),
    )
}

#[test]
fn execute_proposal_emergency_activate_works() {
    let mut ext = new_test_ext();
    ext.gov.proposals.insert(0, emergency_action_proposal(0, EmergencyActionType::ActivateEmergency));
    assert_eq!(ext.execute_proposal(signed(1), 0), Ok(()));
    assert!(ext.gov.emergency_status().is_some());
}

#[test]
fn execute_proposal_emergency_deactivate_works() {
    let mut ext = new_test_ext();
    assert_eq!(ext.declare_emergency(root(), 0, b"test", 24), Ok(()));
    assert!(ext.gov.emergency_status().is_some());
    ext.gov.proposals.insert(0, emergency_action_proposal(0, EmergencyActionType::DeactivateEmergency));
    assert_eq!(ext.execute_proposal(signed(1), 0), Ok(()));
    assert!(ext.gov.emergency_status().is_none());
}

#[test]
fn execute_proposal_emergency_freeze_account_works() {
    let mut ext = new_test_ext();
    ext.gov.proposals.insert(0, emergency_action_proposal(0, EmergencyActionType::FreezeAccount));
    assert_eq!(ext.execute_proposal(signed(1), 0), Ok(()));
}

#[test]
fn execute_proposal_emergency_halt_and_resume_works() {
    let mut ext = new_test_ext();
    ext.gov.proposals.insert(0, emergency_action_proposal(0, EmergencyActionType::HaltGovernance));
    assert_eq!(ext.execute_proposal(signed(1), 0), Ok(()));
    ext.gov.proposals.insert(1, emergency_action_proposal(1, EmergencyActionType::ResumeGovernance));
    assert_eq!(ext.execute_proposal(signed(1), 1), Ok(()));
    ext.gov.proposals.insert(2, emergency_action_proposal(2, EmergencyActionType::UnfreezeAccount));
    assert_eq!(ext.execute_proposal(signed(1), 2), Ok(()));
}

#[test]
fn execute_proposal_parameter_change_invalid_value_fails() {
    let mut ext = new_test_ext();
    ext.gov.proposals.insert(
        0,
        approved_with(0, ProposalAction::ParameterChange { parameter: GovernanceParameter::VotingPeriod, new_value: 100 }),
    );
    assert_eq!(ext.execute_proposal(signed(1), 0), Err(Error::InvalidParameterValue));
}

#[test]
fn execute_proposal_all_parameter_types_work() {
    let mut ext = new_test_ext();
    let cases = [
        (GovernanceParameter::LaunchPeriod, 3600u32),
        (GovernanceParameter::MinimumDeposit, 500),
        (GovernanceParameter::SupermajorityThreshold, 66),
        (GovernanceParameter::CouncilSize, 10),
        (GovernanceParameter::EmergencyTimeout, 7200),
    ];
    for (i, (parameter, new_value)) in cases.iter().enumerate() {
        let id = i as u32;
        ext.gov.proposals.insert(
            id,
            approved_with(id, ProposalAction::ParameterChange { parameter: *parameter, new_value: *new_value }),
        );
        assert_eq!(ext.execute_proposal(signed(1), id), Ok(()));
        assert_eq!(ext.gov.get_parameter(*parameter), *new_value);
    }
}

#[test]
fn cast_vote_invalid_choice_index_fails() {
    let mut ext = new_test_ext();
    let id = ext.submit_standard_proposal(1);
    ext.run_to_block(28_801);
    assert_eq!(ext.cast_vote(signed(2), id, 3, 0), Err(Error::InvalidThreshold));
}

#[test]
fn start_district_election_all_districts_work() {
    let mut ext = new_test_ext();
    assert_eq!(ext.start_district_election(1, 2, 50, 100), Ok(()));
    assert_eq!(ext.start_district_election(2, 1, 50, 100), Ok(()));
    assert_eq!(ext.start_district_election(3, 2, 50, 100), Ok(()));
    assert_eq!(ext.start_district_election(4, 2, 50, 100), Ok(()));
    assert_eq!(ext.start_district_election(5, 2, 50, 100), Ok(()));
}

#[test]
fn start_district_election_too_many_seats_fails() {
    let mut ext = new_test_ext();
    assert_eq!(ext.start_district_election(2, 5, 50, 100), Err(Error::InvalidDistrict));
}

// ---------------------------------------------------------------------------
// Enum methods and helpers
// ---------------------------------------------------------------------------

#[test]
fn tests_department_enum_methods_work() {
    assert_eq!(Department::Finance.name(), "Finance");
    assert_eq!(Department::Education.name(), "Education");
    assert_eq!(Department::Health.name(), "Health");
    assert_eq!(Department::Works.name(), "Public Works");
    assert_eq!(Department::Justice.name(), "Justice");
    assert_eq!(Department::Tourism.name(), "Tourism");
    assert_eq!(Department::Agriculture.name(), "Agriculture");
    assert_eq!(Department::Defense.name(), "Defense");
    assert_eq!(Department::Finance.prefix(), "gov.finance");
    assert_eq!(Department::Education.prefix(), "gov.education");
    assert_eq!(Department::Health.prefix(), "gov.health");
    assert_eq!(Department::Works.prefix(), "gov.works");
    assert_eq!(Department::Justice.prefix(), "gov.justice");
    assert_eq!(Department::Tourism.prefix(), "gov.tourism");
    assert_eq!(Department::Agriculture.prefix(), "gov.agriculture");
    assert_eq!(Department::Defense.prefix(), "gov.defense");
}

#[test]
fn board_role_enum_methods_work() {
    assert_eq!(BoardRole::Founder.name(), "Founder");
    assert_eq!(BoardRole::TechnicalSteward.name(), "Technical Steward");
    assert_eq!(BoardRole::FSCRepresentative.name(), "FSC Representative");
    assert_eq!(BoardRole::BTBDelegate.name(), "BTB Delegate");
    assert_eq!(BoardRole::CitizenDelegate.name(), "Citizen Delegate");
    assert_eq!(BoardRole::SecurityAuditor.name(), "Security Auditor");
    assert_eq!(BoardRole::CultureEthicsAdvisor.name(), "Culture & Ethics Advisor");
    assert!(BoardRole::Founder.is_rotating());
    assert!(BoardRole::TechnicalSteward.is_rotating());
    assert!(BoardRole::FSCRepresentative.is_rotating());
    assert!(BoardRole::BTBDelegate.is_rotating());
    assert!(BoardRole::CitizenDelegate.is_rotating());
    assert!(BoardRole::SecurityAuditor.is_rotating());
    assert!(BoardRole::CultureEthicsAdvisor.is_rotating());
    assert_eq!(BoardRole::Founder.max_count(), 1);
    assert_eq!(BoardRole::TechnicalSteward.max_count(), 2);
    assert_eq!(BoardRole::FSCRepresentative.max_count(), 1);
    assert_eq!(BoardRole::BTBDelegate.max_count(), 1);
    assert_eq!(BoardRole::CitizenDelegate.max_count(), 3);
    assert_eq!(BoardRole::SecurityAuditor.max_count(), 2);
    assert_eq!(BoardRole::CultureEthicsAdvisor.max_count(), 1);
}

#[test]
fn belize_district_enum_methods_work() {
    assert_eq!(BelizeDistrict::Belize.seat_allocation(), 3);
    assert_eq!(BelizeDistrict::Cayo.seat_allocation(), 2);
    assert_eq!(BelizeDistrict::Corozal.seat_allocation(), 1);
    assert_eq!(BelizeDistrict::OrangeWalk.seat_allocation(), 2);
    assert_eq!(BelizeDistrict::StannCreek.seat_allocation(), 2);
    assert_eq!(BelizeDistrict::Toledo.seat_allocation(), 2);
    assert_eq!(BelizeDistrict::Belize.to_index(), 0);
    assert_eq!(BelizeDistrict::Cayo.to_index(), 1);
    assert_eq!(BelizeDistrict::Corozal.to_index(), 2);
    assert_eq!(BelizeDistrict::OrangeWalk.to_index(), 3);
    assert_eq!(BelizeDistrict::StannCreek.to_index(), 4);
    assert_eq!(BelizeDistrict::Toledo.to_index(), 5);
    assert_eq!(BelizeDistrict::from_index(0), Some(BelizeDistrict::Belize));
    assert_eq!(BelizeDistrict::from_index(1), Some(BelizeDistrict::Cayo));
    assert_eq!(BelizeDistrict::from_index(2), Some(BelizeDistrict::Corozal));
    assert_eq!(BelizeDistrict::from_index(3), Some(BelizeDistrict::OrangeWalk));
    assert_eq!(BelizeDistrict::from_index(4), Some(BelizeDistrict::StannCreek));
    assert_eq!(BelizeDistrict::from_index(5), Some(BelizeDistrict::Toledo));
    assert_eq!(BelizeDistrict::from_index(6), None);
}

#[test]
fn helper_index_functions_work() {
    assert_eq!(Pallet::department_index(Department::Finance), 0);
    assert_eq!(Pallet::department_index(Department::Education), 1);
    assert_eq!(Pallet::department_index(Department::Health), 2);
    assert_eq!(Pallet::department_index(Department::Works), 3);
    assert_eq!(Pallet::department_index(Department::Justice), 4);
    assert_eq!(Pallet::department_index(Department::Tourism), 5);
    assert_eq!(Pallet::department_index(Department::Agriculture), 6);
    assert_eq!(Pallet::department_index(Department::Defense), 7);
    assert_eq!(Pallet::district_index(BelizeDistrict::Belize), 0);
    assert_eq!(Pallet::district_index(BelizeDistrict::Cayo), 1);
    assert_eq!(Pallet::district_index(BelizeDistrict::Corozal), 2);
    assert_eq!(Pallet::district_index(BelizeDistrict::OrangeWalk), 3);
    assert_eq!(Pallet::district_index(BelizeDistrict::StannCreek), 4);
    assert_eq!(Pallet::district_index(BelizeDistrict::Toledo), 5);
    assert_eq!(Pallet::governance_parameter_index(GovernanceParameter::VotingPeriod), 0);
    assert_eq!(Pallet::governance_parameter_index(GovernanceParameter::LaunchPeriod), 1);
    assert_eq!(Pallet::governance_parameter_index(GovernanceParameter::MinimumDeposit), 2);
    assert_eq!(Pallet::governance_parameter_index(GovernanceParameter::SupermajorityThreshold), 3);
    assert_eq!(Pallet::governance_parameter_index(GovernanceParameter::CouncilSize), 4);
    assert_eq!(Pallet::governance_parameter_index(GovernanceParameter::EmergencyTimeout), 5);
    assert_eq!(Pallet::emergency_action_type_index(EmergencyActionType::ActivateEmergency), 0);
    assert_eq!(Pallet::emergency_action_type_index(EmergencyActionType::DeactivateEmergency), 1);
    assert_eq!(Pallet::emergency_action_type_index(EmergencyActionType::FreezeAccount), 2);
    assert_eq!(Pallet::emergency_action_type_index(EmergencyActionType::UnfreezeAccount), 3);
    assert_eq!(Pallet::emergency_action_type_index(EmergencyActionType::HaltGovernance), 4);
    assert_eq!(Pallet::emergency_action_type_index(EmergencyActionType::ResumeGovernance), 5);
    assert_eq!(Pallet::election_status_index(ElectionStatus::Registration), 0);
    assert_eq!(Pallet::election_status_index(ElectionStatus::Voting), 1);
    assert_eq!(Pallet::election_status_index(ElectionStatus::Finalized), 2);
    assert_eq!(Pallet::election_status_index(ElectionStatus::Cancelled), 3);
    assert_eq!(Pallet::get_action_type_index(&ProposalAction::TreasurySpend { recipient: 1, amount: 0 }), 0);
    assert_eq!(Pallet::get_action_type_index(&ProposalAction::RuntimeUpgrade { code_hash: vec![0u8; 32] }), 1);
    assert_eq!(
        Pallet::get_action_type_index(&ProposalAction::ParameterChange {
            parameter: GovernanceParameter::VotingPeriod,
            new_value: 0,
        }),
        2
    );
    assert_eq!(
        Pallet::get_action_type_index(&ProposalAction::DepartmentAction { department: Department::Finance, call_data: vec![] }),
        3
    );
    assert_eq!(
        Pallet::get_action_type_index(&ProposalAction::EmergencyAction {
            action_type: EmergencyActionType::ActivateEmergency,
        }),
        4
    );
}

#[test]
fn helper_getter_functions_work() {
    let ext = new_test_ext();
    assert_ne!(Pallet::account_id(), 0u64);
    assert!(ext.gov.get_parameter(GovernanceParameter::VotingPeriod) > 0);
    assert_eq!(ext.gov.department_treasury_balance(Department::Finance), 0);
    assert_eq!(ext.gov.council_size(&ext.cfg), 3);
    assert_eq!(ext.gov.board_composition(BoardRole::Founder), 0);
    assert_eq!(ext.gov.delegate_nominees(42), 0);
    assert!(ext.gov.current_election().is_none());
    assert!(!ext.gov.has_voted_in_election(1, 42));
    assert!(ext.gov.get_district_election(BelizeDistrict::Belize).is_none());
    assert!(ext.gov.get_district_representatives(BelizeDistrict::Belize).is_empty());
    assert!(!ext.gov.has_voted_in_district_election(1, 42));
    assert!(ext.gov.get_priority_queue(ProposalPriority::Low).is_empty());
    assert!(ext.gov.get_priority_queue(ProposalPriority::Normal).is_empty());
    assert!(ext.gov.get_priority_queue(ProposalPriority::High).is_empty());
    assert!(ext.gov.get_priority_queue(ProposalPriority::Critical).is_empty());
    assert_eq!(ext.gov.get_rewards_claimed(42), 0);
    assert_eq!(ext.gov.get_total_rewards_distributed(), 0);
    assert_eq!(Pallet::proposal_priority_index(ProposalPriority::Low), 1);
    assert_eq!(Pallet::proposal_priority_index(ProposalPriority::Normal), 2);
    assert_eq!(Pallet::proposal_priority_index(ProposalPriority::High), 3);
    assert_eq!(Pallet::proposal_priority_index(ProposalPriority::Critical), 4);
}

#[test]
fn helper_delegation_functions_work() {
    let mut ext = new_test_ext();
    let now = ext.now;
    assert_eq!(ext.gov.count_delegated_votes(1), 0);
    assert!(!ext.gov.is_delegation_active(1, now));
    assert!(ext.gov.get_delegation_info(1).is_none());
    assert_eq!(ext.delegate_vote(signed(4), 1, Some(1_000_000)), Ok(()));
    assert_eq!(ext.gov.count_delegated_votes(1), 1);
    assert!(ext.gov.is_delegation_active(4, now));
    assert!(ext.gov.get_delegation_info(4).is_some());
    assert_eq!(ext.gov.calculate_voting_power(1, now), 2);
}

#[test]
fn helper_is_delegation_active_expired_works() {
    let mut ext = new_test_ext();
    assert_eq!(ext.delegate_vote(signed(4), 1, Some(5)), Ok(()));
    ext.run_to_block(10);
    assert!(!ext.gov.is_delegation_active(4, ext.now));
}

#[test]
fn helper_proposal_amendment_functions_work() {
    let mut ext = new_test_ext();
    assert!(ext.gov.get_proposal_amendment(0).is_none());
    assert!(!ext.gov.is_amendment_allowed(99, ext.now));
    let mut p = proposal_record(0, ProposalType::Economic, VotingThreshold::SimpleMajority, ProposalStatus::Pending, false, 0, 0, None);
    p.voting_start = 100;
    ext.gov.proposals.insert(0, p);
    assert!(ext.gov.is_amendment_allowed(0, ext.now));
    ext.run_to_block(101);
    assert!(!ext.gov.is_amendment_allowed(0, ext.now));
}

#[test]
fn helper_allocate_to_department_works() {
    let mut ext = new_test_ext();
    assert_eq!(ext.gov.department_treasury_balance(Department::Education), 0);
    assert_eq!(ext.gov.allocate_to_department(Department::Education, 5_000, 0), Ok(()));
    assert_eq!(ext.gov.department_treasury_balance(Department::Education), 5_000);
}

#[test]
fn helper_get_election_candidate_works() {
    let mut ext = new_test_ext();
    assert_eq!(ext.start_district_election(0, 2, 100, 200), Ok(()));
    assert_eq!(ext.register_candidate(signed(4), 0, b"Platform for Belize City"), Ok(()));
    assert!(ext.gov.get_election_candidate(1, 4).is_some());
}

#[test]
fn propose_treasury_spend_large_amounts_work() {
    let mut ext = new_test_ext();
    assert_eq!(ext.propose_treasury_spend(signed(1), 5, 50_000_000_000_000, b"medium spend", None), Ok(()));
    assert_eq!(ext.propose_treasury_spend(signed(1), 5, 200_000_000_000_000, b"large spend", None), Ok(()));
    assert_eq!(ext.gov.treasury_spend_proposals.get(&0).unwrap().threshold, 3);
    assert_eq!(ext.gov.treasury_spend_proposals.get(&1).unwrap().threshold, 4);
}

#[test]
fn propose_treasury_spend_invalid_district_fails() {
    let mut ext = new_test_ext();
    assert_eq!(ext.propose_treasury_spend(signed(1), 5, 1_000, b"d", Some(99)), Err(Error::InvalidDistrict));
}

#[test]
fn propose_treasury_spend_description_too_long_fails() {
    let mut ext = new_test_ext();
    let long_desc = vec![b'x'; 513];
    assert_eq!(
        ext.propose_treasury_spend(signed(1), 5, 1_000, &long_desc, None),
        Err(Error::TreasuryDescriptionTooLong)
    );
}

// ---------------------------------------------------------------------------
// Departments
// ---------------------------------------------------------------------------

#[test]
fn tests_phase3_set_department_manager_works() {
    let mut ext = new_test_ext();
    assert_eq!(ext.gov.set_department_manager(root(), 0, 10), Ok(()));
    assert_eq!(ext.gov.department_managers(Department::Finance), Some(10));
    assert_eq!(*ext.last_event(), Event::DepartmentManagerSet { department_index: 0, manager: 10 });
}

#[test]
fn tests_phase3_set_department_manager_requires_root() {
    let mut ext = new_test_ext();
    assert_eq!(ext.gov.set_department_manager(signed(1), 0, 10), Err(Error::BadOrigin));
}

#[test]
fn set_department_manager_invalid_department_fails() {
    let mut ext = new_test_ext();
    assert_eq!(ext.gov.set_department_manager(root(), 99, 10), Err(Error::InvalidDepartment));
}

#[test]
fn tests_phase3_submit_department_proposal_works() {
    let mut ext = new_test_ext();
    assert_eq!(ext.gov.set_department_manager(root(), 1, 1), Ok(()));
    assert_eq!(
        ext.submit_department_proposal(
            signed(1),
            1,
            b"Student Stipend Program",
            b"Monthly 50 DALLA stipends for verified students",
            1,
            0,
            false,
        ),
        Ok(())
    );
    let proposal = ext.proposal(0);
    assert_eq!(proposal.proposer, 1);
    assert_eq!(proposal.department, Some(Department::Education));
    assert!(!proposal.requires_cross_approval);
    assert_eq!(ext.gov.department_proposal_count(Department::Education), 1);
    assert_eq!(
        *ext.last_event(),
        Event::DepartmentProposalSubmitted { proposal_id: 0, department_index: 1, proposer: 1 }
    );
}

#[test]
fn submit_department_proposal_requires_manager() {
    let mut ext = new_test_ext();
    assert_eq!(ext.gov.set_department_manager(root(), 0, 1), Ok(()));
    assert_eq!(
        ext.submit_department_proposal(signed(2), 0, b"Budget Proposal", b"Test", 1, 0, false),
        Err(Error::NotDepartmentManager)
    );
}

#[test]
fn submit_department_proposal_uninitialized_department_fails() {
    let mut ext = new_test_ext();
    assert_eq!(
        ext.submit_department_proposal(signed(1), 2, b"Health Proposal", b"Test", 1, 0, false),
        Err(Error::DepartmentNotFound)
    );
}

#[test]
fn submit_department_proposal_with_cross_approval() {
    let mut ext = new_test_ext();
    assert_eq!(ext.gov.set_department_manager(root(), 1, 1), Ok(()));
    assert_eq!(
        ext.submit_department_proposal(
            signed(1),
            1,
            b"Large Equipment Purchase",
            b"Requires Finance approval for 100k DALLA",
            1,
            1,
            true,
        ),
        Ok(())
    );
    let proposal = ext.proposal(0);
    assert!(proposal.requires_cross_approval);
    assert_eq!(proposal.cross_approved_by.len(), 0);
}

#[test]
fn tests_phase3_approve_cross_department_works() {
    let mut ext = new_test_ext();
    assert_eq!(ext.gov.set_department_manager(root(), 1, 1), Ok(()));
    assert_eq!(ext.gov.set_department_manager(root(), 0, 2), Ok(()));
    assert_eq!(
        ext.submit_department_proposal(signed(1), 1, b"Cross-dept Proposal", b"Needs Finance approval", 1, 0, true),
        Ok(())
    );
    assert_eq!(ext.gov.approve_cross_department(signed(2), 0, 0), Ok(()));
    assert_eq!(ext.gov.cross_department_approvals.get(&(0u32, Department::Finance)), Some(&true));
    let proposal = ext.proposal(0);
    assert_eq!(proposal.cross_approved_by.len(), 1);
    assert_eq!(proposal.cross_approved_by[0], Department::Finance);
    assert!(matches!(
        ext.events().last(),
        Some(Event::CrossDepartmentApproved { proposal_id: 0, department_index: 0, approver: 2 })
    ));
}

#[test]
fn approve_cross_department_requires_manager() {
    let mut ext = new_test_ext();
    assert_eq!(ext.gov.set_department_manager(root(), 1, 1), Ok(()));
    assert_eq!(ext.gov.set_department_manager(root(), 0, 2), Ok(()));
    assert_eq!(ext.submit_department_proposal(signed(1), 1, b"Test", b"Test", 1, 0, true), Ok(()));
    assert_eq!(ext.gov.approve_cross_department(signed(3), 0, 0), Err(Error::NotDepartmentManager));
}

#[test]
fn approve_cross_department_no_approval_required_fails() {
    let mut ext = new_test_ext();
    assert_eq!(ext.gov.set_department_manager(root(), 1, 1), Ok(()));
    assert_eq!(ext.gov.set_department_manager(root(), 0, 2), Ok(()));
    assert_eq!(ext.submit_department_proposal(signed(1), 1, b"Test", b"Test", 1, 0, false), Ok(()));
    assert_eq!(ext.gov.approve_cross_department(signed(2), 0, 0), Err(Error::CrossApprovalNotRequired));
}

#[test]
fn approve_cross_department_twice_fails() {
    let mut ext = new_test_ext();
    assert_eq!(ext.gov.set_department_manager(root(), 1, 1), Ok(()));
    assert_eq!(ext.gov.set_department_manager(root(), 0, 2), Ok(()));
    assert_eq!(ext.submit_department_proposal(signed(1), 1, b"Test", b"Test", 1, 0, true), Ok(()));
    assert_eq!(ext.gov.approve_cross_department(signed(2), 0, 0), Ok(()));
    assert_eq!(ext.gov.approve_cross_department(signed(2), 0, 0), Err(Error::DepartmentAlreadyApproved));
}

#[test]
fn multiple_departments_can_approve() {
    let mut ext = new_test_ext();
    assert_eq!(ext.gov.set_department_manager(root(), 1, 1), Ok(()));
    assert_eq!(ext.gov.set_department_manager(root(), 0, 2), Ok(()));
    assert_eq!(ext.gov.set_department_manager(root(), 2, 3), Ok(()));
    assert_eq!(
        ext.submit_department_proposal(
            signed(1),
            1,
            b"Major Initiative",
            b"Requires multiple department approvals",
            1,
            1,
            true,
        ),
        Ok(())
    );
    assert_eq!(ext.gov.approve_cross_department(signed(2), 0, 0), Ok(()));
    assert_eq!(ext.gov.approve_cross_department(signed(3), 0, 2), Ok(()));
    let proposal = ext.proposal(0);
    assert_eq!(proposal.cross_approved_by.len(), 2);
    assert!(proposal.cross_approved_by.contains(&Department::Finance));
    assert!(proposal.cross_approved_by.contains(&Department::Health));
}

#[test]
fn department_proposal_count_increments() {
    let mut ext = new_test_ext();
    assert_eq!(ext.gov.set_department_manager(root(), 0, 1), Ok(()));
    for i in 0..3 {
        let title = format!("Finance Proposal {}", i);
        assert_eq!(ext.submit_department_proposal(signed(1), 0, title.as_bytes(), b"Test", 1, 0, false), Ok(()));
    }
    assert_eq!(ext.gov.department_proposal_count(Department::Finance), 3);
    assert_eq!(ext.gov.department_proposal_count(Department::Education), 0);
}

#[test]
fn tests_phase3_department_enum_methods_work() {
    assert_eq!(Department::Finance.name(), "Finance");
    assert_eq!(Department::Education.name(), "Education");
    assert_eq!(Department::Works.name(), "Public Works");
    assert_eq!(Department::Finance.prefix(), "gov.finance");
    assert_eq!(Department::Education.prefix(), "gov.education");
    assert_eq!(Department::Tourism.prefix(), "gov.tourism");
}

#[test]
fn general_and_department_proposals_coexist() {
    let mut ext = new_test_ext();
    assert_eq!(ext.gov.set_department_manager(root(), 0, 1), Ok(()));
    assert_eq!(
        ext.submit_proposal(signed(2), b"General Proposal", b"Not department-specific", 1, 0, false, None),
        Ok(())
    );
    assert_eq!(
        ext.submit_department_proposal(signed(1), 0, b"Finance Proposal", b"Department-specific", 1, 0, false),
        Ok(())
    );
    let general = ext.proposal(0);
    assert_eq!(general.department, None);
    assert_eq!(general.id, 0);
    let departmental = ext.proposal(1);
    assert_eq!(departmental.department, Some(Department::Finance));
    assert_eq!(departmental.id, 1);
}

#[test]
fn restricted_account_cannot_submit_department_proposal() {
    let mut ext = new_test_ext();
    assert_eq!(ext.gov.set_department_manager(root(), 0, 999), Ok(()));
    assert_eq!(
        ext.submit_department_proposal(signed(999), 0, b"Test", b"Test", 1, 0, false),
        Err(Error::InsufficientCompliance)
    );
}

// ---------------------------------------------------------------------------
// Foundation board and delegate elections
// ---------------------------------------------------------------------------

#[test]
fn tests_phase4_add_board_member_works() {
    let mut ext = new_test_ext();
    assert_eq!(ext.add_board_member(root(), 10, 0, 2), Ok(()));
    let member = ext.gov.council_members(10).unwrap();
    assert_eq!(member.role, BoardRole::Founder);
    assert!(member.term_end > 0u64);
    assert_eq!(ext.gov.board_composition(BoardRole::Founder), 1);
    assert_eq!(*ext.last_event(), Event::BoardMemberAdded { member: 10, role_index: 0, term_end: member.term_end });
}

#[test]
fn add_board_member_requires_council_origin() {
    let mut ext = new_test_ext();
    assert_eq!(ext.add_board_member(signed(5), 10, 0, 2), Err(Error::BadOrigin));
}

#[test]
fn add_board_member_role_limit_enforced() {
    let mut ext = new_test_ext();
    assert_eq!(ext.add_board_member(root(), 10, 0, 2), Ok(()));
    assert_eq!(ext.add_board_member(root(), 11, 0, 2), Err(Error::BoardRoleLimitExceeded));
}

#[test]
fn tests_phase4_add_board_member_invalid_role_fails() {
    let mut ext = new_test_ext();
    assert_eq!(ext.add_board_member(root(), 10, 99, 2), Err(Error::InvalidBoardRole));
}

#[test]
fn add_board_member_invalid_term_duration_fails() {
    let mut ext = new_test_ext();
    assert_eq!(ext.add_board_member(root(), 10, 0, 0), Err(Error::InvalidTermDuration));
    assert_eq!(ext.add_board_member(root(), 10, 0, 3), Err(Error::InvalidTermDuration));
}

#[test]
fn add_board_member_citizen_delegate_is_rotating() {
    let mut ext = new_test_ext();
    assert_eq!(ext.add_board_member(root(), 10, 4, 1), Ok(()));
    let member = ext.gov.council_members(10).unwrap();
    assert_eq!(member.role, BoardRole::CitizenDelegate);
    assert!(member.is_rotating);
}

#[test]
fn add_multiple_board_roles_works() {
    let mut ext = new_test_ext();
    assert_eq!(ext.add_board_member(root(), 10, 0, 2), Ok(()));
    assert_eq!(ext.add_board_member(root(), 11, 1, 2), Ok(()));
    assert_eq!(ext.add_board_member(root(), 12, 1, 2), Ok(()));
    assert_eq!(ext.gov.board_composition(BoardRole::Founder), 1);
    assert_eq!(ext.gov.board_composition(BoardRole::TechnicalSteward), 2);
}

#[test]
fn tests_phase4_remove_board_member_works() {
    let mut ext = new_test_ext();
    assert_eq!(ext.add_board_member(root(), 10, 0, 2), Ok(()));
    assert_eq!(ext.remove_board_member(root(), 10, b"Voluntary resignation"), Ok(()));
    assert!(ext.gov.council_members(10).is_none());
    assert_eq!(ext.gov.board_composition(BoardRole::Founder), 0);
    assert!(ext.events().iter().any(|e| matches!(e, Event::BoardMemberRemoved { .. })));
}

#[test]
fn remove_board_member_not_found_fails() {
    let mut ext = new_test_ext();
    assert_eq!(ext.remove_board_member(root(), 99, b"test"), Err(Error::MemberNotFound));
}

#[test]
fn tests_phase4_nominate_for_delegate_works() {
    let mut ext = new_test_ext();
    ext.gov.current_election = Some(100);
    assert_eq!(ext.nominate_for_delegate(signed(1), 20), Ok(()));
    assert_eq!(ext.gov.delegate_nominees(20), 0);
    assert_eq!(*ext.last_event(), Event::DelegateNominated { nominee: 20, nominator: 1 });
}

#[test]
fn tests_phase4_nominate_for_delegate_no_election_fails() {
    let mut ext = new_test_ext();
    assert_eq!(ext.nominate_for_delegate(signed(1), 20), Err(Error::NoActiveElection));
}

#[test]
fn tests_phase4_vote_for_delegate_works() {
    let mut ext = new_test_ext();
    let election_id = 100u64;
    ext.gov.current_election = Some(election_id);
    ext.gov.delegate_nominees.insert(20, 0);
    assert_eq!(ext.vote_for_delegate(signed(1), 20), Ok(()));
    assert_eq!(ext.gov.delegate_voters.get(&(election_id, 1u64)), Some(&20u64));
    assert_eq!(ext.gov.delegate_nominees(20), 1);
    assert_eq!(*ext.last_event(), Event::DelegateVoteCast { voter: 1, nominee: 20, weight: 1 });
}

#[test]
fn vote_for_delegate_twice_fails() {
    let mut ext = new_test_ext();
    ext.gov.current_election = Some(100);
    ext.gov.delegate_nominees.insert(20, 0);
    ext.gov.delegate_nominees.insert(21, 0);
    assert_eq!(ext.vote_for_delegate(signed(1), 20), Ok(()));
    assert_eq!(ext.vote_for_delegate(signed(1), 21), Err(Error::AlreadyVotedInElection));
}

#[test]
fn tests_phase4_vote_for_delegate_nominee_not_found_fails() {
    let mut ext = new_test_ext();
    ext.gov.current_election = Some(100);
    assert_eq!(ext.vote_for_delegate(signed(1), 99), Err(Error::NomineeNotFound));
}

#[test]
fn term_expiry_queue_works() {
    let mut ext = new_test_ext();
    assert_eq!(ext.add_board_member(root(), 10, 0, 1), Ok(()));
    let term_end = ext.gov.council_members(10).unwrap().term_end;
    assert!(ext.gov.term_expiry_queue.get(&term_end).unwrap().contains(&10));
}

// ---------------------------------------------------------------------------
// Execution of approved proposals
// ---------------------------------------------------------------------------

const ALICE: u64 = 1;
const BOB: u64 = 2;

impl Ext {
    /// Submits a constitutional proposal from Alice, then marks it approved
    /// with `action`, ratified by both houses.
    fn approved_constitutional(&mut self, title: &[u8], description: &[u8], action: Option<ProposalAction>) -> u32 {
        let id = self.gov.next_proposal_id();
        assert_eq!(self.submit_proposal(signed(ALICE), title, description, 0, 0, false, None), Ok(()));
        let (pos, mut p) = self.gov.proposals.take(&id).unwrap();
        p.status = ProposalStatus::Approved;
        p.action = action;
        self.gov.proposals.restore(pos, id, p);
        self.gov.constitutional_ratifications.insert(id, (true, true));
        id
    }
}

#[test]
fn tests_phase5_execute_proposal_works() {
    let mut ext = new_test_ext();
    let id = ext.approved_constitutional(
        b"Test Execution",
        b"Testing proposal execution",
        Some(ProposalAction::ParameterChange { parameter: GovernanceParameter::VotingPeriod, new_value: 100_000 }),
    );
    assert_eq!(ext.execute_proposal(signed(ALICE), id), Ok(()));
    let proposal = ext.proposal(id);
    assert_eq!(proposal.status, ProposalStatus::Executed);
    assert!(proposal.executed_at.is_some());
    assert!(ext.gov.executed_proposals.contains_key(&id));
}

#[test]
fn tests_phase5_execute_proposal_not_approved_fails() {
    let mut ext = new_test_ext();
    assert_eq!(ext.submit_proposal(signed(ALICE), b"Test", b"Test", 0, 0, false, None), Ok(()));
    assert_eq!(ext.execute_proposal(signed(ALICE), 0), Err(Error::ProposalNotApproved));
}

#[test]
fn tests_phase5_execute_proposal_already_executed_fails() {
    let mut ext = new_test_ext();
    let id = ext.approved_constitutional(
        b"Test",
        b"Test",
        Some(ProposalAction::ParameterChange { parameter: GovernanceParameter::VotingPeriod, new_value: 100_000 }),
    );
    assert_eq!(ext.execute_proposal(signed(ALICE), id), Ok(()));
    assert_eq!(ext.execute_proposal(signed(ALICE), id), Err(Error::AlreadyExecuted));
}

#[test]
fn execute_proposal_no_action_fails() {
    let mut ext = new_test_ext();
    let id = ext.approved_constitutional(b"Test", b"Test", None);
    assert_eq!(ext.execute_proposal(signed(ALICE), id), Err(Error::NoActionDefined));
}

#[test]
fn treasury_spend_execution_works() {
    let mut ext = new_test_ext();
    ext.set_balance(treasury(), 100_000);
    let id = ext.approved_constitutional(
        b"Treasury Spend",
        b"Test spending",
        Some(ProposalAction::TreasurySpend { recipient: BOB, amount: 10_000 }),
    );
    let before = ext.free_balance(BOB);
    assert_eq!(ext.execute_proposal(signed(ALICE), id), Ok(()));
    assert_eq!(ext.free_balance(BOB), before + 10_000);
}

#[test]
fn treasury_spend_insufficient_balance_fails() {
    let mut ext = new_test_ext();
    let id = ext.approved_constitutional(
        b"Treasury Spend",
        b"Test",
        Some(ProposalAction::TreasurySpend { recipient: BOB, amount: 1_000_000 }),
    );
    assert_eq!(ext.execute_proposal(signed(ALICE), id), Err(Error::InsufficientTreasuryBalance));
}

#[test]
fn runtime_upgrade_execution_works() {
    let mut ext = new_test_ext();
    let code_hash: Vec<u8> = (0..32).collect();
    let id = ext.approved_constitutional(
        b"Runtime Upgrade",
        b"Upgrade to v2",
        Some(ProposalAction::RuntimeUpgrade { code_hash }),
    );
    assert_eq!(ext.execute_proposal(signed(ALICE), id), Ok(()));
    assert!(ext.gov.pending_runtime_upgrade.is_some());
}

#[test]
fn runtime_upgrade_invalid_hash_size_fails() {
    let mut ext = new_test_ext();
    let code_hash: Vec<u8> = (0..16).collect();
    let id = ext.approved_constitutional(
        b"Runtime Upgrade",
        b"Invalid upgrade",
        Some(ProposalAction::RuntimeUpgrade { code_hash }),
    );
    assert_eq!(ext.execute_proposal(signed(ALICE), id), Err(Error::RuntimeCodeTooLarge));
}

#[test]
fn parameter_change_execution_works() {
    let mut ext = new_test_ext();
    let id = ext.approved_constitutional(
        b"Change Voting Period",
        b"Increase voting time",
        Some(ProposalAction::ParameterChange { parameter: GovernanceParameter::VotingPeriod, new_value: 200_000 }),
    );
    assert_eq!(ext.execute_proposal(signed(ALICE), id), Ok(()));
    assert_eq!(ext.gov.get_parameter(GovernanceParameter::VotingPeriod), 200_000);
}

#[test]
fn parameter_change_all_parameters_work() {
    let mut ext = new_test_ext();
    let parameters = [
        (GovernanceParameter::VotingPeriod, 100_000u32),
        (GovernanceParameter::LaunchPeriod, 50_000),
        (GovernanceParameter::MinimumDeposit, 5_000),
        (GovernanceParameter::SupermajorityThreshold, 75),
        (GovernanceParameter::CouncilSize, 20),
        (GovernanceParameter::EmergencyTimeout, 100_000),
    ];
    for (idx, (parameter, new_value)) in parameters.iter().enumerate() {
        let title = format!("Parameter Change {}", idx).into_bytes();
        let id = ext.approved_constitutional(
            &title,
            b"Test",
            Some(ProposalAction::ParameterChange { parameter: *parameter, new_value: *new_value }),
        );
        assert_eq!(id, idx as u32);
        assert_eq!(ext.execute_proposal(signed(ALICE), id), Ok(()));
        assert_eq!(ext.gov.get_parameter(*parameter), *new_value);
    }
}

#[test]
fn parameter_change_invalid_value_fails() {
    let mut ext = new_test_ext();
    let id = ext.approved_constitutional(
        b"Invalid Period",
        b"Test",
        Some(ProposalAction::ParameterChange { parameter: GovernanceParameter::VotingPeriod, new_value: 1_000 }),
    );
    assert_eq!(ext.execute_proposal(signed(ALICE), id), Err(Error::InvalidParameterValue));
}

#[test]
fn emergency_action_activate_works() {
    let mut ext = new_test_ext();
    let id = ext.approved_constitutional(
        b"Activate Emergency",
        b"Emergency mode",
        Some(ProposalAction::EmergencyAction { action_type: EmergencyActionType::ActivateEmergency }),
    );
    assert_eq!(ext.execute_proposal(signed(ALICE), id), Ok(()));
}

#[test]
fn emergency_action_deactivate_works() {
    let mut ext = new_test_ext();
    let id = ext.approved_constitutional(
        b"Deactivate Emergency",
        b"End emergency",
        Some(ProposalAction::EmergencyAction { action_type: EmergencyActionType::DeactivateEmergency }),
    );
    assert_eq!(ext.execute_proposal(signed(ALICE), id), Ok(()));
}

#[test]
fn department_treasury_allocation_works() {
    let mut ext = new_test_ext();
    assert_eq!(ext.gov.allocate_to_department(Department::Finance, 50_000, 0), Ok(()));
    assert_eq!(ext.gov.department_treasury_balance(Department::Finance), 50_000);
}

#[test]
fn multiple_department_allocations_accumulate() {
    let mut ext = new_test_ext();
    assert_eq!(ext.gov.allocate_to_department(Department::Education, 10_000, 0), Ok(()));
    assert_eq!(ext.gov.allocate_to_department(Department::Education, 20_000, 1), Ok(()));
    assert_eq!(ext.gov.allocate_to_department(Department::Education, 15_000, 2), Ok(()));
    assert_eq!(ext.gov.department_treasury_balance(Department::Education), 45_000);
}

#[test]
fn get_action_type_index_works() {
    assert_eq!(Pallet::get_action_type_index(&ProposalAction::TreasurySpend { recipient: ALICE, amount: 1000 }), 0);
    assert_eq!(Pallet::get_action_type_index(&ProposalAction::RuntimeUpgrade { code_hash: Vec::new() }), 1);
    assert_eq!(
        Pallet::get_action_type_index(&ProposalAction::ParameterChange {
            parameter: GovernanceParameter::VotingPeriod,
            new_value: 100,
        }),
        2
    );
}

#[test]
fn governance_parameter_indices_work() {
    assert_eq!(Pallet::governance_parameter_index(GovernanceParameter::VotingPeriod), 0);
    assert_eq!(Pallet::governance_parameter_index(GovernanceParameter::LaunchPeriod), 1);
    assert_eq!(Pallet::governance_parameter_index(GovernanceParameter::MinimumDeposit), 2);
    assert_eq!(Pallet::governance_parameter_index(GovernanceParameter::SupermajorityThreshold), 3);
    assert_eq!(Pallet::governance_parameter_index(GovernanceParameter::CouncilSize), 4);
    assert_eq!(Pallet::governance_parameter_index(GovernanceParameter::EmergencyTimeout), 5);
}

#[test]
fn department_indices_work() {
    assert_eq!(Pallet::department_index(Department::Finance), 0);
    assert_eq!(Pallet::department_index(Department::Education), 1);
    assert_eq!(Pallet::department_index(Department::Health), 2);
    assert_eq!(Pallet::department_index(Department::Works), 3);
    assert_eq!(Pallet::department_index(Department::Justice), 4);
    assert_eq!(Pallet::department_index(Department::Tourism), 5);
    assert_eq!(Pallet::department_index(Department::Agriculture), 6);
    assert_eq!(Pallet::department_index(Department::Defense), 7);
}

#[test]
fn emergency_action_type_indices_work() {
    assert_eq!(Pallet::emergency_action_type_index(EmergencyActionType::ActivateEmergency), 0);
    assert_eq!(Pallet::emergency_action_type_index(EmergencyActionType::DeactivateEmergency), 1);
    assert_eq!(Pallet::emergency_action_type_index(EmergencyActionType::FreezeAccount), 2);
    assert_eq!(Pallet::emergency_action_type_index(EmergencyActionType::UnfreezeAccount), 3);
    assert_eq!(Pallet::emergency_action_type_index(EmergencyActionType::HaltGovernance), 4);
    assert_eq!(Pallet::emergency_action_type_index(EmergencyActionType::ResumeGovernance), 5);
}

#[test]
fn genesis_initializes_parameters() {
    let ext = new_test_ext();
    assert_eq!(ext.gov.get_parameter(GovernanceParameter::VotingPeriod), 100_800);
    assert_eq!(ext.gov.get_parameter(GovernanceParameter::LaunchPeriod), 28_800);
    assert_eq!(ext.gov.get_parameter(GovernanceParameter::MinimumDeposit), 1_000);
    assert_eq!(ext.gov.get_parameter(GovernanceParameter::SupermajorityThreshold), 66);
    assert_eq!(ext.gov.get_parameter(GovernanceParameter::CouncilSize), 15);
    assert_eq!(ext.gov.get_parameter(GovernanceParameter::EmergencyTimeout), 86_400);
}

// ---------------------------------------------------------------------------
// Council elections by district
// ---------------------------------------------------------------------------

const CHARLIE: u64 = 3;
const DAVE: u64 = 4;
const EVE: u64 = 5;
const FERDIE: u64 = 6;

#[test]
fn tests_phase6_start_district_election_works() {
    let mut ext = new_test_ext();
    ext.set_block_number(1);
    assert_eq!(ext.start_district_election(0, 3, 100, 200), Ok(()));
    let district = BelizeDistrict::Belize;
    let election = ext.gov.get_district_election(district).unwrap();
    assert_eq!(election.district, district);
    assert_eq!(election.seats, 3);
    assert_eq!(election.status, ElectionStatus::Registration);
    assert_eq!(election.registration_end, 101);
    assert_eq!(election.voting_end, 301);
    assert!(ext.events().contains(&Event::DistrictElectionStarted {
        election_id: 1,
        district_index: 0,
        seats: 3,
        registration_end: 101,
        voting_end: 301,
    }));
}

#[test]
fn cannot_start_duplicate_election() {
    let mut ext = new_test_ext();
    ext.set_block_number(1);
    assert_eq!(ext.start_district_election(0, 3, 100, 200), Ok(()));
    assert_eq!(ext.start_district_election(0, 2, 50, 100), Err(Error::ElectionAlreadyActive));
}

#[test]
fn invalid_district_index_fails() {
    let mut ext = new_test_ext();
    ext.set_block_number(1);
    assert_eq!(ext.start_district_election(6, 2, 100, 200), Err(Error::InvalidDistrict));
}

#[test]
fn tests_phase6_register_candidate_works() {
    let mut ext = new_test_ext();
    ext.set_block_number(1);
    assert_eq!(ext.start_district_election(0, 3, 100, 200), Ok(()));
    let platform = b"I will improve healthcare and education".to_vec();
    assert_eq!(ext.register_candidate(signed(ALICE), 0, &platform), Ok(()));
    let election = ext.gov.get_district_election(BelizeDistrict::Belize).unwrap();
    let candidate = ext.gov.get_election_candidate(election.id, ALICE).unwrap();
    assert_eq!(candidate.account, ALICE);
    assert_eq!(candidate.district, BelizeDistrict::Belize);
    assert_eq!(candidate.votes, 0);
    assert_eq!(candidate.platform.to_vec(), platform);
    assert!(ext.events().contains(&Event::CandidateRegistered { election_id: 1, candidate: ALICE, district_index: 0 }));
}

#[test]
fn register_multiple_candidates_works() {
    let mut ext = new_test_ext();
    ext.set_block_number(1);
    assert_eq!(ext.start_district_election(1, 2, 100, 200), Ok(()));
    assert_eq!(ext.register_candidate(signed(ALICE), 1, b"Alice platform"), Ok(()));
    assert_eq!(ext.register_candidate(signed(BOB), 1, b"Bob platform"), Ok(()));
    assert_eq!(ext.register_candidate(signed(CHARLIE), 1, b"Charlie platform"), Ok(()));
    assert_eq!(ext.register_candidate(signed(DAVE), 1, b"Dave platform"), Ok(()));
    let election = ext.gov.get_district_election(BelizeDistrict::Cayo).unwrap();
    assert!(ext.gov.get_election_candidate(election.id, ALICE).is_some());
    assert!(ext.gov.get_election_candidate(election.id, BOB).is_some());
    assert!(ext.gov.get_election_candidate(election.id, CHARLIE).is_some());
    assert!(ext.gov.get_election_candidate(election.id, DAVE).is_some());
}

#[test]
fn duplicate_candidate_registration_fails() {
    let mut ext = new_test_ext();
    ext.set_block_number(1);
    assert_eq!(ext.start_district_election(0, 3, 100, 200), Ok(()));
    assert_eq!(ext.register_candidate(signed(ALICE), 0, b"Platform 1"), Ok(()));
    assert_eq!(ext.register_candidate(signed(ALICE), 0, b"Platform 2"), Err(Error::CandidateAlreadyRegistered));
}

#[test]
fn register_after_registration_period_fails() {
    let mut ext = new_test_ext();
    ext.set_block_number(1);
    assert_eq!(ext.start_district_election(0, 3, 10, 200), Ok(()));
    ext.set_block_number(15);
    assert_eq!(ext.register_candidate(signed(ALICE), 0, b"Late platform"), Err(Error::NotInRegistrationPhase));
}

#[test]
fn register_without_election_fails() {
    let mut ext = new_test_ext();
    ext.set_block_number(1);
    assert_eq!(ext.register_candidate(signed(ALICE), 0, b"Platform"), Err(Error::ElectionNotFound));
}

#[test]
fn tests_phase6_vote_in_district_election_works() {
    let mut ext = new_test_ext();
    ext.set_block_number(1);
    assert_eq!(ext.start_district_election(0, 2, 10, 200), Ok(()));
    assert_eq!(ext.register_candidate(signed(ALICE), 0, b"Alice platform"), Ok(()));
    assert_eq!(ext.register_candidate(signed(BOB), 0, b"Bob platform"), Ok(()));
    ext.set_block_number(15);
    assert_eq!(ext.vote_in_district_election(signed(CHARLIE), 0, ALICE), Ok(()));
    let election = ext.gov.get_district_election(BelizeDistrict::Belize).unwrap();
    assert!(ext.gov.has_voted_in_district_election(election.id, CHARLIE));
    let candidate = ext.gov.get_election_candidate(election.id, ALICE).unwrap();
    assert_eq!(candidate.votes, 1);
    assert!(ext.events().contains(&Event::ElectionVoteCast {
        election_id: 1,
        voter: CHARLIE,
        candidate: ALICE,
        district_index: 0,
    }));
}

#[test]
fn multiple_votes_recorded_correctly() {
    let mut ext = new_test_ext();
    ext.set_block_number(1);
    assert_eq!(ext.start_district_election(0, 2, 10, 200), Ok(()));
    assert_eq!(ext.register_candidate(signed(ALICE), 0, b"Platform A"), Ok(()));
    assert_eq!(ext.register_candidate(signed(BOB), 0, b"Platform B"), Ok(()));
    assert_eq!(ext.register_candidate(signed(CHARLIE), 0, b"Platform C"), Ok(()));
    ext.set_block_number(15);
    assert_eq!(ext.vote_in_district_election(signed(DAVE), 0, ALICE), Ok(()));
    assert_eq!(ext.vote_in_district_election(signed(EVE), 0, ALICE), Ok(()));
    assert_eq!(ext.vote_in_district_election(signed(FERDIE), 0, ALICE), Ok(()));
    assert_eq!(ext.vote_in_district_election(signed(7), 0, BOB), Ok(()));
    assert_eq!(ext.vote_in_district_election(signed(8), 0, BOB), Ok(()));
    assert_eq!(ext.vote_in_district_election(signed(9), 0, CHARLIE), Ok(()));
    let election = ext.gov.get_district_election(BelizeDistrict::Belize).unwrap();
    assert_eq!(ext.gov.get_election_candidate(election.id, ALICE).unwrap().votes, 3);
    assert_eq!(ext.gov.get_election_candidate(election.id, BOB).unwrap().votes, 2);
    assert_eq!(ext.gov.get_election_candidate(election.id, CHARLIE).unwrap().votes, 1);
    assert_eq!(election.total_votes, 6);
}

#[test]
fn double_voting_prevented() {
    let mut ext = new_test_ext();
    ext.set_block_number(1);
    assert_eq!(ext.start_district_election(0, 2, 10, 200), Ok(()));
    assert_eq!(ext.register_candidate(signed(ALICE), 0, b"Platform"), Ok(()));
    assert_eq!(ext.register_candidate(signed(BOB), 0, b"Platform"), Ok(()));
    ext.set_block_number(15);
    assert_eq!(ext.vote_in_district_election(signed(CHARLIE), 0, ALICE), Ok(()));
    assert_eq!(
        ext.vote_in_district_election(signed(CHARLIE), 0, BOB),
        Err(Error::AlreadyVotedInDistrictElection)
    );
}

#[test]
fn vote_for_nonexistent_candidate_fails() {
    let mut ext = new_test_ext();
    ext.set_block_number(1);
    assert_eq!(ext.start_district_election(0, 2, 10, 200), Ok(()));
    assert_eq!(ext.register_candidate(signed(ALICE), 0, b"Platform"), Ok(()));
    ext.set_block_number(15);
    assert_eq!(ext.vote_in_district_election(signed(CHARLIE), 0, BOB), Err(Error::CandidateNotFound));
}

#[test]
fn vote_during_registration_phase_fails() {
    let mut ext = new_test_ext();
    ext.set_block_number(1);
    assert_eq!(ext.start_district_election(0, 2, 100, 200), Ok(()));
    assert_eq!(ext.register_candidate(signed(ALICE), 0, b"Platform"), Ok(()));
    ext.set_block_number(5);
    assert_eq!(ext.vote_in_district_election(signed(BOB), 0, ALICE), Err(Error::NotInVotingPhase));
}

#[test]
fn tests_phase6_finalize_district_election_works() {
    let mut ext = new_test_ext();
    ext.set_block_number(1);
    assert_eq!(ext.start_district_election(2, 1, 10, 20), Ok(()));
    assert_eq!(ext.register_candidate(signed(ALICE), 2, b"Platform A"), Ok(()));
    assert_eq!(ext.register_candidate(signed(BOB), 2, b"Platform B"), Ok(()));
    assert_eq!(ext.register_candidate(signed(CHARLIE), 2, b"Platform C"), Ok(()));
    ext.set_block_number(15);
    for voter in 10..15 {
        assert_eq!(ext.vote_in_district_election(signed(voter), 2, ALICE), Ok(()));
    }
    for voter in 15..18 {
        assert_eq!(ext.vote_in_district_election(signed(voter), 2, BOB), Ok(()));
    }
    for voter in 18..20 {
        assert_eq!(ext.vote_in_district_election(signed(voter), 2, CHARLIE), Ok(()));
    }
    ext.set_block_number(35);
    assert_eq!(ext.finalize_district_election(root(), 2), Ok(()));
    let election = ext.gov.get_district_election(BelizeDistrict::Corozal).unwrap();
    assert_eq!(election.status, ElectionStatus::Finalized);
    assert!(ext.gov.is_council_member(ALICE));
    let reps = ext.gov.get_district_representatives(BelizeDistrict::Corozal);
    assert_eq!(reps.len(), 1);
    assert_eq!(reps[0], ALICE);
}

#[test]
fn finalize_multi_seat_election_works() {
    let mut ext = new_test_ext();
    ext.set_block_number(1);
    assert_eq!(ext.start_district_election(0, 3, 10, 20), Ok(()));
    assert_eq!(ext.register_candidate(signed(ALICE), 0, b"Platform A"), Ok(()));
    assert_eq!(ext.register_candidate(signed(BOB), 0, b"Platform B"), Ok(()));
    assert_eq!(ext.register_candidate(signed(CHARLIE), 0, b"Platform C"), Ok(()));
    assert_eq!(ext.register_candidate(signed(DAVE), 0, b"Platform D"), Ok(()));
    assert_eq!(ext.register_candidate(signed(EVE), 0, b"Platform E"), Ok(()));
    ext.set_block_number(15);
    for voter in 10..20 {
        assert_eq!(ext.vote_in_district_election(signed(voter), 0, ALICE), Ok(()));
    }
    for voter in 20..28 {
        assert_eq!(ext.vote_in_district_election(signed(voter), 0, BOB), Ok(()));
    }
    for voter in 28..34 {
        assert_eq!(ext.vote_in_district_election(signed(voter), 0, CHARLIE), Ok(()));
    }
    for voter in 34..38 {
        assert_eq!(ext.vote_in_district_election(signed(voter), 0, DAVE), Ok(()));
    }
    for voter in 38..40 {
        assert_eq!(ext.vote_in_district_election(signed(voter), 0, EVE), Ok(()));
    }
    ext.set_block_number(35);
    assert_eq!(ext.finalize_district_election(root(), 0), Ok(()));
    assert!(ext.gov.is_council_member(ALICE));
    assert!(ext.gov.is_council_member(BOB));
    assert!(ext.gov.is_council_member(CHARLIE));
    assert!(!ext.gov.is_council_member(DAVE));
    assert!(!ext.gov.is_council_member(EVE));
    let reps = ext.gov.get_district_representatives(BelizeDistrict::Belize);
    assert_eq!(reps.len(), 3);
    assert!(reps.contains(&ALICE));
    assert!(reps.contains(&BOB));
    assert!(reps.contains(&CHARLIE));
}

#[test]
fn cannot_finalize_before_voting_ends() {
    let mut ext = new_test_ext();
    ext.set_block_number(1);
    assert_eq!(ext.start_district_election(0, 2, 10, 100), Ok(()));
    assert_eq!(ext.register_candidate(signed(ALICE), 0, b"Platform"), Ok(()));
    ext.set_block_number(15);
    assert_eq!(ext.vote_in_district_election(signed(BOB), 0, ALICE), Ok(()));
    assert_eq!(ext.finalize_district_election(root(), 0), Err(Error::VotingPeriodNotEnded));
}

#[test]
fn cannot_finalize_twice() {
    let mut ext = new_test_ext();
    ext.set_block_number(1);
    assert_eq!(ext.start_district_election(0, 1, 10, 20), Ok(()));
    assert_eq!(ext.register_candidate(signed(ALICE), 0, b"Platform"), Ok(()));
    ext.set_block_number(15);
    assert_eq!(ext.vote_in_district_election(signed(BOB), 0, ALICE), Ok(()));
    ext.set_block_number(35);
    assert_eq!(ext.finalize_district_election(root(), 0), Ok(()));
    assert_eq!(ext.finalize_district_election(root(), 0), Err(Error::ElectionAlreadyFinalized));
}

#[test]
fn district_index_helper_works() {
    assert_eq!(Pallet::district_index(BelizeDistrict::Belize), 0);
    assert_eq!(Pallet::district_index(BelizeDistrict::Cayo), 1);
    assert_eq!(Pallet::district_index(BelizeDistrict::Corozal), 2);
    assert_eq!(Pallet::district_index(BelizeDistrict::OrangeWalk), 3);
    assert_eq!(Pallet::district_index(BelizeDistrict::StannCreek), 4);
    assert_eq!(Pallet::district_index(BelizeDistrict::Toledo), 5);
}

#[test]
fn election_status_index_helper_works() {
    assert_eq!(Pallet::election_status_index(ElectionStatus::Registration), 0);
    assert_eq!(Pallet::election_status_index(ElectionStatus::Voting), 1);
    assert_eq!(Pallet::election_status_index(ElectionStatus::Finalized), 2);
    assert_eq!(Pallet::election_status_index(ElectionStatus::Cancelled), 3);
}

#[test]
fn district_seat_allocation_correct() {
    assert_eq!(BelizeDistrict::Belize.seat_allocation(), 3);
    assert_eq!(BelizeDistrict::Cayo.seat_allocation(), 2);
    assert_eq!(BelizeDistrict::Corozal.seat_allocation(), 1);
    assert_eq!(BelizeDistrict::OrangeWalk.seat_allocation(), 2);
    assert_eq!(BelizeDistrict::StannCreek.seat_allocation(), 2);
    assert_eq!(BelizeDistrict::Toledo.seat_allocation(), 2);
    let total_seats: u32 = [
        BelizeDistrict::Belize,
        BelizeDistrict::Cayo,
        BelizeDistrict::Corozal,
        BelizeDistrict::OrangeWalk,
        BelizeDistrict::StannCreek,
        BelizeDistrict::Toledo,
    ]
    .iter()
    .map(|d| d.seat_allocation())
    .sum();
    assert_eq!(total_seats, 12);
}

// ---------------------------------------------------------------------------
// Delegation, amendments, rewards and priorities
// ---------------------------------------------------------------------------

impl Ext {
    fn revoke_delegation(&mut self, origin: Origin) -> Result<(), Error> {
        self.gov.revoke_delegation(origin)
    }

    fn amend_proposal(
        &mut self,
        origin: Origin,
        proposal_id: u32,
        new_title: Option<Vec<u8>>,
        new_description: Option<Vec<u8>>,
    ) -> Result<(), Error> {
        self.gov.amend_proposal(self.now, origin, proposal_id, new_title, new_description)
    }

    fn set_proposal_priority(&mut self, origin: Origin, proposal_id: u32, priority: u8) -> Result<(), Error> {
        self.gov.set_proposal_priority(origin, proposal_id, priority)
    }

    /// Gives the governance treasury the funding it pays rewards from.
    fn fund_governance_treasury(&mut self) {
        let (account, amount) = belize_governance::treasury::fund_governance_treasury();
        self.set_balance(account, amount);
    }

    /// A constitutional, simple-majority proposal from `proposer`.
    fn create_test_proposal(&mut self, proposer: u64, _voting_start: u64, _voting_end: u64) -> u32 {
        let id = self.gov.next_proposal_id();
        assert_eq!(self.submit_proposal(signed(proposer), b"Test Proposal", b"Test Description", 0, 0, false, None), Ok(()));
        id
    }
}

#[test]
fn tests_phase7_delegate_vote_works() {
    let mut ext = new_test_ext();
    ext.set_block_number(1);
    assert_eq!(ext.delegate_vote(signed(ALICE), BOB, Some(1000)), Ok(()));
    let delegation = ext.gov.get_delegation_info(ALICE);
    assert!(delegation.is_some());
    let delegation = delegation.unwrap();
    assert_eq!(delegation.delegator, ALICE);
    assert_eq!(delegation.delegate, BOB);
    assert_eq!(delegation.expires_at, 1000);
    assert!(delegation.is_active);
    assert_eq!(ext.gov.count_delegated_votes(BOB), 1);
}

#[test]
fn delegation_default_expiry_works() {
    let mut ext = new_test_ext();
    ext.set_block_number(100);
    assert_eq!(ext.delegate_vote(signed(ALICE), BOB, None), Ok(()));
    let delegation = ext.gov.get_delegation_info(ALICE).unwrap();
    assert_eq!(delegation.expires_at, 5_256_100);
}

#[test]
fn cannot_delegate_to_self() {
    let mut ext = new_test_ext();
    ext.set_block_number(1);
    assert_eq!(ext.delegate_vote(signed(ALICE), ALICE, Some(1000)), Err(Error::CannotDelegateToSelf));
}

#[test]
fn cannot_double_delegate() {
    let mut ext = new_test_ext();
    ext.set_block_number(1);
    assert_eq!(ext.delegate_vote(signed(ALICE), BOB, Some(1000)), Ok(()));
    assert_eq!(ext.delegate_vote(signed(ALICE), CHARLIE, Some(1000)), Err(Error::DelegationAlreadyExists));
}

#[test]
fn too_many_delegators_fails() {
    let mut ext = new_test_ext();
    ext.set_block_number(1);
    for i in 0..100 {
        let delegator: u64 = 1000 + i;
        assert_eq!(ext.delegate_vote(signed(delegator), BOB, Some(1000)), Ok(()));
    }
    assert_eq!(ext.delegate_vote(signed(9999), BOB, Some(1000)), Err(Error::TooManyDelegators));
}

#[test]
fn tests_phase7_revoke_delegation_works() {
    let mut ext = new_test_ext();
    ext.set_block_number(1);
    assert_eq!(ext.delegate_vote(signed(ALICE), BOB, Some(1000)), Ok(()));
    assert_eq!(ext.gov.count_delegated_votes(BOB), 1);
    assert_eq!(ext.revoke_delegation(signed(ALICE)), Ok(()));
    assert!(ext.gov.get_delegation_info(ALICE).is_none());
    assert_eq!(ext.gov.count_delegated_votes(BOB), 0);
}

#[test]
fn revoke_non_existent_delegation_fails() {
    let mut ext = new_test_ext();
    ext.set_block_number(1);
    assert_eq!(ext.revoke_delegation(signed(ALICE)), Err(Error::NoDelegationFound));
}

#[test]
fn voting_power_calculation_includes_delegations() {
    let mut ext = new_test_ext();
    ext.set_block_number(1);
    assert_eq!(ext.gov.calculate_voting_power(BOB, ext.now), 1);
    assert_eq!(ext.delegate_vote(signed(ALICE), BOB, Some(1000)), Ok(()));
    assert_eq!(ext.gov.calculate_voting_power(BOB, ext.now), 2);
    assert_eq!(ext.delegate_vote(signed(CHARLIE), BOB, Some(1000)), Ok(()));
    assert_eq!(ext.gov.calculate_voting_power(BOB, ext.now), 3);
}

#[test]
fn delegation_activity_check_works() {
    let mut ext = new_test_ext();
    ext.set_block_number(1);
    assert_eq!(ext.delegate_vote(signed(ALICE), BOB, Some(100)), Ok(()));
    assert!(ext.gov.is_delegation_active(ALICE, ext.now));
    ext.set_block_number(101);
    assert!(!ext.gov.is_delegation_active(ALICE, ext.now));
}

#[test]
fn tests_phase7_amend_proposal_works() {
    let mut ext = new_test_ext();
    ext.set_block_number(1);
    let proposal_id = ext.create_test_proposal(ALICE, 200, 400);
    assert_eq!(
        ext.amend_proposal(
            signed(ALICE),
            proposal_id,
            Some(b"Updated Title".to_vec()),
            Some(b"Updated Description".to_vec()),
        ),
        Ok(())
    );
    let amendment = ext.gov.get_proposal_amendment(proposal_id);
    assert!(amendment.is_some());
    assert_eq!(amendment.unwrap().proposal_id, proposal_id);
    let proposal = ext.proposal(proposal_id);
    assert_eq!(proposal.title.to_vec(), b"Updated Title".to_vec());
    assert_eq!(proposal.description.to_vec(), b"Updated Description".to_vec());
}

#[test]
fn amend_only_title_works() {
    let mut ext = new_test_ext();
    ext.set_block_number(1);
    let proposal_id = ext.create_test_proposal(ALICE, 200, 400);
    assert_eq!(ext.amend_proposal(signed(ALICE), proposal_id, Some(b"Just Title Update".to_vec()), None), Ok(()));
    assert_eq!(ext.proposal(proposal_id).title.to_vec(), b"Just Title Update".to_vec());
}

#[test]
fn cannot_amend_after_voting_starts() {
    let mut ext = new_test_ext();
    ext.set_block_number(1);
    let proposal_id = ext.create_test_proposal(ALICE, 10, 50);
    ext.set_block_number(28_801);
    assert_eq!(
        ext.amend_proposal(signed(ALICE), proposal_id, Some(b"Too Late".to_vec()), None),
        Err(Error::CannotAmendAfterVoting)
    );
}

#[test]
fn only_proposer_can_amend() {
    let mut ext = new_test_ext();
    ext.set_block_number(1);
    let proposal_id = ext.create_test_proposal(ALICE, 200, 400);
    assert_eq!(
        ext.amend_proposal(signed(BOB), proposal_id, Some(b"Unauthorized".to_vec()), None),
        Err(Error::NotProposalAuthor)
    );
}

#[test]
fn cannot_amend_twice() {
    let mut ext = new_test_ext();
    ext.set_block_number(1);
    let proposal_id = ext.create_test_proposal(ALICE, 200, 400);
    assert_eq!(ext.amend_proposal(signed(ALICE), proposal_id, Some(b"First Amendment".to_vec()), None), Ok(()));
    assert_eq!(
        ext.amend_proposal(signed(ALICE), proposal_id, Some(b"First Amendment".to_vec()), None),
        Err(Error::AmendmentAlreadyExists)
    );
}

#[test]
fn amendment_requires_at_least_one_field() {
    let mut ext = new_test_ext();
    ext.set_block_number(1);
    let proposal_id = ext.create_test_proposal(ALICE, 200, 400);
    assert_eq!(ext.amend_proposal(signed(ALICE), proposal_id, None, None), Err(Error::AmendmentNotFound));
}

#[test]
fn is_amendment_allowed_check_works() {
    let mut ext = new_test_ext();
    ext.set_block_number(1);
    let proposal_id = ext.create_test_proposal(ALICE, 200, 400);
    assert!(ext.gov.is_amendment_allowed(proposal_id, ext.now));
    ext.set_block_number(28_801);
    assert!(!ext.gov.is_amendment_allowed(proposal_id, ext.now));
}

#[test]
fn claim_vote_reward_works() {
    let mut ext = new_test_ext();
    ext.set_block_number(1);
    ext.fund_governance_treasury();
    let proposal_id = ext.create_test_proposal(ALICE, 10, 50);
    ext.set_block_number(28_801);
    assert_eq!(ext.cast_vote(signed(BOB), proposal_id, 1, 0), Ok(()));
    assert_eq!(ext.claim_participation_reward(signed(BOB), 0), Ok(()));
    assert_eq!(ext.gov.get_rewards_claimed(BOB), 10_000_000_000_000u128);
}

#[test]
fn claim_proposal_reward_works() {
    let mut ext = new_test_ext();
    ext.set_block_number(1);
    ext.fund_governance_treasury();
    let _proposal_id = ext.create_test_proposal(ALICE, 10, 50);
    assert_eq!(ext.claim_participation_reward(signed(ALICE), 1), Ok(()));
    assert_eq!(ext.gov.get_rewards_claimed(ALICE), 100_000_000_000_000u128);
}

#[test]
fn claim_council_reward_works() {
    let mut ext = new_test_ext();
    ext.set_block_number(1);
    ext.fund_governance_treasury();
    let member = CouncilMember {
        account: BOB,
        role: BoardRole::CitizenDelegate,
        term_end: 1000,
        is_rotating: true,
        community_rank: 100,
        pouw_contribution: 0,
        voting_weight: 100,
        term_start: 1,
        votes_received: 50,
        proposals_authored: 0,
        participation_rate: 0,
        consecutive_terms: 0,
    };
    ext.gov.council_members.insert(BOB, member);
    assert_eq!(ext.claim_participation_reward(signed(BOB), 2), Ok(()));
    assert_eq!(ext.gov.get_rewards_claimed(BOB), 500_000_000_000_000u128);
}

#[test]
fn cannot_claim_reward_without_participation() {
    let mut ext = new_test_ext();
    ext.set_block_number(1);
    assert_eq!(ext.claim_participation_reward(signed(ALICE), 0), Err(Error::NoRewardAvailable));
}

#[test]
fn cannot_claim_reward_twice() {
    let mut ext = new_test_ext();
    ext.set_block_number(1);
    ext.fund_governance_treasury();
    let proposal_id = ext.create_test_proposal(ALICE, 10, 50);
    ext.set_block_number(28_801);
    assert_eq!(ext.cast_vote(signed(BOB), proposal_id, 1, 0), Ok(()));
    assert_eq!(ext.claim_participation_reward(signed(BOB), 0), Ok(()));
    assert_eq!(ext.claim_participation_reward(signed(BOB), 0), Err(Error::RewardAlreadyClaimed));
}

#[test]
fn total_rewards_distributed_updates() {
    let mut ext = new_test_ext();
    ext.set_block_number(1);
    ext.fund_governance_treasury();
    assert_eq!(ext.gov.get_total_rewards_distributed(), 0);
    let proposal_id = ext.create_test_proposal(ALICE, 10, 50);
    ext.set_block_number(28_801);
    assert_eq!(ext.cast_vote(signed(BOB), proposal_id, 1, 0), Ok(()));
    assert_eq!(ext.claim_participation_reward(signed(BOB), 0), Ok(()));
    assert_eq!(ext.gov.get_total_rewards_distributed(), 10_000_000_000_000u128);
    assert_eq!(ext.claim_participation_reward(signed(ALICE), 1), Ok(()));
    assert_eq!(ext.gov.get_total_rewards_distributed(), 110_000_000_000_000u128);
}

#[test]
fn tests_phase7_set_proposal_priority_works() {
    let mut ext = new_test_ext();
    ext.set_block_number(1);
    let proposal_id = ext.create_test_proposal(ALICE, 200, 400);
    assert_eq!(ext.set_proposal_priority(root(), proposal_id, 4), Ok(()));
    let queue = ext.gov.get_priority_queue(ProposalPriority::Critical);
    assert_eq!(queue.len(), 1);
    assert_eq!(queue[0], proposal_id);
}

#[test]
fn priority_queue_supports_multiple_proposals() {
    let mut ext = new_test_ext();
    ext.set_block_number(1);
    let proposal1 = ext.create_test_proposal(ALICE, 200, 400);
    let proposal2 = ext.create_test_proposal(BOB, 200, 400);
    let proposal3 = ext.create_test_proposal(CHARLIE, 200, 400);
    assert_eq!(ext.set_proposal_priority(root(), proposal1, 3), Ok(()));
    assert_eq!(ext.set_proposal_priority(root(), proposal2, 3), Ok(()));
    assert_eq!(ext.set_proposal_priority(root(), proposal3, 3), Ok(()));
    let queue = ext.gov.get_priority_queue(ProposalPriority::High);
    assert_eq!(queue.len(), 3);
}

#[test]
fn priority_queue_max_capacity_enforced() {
    let mut ext = new_test_ext();
    ext.set_block_number(1);
    for _ in 0..50 {
        let proposal_id = ext.create_test_proposal(ALICE, 200, 400);
        assert_eq!(ext.set_proposal_priority(root(), proposal_id, 2), Ok(()));
    }
    let proposal_id = ext.create_test_proposal(ALICE, 200, 400);
    assert_eq!(ext.set_proposal_priority(root(), proposal_id, 2), Err(Error::PriorityQueueFull));
}

#[test]
fn invalid_priority_rejected() {
    let mut ext = new_test_ext();
    ext.set_block_number(1);
    let proposal_id = ext.create_test_proposal(ALICE, 200, 400);
    assert_eq!(ext.set_proposal_priority(root(), proposal_id, 0), Err(Error::InvalidPriority));
    assert_eq!(ext.set_proposal_priority(root(), proposal_id, 5), Err(Error::InvalidPriority));
}

#[test]
fn only_root_can_set_priority() {
    let mut ext = new_test_ext();
    ext.set_block_number(1);
    let proposal_id = ext.create_test_proposal(ALICE, 200, 400);
    assert_eq!(ext.set_proposal_priority(signed(ALICE), proposal_id, 3), Err(Error::BadOrigin));
}

#[test]
fn proposal_priority_index_helper_works() {
    assert_eq!(Pallet::proposal_priority_index(ProposalPriority::Low), 1);
    assert_eq!(Pallet::proposal_priority_index(ProposalPriority::Normal), 2);
    assert_eq!(Pallet::proposal_priority_index(ProposalPriority::High), 3);
    assert_eq!(Pallet::proposal_priority_index(ProposalPriority::Critical), 4);
}

// ---------------------------------------------------------------------------
// Referendums, budgets and treasury spends
// ---------------------------------------------------------------------------

#[test]
fn tests_phase8_create_referendum_works() {
    let mut ext = new_test_ext();
    ext.set_block_number(1);
    let options = vec![b"Yes".to_vec(), b"No".to_vec(), b"Abstain".to_vec()];
    assert_eq!(
        ext.create_referendum(
            signed(ALICE),
            b"Should we build a new hospital?",
            b"Proposal to construct a 200-bed hospital in Belmopan",
            options,
            30,
            50_400,
            None,
        ),
        Ok(())
    );
    let referendum_id = ext.gov.next_referendum_id - 1;
    let referendum = ext.gov.referendums.get(&referendum_id).unwrap();
    assert_eq!(referendum.id, referendum_id);
    assert_eq!(referendum.quorum_percentage, 30);
    assert_eq!(referendum.district, None);
    assert_eq!(referendum.status, ReferendumStatus::Active);
}

#[test]
fn create_district_referendum_works() {
    let mut ext = new_test_ext();
    ext.set_block_number(1);
    assert_eq!(
        ext.create_referendum(
            signed(ALICE),
            b"Cayo District Road Repairs",
            b"Should we prioritize road repairs in Cayo?",
            vec![b"Yes".to_vec(), b"No".to_vec()],
            25,
            50_400,
            Some(1),
        ),
        Ok(())
    );
    let referendum_id = ext.gov.next_referendum_id - 1;
    let referendum = ext.gov.referendums.get(&referendum_id).unwrap();
    assert_eq!(referendum.district, Some(BelizeDistrict::Cayo));
    assert_eq!(referendum.quorum_percentage, 25);
}

#[test]
fn tests_phase8_vote_on_referendum_works() {
    let mut ext = new_test_ext();
    ext.set_block_number(1);
    assert_eq!(
        ext.create_referendum(
            signed(ALICE),
            b"Test Referendum",
            b"Test Description",
            vec![b"Option A".to_vec(), b"Option B".to_vec()],
            30,
            50_400,
            None,
        ),
        Ok(())
    );
    let referendum_id = ext.gov.next_referendum_id - 1;
    assert_eq!(ext.vote_on_referendum(signed(BOB), referendum_id, 0), Ok(()));
    assert!(ext.gov.referendum_votes.contains_key(&(referendum_id, BOB)));
}

#[test]
fn vote_on_referendum_prevents_double_voting() {
    let mut ext = new_test_ext();
    ext.set_block_number(1);
    assert_eq!(
        ext.create_referendum(signed(ALICE), b"Test", b"Test", vec![b"Yes".to_vec(), b"No".to_vec()], 30, 50_400, None),
        Ok(())
    );
    let referendum_id = ext.gov.next_referendum_id - 1;
    assert_eq!(ext.vote_on_referendum(signed(BOB), referendum_id, 0), Ok(()));
    assert_eq!(ext.vote_on_referendum(signed(BOB), referendum_id, 1), Err(Error::AlreadyVotedOnReferendum));
}

#[test]
fn tests_phase8_allocate_district_budget_works() {
    let mut ext = new_test_ext();
    ext.set_block_number(1);
    let amount = 1_000_000;
    assert_eq!(ext.allocate_district_budget(root(), 1, amount, 5_256_000), Ok(()));
    let budget = ext.gov.district_budgets.get(&BelizeDistrict::Cayo).unwrap();
    assert_eq!(budget.district, BelizeDistrict::Cayo);
    assert_eq!(budget.allocated, amount);
    assert_eq!(budget.spent, 0);
    assert!(budget.is_active);
}

#[test]
fn allocate_district_budget_requires_root() {
    let mut ext = new_test_ext();
    ext.set_block_number(1);
    assert_eq!(ext.allocate_district_budget(signed(ALICE), 1, 1_000_000, 5_256_000), Err(Error::BadOrigin));
}

#[test]
fn tests_phase8_propose_treasury_spend_works() {
    let mut ext = new_test_ext();
    ext.set_block_number(1);
    let recipient = BOB;
    let amount = 50_000_000_000_000;
    assert_eq!(
        ext.propose_treasury_spend(signed(ALICE), recipient, amount, b"Hospital equipment purchase", Some(1)),
        Ok(())
    );
    let proposal_id = ext.gov.next_treasury_proposal_id - 1;
    let proposal = ext.gov.treasury_spend_proposals.get(&proposal_id).unwrap();
    assert_eq!(proposal.id, proposal_id);
    assert_eq!(proposal.proposer, ALICE);
    assert_eq!(proposal.recipient, recipient);
    assert_eq!(proposal.amount, amount);
    assert_eq!(proposal.district, Some(BelizeDistrict::Cayo));
    assert_eq!(proposal.threshold, 3);
    assert_eq!(proposal.approvals.len(), 0);
    assert!(!proposal.executed);
}

#[test]
fn propose_treasury_spend_tiered_thresholds() {
    let mut ext = new_test_ext();
    ext.set_block_number(1);
    assert_eq!(ext.propose_treasury_spend(signed(ALICE), BOB, 5_000_000_000_000, b"Small purchase", None), Ok(()));
    let id1 = ext.gov.next_treasury_proposal_id - 1;
    assert_eq!(ext.gov.treasury_spend_proposals.get(&id1).unwrap().threshold, 1);
    assert_eq!(ext.propose_treasury_spend(signed(ALICE), BOB, 50_000_000_000_000, b"Medium purchase", None), Ok(()));
    let id2 = ext.gov.next_treasury_proposal_id - 1;
    assert_eq!(ext.gov.treasury_spend_proposals.get(&id2).unwrap().threshold, 3);
    assert_eq!(ext.propose_treasury_spend(signed(ALICE), BOB, 200_000_000_000_000, b"Large purchase", None), Ok(()));
    let id3 = ext.gov.next_treasury_proposal_id - 1;
    assert_eq!(ext.gov.treasury_spend_proposals.get(&id3).unwrap().threshold, 4);
}

#[test]
fn tests_phase8_transfer_district_budget_works() {
    let mut ext = new_test_ext();
    ext.set_block_number(1);
    assert_eq!(ext.allocate_district_budget(root(), 1, 1_000_000, 5_256_000), Ok(()));
    assert_eq!(ext.transfer_district_budget(root(), 1, 5, 200_000, b"Emergency relief funding"), Ok(()));
    assert_eq!(ext.gov.district_budgets.get(&BelizeDistrict::Cayo).unwrap().allocated, 800_000);
    assert_eq!(ext.gov.district_budgets.get(&BelizeDistrict::Toledo).unwrap().allocated, 200_000);
}

#[test]
fn transfer_district_budget_requires_root() {
    let mut ext = new_test_ext();
    ext.set_block_number(1);
    assert_eq!(ext.allocate_district_budget(root(), 1, 1_000_000, 5_256_000), Ok(()));
    assert_eq!(
        ext.transfer_district_budget(signed(ALICE), 1, 5, 200_000, b"Unauthorized transfer"),
        Err(Error::BadOrigin)
    );
}

#[test]
fn jaguar_mode_activation_test() {
    let mut ext = new_test_ext();
    ext.set_block_number(1);
    let emergency_status = EmergencyStatus {
        active: true,
        emergency_type: EmergencyType::Hurricane,
        description: b"Category 5 hurricane approaching".to_vec(),
        declared_at: 1,
        expires_at: Some(10_000),
        declared_by: Some([0u8; 32]),
        is_pending: false,
        veto_window_ends_at: None,
    };
    ext.gov.jaguar_mode = Some(emergency_status);
    let mode = ext.gov.emergency_status().unwrap();
    assert!(mode.active);
    assert_eq!(mode.emergency_type, EmergencyType::Hurricane);
}

#[test]
fn emergency_type_indexing_works() {
    assert_eq!(EmergencyType::Hurricane.to_index(), 0);
    assert_eq!(EmergencyType::HealthCrisis.to_index(), 1);
    assert_eq!(EmergencyType::EconomicCrisis.to_index(), 2);
    assert_eq!(EmergencyType::SecurityThreat.to_index(), 3);
    assert_eq!(EmergencyType::InfrastructureFailure.to_index(), 4);
    assert_eq!(EmergencyType::Other.to_index(), 5);
}

#[test]
fn belize_district_indexing_works() {
    assert_eq!(BelizeDistrict::Belize.to_index(), 0);
    assert_eq!(BelizeDistrict::Cayo.to_index(), 1);
    assert_eq!(BelizeDistrict::Corozal.to_index(), 2);
    assert_eq!(BelizeDistrict::OrangeWalk.to_index(), 3);
    assert_eq!(BelizeDistrict::StannCreek.to_index(), 4);
    assert_eq!(BelizeDistrict::Toledo.to_index(), 5);
    assert_eq!(BelizeDistrict::from_index(0), Some(BelizeDistrict::Belize));
    assert_eq!(BelizeDistrict::from_index(1), Some(BelizeDistrict::Cayo));
    assert_eq!(BelizeDistrict::from_index(2), Some(BelizeDistrict::Corozal));
    assert_eq!(BelizeDistrict::from_index(3), Some(BelizeDistrict::OrangeWalk));
    assert_eq!(BelizeDistrict::from_index(4), Some(BelizeDistrict::StannCreek));
    assert_eq!(BelizeDistrict::from_index(5), Some(BelizeDistrict::Toledo));
    assert_eq!(BelizeDistrict::from_index(6), None);
}

#[test]
fn allocate_district_budget_rejects_invalid_index() {
    let mut ext = new_test_ext();
    ext.set_block_number(1);
    assert_eq!(ext.allocate_district_budget(root(), 10, 1_000_000, 5_256_000), Err(Error::InvalidDistrict));
}

#[test]
fn referendum_workflow_integration() {
    let mut ext = new_test_ext();
    ext.set_block_number(1);
    assert_eq!(
        ext.create_referendum(
            signed(ALICE),
            b"Allocate 500K to Cayo District",
            b"Should we allocate additional budget to Cayo for infrastructure?",
            vec![b"Yes".to_vec(), b"No".to_vec()],
            30,
            50_400,
            Some(1),
        ),
        Ok(())
    );
    let referendum_id = ext.gov.next_referendum_id - 1;
    assert_eq!(ext.vote_on_referendum(signed(ALICE), referendum_id, 0), Ok(()));
    assert_eq!(ext.vote_on_referendum(signed(BOB), referendum_id, 0), Ok(()));
    assert_eq!(ext.allocate_district_budget(root(), 1, 500_000, 5_256_000), Ok(()));
    assert_eq!(ext.gov.district_budgets.get(&BelizeDistrict::Cayo).unwrap().allocated, 500_000);
}

#[test]
fn treasury_proposal_workflow() {
    let mut ext = new_test_ext();
    ext.set_block_number(1);
    assert_eq!(ext.allocate_district_budget(root(), 1, 1_000_000, 5_256_000), Ok(()));
    let amount = 50_000_000_000_000;
    assert_eq!(ext.propose_treasury_spend(signed(ALICE), BOB, amount, b"Medical equipment", Some(1)), Ok(()));
    let proposal_id = ext.gov.next_treasury_proposal_id - 1;
    let proposal = ext.gov.treasury_spend_proposals.get(&proposal_id).unwrap();
    assert_eq!(proposal.threshold, 3);
    assert_eq!(proposal.amount, amount);
    assert_eq!(proposal.district, Some(BelizeDistrict::Cayo));
}

// ---------------------------------------------------------------------------
// Properties of the library on concrete values
// ---------------------------------------------------------------------------

#[test]
fn spend_call_decodes_from_its_encoding() {
    let bytes = (0u8, 5u64, 500u128).encode();
    assert_eq!(decode_department_call(&bytes), Some(DepartmentCall::SpendBudget { recipient: 5, amount: 500 }));
}

#[test]
fn policy_call_decodes_from_its_encoding() {
    let bytes = (1u8, b"ab".to_vec(), b"x".to_vec()).encode();
    assert_eq!(bytes, vec![1, 8, b'a', b'b', 4, b'x']);
    assert_eq!(
        decode_department_call(&bytes),
        Some(DepartmentCall::UpdatePolicy { policy_key: b"ab".to_vec(), policy_value: b"x".to_vec() })
    );
}

#[test]
fn noop_call_decodes() {
    assert_eq!(decode_department_call(&vec![2]), Some(DepartmentCall::NoOp));
}

#[test]
fn malformed_calls_are_refused() {
    assert_eq!(decode_department_call(&vec![]), None);
    assert_eq!(decode_department_call(&vec![3]), None);
    assert_eq!(decode_department_call(&vec![1, 2, 3, 4]), None);
    assert_eq!(decode_department_call(&vec![0; 24]), None);
    let long_key = (1u8, vec![7u8; 65], b"x".to_vec()).encode();
    assert_eq!(decode_department_call(&long_key), None);
    let long_value = (1u8, b"k".to_vec(), vec![7u8; 257]).encode();
    assert_eq!(decode_department_call(&long_value), None);
    let widest = (1u8, vec![7u8; 64], vec![8u8; 256]).encode();
    assert!(decode_department_call(&widest).is_some());
}

#[test]
fn integer_square_roots() {
    assert_eq!(Pallet::isqrt(0), 0);
    assert_eq!(Pallet::isqrt(1), 1);
    assert_eq!(Pallet::isqrt(15), 3);
    assert_eq!(Pallet::isqrt(16), 4);
    assert_eq!(Pallet::isqrt(1_000_000), 1_000);
    assert_eq!(Pallet::isqrt(u128::MAX), 18_446_744_073_709_551_615);
}

#[test]
fn saturating_products() {
    assert_eq!(saturating_mul_u32(6, 7), 42);
    assert_eq!(saturating_mul_u32(u32::MAX, 2), u32::MAX);
}

#[test]
fn estimated_weights_add_database_accesses() {
    let db = RuntimeDbWeight { read: 25_000_000, write: 100_000_000 };
    assert_eq!(
        <SubstrateWeight<()> as WeightInfo>::submit_proposal(db),
        Weight { ref_time: 40_000_000 + 3 * 25_000_000 + 3 * 100_000_000, proof_size: 1536 }
    );
    assert_eq!(
        <SubstrateWeight<()> as WeightInfo>::cast_vote(db),
        Weight { ref_time: 30_000_000 + 4 * 25_000_000 + 2 * 100_000_000, proof_size: 2048 }
    );
    assert_eq!(
        <SubstrateWeight<()> as WeightInfo>::expire_council_member(db).ref_time(),
        12_000_000 + 25_000_000 + 2 * 100_000_000
    );
    let huge = RuntimeDbWeight { read: u64::MAX, write: 1 };
    assert_eq!(<SubstrateWeight<()> as WeightInfo>::finalize_proposal(huge).ref_time(), u64::MAX);
}

#[test]
fn fixed_weights_without_database() {
    let db = RuntimeDbWeight { read: 1, write: 1 };
    assert_eq!(<() as WeightInfo>::submit_proposal(db), Weight::from_parts(15_000_000, 3012));
    assert_eq!(<() as WeightInfo>::council_override(db).proof_size(), 1512);
    assert_eq!(Weight::from_parts(u64::MAX, 1).saturating_add(Weight::from_parts(1, 2)), Weight::from_parts(u64::MAX, 3));
}

#[test]
fn pallet_account_is_derived_from_its_id() {
    assert_eq!(Pallet::account_id(), u64::from_le_bytes(*b"modlpy/g"));
}

#[test]
fn exit_proof_hashes_account_balance_and_block() {
    let mut ext = new_test_ext();
    ext.set_block_number(42);
    assert_eq!(ext.generate_exit_proof(signed(ALICE)), Ok(()));
    let expected = sp_io::hashing::blake2_256(&(ALICE, 100_000_000_000u128, 42u64).encode());
    assert_eq!(
        ext.last_event(),
        &Event::ExitProofGenerated { account: ALICE, proof_hash: expected, valid_until: 42 + 432_000 }
    );
    assert_eq!(ext.generate_exit_proof(root()), Err(Error::BadOrigin));
}

#[test]
fn law_second_vote_is_refused() {
    let mut ext = new_test_ext();
    let id = ext.submit_standard_proposal(ALICE);
    ext.set_block_number(28_801);
    assert_eq!(ext.cast_vote(signed(BOB), id, 0, 0), Ok(()));
    assert_eq!(ext.cast_vote(signed(BOB), id, 1, 0), Err(Error::AlreadyVoted));
    ext.set_block_number(28_900);
    assert_eq!(ext.cast_vote(signed(BOB), id, 2, 1), Err(Error::AlreadyVoted));
}

#[test]
fn law_revealed_commitment_counts_once() {
    let mut ext = new_test_ext();
    let id = ext.submit_standard_proposal(ALICE);
    ext.set_block_number(28_801);
    let salt = [9u8; 32];
    assert_eq!(ext.commit_vote(signed(BOB), id, commitment(0, salt)), Ok(()));
    assert_eq!(ext.reveal_vote(signed(BOB), id, 1, salt, 0), Err(Error::CommitmentHashMismatch));
    assert_eq!(ext.reveal_vote(signed(BOB), id, 0, salt, 0), Ok(()));
    assert!(ext.gov.votes(id, BOB).is_some());
    assert_eq!(ext.reveal_vote(signed(BOB), id, 0, salt, 0), Err(Error::NoCommitmentFound));
}

#[test]
fn law_delegation_then_revocation_leaves_no_trace() {
    let mut ext = new_test_ext();
    let before = ext.gov.count_delegated_votes(BOB);
    assert_eq!(ext.delegate_vote(signed(ALICE), BOB, Some(500)), Ok(()));
    assert_eq!(ext.revoke_delegation(signed(ALICE)), Ok(()));
    assert!(ext.gov.get_delegation_info(ALICE).is_none());
    assert_eq!(ext.gov.count_delegated_votes(BOB), before);
    assert_eq!(ext.delegate_vote(signed(ALICE), CHARLIE, Some(500)), Ok(()));
}

#[test]
fn law_locked_parameter_cannot_change() {
    let mut ext = new_test_ext();
    let key = b"max_block_weight".to_vec();
    assert_eq!(ext.gov.update_chain_parameter(root(), key.clone(), 5), Ok(()));
    assert_eq!(ext.gov.lock_chain_parameter(true, key.clone()), Ok(()));
    assert_eq!(ext.gov.update_chain_parameter(root(), key.clone(), 6), Err(Error::ParameterConstitutionallyLocked));
    assert_eq!(ext.gov.chain_param(&key, 0), 5);
    assert_eq!(ext.gov.lock_chain_parameter(true, key.clone()), Err(Error::ParameterAlreadyLocked));
    assert_eq!(ext.gov.unlock_chain_parameter(true, key.clone()), Ok(()));
    assert_eq!(ext.gov.update_chain_parameter(root(), key.clone(), 6), Ok(()));
    assert_eq!(ext.gov.chain_param(&key, 0), 6);
    assert_eq!(ext.gov.unlock_chain_parameter(true, key), Err(Error::ParameterNotLocked));
}

#[test]
fn law_both_houses_ratify() {
    let mut ext = new_test_ext();
    let id = ext.create_test_proposal(ALICE, 0, 0);
    let (pos, mut p) = ext.gov.proposals.take(&id).unwrap();
    p.status = ProposalStatus::Approved;
    ext.gov.proposals.restore(pos, id, p);
    assert_eq!(ext.gov.ratify_constitutional_proposal(signed(BOB), id, true, false), Ok(()));
    assert_eq!(ext.gov.is_constitutionally_ratified(id), (true, false));
    assert_eq!(
        ext.gov.ratify_constitutional_proposal(signed(BOB), id, true, false),
        Err(Error::AlreadyRatifiedByHouse)
    );
    assert_eq!(ext.gov.ratify_constitutional_proposal(signed(CHARLIE), id, false, true), Ok(()));
    assert_eq!(ext.gov.is_constitutionally_ratified(id), (true, true));
    assert_eq!(ext.gov.constitutional_ratification(id), (true, true));
}

#[test]
fn law_recorded_upgrade_applies_once() {
    let mut ext = new_test_ext();
    let code = b"new runtime code".to_vec();
    let hash = sp_io::hashing::blake2_256(&code).to_vec();
    assert_eq!(ext.gov.execute_runtime_upgrade(&hash, 3), Ok(()));
    assert_eq!(ext.gov.apply_pending_runtime_upgrade(root(), &code, true), Ok(()));
    assert_eq!(
        ext.gov.apply_pending_runtime_upgrade(root(), &code, true),
        Err(Error::RuntimeUpgradeNotPending)
    );
}

#[test]
fn law_declared_emergency_waits_for_veto_window() {
    let mut ext = new_test_ext();
    assert_eq!(ext.declare_emergency(root(), 0, b"Storm surge", 24), Ok(()));
    let status = ext.gov.emergency_status().unwrap();
    assert!(status.is_pending);
    assert!(!status.active);
}

#[test]
fn law_spends_stay_within_period_cap() {
    let mut ext = new_test_ext();
    ext.cfg.max_treasury_spend_per_period = 1_000;
    let cfg = ext.cfg;
    let now = ext.now;
    assert_eq!(ext.gov.execute_treasury_spend(&cfg, now, BOB, 600, 0, 10_000, true), Ok(()));
    assert_eq!(ext.gov.execute_treasury_spend(&cfg, now, BOB, 500, 1, 10_000, true), Err(Error::TreasurySpendCapExceeded));
    assert_eq!(ext.gov.execute_treasury_spend(&cfg, now, BOB, 400, 2, 10_000, true), Ok(()));
    assert_eq!(ext.gov.execute_treasury_spend(&cfg, now, BOB, 1, 3, 10_000, true), Err(Error::TreasurySpendCapExceeded));
    assert_eq!(ext.gov.execute_treasury_spend(&cfg, now, BOB, 0, 4, 0, false), Err(Error::CurrencyFailure));
    assert_eq!(ext.gov.execute_treasury_spend(&cfg, now, BOB, 0, 4, 0, true), Ok(()));
}

#[test]
fn law_board_roles_keep_their_limits() {
    let mut ext = new_test_ext();
    let mut admitted = 0;
    for account in 100..120u64 {
        if ext.add_board_member(root(), account, 0, 1).is_ok() {
            admitted += 1;
        }
    }
    assert_eq!(ext.gov.board_composition(BoardRole::from_index(0).unwrap()), admitted);
    assert!(admitted < 20);
}

#[test]
fn law_referendum_vote_counts_once() {
    let mut ext = new_test_ext();
    ext.yes_no_referendum(ALICE, 10, 1_000);
    let id = ext.gov.next_referendum_id - 1;
    assert_eq!(ext.vote_on_referendum(signed(BOB), id, 0), Ok(()));
    let after_first = ext.gov.referendums.get(&id).unwrap().total_votes;
    assert!(after_first > 0);
    assert_eq!(ext.vote_on_referendum(signed(BOB), id, 0), Err(Error::AlreadyVotedOnReferendum));
    assert_eq!(ext.gov.referendums.get(&id).unwrap().total_votes, after_first);
}

#[test]
fn block_hook_reports_its_weight() {
    let mut ext = new_test_ext();
    let cfg = ext.cfg;
    let db = RuntimeDbWeight { read: 10, write: 100 };
    let expire = Weight::from_parts(1_000, 7);
    // Nothing due: two reads up front and one for the expiry queue.
    ext.gov.last_participation_check_block = 5;
    assert_eq!(ext.gov.on_initialize(&cfg, 6, &vec![], db, expire), Weight::from_parts(30, 0));
    // A pending emergency whose veto window has passed: one more read and
    // two writes.
    assert_eq!(ext.declare_emergency(root(), 0, b"Flood", 24), Ok(()));
    let ends = ext.gov.emergency_status().unwrap().veto_window_ends_at.unwrap();
    assert_eq!(ext.gov.on_initialize(&cfg, ends, &vec![], db, expire), Weight::from_parts(240, 0));
    assert!(ext.gov.emergency_status().unwrap().active);
    // A council term ending at block 50: the expiry weight and two writes.
    let mut member = ext.gov.council_members(1).unwrap();
    member.term_end = 50;
    ext.gov.council_members.insert(1, member);
    ext.gov.term_expiry_queue.insert(50, vec![1]);
    assert_eq!(ext.gov.on_initialize(&cfg, 50, &vec![], db, expire), Weight::from_parts(40 + 1_000 + 200, 7));
    assert!(!ext.gov.is_council_member(1));
}

/// Accounts sorted the way the runtime walks a map keyed by them.
fn storage_sorted(accounts: &[u64]) -> Vec<u64> {
    let mut keyed: Vec<(Vec<u8>, u64)> =
        accounts.iter().map(|a| (Blake2_128Concat::hash(&a.encode()), *a)).collect();
    keyed.sort();
    keyed.into_iter().map(|(_, a)| a).collect()
}

#[test]
fn accounts_come_in_storage_order() {
    let accounts: Vec<u64> = (1..=30).collect();
    let expected = storage_sorted(&accounts);
    assert_ne!(expected, accounts);
    assert_eq!(belize_governance::storage_order::first_accounts_in_storage_order(&accounts, 100), expected);
    assert_eq!(
        belize_governance::storage_order::first_accounts_in_storage_order(&accounts, 5),
        expected[..5].to_vec()
    );
}

#[test]
fn proposal_ids_come_in_storage_order() {
    let ids: Vec<u32> = (0..60).collect();
    let mut keyed: Vec<(Vec<u8>, u32)> = ids.iter().map(|i| (Blake2_128Concat::hash(&i.encode()), *i)).collect();
    keyed.sort();
    let expected: Vec<u32> = keyed.into_iter().map(|(_, i)| i).take(50).collect();
    assert_eq!(belize_governance::storage_order::first_proposals_in_storage_order(&ids, 50), expected);
}

#[test]
fn quarterly_audit_examines_first_records_in_storage_order() {
    let mut ext = new_test_ext();
    for a in 100..130u64 {
        ext.gov.account_vote_participation.insert(a, (1, 1));
    }
    let all: Vec<u64> = (100..130).collect();
    let expected = storage_sorted(&all)[..20].to_vec();
    assert_eq!(ext.gov.quarterly_audit_accounts(), expected);
}

#[test]
fn quarterly_audit_ignores_insertion_order() {
    let mut forward = new_test_ext();
    let mut backward = new_test_ext();
    for a in 100..130u64 {
        forward.gov.account_vote_participation.insert(a, (1, 1));
        backward.gov.account_vote_participation.insert(229 - a, (1, 1));
    }
    assert_eq!(forward.gov.quarterly_audit_accounts(), backward.gov.quarterly_audit_accounts());
    assert_eq!(forward.gov.quarterly_audit_accounts().len(), 20);
}

#[test]
fn election_ties_go_to_storage_order() {
    let mut ext = new_test_ext();
    ext.set_block_number(1);
    assert_eq!(ext.start_district_election(2, 1, 10, 20), Ok(()));
    assert_eq!(ext.register_candidate(signed(10), 2, b"Platform A"), Ok(()));
    assert_eq!(ext.register_candidate(signed(11), 2, b"Platform B"), Ok(()));
    ext.set_block_number(15);
    assert_eq!(ext.vote_in_district_election(signed(20), 2, 10), Ok(()));
    assert_eq!(ext.vote_in_district_election(signed(21), 2, 11), Ok(()));
    ext.set_block_number(35);
    assert_eq!(ext.finalize_district_election(root(), 2), Ok(()));
    let first = storage_sorted(&[10, 11])[0];
    assert_eq!(ext.gov.get_district_representatives(BelizeDistrict::Corozal), vec![first]);
    assert!(ext.gov.is_council_member(first));
}

#[test]
fn council_weight_totals_and_overflow() {
    let mut ext = new_test_ext();
    let cfg = ext.cfg;
    let expected: u32 = [1u64, 2, 3].iter().map(|a| ext.gov.council_members(*a).unwrap().voting_weight).sum();
    assert_eq!(ext.gov.total_council_weight(&cfg), expected);
    assert_eq!(ext.gov.try_total_council_weight(&cfg), Some(expected));
    let mut heavy = ext.gov.council_members(1).unwrap();
    heavy.voting_weight = u32::MAX;
    ext.gov.council_members.insert(1, heavy);
    assert_eq!(ext.gov.try_total_council_weight(&cfg), None);
}

// ---------------------------------------------------------------------------
// Documented behaviour at the edges
// ---------------------------------------------------------------------------

#[test]
fn emergency_proposal_launches_in_an_hour_and_votes_for_three() {
    let mut ext = new_test_ext();
    ext.set_block_number(10);
    let id = ext.gov.next_proposal_id();
    assert_eq!(ext.submit_proposal(signed(ALICE), b"Flood relief", b"Now", 4, 1, true, None), Ok(()));
    assert_eq!(ext.proposal(id).voting_start, 610);
    assert_eq!(ext.proposal(id).voting_end, 610 + 1_800);
}

#[test]
fn conviction_multipliers_follow_the_table() {
    let mut ext = new_test_ext();
    let id = ext.submit_standard_proposal(ALICE);
    for voter in [10u64, 11, 12, 13, 14] {
        assert_eq!(ext.gov.update_community_rank(root(), voter, 10), Ok(()));
    }
    ext.set_block_number(28_801);
    for (voter, conviction) in [(10u64, 0u8), (11, 1), (12, 2), (13, 3), (14, 4)] {
        assert_eq!(ext.cast_vote(signed(voter), id, 0, conviction), Ok(()));
    }
    let weights: Vec<u32> = [10u64, 11, 12, 13, 14].iter().map(|v| ext.gov.votes(id, *v).unwrap().weight).collect();
    assert_eq!(weights, vec![10, 20, 30, 60, 40]);
}

#[test]
fn single_option_referendum_is_refused() {
    let mut ext = new_test_ext();
    assert_eq!(
        ext.create_referendum(signed(ALICE), b"Only one", b"No choice", vec![b"Yes".to_vec()], 30, 100, None),
        Err(Error::NoOptionsProvided)
    );
}

#[test]
fn simple_majority_needs_more_than_half() {
    let mut ext = new_test_ext();
    let mut tied = proposal_record(0, ProposalType::Economic, VotingThreshold::SimpleMajority, ProposalStatus::Voting, false, 100, 100, None);
    tied.voting_end = 10;
    ext.gov.proposals.insert(0, tied);
    let mut ahead = proposal_record(1, ProposalType::Economic, VotingThreshold::SimpleMajority, ProposalStatus::Voting, false, 51, 49, None);
    ahead.voting_end = 10;
    ext.gov.proposals.insert(1, ahead);
    ext.set_block_number(11);
    assert_eq!(ext.finalize_proposal(signed(1), 0), Ok(()));
    assert_eq!(ext.proposal(0).status, ProposalStatus::Rejected);
    assert_eq!(ext.finalize_proposal(signed(1), 1), Ok(()));
    assert_eq!(ext.proposal(1).status, ProposalStatus::Approved);
}

#[test]
fn finalized_proposal_is_not_finalized_again() {
    let mut ext = new_test_ext();
    let mut p = proposal_record(0, ProposalType::Economic, VotingThreshold::SimpleMajority, ProposalStatus::Voting, false, 80, 20, None);
    p.voting_end = 10;
    ext.gov.proposals.insert(0, p);
    ext.set_block_number(11);
    assert_eq!(ext.finalize_proposal(signed(1), 0), Ok(()));
    assert_eq!(ext.finalize_proposal(signed(1), 0), Err(Error::AlreadyExecuted));
    assert_eq!(ext.proposal(0).status, ProposalStatus::Approved);
}

#[test]
fn spend_of_exactly_one_hundred_thousand_needs_three_approvals() {
    let mut ext = new_test_ext();
    assert_eq!(ext.propose_treasury_spend(signed(ALICE), BOB, 100_000_000_000_000, b"Boundary", None), Ok(()));
    assert_eq!(ext.gov.treasury_spend_proposals.get(&0).unwrap().threshold, 3);
    assert_eq!(ext.propose_treasury_spend(signed(ALICE), BOB, 100_000_000_000_001, b"Above", None), Ok(()));
    assert_eq!(ext.gov.treasury_spend_proposals.get(&1).unwrap().threshold, 4);
}

#[test]
fn only_council_members_propose_spends() {
    let mut ext = new_test_ext();
    assert_eq!(
        ext.propose_treasury_spend(signed(4), 5, 1_000_000_000_000, b"Test", None),
        Err(Error::NotCouncilMember)
    );
    assert_eq!(ext.gov.next_treasury_proposal_id, 0);
}

#[test]
fn delegation_lasts_through_its_expiry_block() {
    let mut ext = new_test_ext();
    assert_eq!(ext.delegate_vote(signed(ALICE), BOB, Some(100)), Ok(()));
    assert!(ext.gov.is_delegation_active(ALICE, 100));
    assert!(!ext.gov.is_delegation_active(ALICE, 101));
    assert_eq!(ext.gov.calculate_voting_power(BOB, 100), 2);
}

#[test]
fn lapsed_delegation_gives_way_to_a_new_one() {
    let mut ext = new_test_ext();
    assert_eq!(ext.delegate_vote(signed(ALICE), BOB, Some(100)), Ok(()));
    assert_eq!(ext.delegate_vote(signed(ALICE), CHARLIE, Some(500)), Err(Error::DelegationAlreadyExists));
    ext.set_block_number(101);
    assert_eq!(ext.delegate_vote(signed(ALICE), CHARLIE, Some(500)), Ok(()));
    assert_eq!(ext.gov.get_delegation_info(ALICE).unwrap().delegate, CHARLIE);
    assert_eq!(ext.gov.count_delegated_votes(BOB), 0);
    assert_eq!(ext.gov.count_delegated_votes(CHARLIE), 1);
}

#[test]
fn reappointed_member_outlives_the_old_queue_entry() {
    let mut ext = new_test_ext();
    let mut member = ext.gov.council_members(1).unwrap();
    member.term_end = 500;
    ext.gov.council_members.insert(1, member);
    ext.gov.term_expiry_queue.insert(40, vec![1]);
    ext.run_to_block(40);
    assert!(ext.gov.is_council_member(1));
    assert!(!ext.events().contains(&Event::CouncilTermAutoExpired { account: 1 }));
}

#[test]
fn emergency_ends_when_its_duration_runs_out() {
    let mut ext = new_test_ext();
    ext.declare_and_activate_emergency(0, b"Storm", 1);
    let expires = ext.gov.emergency_status().unwrap().expires_at.unwrap();
    assert_eq!(expires, 1 + 600);
    ext.run_to_block(expires - 1);
    assert!(ext.gov.emergency_status().unwrap().active);
    ext.run_to_block(expires);
    assert!(ext.gov.emergency_status().is_none());
    assert_eq!(ext.last_event(), &Event::JaguarModeDeactivated);
}

#[test]
fn revealed_vote_weighs_as_a_direct_vote() {
    let salt = [4u8; 32];
    let mut direct = new_test_ext();
    let mut revealed = new_test_ext();
    for ext in [&mut direct, &mut revealed] {
        let id = ext.submit_standard_proposal(ALICE);
        assert_eq!(id, 0);
        assert_eq!(ext.delegate_vote(signed(CHARLIE), BOB, Some(1_000_000)), Ok(()));
        ext.set_block_number(28_801);
    }
    assert_eq!(direct.cast_vote(signed(BOB), 0, 0, 2), Ok(()));
    assert_eq!(revealed.commit_vote(signed(BOB), 0, commitment(0, salt)), Ok(()));
    assert_eq!(revealed.reveal_vote(signed(BOB), 0, 0, salt, 2), Ok(()));
    let a = direct.gov.votes(0, BOB).unwrap();
    let b = revealed.gov.votes(0, BOB).unwrap();
    assert_eq!(a.weight, b.weight);
    assert!(a.weight > 0);
    assert_eq!(direct.proposal(0).vote_tally, revealed.proposal(0).vote_tally);
}

#[test]
fn council_reward_comes_monthly() {
    let mut ext = new_test_ext();
    ext.fund_governance_treasury();
    assert_eq!(ext.claim_participation_reward(signed(BOB), 2), Ok(()));
    ext.set_block_number(1 + 431_999);
    assert_eq!(ext.claim_participation_reward(signed(BOB), 2), Err(Error::RewardAlreadyClaimed));
    ext.set_block_number(1 + 432_000);
    assert_eq!(ext.claim_participation_reward(signed(BOB), 2), Ok(()));
    assert_eq!(ext.gov.get_rewards_claimed(BOB), 1_000_000_000_000_000);
}

#[test]
fn new_election_after_a_finalized_one() {
    let mut ext = new_test_ext();
    ext.set_block_number(1);
    assert_eq!(ext.start_district_election(2, 1, 10, 20), Ok(()));
    assert_eq!(ext.register_candidate(signed(ALICE), 2, b"A"), Ok(()));
    ext.set_block_number(15);
    assert_eq!(ext.vote_in_district_election(signed(BOB), 2, ALICE), Ok(()));
    ext.set_block_number(35);
    assert_eq!(ext.finalize_district_election(root(), 2), Ok(()));
    assert_eq!(ext.start_district_election(2, 1, 10, 20), Ok(()));
    let e = ext.gov.get_district_election(BelizeDistrict::Corozal).unwrap();
    assert_eq!(e.id, 35);
    assert_eq!(e.status, ElectionStatus::Registration);
    assert_eq!(ext.start_district_election(2, 1, 10, 20), Err(Error::ElectionAlreadyActive));
}

#[test]
fn emergency_proposal_runs_once() {
    let mut ext = new_test_ext();
    ext.declare_and_activate_emergency(0, b"Test hurricane", 24);
    let p = proposal_record(5, ProposalType::Emergency, VotingThreshold::Supermajority, ProposalStatus::Voting, true, 70, 30, None);
    ext.gov.proposals.insert(5, p);
    assert_eq!(ext.execute_emergency_proposal(root(), 5), Ok(()));
    assert_eq!(ext.execute_emergency_proposal(root(), 5), Err(Error::AlreadyExecuted));
}

#[test]
fn law_tally_is_the_sum_of_vote_weights() {
    let mut ext = new_test_ext();
    let id = ext.submit_standard_proposal(ALICE);
    for (voter, rank) in [(20u64, 7u32), (21, 11), (22, 13)] {
        assert_eq!(ext.gov.update_community_rank(root(), voter, rank), Ok(()));
    }
    ext.set_block_number(28_801);
    assert_eq!(ext.cast_vote(signed(20), id, 0, 1), Ok(()));
    assert_eq!(ext.cast_vote(signed(21), id, 1, 3), Ok(()));
    assert_eq!(ext.cast_vote(signed(22), id, 2, 0), Ok(()));
    let sum: u32 = [20u64, 21, 22].iter().map(|v| ext.gov.votes(id, *v).unwrap().weight).sum();
    assert_eq!(sum, 14 + 66 + 13);
    assert_eq!(ext.proposal(id).vote_tally.total_weight, sum);
}

#[test]
fn genesis_leaves_the_rest_of_storage_empty() {
    let ext = new_test_ext();
    assert_eq!(ext.gov.department_proposal_count(Department::Education), 0);
    assert!(ext.gov.department_managers(Department::Health).is_none());
    assert!(ext.gov.votes(0, 1).is_none());
    assert_eq!(ext.gov.board_composition(BoardRole::Founder), 0);
    assert!(ext.gov.get_district_election(BelizeDistrict::Belize).is_none());
    assert_eq!(ext.gov.next_referendum_id, 0);
    assert_eq!(ext.gov.next_treasury_proposal_id, 0);
    assert!(ext.events().is_empty());
    assert_eq!(ext.gov.council_term(), 1);
}
