//! Proposal submission, voting and finalization.
use vstd::prelude::*;

use crate::arith::{floor_sqrt, sat_mul_u32, saturating_mul_u32};
use crate::config::Config;
use crate::events::{Error, Event, Origin};
use crate::state::{GovView, Pallet};
use crate::types::{
    proposal_type_from_index, proposal_type_to_index, proposal_type_index_of, proposal_type_of,
    required_percentage_of, threshold_from_index, threshold_to_index, threshold_index_of,
    threshold_of, vote_choice_from_index, vote_choice_index_of, vote_choice_of, AccountId,
    Balance, BelizeDistrict, BlockNumber, Proposal, ProposalAction, ProposalStatus, ProposalType,
    Vote, VoteChoice, VoteTally, VotingThreshold, EMERGENCY_LAUNCH_PERIOD, EMERGENCY_VOTING_PERIOD,
};
use crate::hashing::{blake2_256, blake2_256_digest};
use crate::vec_map::map_get_or;

verus! {

/// The signer of a signed origin.
pub open spec fn signer_of(o: Origin) -> Option<AccountId> {
    match o {
        Origin::Signed(a) => Some(a),
        _ => None,
    }
}

/// `a - b`, or zero below zero.
pub open spec fn sat_sub_u64(a: u64, b: u64) -> u64 {
    if a < b {
        0
    } else {
        (a - b) as u64
    }
}

/// `a + b`, or `u64::MAX` above it.
pub open spec fn sat_add_u64(a: u64, b: u64) -> u64 {
    if a + b > u64::MAX {
        u64::MAX
    } else {
        (a + b) as u64
    }
}

/// `a + b`, or `u32::MAX` above it.
pub open spec fn sat_add_u32(a: u32, b: u32) -> u32 {
    if a + b > u32::MAX {
        u32::MAX
    } else {
        (a + b) as u32
    }
}

/// A block number as a 32-bit timestamp, saturating.
pub open spec fn block_as_u32(b: u64) -> u32 {
    if b > u32::MAX {
        u32::MAX
    } else {
        b as u32
    }
}

// ---------------------------------------------------------------------------
// submit_proposal
// ---------------------------------------------------------------------------

/// The district a proposal names: `Err` with the refusal where the index
/// is out of range or a district-local proposal names none.
pub open spec fn proposal_district(
    district_index: Option<u8>,
    proposal_type: ProposalType,
) -> Result<Option<BelizeDistrict>, Error> {
    match district_index {
        Some(i) => if i < 6 {
            Ok(crate::types::district_of(i))
        } else {
            Err(Error::InvalidDistrict)
        },
        None => if proposal_type == ProposalType::DistrictLocal {
            Err(Error::DistrictRequired)
        } else {
            Ok(None)
        },
    }
}

/// Why `submit_proposal` refuses, checked in order; `None` where it succeeds.
pub open spec fn submit_proposal_error(
    s: GovView,
    cfg: Config,
    now: BlockNumber,
    origin: Origin,
    compliant: bool,
    flagged: bool,
    reserve_ok: bool,
    title_len: nat,
    description_len: nat,
    proposal_type_index: u8,
    threshold_index: u8,
    is_emergency: bool,
    district_index: Option<u8>,
) -> Option<Error> {
    if signer_of(origin) is None {
        Some(Error::BadOrigin)
    } else if !compliant {
        Some(Error::InsufficientCompliance)
    } else if flagged {
        Some(Error::BehaviorCooldownActive)
    } else if !is_emergency && sat_sub_u64(
        now,
        map_get_or(s.account_last_proposal, signer_of(origin).unwrap(), 0),
    ) < cfg.proposal_cooldown {
        Some(Error::ProposalCooldownActive)
    } else if proposal_type_of(proposal_type_index) is None {
        Some(Error::InvalidProposalType)
    } else if threshold_of(threshold_index) is None {
        Some(Error::InvalidThreshold)
    } else if proposal_district(district_index, proposal_type_of(proposal_type_index).unwrap()) is Err {
        Some(proposal_district(district_index, proposal_type_of(proposal_type_index).unwrap())->Err_0)
    } else if !reserve_ok {
        Some(Error::CurrencyFailure)
    } else if title_len > 256 || description_len > 1024 {
        Some(Error::InvalidProposalType)
    } else {
        None
    }
}

/// Start of voting for a proposal submitted at `now`.
pub open spec fn submitted_voting_start(cfg: Config, now: BlockNumber, is_emergency: bool) -> BlockNumber {
    sat_add_u64(now, if is_emergency { EMERGENCY_LAUNCH_PERIOD } else { cfg.launch_period })
}

/// End of voting for a proposal submitted at `now`.
pub open spec fn submitted_voting_end(cfg: Config, now: BlockNumber, is_emergency: bool) -> BlockNumber {
    sat_add_u64(
        submitted_voting_start(cfg, now, is_emergency),
        if is_emergency { EMERGENCY_VOTING_PERIOD } else { cfg.voting_period },
    )
}

pub open spec fn zero_tally() -> VoteTally {
    VoteTally { ayes: 0, nays: 0, abstentions: 0, total_weight: 0, participation: 0 }
}

/// The state after a successful `submit_proposal`.
pub open spec fn submit_proposal_post(
    s: GovView,
    cfg: Config,
    now: BlockNumber,
    who: AccountId,
    title: Vec<u8>,
    description: Vec<u8>,
    proposal_type_index: u8,
    threshold_index: u8,
    is_emergency: bool,
    district_index: Option<u8>,
    cross_approved_by: Vec<crate::types::Department>,
) -> GovView {
    let id = s.next_proposal_id;
    let pt = proposal_type_of(proposal_type_index).unwrap();
    let th = threshold_of(threshold_index).unwrap();
    let p = Proposal {
        id,
        proposer: who,
        title,
        description,
        proposal_type: pt,
        threshold: th,
        deposit: cfg.minimum_deposit,
        voting_start: submitted_voting_start(cfg, now, is_emergency),
        voting_end: submitted_voting_end(cfg, now, is_emergency),
        vote_tally: zero_tally(),
        status: ProposalStatus::Pending,
        is_emergency,
        department: None,
        district: proposal_district(district_index, pt)->Ok_0,
        requires_cross_approval: false,
        cross_approved_by,
        action: None,
        executed_at: None,
    };
    GovView {
        proposals: s.proposals.insert(id, p),
        next_proposal_id: s.next_proposal_id.saturating_add(1),
        account_last_proposal: s.account_last_proposal.insert(who, now),
        events: s.events.push(
            Event::ProposalSubmitted {
                proposal_id: id,
                proposer: who,
                proposal_type_index: proposal_type_index_of(pt),
                threshold_index: threshold_index_of(th),
            },
        ),
        ..s
    }
}

impl Pallet {
    /// Submits a governance proposal.
    ///
    /// `compliant` and `flagged` are the compliance provider's and the
    /// behaviour-flag provider's answers for the signer; `reserve_ok` is
    /// whether reserving `cfg.minimum_deposit` from the signer succeeded
    /// (the reservation stands only where this returns `Ok`).
    pub fn submit_proposal(
        &mut self,
        cfg: &Config,
        now: BlockNumber,
        origin: Origin,
        compliant: bool,
        flagged: bool,
        reserve_ok: bool,
        title: Vec<u8>,
        description: Vec<u8>,
        proposal_type_index: u8,
        threshold_index: u8,
        is_emergency: bool,
        district_index: Option<u8>,
    ) -> (r: Result<(), Error>)
        ensures
            r == (match submit_proposal_error(
                old(self)@,
                *cfg,
                now,
                origin,
                compliant,
                flagged,
                reserve_ok,
                title@.len(),
                description@.len(),
                proposal_type_index,
                threshold_index,
                is_emergency,
                district_index,
            ) {
                Some(e) => Err(e),
                None => Ok(()),
            }),
            r is Err ==> final(self)@ == old(self)@,
            r is Ok ==> ({
                let c = final(self)@.proposals[old(self)@.next_proposal_id].cross_approved_by;
                c@.len() == 0 && final(self)@ == submit_proposal_post(
                    old(self)@,
                    *cfg,
                    now,
                    signer_of(origin).unwrap(),
                    title,
                    description,
                    proposal_type_index,
                    threshold_index,
                    is_emergency,
                    district_index,
                    c,
                )
            }),
    {
        let who = match origin {
            Origin::Signed(w) => w,
            _ => return Err(Error::BadOrigin),
        };
        if !compliant {
            return Err(Error::InsufficientCompliance);
        }
        if flagged {
            return Err(Error::BehaviorCooldownActive);
        }
        if !is_emergency {
            let last = self.account_last_proposal.get_or(&who, 0);
            let elapsed = now.saturating_sub(last);
            if elapsed < cfg.proposal_cooldown {
                return Err(Error::ProposalCooldownActive);
            }
        }
        let proposal_type = match proposal_type_from_index(proposal_type_index) {
            Some(t) => t,
            None => return Err(Error::InvalidProposalType),
        };
        let threshold = match threshold_from_index(threshold_index) {
            Some(t) => t,
            None => return Err(Error::InvalidThreshold),
        };
        let district = match district_index {
            Some(idx) => {
                if idx >= 6 {
                    return Err(Error::InvalidDistrict);
                }
                BelizeDistrict::from_index(idx)
            },
            None => {
                if proposal_type == ProposalType::DistrictLocal {
                    return Err(Error::DistrictRequired);
                }
                None
            },
        };
        if !reserve_ok {
            return Err(Error::CurrencyFailure);
        }
        if title.len() > 256 || description.len() > 1024 {
            return Err(Error::InvalidProposalType);
        }
        let launch = if is_emergency { EMERGENCY_LAUNCH_PERIOD } else { cfg.launch_period };
        let voting_start = now.saturating_add(launch);
        let period = if is_emergency { EMERGENCY_VOTING_PERIOD } else { cfg.voting_period };
        let voting_end = voting_start.saturating_add(period);
        let proposal_id = self.next_proposal_id;
        let cross: Vec<crate::types::Department> = Vec::new();
        let ghost cross_g = cross;
        let ghost t_g = title;
        let ghost d_g = description;
        let proposal = Proposal {
            id: proposal_id,
            proposer: who,
            title,
            description,
            proposal_type,
            threshold,
            deposit: cfg.minimum_deposit,
            voting_start,
            voting_end,
            vote_tally: VoteTally { ayes: 0, nays: 0, abstentions: 0, total_weight: 0, participation: 0 },
            status: ProposalStatus::Pending,
            is_emergency,
            department: None,
            district,
            requires_cross_approval: false,
            cross_approved_by: cross,
            action: None,
            executed_at: None,
        };
        self.proposals.insert(proposal_id, proposal);
        self.next_proposal_id = proposal_id.saturating_add(1);
        self.account_last_proposal.insert(who, now);
        let pti = proposal_type_to_index(proposal_type);
        let thi = threshold_to_index(threshold);
        self.events.push(
            Event::ProposalSubmitted {
                proposal_id,
                proposer: who,
                proposal_type_index: pti,
                threshold_index: thi,
            },
        );
        proof {
            let post = submit_proposal_post(
                old(self)@,
                *cfg,
                now,
                who,
                t_g,
                d_g,
                proposal_type_index,
                threshold_index,
                is_emergency,
                district_index,
                cross_g,
            );
            assert(self@ =~= post);
        }
        Ok(())
    }
}


// ---------------------------------------------------------------------------
// Voting weight
// ---------------------------------------------------------------------------

/// Whether `delegator`'s delegation exists, is active and has not expired:
/// it expires after its expiry block.
pub open spec fn delegation_active(s: GovView, delegator: AccountId, now: BlockNumber) -> bool {
    &&& s.vote_delegations.contains_key(delegator)
    &&& s.vote_delegations[delegator].is_active
    &&& now <= s.vote_delegations[delegator].expires_at
}

/// Accounts that delegated to `delegate`, in the order they delegated.
pub open spec fn receivers_of(s: GovView, delegate: AccountId) -> Seq<AccountId> {
    if s.delegation_receivers.contains_key(delegate) {
        s.delegation_receivers[delegate]
    } else {
        Seq::empty()
    }
}

/// One, plus one for each of `ds` whose delegation is active (saturating).
pub open spec fn power_from(s: GovView, ds: Seq<AccountId>, now: BlockNumber) -> u32
    decreases ds.len(),
{
    if ds.len() == 0 {
        1
    } else {
        let p = power_from(s, ds.drop_last(), now);
        if delegation_active(s, ds.last(), now) {
            p.saturating_add(1)
        } else {
            p
        }
    }
}

/// Voting power of `account`: one, plus one per active delegation to it.
pub open spec fn voting_power(s: GovView, account: AccountId, now: BlockNumber) -> u32 {
    power_from(s, receivers_of(s, account), now)
}

/// Raw stake units a free balance buys.
pub open spec fn stake_units(cfg: Config, balance: Balance) -> u128 {
    if cfg.stake_unit_size > 0 {
        balance / cfg.stake_unit_size
    } else {
        0
    }
}

/// Stake-derived voting units: square-rooted under quadratic voting, and
/// capped at `max_voting_units`.
pub open spec fn stake_weight(cfg: Config, balance: Balance) -> u32 {
    let units = stake_units(cfg, balance);
    let raw: int = if cfg.quadratic_voting_enabled {
        floor_sqrt(units as nat) as int
    } else {
        units as int
    };
    if raw < cfg.max_voting_units {
        raw as u32
    } else {
        cfg.max_voting_units
    }
}

/// The multiplier of a conviction: 1x, 2x, 3x and 6x for convictions 0 to
/// 3; a higher conviction multiplies by itself.
pub open spec fn conviction_multiplier(conviction: u8) -> u32 {
    if conviction == 0 {
        1
    } else if conviction == 1 {
        2
    } else if conviction == 2 {
        3
    } else if conviction == 3 {
        6
    } else {
        conviction as u32
    }
}

/// A base weight multiplied by the conviction's multiplier and by the
/// account's effective multiplier in percent (0 counting as 100).
pub open spec fn convicted_weight(base: u32, conviction: u8, multiplier: u8) -> u32 {
    let c: u32 = conviction_multiplier(conviction);
    let m: u32 = if multiplier == 0 { 100 } else { multiplier as u32 };
    (sat_mul_u32(sat_mul_u32(base, c), m) / 100) as u32
}

/// Base weight: community rank, PoUW contribution and stake weight.
pub open spec fn base_weight(s: GovView, cfg: Config, who: AccountId, balance: Balance) -> u32 {
    map_get_or(s.community_ranks, who, 0).saturating_add(
        map_get_or(s.pouw_contributions, who, 0),
    ).saturating_add(stake_weight(cfg, balance))
}

/// Weight of a direct vote, with the voter's delegated power.
pub open spec fn cast_vote_weight(
    s: GovView,
    cfg: Config,
    now: BlockNumber,
    who: AccountId,
    balance: Balance,
    conviction: u8,
) -> u32 {
    let base = base_weight(s, cfg, who, balance).saturating_add(
        voting_power(s, who, now).saturating_sub(1),
    );
    convicted_weight(base, conviction, map_get_or(s.effective_voting_multiplier, who, 0))
}

/// A tally with one more vote of weight `w`.
pub open spec fn tally_add(t: VoteTally, c: VoteChoice, w: u32) -> VoteTally {
    let t2 = match c {
        VoteChoice::Aye => VoteTally { ayes: t.ayes.saturating_add(w), ..t },
        VoteChoice::Nay => VoteTally { nays: t.nays.saturating_add(w), ..t },
        VoteChoice::Abstain => VoteTally { abstentions: t.abstentions.saturating_add(w), ..t },
    };
    VoteTally { total_weight: t.total_weight.saturating_add(w), ..t2 }
}

/// Quarterly participation counters after one more vote.
pub open spec fn participation_after_vote(p: (u32, u32)) -> (u32, u32) {
    let e: u32 = if p.0 == 0 && p.1 == 0 { 1 } else { p.0 };
    (e, p.1.saturating_add(1))
}

fn tally_with(t: VoteTally, c: VoteChoice, w: u32) -> (r: VoteTally)
    ensures
        r == tally_add(t, c, w),
{
    let mut t2 = t;
    match c {
        VoteChoice::Aye => t2.ayes = t.ayes.saturating_add(w),
        VoteChoice::Nay => t2.nays = t.nays.saturating_add(w),
        VoteChoice::Abstain => t2.abstentions = t.abstentions.saturating_add(w),
    }
    t2.total_weight = t.total_weight.saturating_add(w);
    t2
}

fn convicted(base: u32, conviction: u8, multiplier: u8) -> (r: u32)
    ensures
        r == convicted_weight(base, conviction, multiplier),
{
    let c: u32 = if conviction == 0 {
        1
    } else if conviction == 1 {
        2
    } else if conviction == 2 {
        3
    } else if conviction == 3 {
        6
    } else {
        conviction as u32
    };
    let cw = saturating_mul_u32(base, c);
    let m: u32 = if multiplier == 0 { 100 } else { multiplier as u32 };
    saturating_mul_u32(cw, m) / 100
}

/// Stake weight of a free balance under the configuration.
pub fn compute_stake_weight(cfg: &Config, balance: Balance) -> (w: u32)
    ensures
        w == stake_weight(*cfg, balance),
{
    let units: u128 = if cfg.stake_unit_size > 0 { balance / cfg.stake_unit_size } else { 0 };
    let raw = if cfg.quadratic_voting_enabled { Pallet::isqrt(units) } else { units };
    if raw < cfg.max_voting_units as u128 {
        raw as u32
    } else {
        cfg.max_voting_units
    }
}

impl Pallet {
    /// Whether `delegator` has an active, unexpired delegation at `now`.
    pub fn is_delegation_active(&self, delegator: AccountId, now: BlockNumber) -> (b: bool)
        ensures
            b == delegation_active(self@, delegator, now),
    {
        match self.vote_delegations.get(&delegator) {
            Some(d) => d.is_active && now <= d.expires_at,
            None => false,
        }
    }

    /// One, plus one for each account with an active delegation to `account`.
    pub fn calculate_voting_power(&self, account: AccountId, now: BlockNumber) -> (p: u32)
        ensures
            p == voting_power(self@, account, now),
    {
        let mut power: u32 = 1;
        match self.delegation_receivers.get(&account) {
            Some(ds) => {
                let mut i: usize = 0;
                while i < ds.len()
                    invariant
                        i <= ds@.len(),
                        ds@ == receivers_of(self@, account),
                        power == power_from(self@, ds@.subrange(0, i as int), now),
                    decreases ds@.len() - i,
                {
                    let d = ds[i];
                    let active = self.is_delegation_active(d, now);
                    proof {
                        let pre = ds@.subrange(0, i as int);
                        let post = ds@.subrange(0, i + 1);
                        assert(post.drop_last() =~= pre);
                        assert(post.last() == d);
                    }
                    if active {
                        power = power.saturating_add(1);
                    }
                    i = i + 1;
                }
                assert(ds@.subrange(0, ds@.len() as int) =~= ds@);
            },
            None => {
                assert(receivers_of(self@, account) =~= Seq::<AccountId>::empty());
            },
        }
        power
    }
}

// ---------------------------------------------------------------------------
// cast_vote
// ---------------------------------------------------------------------------

/// Why `cast_vote` refuses, checked in order.
pub open spec fn cast_vote_error(
    s: GovView,
    now: BlockNumber,
    origin: Origin,
    compliant: bool,
    flagged: bool,
    proposal_id: u32,
    vote_choice_index: u8,
) -> Option<Error> {
    if signer_of(origin) is None {
        Some(Error::BadOrigin)
    } else if !compliant {
        Some(Error::InsufficientCompliance)
    } else if flagged {
        Some(Error::BehaviorCooldownActive)
    } else if vote_choice_of(vote_choice_index) is None {
        Some(Error::InvalidThreshold)
    } else if !s.proposals.contains_key(proposal_id) {
        Some(Error::ProposalNotFound)
    } else if now < s.proposals[proposal_id].voting_start {
        Some(Error::VotingPeriodNotStarted)
    } else if now > s.proposals[proposal_id].voting_end {
        Some(Error::VotingPeriodEnded)
    } else if s.votes.contains_key((proposal_id, signer_of(origin).unwrap())) {
        Some(Error::AlreadyVoted)
    } else {
        None
    }
}

/// The state after a vote of weight `w` is recorded for `who`.
pub open spec fn record_vote_post(
    s: GovView,
    now: BlockNumber,
    who: AccountId,
    proposal_id: u32,
    choice: VoteChoice,
    conviction: u8,
    w: u32,
) -> GovView {
    let p = s.proposals[proposal_id];
    GovView {
        votes: s.votes.insert(
            (proposal_id, who),
            Vote { vote: choice, weight: w, conviction, timestamp: block_as_u32(now) },
        ),
        proposals: s.proposals.insert(
            proposal_id,
            Proposal {
                vote_tally: tally_add(p.vote_tally, choice, w),
                status: ProposalStatus::Voting,
                ..p
            },
        ),
        ..s
    }
}

/// The state after a successful `cast_vote`.
pub open spec fn cast_vote_post(
    s: GovView,
    cfg: Config,
    now: BlockNumber,
    who: AccountId,
    balance: Balance,
    proposal_id: u32,
    vote_choice_index: u8,
    conviction: u8,
) -> GovView {
    let w = cast_vote_weight(s, cfg, now, who, balance, conviction);
    let c = vote_choice_of(vote_choice_index).unwrap();
    let r = record_vote_post(s, now, who, proposal_id, c, conviction, w);
    GovView {
        account_vote_participation: s.account_vote_participation.insert(
            who,
            participation_after_vote(map_get_or(s.account_vote_participation, who, (0, 0))),
        ),
        events: s.events.push(
            Event::VoteCast {
                proposal_id,
                voter: who,
                vote_index: vote_choice_index_of(c),
                weight: w,
            },
        ),
        ..r
    }
}

impl Pallet {
    /// Records `who`'s vote with `final_weight` on an existing proposal.
    fn record_vote(
        &mut self,
        now: BlockNumber,
        who: AccountId,
        proposal_id: u32,
        choice: VoteChoice,
        conviction: u8,
        w: u32,
    )
        requires
            old(self)@.proposals.contains_key(proposal_id),
        ensures
            final(self)@ == record_vote_post(old(self)@, now, who, proposal_id, choice, conviction, w),
    {
        let ts: u32 = if now > u32::MAX as u64 { u32::MAX } else { now as u32 };
        self.votes.insert((proposal_id, who), Vote { vote: choice, weight: w, conviction, timestamp: ts });
        match self.proposals.take(&proposal_id) {
            Some((pos, p)) => {
                let tally = tally_with(p.vote_tally, choice, w);
                let np = Proposal { vote_tally: tally, status: ProposalStatus::Voting, ..p };
                self.proposals.restore(pos, proposal_id, np);
            },
            None => {},
        }
        proof {
            assert(self@ =~= record_vote_post(old(self)@, now, who, proposal_id, choice, conviction, w));
        }
    }

    /// Casts a weighted vote on a proposal in its voting period.
    ///
    /// `compliant` and `flagged` are the providers' answers for the signer
    /// and `free_balance` is the signer's free balance.
    pub fn cast_vote(
        &mut self,
        cfg: &Config,
        now: BlockNumber,
        origin: Origin,
        compliant: bool,
        flagged: bool,
        free_balance: Balance,
        proposal_id: u32,
        vote_choice_index: u8,
        conviction: u8,
    ) -> (r: Result<(), Error>)
        ensures
            r == (match cast_vote_error(
                old(self)@,
                now,
                origin,
                compliant,
                flagged,
                proposal_id,
                vote_choice_index,
            ) {
                Some(e) => Err(e),
                None => Ok(()),
            }),
            r is Err ==> final(self)@ == old(self)@,
            r is Ok ==> final(self)@ == cast_vote_post(
                old(self)@,
                *cfg,
                now,
                signer_of(origin).unwrap(),
                free_balance,
                proposal_id,
                vote_choice_index,
                conviction,
            ),
    {
        let who = match origin {
            Origin::Signed(w) => w,
            _ => return Err(Error::BadOrigin),
        };
        if !compliant {
            return Err(Error::InsufficientCompliance);
        }
        if flagged {
            return Err(Error::BehaviorCooldownActive);
        }
        let choice = match vote_choice_from_index(vote_choice_index) {
            Some(c) => c,
            None => return Err(Error::InvalidThreshold),
        };
        match self.proposals.get(&proposal_id) {
            Some(p) => {
                if now < p.voting_start {
                    return Err(Error::VotingPeriodNotStarted);
                }
                if now > p.voting_end {
                    return Err(Error::VotingPeriodEnded);
                }
            },
            None => return Err(Error::ProposalNotFound),
        }
        if self.votes.contains_key(&(proposal_id, who)) {
            return Err(Error::AlreadyVoted);
        }
        let ghost s0 = self@;
        let rank = self.community_ranks.get_or(&who, 0);
        let pouw = self.pouw_contributions.get_or(&who, 0);
        let stake = compute_stake_weight(cfg, free_balance);
        let bonus = self.calculate_voting_power(who, now).saturating_sub(1);
        let base = rank.saturating_add(pouw).saturating_add(stake).saturating_add(bonus);
        let mult = self.effective_voting_multiplier.get_or(&who, 0);
        let w = convicted(base, conviction, mult);
        assert(w == cast_vote_weight(s0, *cfg, now, who, free_balance, conviction));
        let (e, v) = self.account_vote_participation.get_or(&who, (0, 0));
        let e2: u32 = if e == 0 && v == 0 { 1 } else { e };
        self.account_vote_participation.insert(who, (e2, v.saturating_add(1)));
        self.record_vote(now, who, proposal_id, choice, conviction, w);
        let vi: u8 = vote_choice_index;
        self.events.push(Event::VoteCast { proposal_id, voter: who, vote_index: vi, weight: w });
        proof {
            assert(self@ =~= cast_vote_post(
                s0,
                *cfg,
                now,
                who,
                free_balance,
                proposal_id,
                vote_choice_index,
                conviction,
            ));
        }
        Ok(())
    }
}


// ---------------------------------------------------------------------------
// finalize_proposal and council_override
// ---------------------------------------------------------------------------

/// Share of decisive votes in favour, in percent, rounded down.
pub open spec fn approval_percentage(t: VoteTally) -> u32 {
    let d = t.ayes.saturating_add(t.nays);
    if d > 0 {
        (sat_mul_u32(t.ayes, 100) / d) as u32
    } else {
        0
    }
}

/// Enactment delay by proposal type.
pub open spec fn type_enactment_delay(cfg: Config, t: ProposalType) -> BlockNumber {
    match t {
        ProposalType::Constitutional => cfg.enactment_period_constitutional,
        ProposalType::Economic => cfg.enactment_period_economic,
        _ => cfg.enactment_period_standard,
    }
}

/// Minimum timelock of the action a proposal carries.
pub open spec fn action_timelock(cfg: Config, a: Option<ProposalAction>) -> BlockNumber {
    match a {
        Some(ProposalAction::RuntimeUpgrade { .. }) => cfg.runtime_upgrade_min_timelock,
        Some(ProposalAction::ParameterChange { .. }) => cfg.parameter_change_min_timelock,
        _ => 0,
    }
}

/// Delay between approval and the earliest execution of a proposal.
pub open spec fn enactment_delay(cfg: Config, p: Proposal) -> BlockNumber {
    let a = type_enactment_delay(cfg, p.proposal_type);
    let b = action_timelock(cfg, p.action);
    if a >= b {
        a
    } else {
        b
    }
}

/// Whether a proposal's tally meets its threshold.
pub open spec fn proposal_passes(p: Proposal) -> bool {
    approval_percentage(p.vote_tally) >= required_percentage_of(p.threshold)
}

pub open spec fn finalize_proposal_error(s: GovView, now: BlockNumber, origin: Origin, proposal_id: u32) -> Option<
    Error,
> {
    if signer_of(origin) is None {
        Some(Error::BadOrigin)
    } else if !s.proposals.contains_key(proposal_id) {
        Some(Error::ProposalNotFound)
    } else if now <= s.proposals[proposal_id].voting_end {
        Some(Error::VotingPeriodEnded)
    } else if !(s.proposals[proposal_id].status == ProposalStatus::Pending
        || s.proposals[proposal_id].status == ProposalStatus::Voting) {
        Some(Error::AlreadyExecuted)
    } else {
        None
    }
}

/// The state after `finalize_proposal`: approved proposals are queued for
/// enactment, others are rejected.
pub open spec fn finalize_proposal_post(s: GovView, cfg: Config, now: BlockNumber, proposal_id: u32) -> GovView {
    let p = s.proposals[proposal_id];
    let t = p.vote_tally;
    if proposal_passes(p) {
        let at = sat_add_u64(now, enactment_delay(cfg, p));
        GovView {
            proposals: s.proposals.insert(proposal_id, Proposal { status: ProposalStatus::Approved, ..p }),
            proposal_enactment_block: s.proposal_enactment_block.insert(proposal_id, at),
            events: s.events.push(Event::ProposalEnqueued { proposal_id, execute_at: at }).push(
                Event::ProposalApproved {
                    proposal_id,
                    ayes: t.ayes,
                    nays: t.nays,
                    abstentions: t.abstentions,
                },
            ),
            ..s
        }
    } else {
        GovView {
            proposals: s.proposals.insert(proposal_id, Proposal { status: ProposalStatus::Rejected, ..p }),
            events: s.events.push(
                Event::ProposalRejected {
                    proposal_id,
                    ayes: t.ayes,
                    nays: t.nays,
                    abstentions: t.abstentions,
                },
            ),
            ..s
        }
    }
}

fn percentage_of_ayes(t: &VoteTally) -> (r: u32)
    ensures
        r == approval_percentage(*t),
{
    let d = t.ayes.saturating_add(t.nays);
    if d > 0 {
        saturating_mul_u32(t.ayes, 100) / d
    } else {
        0
    }
}

fn enactment_delay_of(cfg: &Config, p: &Proposal) -> (d: BlockNumber)
    ensures
        d == enactment_delay(*cfg, *p),
{
    let a = match p.proposal_type {
        ProposalType::Constitutional => cfg.enactment_period_constitutional,
        ProposalType::Economic => cfg.enactment_period_economic,
        _ => cfg.enactment_period_standard,
    };
    let b = match &p.action {
        Some(ProposalAction::RuntimeUpgrade { .. }) => cfg.runtime_upgrade_min_timelock,
        Some(ProposalAction::ParameterChange { .. }) => cfg.parameter_change_min_timelock,
        _ => 0,
    };
    if a >= b {
        a
    } else {
        b
    }
}

fn required_percentage(t: VotingThreshold) -> (r: u32)
    ensures
        r == required_percentage_of(t),
{
    match t {
        VotingThreshold::SimpleMajority => crate::types::SIMPLE_MAJORITY_THRESHOLD,
        VotingThreshold::Supermajority => crate::types::SUPERMAJORITY_THRESHOLD,
        VotingThreshold::Unanimous => 100,
        VotingThreshold::Custom(p) => p as u32,
    }
}

pub open spec fn council_override_error(
    s: GovView,
    council_origin: bool,
    proposal_id: u32,
) -> Option<Error> {
    if !council_origin {
        Some(Error::BadOrigin)
    } else if !s.proposals.contains_key(proposal_id) {
        Some(Error::ProposalNotFound)
    } else if !(s.jaguar_mode is Some && s.jaguar_mode.unwrap().active) {
        Some(Error::NotInEmergencyMode)
    } else {
        None
    }
}

pub open spec fn council_override_post(
    s: GovView,
    cfg: Config,
    now: BlockNumber,
    proposal_id: u32,
    reason: Vec<u8>,
) -> GovView {
    let p = s.proposals[proposal_id];
    GovView {
        proposals: s.proposals.insert(proposal_id, Proposal { status: ProposalStatus::Approved, ..p }),
        proposal_enactment_block: s.proposal_enactment_block.insert(
            proposal_id,
            sat_add_u64(now, type_enactment_delay(cfg, p.proposal_type)),
        ),
        events: s.events.push(Event::CouncilOverrideExecuted { proposal_id, override_reason: reason }),
        ..s
    }
}

impl Pallet {
    /// Closes voting on a proposal whose voting period has ended, approving
    /// or rejecting it by its threshold. Returns the proposer and deposit,
    /// which the caller unreserves.
    pub fn finalize_proposal(&mut self, cfg: &Config, now: BlockNumber, origin: Origin, proposal_id: u32) -> (r:
        Result<(AccountId, Balance), Error>)
        ensures
            match finalize_proposal_error(old(self)@, now, origin, proposal_id) {
                Some(e) => r == Err::<(AccountId, Balance), Error>(e) && final(self)@ == old(self)@,
                None => {
                    &&& r == Ok::<(AccountId, Balance), Error>(
                        (
                            old(self)@.proposals[proposal_id].proposer,
                            old(self)@.proposals[proposal_id].deposit,
                        ),
                    )
                    &&& final(self)@ == finalize_proposal_post(old(self)@, *cfg, now, proposal_id)
                },
            },
    {
        match origin {
            Origin::Signed(_) => {},
            _ => return Err(Error::BadOrigin),
        }
        match self.proposals.get(&proposal_id) {
            Some(p) => {
                if now <= p.voting_end {
                    return Err(Error::VotingPeriodEnded);
                }
                if !(p.status == ProposalStatus::Pending || p.status == ProposalStatus::Voting) {
                    return Err(Error::AlreadyExecuted);
                }
            },
            None => return Err(Error::ProposalNotFound),
        }
        let ghost s0 = self@;
        match self.proposals.take(&proposal_id) {
            Some((pos, p)) => {
                let pct = percentage_of_ayes(&p.vote_tally);
                let req = required_percentage(p.threshold);
                let t = p.vote_tally;
                let proposer = p.proposer;
                let deposit = p.deposit;
                if pct >= req {
                    let delay = enactment_delay_of(cfg, &p);
                    let at = now.saturating_add(delay);
                    let np = Proposal { status: ProposalStatus::Approved, ..p };
                    self.proposals.restore(pos, proposal_id, np);
                    self.proposal_enactment_block.insert(proposal_id, at);
                    self.events.push(Event::ProposalEnqueued { proposal_id, execute_at: at });
                    self.events.push(
                        Event::ProposalApproved {
                            proposal_id,
                            ayes: t.ayes,
                            nays: t.nays,
                            abstentions: t.abstentions,
                        },
                    );
                } else {
                    let np = Proposal { status: ProposalStatus::Rejected, ..p };
                    self.proposals.restore(pos, proposal_id, np);
                    self.events.push(
                        Event::ProposalRejected {
                            proposal_id,
                            ayes: t.ayes,
                            nays: t.nays,
                            abstentions: t.abstentions,
                        },
                    );
                }
                proof {
                    assert(self@ =~= finalize_proposal_post(s0, *cfg, now, proposal_id));
                }
                Ok((proposer, deposit))
            },
            None => Err(Error::ProposalNotFound),
        }
    }

    /// Approves a proposal by council decision while an emergency is active;
    /// the enactment delay of its type still applies.
    pub fn council_override(
        &mut self,
        cfg: &Config,
        now: BlockNumber,
        council_origin: bool,
        proposal_id: u32,
        override_reason: Vec<u8>,
    ) -> (r: Result<(), Error>)
        ensures
            r == (match council_override_error(old(self)@, council_origin, proposal_id) {
                Some(e) => Err(e),
                None => Ok(()),
            }),
            r is Err ==> final(self)@ == old(self)@,
            r is Ok ==> final(self)@ == council_override_post(old(self)@, *cfg, now, proposal_id, override_reason),
    {
        if !council_origin {
            return Err(Error::BadOrigin);
        }
        if !self.proposals.contains_key(&proposal_id) {
            return Err(Error::ProposalNotFound);
        }
        let active = match &self.jaguar_mode {
            Some(e) => e.active,
            None => false,
        };
        if !active {
            return Err(Error::NotInEmergencyMode);
        }
        let ghost s0 = self@;
        let ghost reason_g = override_reason;
        match self.proposals.take(&proposal_id) {
            Some((pos, p)) => {
                let delay = match p.proposal_type {
                    ProposalType::Constitutional => cfg.enactment_period_constitutional,
                    ProposalType::Economic => cfg.enactment_period_economic,
                    _ => cfg.enactment_period_standard,
                };
                let np = Proposal { status: ProposalStatus::Approved, ..p };
                self.proposals.restore(pos, proposal_id, np);
                self.proposal_enactment_block.insert(proposal_id, now.saturating_add(delay));
                self.events.push(Event::CouncilOverrideExecuted { proposal_id, override_reason });
                proof {
                    assert(self@ =~= council_override_post(s0, *cfg, now, proposal_id, reason_g));
                }
                Ok(())
            },
            None => Err(Error::ProposalNotFound),
        }
    }
}

// ---------------------------------------------------------------------------
// Scores
// ---------------------------------------------------------------------------

/// The state after `account`'s community rank becomes `new_rank`.
pub open spec fn update_rank_post(s: GovView, account: AccountId, new_rank: u32) -> GovView {
    GovView {
        community_ranks: s.community_ranks.insert(account, new_rank),
        council_members: if s.council_members.contains_key(account) {
            let m = s.council_members[account];
            s.council_members.insert(
                account,
                crate::types::CouncilMember {
                    community_rank: new_rank,
                    voting_weight: new_rank.saturating_add(m.pouw_contribution),
                    ..m
                },
            )
        } else {
            s.council_members
        },
        events: s.events.push(
            Event::CommunityRankUpdated {
                account,
                old_rank: map_get_or(s.community_ranks, account, 0),
                new_rank,
            },
        ),
        ..s
    }
}

/// The state after `account`'s PoUW contribution becomes `new_contribution`.
pub open spec fn update_pouw_post(s: GovView, account: AccountId, new_contribution: u32) -> GovView {
    GovView {
        pouw_contributions: s.pouw_contributions.insert(account, new_contribution),
        council_members: if s.council_members.contains_key(account) {
            let m = s.council_members[account];
            s.council_members.insert(
                account,
                crate::types::CouncilMember {
                    pouw_contribution: new_contribution,
                    voting_weight: m.community_rank.saturating_add(new_contribution),
                    ..m
                },
            )
        } else {
            s.council_members
        },
        events: s.events.push(
            Event::PoUWContributionUpdated {
                account,
                old_contribution: map_get_or(s.pouw_contributions, account, 0),
                new_contribution,
            },
        ),
        ..s
    }
}

impl Pallet {
    /// Sets an account's community rank (root only), refreshing the voting
    /// weight of a council member.
    pub fn update_community_rank(&mut self, origin: Origin, account: AccountId, new_rank: u32) -> (r: Result<
        (),
        Error,
    >)
        ensures
            origin != Origin::Root ==> r == Err::<(), Error>(Error::BadOrigin) && final(self)@ == old(self)@,
            origin == Origin::Root ==> r is Ok && final(self)@ == update_rank_post(old(self)@, account, new_rank),
    {
        if origin != Origin::Root {
            return Err(Error::BadOrigin);
        }
        let ghost s0 = self@;
        let old_rank = self.community_ranks.get_or(&account, 0);
        self.community_ranks.insert(account, new_rank);
        match self.council_members.get(&account) {
            Some(m) => {
                let mut nm = *m;
                nm.community_rank = new_rank;
                nm.voting_weight = new_rank.saturating_add(m.pouw_contribution);
                self.council_members.insert(account, nm);
            },
            None => {},
        }
        self.events.push(Event::CommunityRankUpdated { account, old_rank, new_rank });
        proof {
            assert(self@ =~= update_rank_post(s0, account, new_rank));
        }
        Ok(())
    }

    /// Sets an account's PoUW contribution (root only), refreshing the voting
    /// weight of a council member.
    pub fn update_pouw_contribution(&mut self, origin: Origin, account: AccountId, new_contribution: u32) -> (r:
        Result<(), Error>)
        ensures
            origin != Origin::Root ==> r == Err::<(), Error>(Error::BadOrigin) && final(self)@ == old(self)@,
            origin == Origin::Root ==> r is Ok && final(self)@ == update_pouw_post(
                old(self)@,
                account,
                new_contribution,
            ),
    {
        if origin != Origin::Root {
            return Err(Error::BadOrigin);
        }
        let ghost s0 = self@;
        let old_contribution = self.pouw_contributions.get_or(&account, 0);
        self.pouw_contributions.insert(account, new_contribution);
        match self.council_members.get(&account) {
            Some(m) => {
                let mut nm = *m;
                nm.pouw_contribution = new_contribution;
                nm.voting_weight = m.community_rank.saturating_add(new_contribution);
                self.council_members.insert(account, nm);
            },
            None => {},
        }
        self.events.push(Event::PoUWContributionUpdated { account, old_contribution, new_contribution });
        proof {
            assert(self@ =~= update_pouw_post(s0, account, new_contribution));
        }
        Ok(())
    }
}

// ---------------------------------------------------------------------------
// Commit-reveal voting
// ---------------------------------------------------------------------------

pub open spec fn commit_vote_error(s: GovView, now: BlockNumber, origin: Origin, proposal_id: u32) -> Option<
    Error,
> {
    if signer_of(origin) is None {
        Some(Error::BadOrigin)
    } else if !s.proposals.contains_key(proposal_id) {
        Some(Error::ProposalNotFound)
    } else if now < s.proposals[proposal_id].voting_start {
        Some(Error::VotingPeriodNotStarted)
    } else if now > s.proposals[proposal_id].voting_end {
        Some(Error::VotingPeriodEnded)
    } else if s.votes.contains_key((proposal_id, signer_of(origin).unwrap())) {
        Some(Error::AlreadyVoted)
    } else if s.vote_commitments.contains_key((proposal_id, signer_of(origin).unwrap())) {
        Some(Error::VoteAlreadyCommitted)
    } else {
        None
    }
}

/// The state after `who` commits `commitment` for a proposal.
pub open spec fn commit_vote_post(s: GovView, who: AccountId, proposal_id: u32, commitment: [u8; 32]) -> GovView {
    GovView {
        vote_commitments: s.vote_commitments.insert((proposal_id, who), commitment),
        events: s.events.push(Event::VoteCommitted { proposal_id, voter: who }),
        ..s
    }
}

/// The commitment a vote and salt reveal: the digest of the vote index
/// followed by the salt.
pub open spec fn commitment_of(vote_choice_index: u8, salt: Seq<u8>) -> Seq<u8> {
    blake2_256_digest(seq![vote_choice_index] + salt)
}

pub open spec fn reveal_vote_error_with(
    s: GovView,
    cfg: Config,
    now: BlockNumber,
    origin: Origin,
    proposal_id: u32,
    vote_choice_index: u8,
    digest: Seq<u8>,
) -> Option<Error> {
    let who = signer_of(origin).unwrap();
    if signer_of(origin) is None {
        Some(Error::BadOrigin)
    } else if !s.vote_commitments.contains_key((proposal_id, who)) {
        Some(Error::NoCommitmentFound)
    } else if digest != s.vote_commitments[(proposal_id, who)]@ {
        Some(Error::CommitmentHashMismatch)
    } else if s.votes.contains_key((proposal_id, who)) {
        Some(Error::VoteAlreadyRevealedViaCommit)
    } else if vote_choice_of(vote_choice_index) is None {
        Some(Error::InvalidThreshold)
    } else if !s.proposals.contains_key(proposal_id) {
        Some(Error::ProposalNotFound)
    } else if now < s.proposals[proposal_id].voting_start {
        Some(Error::VotingPeriodNotStarted)
    } else if now > sat_add_u64(s.proposals[proposal_id].voting_end, cfg.voting_period) {
        Some(Error::VotingPeriodEnded)
    } else if !(s.proposals[proposal_id].status == ProposalStatus::Pending
        || s.proposals[proposal_id].status == ProposalStatus::Voting) {
        Some(Error::ProposalNotFound)
    } else {
        None
    }
}

/// Why revealing a vote with the given salt fails, checked in order.
pub open spec fn reveal_vote_error(
    s: GovView,
    cfg: Config,
    now: BlockNumber,
    origin: Origin,
    proposal_id: u32,
    vote_choice_index: u8,
    salt: Seq<u8>,
) -> Option<Error> {
    reveal_vote_error_with(s, cfg, now, origin, proposal_id, vote_choice_index, commitment_of(vote_choice_index, salt))
}

pub open spec fn reveal_vote_post(
    s: GovView,
    cfg: Config,
    now: BlockNumber,
    who: AccountId,
    balance: Balance,
    proposal_id: u32,
    vote_choice_index: u8,
    conviction: u8,
) -> GovView {
    let w = cast_vote_weight(s, cfg, now, who, balance, conviction);
    let r = record_vote_post(s, now, who, proposal_id, vote_choice_of(vote_choice_index).unwrap(), conviction, w);
    GovView {
        vote_commitments: s.vote_commitments.remove((proposal_id, who)),
        events: s.events.push(
            Event::VoteRevealed { proposal_id, voter: who, vote_index: vote_choice_index, weight: w },
        ),
        ..r
    }
}

pub(crate) fn same_digest(a: &[u8; 32], b: &[u8; 32]) -> (r: bool)
    ensures
        r == (a@ == b@),
{
    let mut i: usize = 0;
    while i < 32
        invariant
            i <= 32,
            a@.len() == 32,
            b@.len() == 32,
            forall|j: int| 0 <= j < i ==> a@[j] == b@[j],
        decreases 32 - i,
    {
        if a[i] != b[i] {
            return false;
        }
        i = i + 1;
    }
    assert(a@ =~= b@);
    true
}

impl Pallet {
    /// Commits a blinded vote (the digest of the vote index and a salt).
    pub fn commit_vote(&mut self, now: BlockNumber, origin: Origin, proposal_id: u32, commitment: [u8; 32]) -> (r:
        Result<(), Error>)
        ensures
            r == (match commit_vote_error(old(self)@, now, origin, proposal_id) {
                Some(e) => Err(e),
                None => Ok(()),
            }),
            r is Err ==> final(self)@ == old(self)@,
            r is Ok ==> final(self)@ == commit_vote_post(old(self)@, signer_of(origin).unwrap(), proposal_id, commitment),
    {
        let who = match origin {
            Origin::Signed(w) => w,
            _ => return Err(Error::BadOrigin),
        };
        match self.proposals.get(&proposal_id) {
            Some(p) => {
                if now < p.voting_start {
                    return Err(Error::VotingPeriodNotStarted);
                }
                if now > p.voting_end {
                    return Err(Error::VotingPeriodEnded);
                }
            },
            None => return Err(Error::ProposalNotFound),
        }
        if self.votes.contains_key(&(proposal_id, who)) {
            return Err(Error::AlreadyVoted);
        }
        if self.vote_commitments.contains_key(&(proposal_id, who)) {
            return Err(Error::VoteAlreadyCommitted);
        }
        self.vote_commitments.insert((proposal_id, who), commitment);
        self.events.push(Event::VoteCommitted { proposal_id, voter: who });
        Ok(())
    }

    /// Reveals a committed vote and records it with the weight `cast_vote`
    /// would give it, delegated power included; reveals are accepted until
    /// one voting period after voting ends, on proposals still pending or
    /// voting.
    pub fn reveal_vote(
        &mut self,
        cfg: &Config,
        now: BlockNumber,
        origin: Origin,
        free_balance: Balance,
        proposal_id: u32,
        vote_choice_index: u8,
        salt: [u8; 32],
        conviction: u8,
    ) -> (r: Result<(), Error>)
        ensures
            r == (match reveal_vote_error(old(self)@, *cfg, now, origin, proposal_id, vote_choice_index, salt@) {
                Some(e) => Err(e),
                None => Ok(()),
            }),
            r is Err ==> final(self)@ == old(self)@,
            r is Ok ==> final(self)@ == reveal_vote_post(
                old(self)@,
                *cfg,
                now,
                signer_of(origin).unwrap(),
                free_balance,
                proposal_id,
                vote_choice_index,
                conviction,
            ),
    {
        let mut preimage: Vec<u8> = Vec::new();
        preimage.push(vote_choice_index);
        let mut i: usize = 0;
        while i < 32
            invariant
                i <= 32,
                salt@.len() == 32,
                preimage@ == seq![vote_choice_index] + salt@.subrange(0, i as int),
            decreases 32 - i,
        {
            preimage.push(salt[i]);
            i = i + 1;
            assert(preimage@ =~= seq![vote_choice_index] + salt@.subrange(0, i as int));
        }
        assert(salt@.subrange(0, 32) =~= salt@);
        let digest = blake2_256(preimage.as_slice());
        self.reveal_vote_with_digest(
            cfg,
            now,
            origin,
            free_balance,
            proposal_id,
            vote_choice_index,
            &digest,
            conviction,
        )
    }

    /// The part of `reveal_vote` after hashing: `digest` is the digest of
    /// the vote index followed by the salt.
    pub fn reveal_vote_with_digest(
        &mut self,
        cfg: &Config,
        now: BlockNumber,
        origin: Origin,
        free_balance: Balance,
        proposal_id: u32,
        vote_choice_index: u8,
        digest: &[u8; 32],
        conviction: u8,
    ) -> (r: Result<(), Error>)
        ensures
            r == (match reveal_vote_error_with(
                old(self)@,
                *cfg,
                now,
                origin,
                proposal_id,
                vote_choice_index,
                digest@,
            ) {
                Some(e) => Err(e),
                None => Ok(()),
            }),
            r is Err ==> final(self)@ == old(self)@,
            r is Ok ==> final(self)@ == reveal_vote_post(
                old(self)@,
                *cfg,
                now,
                signer_of(origin).unwrap(),
                free_balance,
                proposal_id,
                vote_choice_index,
                conviction,
            ),
    {
        let who = match origin {
            Origin::Signed(w) => w,
            _ => return Err(Error::BadOrigin),
        };
        let stored = match self.vote_commitments.get(&(proposal_id, who)) {
            Some(c) => *c,
            None => return Err(Error::NoCommitmentFound),
        };
        if !same_digest(digest, &stored) {
            return Err(Error::CommitmentHashMismatch);
        }
        if self.votes.contains_key(&(proposal_id, who)) {
            return Err(Error::VoteAlreadyRevealedViaCommit);
        }
        let choice = match vote_choice_from_index(vote_choice_index) {
            Some(c) => c,
            None => return Err(Error::InvalidThreshold),
        };
        match self.proposals.get(&proposal_id) {
            Some(p) => {
                if now < p.voting_start {
                    return Err(Error::VotingPeriodNotStarted);
                }
                if now > p.voting_end.saturating_add(cfg.voting_period) {
                    return Err(Error::VotingPeriodEnded);
                }
                if !(p.status == ProposalStatus::Pending || p.status == ProposalStatus::Voting) {
                    return Err(Error::ProposalNotFound);
                }
            },
            None => return Err(Error::ProposalNotFound),
        }
        let ghost s0 = self@;
        let rank = self.community_ranks.get_or(&who, 0);
        let pouw = self.pouw_contributions.get_or(&who, 0);
        let stake = compute_stake_weight(cfg, free_balance);
        let bonus = self.calculate_voting_power(who, now).saturating_sub(1);
        let base = rank.saturating_add(pouw).saturating_add(stake).saturating_add(bonus);
        let mult = self.effective_voting_multiplier.get_or(&who, 0);
        let w = convicted(base, conviction, mult);
        self.record_vote(now, who, proposal_id, choice, conviction, w);
        self.vote_commitments.remove(&(proposal_id, who));
        self.events.push(Event::VoteRevealed { proposal_id, voter: who, vote_index: vote_choice_index, weight: w });
        proof {
            assert(self@ =~= reveal_vote_post(
                s0,
                *cfg,
                now,
                who,
                free_balance,
                proposal_id,
                vote_choice_index,
                conviction,
            ));
        }
        Ok(())
    }
}

} // verus!
