//! District council elections and delegate elections.
use vstd::prelude::*;

use crate::config::Config;
use crate::events::{Error, Event, Origin};
use crate::proposals::{sat_add_u64, signer_of};
use crate::state::{GovView, Pallet};
use crate::storage_order::{
    account_encoding, accounts_in_storage_order, first_accounts_in_storage_order, lemma_account_encoding_injective,
    lemma_in_key_order,
};
use crate::types::{
    district_of, seats_of, AccountId, BelizeDistrict, BlockNumber, BoardRole, CouncilMember, Election,
    ElectionCandidate, ElectionStatus, BLOCKS_PER_YEAR,
};
use crate::vec_map::map_get_or;

verus! {

/// Whether an election is still running: neither finalized nor cancelled.
pub open spec fn election_open(e: Election) -> bool {
    e.status != ElectionStatus::Finalized && e.status != ElectionStatus::Cancelled
}

pub open spec fn start_district_election_error(origin: Origin, s: GovView, district_index: u8, seats: u32) -> Option<
    Error,
> {
    let d = district_of(district_index).unwrap();
    if origin != Origin::Root {
        Some(Error::BadOrigin)
    } else if district_of(district_index) is None {
        Some(Error::InvalidDistrict)
    } else if seats > seats_of(d) {
        Some(Error::InvalidDistrict)
    } else if s.district_elections.contains_key(d) && election_open(s.district_elections[d]) {
        Some(Error::ElectionAlreadyActive)
    } else {
        None
    }
}

pub open spec fn start_district_election_post(
    s: GovView,
    now: BlockNumber,
    district_index: u8,
    seats: u32,
    registration_period_blocks: u32,
    voting_period_blocks: u32,
) -> GovView {
    let d = district_of(district_index).unwrap();
    let reg_end = sat_add_u64(now, registration_period_blocks as u64);
    let voting_end = sat_add_u64(reg_end, voting_period_blocks as u64);
    GovView {
        district_elections: s.district_elections.insert(
            d,
            Election {
                id: now,
                district: d,
                seats,
                registration_end: reg_end,
                voting_start: reg_end,
                voting_end,
                status: ElectionStatus::Registration,
                total_votes: 0,
            },
        ),
        events: s.events.push(
            Event::DistrictElectionStarted {
                election_id: now,
                district_index,
                seats,
                registration_end: reg_end,
                voting_end,
            },
        ),
        ..s
    }
}

/// Accounts registered in election `id`, in storage order.
pub open spec fn candidates_in(keys: Seq<(BlockNumber, AccountId)>, id: BlockNumber) -> Seq<AccountId>
    decreases keys.len(),
{
    if keys.len() == 0 {
        Seq::empty()
    } else {
        let rest = candidates_in(keys.drop_last(), id);
        if keys.last().0 == id {
            rest.push(keys.last().1)
        } else {
            rest
        }
    }
}

/// Whether a candidate key belongs to election `id`.
pub open spec fn in_election(id: BlockNumber) -> spec_fn((BlockNumber, AccountId)) -> bool {
    |k: (BlockNumber, AccountId)| k.0 == id
}

/// Number of candidates registered in election `id`.
pub open spec fn candidate_count(m: Map<(BlockNumber, AccountId), ElectionCandidate>, id: BlockNumber) -> nat {
    m.dom().filter(in_election(id)).len()
}

/// The accounts registered as candidates in election `id`.
pub open spec fn candidate_set(m: Map<(BlockNumber, AccountId), ElectionCandidate>, id: BlockNumber) -> Set<
    AccountId,
> {
    Set::new(|a: AccountId| m.contains_key((id, a)))
}

/// Over keys listed once each, the candidates of an election are listed
/// once each, and are the accounts of that election's keys.
proof fn lemma_candidates_in_members(ks: Seq<(BlockNumber, AccountId)>, id: BlockNumber)
    requires
        ks.no_duplicates(),
    ensures
        candidates_in(ks, id).no_duplicates(),
        forall|a: AccountId| #[trigger] candidates_in(ks, id).contains(a) <==> ks.contains((id, a)),
    decreases ks.len(),
{
    if ks.len() > 0 {
        let pre = ks.drop_last();
        let k = ks.last();
        assert(pre.no_duplicates()) by {
            assert forall|i: int, j: int| 0 <= i < pre.len() && 0 <= j < pre.len() && i != j implies pre[i]
                != pre[j] by {
                assert(pre[i] == ks[i] && pre[j] == ks[j]);
            }
        }
        lemma_candidates_in_members(pre, id);
        assert(!pre.contains(k)) by {
            if pre.contains(k) {
                let i = choose|i: int| 0 <= i < pre.len() && pre[i] == k;
                assert(ks[i] == ks[ks.len() - 1]);
            }
        }
        let rest = candidates_in(pre, id);
        let r = candidates_in(ks, id);
        assert forall|a: AccountId| #[trigger] r.contains(a) <==> ks.contains((id, a)) by {
            if ks.contains((id, a)) {
                let i = choose|i: int| 0 <= i < ks.len() && ks[i] == (id, a);
                if i < ks.len() - 1 {
                    assert(pre[i] == (id, a));
                    assert(rest.contains(a));
                    let j = choose|j: int| 0 <= j < rest.len() && rest[j] == a;
                    if k.0 == id {
                        assert(r[j] == a);
                    }
                } else {
                    assert(r[r.len() - 1] == a);
                }
            }
            if r.contains(a) {
                let j = choose|j: int| 0 <= j < r.len() && r[j] == a;
                if j < rest.len() {
                    assert(rest[j] == a);
                    assert(rest.contains(a));
                    let i = choose|i: int| 0 <= i < pre.len() && pre[i] == (id, a);
                    assert(ks[i] == (id, a));
                } else {
                    assert(k == (id, a));
                    assert(ks[ks.len() - 1] == (id, a));
                }
            }
        }
        if k.0 == id {
            assert(!rest.contains(k.1)) by {
                if rest.contains(k.1) {
                    assert(pre.contains((id, k.1)));
                    assert(k == (id, k.1));
                }
            }
            assert forall|i: int, j: int| 0 <= i < r.len() && 0 <= j < r.len() && i != j implies r[i] != r[j] by {
                if i < rest.len() && j < rest.len() {
                    assert(r[i] == rest[i] && r[j] == rest[j]);
                } else if i < rest.len() {
                    assert(r[i] == rest[i]);
                    assert(rest.contains(r[i]));
                } else if j < rest.len() {
                    assert(r[j] == rest[j]);
                    assert(rest.contains(r[j]));
                }
            }
        }
    }
}

/// Over keys listed once each, the candidates of an election number as
/// many as the keys of that election.
proof fn lemma_candidates_in_count(ks: Seq<(BlockNumber, AccountId)>, id: BlockNumber)
    requires
        ks.no_duplicates(),
    ensures
        ks.to_set().filter(in_election(id)).finite(),
        candidates_in(ks, id).len() == ks.to_set().filter(in_election(id)).len(),
    decreases ks.len(),
{
    if ks.len() == 0 {
        assert(ks.to_set().filter(in_election(id)) =~= Set::empty());
    } else {
        let pre = ks.drop_last();
        let k = ks.last();
        assert(pre.no_duplicates()) by {
            assert forall|i: int, j: int| 0 <= i < pre.len() && 0 <= j < pre.len() && i != j implies pre[i]
                != pre[j] by {
                assert(pre[i] == ks[i] && pre[j] == ks[j]);
            }
        }
        lemma_candidates_in_count(pre, id);
        assert(!pre.contains(k)) by {
            if pre.contains(k) {
                let i = choose|i: int| 0 <= i < pre.len() && pre[i] == k;
                assert(ks[i] == ks[ks.len() - 1]);
            }
        }
        assert(ks =~= pre.push(k));
        assert(ks.to_set() =~= pre.to_set().insert(k));
        if k.0 == id {
            assert(ks.to_set().filter(in_election(id)) =~= pre.to_set().filter(in_election(id)).insert(k));
        } else {
            assert(ks.to_set().filter(in_election(id)) =~= pre.to_set().filter(in_election(id)));
        }
    }
}

pub open spec fn register_candidate_error(
    s: GovView,
    cfg: Config,
    now: BlockNumber,
    origin: Origin,
    compliant: bool,
    district_index: u8,
    platform_len: nat,
) -> Option<Error> {
    let d = district_of(district_index).unwrap();
    let e = s.district_elections[d];
    if signer_of(origin) is None {
        Some(Error::BadOrigin)
    } else if !compliant {
        Some(Error::InsufficientCompliance)
    } else if district_of(district_index) is None {
        Some(Error::InvalidDistrict)
    } else if !s.district_elections.contains_key(d) {
        Some(Error::ElectionNotFound)
    } else if e.status != ElectionStatus::Registration {
        Some(Error::NotInRegistrationPhase)
    } else if now >= e.registration_end {
        Some(Error::NotInRegistrationPhase)
    } else if s.election_candidates.contains_key((e.id, signer_of(origin).unwrap())) {
        Some(Error::CandidateAlreadyRegistered)
    } else if candidate_count(s.election_candidates, e.id) >= cfg.max_candidates_per_election {
        Some(Error::TooManyCandidates)
    } else if platform_len > 512 {
        Some(Error::PlatformTooLong)
    } else {
        None
    }
}

pub open spec fn register_candidate_post(
    s: GovView,
    now: BlockNumber,
    who: AccountId,
    district_index: u8,
    platform: Vec<u8>,
) -> GovView {
    let d = district_of(district_index).unwrap();
    let e = s.district_elections[d];
    GovView {
        election_candidates: s.election_candidates.insert(
            (e.id, who),
            ElectionCandidate { account: who, district: d, election_id: e.id, platform, votes: 0, registered_at: now },
        ),
        events: s.events.push(Event::CandidateRegistered { election_id: e.id, candidate: who, district_index }),
        ..s
    }
}

/// An election's phase once voting is due.
pub open spec fn effective_status(e: Election, now: BlockNumber) -> ElectionStatus {
    if e.status == ElectionStatus::Registration && now >= e.voting_start {
        ElectionStatus::Voting
    } else {
        e.status
    }
}

pub open spec fn vote_in_district_election_error(
    s: GovView,
    now: BlockNumber,
    origin: Origin,
    compliant: bool,
    district_index: u8,
    candidate: AccountId,
) -> Option<Error> {
    let d = district_of(district_index).unwrap();
    let e = s.district_elections[d];
    if signer_of(origin) is None {
        Some(Error::BadOrigin)
    } else if !compliant {
        Some(Error::InsufficientCompliance)
    } else if district_of(district_index) is None {
        Some(Error::InvalidDistrict)
    } else if !s.district_elections.contains_key(d) {
        Some(Error::ElectionNotFound)
    } else if effective_status(e, now) != ElectionStatus::Voting {
        Some(Error::NotInVotingPhase)
    } else if !(now >= e.voting_start && now < e.voting_end) {
        Some(Error::NotInVotingPhase)
    } else if s.election_votes.contains_key((e.id, signer_of(origin).unwrap())) {
        Some(Error::AlreadyVotedInDistrictElection)
    } else if !s.election_candidates.contains_key((e.id, candidate)) {
        Some(Error::CandidateNotFound)
    } else {
        None
    }
}

pub open spec fn vote_in_district_election_post(
    s: GovView,
    now: BlockNumber,
    who: AccountId,
    district_index: u8,
    candidate: AccountId,
) -> GovView {
    let d = district_of(district_index).unwrap();
    let e = s.district_elections[d];
    let c = s.election_candidates[(e.id, candidate)];
    GovView {
        election_votes: s.election_votes.insert((e.id, who), candidate),
        election_candidates: s.election_candidates.insert(
            (e.id, candidate),
            ElectionCandidate { votes: c.votes.saturating_add(1), ..c },
        ),
        district_elections: s.district_elections.insert(
            d,
            Election { status: effective_status(e, now), total_votes: e.total_votes.saturating_add(1), ..e },
        ),
        events: s.events.push(
            Event::ElectionVoteCast { election_id: e.id, voter: who, candidate, district_index },
        ),
        ..s
    }
}

// ----- ranking -----

/// Index of the first candidate with the most votes.
pub open spec fn best_index(c: Seq<(AccountId, u32)>) -> int
    decreases c.len(),
{
    if c.len() <= 1 {
        0
    } else {
        let j = best_index(c.drop_last());
        if c.last().1 > c[j].1 {
            c.len() - 1
        } else {
            j
        }
    }
}

/// The `k` highest-voted candidates, most votes first; among equal votes
/// the earlier candidate ranks higher (a stable descending sort, cut at k).
pub open spec fn select_winners(c: Seq<(AccountId, u32)>, k: nat) -> Seq<(AccountId, u32)>
    decreases k,
{
    if k == 0 || c.len() == 0 {
        Seq::empty()
    } else {
        let b = best_index(c);
        seq![c[b]] + select_winners(c.remove(b), (k - 1) as nat)
    }
}

pub(crate) proof fn lemma_best_index_bounds(c: Seq<(AccountId, u32)>)
    requires
        c.len() >= 1,
    ensures
        0 <= best_index(c) < c.len(),
        forall|i: int| 0 <= i < c.len() ==> (#[trigger] c[i]).1 <= c[best_index(c)].1,
        forall|i: int| 0 <= i < best_index(c) ==> (#[trigger] c[i]).1 < c[best_index(c)].1,
    decreases c.len(),
{
    if c.len() > 1 {
        let d = c.drop_last();
        lemma_best_index_bounds(d);
        let j = best_index(d);
        assert(d[j] == c[j]);
        assert forall|i: int| 0 <= i < c.len() implies (#[trigger] c[i]).1 <= c[best_index(c)].1 by {
            if i < c.len() - 1 {
                assert(d[i] == c[i]);
            }
        }
        assert forall|i: int| 0 <= i < best_index(c) implies (#[trigger] c[i]).1 < c[best_index(c)].1 by {
            if i < c.len() - 1 {
                assert(d[i] == c[i]);
            }
        }
    }
}

/// The council record of an elected citizen delegate.
pub open spec fn elected_member(account: AccountId, votes: u32, now: BlockNumber) -> CouncilMember {
    CouncilMember {
        account,
        role: BoardRole::CitizenDelegate,
        term_end: sat_add_u64(now, (BLOCKS_PER_YEAR * 2) as u64),
        is_rotating: true,
        community_rank: 100,
        pouw_contribution: 0,
        voting_weight: 100,
        term_start: now,
        votes_received: votes,
        proposals_authored: 0,
        participation_rate: 0,
        consecutive_terms: 0,
    }
}

/// Seats the listed winners of election `id` in order.
pub open spec fn seat_winners(
    s: GovView,
    id: BlockNumber,
    winners: Seq<AccountId>,
    district_index: u8,
    now: BlockNumber,
) -> GovView
    decreases winners.len(),
{
    if winners.len() == 0 {
        s
    } else {
        let s1 = seat_winners(s, id, winners.drop_last(), district_index, now);
        let w = winners.last();
        if s1.election_candidates.contains_key((id, w)) {
            let v = s1.election_candidates[(id, w)].votes;
            GovView {
                council_members: s1.council_members.insert(w, elected_member(w, v, now)),
                events: s1.events.push(
                    Event::CouncilMemberElectedFromDistrict {
                        account: w,
                        district_index,
                        votes_received: v,
                        term_end: sat_add_u64(now, (BLOCKS_PER_YEAR * 2) as u64),
                    },
                ),
                ..s1
            }
        } else {
            s1
        }
    }
}

/// Votes of a candidate, zero where not registered.
pub open spec fn candidate_votes(
    m: Map<(BlockNumber, AccountId), ElectionCandidate>,
    id: BlockNumber,
    a: AccountId,
) -> u32 {
    if m.contains_key((id, a)) {
        m[(id, a)].votes
    } else {
        0
    }
}

/// The listed winners that are registered candidates of election `id`.
pub open spec fn seated(
    m: Map<(BlockNumber, AccountId), ElectionCandidate>,
    id: BlockNumber,
    ws: Seq<AccountId>,
) -> Seq<AccountId>
    decreases ws.len(),
{
    if ws.len() == 0 {
        ws
    } else {
        let r = seated(m, id, ws.drop_last());
        if m.contains_key((id, ws.last())) {
            r.push(ws.last())
        } else {
            r
        }
    }
}

/// Candidates of election `id` with their votes, in the order the runtime
/// walks them, at most `max` of them.
pub open spec fn ranked_field(s: GovView, id: BlockNumber, max: nat) -> Seq<(AccountId, u32)> {
    let accts = accounts_in_storage_order(candidate_set(s.election_candidates, id));
    let n = if accts.len() < max { accts.len() } else { max };
    Seq::new(n, |i: int| (accts[i], candidate_votes(s.election_candidates, id, accts[i])))
}

pub open spec fn finalize_district_election_error(
    s: GovView,
    cfg: Config,
    now: BlockNumber,
    origin: Origin,
    district_index: u8,
) -> Option<Error> {
    let d = district_of(district_index).unwrap();
    let e = s.district_elections[d];
    if origin != Origin::Root {
        Some(Error::BadOrigin)
    } else if district_of(district_index) is None {
        Some(Error::InvalidDistrict)
    } else if !s.district_elections.contains_key(d) {
        Some(Error::ElectionNotFound)
    } else if now < e.voting_end {
        Some(Error::VotingPeriodNotEnded)
    } else if e.status == ElectionStatus::Finalized {
        Some(Error::ElectionAlreadyFinalized)
    } else if select_winners(
        ranked_field(s, e.id, cfg.max_candidates_per_election as nat),
        e.seats as nat,
    ).len() == 0 {
        Some(Error::InsufficientCandidates)
    } else {
        None
    }
}

/// The state after finalization: winners are seated, recorded as the
/// district's representatives (if at most five), and the election closed.
pub open spec fn finalize_district_election_post(
    s: GovView,
    cfg: Config,
    now: BlockNumber,
    district_index: u8,
    representatives: Vec<AccountId>,
    event_winners: Vec<AccountId>,
) -> GovView {
    let d = district_of(district_index).unwrap();
    let e = s.district_elections[d];
    let s1 = seat_winners(s, e.id, winner_accounts(s, cfg, e), district_index, now);
    GovView {
        district_representation: s1.district_representation.insert(d, representatives),
        district_elections: s1.district_elections.insert(d, Election { status: ElectionStatus::Finalized, ..e }),
        events: s1.events.push(
            Event::DistrictElectionFinalized {
                election_id: e.id,
                district_index,
                winners: event_winners,
                total_votes: e.total_votes,
            },
        ),
        ..s1
    }
}

/// The winning accounts of an election, in rank order.
pub open spec fn winner_accounts(
    s: GovView,
    cfg: Config,
    e: Election,
) -> Seq<AccountId> {
    let w = select_winners(ranked_field(s, e.id, cfg.max_candidates_per_election as nat), e.seats as nat);
    Seq::new(w.len(), |i: int| w[i].0)
}

/// The winners recorded in the last event, where it closes an election.
pub open spec fn finalized_winners(evs: Seq<Event>) -> Vec<AccountId> {
    match evs.last() {
        Event::DistrictElectionFinalized { winners, .. } => winners,
        _ => arbitrary(),
    }
}

fn best_of(c: &Vec<(AccountId, u32)>) -> (b: usize)
    requires
        c@.len() >= 1,
    ensures
        b == best_index(c@),
{
    let mut best: usize = 0;
    let mut i: usize = 1;
    while i < c.len()
        invariant
            1 <= i <= c@.len(),
            best as int == best_index(c@.take(i as int)),
            best < i,
        decreases c@.len() - i,
    {
        proof {
            let pre = c@.take(i as int);
            let post = c@.take(i + 1);
            assert(post.drop_last() =~= pre);
            lemma_best_index_bounds(pre);
            assert(post[best as int] == c@[best as int]);
        }
        if c[i].1 > c[best].1 {
            best = i;
        }
        i = i + 1;
    }
    assert(c@.take(c@.len() as int) =~= c@);
    best
}

fn choose_winners(field: Vec<(AccountId, u32)>, k: usize) -> (w: Vec<(AccountId, u32)>)
    ensures
        w@ == select_winners(field@, k as nat),
{
    let mut work = field;
    let mut winners: Vec<(AccountId, u32)> = Vec::new();
    let ghost goal = select_winners(work@, k as nat);
    let mut r: usize = 0;
    while r < k && work.len() > 0
        invariant
            r <= k,
            winners@ + select_winners(work@, (k - r) as nat) == goal,
        decreases k - r,
    {
        let b = best_of(&work);
        proof {
            lemma_best_index_bounds(work@);
        }
        let ghost before = work@;
        let item = work.remove(b);
        assert(work@ =~= before.remove(b as int));
        proof {
            assert(select_winners(before, (k - r) as nat) =~= seq![before[b as int]] + select_winners(
                work@,
                (k - r - 1) as nat,
            ));
            assert(winners@.push(item) + select_winners(work@, (k - r - 1) as nat) =~= winners@ + (seq![item]
                + select_winners(work@, (k - r - 1) as nat)));
        }
        winners.push(item);
        r = r + 1;
    }
    assert(select_winners(work@, (k - r) as nat) =~= Seq::<(AccountId, u32)>::empty());
    assert(winners@ + Seq::<(AccountId, u32)>::empty() =~= winners@);
    winners
}

pub open spec fn nominate_for_delegate_error(s: GovView, origin: Origin, nominee_compliant: bool) -> Option<Error> {
    if signer_of(origin) is None {
        Some(Error::BadOrigin)
    } else if !nominee_compliant {
        Some(Error::InsufficientCompliance)
    } else if s.current_election is None {
        Some(Error::NoActiveElection)
    } else {
        None
    }
}

pub open spec fn vote_for_delegate_error(
    s: GovView,
    origin: Origin,
    compliant: bool,
    nominee: AccountId,
) -> Option<Error> {
    if signer_of(origin) is None {
        Some(Error::BadOrigin)
    } else if !compliant {
        Some(Error::InsufficientCompliance)
    } else if s.current_election is None {
        Some(Error::NoActiveElection)
    } else if s.delegate_voters.contains_key((s.current_election.unwrap(), signer_of(origin).unwrap())) {
        Some(Error::AlreadyVotedInElection)
    } else if !s.delegate_nominees.contains_key(nominee) {
        Some(Error::NomineeNotFound)
    } else {
        None
    }
}

impl Pallet {
    /// Opens a district election (root only): registration for
    /// `registration_period_blocks`, then voting for `voting_period_blocks`.
    pub fn start_district_election(
        &mut self,
        now: BlockNumber,
        origin: Origin,
        district_index: u8,
        seats: u32,
        registration_period_blocks: u32,
        voting_period_blocks: u32,
    ) -> (r: Result<(), Error>)
        ensures
            r == (match start_district_election_error(origin, old(self)@, district_index, seats) {
                Some(e) => Err(e),
                None => Ok(()),
            }),
            r is Err ==> final(self)@ == old(self)@,
            r is Ok ==> final(self)@ == start_district_election_post(
                old(self)@,
                now,
                district_index,
                seats,
                registration_period_blocks,
                voting_period_blocks,
            ),
    {
        if origin != Origin::Root {
            return Err(Error::BadOrigin);
        }
        let district = match BelizeDistrict::from_index(district_index) {
            Some(d) => d,
            None => return Err(Error::InvalidDistrict),
        };
        if seats > district.seat_allocation() {
            return Err(Error::InvalidDistrict);
        }
        match self.district_elections.get(&district) {
            Some(e) => {
                if e.status != ElectionStatus::Finalized && e.status != ElectionStatus::Cancelled {
                    return Err(Error::ElectionAlreadyActive);
                }
            },
            None => {},
        }
        let registration_end = now.saturating_add(registration_period_blocks as u64);
        let voting_end = registration_end.saturating_add(voting_period_blocks as u64);
        self.district_elections.insert(
            district,
            Election {
                id: now,
                district,
                seats,
                registration_end,
                voting_start: registration_end,
                voting_end,
                status: ElectionStatus::Registration,
                total_votes: 0,
            },
        );
        self.events.push(
            Event::DistrictElectionStarted {
                election_id: now,
                district_index,
                seats,
                registration_end,
                voting_end,
            },
        );
        Ok(())
    }

    /// Number of candidates registered in election `id`.
    fn count_candidates(&self, id: BlockNumber) -> (n: usize)
        ensures
            n == candidates_in(self.election_candidates.key_seq(), id).len(),
            n == candidate_count(self@.election_candidates, id),
    {
        proof {
            use_type_invariant(&self.election_candidates);
            self.election_candidates.lemma_keys();
            let ks = self.election_candidates.key_seq();
            lemma_candidates_in_count(ks, id);
            assert(self@.election_candidates.dom() =~= ks.to_set());
        }
        let mut n: usize = 0;
        let mut i: usize = 0;
        while i < self.election_candidates.len()
            invariant
                i <= self.election_candidates.key_seq().len(),
                n == candidates_in(self.election_candidates.key_seq().take(i as int), id).len(),
                n <= i,
            decreases self.election_candidates.key_seq().len() - i,
        {
            proof {
                let ks = self.election_candidates.key_seq();
                assert(ks.take(i + 1).drop_last() =~= ks.take(i as int));
            }
            let k = self.election_candidates.key_at(i);
            if k.0 == id {
                n = n + 1;
            }
            i = i + 1;
        }
        assert(self.election_candidates.key_seq().take(i as int) =~= self.election_candidates.key_seq());
        n
    }

    /// Candidates of election `id` in storage order, at most `max`.
    /// The accounts registered in election `id`, in the map's order.
    fn registered_candidates(&self, id: BlockNumber) -> (r: Vec<AccountId>)
        ensures
            r@ == candidates_in(self.election_candidates.key_seq(), id),
    {
        let mut r: Vec<AccountId> = Vec::new();
        let mut i: usize = 0;
        let ghost ks = self.election_candidates.key_seq();
        while i < self.election_candidates.len()
            invariant
                i <= ks.len(),
                ks == self.election_candidates.key_seq(),
                r@ == candidates_in(ks.take(i as int), id),
            decreases ks.len() - i,
        {
            proof {
                assert(ks.take(i + 1).drop_last() =~= ks.take(i as int));
            }
            let k = self.election_candidates.key_at(i);
            if k.0 == id {
                r.push(k.1);
            }
            i = i + 1;
        }
        assert(ks.take(i as int) =~= ks);
        r
    }

    /// The first `max` candidates of election `id` in the order the runtime
    /// walks them.
    fn candidate_accounts(&self, id: BlockNumber, max: usize) -> (r: Vec<AccountId>)
        ensures
            r@ == ({
                let a = accounts_in_storage_order(candidate_set(self@.election_candidates, id));
                if a.len() < max { a } else { a.take(max as int) }
            }),
    {
        let all = self.registered_candidates(id);
        let ghost cs = candidate_set(self@.election_candidates, id);
        proof {
            use_type_invariant(&self.election_candidates);
            self.election_candidates.lemma_keys();
            let ks = self.election_candidates.key_seq();
            lemma_candidates_in_members(ks, id);
            assert(all@.to_set() =~= cs);
            all@.unique_seq_to_set();
            lemma_account_encoding_injective();
            lemma_in_key_order(cs, account_encoding());
            let a = accounts_in_storage_order(cs);
            assert(a.take(a.len() as int) =~= a);
        }
        first_accounts_in_storage_order(&all, max)
    }

    /// Registers the signer as a candidate in a district election during
    /// registration.
    pub fn register_candidate(
        &mut self,
        cfg: &Config,
        now: BlockNumber,
        origin: Origin,
        compliant: bool,
        district_index: u8,
        platform: Vec<u8>,
    ) -> (r: Result<(), Error>)
        ensures
            r == (match register_candidate_error(
                old(self)@,
                *cfg,
                now,
                origin,
                compliant,
                district_index,
                platform@.len(),
            ) {
                Some(e) => Err(e),
                None => Ok(()),
            }),
            r is Err ==> final(self)@ == old(self)@,
            r is Ok ==> final(self)@ == register_candidate_post(
                old(self)@,
                now,
                signer_of(origin).unwrap(),
                district_index,
                platform,
            ),
    {
        let who = match origin {
            Origin::Signed(w) => w,
            _ => return Err(Error::BadOrigin),
        };
        if !compliant {
            return Err(Error::InsufficientCompliance);
        }
        let district = match BelizeDistrict::from_index(district_index) {
            Some(d) => d,
            None => return Err(Error::InvalidDistrict),
        };
        let election = match self.district_elections.get(&district) {
            Some(e) => *e,
            None => return Err(Error::ElectionNotFound),
        };
        if election.status != ElectionStatus::Registration {
            return Err(Error::NotInRegistrationPhase);
        }
        if now >= election.registration_end {
            return Err(Error::NotInRegistrationPhase);
        }
        if self.election_candidates.contains_key(&(election.id, who)) {
            return Err(Error::CandidateAlreadyRegistered);
        }
        let count = self.count_candidates(election.id);
        if count >= cfg.max_candidates_per_election as usize {
            return Err(Error::TooManyCandidates);
        }
        if platform.len() > 512 {
            return Err(Error::PlatformTooLong);
        }
        self.election_candidates.insert(
            (election.id, who),
            ElectionCandidate {
                account: who,
                district,
                election_id: election.id,
                platform,
                votes: 0,
                registered_at: now,
            },
        );
        self.events.push(Event::CandidateRegistered { election_id: election.id, candidate: who, district_index });
        Ok(())
    }

    /// Casts the signer's vote for a candidate in a district election.
    pub fn vote_in_district_election(
        &mut self,
        now: BlockNumber,
        origin: Origin,
        compliant: bool,
        district_index: u8,
        candidate: AccountId,
    ) -> (r: Result<(), Error>)
        ensures
            r == (match vote_in_district_election_error(
                old(self)@,
                now,
                origin,
                compliant,
                district_index,
                candidate,
            ) {
                Some(e) => Err(e),
                None => Ok(()),
            }),
            r is Err ==> final(self)@ == old(self)@,
            r is Ok ==> final(self)@ == vote_in_district_election_post(
                old(self)@,
                now,
                signer_of(origin).unwrap(),
                district_index,
                candidate,
            ),
    {
        let who = match origin {
            Origin::Signed(w) => w,
            _ => return Err(Error::BadOrigin),
        };
        if !compliant {
            return Err(Error::InsufficientCompliance);
        }
        let district = match BelizeDistrict::from_index(district_index) {
            Some(d) => d,
            None => return Err(Error::InvalidDistrict),
        };
        let mut election = match self.district_elections.get(&district) {
            Some(e) => *e,
            None => return Err(Error::ElectionNotFound),
        };
        if election.status == ElectionStatus::Registration && now >= election.voting_start {
            election.status = ElectionStatus::Voting;
        }
        if election.status != ElectionStatus::Voting {
            return Err(Error::NotInVotingPhase);
        }
        if !(now >= election.voting_start && now < election.voting_end) {
            return Err(Error::NotInVotingPhase);
        }
        if self.election_votes.contains_key(&(election.id, who)) {
            return Err(Error::AlreadyVotedInDistrictElection);
        }
        if !self.election_candidates.contains_key(&(election.id, candidate)) {
            return Err(Error::CandidateNotFound);
        }
        let ghost s0 = self@;
        self.election_votes.insert((election.id, who), candidate);
        match self.election_candidates.take(&(election.id, candidate)) {
            Some((pos, c)) => {
                let nc = ElectionCandidate { votes: c.votes.saturating_add(1), ..c };
                self.election_candidates.restore(pos, (election.id, candidate), nc);
            },
            None => {},
        }
        election.total_votes = election.total_votes.saturating_add(1);
        self.district_elections.insert(district, election);
        self.events.push(Event::ElectionVoteCast { election_id: election.id, voter: who, candidate, district_index });
        proof {
            assert(self@ =~= vote_in_district_election_post(s0, now, who, district_index, candidate));
        }
        Ok(())
    }

    /// Closes a district election whose voting has ended (root only): the
    /// `seats` highest-voted candidates (ties to the earlier registered)
    /// become citizen-delegate council members for two years.
    pub fn finalize_district_election(
        &mut self,
        cfg: &Config,
        now: BlockNumber,
        origin: Origin,
        district_index: u8,
    ) -> (r: Result<(), Error>)
        ensures
            r == (match finalize_district_election_error(
                old(self)@,
                *cfg,
                now,
                origin,
                district_index,
            ) {
                Some(e) => Err(e),
                None => Ok(()),
            }),
            r is Err ==> final(self)@ == old(self)@,
            r is Ok ==> ({
                let d = district_of(district_index).unwrap();
                let e = old(self)@.district_elections[d];
                let ws = seated(
                    old(self)@.election_candidates,
                    e.id,
                    winner_accounts(old(self)@, *cfg, e),
                );
                let reps = final(self)@.district_representation[d];
                let evw = finalized_winners(final(self)@.events);
                &&& (if ws.len() <= 5 { reps@ == ws } else { reps@.len() == 0 })
                &&& evw@ == reps@
                &&& final(self)@ == finalize_district_election_post(
                    old(self)@,
                    *cfg,
                    now,
                    district_index,
                    reps,
                    evw,
                )
            }),
    {
        if origin != Origin::Root {
            return Err(Error::BadOrigin);
        }
        let district = match BelizeDistrict::from_index(district_index) {
            Some(d) => d,
            None => return Err(Error::InvalidDistrict),
        };
        let election = match self.district_elections.get(&district) {
            Some(e) => *e,
            None => return Err(Error::ElectionNotFound),
        };
        if now < election.voting_end {
            return Err(Error::VotingPeriodNotEnded);
        }
        if election.status == ElectionStatus::Finalized {
            return Err(Error::ElectionAlreadyFinalized);
        }
        let ghost s0 = self@;
        let accounts = self.candidate_accounts(election.id, cfg.max_candidates_per_election as usize);
        let mut field: Vec<(AccountId, u32)> = Vec::new();
        let mut i: usize = 0;
        while i < accounts.len()
            invariant
                i <= accounts@.len(),
                self@ == s0,
                accounts@ == ({
                    let a = accounts_in_storage_order(candidate_set(s0.election_candidates, election.id));
                    let m = cfg.max_candidates_per_election as usize;
                    if a.len() < m { a } else { a.take(m as int) }
                }),
                field@ == Seq::new(
                    i as nat,
                    |j: int| (accounts@[j], candidate_votes(s0.election_candidates, election.id, accounts@[j])),
                ),
            decreases accounts@.len() - i,
        {
            let a = accounts[i];
            let v = match self.election_candidates.get(&(election.id, a)) {
                Some(c) => c.votes,
                None => 0,
            };
            field.push((a, v));
            i = i + 1;
            assert(field@ =~= Seq::new(
                i as nat,
                |j: int| (accounts@[j], candidate_votes(s0.election_candidates, election.id, accounts@[j])),
            ));
        }
        assert(field@ =~= ranked_field(s0, election.id, cfg.max_candidates_per_election as nat));
        let winners = choose_winners(field, election.seats as usize);
        if winners.len() == 0 {
            return Err(Error::InsufficientCandidates);
        }
        let ghost ws = Seq::new(winners@.len(), |j: int| winners@[j].0);
        let term_end = now.saturating_add((BLOCKS_PER_YEAR * 2) as u64);
        let mut members: Vec<AccountId> = Vec::new();
        let mut j: usize = 0;
        while j < winners.len()
            invariant
                j <= winners@.len(),
                ws == Seq::new(winners@.len(), |x: int| winners@[x].0),
                term_end == sat_add_u64(now, (BLOCKS_PER_YEAR * 2) as u64),
                self@ == seat_winners(s0, election.id, ws.take(j as int), district_index, now),
                members@ == seated(s0.election_candidates, election.id, ws.take(j as int)),
                self@.election_candidates == s0.election_candidates,
            decreases winners@.len() - j,
        {
            let w = winners[j].0;
            proof {
                assert(ws.take(j + 1).drop_last() =~= ws.take(j as int));
                assert(ws[j as int] == w);
                lemma_seat_keeps_candidates(s0, election.id, ws.take(j as int), district_index, now);
            }
            match self.election_candidates.get(&(election.id, w)) {
                Some(c) => {
                    let votes = c.votes;
                    self.council_members.insert(
                        w,
                        CouncilMember {
                            account: w,
                            role: BoardRole::CitizenDelegate,
                            term_end,
                            is_rotating: true,
                            community_rank: 100,
                            pouw_contribution: 0,
                            voting_weight: 100,
                            term_start: now,
                            votes_received: votes,
                            proposals_authored: 0,
                            participation_rate: 0,
                            consecutive_terms: 0,
                        },
                    );
                    members.push(w);
                    self.events.push(
                        Event::CouncilMemberElectedFromDistrict {
                            account: w,
                            district_index,
                            votes_received: votes,
                            term_end,
                        },
                    );
                },
                None => {},
            }
            j = j + 1;
        }
        assert(ws.take(winners@.len() as int) =~= ws);
        let representatives: Vec<AccountId> = if members.len() <= 5 { members } else { Vec::new() };
        let event_winners = crate::vec_map::copy_vec(&representatives);
        let ghost reps_g = representatives;
        let ghost evw_g = event_winners;
        self.district_representation.insert(district, representatives);
        self.district_elections.insert(district, Election { status: ElectionStatus::Finalized, ..election });
        self.events.push(
            Event::DistrictElectionFinalized {
                election_id: election.id,
                district_index,
                winners: event_winners,
                total_votes: election.total_votes,
            },
        );
        proof {
            assert(self@ =~= finalize_district_election_post(
                s0,
                *cfg,
                now,
                district_index,
                reps_g,
                evw_g,
            ));
        }
        Ok(())
    }

    /// Nominates an account in the current delegate election.
    pub fn nominate_for_delegate(&mut self, origin: Origin, nominee_compliant: bool, nominee: AccountId) -> (r:
        Result<(), Error>)
        ensures
            r == (match nominate_for_delegate_error(old(self)@, origin, nominee_compliant) {
                Some(e) => Err(e),
                None => Ok(()),
            }),
            r is Err ==> final(self)@ == old(self)@,
            r is Ok ==> final(self)@ == (GovView {
                delegate_nominees: if old(self)@.delegate_nominees.contains_key(nominee) {
                    old(self)@.delegate_nominees
                } else {
                    old(self)@.delegate_nominees.insert(nominee, 0)
                },
                events: old(self)@.events.push(
                    Event::DelegateNominated { nominee, nominator: signer_of(origin).unwrap() },
                ),
                ..old(self)@
            }),
    {
        let who = match origin {
            Origin::Signed(w) => w,
            _ => return Err(Error::BadOrigin),
        };
        if !nominee_compliant {
            return Err(Error::InsufficientCompliance);
        }
        if self.current_election.is_none() {
            return Err(Error::NoActiveElection);
        }
        if !self.delegate_nominees.contains_key(&nominee) {
            self.delegate_nominees.insert(nominee, 0);
        }
        self.events.push(Event::DelegateNominated { nominee, nominator: who });
        Ok(())
    }

    /// Casts the signer's single vote for a nominee in the current delegate
    /// election.
    pub fn vote_for_delegate(&mut self, origin: Origin, compliant: bool, nominee: AccountId) -> (r: Result<
        (),
        Error,
    >)
        ensures
            r == (match vote_for_delegate_error(old(self)@, origin, compliant, nominee) {
                Some(e) => Err(e),
                None => Ok(()),
            }),
            r is Err ==> final(self)@ == old(self)@,
            r is Ok ==> final(self)@ == (GovView {
                delegate_voters: old(self)@.delegate_voters.insert(
                    (old(self)@.current_election.unwrap(), signer_of(origin).unwrap()),
                    nominee,
                ),
                delegate_nominees: old(self)@.delegate_nominees.insert(
                    nominee,
                    map_get_or(old(self)@.delegate_nominees, nominee, 0).saturating_add(1),
                ),
                events: old(self)@.events.push(
                    Event::DelegateVoteCast { voter: signer_of(origin).unwrap(), nominee, weight: 1 },
                ),
                ..old(self)@
            }),
    {
        let who = match origin {
            Origin::Signed(w) => w,
            _ => return Err(Error::BadOrigin),
        };
        if !compliant {
            return Err(Error::InsufficientCompliance);
        }
        let election_id = match self.current_election {
            Some(e) => e,
            None => return Err(Error::NoActiveElection),
        };
        if self.delegate_voters.contains_key(&(election_id, who)) {
            return Err(Error::AlreadyVotedInElection);
        }
        if !self.delegate_nominees.contains_key(&nominee) {
            return Err(Error::NomineeNotFound);
        }
        self.delegate_voters.insert((election_id, who), nominee);
        let count = self.delegate_nominees.get_or(&nominee, 0);
        self.delegate_nominees.insert(nominee, count.saturating_add(1));
        self.events.push(Event::DelegateVoteCast { voter: who, nominee, weight: 1 });
        Ok(())
    }
}

/// Seating winners leaves the candidate records alone.
proof fn lemma_seat_keeps_candidates(
    s: GovView,
    id: BlockNumber,
    ws: Seq<AccountId>,
    district_index: u8,
    now: BlockNumber,
)
    ensures
        seat_winners(s, id, ws, district_index, now).election_candidates == s.election_candidates,
    decreases ws.len(),
{
    if ws.len() > 0 {
        lemma_seat_keeps_candidates(s, id, ws.drop_last(), district_index, now);
    }
}

} // verus!
