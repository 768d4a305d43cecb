//! Citizen referendums: creation, weighted voting, finalization against a
//! quorum, and fast-tracking during an emergency.
use vstd::prelude::*;

use crate::config::Config;
use crate::events::{Error, Event, Origin};
use crate::proposals::{sat_add_u32, sat_add_u64, signer_of};
use crate::state::{GovView, Pallet};
use crate::types::{
    district_of, emergency_type_index_of, AccountId, BelizeDistrict, BlockNumber, Referendum,
    ReferendumStatus,
};
use crate::vec_map::map_get_or;

verus! {

/// Length bounds of a referendum's texts.
pub const MAX_REFERENDUM_TITLE: usize = 256;

pub const MAX_REFERENDUM_DESCRIPTION: usize = 1024;

pub const MAX_REFERENDUM_OPTION: usize = 128;

pub const MAX_REFERENDUM_OPTIONS: usize = 10;

/// Blocks a fast-tracked referendum stays open (three hours).
pub const FAST_TRACK_BLOCKS: u64 = 10_800;

/// Every option fits its length bound.
pub open spec fn options_fit(options: Seq<Vec<u8>>) -> bool {
    forall|i: int| 0 <= i < options.len() ==> (#[trigger] options[i])@.len() <= MAX_REFERENDUM_OPTION
}

pub open spec fn create_referendum_error(
    cfg: Config,
    origin: Origin,
    compliant: bool,
    title_len: nat,
    description_len: nat,
    options: Seq<Vec<u8>>,
    quorum_percentage: u8,
    district_index: Option<u8>,
) -> Option<Error> {
    if signer_of(origin) is None {
        Some(Error::BadOrigin)
    } else if !compliant {
        Some(Error::InsufficientCompliance)
    } else if options.len() < 2 {
        Some(Error::NoOptionsProvided)
    } else if options.len() > MAX_REFERENDUM_OPTIONS {
        Some(Error::TooManyOptions)
    } else if !(cfg.min_quorum_percentage <= quorum_percentage && quorum_percentage <= 100) {
        Some(Error::InvalidQuorum)
    } else if title_len > MAX_REFERENDUM_TITLE {
        Some(Error::ReferendumTitleTooLong)
    } else if description_len > MAX_REFERENDUM_DESCRIPTION {
        Some(Error::ReferendumDescriptionTooLong)
    } else if !options_fit(options) {
        Some(Error::ReferendumDescriptionTooLong)
    } else if district_index is Some && district_index.unwrap() >= 6 {
        Some(Error::InvalidDistrict)
    } else {
        None
    }
}

/// The district a referendum is restricted to, if any.
pub open spec fn referendum_district(district_index: Option<u8>) -> Option<BelizeDistrict> {
    match district_index {
        Some(i) => district_of(i),
        None => None,
    }
}

/// The state after a referendum is created under the next id, with the
/// given zeroed `vote_counts` and the title copy `event_title` in its event.
pub open spec fn create_referendum_post(
    s: GovView,
    now: BlockNumber,
    creator: AccountId,
    title: Vec<u8>,
    description: Vec<u8>,
    options: Vec<Vec<u8>>,
    quorum_percentage: u8,
    duration_blocks: u32,
    district_index: Option<u8>,
    eligible_voters: u32,
    vote_counts: Vec<u32>,
    event_title: Vec<u8>,
) -> GovView {
    let id = s.next_referendum_id;
    GovView {
        next_referendum_id: sat_add_u32(id, 1),
        referendums: s.referendums.insert(
            id,
            Referendum {
                id,
                creator,
                title,
                description,
                options,
                quorum_percentage,
                voting_start: now,
                voting_end: sat_add_u64(now, duration_blocks as u64),
                vote_counts,
                total_votes: 0,
                status: ReferendumStatus::Active,
                district: referendum_district(district_index),
                winning_option: None,
            },
        ),
        referendum_eligible_voters: s.referendum_eligible_voters.insert(id, eligible_voters),
        events: s.events.push(
            Event::ReferendumCreated {
                referendum_id: id,
                creator,
                title: event_title,
                quorum_percentage,
                district_index,
            },
        ),
        ..s
    }
}

/// The title carried by the last event, where it is a referendum creation.
pub open spec fn created_title(evs: Seq<Event>) -> Vec<u8> {
    match evs.last() {
        Event::ReferendumCreated { title, .. } => title,
        _ => arbitrary(),
    }
}

/// A referendum vote's weight: community rank plus PoUW, at least one.
pub open spec fn referendum_weight(s: GovView, who: AccountId) -> u32 {
    let w = sat_add_u32(map_get_or(s.community_ranks, who, 0u32), map_get_or(s.pouw_contributions, who, 0u32));
    if w < 1 {
        1
    } else {
        w
    }
}

pub open spec fn vote_on_referendum_error(
    s: GovView,
    now: BlockNumber,
    origin: Origin,
    compliant: bool,
    referendum_id: u32,
    option_index: u8,
) -> Option<Error> {
    let who = signer_of(origin).unwrap();
    let r = s.referendums[referendum_id];
    if signer_of(origin) is None {
        Some(Error::BadOrigin)
    } else if !compliant {
        Some(Error::InsufficientCompliance)
    } else if !s.referendums.contains_key(referendum_id) {
        Some(Error::ReferendumNotFound)
    } else if r.status != ReferendumStatus::Active {
        Some(Error::ReferendumNotFinalized)
    } else if now < r.voting_start {
        Some(Error::ReferendumVotingNotStarted)
    } else if now > r.voting_end {
        Some(Error::ReferendumVotingEnded)
    } else if s.referendum_votes.contains_key((referendum_id, who)) {
        Some(Error::AlreadyVotedOnReferendum)
    } else if option_index >= r.options@.len() || option_index >= r.vote_counts@.len() {
        Some(Error::InvalidOptionIndex)
    } else {
        None
    }
}

/// The counts after `who` votes for `option_index`.
pub open spec fn counts_after_vote(s: GovView, referendum_id: u32, who: AccountId, option_index: u8) -> Seq<u32> {
    let c = s.referendums[referendum_id].vote_counts@;
    c.update(option_index as int, sat_add_u32(c[option_index as int], referendum_weight(s, who)))
}

/// The state after a referendum vote, the updated counts being `vote_counts`.
pub open spec fn vote_on_referendum_post(
    s: GovView,
    who: AccountId,
    referendum_id: u32,
    option_index: u8,
    vote_counts: Vec<u32>,
) -> GovView {
    let r = s.referendums[referendum_id];
    let w = referendum_weight(s, who);
    GovView {
        referendum_votes: s.referendum_votes.insert((referendum_id, who), option_index),
        referendums: s.referendums.insert(
            referendum_id,
            Referendum { vote_counts, total_votes: sat_add_u32(r.total_votes, w), ..r },
        ),
        events: s.events.push(
            Event::ReferendumVoteCast { referendum_id, voter: who, option_index, weight: w },
        ),
        ..s
    }
}

/// Participation in percent of the eligible voters, at most 100; zero
/// where nobody is eligible.
pub open spec fn participation_of(total_votes: u32, eligible: u32) -> u8 {
    if eligible > 0 {
        let p = total_votes as int * 100 / eligible as int;
        if p > 100 {
            100
        } else {
            p as u8
        }
    } else {
        0
    }
}

/// The leading option and its count: the first option whose count is
/// strictly above all before it and not below any after it; option 0 with
/// count 0 where every count is zero.
pub open spec fn leading_option(counts: Seq<u32>) -> (int, u32)
    decreases counts.len(),
{
    if counts.len() == 0 {
        (0, 0)
    } else {
        let (i, m) = leading_option(counts.drop_last());
        if counts.last() > m {
            (counts.len() - 1, counts.last())
        } else {
            (i, m)
        }
    }
}

pub open spec fn finalize_referendum_error(s: GovView, now: BlockNumber, origin: Origin, referendum_id: u32) -> Option<
    Error,
> {
    let r = s.referendums[referendum_id];
    if signer_of(origin) is None {
        Some(Error::BadOrigin)
    } else if !s.referendums.contains_key(referendum_id) {
        Some(Error::ReferendumNotFound)
    } else if r.status != ReferendumStatus::Active {
        Some(Error::ReferendumAlreadyFinalized)
    } else if now <= r.voting_end {
        Some(Error::VotingPeriodNotEnded)
    } else {
        None
    }
}

/// The participation a referendum reached.
pub open spec fn referendum_participation(s: GovView, referendum_id: u32) -> u8 {
    participation_of(
        s.referendums[referendum_id].total_votes,
        map_get_or(s.referendum_eligible_voters, referendum_id, 0u32),
    )
}

/// The state after finalization: passed with its leading option where the
/// quorum is met, failed otherwise.
pub open spec fn finalize_referendum_post(s: GovView, referendum_id: u32) -> GovView {
    let r = s.referendums[referendum_id];
    let p = referendum_participation(s, referendum_id);
    if p >= r.quorum_percentage {
        let w = leading_option(r.vote_counts@).0 as u8;
        GovView {
            referendums: s.referendums.insert(
                referendum_id,
                Referendum { status: ReferendumStatus::Passed, winning_option: Some(w), ..r },
            ),
            events: s.events.push(
                Event::ReferendumPassed {
                    referendum_id,
                    winning_option_index: w,
                    total_votes: r.total_votes,
                    participation_percentage: p,
                },
            ),
            ..s
        }
    } else {
        GovView {
            referendums: s.referendums.insert(
                referendum_id,
                Referendum { status: ReferendumStatus::Failed, ..r },
            ),
            events: s.events.push(
                Event::ReferendumFailed {
                    referendum_id,
                    total_votes: r.total_votes,
                    participation_percentage: p,
                    required_quorum: r.quorum_percentage,
                },
            ),
            ..s
        }
    }
}

pub open spec fn fast_track_error(s: GovView, origin: Origin, council_origin: bool, referendum_id: u32) -> Option<
    Error,
> {
    if !(origin == Origin::Root || council_origin) {
        Some(Error::Unauthorized)
    } else if !(s.jaguar_mode is Some && s.jaguar_mode.unwrap().active) {
        Some(Error::NotInEmergencyMode)
    } else if !s.referendums.contains_key(referendum_id) {
        Some(Error::ReferendumNotFound)
    } else if s.referendums[referendum_id].status != ReferendumStatus::Active {
        Some(Error::ReferendumAlreadyFinalized)
    } else {
        None
    }
}

pub open spec fn fast_track_post(s: GovView, now: BlockNumber, referendum_id: u32) -> GovView {
    let r = s.referendums[referendum_id];
    let deadline = (now + FAST_TRACK_BLOCKS) as u64;
    GovView {
        referendums: s.referendums.insert(referendum_id, Referendum { voting_end: deadline, ..r }),
        events: s.events.push(
            Event::ReferendumFastTracked {
                referendum_id,
                original_deadline: r.voting_end,
                new_deadline: deadline,
                emergency_type_index: emergency_type_index_of(s.jaguar_mode.unwrap().emergency_type),
            },
        ),
        ..s
    }
}

/// The leading option outranks every option before it and is not
/// outranked by any after it; it is a real option unless there is none.
pub proof fn lemma_leading_option(counts: Seq<u32>)
    ensures
        ({
            let (i, m) = leading_option(counts);
            &&& counts.len() > 0 ==> 0 <= i < counts.len()
            &&& (counts.len() > 0 && m > 0) ==> counts[i] == m
            &&& counts.len() > 0 && m == 0 ==> i == 0
            &&& forall|j: int| 0 <= j < counts.len() ==> #[trigger] counts[j] <= m
            &&& forall|j: int| 0 <= j < i ==> #[trigger] counts[j] < m
        }),
    decreases counts.len(),
{
    if counts.len() > 0 {
        let pre = counts.drop_last();
        lemma_leading_option(pre);
        let (i0, m0) = leading_option(pre);
        assert forall|j: int| 0 <= j < pre.len() implies #[trigger] counts[j] == pre[j] by {}
        if pre.len() == 0 {
            assert(m0 == 0 && i0 == 0);
        }
    }
}

impl Pallet {
    /// Creates a referendum that opens now and runs `duration_blocks`.
    ///
    /// `compliant` is the compliance provider's answer for the signer and
    /// `eligible_voters` its count of eligible voters.
    pub fn create_referendum(
        &mut self,
        cfg: &Config,
        now: BlockNumber,
        origin: Origin,
        compliant: bool,
        title: Vec<u8>,
        description: Vec<u8>,
        options: Vec<Vec<u8>>,
        quorum_percentage: u8,
        duration_blocks: u32,
        district_index: Option<u8>,
        eligible_voters: u32,
    ) -> (r: Result<(), Error>)
        ensures
            r == (match create_referendum_error(
                *cfg,
                origin,
                compliant,
                title@.len(),
                description@.len(),
                options@,
                quorum_percentage,
                district_index,
            ) {
                Some(e) => Err(e),
                None => Ok(()),
            }),
            r is Err ==> final(self)@ == old(self)@,
            r is Ok ==> ({
                let id = old(self)@.next_referendum_id;
                let vc = final(self)@.referendums[id].vote_counts;
                let et = created_title(final(self)@.events);
                &&& vc@ == Seq::new(options@.len(), |i: int| 0u32)
                &&& et@ == title@
                &&& final(self)@ == create_referendum_post(
                    old(self)@,
                    now,
                    signer_of(origin).unwrap(),
                    title,
                    description,
                    options,
                    quorum_percentage,
                    duration_blocks,
                    district_index,
                    eligible_voters,
                    vc,
                    et,
                )
            }),
    {
        let who = match origin {
            Origin::Signed(w) => w,
            _ => return Err(Error::BadOrigin),
        };
        if !compliant {
            return Err(Error::InsufficientCompliance);
        }
        if options.len() < 2 {
            return Err(Error::NoOptionsProvided);
        }
        if options.len() > MAX_REFERENDUM_OPTIONS {
            return Err(Error::TooManyOptions);
        }
        if !(cfg.min_quorum_percentage <= quorum_percentage && quorum_percentage <= 100) {
            return Err(Error::InvalidQuorum);
        }
        if title.len() > MAX_REFERENDUM_TITLE {
            return Err(Error::ReferendumTitleTooLong);
        }
        if description.len() > MAX_REFERENDUM_DESCRIPTION {
            return Err(Error::ReferendumDescriptionTooLong);
        }
        if !check_options_fit(&options) {
            return Err(Error::ReferendumDescriptionTooLong);
        }
        let district = match district_index {
            Some(idx) => {
                if idx >= 6 {
                    return Err(Error::InvalidDistrict);
                }
                BelizeDistrict::from_index(idx)
            },
            None => None,
        };
        let ghost s0 = self@;
        let voting_end = now.saturating_add(duration_blocks as u64);
        let id = self.next_referendum_id;
        self.next_referendum_id = id.saturating_add(1);
        let mut vote_counts: Vec<u32> = Vec::new();
        let mut j: usize = 0;
        while j < options.len()
            invariant
                j <= options@.len(),
                vote_counts@ == Seq::new(j as nat, |i: int| 0u32),
            decreases options@.len() - j,
        {
            vote_counts.push(0u32);
            j = j + 1;
        }
        let ghost vc_g = vote_counts;
        let ghost title_g = title;
        let ghost desc_g = description;
        let ghost options_g = options;
        let event_title = crate::vec_map::copy_bytes(&title);
        let ghost et_g = event_title;
        self.referendums.insert(
            id,
            Referendum {
                id,
                creator: who,
                title,
                description,
                options,
                quorum_percentage,
                voting_start: now,
                voting_end,
                vote_counts,
                total_votes: 0,
                status: ReferendumStatus::Active,
                district,
                winning_option: None,
            },
        );
        self.referendum_eligible_voters.insert(id, eligible_voters);
        self.events.push(
            Event::ReferendumCreated {
                referendum_id: id,
                creator: who,
                title: event_title,
                quorum_percentage,
                district_index,
            },
        );
        proof {
            assert(self@ =~= create_referendum_post(
                s0,
                now,
                who,
                title_g,
                desc_g,
                options_g,
                quorum_percentage,
                duration_blocks,
                district_index,
                eligible_voters,
                vc_g,
                et_g,
            ));
        }
        Ok(())
    }

    /// Votes for option `option_index` of an active referendum, weighted by
    /// community rank plus PoUW (at least one). `compliant` is the
    /// compliance provider's answer for the signer.
    pub fn vote_on_referendum(
        &mut self,
        now: BlockNumber,
        origin: Origin,
        compliant: bool,
        referendum_id: u32,
        option_index: u8,
    ) -> (r: Result<(), Error>)
        ensures
            r == (match vote_on_referendum_error(old(self)@, now, origin, compliant, referendum_id, option_index) {
                Some(e) => Err(e),
                None => Ok(()),
            }),
            r is Err ==> final(self)@ == old(self)@,
            r is Ok ==> ({
                let who = signer_of(origin).unwrap();
                let vc = final(self)@.referendums[referendum_id].vote_counts;
                &&& vc@ == counts_after_vote(old(self)@, referendum_id, who, option_index)
                &&& final(self)@ == vote_on_referendum_post(old(self)@, who, referendum_id, option_index, vc)
            }),
    {
        let who = match origin {
            Origin::Signed(w) => w,
            _ => return Err(Error::BadOrigin),
        };
        if !compliant {
            return Err(Error::InsufficientCompliance);
        }
        match self.referendums.get(&referendum_id) {
            Some(rf) => {
                if rf.status != ReferendumStatus::Active {
                    return Err(Error::ReferendumNotFinalized);
                }
                if now < rf.voting_start {
                    return Err(Error::ReferendumVotingNotStarted);
                }
                if now > rf.voting_end {
                    return Err(Error::ReferendumVotingEnded);
                }
                if self.referendum_votes.contains_key(&(referendum_id, who)) {
                    return Err(Error::AlreadyVotedOnReferendum);
                }
                if option_index as usize >= rf.options.len() || option_index as usize >= rf.vote_counts.len() {
                    return Err(Error::InvalidOptionIndex);
                }
            },
            None => return Err(Error::ReferendumNotFound),
        }
        let ghost s0 = self@;
        let rank = self.community_ranks.get_or(&who, 0u32);
        let pouw = self.pouw_contributions.get_or(&who, 0u32);
        let sum = rank.saturating_add(pouw);
        let weight = if sum < 1 {
            1
        } else {
            sum
        };
        self.referendum_votes.insert((referendum_id, who), option_index);
        match self.referendums.take(&referendum_id) {
            Some((pos, rf)) => {
                let mut rf = rf;
                let i = option_index as usize;
                let updated = rf.vote_counts[i].saturating_add(weight);
                rf.vote_counts.set(i, updated);
                rf.total_votes = rf.total_votes.saturating_add(weight);
                let ghost vc_g = rf.vote_counts;
                self.referendums.restore(pos, referendum_id, rf);
                self.events.push(
                    Event::ReferendumVoteCast { referendum_id, voter: who, option_index, weight },
                );
                proof {
                    assert(vc_g@ =~= counts_after_vote(s0, referendum_id, who, option_index));
                    assert(self@ =~= vote_on_referendum_post(s0, who, referendum_id, option_index, vc_g));
                }
                Ok(())
            },
            None => Err(Error::ReferendumNotFound),
        }
    }

    /// Finalizes a referendum after its voting period: passed with its
    /// leading option where participation meets the quorum, failed
    /// otherwise.
    pub fn finalize_referendum(&mut self, now: BlockNumber, origin: Origin, referendum_id: u32) -> (r: Result<
        (),
        Error,
    >)
        ensures
            r == (match finalize_referendum_error(old(self)@, now, origin, referendum_id) {
                Some(e) => Err(e),
                None => Ok(()),
            }),
            r is Err ==> final(self)@ == old(self)@,
            r is Ok ==> final(self)@ == finalize_referendum_post(old(self)@, referendum_id),
    {
        match origin {
            Origin::Signed(_) => {},
            _ => return Err(Error::BadOrigin),
        }
        match self.referendums.get(&referendum_id) {
            Some(rf) => {
                if rf.status != ReferendumStatus::Active {
                    return Err(Error::ReferendumAlreadyFinalized);
                }
                if now <= rf.voting_end {
                    return Err(Error::VotingPeriodNotEnded);
                }
            },
            None => return Err(Error::ReferendumNotFound),
        }
        let ghost s0 = self@;
        let eligible = self.referendum_eligible_voters.get_or(&referendum_id, 0u32);
        match self.referendums.take(&referendum_id) {
            Some((pos, rf)) => {
                let participation: u8 = if eligible > 0 {
                    let p = (rf.total_votes as u64 * 100) / eligible as u64;
                    if p > 100 {
                        100
                    } else {
                        p as u8
                    }
                } else {
                    0
                };
                let total = rf.total_votes;
                if participation >= rf.quorum_percentage {
                    let winner = leading_index(&rf.vote_counts);
                    let nr = Referendum {
                        status: ReferendumStatus::Passed,
                        winning_option: Some(winner),
                        ..rf
                    };
                    self.referendums.restore(pos, referendum_id, nr);
                    self.events.push(
                        Event::ReferendumPassed {
                            referendum_id,
                            winning_option_index: winner,
                            total_votes: total,
                            participation_percentage: participation,
                        },
                    );
                } else {
                    let quorum = rf.quorum_percentage;
                    let nr = Referendum { status: ReferendumStatus::Failed, ..rf };
                    self.referendums.restore(pos, referendum_id, nr);
                    self.events.push(
                        Event::ReferendumFailed {
                            referendum_id,
                            total_votes: total,
                            participation_percentage: participation,
                            required_quorum: quorum,
                        },
                    );
                }
                proof {
                    assert(self@ =~= finalize_referendum_post(s0, referendum_id));
                }
                Ok(())
            },
            None => Err(Error::ReferendumNotFound),
        }
    }

    /// Shortens an active referendum to three hours from now while an
    /// emergency is active (root or council). `council_origin` is whether
    /// the council origin check passed.
    pub fn fast_track_referendum(
        &mut self,
        now: BlockNumber,
        origin: Origin,
        council_origin: bool,
        referendum_id: u32,
    ) -> (r: Result<(), Error>)
        requires
            now + FAST_TRACK_BLOCKS <= u64::MAX,
        ensures
            r == (match fast_track_error(old(self)@, origin, council_origin, referendum_id) {
                Some(e) => Err(e),
                None => Ok(()),
            }),
            r is Err ==> final(self)@ == old(self)@,
            r is Ok ==> final(self)@ == fast_track_post(old(self)@, now, referendum_id),
    {
        if !(origin == Origin::Root || council_origin) {
            return Err(Error::Unauthorized);
        }
        let emergency_index = match &self.jaguar_mode {
            Some(e) => {
                if !e.active {
                    return Err(Error::NotInEmergencyMode);
                }
                e.emergency_type.to_index()
            },
            None => return Err(Error::NotInEmergencyMode),
        };
        match self.referendums.get(&referendum_id) {
            Some(rf) => {
                if rf.status != ReferendumStatus::Active {
                    return Err(Error::ReferendumAlreadyFinalized);
                }
            },
            None => return Err(Error::ReferendumNotFound),
        }
        let ghost s0 = self@;
        match self.referendums.take(&referendum_id) {
            Some((pos, rf)) => {
                let deadline = now + FAST_TRACK_BLOCKS;
                let original = rf.voting_end;
                let nr = Referendum { voting_end: deadline, ..rf };
                self.referendums.restore(pos, referendum_id, nr);
                self.events.push(
                    Event::ReferendumFastTracked {
                        referendum_id,
                        original_deadline: original,
                        new_deadline: deadline,
                        emergency_type_index: emergency_index,
                    },
                );
                proof {
                    assert(self@ =~= fast_track_post(s0, now, referendum_id));
                }
                Ok(())
            },
            None => Err(Error::ReferendumNotFound),
        }
    }
}

/// Whether every option fits its length bound.
fn check_options_fit(options: &Vec<Vec<u8>>) -> (b: bool)
    ensures
        b == options_fit(options@),
{
    let mut k: usize = 0;
    while k < options.len()
        invariant
            k <= options@.len(),
            forall|i: int| 0 <= i < k ==> (#[trigger] options@[i])@.len() <= MAX_REFERENDUM_OPTION,
        decreases options@.len() - k,
    {
        if options[k].len() > MAX_REFERENDUM_OPTION {
            assert(options@[k as int]@.len() > MAX_REFERENDUM_OPTION);
            return false;
        }
        k = k + 1;
    }
    true
}

/// The index of the leading option, truncated to a byte.
fn leading_index(counts: &Vec<u32>) -> (w: u8)
    ensures
        w == leading_option(counts@).0 as u8,
{
    let mut best: usize = 0;
    let mut max_votes: u32 = 0;
    let mut idx: usize = 0;
    while idx < counts.len()
        invariant
            idx <= counts@.len(),
            leading_option(counts@.subrange(0, idx as int)) == (best as int, max_votes),
        decreases counts@.len() - idx,
    {
        proof {
            assert(counts@.subrange(0, idx + 1).drop_last() =~= counts@.subrange(0, idx as int));
        }
        if counts[idx] > max_votes {
            max_votes = counts[idx];
            best = idx;
        }
        idx = idx + 1;
    }
    assert(counts@.subrange(0, counts@.len() as int) =~= counts@);
    best as u8
}

} // verus!
