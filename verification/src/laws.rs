//! Properties that span several calls of the pallet.
use vstd::prelude::*;

use crate::board::{add_board_member_error, add_board_member_post, without};
use crate::call_data::{call_variant, le_value, spend_amount, spend_recipient};
use crate::arith::{floor_sqrt, is_floor_sqrt, lemma_floor_sqrt_exists};
use crate::config::Config;
use crate::delegation::{delegate_vote_error, delegate_vote_post, revoke_delegation_post};
use crate::elections::{best_index, lemma_best_index_bounds, select_winners};
use crate::emergency::{counted_council, declare_emergency_error, declare_emergency_post, veto_emergency_post};
use crate::events::{Error, Origin};
use crate::execution::{execute_proposal_error, runtime_upgrade_post};
use crate::hashing::{le_bytes, lemma_le_bytes_len};
use crate::params::{
    apply_upgrade_error, apply_upgrade_post, lock_error, ratify_error, ratify_post, update_parameter_error,
};
use crate::proposals::{
    cast_vote_error, cast_vote_post, cast_vote_weight, commit_vote_error, commit_vote_post, finalize_proposal_error,
    finalize_proposal_post, proposal_passes, approval_percentage, stake_weight, receivers_of, reveal_vote_error_with, sat_add_u64, signer_of,
};
use crate::referendum::{fast_track_error, vote_on_referendum_error, vote_on_referendum_post};
use crate::state::GovView;
use crate::treasury::{claim_reward_error, claim_reward_post, spend_error, spend_period, spend_post, COUNCIL_REWARD_PERIOD};
use crate::types::{
    required_percentage_of, role_max_count, vote_choice_of, AccountId, Balance, BlockNumber, BoardRole, Proposal, ProposalStatus,
    ProposalType, VoteDelegation, VoteTally,
};
use crate::vec_map::map_get_or;

verus! {

// ---------------------------------------------------------------------------
// Voting
// ---------------------------------------------------------------------------

/// An account votes on a proposal at most once: after its vote is
/// recorded, every further vote of it on that proposal is refused,
/// whenever it comes and whatever the providers answer.
pub proof fn law_vote_once(
    s: GovView,
    cfg: Config,
    now: BlockNumber,
    origin: Origin,
    compliant: bool,
    flagged: bool,
    balance: Balance,
    proposal_id: u32,
    vote_choice_index: u8,
    conviction: u8,
    later: BlockNumber,
    compliant2: bool,
    flagged2: bool,
    vote_choice_index2: u8,
)
    requires
        cast_vote_error(s, now, origin, compliant, flagged, proposal_id, vote_choice_index) is None,
    ensures
        cast_vote_error(
            cast_vote_post(
                s,
                cfg,
                now,
                signer_of(origin).unwrap(),
                balance,
                proposal_id,
                vote_choice_index,
                conviction,
            ),
            later,
            origin,
            compliant2,
            flagged2,
            proposal_id,
            vote_choice_index2,
        ) is Some,
{
}

/// The summed weight of the votes that `voters` recorded on a proposal.
pub open spec fn weight_total(s: GovView, proposal_id: u32, voters: Seq<AccountId>) -> int
    decreases voters.len(),
{
    if voters.len() == 0 {
        0
    } else {
        weight_total(s, proposal_id, voters.drop_last()) + s.votes[(proposal_id, voters.last())].weight
    }
}

/// Votes the listed accounts recorded alike in two states sum alike.
proof fn lemma_weight_total_same(s: GovView, t: GovView, proposal_id: u32, voters: Seq<AccountId>)
    requires
        forall|i: int| 0 <= i < voters.len() ==> s.votes[(proposal_id, #[trigger] voters[i])] == t.votes[(
            proposal_id,
            voters[i],
        )],
    ensures
        weight_total(s, proposal_id, voters) == weight_total(t, proposal_id, voters),
    decreases voters.len(),
{
    if voters.len() > 0 {
        let pre = voters.drop_last();
        assert forall|i: int| 0 <= i < pre.len() implies s.votes[(proposal_id, #[trigger] pre[i])] == t.votes[(
            proposal_id,
            pre[i],
        )] by {
            assert(pre[i] == voters[i]);
        }
        lemma_weight_total_same(s, t, proposal_id, pre);
        assert(voters.last() == voters[voters.len() - 1]);
    }
}

/// A proposal's total weight is the sum of its recorded votes' weights: a
/// vote that goes through keeps it so, as long as the total does not
/// saturate.
pub proof fn law_tally_sums_votes(
    s: GovView,
    cfg: Config,
    now: BlockNumber,
    origin: Origin,
    compliant: bool,
    flagged: bool,
    balance: Balance,
    proposal_id: u32,
    vote_choice_index: u8,
    conviction: u8,
    voters: Seq<AccountId>,
)
    requires
        cast_vote_error(s, now, origin, compliant, flagged, proposal_id, vote_choice_index) is None,
        forall|a: AccountId| voters.contains(a) <==> s.votes.contains_key((proposal_id, a)),
        s.proposals[proposal_id].vote_tally.total_weight == weight_total(s, proposal_id, voters),
        s.proposals[proposal_id].vote_tally.total_weight + cast_vote_weight(
            s,
            cfg,
            now,
            signer_of(origin).unwrap(),
            balance,
            conviction,
        ) <= u32::MAX,
    ensures
        ({
            let who = signer_of(origin).unwrap();
            let s1 = cast_vote_post(s, cfg, now, who, balance, proposal_id, vote_choice_index, conviction);
            &&& forall|a: AccountId| voters.push(who).contains(a) <==> s1.votes.contains_key((proposal_id, a))
            &&& s1.proposals[proposal_id].vote_tally.total_weight == weight_total(s1, proposal_id, voters.push(who))
        }),
{
    let who = signer_of(origin).unwrap();
    let s1 = cast_vote_post(s, cfg, now, who, balance, proposal_id, vote_choice_index, conviction);
    let vs = voters.push(who);
    assert(!voters.contains(who));
    assert forall|i: int| 0 <= i < voters.len() implies s.votes[(proposal_id, #[trigger] voters[i])]
        == s1.votes[(proposal_id, voters[i])] by {
        assert(voters.contains(voters[i]));
    }
    lemma_weight_total_same(s, s1, proposal_id, voters);
    assert(vs.drop_last() =~= voters);
    assert forall|a: AccountId| vs.contains(a) <==> s1.votes.contains_key((proposal_id, a)) by {
        assert(s1.votes.dom() =~= s.votes.dom().insert((proposal_id, who)));
        if a == who {
            assert(vs[voters.len() as int] == who);
        } else {
            assert((proposal_id, a) != (proposal_id, who));
            if vs.contains(a) {
                let i = choose|i: int| 0 <= i < vs.len() && vs[i] == a;
                assert(i < voters.len());
                assert(voters[i] == a);
                assert(voters.contains(a));
            }
            if voters.contains(a) {
                let i = choose|i: int| 0 <= i < voters.len() && voters[i] == a;
                assert(vs[i] == a);
            }
        }
    }
}

/// A committed vote can be revealed only with the committed digest: any
/// other digest is refused as a mismatch, while the committed one passes
/// every check where the choice is valid and the proposal still takes
/// reveals.
pub proof fn law_commit_reveal(
    s: GovView,
    cfg: Config,
    now: BlockNumber,
    origin: Origin,
    proposal_id: u32,
    commitment: [u8; 32],
    later: BlockNumber,
    vote_choice_index: u8,
    digest: Seq<u8>,
)
    requires
        commit_vote_error(s, now, origin, proposal_id) is None,
    ensures
        ({
            let s1 = commit_vote_post(s, signer_of(origin).unwrap(), proposal_id, commitment);
            let p = s.proposals[proposal_id];
            &&& digest != commitment@ ==> reveal_vote_error_with(
                s1,
                cfg,
                later,
                origin,
                proposal_id,
                vote_choice_index,
                digest,
            ) == Some(Error::CommitmentHashMismatch)
            &&& (digest == commitment@ && vote_choice_of(vote_choice_index) is Some && p.voting_start <= later
                && later <= sat_add_u64(p.voting_end, cfg.voting_period) && (p.status == ProposalStatus::Pending
                || p.status == ProposalStatus::Voting)) ==> reveal_vote_error_with(
                s1,
                cfg,
                later,
                origin,
                proposal_id,
                vote_choice_index,
                digest,
            ) is None
        }),
{
}

/// Finalization approves a proposal exactly when its tally meets its
/// threshold, and rejects it otherwise.
pub proof fn law_finalize_decides(s: GovView, cfg: Config, now: BlockNumber, origin: Origin, proposal_id: u32)
    requires
        finalize_proposal_error(s, now, origin, proposal_id) is None,
    ensures
        ({
            let st = finalize_proposal_post(s, cfg, now, proposal_id).proposals[proposal_id].status;
            &&& st == ProposalStatus::Approved <==> proposal_passes(s.proposals[proposal_id])
            &&& st == ProposalStatus::Rejected <==> !proposal_passes(s.proposals[proposal_id])
        }),
{
}

// ---------------------------------------------------------------------------
// Delegation
// ---------------------------------------------------------------------------

/// `without(q.push(a), a)` is `without(q, a)`.
proof fn lemma_without_push(q: Seq<AccountId>, a: AccountId)
    ensures
        without(q.push(a), a) == without(q, a),
{
    assert(q.push(a).drop_last() =~= q);
}

/// Removing an absent account changes nothing.
proof fn lemma_without_absent(q: Seq<AccountId>, a: AccountId)
    requires
        !q.contains(a),
    ensures
        without(q, a) == q,
    decreases q.len(),
{
    if q.len() > 0 {
        assert(!q.drop_last().contains(a)) by {
            if q.drop_last().contains(a) {
                let i = choose|i: int| 0 <= i < q.drop_last().len() && q.drop_last()[i] == a;
                assert(q[i] == a);
            }
        }
        lemma_without_absent(q.drop_last(), a);
        assert(q.last() != a) by {
            assert(q[q.len() - 1] == q.last());
        }
        assert(q.drop_last().push(q.last()) =~= q);
    }
}

/// Delegating and then revoking leaves the delegations and the delegate's
/// list of delegators as they were, for an account that held no delegation.
pub proof fn law_delegate_then_revoke(
    s: GovView,
    now: BlockNumber,
    origin: Origin,
    delegate: AccountId,
    expires_at: Option<BlockNumber>,
)
    requires
        delegate_vote_error(s, now, origin, true, true, delegate) is None,
        !s.vote_delegations.contains_key(signer_of(origin).unwrap()),
        !receivers_of(s, delegate).contains(signer_of(origin).unwrap()),
    ensures
        ({
            let who = signer_of(origin).unwrap();
            let s1 = delegate_vote_post(s, now, who, delegate, expires_at);
            let s2 = revoke_delegation_post(s1, who);
            &&& s2.vote_delegations == s.vote_delegations
            &&& receivers_of(s2, delegate) == receivers_of(s, delegate)
        }),
{
    let who = signer_of(origin).unwrap();
    lemma_without_push(receivers_of(s, delegate), who);
    lemma_without_absent(receivers_of(s, delegate), who);
    let s1 = delegate_vote_post(s, now, who, delegate, expires_at);
    assert(s1.vote_delegations.remove(who) =~= s.vote_delegations);
}

// ---------------------------------------------------------------------------
// Board and treasury limits
// ---------------------------------------------------------------------------

/// Adding a board member never takes a role past its seat limit.
pub proof fn law_board_within_limits(
    s: GovView,
    cfg: Config,
    now: BlockNumber,
    council_origin: bool,
    account: AccountId,
    role_index: u8,
    term_years: u8,
    queue: Vec<AccountId>,
)
    requires
        add_board_member_error(s, cfg, now, council_origin, account, role_index, term_years) is None,
        forall|r: BoardRole| map_get_or(s.board_composition, r, 0u32) <= role_max_count(r),
    ensures
        forall|r: BoardRole|
            map_get_or(
                add_board_member_post(s, now, account, role_index, term_years, queue).board_composition,
                r,
                0u32,
            ) <= role_max_count(r),
{
}

/// A spend that goes through keeps the period's spending within the cap.
pub proof fn law_spend_within_cap(
    s: GovView,
    cfg: Config,
    now: BlockNumber,
    recipient: AccountId,
    amount: Balance,
    proposal_id: u32,
    treasury_balance: Balance,
)
    requires
        spend_error(s, cfg, now, amount, treasury_balance, true) is None,
    ensures
        spend_post(s, cfg, now, recipient, amount, proposal_id).treasury_spend_tracker.1
            <= cfg.max_treasury_spend_per_period,
{
}

/// Vote and proposal rewards are paid to an account once, the council
/// reward once a month: a second claim of the same type is refused as
/// already claimed, a vote or proposal reward whenever it comes, a council
/// reward within thirty days of the first.
pub proof fn law_reward_once(
    s: GovView,
    order: Seq<u32>,
    now: BlockNumber,
    now2: BlockNumber,
    origin: Origin,
    reward_type: u8,
    treasury_balance: Balance,
    treasury_balance2: Balance,
    transfer_ok2: bool,
)
    requires
        claim_reward_error(s, order, now, origin, reward_type, treasury_balance, true) is None,
        reward_type == 2 ==> now2 < sat_add_u64(now, COUNCIL_REWARD_PERIOD),
    ensures
        claim_reward_error(
            claim_reward_post(s, now, signer_of(origin).unwrap(), reward_type),
            order,
            now2,
            origin,
            reward_type,
            treasury_balance2,
            transfer_ok2,
        ) == Some(Error::RewardAlreadyClaimed),
{
    let who = signer_of(origin).unwrap();
    let s1 = claim_reward_post(s, now, who, reward_type);
    assert(s1.votes == s.votes);
    assert(s1.proposals == s.proposals);
    assert(s1.council_members == s.council_members);
    assert(crate::treasury::voted_recently(s1, who) == crate::treasury::voted_recently(s, who));
    assert(crate::treasury::authored_recently(s1, order, who) == crate::treasury::authored_recently(
        s,
        order,
        who,
    ));
}

/// The council reward comes again a month later: thirty days after a
/// member's claim, a new claim is not refused as already claimed.
pub proof fn law_council_reward_monthly(
    s: GovView,
    order: Seq<u32>,
    now: BlockNumber,
    now2: BlockNumber,
    origin: Origin,
    treasury_balance: Balance,
    treasury_balance2: Balance,
    transfer_ok2: bool,
)
    requires
        claim_reward_error(s, order, now, origin, 2, treasury_balance, true) is None,
        now2 >= sat_add_u64(now, COUNCIL_REWARD_PERIOD),
    ensures
        claim_reward_error(
            claim_reward_post(s, now, signer_of(origin).unwrap(), 2),
            order,
            now2,
            origin,
            2,
            treasury_balance2,
            transfer_ok2,
        ) != Some(Error::RewardAlreadyClaimed),
{
}

// ---------------------------------------------------------------------------
// Constitutional safeguards
// ---------------------------------------------------------------------------

/// A locked parameter cannot be updated; once unlocked, root may update it
/// again.
pub proof fn law_lock_blocks_update(s: GovView, key: Vec<u8>)
    requires
        lock_error(s, true, key@, true) is None,
    ensures
        update_parameter_error(
            GovView { locked_parameters: s.locked_parameters.insert(key@, true), ..s },
            Origin::Root,
            key@,
        ) == Some(Error::ParameterConstitutionallyLocked),
        update_parameter_error(
            GovView { locked_parameters: s.locked_parameters.insert(key@, true).remove(key@), ..s },
            Origin::Root,
            key@,
        ) is None,
{
}

/// A technical and then a governance ratification leave a constitutional
/// proposal ratified by both houses.
pub proof fn law_dual_ratification(
    s: GovView,
    tech_origin: Origin,
    gov_origin: Origin,
    proposal_id: u32,
)
    requires
        ratify_error(s, tech_origin, proposal_id, true, false) is None,
        ratify_error(
            ratify_post(s, signer_of(tech_origin).unwrap(), proposal_id, true, false),
            gov_origin,
            proposal_id,
            false,
            true,
        ) is None,
    ensures
        ratify_post(
            ratify_post(s, signer_of(tech_origin).unwrap(), proposal_id, true, false),
            signer_of(gov_origin).unwrap(),
            proposal_id,
            false,
            true,
        ).constitutional_ratifications[proposal_id] == (true, true),
{
}

/// An upgrade recorded by an executed proposal is applied by root with
/// code of the recorded hash, and only once.
pub proof fn law_upgrade_applies_once(s: GovView, proposal_id: u32, hash: [u8; 32])
    ensures
        apply_upgrade_error(runtime_upgrade_post(s, proposal_id, hash), Origin::Root, hash@, true) is None,
        apply_upgrade_error(
            apply_upgrade_post(runtime_upgrade_post(s, proposal_id, hash)),
            Origin::Root,
            hash@,
            true,
        ) == Some(Error::RuntimeUpgradeNotPending),
{
}

/// A declared emergency waits in its veto window: until it is finalized,
/// calls that need an active emergency are refused.
pub proof fn law_declared_emergency_pending(
    s: GovView,
    cfg: Config,
    now: BlockNumber,
    origin: Origin,
    council_origin: bool,
    emergency_type_index: u8,
    description: Vec<u8>,
    duration_hours: u32,
    declared_by: Option<[u8; 32]>,
    event_description: Vec<u8>,
    referendum_id: u32,
)
    requires
        declare_emergency_error(s, origin, council_origin, description@.len()) is None,
    ensures
        fast_track_error(
            declare_emergency_post(
                s,
                cfg,
                now,
                emergency_type_index,
                description,
                duration_hours,
                declared_by,
                event_description,
            ),
            Origin::Root,
            false,
            referendum_id,
        ) == Some(Error::NotInEmergencyMode),
{
}

// ---------------------------------------------------------------------------
// Referendums
// ---------------------------------------------------------------------------

/// An account votes on a referendum at most once.
pub proof fn law_referendum_vote_once(
    s: GovView,
    now: BlockNumber,
    origin: Origin,
    referendum_id: u32,
    option_index: u8,
    vote_counts: Vec<u32>,
    later: BlockNumber,
    compliant2: bool,
    option_index2: u8,
)
    requires
        vote_on_referendum_error(s, now, origin, true, referendum_id, option_index) is None,
    ensures
        vote_on_referendum_error(
            vote_on_referendum_post(s, signer_of(origin).unwrap(), referendum_id, option_index, vote_counts),
            later,
            origin,
            compliant2,
            referendum_id,
            option_index2,
        ) is Some,
{
}

// ---------------------------------------------------------------------------
// Elections
// ---------------------------------------------------------------------------

/// The candidates left over once `k` winners are taken.
pub open spec fn left_over(c: Seq<(AccountId, u32)>, k: nat) -> Seq<(AccountId, u32)>
    decreases k,
{
    if k == 0 || c.len() == 0 {
        c
    } else {
        left_over(c.remove(best_index(c)), (k - 1) as nat)
    }
}

/// Every left-over candidate is one of the field.
proof fn lemma_left_over_in_field(c: Seq<(AccountId, u32)>, k: nat)
    ensures
        forall|i: int| 0 <= i < left_over(c, k).len() ==> c.contains(#[trigger] left_over(c, k)[i]),
    decreases k,
{
    if k > 0 && c.len() > 0 {
        let b = best_index(c);
        lemma_best_index_bounds(c);
        let d = c.remove(b);
        lemma_left_over_in_field(d, (k - 1) as nat);
        assert(left_over(c, k) == left_over(d, (k - 1) as nat));
        assert forall|i: int| 0 <= i < left_over(c, k).len() implies c.contains(#[trigger] left_over(c, k)[i]) by {
            let x = left_over(c, k)[i];
            assert(d.contains(x));
            let j0 = choose|j: int| 0 <= j < d.len() && d[j] == x;
            if j0 < b {
                assert(c[j0] == d[j0]);
            } else {
                assert(c[j0 + 1] == d[j0]);
            }
        }
    } else {
        assert(left_over(c, k) == c);
        assert forall|i: int| 0 <= i < left_over(c, k).len() implies c.contains(#[trigger] left_over(c, k)[i]) by {
            assert(c[i] == left_over(c, k)[i]);
        }
    }
}

/// District elections seat the top vote-getters: every winner has at least
/// as many votes as every candidate left out, and winners come in
/// descending order of votes.
pub proof fn law_winners_outrank(c: Seq<(AccountId, u32)>, k: nat)
    ensures
        ({
            let w = select_winners(c, k);
            let r = left_over(c, k);
            &&& forall|i: int, j: int| 0 <= i < w.len() && 0 <= j < r.len() ==> (#[trigger] w[i]).1 >= (
            #[trigger] r[j]).1
            &&& forall|i: int, j: int| 0 <= i < j < w.len() ==> (#[trigger] w[i]).1 >= (#[trigger] w[j]).1
        }),
    decreases k,
{
    if k > 0 && c.len() > 0 {
        let b = best_index(c);
        lemma_best_index_bounds(c);
        let d = c.remove(b);
        law_winners_outrank(d, (k - 1) as nat);
        lemma_left_over_in_field(d, (k - 1) as nat);
        let w = select_winners(c, k);
        let w1 = select_winners(d, (k - 1) as nat);
        let r = left_over(c, k);
        assert(w == seq![c[b]] + w1);
        assert(r == left_over(d, (k - 1) as nat));
        assert forall|i: int, j: int| 0 <= i < w.len() && 0 <= j < r.len() implies (#[trigger] w[i]).1 >= (
        #[trigger] r[j]).1 by {
            if i == 0 {
                assert(d.contains(r[j]));
                let j0 = choose|x: int| 0 <= x < d.len() && d[x] == r[j];
                if j0 < b {
                    assert(c[j0] == d[j0]);
                } else {
                    assert(c[j0 + 1] == d[j0]);
                }
            } else {
                assert(w[i] == w1[i - 1]);
            }
        }
        lemma_winners_in_field(d, (k - 1) as nat);
        assert forall|i: int, j: int| 0 <= i < j < w.len() implies (#[trigger] w[i]).1 >= (#[trigger] w[j]).1 by {
            assert(w[j] == w1[j - 1]);
            if i == 0 {
                assert(d.contains(w1[j - 1]));
                let j0 = choose|x: int| 0 <= x < d.len() && d[x] == w1[j - 1];
                if j0 < b {
                    assert(c[j0] == d[j0]);
                } else {
                    assert(c[j0 + 1] == d[j0]);
                }
            } else {
                assert(w[i] == w1[i - 1]);
            }
        }
    }
}

/// Every winner is one of the field.
proof fn lemma_winners_in_field(c: Seq<(AccountId, u32)>, k: nat)
    ensures
        forall|i: int| 0 <= i < select_winners(c, k).len() ==> c.contains(#[trigger] select_winners(c, k)[i]),
    decreases k,
{
    if k > 0 && c.len() > 0 {
        let b = best_index(c);
        lemma_best_index_bounds(c);
        let d = c.remove(b);
        lemma_winners_in_field(d, (k - 1) as nat);
        let w = select_winners(c, k);
        let w1 = select_winners(d, (k - 1) as nat);
        assert(w == seq![c[b]] + w1);
        assert forall|i: int| 0 <= i < w.len() implies c.contains(#[trigger] w[i]) by {
            if i == 0 {
                assert(c[b] == w[0]);
            } else {
                assert(w[i] == w1[i - 1]);
                assert(d.contains(w1[i - 1]));
                let j0 = choose|x: int| 0 <= x < d.len() && d[x] == w1[i - 1];
                if j0 < b {
                    assert(c[j0] == d[j0]);
                } else {
                    assert(c[j0 + 1] == d[j0]);
                }
            }
        }
    }
}

// ---------------------------------------------------------------------------
// Call data
// ---------------------------------------------------------------------------

/// Reading back little-endian bytes gives the number written.
pub(crate) proof fn lemma_le_roundtrip(v: nat, n: nat)
    requires
        v < crate::call_data::pow256(n),
    ensures
        le_value(le_bytes(v, n)) == v,
    decreases n,
{
    lemma_le_bytes_len(v, n);
    if n > 0 {
        lemma_le_roundtrip(v / 256, (n - 1) as nat);
        let b = le_bytes(v, n);
        assert(b.drop_first() =~= le_bytes(v / 256, (n - 1) as nat));
    }
}

/// A spend call encoded as its variant byte and its little-endian
/// recipient and amount decodes to that recipient and amount.
pub proof fn law_spend_call_roundtrip(recipient: AccountId, amount: Balance)
    ensures
        ({
            let b = seq![0u8] + le_bytes(recipient as nat, 8) + le_bytes(amount as nat, 16);
            &&& call_variant(b) == Some(0u8)
            &&& spend_recipient(b) == recipient
            &&& spend_amount(b) == amount
        }),
{
    let r = le_bytes(recipient as nat, 8);
    let a = le_bytes(amount as nat, 16);
    lemma_le_bytes_len(recipient as nat, 8);
    lemma_le_bytes_len(amount as nat, 16);
    reveal_with_fuel(crate::call_data::pow256, 17);
    lemma_le_roundtrip(recipient as nat, 8);
    lemma_le_roundtrip(amount as nat, 16);
    let b = seq![0u8] + r + a;
    assert(b.subrange(1, 9) =~= r);
    assert(b.subrange(9, 25) =~= a);
}

// ---------------------------------------------------------------------------
// Vote weight, approval, execution, spending cap, vetoes
// ---------------------------------------------------------------------------

/// The stake part of a vote's weight: the voter's whole stake units
/// (balance over the unit size, none without a unit size), square-rooted
/// (rounded down) only when quadratic voting is on, and capped at the
/// maximum number of voting units.
pub proof fn law_stake_weight(cfg: Config, balance: Balance)
    ensures
        ({
            let units: int = if cfg.stake_unit_size > 0 { balance as int / cfg.stake_unit_size as int } else { 0 };
            let w = stake_weight(cfg, balance) as int;
            let cap = cfg.max_voting_units as int;
            &&& !cfg.quadratic_voting_enabled ==> w == (if units < cap { units } else { cap })
            &&& cfg.quadratic_voting_enabled ==> w <= cap
            &&& cfg.quadratic_voting_enabled && w < cap ==> w * w <= units < (w + 1) * (w + 1)
            &&& cfg.quadratic_voting_enabled && w == cap ==> cap * cap <= units
        }),
{
    let units: int = if cfg.stake_unit_size > 0 { balance as int / cfg.stake_unit_size as int } else { 0 };
    assert(units >= 0);
    let r = floor_sqrt(units as nat);
    lemma_floor_sqrt_exists(units as nat);
    assert(is_floor_sqrt(units, r as int));
    if cfg.quadratic_voting_enabled && r >= cfg.max_voting_units {
        let cap = cfg.max_voting_units as int;
        assert(cap * cap <= r * r) by (nonlinear_arith)
            requires
                0 <= cap <= r,
        ;
    }
}

/// Abstentions do not decide a proposal: the approval percentage counts
/// ayes against ayes and nays only, and is 0 when nobody voted aye or nay.
pub proof fn law_approval_ignores_abstentions(t: VoteTally, abstentions: u32)
    ensures
        approval_percentage(t) == approval_percentage(VoteTally { abstentions, ..t }),
        t.ayes + t.nays == 0 ==> approval_percentage(t) == 0,
        t.ayes as int * 100 <= u32::MAX && 0 < t.ayes + t.nays <= u32::MAX ==> approval_percentage(t) as int == (
        t.ayes as int * 100) / (t.ayes as int + t.nays as int),
{
}

/// Finalizing two proposals whose tallies differ only in abstentions
/// ends in the same status.
pub proof fn law_finalize_ignores_abstentions(
    s: GovView,
    cfg: Config,
    now: BlockNumber,
    proposal_id: u32,
    abstentions: u32,
)
    requires
        s.proposals.contains_key(proposal_id),
    ensures
        ({
            let p = s.proposals[proposal_id];
            let q = Proposal { vote_tally: VoteTally { abstentions, ..p.vote_tally }, ..p };
            let s2 = GovView { proposals: s.proposals.insert(proposal_id, q), ..s };
            finalize_proposal_post(s2, cfg, now, proposal_id).proposals[proposal_id].status
                == finalize_proposal_post(s, cfg, now, proposal_id).proposals[proposal_id].status
        }),
{
    let p = s.proposals[proposal_id];
    law_approval_ignores_abstentions(p.vote_tally, abstentions);
}

/// Finalizing approves a proposal exactly when its ayes make up at least
/// the threshold's percentage of the ayes and nays (where no aye or nay was
/// cast, only a threshold of 0 is met), and rejects it otherwise; an
/// approved proposal gets an enactment block.
pub proof fn law_finalize_outcome(s: GovView, cfg: Config, now: BlockNumber, proposal_id: u32)
    requires
        s.proposals.contains_key(proposal_id),
        s.proposals[proposal_id].vote_tally.ayes as int * 100 <= u32::MAX,
        s.proposals[proposal_id].vote_tally.ayes + s.proposals[proposal_id].vote_tally.nays <= u32::MAX,
    ensures
        ({
            let t = s.proposals[proposal_id].vote_tally;
            let d = t.ayes + t.nays;
            let req = required_percentage_of(s.proposals[proposal_id].threshold) as int;
            let approved = if d > 0 { t.ayes * 100 >= req * d } else { req == 0 };
            let post = finalize_proposal_post(s, cfg, now, proposal_id);
            &&& approved ==> post.proposals[proposal_id].status == ProposalStatus::Approved
            &&& approved ==> post.proposal_enactment_block.contains_key(proposal_id)
            &&& !approved ==> post.proposals[proposal_id].status == ProposalStatus::Rejected
        }),
{
    let t = s.proposals[proposal_id].vote_tally;
    let d = t.ayes + t.nays;
    let req = required_percentage_of(s.proposals[proposal_id].threshold) as int;
    law_approval_ignores_abstentions(t, 0);
    if d > 0 {
        let x = t.ayes * 100;
        let q = x / d;
        assert(q >= req <==> x >= req * d) by (nonlinear_arith)
            requires
                d > 0,
                x >= 0,
                q == x / d,
        ;
    }
}

/// The ratification check refuses only what it is for: a proposal that is
/// not constitutional, or one both houses have ratified, is never refused
/// for want of ratification.
pub proof fn law_ratified_or_ordinary_not_held_back(
    s: GovView,
    cfg: Config,
    now: BlockNumber,
    origin: Origin,
    proposal_id: u32,
    treasury_balance: Balance,
    transfer_ok: bool,
)
    requires
        s.proposals.contains_key(proposal_id),
        s.proposals[proposal_id].proposal_type != ProposalType::Constitutional || (
        s.constitutional_ratifications.contains_key(proposal_id) && s.constitutional_ratifications[proposal_id]
            == (true, true)),
    ensures
        execute_proposal_error(s, cfg, now, origin, proposal_id, treasury_balance, transfer_ok) != Some(
            Error::ConstitutionalRatificationRequired,
        ),
{
}

/// A constitutional proposal is executed only once both houses have
/// ratified it: without both ratifications on record, execution fails.
pub proof fn law_constitutional_needs_both_houses(
    s: GovView,
    cfg: Config,
    now: BlockNumber,
    origin: Origin,
    proposal_id: u32,
    treasury_balance: Balance,
    transfer_ok: bool,
)
    requires
        s.proposals.contains_key(proposal_id),
        s.proposals[proposal_id].proposal_type == ProposalType::Constitutional,
        !(s.constitutional_ratifications.contains_key(proposal_id) && s.constitutional_ratifications[proposal_id]
            == (true, true)),
    ensures
        execute_proposal_error(s, cfg, now, origin, proposal_id, treasury_balance, transfer_ok) is Some,
{
}

/// The spending cap counts one period only: in a period where nothing has
/// been recorded yet, a spend within the cap that the treasury can pay
/// goes through.
pub proof fn law_spend_cap_per_period(
    s: GovView,
    cfg: Config,
    now: BlockNumber,
    amount: Balance,
    treasury_balance: Balance,
)
    requires
        s.treasury_spend_tracker.0 != spend_period(cfg, now),
        amount <= cfg.max_treasury_spend_per_period,
        amount <= treasury_balance,
    ensures
        spend_error(s, cfg, now, amount, treasury_balance, true) is None,
{
}

/// What was spent in one period does not count against the next: after a
/// spend at `now`, a spend within the cap at a block of another period is
/// not refused.
pub proof fn law_spend_in_next_period(
    s: GovView,
    cfg: Config,
    now: BlockNumber,
    recipient: AccountId,
    amount: Balance,
    proposal_id: u32,
    later: BlockNumber,
    amount2: Balance,
    treasury_balance2: Balance,
)
    requires
        spend_period(cfg, later) != spend_period(cfg, now),
        amount2 <= cfg.max_treasury_spend_per_period,
        amount2 <= treasury_balance2,
    ensures
        spend_error(spend_post(s, cfg, now, recipient, amount, proposal_id), cfg, later, amount2, treasury_balance2, true)
            is None,
{
}

/// Spends within one period add up against the cap: after a spend at
/// `now`, a second spend in the same period that would take the two past
/// the cap is refused for it (a cap of `u128::MAX` is never passed, as
/// sums saturate there).
pub proof fn law_spend_cap_accumulates(
    s: GovView,
    cfg: Config,
    now: BlockNumber,
    recipient: AccountId,
    amount: Balance,
    proposal_id: u32,
    treasury_balance: Balance,
    later: BlockNumber,
    amount2: Balance,
    treasury_balance2: Balance,
    transfer_ok2: bool,
)
    requires
        spend_error(s, cfg, now, amount, treasury_balance, true) is None,
        spend_period(cfg, later) == spend_period(cfg, now),
        amount + amount2 > cfg.max_treasury_spend_per_period,
        cfg.max_treasury_spend_per_period < u128::MAX,
    ensures
        spend_error(
            spend_post(s, cfg, now, recipient, amount, proposal_id),
            cfg,
            later,
            amount2,
            treasury_balance2,
            transfer_ok2,
        ) == Some(Error::TreasurySpendCapExceeded),
{
}

/// A veto cancels the pending emergency exactly when, with it, more than a
/// third of the counted council (its members, at most
/// `max_candidates_per_election` of them) has vetoed; otherwise the
/// emergency stays as it was.
pub proof fn law_veto_cancels_above_a_third(s: GovView, cfg: Config, now: BlockNumber, who: AccountId)
    requires
        s.emergency_vetoes.dom().finite(),
        s.emergency_vetoes.dom().len() < u32::MAX,
    ensures
        ({
            let n = s.emergency_vetoes.insert(who, now).dom().len();
            let members = s.council_members.dom().len();
            let c = if members < cfg.max_candidates_per_election { members } else {
                cfg.max_candidates_per_election as nat
            };
            let post = veto_emergency_post(s, cfg, now, who);
            &&& 3 * n > c ==> post.jaguar_mode is None
            &&& 3 * n <= c ==> post.jaguar_mode == s.jaguar_mode
        }),
{
    let v = s.emergency_vetoes.insert(who, now);
    if s.emergency_vetoes.contains_key(who) {
        assert(v.dom() =~= s.emergency_vetoes.dom());
    } else {
        assert(v.dom() =~= s.emergency_vetoes.dom().insert(who));
    }
    let n = v.dom().len();
    let c = counted_council(s, cfg);
    assert(c <= u32::MAX);
    assert((c as u32) / 3 + 1 <= n <==> 3 * n > c);
}

} // verus!
