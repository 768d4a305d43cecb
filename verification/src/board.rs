//! The foundation board: appointments, removals, and the per-block hook
//! that expires terms, audits large holders and activates emergencies.
use vstd::prelude::*;

use crate::arith::{sat_mul_u32, saturating_mul_u32};
use crate::config::Config;
use crate::events::{Error, Event, Origin};
use crate::proposals::sat_add_u64;
use crate::state::{GovView, Pallet};
use crate::types::{
    board_role_index_of, board_role_of, role_max_count, AccountId, Balance, BlockNumber, BoardRole,
    CouncilMember, BLOCKS_PER_QUARTER, BLOCKS_PER_YEAR, MAX_CHECKS_PER_QUARTER, MAX_EXPIRIES_PER_BLOCK,
};
use crate::storage_order::{
    account_encoding, account_keys_of, accounts_in_storage_order, first_accounts_in_storage_order,
    lemma_account_encoding_injective, lemma_in_key_order,
};
use crate::vec_map::{map_get_or, VecMap};
use crate::weights::{db_reads, db_writes, weight_add, RuntimeDbWeight, Weight};

verus! {

/// Accounts whose terms end at block `n`.
pub open spec fn expiry_queue_at(s: GovView, n: BlockNumber) -> Seq<AccountId> {
    if s.term_expiry_queue.contains_key(n) {
        s.term_expiry_queue[n]@
    } else {
        Seq::empty()
    }
}

/// `q` without any occurrence of `a`, order kept.
pub open spec fn without(q: Seq<AccountId>, a: AccountId) -> Seq<AccountId>
    decreases q.len(),
{
    if q.len() == 0 {
        q
    } else if q.last() == a {
        without(q.drop_last(), a)
    } else {
        without(q.drop_last(), a).push(q.last())
    }
}

/// Why `add_board_member` refuses, checked in order.
pub open spec fn add_board_member_error(
    s: GovView,
    cfg: Config,
    now: BlockNumber,
    council_origin: bool,
    account: AccountId,
    role_index: u8,
    term_years: u8,
) -> Option<Error> {
    let role = board_role_of(role_index).unwrap();
    let term_end = sat_add_u64(now, (BLOCKS_PER_YEAR * term_years) as u64);
    if !council_origin {
        Some(Error::BadOrigin)
    } else if !(1 <= term_years <= 2) {
        Some(Error::InvalidTermDuration)
    } else if board_role_of(role_index) is None {
        Some(Error::InvalidBoardRole)
    } else if map_get_or(s.board_composition, role, 0) >= role_max_count(role) {
        Some(Error::BoardRoleLimitExceeded)
    } else if s.council_members.contains_key(account)
        && s.council_members[account].consecutive_terms.saturating_add(1) >= cfg.max_consecutive_terms {
        Some(Error::ConsecutiveTermLimitReached)
    } else if expiry_queue_at(s, term_end).len() >= 32 {
        Some(Error::CouncilSizeLimits)
    } else {
        None
    }
}

/// The state after a successful `add_board_member`; `queue` is the new
/// expiry queue at the member's term end.
pub open spec fn add_board_member_post(
    s: GovView,
    now: BlockNumber,
    account: AccountId,
    role_index: u8,
    term_years: u8,
    queue: Vec<AccountId>,
) -> GovView {
    let role = board_role_of(role_index).unwrap();
    let term_end = sat_add_u64(now, (BLOCKS_PER_YEAR * term_years) as u64);
    let consecutive: u8 = if s.council_members.contains_key(account) {
        s.council_members[account].consecutive_terms.saturating_add(1)
    } else {
        0
    };
    GovView {
        council_members: s.council_members.insert(
            account,
            CouncilMember {
                account,
                role,
                term_end,
                is_rotating: true,
                community_rank: 100,
                pouw_contribution: 0,
                voting_weight: 100,
                term_start: now,
                votes_received: 0,
                proposals_authored: 0,
                participation_rate: 0,
                consecutive_terms: consecutive,
            },
        ),
        board_composition: s.board_composition.insert(role, (map_get_or(s.board_composition, role, 0) + 1) as u32),
        term_expiry_queue: s.term_expiry_queue.insert(term_end, queue),
        events: s.events.push(Event::BoardMemberAdded { member: account, role_index, term_end }),
        ..s
    }
}

/// The state after `account`'s council seat is vacated: the seat is
/// removed and its role's count decremented (not below zero).
pub open spec fn vacate_seat(s: GovView, account: AccountId) -> GovView {
    let role = s.council_members[account].role;
    let count = map_get_or(s.board_composition, role, 0);
    GovView {
        council_members: s.council_members.remove(account),
        board_composition: if count > 0 {
            s.board_composition.insert(role, (count - 1) as u32)
        } else {
            s.board_composition
        },
        ..s
    }
}

/// The reason recorded in the last event, where it is a board removal.
pub open spec fn removal_reason(evs: Seq<Event>) -> Vec<u8> {
    match evs.last() {
        Event::BoardMemberRemoved { reason, .. } => reason,
        _ => arbitrary(),
    }
}

/// The state after a successful `remove_board_member`; `queue` is the new
/// expiry queue at the member's term end and `reason` the recorded reason.
pub open spec fn remove_board_member_post(
    s: GovView,
    account: AccountId,
    queue: Vec<AccountId>,
    reason: Vec<u8>,
) -> GovView {
    let m = s.council_members[account];
    let v = vacate_seat(s, account);
    GovView {
        term_expiry_queue: s.term_expiry_queue.insert(m.term_end, queue),
        events: s.events.push(
            Event::BoardMemberRemoved {
                member: account,
                role_index: board_role_index_of(m.role),
                reason,
            },
        ),
        ..v
    }
}

pub(crate) fn copy_without(q: &Vec<AccountId>, a: AccountId) -> (r: Vec<AccountId>)
    ensures
        r@ == without(q@, a),
{
    let mut r: Vec<AccountId> = Vec::new();
    let mut i: usize = 0;
    while i < q.len()
        invariant
            i <= q@.len(),
            r@ == without(q@.subrange(0, i as int), a),
        decreases q@.len() - i,
    {
        proof {
            let pre = q@.subrange(0, i as int);
            let post = q@.subrange(0, i + 1);
            assert(post.drop_last() =~= pre);
            assert(post.last() == q@[i as int]);
        }
        if q[i] != a {
            r.push(q[i]);
        }
        i = i + 1;
    }
    assert(q@.subrange(0, q@.len() as int) =~= q@);
    r
}

impl Pallet {
    /// Appoints a board member with a one- or two-year term.
    ///
    /// `council_origin` is whether the council origin check passed.
    pub fn add_board_member(
        &mut self,
        cfg: &Config,
        now: BlockNumber,
        council_origin: bool,
        account: AccountId,
        role_index: u8,
        term_years: u8,
    ) -> (r: Result<(), Error>)
        ensures
            r == (match add_board_member_error(
                old(self)@,
                *cfg,
                now,
                council_origin,
                account,
                role_index,
                term_years,
            ) {
                Some(e) => Err(e),
                None => Ok(()),
            }),
            r is Err ==> final(self)@ == old(self)@,
            r is Ok ==> ({
                let term_end = sat_add_u64(now, (BLOCKS_PER_YEAR * term_years) as u64);
                let q = final(self)@.term_expiry_queue[term_end];
                &&& q@ == expiry_queue_at(old(self)@, term_end).push(account)
                &&& final(self)@ == add_board_member_post(old(self)@, now, account, role_index, term_years, q)
            }),
    {
        if !council_origin {
            return Err(Error::BadOrigin);
        }
        if !(1 <= term_years && term_years <= 2) {
            return Err(Error::InvalidTermDuration);
        }
        let role = match BoardRole::from_index(role_index) {
            Some(r) => r,
            None => return Err(Error::InvalidBoardRole),
        };
        let current_count = self.board_composition.get_or(&role, 0);
        if current_count >= role.max_count() {
            return Err(Error::BoardRoleLimitExceeded);
        }
        let term_blocks: u64 = (BLOCKS_PER_YEAR * term_years as u32) as u64;
        let term_end = now.saturating_add(term_blocks);
        let consecutive: u8 = match self.council_members.get(&account) {
            Some(existing) => {
                let next = existing.consecutive_terms.saturating_add(1);
                if next >= cfg.max_consecutive_terms {
                    return Err(Error::ConsecutiveTermLimitReached);
                }
                next
            },
            None => 0,
        };
        let queue_len = match self.term_expiry_queue.get(&term_end) {
            Some(q) => q.len(),
            None => 0,
        };
        if queue_len >= 32 {
            return Err(Error::CouncilSizeLimits);
        }
        let ghost s0 = self@;
        let member = CouncilMember {
            account,
            role,
            term_end,
            is_rotating: true,
            community_rank: 100,
            pouw_contribution: 0,
            voting_weight: 100,
            term_start: now,
            votes_received: 0,
            proposals_authored: 0,
            participation_rate: 0,
            consecutive_terms: consecutive,
        };
        self.council_members.insert(account, member);
        self.board_composition.insert(role, current_count + 1);
        let mut queue: Vec<AccountId> = match self.term_expiry_queue.remove(&term_end) {
            Some(q) => q,
            None => Vec::new(),
        };
        queue.push(account);
        let ghost qg = queue;
        self.term_expiry_queue.insert(term_end, queue);
        self.events.push(Event::BoardMemberAdded { member: account, role_index, term_end });
        proof {
            assert(self@ =~= add_board_member_post(s0, now, account, role_index, term_years, qg));
        }
        Ok(())
    }

    /// Removes a board member before their term ends.
    ///
    /// A reason longer than 128 bytes is recorded as empty.
    pub fn remove_board_member(&mut self, council_origin: bool, account: AccountId, reason: Vec<u8>) -> (r: Result<
        (),
        Error,
    >)
        ensures
            !council_origin ==> r == Err::<(), Error>(Error::BadOrigin) && final(self)@ == old(self)@,
            council_origin && !old(self)@.council_members.contains_key(account) ==> r == Err::<(), Error>(
                Error::MemberNotFound,
            ) && final(self)@ == old(self)@,
            council_origin && old(self)@.council_members.contains_key(account) ==> ({
                let term_end = old(self)@.council_members[account].term_end;
                let q = final(self)@.term_expiry_queue[term_end];
                let rr = removal_reason(final(self)@.events);
                &&& r is Ok
                &&& q@ == without(expiry_queue_at(old(self)@, term_end), account)
                &&& (if reason@.len() <= 128 { rr == reason } else { rr@.len() == 0 })
                &&& final(self)@ == remove_board_member_post(old(self)@, account, q, rr)
            }),
    {
        if !council_origin {
            return Err(Error::BadOrigin);
        }
        let member = match self.council_members.get(&account) {
            Some(m) => *m,
            None => return Err(Error::MemberNotFound),
        };
        let ghost s0 = self@;
        self.council_members.remove(&account);
        let count = self.board_composition.get_or(&member.role, 0);
        if count > 0 {
            self.board_composition.insert(member.role, count - 1);
        }
        let kept = match self.term_expiry_queue.get(&member.term_end) {
            Some(q) => copy_without(q, account),
            None => {
                let e: Vec<AccountId> = Vec::new();
                assert(without(Seq::<AccountId>::empty(), account) =~= Seq::<AccountId>::empty());
                e
            },
        };
        let ghost qg = kept;
        self.term_expiry_queue.insert(member.term_end, kept);
        let recorded: Vec<u8> = if reason.len() <= 128 { reason } else { Vec::new() };
        let ghost rg = recorded;
        let role_index = member.role.to_index();
        self.events.push(Event::BoardMemberRemoved { member: account, role_index, reason: recorded });
        proof {
            assert(self@ =~= remove_board_member_post(s0, account, qg, rg));
        }
        Ok(())
    }
}

// ---------------------------------------------------------------------------
// Per-block hook
// ---------------------------------------------------------------------------

/// Activates a pending emergency whose veto window has elapsed at `n`.
pub open spec fn emergency_finalization(s: GovView, n: BlockNumber) -> GovView {
    match s.jaguar_mode {
        Some(e) => if e.is_pending && e.veto_window_ends_at is Some && n >= e.veto_window_ends_at.unwrap() {
            GovView {
                jaguar_mode: Some(crate::types::EmergencyStatus { active: true, is_pending: false, ..e }),
                emergency_vetoes: Map::empty(),
                events: s.events.push(Event::EmergencyFinalizedAfterVetoWindow),
                ..s
            }
        } else {
            s
        },
        None => s,
    }
}

/// Ends an active emergency whose duration has run out at `n`.
pub open spec fn emergency_expiry(s: GovView, n: BlockNumber) -> GovView {
    if emergency_expires(s, n) {
        GovView {
            jaguar_mode: None,
            emergency_vetoes: Map::empty(),
            events: s.events.push(Event::JaguarModeDeactivated),
            ..s
        }
    } else {
        s
    }
}

/// Whether an active emergency's duration has run out at `n`.
pub open spec fn emergency_expires(s: GovView, n: BlockNumber) -> bool {
    match s.jaguar_mode {
        Some(e) => e.active && e.expires_at is Some && n >= e.expires_at.unwrap(),
        None => false,
    }
}

/// The emergency step of the block hook: a pending emergency whose veto
/// window has passed becomes active, and an active emergency whose duration
/// has run out ends.
pub open spec fn emergency_step(s: GovView, n: BlockNumber) -> GovView {
    emergency_expiry(emergency_finalization(s, n), n)
}

/// Whether `account` still holds a seat at `n` whose term has ended.
pub open spec fn term_over(s: GovView, account: AccountId, n: BlockNumber) -> bool {
    s.council_members.contains_key(account) && s.council_members[account].term_end <= n
}

/// Participation rate in percent of eligible proposals voted on.
pub open spec fn participation_rate(p: (u32, u32)) -> u32 {
    if p.0 > 0 {
        (sat_mul_u32(p.1, 100) / p.0) as u32
    } else {
        0
    }
}

/// One account of the quarterly audit: a large holder below the minimum
/// rate is halved (an event marks a new penalty), one at or above it is
/// restored to full weight; everyone's counters are cleared.
pub open spec fn audit_account(
    s: GovView,
    cfg: Config,
    account: AccountId,
    p: (u32, u32),
    balance: Balance,
) -> GovView {
    let cur = map_get_or(s.effective_voting_multiplier, account, 0);
    let s1 = if balance >= cfg.large_holder_stake_threshold {
        if participation_rate(p) < cfg.large_holder_min_participation_rate as u32 {
            if cur != 50 {
                GovView {
                    effective_voting_multiplier: s.effective_voting_multiplier.insert(account, 50),
                    events: s.events.push(
                        Event::LargeHolderParticipationPenalty { who: account, new_multiplier: 50 },
                    ),
                    ..s
                }
            } else {
                s
            }
        } else if cur < 100 {
            GovView { effective_voting_multiplier: s.effective_voting_multiplier.insert(account, 100), ..s }
        } else {
            s
        }
    } else {
        s
    };
    GovView { account_vote_participation: s1.account_vote_participation.remove(account), ..s1 }
}

/// The audit of the listed accounts and counters, in order, with the
/// matching free balances.
pub open spec fn audit_accounts(
    s: GovView,
    cfg: Config,
    accounts: Seq<AccountId>,
    counters: Seq<(u32, u32)>,
    balances: Seq<Balance>,
) -> GovView
    decreases accounts.len(),
{
    if accounts.len() == 0 {
        s
    } else {
        let k = accounts.len() - 1;
        audit_account(
            audit_accounts(s, cfg, accounts.drop_last(), counters, balances),
            cfg,
            accounts[k],
            counters[k],
            balances[k],
        )
    }
}

/// Number of accounts a quarterly audit examines.
pub open spec fn audit_count(n: nat) -> nat {
    if n < MAX_CHECKS_PER_QUARTER {
        n
    } else {
        MAX_CHECKS_PER_QUARTER as nat
    }
}

/// Expires the terms of the listed accounts at `n`, in order: a member is
/// removed only where its current term has ended.
pub open spec fn expire_members(s: GovView, accounts: Seq<AccountId>, n: BlockNumber) -> GovView
    decreases accounts.len(),
{
    if accounts.len() == 0 {
        s
    } else {
        let s1 = expire_members(s, accounts.drop_last(), n);
        let a = accounts.last();
        if term_over(s1, a, n) {
            let v = vacate_seat(s1, a);
            GovView { events: v.events.push(Event::CouncilTermAutoExpired { account: a }), ..v }
        } else {
            s1
        }
    }
}

/// `q` with the first `k` of `extra` appended, stopping at 32 entries.
pub open spec fn append_bounded(q: Seq<AccountId>, extra: Seq<AccountId>) -> Seq<AccountId>
    decreases extra.len(),
{
    if extra.len() == 0 {
        q
    } else {
        let r = append_bounded(q, extra.drop_last());
        if r.len() < 32 {
            r.push(extra.last())
        } else {
            r
        }
    }
}

/// Whether a quarterly audit runs at block `n`.
pub open spec fn audit_due(s: GovView, n: BlockNumber) -> bool {
    sat_sub_u64_spec(n, s.last_participation_check_block) >= BLOCKS_PER_QUARTER
}

/// The accounts a quarterly audit examines: the first twenty participation
/// records in the order the runtime walks them.
pub open spec fn audited_accounts(s: GovView) -> Seq<AccountId> {
    accounts_in_storage_order(s.account_vote_participation.dom()).take(
        audit_count(s.account_vote_participation.dom().len()) as int,
    )
}

/// The state after the first two steps of the block hook: emergency
/// finalization and, when due, the quarterly audit.
pub open spec fn audit_stage(s: GovView, cfg: Config, n: BlockNumber, balances: Seq<Balance>) -> GovView {
    let s1 = emergency_step(s, n);
    let k = audit_count(s.account_vote_participation.dom().len());
    let audited = audited_accounts(s);
    if audit_due(s, n) {
        let a = audit_accounts(
            GovView { last_participation_check_block: n, ..s1 },
            cfg,
            audited,
            Seq::new(k, |i: int| s.account_vote_participation[audited[i]]),
            balances,
        );
        GovView { events: a.events.push(Event::QuarterlyParticipationReset { checked_count: k as u32 }), ..a }
    } else {
        s1
    }
}

/// Whether auditing `account` writes its voting multiplier.
pub open spec fn audit_writes(s: GovView, cfg: Config, account: AccountId, p: (u32, u32), balance: Balance) -> bool {
    let cur = map_get_or(s.effective_voting_multiplier, account, 0);
    &&& balance >= cfg.large_holder_stake_threshold
    &&& if participation_rate(p) < cfg.large_holder_min_participation_rate as u32 {
        cur != 50
    } else {
        cur < 100
    }
}

/// `w` plus the cost of auditing one account in state `s`.
pub open spec fn audit_weight_step(
    w: Weight,
    s: GovView,
    cfg: Config,
    account: AccountId,
    p: (u32, u32),
    balance: Balance,
    db: RuntimeDbWeight,
) -> Weight {
    let w1 = if audit_writes(s, cfg, account, p, balance) {
        weight_add(w, db_writes(db, 1))
    } else {
        w
    };
    weight_add(weight_add(w1, db_reads(db, 2)), db_writes(db, 1))
}

/// `w` plus the cost of auditing the listed accounts, in order.
pub open spec fn audit_weights(
    s: GovView,
    cfg: Config,
    accounts: Seq<AccountId>,
    counters: Seq<(u32, u32)>,
    balances: Seq<Balance>,
    db: RuntimeDbWeight,
    w: Weight,
) -> Weight
    decreases accounts.len(),
{
    if accounts.len() == 0 {
        w
    } else {
        let k = accounts.len() - 1;
        let pre = accounts.drop_last();
        audit_weight_step(
            audit_weights(s, cfg, pre, counters, balances, db, w),
            audit_accounts(s, cfg, pre, counters, balances),
            cfg,
            accounts[k],
            counters[k],
            balances[k],
            db,
        )
    }
}

/// `w` plus the cost of expiring the listed terms, in order: `expire` and
/// two writes for each account whose term has ended at `n`.
pub open spec fn expire_weights(
    s: GovView,
    accounts: Seq<AccountId>,
    n: BlockNumber,
    db: RuntimeDbWeight,
    expire: Weight,
    w: Weight,
) -> Weight
    decreases accounts.len(),
{
    if accounts.len() == 0 {
        w
    } else {
        let pre = accounts.drop_last();
        let w1 = expire_weights(s, pre, n, db, expire, w);
        if term_over(expire_members(s, pre, n), accounts.last(), n) {
            weight_add(weight_add(w1, expire), db_writes(db, 2))
        } else {
            w1
        }
    }
}

/// The weight the block hook reports at block `n`, with `expire` the weight
/// of one term expiry.
pub open spec fn hook_weight(
    s: GovView,
    cfg: Config,
    n: BlockNumber,
    balances: Seq<Balance>,
    db: RuntimeDbWeight,
    expire: Weight,
) -> Weight {
    let w0 = db_reads(db, 2);
    let w_activation = match s.jaguar_mode {
        Some(e) => {
            let x = weight_add(w0, db_reads(db, 1));
            if e.is_pending && e.veto_window_ends_at is Some && n >= e.veto_window_ends_at.unwrap() {
                weight_add(x, db_writes(db, 2))
            } else {
                x
            }
        },
        None => w0,
    };
    let w1 = if emergency_expires(emergency_finalization(s, n), n) {
        weight_add(w_activation, db_writes(db, 2))
    } else {
        w_activation
    };
    let s1 = emergency_step(s, n);
    let k = audit_count(s.account_vote_participation.dom().len());
    let audited = audited_accounts(s);
    let w2 = if audit_due(s, n) {
        audit_weights(
            GovView { last_participation_check_block: n, ..s1 },
            cfg,
            audited,
            Seq::new(k, |i: int| s.account_vote_participation[audited[i]]),
            balances,
            db,
            weight_add(w1, db_writes(db, 1)),
        )
    } else {
        w1
    };
    let s2 = audit_stage(s, cfg, n, balances);
    let w3 = weight_add(w2, db_reads(db, 1));
    let expired = expiry_queue_at(s2, n);
    let m = if expired.len() < MAX_EXPIRIES_PER_BLOCK {
        expired.len() as int
    } else {
        MAX_EXPIRIES_PER_BLOCK as int
    };
    let w4 = expire_weights(
        GovView { term_expiry_queue: s2.term_expiry_queue.remove(n), ..s2 },
        expired.take(m),
        n,
        db,
        expire,
        w3,
    );
    if expired.len() > MAX_EXPIRIES_PER_BLOCK {
        weight_add(w4, db_writes(db, 1))
    } else {
        w4
    }
}

impl Pallet {
    /// Accounts the next quarterly audit examines: the first twenty in the
    /// order the runtime walks the participation records. Their free
    /// balances are what `on_initialize` takes.
    pub fn quarterly_audit_accounts(&self) -> (r: Vec<AccountId>)
        ensures
            r@ == audited_accounts(self@),
    {
        let keys = account_keys_of(&self.account_vote_participation);
        proof {
            keys@.unique_seq_to_set();
        }
        first_accounts_in_storage_order(&keys, MAX_CHECKS_PER_QUARTER)
    }

    fn finalize_pending_emergency(&mut self, n: BlockNumber) -> (due: bool)
        ensures
            due == (match old(self)@.jaguar_mode {
                Some(e) => e.is_pending && e.veto_window_ends_at is Some && n >= e.veto_window_ends_at.unwrap(),
                None => false,
            }),
            final(self)@ == emergency_finalization(old(self)@, n),
            final(self).account_vote_participation == old(self).account_vote_participation,
            final(self).last_participation_check_block == old(self).last_participation_check_block,
    {
        let due = match &self.jaguar_mode {
            Some(e) => e.is_pending && match e.veto_window_ends_at {
                Some(v) => n >= v,
                None => false,
            },
            None => false,
        };
        if due {
            let ghost s0 = self@;
            let old_mode = self.jaguar_mode.take();
            match old_mode {
                Some(e) => {
                    self.jaguar_mode = Some(crate::types::EmergencyStatus { active: true, is_pending: false, ..e });
                },
                None => {},
            }
            self.emergency_vetoes.clear();
            self.events.push(Event::EmergencyFinalizedAfterVetoWindow);
            proof {
                assert(self@ =~= emergency_finalization(s0, n));
            }
        }
        due
    }

    fn audit_one(&mut self, cfg: &Config, account: AccountId, p: (u32, u32), balance: Balance) -> (wrote: bool)
        ensures
            wrote == audit_writes(old(self)@, *cfg, account, p, balance),
            final(self)@ == audit_account(old(self)@, *cfg, account, p, balance),
    {
        let ghost s0 = self@;
        let mut wrote = false;
        if balance >= cfg.large_holder_stake_threshold {
            let rate: u32 = if p.0 > 0 { saturating_mul_u32(p.1, 100) / p.0 } else { 0 };
            let cur = self.effective_voting_multiplier.get_or(&account, 0);
            if rate < cfg.large_holder_min_participation_rate as u32 {
                if cur != 50 {
                    self.effective_voting_multiplier.insert(account, 50);
                    self.events.push(Event::LargeHolderParticipationPenalty { who: account, new_multiplier: 50 });
                    wrote = true;
                }
            } else if cur < 100 {
                self.effective_voting_multiplier.insert(account, 100);
                wrote = true;
            }
        }
        self.account_vote_participation.remove(&account);
        proof {
            assert(self@ =~= audit_account(s0, *cfg, account, p, balance));
        }
        wrote
    }

    fn expire_one(&mut self, account: AccountId, n: BlockNumber) -> (ended: bool)
        ensures
            ended == term_over(old(self)@, account, n),
            final(self)@ == (if term_over(old(self)@, account, n) {
                let v = vacate_seat(old(self)@, account);
                GovView { events: v.events.push(Event::CouncilTermAutoExpired { account }), ..v }
            } else {
                old(self)@
            }),
    {
        let ghost s0 = self@;
        let over = match self.council_members.get(&account) {
            Some(m) => m.term_end <= n,
            None => false,
        };
        if !over {
            return false;
        }
        match self.council_members.remove(&account) {
            Some(member) => {
                let count = self.board_composition.get_or(&member.role, 0);
                if count > 0 {
                    self.board_composition.insert(member.role, count - 1);
                }
                self.events.push(Event::CouncilTermAutoExpired { account });
                proof {
                    let v = vacate_seat(s0, account);
                    assert(self@ =~= GovView { events: v.events.push(Event::CouncilTermAutoExpired { account }), ..v });
                }
                true
            },
            None => false,
        }
    }

    /// Ends an active emergency whose duration has run out at `n`.
    fn end_expired_emergency(&mut self, n: BlockNumber) -> (ended: bool)
        ensures
            ended == emergency_expires(old(self)@, n),
            final(self)@ == emergency_expiry(old(self)@, n),
            final(self).account_vote_participation == old(self).account_vote_participation,
            final(self).last_participation_check_block == old(self).last_participation_check_block,
    {
        let due = match &self.jaguar_mode {
            Some(e) => e.active && match e.expires_at {
                Some(x) => n >= x,
                None => false,
            },
            None => false,
        };
        if due {
            let ghost s0 = self@;
            self.jaguar_mode = None;
            self.emergency_vetoes.clear();
            self.events.push(Event::JaguarModeDeactivated);
            proof {
                assert(self@ =~= emergency_expiry(s0, n));
            }
        }
        due
    }

    /// Per-block hook at block `n`: activates a pending emergency whose veto
    /// window has passed and ends an active emergency whose duration has run
    /// out; once a quarter, audits the participation of up to
    /// twenty accounts (`balances` holds their free balances, in the order
    /// `quarterly_audit_accounts` lists them); and takes up to ten entries of
    /// the expiry queue at `n`, removing those members whose current term has
    /// ended, and moves any further entries to block `n + 1`. Returns the
    /// weight of the work done, from the database weights `db` and the weight
    /// `expire_weight` of one term expiry.
    pub fn on_initialize(
        &mut self,
        cfg: &Config,
        n: BlockNumber,
        balances: &Vec<Balance>,
        db: RuntimeDbWeight,
        expire_weight: Weight,
    ) -> (w: Weight)
        requires
            balances@.len() >= audit_count(old(self)@.account_vote_participation.dom().len()),
        ensures
            w == hook_weight(
                old(self)@,
                *cfg,
                n,
                balances@,
                db,
                expire_weight,
            ),
            ({
                let s2 = audit_stage(old(self)@, *cfg, n, balances@);
                let expired = expiry_queue_at(s2, n);
                let to_process = expired.take(
                    if expired.len() < MAX_EXPIRIES_PER_BLOCK { expired.len() as int } else { MAX_EXPIRIES_PER_BLOCK as int },
                );
                let overflow = if expired.len() > MAX_EXPIRIES_PER_BLOCK {
                    expired.skip(MAX_EXPIRIES_PER_BLOCK as int)
                } else {
                    Seq::empty()
                };
                let s3 = expire_members(
                    GovView { term_expiry_queue: s2.term_expiry_queue.remove(n), ..s2 },
                    to_process,
                    n,
                );
                let next = sat_add_u64(n, 1);
                if overflow.len() == 0 {
                    final(self)@ == s3
                } else {
                    let q = final(self)@.term_expiry_queue[next];
                    &&& q@ == append_bounded(expiry_queue_at(s3, next), overflow)
                    &&& final(self)@ == (GovView {
                        term_expiry_queue: s3.term_expiry_queue.insert(next, q),
                        events: s3.events.push(
                            Event::TermExpiryOverflow { block: n, remaining: overflow.len() as u32 },
                        ),
                        ..s3
                    })
                }
            }),
    {
        let ghost s_in = self@;
        let ghost dom = self@.account_vote_participation.dom();
        let ghost old_participation = self@.account_vote_participation;
        let mut weight = db.reads(2);
        if self.jaguar_mode.is_some() {
            weight = weight.saturating_add(db.reads(1));
        }
        let finalized = self.finalize_pending_emergency(n);
        if finalized {
            weight = weight.saturating_add(db.writes(2));
        }
        let ended = self.end_expired_emergency(n);
        if ended {
            weight = weight.saturating_add(db.writes(2));
        }
        let ghost s1 = self@;
        if n.saturating_sub(self.last_participation_check_block) >= BLOCKS_PER_QUARTER {
            let audited = self.quarterly_audit_accounts();
            let k = audited.len();
            let ghost sorted = accounts_in_storage_order(dom);
            proof {
                use_type_invariant(&self.account_vote_participation);
                self.account_vote_participation.lemma_keys();
                assert(sorted.len() == dom.len() && forall|x: AccountId| #[trigger]
                    sorted.contains(x) <==> dom.contains(x)) by {
                    lemma_account_encoding_injective();
                    lemma_in_key_order(dom, account_encoding());
                }
            }
            let mut counters: Vec<(u32, u32)> = Vec::new();
            let mut j: usize = 0;
            while j < k
                invariant
                    j <= k,
                    k == audited@.len(),
                    audited@ == sorted.take(k as int),
                    k <= sorted.len(),
                    forall|x: AccountId| #[trigger] sorted.contains(x) <==> dom.contains(x),
                    self@.account_vote_participation.dom() == dom,
                    counters@.len() == j,
                    forall|i: int| 0 <= i < j ==> counters@[i] == self@.account_vote_participation[audited@[i]],
                decreases k - j,
            {
                let a = audited[j];
                assert(sorted[j as int] == a);
                assert(sorted.contains(a));
                assert(dom.contains(a));
                let c = self.account_vote_participation.get_or(&a, (0, 0));
                counters.push(c);
                j = j + 1;
            }
            let ghost cs = counters@;
            assert(cs =~= Seq::new(k as nat, |i: int| old_participation[audited@[i]]));
            self.last_participation_check_block = n;
            weight = weight.saturating_add(db.writes(1));
            let ghost base = self@;
            let ghost wq = weight;
            let mut i: usize = 0;
            while i < k
                invariant
                    i <= k,
                    k == audited@.len(),
                    k == counters@.len(),
                    k <= balances@.len(),
                    self@ == audit_accounts(
                        base,
                        *cfg,
                        audited@.take(i as int),
                        counters@,
                        balances@,
                    ),
                    weight == audit_weights(base, *cfg, audited@.take(i as int), counters@, balances@, db, wq),
                decreases k - i,
            {
                proof {
                    let pre = audited@.take(i as int);
                    let post = audited@.take(i + 1);
                    assert(post.drop_last() =~= pre);
                }
                let wrote = self.audit_one(cfg, audited[i], counters[i], balances[i]);
                if wrote {
                    weight = weight.saturating_add(db.writes(1));
                }
                weight = weight.saturating_add(db.reads(2)).saturating_add(db.writes(1));
                i = i + 1;
            }
            assert(audited@.take(k as int) =~= audited@);
            self.events.push(Event::QuarterlyParticipationReset { checked_count: k as u32 });
        }
        let ghost s2 = self@;
        weight = weight.saturating_add(db.reads(1));
        let ghost w3 = weight;
        let expired: Vec<AccountId> = match self.term_expiry_queue.remove(&n) {
            Some(q) => q,
            None => Vec::new(),
        };
        assert(expired@ == expiry_queue_at(s2, n));
        let total = expired.len();
        let m = if total < MAX_EXPIRIES_PER_BLOCK { total } else { MAX_EXPIRIES_PER_BLOCK };
        let ghost base3 = self@;
        let mut i: usize = 0;
        while i < m
            invariant
                i <= m,
                m <= expired@.len(),
                self@ == expire_members(base3, expired@.take(i as int), n),
                weight == expire_weights(base3, expired@.take(i as int), n, db, expire_weight, w3),
            decreases m - i,
        {
            proof {
                let pre = expired@.take(i as int);
                let post = expired@.take(i + 1);
                assert(post.drop_last() =~= pre);
            }
            let held = self.expire_one(expired[i], n);
            if held {
                weight = weight.saturating_add(expire_weight).saturating_add(db.writes(2));
            }
            i = i + 1;
        }
        if total > MAX_EXPIRIES_PER_BLOCK {
            let next = n.saturating_add(1);
            let ghost s3 = self@;
            let mut queue: Vec<AccountId> = match self.term_expiry_queue.remove(&next) {
                Some(q) => q,
                None => Vec::new(),
            };
            let ghost q0 = queue@;
            let mut j: usize = MAX_EXPIRIES_PER_BLOCK;
            while j < total
                invariant
                    MAX_EXPIRIES_PER_BLOCK <= j <= total,
                    total == expired@.len(),
                    queue@ == append_bounded(q0, expired@.subrange(MAX_EXPIRIES_PER_BLOCK as int, j as int)),
                decreases total - j,
            {
                proof {
                    let pre = expired@.subrange(MAX_EXPIRIES_PER_BLOCK as int, j as int);
                    let post = expired@.subrange(MAX_EXPIRIES_PER_BLOCK as int, j + 1);
                    assert(post.drop_last() =~= pre);
                }
                if queue.len() < 32 {
                    queue.push(expired[j]);
                }
                j = j + 1;
            }
            assert(expired@.subrange(MAX_EXPIRIES_PER_BLOCK as int, total as int) =~= expired@.skip(
                MAX_EXPIRIES_PER_BLOCK as int,
            ));
            let ghost qg = queue;
            self.term_expiry_queue.insert(next, queue);
            self.events.push(Event::TermExpiryOverflow { block: n, remaining: (total - MAX_EXPIRIES_PER_BLOCK) as u32 });
            proof {
                assert(expired@.take(m as int) =~= expired@.take(MAX_EXPIRIES_PER_BLOCK as int));
            }
            weight = weight.saturating_add(db.writes(1));
        } else {
            assert(expired@.take(m as int) =~= expired@.take(total as int));
        }
        weight
    }
}

/// `a - b`, or zero below zero.
pub open spec fn sat_sub_u64_spec(a: u64, b: u64) -> u64 {
    if a < b {
        0
    } else {
        (a - b) as u64
    }
}

} // verus!
