//! Read accessors of the pallet's storage and the event indices of its
//! enums.
use vstd::prelude::*;

use crate::config::Config;
use crate::hashing::{pallet_account, treasury_account_id};
use crate::state::{GovView, Pallet};
use crate::storage_order::{
    account_encoding, account_keys_of, accounts_in_storage_order, first_accounts_in_storage_order,
    lemma_account_encoding_injective, lemma_in_key_order,
};
use crate::types::{
    board_role_index_of, department_index_of, district_index_of, election_status_index_of,
    priority_value_of, AccountId, Balance, BelizeDistrict, BlockNumber, BoardRole, CouncilMember,
    Department, Election, ElectionCandidate, ElectionStatus, EmergencyStatus, GovernanceParameter, Proposal,
    ProposalAmendment, ProposalPriority, Vote,
};
use crate::vec_map::{copy_bytes, copy_vec, map_get_or};

verus! {

/// The sum of the voting weights of the members listed in `ks`.
pub open spec fn weight_sum(m: Map<AccountId, CouncilMember>, ks: Seq<AccountId>) -> nat
    decreases ks.len(),
{
    if ks.len() == 0 {
        0
    } else {
        weight_sum(m, ks.drop_last()) + m[ks.last()].voting_weight as nat
    }
}

/// The council members counted for the total weight: the first
/// `max_candidates_per_election` of `order`.
pub open spec fn counted_members(order: Seq<AccountId>, cfg: Config) -> Seq<AccountId> {
    if order.len() < cfg.max_candidates_per_election {
        order
    } else {
        order.take(cfg.max_candidates_per_election as int)
    }
}

/// The total voting weight of the council members counted, the members
/// taken in the order the runtime walks them.
pub open spec fn council_weight(m: Map<AccountId, CouncilMember>, cfg: Config) -> nat {
    weight_sum(m, counted_members(accounts_in_storage_order(m.dom()), cfg))
}

/// Two candidate records alike, the platform by its bytes.
pub open spec fn same_candidate(a: ElectionCandidate, b: ElectionCandidate) -> bool {
    &&& a.account == b.account
    &&& a.district == b.district
    &&& a.election_id == b.election_id
    &&& a.platform@ == b.platform@
    &&& a.votes == b.votes
    &&& a.registered_at == b.registered_at
}

/// Two optional texts alike by their bytes.
pub open spec fn same_text(a: Option<Vec<u8>>, b: Option<Vec<u8>>) -> bool {
    match (a, b) {
        (Some(x), Some(y)) => x@ == y@,
        (None, None) => true,
        _ => false,
    }
}

/// Two amendment records alike, the texts by their bytes.
pub open spec fn same_amendment(a: ProposalAmendment, b: ProposalAmendment) -> bool {
    &&& a.proposal_id == b.proposal_id
    &&& same_text(a.new_title, b.new_title)
    &&& same_text(a.new_description, b.new_description)
    &&& a.proposed_at == b.proposed_at
    &&& a.is_applied == b.is_applied
}

/// The bytes of an optional text, copied.
fn copy_text(t: &Option<Vec<u8>>) -> (c: Option<Vec<u8>>)
    ensures
        same_text(*t, c),
{
    match t {
        Some(v) => Some(copy_bytes(v)),
        None => None,
    }
}

impl Pallet {
    /// A council member's record.
    pub fn council_members(&self, account: AccountId) -> (m: Option<CouncilMember>)
        ensures
            m == (if self@.council_members.contains_key(account) {
                Some(self@.council_members[account])
            } else {
                None
            }),
    {
        match self.council_members.get(&account) {
            Some(m) => Some(*m),
            None => None,
        }
    }

    /// A proposal, if one has this id.
    pub fn proposals(&self, proposal_id: u32) -> (p: Option<&Proposal>)
        ensures
            match p {
                Some(q) => self@.proposals.contains_key(proposal_id) && *q == self@.proposals[proposal_id],
                None => !self@.proposals.contains_key(proposal_id),
            },
    {
        self.proposals.get(&proposal_id)
    }

    /// The vote an account cast on a proposal, if any.
    pub fn votes(&self, proposal_id: u32, voter: AccountId) -> (v: Option<Vote>)
        ensures
            v == (if self@.votes.contains_key((proposal_id, voter)) {
                Some(self@.votes[(proposal_id, voter)])
            } else {
                None
            }),
    {
        match self.votes.get(&(proposal_id, voter)) {
            Some(v) => Some(*v),
            None => None,
        }
    }

    /// An account's community rank (zero where unset).
    pub fn community_ranks(&self, account: AccountId) -> (r: u32)
        ensures
            r == map_get_or(self@.community_ranks, account, 0u32),
    {
        self.community_ranks.get_or(&account, 0u32)
    }

    /// An account's PoUW contribution (zero where unset).
    pub fn pouw_contributions(&self, account: AccountId) -> (r: u32)
        ensures
            r == map_get_or(self@.pouw_contributions, account, 0u32),
    {
        self.pouw_contributions.get_or(&account, 0u32)
    }

    /// The id the next proposal gets.
    pub fn next_proposal_id(&self) -> (n: u32)
        ensures
            n == self@.next_proposal_id,
    {
        self.next_proposal_id
    }

    /// The current council term.
    pub fn council_term(&self) -> (n: u32)
        ensures
            n == self@.council_term,
    {
        self.council_term
    }

    /// The emergency declared, if any.
    pub fn emergency_status(&self) -> (e: Option<&EmergencyStatus>)
        ensures
            match e {
                Some(x) => self@.jaguar_mode == Some(*x),
                None => self@.jaguar_mode is None,
            },
    {
        match &self.jaguar_mode {
            Some(x) => Some(x),
            None => None,
        }
    }

    /// A department's manager, if set.
    pub fn department_managers(&self, department: Department) -> (m: Option<AccountId>)
        ensures
            m == (if self@.department_managers.contains_key(department) {
                Some(self@.department_managers[department])
            } else {
                None
            }),
    {
        match self.department_managers.get(&department) {
            Some(a) => Some(*a),
            None => None,
        }
    }

    /// Proposals a department has submitted.
    pub fn department_proposal_count(&self, department: Department) -> (n: u32)
        ensures
            n == map_get_or(self@.department_proposal_count, department, 0u32),
    {
        self.department_proposal_count.get_or(&department, 0u32)
    }

    /// Which houses have ratified a proposal: (technical, governance).
    pub fn constitutional_ratification(&self, proposal_id: u32) -> (r: (bool, bool))
        ensures
            r == map_get_or(self@.constitutional_ratifications, proposal_id, (false, false)),
    {
        self.constitutional_ratifications.get_or(&proposal_id, (false, false))
    }

    /// Whether a chain parameter is locked.
    pub fn is_param_locked(&self, key: &Vec<u8>) -> (b: bool)
        ensures
            b == map_get_or(self@.locked_parameters, key@, false),
    {
        self.locked_parameters.get_or(key, false)
    }

    /// Whether the account sits on the council.
    pub fn is_council_member(&self, account: AccountId) -> (b: bool)
        ensures
            b == self@.council_members.contains_key(account),
    {
        self.council_members.contains_key(&account)
    }

    /// The summed voting weight of the council members counted: the first
    /// `max_candidates_per_election` in the order the runtime walks them.
    pub fn total_council_weight(&self, cfg: &Config) -> (w: u32)
        requires
            council_weight(self@.council_members, *cfg) <= u32::MAX,
        ensures
            w == council_weight(self@.council_members, *cfg),
    {
        let total = self.counted_council_weight(cfg);
        total as u32
    }

    /// The counted council weight where it fits in a `u32`; `None` where
    /// summing it would overflow.
    pub fn try_total_council_weight(&self, cfg: &Config) -> (w: Option<u32>)
        ensures
            w == (if council_weight(self@.council_members, *cfg) <= u32::MAX {
                Some(council_weight(self@.council_members, *cfg) as u32)
            } else {
                None
            }),
    {
        let total = self.counted_council_weight(cfg);
        if total <= u32::MAX as u128 {
            Some(self.total_council_weight(cfg))
        } else {
            None
        }
    }

    /// The counted council weight, summed without overflow.
    fn counted_council_weight(&self, cfg: &Config) -> (t: u128)
        ensures
            t == council_weight(self@.council_members, *cfg),
    {
        let keys = account_keys_of(&self.council_members);
        let ghost dom = self@.council_members.dom();
        let order = first_accounts_in_storage_order(&keys, cfg.max_candidates_per_election as usize);
        let ghost sorted = accounts_in_storage_order(dom);
        let ghost counted = counted_members(sorted, *cfg);
        proof {
            lemma_account_encoding_injective();
            lemma_in_key_order(dom, account_encoding());
            assert(order@ =~= counted);
            assert(counted =~= sorted.take(counted.len() as int));
        }
        let mut total: u128 = 0;
        let mut i: usize = 0;
        while i < order.len()
            invariant
                i <= order@.len(),
                order@ == counted,
                counted == sorted.take(counted.len() as int),
                counted.len() <= sorted.len(),
                dom == self@.council_members.dom(),
                forall|x: AccountId| #[trigger] sorted.contains(x) <==> dom.contains(x),
                total == weight_sum(self@.council_members, counted.take(i as int)),
                total <= i * (u32::MAX as int),
                i <= usize::MAX,
            decreases order@.len() - i,
        {
            let key = order[i];
            proof {
                assert(counted.take(i + 1).drop_last() =~= counted.take(i as int));
                assert(counted[i as int] == sorted[i as int]);
                assert(sorted.contains(key));
                assert(dom.contains(key));
            }
            let m = self.council_members.get(&key).unwrap();
            proof {
                assert((i + 1) * (u32::MAX as int) == i * (u32::MAX as int) + u32::MAX) by (nonlinear_arith);
                assert(i * (u32::MAX as int) <= usize::MAX * (u32::MAX as int)) by (nonlinear_arith)
                    requires
                        i <= usize::MAX,
                ;
            }
            total = total + m.voting_weight as u128;
            i = i + 1;
        }
        proof {
            assert(counted.take(order@.len() as int) =~= counted);
        }
        total
    }

    /// Seats taken by a board role.
    pub fn board_composition(&self, role: BoardRole) -> (n: u32)
        ensures
            n == map_get_or(self@.board_composition, role, 0u32),
    {
        self.board_composition.get_or(&role, 0u32)
    }

    /// Votes a delegate nominee has received.
    pub fn delegate_nominees(&self, account: AccountId) -> (n: u32)
        ensures
            n == map_get_or(self@.delegate_nominees, account, 0u32),
    {
        self.delegate_nominees.get_or(&account, 0u32)
    }

    /// The delegate election under way, if any.
    pub fn current_election(&self) -> (e: Option<BlockNumber>)
        ensures
            e == self@.current_election,
    {
        self.current_election
    }

    /// Whether the account voted in the delegate election.
    pub fn has_voted_in_election(&self, election_id: BlockNumber, account: AccountId) -> (b: bool)
        ensures
            b == self@.delegate_voters.contains_key((election_id, account)),
    {
        self.delegate_voters.contains_key(&(election_id, account))
    }

    /// A governance parameter's value (zero where unset).
    pub fn get_parameter(&self, parameter: GovernanceParameter) -> (v: u32)
        ensures
            v == map_get_or(self@.governance_parameters, parameter, 0u32),
    {
        self.governance_parameters.get_or(&parameter, 0u32)
    }

    /// A department's treasury balance.
    pub fn department_treasury_balance(&self, department: Department) -> (b: Balance)
        ensures
            b == map_get_or(self@.department_treasury_balances, department, 0u128),
    {
        self.department_treasury_balances.get_or(&department, 0u128)
    }

    /// A district's election, if one was started.
    pub fn get_district_election(&self, district: BelizeDistrict) -> (e: Option<Election>)
        ensures
            e == (if self@.district_elections.contains_key(district) {
                Some(self@.district_elections[district])
            } else {
                None
            }),
    {
        match self.district_elections.get(&district) {
            Some(e) => Some(*e),
            None => None,
        }
    }

    /// A candidate's registration in an election, if any.
    pub fn get_election_candidate(&self, election_id: BlockNumber, candidate: AccountId) -> (c: Option<
        ElectionCandidate,
    >)
        ensures
            c is Some <==> self@.election_candidates.contains_key((election_id, candidate)),
            c is Some ==> same_candidate(c.unwrap(), self@.election_candidates[(election_id, candidate)]),
    {
        match self.election_candidates.get(&(election_id, candidate)) {
            Some(c) => Some(
                ElectionCandidate {
                    account: c.account,
                    district: c.district,
                    election_id: c.election_id,
                    platform: copy_bytes(&c.platform),
                    votes: c.votes,
                    registered_at: c.registered_at,
                },
            ),
            None => None,
        }
    }

    /// Whether the voter voted in a district election.
    pub fn has_voted_in_district_election(&self, election_id: BlockNumber, voter: AccountId) -> (b: bool)
        ensures
            b == self@.election_votes.contains_key((election_id, voter)),
    {
        self.election_votes.contains_key(&(election_id, voter))
    }

    /// A district's elected representatives.
    pub fn get_district_representatives(&self, district: BelizeDistrict) -> (v: Vec<AccountId>)
        ensures
            v@ == (if self@.district_representation.contains_key(district) {
                self@.district_representation[district]@
            } else {
                Seq::<AccountId>::empty()
            }),
    {
        match self.district_representation.get(&district) {
            Some(q) => copy_vec(q),
            None => Vec::new(),
        }
    }

    /// A proposal's amendment, if any.
    pub fn get_proposal_amendment(&self, proposal_id: u32) -> (a: Option<ProposalAmendment>)
        ensures
            a is Some <==> self@.proposal_amendments.contains_key(proposal_id),
            a is Some ==> same_amendment(a.unwrap(), self@.proposal_amendments[proposal_id]),
    {
        match self.proposal_amendments.get(&proposal_id) {
            Some(a) => Some(
                ProposalAmendment {
                    proposal_id: a.proposal_id,
                    new_title: copy_text(&a.new_title),
                    new_description: copy_text(&a.new_description),
                    proposed_at: a.proposed_at,
                    is_applied: a.is_applied,
                },
            ),
            None => None,
        }
    }

    /// The proposals queued at a priority.
    pub fn get_priority_queue(&self, priority: ProposalPriority) -> (v: Vec<u32>)
        ensures
            v@ == crate::treasury::queue_of(self@, priority),
    {
        match self.proposal_queue.get(&priority) {
            Some(q) => copy_vec(q),
            None => Vec::new(),
        }
    }

    /// The governance treasury's account.
    pub fn account_id() -> (a: AccountId)
        ensures
            a == treasury_account_id(),
    {
        pallet_account()
    }

    /// The event index of a department.
    pub fn department_index(department: Department) -> (i: u8)
        ensures
            i == department_index_of(department),
    {
        department.to_index()
    }

    /// The event index of a district.
    pub fn district_index(district: BelizeDistrict) -> (i: u8)
        ensures
            i == district_index_of(district),
    {
        district.to_index()
    }

    /// The event index of an election status.
    pub fn election_status_index(status: ElectionStatus) -> (i: u8)
        ensures
            i == election_status_index_of(status),
    {
        match status {
            ElectionStatus::Registration => 0,
            ElectionStatus::Voting => 1,
            ElectionStatus::Finalized => 2,
            ElectionStatus::Cancelled => 3,
        }
    }

    /// The event index of a priority: its value, 1 to 4.
    pub fn proposal_priority_index(priority: ProposalPriority) -> (i: u8)
        ensures
            i == priority_value_of(priority),
    {
        priority.to_value()
    }
}

} // verus!
