//! Chain parameters and their constitutional locks, dual-house
//! ratification, proposal amendments, runtime upgrades and exit proofs.
use vstd::prelude::*;

use crate::config::Config;
use crate::events::{Error, Event, Origin};
use crate::hashing::{blake2_256, blake2_256_digest, encode_exit_payload, le_bytes};
use crate::proposals::{sat_add_u64, signer_of};
use crate::state::{GovView, Pallet};
use crate::types::{
    AccountId, Balance, BlockNumber, Proposal, ProposalAmendment, ProposalStatus, ProposalType,
};
use crate::vec_map::{copy_bytes, map_get_or};

verus! {

/// Longest chain parameter key.
pub const MAX_PARAMETER_KEY: usize = 32;

/// Whether a chain parameter is locked.
pub open spec fn is_locked(s: GovView, key: Seq<u8>) -> bool {
    map_get_or(s.locked_parameters, key, false)
}

/// A chain parameter's value, if set.
pub open spec fn chain_parameter(s: GovView, key: Seq<u8>) -> Option<u64> {
    if s.chain_parameters.contains_key(key) {
        Some(s.chain_parameters[key])
    } else {
        None
    }
}

pub open spec fn update_parameter_error(s: GovView, origin: Origin, key: Seq<u8>) -> Option<Error> {
    if origin != Origin::Root {
        Some(Error::BadOrigin)
    } else if key.len() > MAX_PARAMETER_KEY {
        Some(Error::ParameterKeyTooLong)
    } else if is_locked(s, key) {
        Some(Error::ParameterConstitutionallyLocked)
    } else {
        None
    }
}

pub open spec fn update_parameter_post(s: GovView, key: Vec<u8>, value: u64) -> GovView {
    GovView {
        chain_parameters: s.chain_parameters.insert(key@, value),
        events: s.events.push(
            Event::ChainParameterUpdated { key, old_value: chain_parameter(s, key@), new_value: value },
        ),
        ..s
    }
}

pub open spec fn lock_error(s: GovView, admin_origin: bool, key: Seq<u8>, lock: bool) -> Option<Error> {
    if !admin_origin {
        Some(Error::BadOrigin)
    } else if key.len() > MAX_PARAMETER_KEY {
        Some(Error::ParameterKeyTooLong)
    } else if lock && is_locked(s, key) {
        Some(Error::ParameterAlreadyLocked)
    } else if !lock && !is_locked(s, key) {
        Some(Error::ParameterNotLocked)
    } else {
        None
    }
}

pub open spec fn ratify_error(
    s: GovView,
    origin: Origin,
    proposal_id: u32,
    is_technical: bool,
    is_governance: bool,
) -> Option<Error> {
    let p = s.proposals[proposal_id];
    let (tech, gov) = map_get_or(s.constitutional_ratifications, proposal_id, (false, false));
    if signer_of(origin) is None {
        Some(Error::BadOrigin)
    } else if !s.proposals.contains_key(proposal_id) {
        Some(Error::ProposalNotFound)
    } else if p.proposal_type != ProposalType::Constitutional {
        Some(Error::NotConstitutionalProposal)
    } else if p.status != ProposalStatus::Approved {
        Some(Error::ProposalNotYetApproved)
    } else if !is_technical && !is_governance {
        Some(Error::NotHouseMember)
    } else if (is_technical && tech) || (is_governance && gov) {
        Some(Error::AlreadyRatifiedByHouse)
    } else {
        None
    }
}

/// The house a ratifier speaks for: 0 technical, 1 governance, 2 both.
pub open spec fn house_of(is_technical: bool, is_governance: bool) -> u8 {
    if is_technical && !is_governance {
        0
    } else if !is_technical && is_governance {
        1
    } else {
        2
    }
}

pub open spec fn ratify_post(
    s: GovView,
    who: AccountId,
    proposal_id: u32,
    is_technical: bool,
    is_governance: bool,
) -> GovView {
    let (tech, gov) = map_get_or(s.constitutional_ratifications, proposal_id, (false, false));
    let t = tech || is_technical;
    let g = gov || is_governance;
    let evs = s.events.push(
        Event::ConstitutionalRatificationCast {
            proposal_id,
            ratifier: who,
            house: house_of(is_technical, is_governance),
            technical_approved: t,
            governance_approved: g,
        },
    );
    GovView {
        constitutional_ratifications: s.constitutional_ratifications.insert(proposal_id, (t, g)),
        events: if t && g {
            evs.push(Event::ConstitutionalRatificationComplete { proposal_id })
        } else {
            evs
        },
        ..s
    }
}

pub open spec fn amend_error(
    s: GovView,
    now: BlockNumber,
    origin: Origin,
    proposal_id: u32,
    has_title: bool,
    has_description: bool,
) -> Option<Error> {
    let p = s.proposals[proposal_id];
    if signer_of(origin) is None {
        Some(Error::BadOrigin)
    } else if !s.proposals.contains_key(proposal_id) {
        Some(Error::ProposalNotFound)
    } else if p.proposer != signer_of(origin).unwrap() {
        Some(Error::NotProposalAuthor)
    } else if now >= p.voting_start {
        Some(Error::CannotAmendAfterVoting)
    } else if s.proposal_amendments.contains_key(proposal_id) {
        Some(Error::AmendmentAlreadyExists)
    } else if !has_title && !has_description {
        Some(Error::AmendmentNotFound)
    } else {
        None
    }
}

/// The state after an amendment: the record keeps the new texts, and the
/// proposal now reads `title` and `description`.
pub open spec fn amend_post(
    s: GovView,
    now: BlockNumber,
    who: AccountId,
    proposal_id: u32,
    new_title: Option<Vec<u8>>,
    new_description: Option<Vec<u8>>,
    title: Vec<u8>,
    description: Vec<u8>,
) -> GovView {
    let p = s.proposals[proposal_id];
    GovView {
        proposal_amendments: s.proposal_amendments.insert(
            proposal_id,
            ProposalAmendment { proposal_id, new_title, new_description, proposed_at: now, is_applied: false },
        ),
        proposals: s.proposals.insert(proposal_id, Proposal { title, description, ..p }),
        events: s.events.push(Event::ProposalAmendmentSubmitted { proposal_id, proposer: who }),
        ..s
    }
}

/// A text after an amendment: the new one where given, else the old one.
pub open spec fn amended_text(new: Option<Vec<u8>>, old: Vec<u8>, result: Vec<u8>) -> bool {
    match new {
        Some(t) => result@ == t@,
        None => result == old,
    }
}

/// Whether a proposal may still be amended at `now`.
pub open spec fn amendment_allowed(s: GovView, proposal_id: u32, now: BlockNumber) -> bool {
    s.proposals.contains_key(proposal_id) && now < s.proposals[proposal_id].voting_start
        && s.proposals[proposal_id].status != ProposalStatus::Executed
}

pub open spec fn apply_upgrade_error(s: GovView, origin: Origin, code_hash: Seq<u8>, set_code_ok: bool) -> Option<
    Error,
> {
    if origin != Origin::Root {
        Some(Error::BadOrigin)
    } else if s.pending_runtime_upgrade is None {
        Some(Error::RuntimeUpgradeNotPending)
    } else if code_hash != s.pending_runtime_upgrade.unwrap()@ {
        Some(Error::RuntimeCodeHashMismatch)
    } else if !set_code_ok {
        Some(Error::SetCodeFailure)
    } else {
        None
    }
}

pub open spec fn apply_upgrade_post(s: GovView) -> GovView {
    GovView {
        pending_runtime_upgrade: None,
        events: s.events.push(Event::RuntimeUpgradeApplied { code_hash: s.pending_runtime_upgrade.unwrap() }),
        ..s
    }
}

/// The bytes an exit proof hashes: account, balance and block, SCALE
/// encoded.
pub open spec fn exit_payload(account: AccountId, balance: Balance, now: BlockNumber) -> Seq<u8> {
    le_bytes(account as nat, 8) + le_bytes(balance as nat, 16) + le_bytes(now as nat, 8)
}

/// The proof hash carried by the last event, where it is an exit proof.
pub open spec fn exit_proof_hash(evs: Seq<Event>) -> [u8; 32] {
    match evs.last() {
        Event::ExitProofGenerated { proof_hash, .. } => proof_hash,
        _ => arbitrary(),
    }
}

pub open spec fn exit_proof_post(
    s: GovView,
    cfg: Config,
    now: BlockNumber,
    account: AccountId,
    proof_hash: [u8; 32],
) -> GovView {
    GovView {
        events: s.events.push(
            Event::ExitProofGenerated {
                account,
                proof_hash,
                valid_until: sat_add_u64(now, cfg.exit_proof_validity),
            },
        ),
        ..s
    }
}

impl Pallet {
    /// Sets a chain parameter (root only) unless it is constitutionally
    /// locked.
    pub fn update_chain_parameter(&mut self, origin: Origin, key: Vec<u8>, value: u64) -> (r: Result<(), Error>)
        ensures
            r == (match update_parameter_error(old(self)@, origin, key@) {
                Some(e) => Err(e),
                None => Ok(()),
            }),
            r is Err ==> final(self)@ == old(self)@,
            r is Ok ==> final(self)@ == update_parameter_post(old(self)@, key, value),
    {
        if origin != Origin::Root {
            return Err(Error::BadOrigin);
        }
        if key.len() > MAX_PARAMETER_KEY {
            return Err(Error::ParameterKeyTooLong);
        }
        if self.locked_parameters.get_or(&key, false) {
            return Err(Error::ParameterConstitutionallyLocked);
        }
        let ghost s0 = self@;
        let old_value = match self.chain_parameters.get(&key) {
            Some(v) => Some(*v),
            None => None,
        };
        self.chain_parameters.insert(copy_bytes(&key), value);
        self.events.push(Event::ChainParameterUpdated { key, old_value, new_value: value });
        proof {
            assert(self@ =~= update_parameter_post(s0, key, value));
        }
        Ok(())
    }

    /// Locks a chain parameter against updates. `admin_origin` is whether
    /// the constitutional admin origin check passed.
    pub fn lock_chain_parameter(&mut self, admin_origin: bool, key: Vec<u8>) -> (r: Result<(), Error>)
        ensures
            r == (match lock_error(old(self)@, admin_origin, key@, true) {
                Some(e) => Err(e),
                None => Ok(()),
            }),
            r is Err ==> final(self)@ == old(self)@,
            r is Ok ==> final(self)@ == (GovView {
                locked_parameters: old(self)@.locked_parameters.insert(key@, true),
                events: old(self)@.events.push(Event::ParameterLocked { key }),
                ..old(self)@
            }),
    {
        if !admin_origin {
            return Err(Error::BadOrigin);
        }
        if key.len() > MAX_PARAMETER_KEY {
            return Err(Error::ParameterKeyTooLong);
        }
        if self.locked_parameters.get_or(&key, false) {
            return Err(Error::ParameterAlreadyLocked);
        }
        self.locked_parameters.insert(copy_bytes(&key), true);
        self.events.push(Event::ParameterLocked { key });
        Ok(())
    }

    /// Lifts a chain parameter's lock. `admin_origin` is whether the
    /// constitutional admin origin check passed.
    pub fn unlock_chain_parameter(&mut self, admin_origin: bool, key: Vec<u8>) -> (r: Result<(), Error>)
        ensures
            r == (match lock_error(old(self)@, admin_origin, key@, false) {
                Some(e) => Err(e),
                None => Ok(()),
            }),
            r is Err ==> final(self)@ == old(self)@,
            r is Ok ==> final(self)@ == (GovView {
                locked_parameters: old(self)@.locked_parameters.remove(key@),
                events: old(self)@.events.push(Event::ParameterUnlocked { key }),
                ..old(self)@
            }),
    {
        if !admin_origin {
            return Err(Error::BadOrigin);
        }
        if key.len() > MAX_PARAMETER_KEY {
            return Err(Error::ParameterKeyTooLong);
        }
        if !self.locked_parameters.get_or(&key, false) {
            return Err(Error::ParameterNotLocked);
        }
        self.locked_parameters.remove(&key);
        self.events.push(Event::ParameterUnlocked { key });
        Ok(())
    }

    /// A chain parameter's value, or `default` where it is unset or the key
    /// is too long to be one.
    pub fn chain_param(&self, key: &Vec<u8>, default: u64) -> (v: u64)
        ensures
            v == (if key@.len() > MAX_PARAMETER_KEY {
                default
            } else {
                map_get_or(self@.chain_parameters, key@, default)
            }),
    {
        if key.len() > MAX_PARAMETER_KEY {
            return default;
        }
        self.chain_parameters.get_or(key, default)
    }

    /// Records one house's ratification of an approved constitutional
    /// proposal. `is_technical` and `is_governance` are the dual-house
    /// provider's answers for the signer.
    pub fn ratify_constitutional_proposal(
        &mut self,
        origin: Origin,
        proposal_id: u32,
        is_technical: bool,
        is_governance: bool,
    ) -> (r: Result<(), Error>)
        ensures
            r == (match ratify_error(old(self)@, origin, proposal_id, is_technical, is_governance) {
                Some(e) => Err(e),
                None => Ok(()),
            }),
            r is Err ==> final(self)@ == old(self)@,
            r is Ok ==> final(self)@ == ratify_post(
                old(self)@,
                signer_of(origin).unwrap(),
                proposal_id,
                is_technical,
                is_governance,
            ),
    {
        let who = match origin {
            Origin::Signed(w) => w,
            _ => return Err(Error::BadOrigin),
        };
        match self.proposals.get(&proposal_id) {
            Some(p) => {
                if p.proposal_type != ProposalType::Constitutional {
                    return Err(Error::NotConstitutionalProposal);
                }
                if p.status != ProposalStatus::Approved {
                    return Err(Error::ProposalNotYetApproved);
                }
            },
            None => return Err(Error::ProposalNotFound),
        }
        if !is_technical && !is_governance {
            return Err(Error::NotHouseMember);
        }
        let (mut tech, mut gov) = self.constitutional_ratifications.get_or(&proposal_id, (false, false));
        if is_technical {
            if tech {
                return Err(Error::AlreadyRatifiedByHouse);
            }
            tech = true;
        }
        if is_governance {
            if gov {
                return Err(Error::AlreadyRatifiedByHouse);
            }
            gov = true;
        }
        let ghost s0 = self@;
        self.constitutional_ratifications.insert(proposal_id, (tech, gov));
        let house: u8 = if is_technical && !is_governance {
            0
        } else if !is_technical && is_governance {
            1
        } else {
            2
        };
        self.events.push(
            Event::ConstitutionalRatificationCast {
                proposal_id,
                ratifier: who,
                house,
                technical_approved: tech,
                governance_approved: gov,
            },
        );
        if tech && gov {
            self.events.push(Event::ConstitutionalRatificationComplete { proposal_id });
        }
        proof {
            assert(self@ =~= ratify_post(s0, who, proposal_id, is_technical, is_governance));
        }
        Ok(())
    }

    /// Which houses have ratified a proposal: (technical, governance).
    pub fn is_constitutionally_ratified(&self, proposal_id: u32) -> (r: (bool, bool))
        ensures
            r == map_get_or(self@.constitutional_ratifications, proposal_id, (false, false)),
    {
        self.constitutional_ratifications.get_or(&proposal_id, (false, false))
    }

    /// Amends a proposal's title or description; only its proposer, once,
    /// before voting starts.
    pub fn amend_proposal(
        &mut self,
        now: BlockNumber,
        origin: Origin,
        proposal_id: u32,
        new_title: Option<Vec<u8>>,
        new_description: Option<Vec<u8>>,
    ) -> (r: Result<(), Error>)
        ensures
            r == (match amend_error(
                old(self)@,
                now,
                origin,
                proposal_id,
                new_title is Some,
                new_description is Some,
            ) {
                Some(e) => Err(e),
                None => Ok(()),
            }),
            r is Err ==> final(self)@ == old(self)@,
            r is Ok ==> ({
                let p0 = old(self)@.proposals[proposal_id];
                let p1 = final(self)@.proposals[proposal_id];
                &&& amended_text(new_title, p0.title, p1.title)
                &&& amended_text(new_description, p0.description, p1.description)
                &&& final(self)@ == amend_post(
                    old(self)@,
                    now,
                    signer_of(origin).unwrap(),
                    proposal_id,
                    new_title,
                    new_description,
                    p1.title,
                    p1.description,
                )
            }),
    {
        let who = match origin {
            Origin::Signed(w) => w,
            _ => return Err(Error::BadOrigin),
        };
        match self.proposals.get(&proposal_id) {
            Some(p) => {
                if p.proposer != who {
                    return Err(Error::NotProposalAuthor);
                }
                if now >= p.voting_start {
                    return Err(Error::CannotAmendAfterVoting);
                }
            },
            None => return Err(Error::ProposalNotFound),
        }
        if self.proposal_amendments.contains_key(&proposal_id) {
            return Err(Error::AmendmentAlreadyExists);
        }
        if new_title.is_none() && new_description.is_none() {
            return Err(Error::AmendmentNotFound);
        }
        let ghost s0 = self@;
        let (pos, p) = match self.proposals.take(&proposal_id) {
            Some(x) => x,
            None => return Err(Error::ProposalNotFound),
        };
        let Proposal {
            id,
            proposer,
            title,
            description,
            proposal_type,
            threshold,
            deposit,
            voting_start,
            voting_end,
            vote_tally,
            status,
            is_emergency,
            department,
            district,
            requires_cross_approval,
            cross_approved_by,
            action,
            executed_at,
        } = p;
        let title = match &new_title {
            Some(t) => copy_bytes(t),
            None => title,
        };
        let description = match &new_description {
            Some(d) => copy_bytes(d),
            None => description,
        };
        let ghost t_g = title;
        let ghost d_g = description;
        let np = Proposal {
            id,
            proposer,
            title,
            description,
            proposal_type,
            threshold,
            deposit,
            voting_start,
            voting_end,
            vote_tally,
            status,
            is_emergency,
            department,
            district,
            requires_cross_approval,
            cross_approved_by,
            action,
            executed_at,
        };
        self.proposals.restore(pos, proposal_id, np);
        let ghost nt_g = new_title;
        let ghost nd_g = new_description;
        self.proposal_amendments.insert(
            proposal_id,
            ProposalAmendment {
                proposal_id,
                new_title,
                new_description,
                proposed_at: now,
                is_applied: false,
            },
        );
        self.events.push(Event::ProposalAmendmentSubmitted { proposal_id, proposer: who });
        proof {
            assert(self@ =~= amend_post(s0, now, who, proposal_id, nt_g, nd_g, t_g, d_g));
        }
        Ok(())
    }

    /// Whether the proposal may still be amended at `now`.
    pub fn is_amendment_allowed(&self, proposal_id: u32, now: BlockNumber) -> (b: bool)
        ensures
            b == amendment_allowed(self@, proposal_id, now),
    {
        match self.proposals.get(&proposal_id) {
            Some(p) => now < p.voting_start && p.status != ProposalStatus::Executed,
            None => false,
        }
    }

    /// Applies the pending runtime upgrade whose code hashes to the
    /// approved hash (root only). `set_code_ok` is whether the system's
    /// code replacement succeeds.
    pub fn apply_pending_runtime_upgrade(&mut self, origin: Origin, code: &Vec<u8>, set_code_ok: bool) -> (r:
        Result<(), Error>)
        ensures
            r == (match apply_upgrade_error(old(self)@, origin, blake2_256_digest(code@), set_code_ok) {
                Some(e) => Err(e),
                None => Ok(()),
            }),
            r is Err ==> final(self)@ == old(self)@,
            r is Ok ==> final(self)@ == apply_upgrade_post(old(self)@),
    {
        let code_hash = blake2_256(code.as_slice());
        self.apply_runtime_upgrade_with_hash(origin, &code_hash, set_code_ok)
    }

    /// The part of `apply_pending_runtime_upgrade` after hashing: applies the
    /// pending upgrade where `code_hash` is the approved hash.
    pub fn apply_runtime_upgrade_with_hash(&mut self, origin: Origin, code_hash: &[u8; 32], set_code_ok: bool) -> (r:
        Result<(), Error>)
        ensures
            r == (match apply_upgrade_error(old(self)@, origin, code_hash@, set_code_ok) {
                Some(e) => Err(e),
                None => Ok(()),
            }),
            r is Err ==> final(self)@ == old(self)@,
            r is Ok ==> final(self)@ == apply_upgrade_post(old(self)@),
    {
        if origin != Origin::Root {
            return Err(Error::BadOrigin);
        }
        let approved = match self.pending_runtime_upgrade {
            Some(h) => h,
            None => return Err(Error::RuntimeUpgradeNotPending),
        };
        if !crate::proposals::same_digest(code_hash, &approved) {
            return Err(Error::RuntimeCodeHashMismatch);
        }
        if !set_code_ok {
            return Err(Error::SetCodeFailure);
        }
        self.pending_runtime_upgrade = None;
        self.events.push(Event::RuntimeUpgradeApplied { code_hash: approved });
        Ok(())
    }

    /// Publishes a proof of the signer's state: the digest of its account,
    /// free balance `balance` and the current block, valid for the
    /// configured number of blocks.
    pub fn generate_exit_proof(&mut self, cfg: &Config, now: BlockNumber, origin: Origin, balance: Balance) -> (r:
        Result<(), Error>)
        ensures
            signer_of(origin) is None ==> r == Err::<(), Error>(Error::BadOrigin) && final(self)@ == old(self)@,
            signer_of(origin) is Some ==> ({
                let a = signer_of(origin).unwrap();
                let h = exit_proof_hash(final(self)@.events);
                &&& r == Ok::<(), Error>(())
                &&& h@ == blake2_256_digest(exit_payload(a, balance, now))
                &&& final(self)@ == exit_proof_post(old(self)@, *cfg, now, a, h)
            }),
    {
        let account = match origin {
            Origin::Signed(w) => w,
            _ => return Err(Error::BadOrigin),
        };
        let payload = encode_exit_payload(account, balance, now);
        let proof_hash = blake2_256(payload.as_slice());
        self.record_exit_proof(cfg, now, account, proof_hash);
        Ok(())
    }

    /// The part of `generate_exit_proof` after hashing: publishes the proof.
    pub fn record_exit_proof(&mut self, cfg: &Config, now: BlockNumber, account: AccountId, proof_hash: [u8; 32])
        ensures
            final(self)@ == exit_proof_post(old(self)@, *cfg, now, account, proof_hash),
    {
        let valid_until = now.saturating_add(cfg.exit_proof_validity);
        self.events.push(Event::ExitProofGenerated { account, proof_hash, valid_until });
    }
}

} // verus!
