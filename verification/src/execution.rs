//! Executing approved proposals and their on-chain actions.
use vstd::prelude::*;

use crate::call_data::{
    call_variant, decode_department_call, policy_key, policy_value, spend_amount, spend_recipient,
};
use crate::config::Config;
use crate::events::{Error, Event, Origin};
use crate::proposals::signer_of;
use crate::state::{GovView, Pallet};
use crate::treasury::{spend_error, spend_post};
use crate::types::{
    action_type_index_of, department_index_of, emergency_action_type_index_of, emergency_type_index_of,
    governance_parameter_index_of, parameter_range, AccountId, Balance, BlockNumber, Department,
    DepartmentCall, EmergencyActionType, EmergencyStatus, EmergencyType, GovernanceParameter, Proposal,
    ProposalAction, ProposalStatus, ProposalType,
};
use crate::vec_map::map_get_or;

verus! {

/// The description of an emergency that a proposal activates:
/// "Emergency activated via proposal".
pub open spec fn proposal_emergency_text() -> Seq<u8> {
    seq![
        69u8, 109, 101, 114, 103, 101, 110, 99, 121, 32, 97, 99, 116, 105, 118, 97, 116, 101, 100, 32,
        118, 105, 97, 32, 112, 114, 111, 112, 111, 115, 97, 108,
    ]
}

// ---------------------------------------------------------------------------
// The single actions
// ---------------------------------------------------------------------------

pub open spec fn runtime_upgrade_post(s: GovView, proposal_id: u32, hash: [u8; 32]) -> GovView {
    GovView {
        pending_runtime_upgrade: Some(hash),
        events: s.events.push(Event::RuntimeUpgradeExecuted { proposal_id, code_hash: hash }),
        ..s
    }
}

/// Whether `v` lies in the range allowed for `p`.
pub open spec fn parameter_value_allowed(p: GovernanceParameter, v: u32) -> bool {
    parameter_range(p).0 <= v && v <= parameter_range(p).1
}

pub open spec fn parameter_change_post(s: GovView, p: GovernanceParameter, v: u32) -> GovView {
    GovView {
        governance_parameters: s.governance_parameters.insert(p, v),
        events: s.events.push(
            Event::ParameterChanged {
                parameter_index: governance_parameter_index_of(p),
                old_value: map_get_or(s.governance_parameters, p, 0u32),
                new_value: v,
            },
        ),
        ..s
    }
}

pub open spec fn department_action_error(
    s: GovView,
    cfg: Config,
    now: BlockNumber,
    call_data: Seq<u8>,
    treasury_balance: Balance,
    transfer_ok: bool,
) -> Option<Error> {
    match call_variant(call_data) {
        None => Some(Error::InvalidCallData),
        Some(v) => if v == 0 {
            spend_error(s, cfg, now, spend_amount(call_data), treasury_balance, transfer_ok)
        } else {
            None
        },
    }
}

/// The state after a decoded department call ran; `value` is the stored
/// policy value where the call sets one.
pub open spec fn department_action_post(
    s: GovView,
    cfg: Config,
    now: BlockNumber,
    department: Department,
    call_data: Seq<u8>,
    proposal_id: u32,
    value: Vec<u8>,
) -> GovView {
    let s1 = if call_variant(call_data) == Some(0u8) {
        spend_post(s, cfg, now, spend_recipient(call_data), spend_amount(call_data), proposal_id)
    } else if call_variant(call_data) == Some(1u8) {
        GovView {
            department_policies: s.department_policies.insert((department, policy_key(call_data)), value),
            ..s
        }
    } else {
        s
    };
    GovView {
        events: s1.events.push(
            Event::DepartmentActionExecuted { proposal_id, department_index: department_index_of(department) },
        ),
        ..s1
    }
}

/// The state after an emergency action; `description` is the stored
/// description of an emergency it activates.
pub open spec fn emergency_action_post(
    s: GovView,
    cfg: Config,
    now: BlockNumber,
    action_type: EmergencyActionType,
    proposal_id: u32,
    description: Vec<u8>,
) -> GovView {
    let s1 = match action_type {
        EmergencyActionType::ActivateEmergency => GovView {
            jaguar_mode: Some(
                EmergencyStatus {
                    active: false,
                    emergency_type: EmergencyType::Other,
                    description,
                    declared_at: now,
                    expires_at: None,
                    declared_by: None,
                    is_pending: true,
                    veto_window_ends_at: Some((now + cfg.emergency_veto_window) as u64),
                },
            ),
            emergency_vetoes: Map::empty(),
            ..s
        },
        EmergencyActionType::DeactivateEmergency => GovView { jaguar_mode: None, ..s },
        _ => s,
    };
    GovView {
        events: s1.events.push(
            Event::EmergencyActionExecuted {
                proposal_id,
                action_type_index: emergency_action_type_index_of(action_type),
            },
        ),
        ..s1
    }
}

// ---------------------------------------------------------------------------
// Any action
// ---------------------------------------------------------------------------

/// Where an action activating an emergency computes its veto window's end
/// without overflow.
pub open spec fn activation_fits(cfg: Config, now: BlockNumber, a: Option<ProposalAction>) -> bool {
    a == Some(ProposalAction::EmergencyAction { action_type: EmergencyActionType::ActivateEmergency }) ==> now
        + cfg.emergency_veto_window <= u64::MAX
}

pub open spec fn action_error(
    s: GovView,
    cfg: Config,
    now: BlockNumber,
    a: ProposalAction,
    treasury_balance: Balance,
    transfer_ok: bool,
) -> Option<Error> {
    match a {
        ProposalAction::TreasurySpend { recipient: _, amount } => spend_error(
            s,
            cfg,
            now,
            amount,
            treasury_balance,
            transfer_ok,
        ),
        ProposalAction::RuntimeUpgrade { code_hash } => if code_hash@.len() != 32 {
            Some(Error::RuntimeCodeTooLarge)
        } else {
            None
        },
        ProposalAction::ParameterChange { parameter, new_value } => if !parameter_value_allowed(
            parameter,
            new_value,
        ) {
            Some(Error::InvalidParameterValue)
        } else {
            None
        },
        ProposalAction::DepartmentAction { department: _, call_data } => department_action_error(
            s,
            cfg,
            now,
            call_data@,
            treasury_balance,
            transfer_ok,
        ),
        ProposalAction::EmergencyAction { .. } => None,
    }
}

/// The byte string an action stores fresh: a department's policy value or
/// an activated emergency's description, as found in the state `after`.
pub open spec fn action_fresh_bytes(after: GovView, a: ProposalAction) -> Vec<u8> {
    match a {
        ProposalAction::DepartmentAction { department, call_data } => after.department_policies[(
            department,
            policy_key(call_data@),
        )],
        ProposalAction::EmergencyAction { .. } => after.jaguar_mode.unwrap().description,
        _ => arbitrary(),
    }
}

/// What the freshly stored values of an action hold.
pub open spec fn action_fresh_ok(a: ProposalAction, fresh: Vec<u8>, hash: [u8; 32]) -> bool {
    match a {
        ProposalAction::RuntimeUpgrade { code_hash } => hash@ == code_hash@,
        ProposalAction::DepartmentAction { department: _, call_data } => call_variant(call_data@) == Some(1u8)
            ==> fresh@ == policy_value(call_data@),
        ProposalAction::EmergencyAction { action_type } => action_type == EmergencyActionType::ActivateEmergency
            ==> fresh@ == proposal_emergency_text(),
        _ => true,
    }
}

pub open spec fn action_post(
    s: GovView,
    cfg: Config,
    now: BlockNumber,
    a: ProposalAction,
    proposal_id: u32,
    fresh: Vec<u8>,
    hash: [u8; 32],
) -> GovView {
    match a {
        ProposalAction::TreasurySpend { recipient, amount } => spend_post(s, cfg, now, recipient, amount, proposal_id),
        ProposalAction::RuntimeUpgrade { .. } => runtime_upgrade_post(s, proposal_id, hash),
        ProposalAction::ParameterChange { parameter, new_value } => parameter_change_post(s, parameter, new_value),
        ProposalAction::DepartmentAction { department, call_data } => department_action_post(
            s,
            cfg,
            now,
            department,
            call_data@,
            proposal_id,
            fresh,
        ),
        ProposalAction::EmergencyAction { action_type } => emergency_action_post(
            s,
            cfg,
            now,
            action_type,
            proposal_id,
            fresh,
        ),
    }
}

// ---------------------------------------------------------------------------
// Executing proposals
// ---------------------------------------------------------------------------

pub open spec fn execute_proposal_error(
    s: GovView,
    cfg: Config,
    now: BlockNumber,
    origin: Origin,
    proposal_id: u32,
    treasury_balance: Balance,
    transfer_ok: bool,
) -> Option<Error> {
    let who = signer_of(origin).unwrap();
    let p = s.proposals[proposal_id];
    let ratified = map_get_or(s.constitutional_ratifications, proposal_id, (false, false));
    if signer_of(origin) is None {
        Some(Error::BadOrigin)
    } else if !s.council_members.contains_key(who) {
        Some(Error::NotCouncilMember)
    } else if !s.proposals.contains_key(proposal_id) {
        Some(Error::ProposalNotFound)
    } else if p.executed_at is Some || s.executed_proposals.contains_key(proposal_id) {
        Some(Error::AlreadyExecuted)
    } else if p.status != ProposalStatus::Approved {
        Some(Error::ProposalNotApproved)
    } else if s.proposal_enactment_block.contains_key(proposal_id) && now
        < s.proposal_enactment_block[proposal_id] {
        Some(Error::EnactmentDelayNotPassed)
    } else if p.proposal_type == ProposalType::Constitutional && !(ratified.0 && ratified.1) {
        Some(Error::ConstitutionalRatificationRequired)
    } else if p.action is None {
        Some(Error::NoActionDefined)
    } else {
        action_error(s, cfg, now, p.action.unwrap(), treasury_balance, transfer_ok)
    }
}

/// The proposal marked executed at `now`.
pub open spec fn executed(p: Proposal, now: BlockNumber) -> Proposal {
    Proposal { status: ProposalStatus::Executed, executed_at: Some(now), ..p }
}

pub open spec fn execute_proposal_post(
    s: GovView,
    cfg: Config,
    now: BlockNumber,
    who: AccountId,
    proposal_id: u32,
    fresh: Vec<u8>,
    hash: [u8; 32],
) -> GovView {
    let p = s.proposals[proposal_id];
    let a = p.action.unwrap();
    let s1 = action_post(s, cfg, now, a, proposal_id, fresh, hash);
    GovView {
        proposals: s1.proposals.insert(proposal_id, executed(p, now)),
        executed_proposals: s1.executed_proposals.insert(proposal_id, now),
        events: s1.events.push(
            Event::ProposalExecuted { proposal_id, executor: who, action_type: action_type_index_of(a) },
        ),
        ..s1
    }
}

/// Approval in percent of the ayes and nays.
pub open spec fn emergency_approval(p: Proposal) -> u32 {
    (p.vote_tally.ayes * 100 / (p.vote_tally.ayes + p.vote_tally.nays)) as u32
}

/// Where the approval of an emergency proposal is computed without
/// overflow.
pub open spec fn approval_fits(s: GovView, proposal_id: u32) -> bool {
    let t = s.proposals[proposal_id].vote_tally;
    s.proposals.contains_key(proposal_id) ==> t.ayes + t.nays <= u32::MAX && t.ayes * 100 <= u32::MAX
}

pub open spec fn execute_emergency_proposal_error(
    s: GovView,
    cfg: Config,
    now: BlockNumber,
    origin: Origin,
    council_origin: bool,
    proposal_id: u32,
    treasury_balance: Balance,
    transfer_ok: bool,
) -> Option<Error> {
    let p = s.proposals[proposal_id];
    if !(origin == Origin::Root || council_origin) {
        Some(Error::Unauthorized)
    } else if !(s.jaguar_mode is Some && s.jaguar_mode.unwrap().active) {
        Some(Error::NotInEmergencyMode)
    } else if !s.proposals.contains_key(proposal_id) {
        Some(Error::ProposalNotFound)
    } else if !p.is_emergency {
        Some(Error::NotEmergencyProposal)
    } else if p.executed_at is Some || s.executed_proposals.contains_key(proposal_id) {
        Some(Error::AlreadyExecuted)
    } else if now > p.voting_end {
        Some(Error::EmergencyProposalExpired)
    } else if p.vote_tally.ayes + p.vote_tally.nays == 0 || emergency_approval(p) < 66 {
        Some(Error::InsufficientSuperMajority)
    } else if p.action is Some {
        action_error(s, cfg, now, p.action.unwrap(), treasury_balance, transfer_ok)
    } else {
        None
    }
}

pub open spec fn execute_emergency_proposal_post(
    s: GovView,
    cfg: Config,
    now: BlockNumber,
    proposal_id: u32,
    fresh: Vec<u8>,
    hash: [u8; 32],
) -> GovView {
    let p = s.proposals[proposal_id];
    let s1 = if p.action is Some {
        action_post(s, cfg, now, p.action.unwrap(), proposal_id, fresh, hash)
    } else {
        s
    };
    GovView {
        proposals: s1.proposals.insert(proposal_id, executed(p, now)),
        executed_proposals: s1.executed_proposals.insert(proposal_id, now),
        events: s1.events.push(
            Event::EmergencyProposalExecuted {
                proposal_id,
                emergency_type_index: emergency_type_index_of(s.jaguar_mode.unwrap().emergency_type),
                approval_percentage: emergency_approval(p),
            },
        ),
        ..s1
    }
}

pub open spec fn override_error(s: GovView, origin: Origin, proposal_id: u32, justification_len: nat) -> Option<
    Error,
> {
    if origin != Origin::Root {
        Some(Error::BadOrigin)
    } else if !(s.jaguar_mode is Some && s.jaguar_mode.unwrap().active) {
        Some(Error::NotInEmergencyMode)
    } else if justification_len > 512 {
        Some(Error::TreasuryDescriptionTooLong)
    } else if !s.proposals.contains_key(proposal_id) {
        Some(Error::ProposalNotFound)
    } else {
        None
    }
}

/// The signature bytes carried by the last event, where it is an override.
pub open spec fn override_signer(evs: Seq<Event>) -> [u8; 32] {
    match evs.last() {
        Event::ProposalEmergencyOverride { overridden_by, .. } => overridden_by,
        _ => arbitrary(),
    }
}

/// What the override event names as the overrider: the emergency's
/// declarer record, or 32 zero bytes.
pub open spec fn overrider_ok(s: GovView, by: [u8; 32]) -> bool {
    match s.jaguar_mode.unwrap().declared_by {
        Some(d) => by == d,
        None => by@ == Seq::new(32, |i: int| 0u8),
    }
}

pub open spec fn override_post(
    s: GovView,
    now: BlockNumber,
    proposal_id: u32,
    execute: bool,
    justification: Vec<u8>,
    by: [u8; 32],
) -> GovView {
    let p = s.proposals[proposal_id];
    GovView {
        proposals: s.proposals.insert(
            proposal_id,
            if execute {
                executed(p, now)
            } else {
                Proposal { status: ProposalStatus::Rejected, ..p }
            },
        ),
        events: s.events.push(
            Event::ProposalEmergencyOverride { proposal_id, executed: execute, overridden_by: by, justification },
        ),
        ..s
    }
}

impl Pallet {
    /// Records an approved runtime upgrade's code hash as pending.
    pub fn execute_runtime_upgrade(&mut self, code_hash: &Vec<u8>, proposal_id: u32) -> (r: Result<(), Error>)
        ensures
            code_hash@.len() != 32 ==> r == Err::<(), Error>(Error::RuntimeCodeTooLarge) && final(self)@ == old(
                self,
            )@,
            code_hash@.len() == 32 ==> ({
                let h = final(self)@.pending_runtime_upgrade.unwrap();
                &&& r == Ok::<(), Error>(())
                &&& h@ == code_hash@
                &&& final(self)@ == runtime_upgrade_post(old(self)@, proposal_id, h)
            }),
    {
        if code_hash.len() != 32 {
            return Err(Error::RuntimeCodeTooLarge);
        }
        let mut hash = [0u8; 32];
        let mut i: usize = 0;
        while i < 32
            invariant
                i <= 32,
                code_hash@.len() == 32,
                hash@.len() == 32,
                forall|j: int| 0 <= j < i ==> hash@[j] == code_hash@[j],
            decreases 32 - i,
        {
            hash[i] = code_hash[i];
            i = i + 1;
        }
        assert(hash@ =~= code_hash@);
        let ghost s0 = self@;
        self.pending_runtime_upgrade = Some(hash);
        self.events.push(Event::RuntimeUpgradeExecuted { proposal_id, code_hash: hash });
        proof {
            assert(self@ =~= runtime_upgrade_post(s0, proposal_id, hash));
        }
        Ok(())
    }

    /// Changes a governance parameter within its allowed range.
    pub fn execute_parameter_change(&mut self, parameter: GovernanceParameter, new_value: u32) -> (r: Result<
        (),
        Error,
    >)
        ensures
            !parameter_value_allowed(parameter, new_value) ==> r == Err::<(), Error>(
                Error::InvalidParameterValue,
            ) && final(self)@ == old(self)@,
            parameter_value_allowed(parameter, new_value) ==> r == Ok::<(), Error>(()) && final(self)@ == parameter_change_post(
                old(self)@,
                parameter,
                new_value,
            ),
    {
        let (lo, hi): (u32, u32) = match parameter {
            GovernanceParameter::VotingPeriod => (3600, 604800),
            GovernanceParameter::LaunchPeriod => (1800, 86400),
            GovernanceParameter::MinimumDeposit => (100, 1000000),
            GovernanceParameter::SupermajorityThreshold => (51, 100),
            GovernanceParameter::CouncilSize => (5, 50),
            GovernanceParameter::EmergencyTimeout => (3600, 604800),
        };
        if new_value < lo || new_value > hi {
            return Err(Error::InvalidParameterValue);
        }
        let ghost s0 = self@;
        let old_value = self.governance_parameters.get_or(&parameter, 0u32);
        self.governance_parameters.insert(parameter, new_value);
        let parameter_index = Pallet::governance_parameter_index(parameter);
        self.events.push(Event::ParameterChanged { parameter_index, old_value, new_value });
        proof {
            assert(self@ =~= parameter_change_post(s0, parameter, new_value));
        }
        Ok(())
    }

    /// Decodes and runs a department's call: a spend from the treasury, a
    /// policy update, or nothing. `treasury_balance` and `transfer_ok` are
    /// as for `execute_treasury_spend`.
    pub fn execute_department_action(
        &mut self,
        cfg: &Config,
        now: BlockNumber,
        department: Department,
        call_data: &Vec<u8>,
        proposal_id: u32,
        treasury_balance: Balance,
        transfer_ok: bool,
    ) -> (r: Result<(), Error>)
        ensures
            r == (match department_action_error(
                old(self)@,
                *cfg,
                now,
                call_data@,
                treasury_balance,
                transfer_ok,
            ) {
                Some(e) => Err(e),
                None => Ok(()),
            }),
            r is Err ==> final(self)@ == old(self)@,
            r is Ok ==> ({
                let v = final(self)@.department_policies[(department, policy_key(call_data@))];
                &&& call_variant(call_data@) == Some(1u8) ==> v@ == policy_value(call_data@)
                &&& final(self)@ == department_action_post(
                    old(self)@,
                    *cfg,
                    now,
                    department,
                    call_data@,
                    proposal_id,
                    v,
                )
            }),
    {
        let department_index = department.to_index();
        let call = match decode_department_call(call_data) {
            Some(c) => c,
            None => return Err(Error::InvalidCallData),
        };
        let ghost s0 = self@;
        let ghost v_g: Vec<u8>;
        match call {
            DepartmentCall::SpendBudget { recipient, amount } => {
                match self.execute_treasury_spend(
                    cfg,
                    now,
                    recipient,
                    amount,
                    proposal_id,
                    treasury_balance,
                    transfer_ok,
                ) {
                    Ok(()) => {},
                    Err(e) => return Err(e),
                }
                proof {
                    v_g = self@.department_policies[(department, policy_key(call_data@))];
                }
            },
            DepartmentCall::UpdatePolicy { policy_key: key, policy_value: value } => {
                proof {
                    v_g = value;
                }
                self.department_policies.insert((department, key), value);
            },
            DepartmentCall::NoOp => {
                proof {
                    v_g = self@.department_policies[(department, policy_key(call_data@))];
                }
            },
        }
        self.events.push(Event::DepartmentActionExecuted { proposal_id, department_index });
        proof {
            assert(self@ =~= department_action_post(s0, *cfg, now, department, call_data@, proposal_id, v_g));
        }
        Ok(())
    }

    /// Runs an emergency action: activation (pending its veto window),
    /// deactivation, or one only recorded.
    pub fn execute_emergency_action(
        &mut self,
        cfg: &Config,
        now: BlockNumber,
        action_type: EmergencyActionType,
        proposal_id: u32,
    ) -> (r: Result<(), Error>)
        requires
            action_type == EmergencyActionType::ActivateEmergency ==> now + cfg.emergency_veto_window <= u64::MAX,
        ensures
            r == Ok::<(), Error>(()),
            ({
                let d = final(self)@.jaguar_mode.unwrap().description;
                &&& action_type == EmergencyActionType::ActivateEmergency ==> d@ == proposal_emergency_text()
                &&& final(self)@ == emergency_action_post(old(self)@, *cfg, now, action_type, proposal_id, d)
            }),
    {
        let ghost s0 = self@;
        let ghost d_g: Vec<u8>;
        match action_type {
            EmergencyActionType::ActivateEmergency => {
                let description = emergency_text();
                proof {
                    d_g = description;
                }
                let veto_window_ends = now + cfg.emergency_veto_window;
                self.jaguar_mode = Some(
                    EmergencyStatus {
                        active: false,
                        emergency_type: EmergencyType::Other,
                        description,
                        declared_at: now,
                        expires_at: None,
                        declared_by: None,
                        is_pending: true,
                        veto_window_ends_at: Some(veto_window_ends),
                    },
                );
                self.emergency_vetoes.clear();
            },
            EmergencyActionType::DeactivateEmergency => {
                self.jaguar_mode = None;
                proof {
                    d_g = self@.jaguar_mode.unwrap().description;
                }
            },
            _ => {
                proof {
                    d_g = self@.jaguar_mode.unwrap().description;
                }
            },
        }
        let action_type_index = Pallet::emergency_action_type_index(action_type);
        self.events.push(Event::EmergencyActionExecuted { proposal_id, action_type_index });
        proof {
            assert(self@ =~= emergency_action_post(s0, *cfg, now, action_type, proposal_id, d_g));
        }
        Ok(())
    }

    /// Runs a proposal's action. `treasury_balance` and `transfer_ok` are
    /// as for `execute_treasury_spend`.
    pub fn execute_action(
        &mut self,
        cfg: &Config,
        now: BlockNumber,
        action: &ProposalAction,
        proposal_id: u32,
        treasury_balance: Balance,
        transfer_ok: bool,
    ) -> (r: Result<(), Error>)
        requires
            activation_fits(*cfg, now, Some(*action)),
        ensures
            r == (match action_error(old(self)@, *cfg, now, *action, treasury_balance, transfer_ok) {
                Some(e) => Err(e),
                None => Ok(()),
            }),
            r is Err ==> final(self)@ == old(self)@,
            r is Ok ==> ({
                let fresh = action_fresh_bytes(final(self)@, *action);
                let hash = final(self)@.pending_runtime_upgrade.unwrap();
                &&& action_fresh_ok(*action, fresh, hash)
                &&& final(self)@ == action_post(old(self)@, *cfg, now, *action, proposal_id, fresh, hash)
            }),
    {
        match action {
            ProposalAction::TreasurySpend { recipient, amount } => self.execute_treasury_spend(
                cfg,
                now,
                *recipient,
                *amount,
                proposal_id,
                treasury_balance,
                transfer_ok,
            ),
            ProposalAction::RuntimeUpgrade { code_hash } => self.execute_runtime_upgrade(code_hash, proposal_id),
            ProposalAction::ParameterChange { parameter, new_value } => self.execute_parameter_change(
                *parameter,
                *new_value,
            ),
            ProposalAction::DepartmentAction { department, call_data } => self.execute_department_action(
                cfg,
                now,
                *department,
                call_data,
                proposal_id,
                treasury_balance,
                transfer_ok,
            ),
            ProposalAction::EmergencyAction { action_type } => self.execute_emergency_action(
                cfg,
                now,
                *action_type,
                proposal_id,
            ),
        }
    }

    /// A council member executes an approved proposal's action once its
    /// enactment block has come; constitutional proposals need both houses'
    /// ratification. `treasury_balance` and `transfer_ok` are as for
    /// `execute_treasury_spend`.
    pub fn execute_proposal(
        &mut self,
        cfg: &Config,
        now: BlockNumber,
        origin: Origin,
        proposal_id: u32,
        treasury_balance: Balance,
        transfer_ok: bool,
    ) -> (r: Result<(), Error>)
        requires
            old(self)@.proposals.contains_key(proposal_id) ==> activation_fits(
                *cfg,
                now,
                old(self)@.proposals[proposal_id].action,
            ),
        ensures
            r == (match execute_proposal_error(
                old(self)@,
                *cfg,
                now,
                origin,
                proposal_id,
                treasury_balance,
                transfer_ok,
            ) {
                Some(e) => Err(e),
                None => Ok(()),
            }),
            r is Err ==> final(self)@ == old(self)@,
            r is Ok ==> ({
                let a = old(self)@.proposals[proposal_id].action.unwrap();
                let fresh = action_fresh_bytes(final(self)@, a);
                let hash = final(self)@.pending_runtime_upgrade.unwrap();
                &&& action_fresh_ok(a, fresh, hash)
                &&& final(self)@ == execute_proposal_post(
                    old(self)@,
                    *cfg,
                    now,
                    signer_of(origin).unwrap(),
                    proposal_id,
                    fresh,
                    hash,
                )
            }),
    {
        let who = match origin {
            Origin::Signed(w) => w,
            _ => return Err(Error::BadOrigin),
        };
        if !self.council_members.contains_key(&who) {
            return Err(Error::NotCouncilMember);
        }
        let proposal_type = match self.proposals.get(&proposal_id) {
            Some(p) => {
                if p.executed_at.is_some() {
                    return Err(Error::AlreadyExecuted);
                }
                if self.executed_proposals.contains_key(&proposal_id) {
                    return Err(Error::AlreadyExecuted);
                }
                if p.status != ProposalStatus::Approved {
                    return Err(Error::ProposalNotApproved);
                }
                p.proposal_type
            },
            None => return Err(Error::ProposalNotFound),
        };
        match self.proposal_enactment_block.get(&proposal_id) {
            Some(at) => {
                if now < *at {
                    return Err(Error::EnactmentDelayNotPassed);
                }
            },
            None => {},
        }
        if proposal_type == ProposalType::Constitutional {
            let (tech, gov) = self.constitutional_ratifications.get_or(&proposal_id, (false, false));
            if !(tech && gov) {
                return Err(Error::ConstitutionalRatificationRequired);
            }
        }
        let ghost s0 = self@;
        let action = match self.take_action(proposal_id) {
            Some(a) => a,
            None => {
                self.put_action(proposal_id, None);
                proof {
                    assert(self@ =~= s0);
                }
                return Err(Error::NoActionDefined);
            },
        };
        let ghost s1 = self@;
        match self.execute_action(cfg, now, &action, proposal_id, treasury_balance, transfer_ok) {
            Ok(()) => {},
            Err(e) => {
                self.put_action(proposal_id, Some(action));
                proof {
                    assert(self@ =~= s0);
                }
                return Err(e);
            },
        }
        let ghost s2 = self@;
        let action_type = Pallet::get_action_type_index(&action);
        self.mark_executed(proposal_id, now, Some(action));
        self.executed_proposals.insert(proposal_id, now);
        self.events.push(Event::ProposalExecuted { proposal_id, executor: who, action_type });
        proof {
            let a = s0.proposals[proposal_id].action.unwrap();
            let fresh = action_fresh_bytes(self@, a);
            let hash = self@.pending_runtime_upgrade.unwrap();
            assert(fresh == action_fresh_bytes(s2, a));
            assert(s2 == action_post(s1, *cfg, now, a, proposal_id, fresh, hash));
            assert(self@ =~= execute_proposal_post(s0, *cfg, now, who, proposal_id, fresh, hash));
        }
        Ok(())
    }

    /// Executes an emergency proposal that reached a two-thirds approval
    /// while an emergency is active (root or council). `council_origin` is
    /// whether the council origin check passed; `treasury_balance` and
    /// `transfer_ok` are as for `execute_treasury_spend`.
    pub fn execute_emergency_proposal(
        &mut self,
        cfg: &Config,
        now: BlockNumber,
        origin: Origin,
        council_origin: bool,
        proposal_id: u32,
        treasury_balance: Balance,
        transfer_ok: bool,
    ) -> (r: Result<(), Error>)
        requires
            approval_fits(old(self)@, proposal_id),
            old(self)@.proposals.contains_key(proposal_id) ==> activation_fits(
                *cfg,
                now,
                old(self)@.proposals[proposal_id].action,
            ),
        ensures
            r == (match execute_emergency_proposal_error(
                old(self)@,
                *cfg,
                now,
                origin,
                council_origin,
                proposal_id,
                treasury_balance,
                transfer_ok,
            ) {
                Some(e) => Err(e),
                None => Ok(()),
            }),
            r is Err ==> final(self)@ == old(self)@,
            r is Ok ==> ({
                let a = old(self)@.proposals[proposal_id].action;
                let fresh = action_fresh_bytes(final(self)@, a.unwrap());
                let hash = final(self)@.pending_runtime_upgrade.unwrap();
                &&& a is Some ==> action_fresh_ok(a.unwrap(), fresh, hash)
                &&& final(self)@ == execute_emergency_proposal_post(
                    old(self)@,
                    *cfg,
                    now,
                    proposal_id,
                    fresh,
                    hash,
                )
            }),
    {
        if !(origin == Origin::Root || council_origin) {
            return Err(Error::Unauthorized);
        }
        let emergency_index = match &self.jaguar_mode {
            Some(e) => {
                if !e.active {
                    return Err(Error::NotInEmergencyMode);
                }
                e.emergency_type.to_index()
            },
            None => return Err(Error::NotInEmergencyMode),
        };
        let pct = match self.proposals.get(&proposal_id) {
            Some(p) => {
                if !p.is_emergency {
                    return Err(Error::NotEmergencyProposal);
                }
                if p.executed_at.is_some() || self.executed_proposals.contains_key(&proposal_id) {
                    return Err(Error::AlreadyExecuted);
                }
                if now > p.voting_end {
                    return Err(Error::EmergencyProposalExpired);
                }
                let total = p.vote_tally.ayes + p.vote_tally.nays;
                if total == 0 {
                    return Err(Error::InsufficientSuperMajority);
                }
                let pct = (p.vote_tally.ayes * 100) / total;
                if pct < 66 {
                    return Err(Error::InsufficientSuperMajority);
                }
                pct
            },
            None => return Err(Error::ProposalNotFound),
        };
        let ghost s0 = self@;
        let action = self.take_action(proposal_id);
        let ghost s1 = self@;
        match &action {
            Some(a) => {
                match self.execute_action(cfg, now, a, proposal_id, treasury_balance, transfer_ok) {
                    Ok(()) => {},
                    Err(e) => {
                        self.put_action(proposal_id, action);
                        proof {
                            assert(self@ =~= s0);
                        }
                        return Err(e);
                    },
                }
            },
            None => {},
        }
        let ghost s2 = self@;
        self.mark_executed(proposal_id, now, action);
        self.executed_proposals.insert(proposal_id, now);
        self.events.push(
            Event::EmergencyProposalExecuted {
                proposal_id,
                emergency_type_index: emergency_index,
                approval_percentage: pct,
            },
        );
        proof {
            let a = s0.proposals[proposal_id].action;
            let fresh = action_fresh_bytes(self@, a.unwrap());
            let hash = self@.pending_runtime_upgrade.unwrap();
            if a is Some {
                assert(fresh == action_fresh_bytes(s2, a.unwrap()));
                assert(s2 == action_post(s1, *cfg, now, a.unwrap(), proposal_id, fresh, hash));
            }
            assert(self@ =~= execute_emergency_proposal_post(s0, *cfg, now, proposal_id, fresh, hash));
        }
        Ok(())
    }

    /// Forces a proposal executed or rejected during an active emergency
    /// (root only), with a justification of at most 512 bytes.
    pub fn emergency_override_proposal(
        &mut self,
        now: BlockNumber,
        origin: Origin,
        proposal_id: u32,
        execute: bool,
        justification: Vec<u8>,
    ) -> (r: Result<(), Error>)
        ensures
            r == (match override_error(old(self)@, origin, proposal_id, justification@.len()) {
                Some(e) => Err(e),
                None => Ok(()),
            }),
            r is Err ==> final(self)@ == old(self)@,
            r is Ok ==> ({
                let by = override_signer(final(self)@.events);
                &&& overrider_ok(old(self)@, by)
                &&& final(self)@ == override_post(old(self)@, now, proposal_id, execute, justification, by)
            }),
    {
        if origin != Origin::Root {
            return Err(Error::BadOrigin);
        }
        let by: [u8; 32] = match &self.jaguar_mode {
            Some(e) => {
                if !e.active {
                    return Err(Error::NotInEmergencyMode);
                }
                match e.declared_by {
                    Some(d) => d,
                    None => {
                        let z = [0u8; 32];
                        assert(z@ =~= Seq::new(32, |i: int| 0u8));
                        z
                    },
                }
            },
            None => return Err(Error::NotInEmergencyMode),
        };
        if justification.len() > 512 {
            return Err(Error::TreasuryDescriptionTooLong);
        }
        let ghost s0 = self@;
        let ghost j_g = justification;
        match self.proposals.take(&proposal_id) {
            Some((pos, p)) => {
                let np = if execute {
                    Proposal { status: ProposalStatus::Executed, executed_at: Some(now), ..p }
                } else {
                    Proposal { status: ProposalStatus::Rejected, ..p }
                };
                self.proposals.restore(pos, proposal_id, np);
            },
            None => return Err(Error::ProposalNotFound),
        }
        self.events.push(
            Event::ProposalEmergencyOverride { proposal_id, executed: execute, overridden_by: by, justification },
        );
        proof {
            assert(self@ =~= override_post(s0, now, proposal_id, execute, j_g, by));
        }
        Ok(())
    }

    /// Takes the action out of a stored proposal, leaving none there.
    fn take_action(&mut self, proposal_id: u32) -> (a: Option<ProposalAction>)
        requires
            old(self)@.proposals.contains_key(proposal_id),
        ensures
            a == old(self)@.proposals[proposal_id].action,
            final(self)@ == (GovView {
                proposals: old(self)@.proposals.insert(
                    proposal_id,
                    Proposal { action: None, ..old(self)@.proposals[proposal_id] },
                ),
                ..old(self)@
            }),
    {
        let ghost s0 = self@;
        let (pos, p) = self.proposals.take(&proposal_id).unwrap();
        let Proposal {
            id,
            proposer,
            title,
            description,
            proposal_type,
            threshold,
            deposit,
            voting_start,
            voting_end,
            vote_tally,
            status,
            is_emergency,
            department,
            district,
            requires_cross_approval,
            cross_approved_by,
            action,
            executed_at,
        } = p;
        let np = Proposal {
            id,
            proposer,
            title,
            description,
            proposal_type,
            threshold,
            deposit,
            voting_start,
            voting_end,
            vote_tally,
            status,
            is_emergency,
            department,
            district,
            requires_cross_approval,
            cross_approved_by,
            action: None,
            executed_at,
        };
        self.proposals.restore(pos, proposal_id, np);
        proof {
            assert(self@ =~= (GovView {
                proposals: s0.proposals.insert(proposal_id, Proposal { action: None, ..s0.proposals[proposal_id] }),
                ..s0
            }));
        }
        action
    }

    /// Puts an action back into a stored proposal.
    fn put_action(&mut self, proposal_id: u32, a: Option<ProposalAction>)
        requires
            old(self)@.proposals.contains_key(proposal_id),
        ensures
            final(self)@ == (GovView {
                proposals: old(self)@.proposals.insert(
                    proposal_id,
                    Proposal { action: a, ..old(self)@.proposals[proposal_id] },
                ),
                ..old(self)@
            }),
    {
        let ghost s0 = self@;
        let (pos, p) = self.proposals.take(&proposal_id).unwrap();
        let np = Proposal { action: a, ..p };
        self.proposals.restore(pos, proposal_id, np);
        proof {
            assert(self@ =~= (GovView {
                proposals: s0.proposals.insert(proposal_id, Proposal { action: a, ..s0.proposals[proposal_id] }),
                ..s0
            }));
        }
    }

    /// Marks a stored proposal executed at `now`, with its action put back.
    fn mark_executed(&mut self, proposal_id: u32, now: BlockNumber, a: Option<ProposalAction>)
        requires
            old(self)@.proposals.contains_key(proposal_id),
        ensures
            final(self)@ == (GovView {
                proposals: old(self)@.proposals.insert(
                    proposal_id,
                    Proposal {
                        status: ProposalStatus::Executed,
                        executed_at: Some(now),
                        action: a,
                        ..old(self)@.proposals[proposal_id]
                    },
                ),
                ..old(self)@
            }),
    {
        let ghost s0 = self@;
        let (pos, p) = self.proposals.take(&proposal_id).unwrap();
        let np = Proposal { status: ProposalStatus::Executed, executed_at: Some(now), action: a, ..p };
        self.proposals.restore(pos, proposal_id, np);
        proof {
            assert(self@ =~= (GovView {
                proposals: s0.proposals.insert(
                    proposal_id,
                    Proposal {
                        status: ProposalStatus::Executed,
                        executed_at: Some(now),
                        action: a,
                        ..s0.proposals[proposal_id]
                    },
                ),
                ..s0
            }));
        }
    }

    /// Credits a department's treasury balance, saturating.
    pub fn allocate_to_department(&mut self, department: Department, amount: Balance, proposal_id: u32) -> (r:
        Result<(), Error>)
        ensures
            r is Ok,
            final(self)@ == (GovView {
                department_treasury_balances: old(self)@.department_treasury_balances.insert(
                    department,
                    crate::treasury::sat_add_u128(
                        map_get_or(old(self)@.department_treasury_balances, department, 0u128),
                        amount,
                    ),
                ),
                events: old(self)@.events.push(
                    Event::DepartmentFundsAllocated {
                        department_index: department_index_of(department),
                        amount,
                        from_proposal: proposal_id,
                    },
                ),
                ..old(self)@
            }),
    {
        let balance = self.department_treasury_balances.get_or(&department, 0u128);
        self.department_treasury_balances.insert(department, balance.saturating_add(amount));
        let department_index = department.to_index();
        self.events.push(
            Event::DepartmentFundsAllocated { department_index, amount, from_proposal: proposal_id },
        );
        Ok(())
    }

    /// The event index of an action's kind.
    pub fn get_action_type_index(action: &ProposalAction) -> (i: u8)
        ensures
            i == action_type_index_of(*action),
    {
        match action {
            ProposalAction::TreasurySpend { .. } => 0,
            ProposalAction::RuntimeUpgrade { .. } => 1,
            ProposalAction::ParameterChange { .. } => 2,
            ProposalAction::DepartmentAction { .. } => 3,
            ProposalAction::EmergencyAction { .. } => 4,
        }
    }

    /// The event index of a governance parameter.
    pub fn governance_parameter_index(parameter: GovernanceParameter) -> (i: u8)
        ensures
            i == governance_parameter_index_of(parameter),
    {
        match parameter {
            GovernanceParameter::VotingPeriod => 0,
            GovernanceParameter::LaunchPeriod => 1,
            GovernanceParameter::MinimumDeposit => 2,
            GovernanceParameter::SupermajorityThreshold => 3,
            GovernanceParameter::CouncilSize => 4,
            GovernanceParameter::EmergencyTimeout => 5,
        }
    }

    /// The event index of an emergency action type.
    pub fn emergency_action_type_index(action_type: EmergencyActionType) -> (i: u8)
        ensures
            i == emergency_action_type_index_of(action_type),
    {
        match action_type {
            EmergencyActionType::ActivateEmergency => 0,
            EmergencyActionType::DeactivateEmergency => 1,
            EmergencyActionType::FreezeAccount => 2,
            EmergencyActionType::UnfreezeAccount => 3,
            EmergencyActionType::HaltGovernance => 4,
            EmergencyActionType::ResumeGovernance => 5,
        }
    }
}

/// The bytes of "Emergency activated via proposal".
fn emergency_text() -> (v: Vec<u8>)
    ensures
        v@ == proposal_emergency_text(),
{
    let v: Vec<u8> = vec![
        69u8, 109, 101, 114, 103, 101, 110, 99, 121, 32, 97, 99, 116, 105, 118, 97, 116, 101, 100, 32,
        118, 105, 97, 32, 112, 114, 111, 112, 111, 115, 97, 108,
    ];
    assert(v@ =~= proposal_emergency_text());
    v
}

} // verus!
