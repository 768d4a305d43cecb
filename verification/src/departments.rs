//! Departmental governance: managers, department proposals and
//! cross-department approval.
use vstd::prelude::*;

use crate::config::Config;
use crate::events::{Error, Event, Origin};
use crate::proposals::{sat_add_u64, signer_of, zero_tally};
use crate::state::{GovView, Pallet};
use crate::types::{
    department_of, proposal_type_from_index, proposal_type_of, threshold_from_index, threshold_of,
    AccountId, BlockNumber, Department, Proposal, ProposalStatus, VoteTally,
};
use crate::vec_map::map_get_or;

verus! {

pub open spec fn set_department_manager_error(origin: Origin, department_index: u8) -> Option<Error> {
    if origin != Origin::Root {
        Some(Error::BadOrigin)
    } else if department_of(department_index) is None {
        Some(Error::InvalidDepartment)
    } else {
        None
    }
}

/// Why `submit_department_proposal` refuses, checked in order.
pub open spec fn submit_department_proposal_error(
    s: GovView,
    origin: Origin,
    compliant: bool,
    reserve_ok: bool,
    department_index: u8,
    title_len: nat,
    description_len: nat,
    proposal_type_index: u8,
    threshold_index: u8,
) -> Option<Error> {
    let d = department_of(department_index).unwrap();
    if signer_of(origin) is None {
        Some(Error::BadOrigin)
    } else if !compliant {
        Some(Error::InsufficientCompliance)
    } else if department_of(department_index) is None {
        Some(Error::InvalidDepartment)
    } else if !s.department_managers.contains_key(d) {
        Some(Error::DepartmentNotFound)
    } else if s.department_managers[d] != signer_of(origin).unwrap() {
        Some(Error::NotDepartmentManager)
    } else if proposal_type_index > 6 {
        Some(Error::InvalidProposalType)
    } else if threshold_of(threshold_index) is None {
        Some(Error::InvalidThreshold)
    } else if !reserve_ok {
        Some(Error::CurrencyFailure)
    } else if title_len > 256 || description_len > 1024 {
        Some(Error::InvalidProposalType)
    } else {
        None
    }
}

/// The state after a successful `submit_department_proposal`; `cross` is
/// the proposal's (empty) list of cross-department approvals.
pub open spec fn submit_department_proposal_post(
    s: GovView,
    cfg: Config,
    now: BlockNumber,
    who: AccountId,
    department_index: u8,
    title: Vec<u8>,
    description: Vec<u8>,
    proposal_type_index: u8,
    threshold_index: u8,
    requires_cross_approval: bool,
    cross: Vec<Department>,
) -> GovView {
    let id = s.next_proposal_id;
    let d = department_of(department_index).unwrap();
    let start = sat_add_u64(now, cfg.launch_period);
    let p = Proposal {
        id,
        proposer: who,
        title,
        description,
        proposal_type: proposal_type_of(proposal_type_index).unwrap(),
        threshold: threshold_of(threshold_index).unwrap(),
        deposit: cfg.minimum_deposit,
        voting_start: start,
        voting_end: sat_add_u64(start, cfg.voting_period),
        vote_tally: zero_tally(),
        status: ProposalStatus::Pending,
        is_emergency: false,
        department: Some(d),
        district: None,
        requires_cross_approval,
        cross_approved_by: cross,
        action: None,
        executed_at: None,
    };
    GovView {
        proposals: s.proposals.insert(id, p),
        next_proposal_id: s.next_proposal_id.saturating_add(1),
        department_proposal_count: s.department_proposal_count.insert(
            d,
            map_get_or(s.department_proposal_count, d, 0).saturating_add(1),
        ),
        events: s.events.push(
            Event::DepartmentProposalSubmitted { proposal_id: id, department_index, proposer: who },
        ),
        ..s
    }
}

/// Why `approve_cross_department` refuses, checked in order.
pub open spec fn approve_cross_department_error(
    s: GovView,
    origin: Origin,
    proposal_id: u32,
    department_index: u8,
) -> Option<Error> {
    let d = department_of(department_index).unwrap();
    if signer_of(origin) is None {
        Some(Error::BadOrigin)
    } else if department_of(department_index) is None {
        Some(Error::InvalidDepartment)
    } else if !s.department_managers.contains_key(d) {
        Some(Error::DepartmentNotFound)
    } else if s.department_managers[d] != signer_of(origin).unwrap() {
        Some(Error::NotDepartmentManager)
    } else if !s.proposals.contains_key(proposal_id) {
        Some(Error::ProposalNotFound)
    } else if !s.proposals[proposal_id].requires_cross_approval {
        Some(Error::CrossApprovalNotRequired)
    } else if map_get_or(s.cross_department_approvals, (proposal_id, d), false) {
        Some(Error::DepartmentAlreadyApproved)
    } else if s.proposals[proposal_id].cross_approved_by@.len() >= 8 {
        Some(Error::TooManyCrossApprovals)
    } else {
        None
    }
}

/// The state after a successful cross-department approval; `approved_by`
/// is the proposal's new list of approving departments.
pub open spec fn approve_cross_department_post(
    s: GovView,
    who: AccountId,
    proposal_id: u32,
    department_index: u8,
    approved_by: Vec<Department>,
) -> GovView {
    let d = department_of(department_index).unwrap();
    GovView {
        cross_department_approvals: s.cross_department_approvals.insert((proposal_id, d), true),
        proposals: s.proposals.insert(
            proposal_id,
            Proposal { cross_approved_by: approved_by, ..s.proposals[proposal_id] },
        ),
        events: s.events.push(
            Event::CrossDepartmentApproved { proposal_id, department_index, approver: who },
        ),
        ..s
    }
}

impl Pallet {
    /// Appoints the manager of a department (root only).
    pub fn set_department_manager(&mut self, origin: Origin, department_index: u8, manager: AccountId) -> (r:
        Result<(), Error>)
        ensures
            r == (match set_department_manager_error(origin, department_index) {
                Some(e) => Err(e),
                None => Ok(()),
            }),
            r is Err ==> final(self)@ == old(self)@,
            r is Ok ==> final(self)@ == (GovView {
                department_managers: old(self)@.department_managers.insert(
                    department_of(department_index).unwrap(),
                    manager,
                ),
                events: old(self)@.events.push(Event::DepartmentManagerSet { department_index, manager }),
                ..old(self)@
            }),
    {
        if origin != Origin::Root {
            return Err(Error::BadOrigin);
        }
        let d = match Department::from_index(department_index) {
            Some(d) => d,
            None => return Err(Error::InvalidDepartment),
        };
        self.department_managers.insert(d, manager);
        self.events.push(Event::DepartmentManagerSet { department_index, manager });
        Ok(())
    }

    /// Submits a proposal on behalf of a department; only its manager may.
    ///
    /// `reserve_ok` is whether reserving `cfg.minimum_deposit` from the
    /// signer succeeded.
    pub fn submit_department_proposal(
        &mut self,
        cfg: &Config,
        now: BlockNumber,
        origin: Origin,
        compliant: bool,
        reserve_ok: bool,
        department_index: u8,
        title: Vec<u8>,
        description: Vec<u8>,
        proposal_type_index: u8,
        threshold_index: u8,
        requires_cross_approval: bool,
    ) -> (r: Result<(), Error>)
        ensures
            r == (match submit_department_proposal_error(
                old(self)@,
                origin,
                compliant,
                reserve_ok,
                department_index,
                title@.len(),
                description@.len(),
                proposal_type_index,
                threshold_index,
            ) {
                Some(e) => Err(e),
                None => Ok(()),
            }),
            r is Err ==> final(self)@ == old(self)@,
            r is Ok ==> ({
                let c = final(self)@.proposals[old(self)@.next_proposal_id].cross_approved_by;
                c@.len() == 0 && final(self)@ == submit_department_proposal_post(
                    old(self)@,
                    *cfg,
                    now,
                    signer_of(origin).unwrap(),
                    department_index,
                    title,
                    description,
                    proposal_type_index,
                    threshold_index,
                    requires_cross_approval,
                    c,
                )
            }),
    {
        let who = match origin {
            Origin::Signed(w) => w,
            _ => return Err(Error::BadOrigin),
        };
        if !compliant {
            return Err(Error::InsufficientCompliance);
        }
        let department = match Department::from_index(department_index) {
            Some(d) => d,
            None => return Err(Error::InvalidDepartment),
        };
        match self.department_managers.get(&department) {
            Some(m) => {
                if *m != who {
                    return Err(Error::NotDepartmentManager);
                }
            },
            None => return Err(Error::DepartmentNotFound),
        }
        if proposal_type_index > 6 {
            return Err(Error::InvalidProposalType);
        }
        let proposal_type = match proposal_type_from_index(proposal_type_index) {
            Some(t) => t,
            None => return Err(Error::InvalidProposalType),
        };
        let threshold = match threshold_from_index(threshold_index) {
            Some(t) => t,
            None => return Err(Error::InvalidThreshold),
        };
        if !reserve_ok {
            return Err(Error::CurrencyFailure);
        }
        if title.len() > 256 || description.len() > 1024 {
            return Err(Error::InvalidProposalType);
        }
        let ghost s0 = self@;
        let voting_start = now.saturating_add(cfg.launch_period);
        let voting_end = voting_start.saturating_add(cfg.voting_period);
        let proposal_id = self.next_proposal_id;
        let cross: Vec<Department> = Vec::new();
        let ghost cross_g = cross;
        let ghost t_g = title;
        let ghost d_g = description;
        let proposal = Proposal {
            id: proposal_id,
            proposer: who,
            title,
            description,
            proposal_type,
            threshold,
            deposit: cfg.minimum_deposit,
            voting_start,
            voting_end,
            vote_tally: VoteTally { ayes: 0, nays: 0, abstentions: 0, total_weight: 0, participation: 0 },
            status: ProposalStatus::Pending,
            is_emergency: false,
            department: Some(department),
            district: None,
            requires_cross_approval,
            cross_approved_by: cross,
            action: None,
            executed_at: None,
        };
        self.proposals.insert(proposal_id, proposal);
        self.next_proposal_id = proposal_id.saturating_add(1);
        let count = self.department_proposal_count.get_or(&department, 0);
        self.department_proposal_count.insert(department, count.saturating_add(1));
        self.events.push(Event::DepartmentProposalSubmitted { proposal_id, department_index, proposer: who });
        proof {
            assert(self@ =~= submit_department_proposal_post(
                s0,
                *cfg,
                now,
                who,
                department_index,
                t_g,
                d_g,
                proposal_type_index,
                threshold_index,
                requires_cross_approval,
                cross_g,
            ));
        }
        Ok(())
    }

    /// Records a department's approval of a proposal that needs
    /// cross-department approval; only the department's manager may.
    pub fn approve_cross_department(&mut self, origin: Origin, proposal_id: u32, department_index: u8) -> (r:
        Result<(), Error>)
        ensures
            r == (match approve_cross_department_error(old(self)@, origin, proposal_id, department_index) {
                Some(e) => Err(e),
                None => Ok(()),
            }),
            r is Err ==> final(self)@ == old(self)@,
            r is Ok ==> ({
                let c = final(self)@.proposals[proposal_id].cross_approved_by;
                &&& c@ == old(self)@.proposals[proposal_id].cross_approved_by@.push(
                    department_of(department_index).unwrap(),
                )
                &&& final(self)@ == approve_cross_department_post(
                    old(self)@,
                    signer_of(origin).unwrap(),
                    proposal_id,
                    department_index,
                    c,
                )
            }),
    {
        let who = match origin {
            Origin::Signed(w) => w,
            _ => return Err(Error::BadOrigin),
        };
        let department = match Department::from_index(department_index) {
            Some(d) => d,
            None => return Err(Error::InvalidDepartment),
        };
        match self.department_managers.get(&department) {
            Some(m) => {
                if *m != who {
                    return Err(Error::NotDepartmentManager);
                }
            },
            None => return Err(Error::DepartmentNotFound),
        }
        match self.proposals.get(&proposal_id) {
            Some(p) => {
                if !p.requires_cross_approval {
                    return Err(Error::CrossApprovalNotRequired);
                }
                if self.cross_department_approvals.get_or(&(proposal_id, department), false) {
                    return Err(Error::DepartmentAlreadyApproved);
                }
                if p.cross_approved_by.len() >= 8 {
                    return Err(Error::TooManyCrossApprovals);
                }
            },
            None => return Err(Error::ProposalNotFound),
        }
        let ghost s0 = self@;
        self.cross_department_approvals.insert((proposal_id, department), true);
        match self.proposals.take(&proposal_id) {
            Some((pos, p)) => {
                let mut approved_by = p.cross_approved_by;
                approved_by.push(department);
                let ghost c = approved_by;
                let np = Proposal { cross_approved_by: approved_by, ..p };
                self.proposals.restore(pos, proposal_id, np);
                self.events.push(Event::CrossDepartmentApproved { proposal_id, department_index, approver: who });
                proof {
                    assert(self@ =~= approve_cross_department_post(s0, who, proposal_id, department_index, c));
                }
                Ok(())
            },
            None => Err(Error::ProposalNotFound),
        }
    }
}

} // verus!
