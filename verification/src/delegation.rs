//! Liquid democracy: delegating and revoking voting power.
use vstd::prelude::*;

use crate::board::{copy_without, without};
use crate::vec_map::copy_vec;
use crate::events::{Error, Event, Origin};
use crate::proposals::{delegation_active, receivers_of, sat_add_u64, signer_of};
use crate::state::{GovView, Pallet};
use crate::types::{AccountId, BlockNumber, VoteDelegation, BLOCKS_PER_YEAR, MAX_DELEGATION_RECEIVERS};

verus! {

pub open spec fn delegate_vote_error(
    s: GovView,
    now: BlockNumber,
    origin: Origin,
    delegator_compliant: bool,
    delegate_compliant: bool,
    delegate: AccountId,
) -> Option<Error> {
    let who = signer_of(origin).unwrap();
    if signer_of(origin) is None {
        Some(Error::BadOrigin)
    } else if !delegator_compliant || !delegate_compliant {
        Some(Error::InsufficientCompliance)
    } else if who == delegate {
        Some(Error::CannotDelegateToSelf)
    } else if delegation_active(s, who, now) {
        Some(Error::DelegationAlreadyExists)
    } else if receivers_of(drop_delegation(s, who), delegate).len() >= MAX_DELEGATION_RECEIVERS {
        Some(Error::TooManyDelegators)
    } else {
        None
    }
}

/// Expiry of a new delegation: as given, or one year from `now`.
pub open spec fn delegation_expiry(now: BlockNumber, expires_at: Option<BlockNumber>) -> BlockNumber {
    match expires_at {
        Some(e) => e,
        None => sat_add_u64(now, BLOCKS_PER_YEAR as u64),
    }
}

/// `s` without `delegator`'s delegation, if it has one: the delegation is
/// removed and the delegator leaves its delegate's list.
pub open spec fn drop_delegation(s: GovView, delegator: AccountId) -> GovView {
    if s.vote_delegations.contains_key(delegator) {
        let delegate = s.vote_delegations[delegator].delegate;
        GovView {
            vote_delegations: s.vote_delegations.remove(delegator),
            delegation_receivers: s.delegation_receivers.insert(
                delegate,
                without(receivers_of(s, delegate), delegator),
            ),
            ..s
        }
    } else {
        s
    }
}

/// The state after a delegation: a lapsed delegation of the delegator is
/// dropped, the new one recorded and the delegator joins the delegate's list.
pub open spec fn delegate_vote_post(
    s: GovView,
    now: BlockNumber,
    delegator: AccountId,
    delegate: AccountId,
    expires_at: Option<BlockNumber>,
) -> GovView {
    let e = delegation_expiry(now, expires_at);
    let s0 = drop_delegation(s, delegator);
    GovView {
        vote_delegations: s0.vote_delegations.insert(
            delegator,
            VoteDelegation { delegator, delegate, created_at: now, expires_at: e, is_active: true },
        ),
        delegation_receivers: s0.delegation_receivers.insert(delegate, receivers_of(s0, delegate).push(delegator)),
        events: s0.events.push(Event::VoteDelegationCreated { delegator, delegate, expires_at: Some(e) }),
        ..s0
    }
}

/// The state after revoking `delegator`'s delegation.
pub open spec fn revoke_delegation_post(s: GovView, delegator: AccountId) -> GovView {
    let delegate = s.vote_delegations[delegator].delegate;
    let s0 = drop_delegation(s, delegator);
    GovView { events: s0.events.push(Event::VoteDelegationRevoked { delegator, delegate }), ..s0 }
}

impl Pallet {
    /// The delegate's list of delegators once `delegator`'s own delegation is
    /// dropped.
    fn receivers_after_drop(&self, delegator: AccountId, delegate: AccountId) -> (v: Vec<AccountId>)
        ensures
            v@ == receivers_of(drop_delegation(self@, delegator), delegate),
    {
        let cur: Vec<AccountId> = match self.delegation_receivers.get(&delegate) {
            Some(q) => copy_vec(q),
            None => Vec::new(),
        };
        match self.vote_delegations.get(&delegator) {
            Some(d) => {
                if d.delegate == delegate {
                    copy_without(&cur, delegator)
                } else {
                    cur
                }
            },
            None => cur,
        }
    }

    /// Drops `delegator`'s delegation, if it has one.
    fn drop_delegation_of(&mut self, delegator: AccountId)
        ensures
            final(self)@ == drop_delegation(old(self)@, delegator),
    {
        let ghost s0 = self@;
        let held = match self.vote_delegations.get(&delegator) {
            Some(d) => Some(d.delegate),
            None => None,
        };
        match held {
            Some(delegate) => {
                let kept: Vec<AccountId> = match self.delegation_receivers.get(&delegate) {
                    Some(q) => copy_without(q, delegator),
                    None => {
                        assert(without(Seq::<AccountId>::empty(), delegator) =~= Seq::<AccountId>::empty());
                        Vec::new()
                    },
                };
                self.vote_delegations.remove(&delegator);
                self.delegation_receivers.insert(delegate, kept);
                proof {
                    assert(self@ =~= drop_delegation(s0, delegator));
                }
            },
            None => {},
        }
    }

    /// Delegates the signer's voting power to `delegate` until `expires_at`
    /// (one year by default). A delegation of the signer that is no longer
    /// active gives way to the new one.
    pub fn delegate_vote(
        &mut self,
        now: BlockNumber,
        origin: Origin,
        delegator_compliant: bool,
        delegate_compliant: bool,
        delegate: AccountId,
        expires_at: Option<BlockNumber>,
    ) -> (r: Result<(), Error>)
        ensures
            r == (match delegate_vote_error(
                old(self)@,
                now,
                origin,
                delegator_compliant,
                delegate_compliant,
                delegate,
            ) {
                Some(e) => Err(e),
                None => Ok(()),
            }),
            r is Err ==> final(self)@ == old(self)@,
            r is Ok ==> final(self)@ == delegate_vote_post(
                old(self)@,
                now,
                signer_of(origin).unwrap(),
                delegate,
                expires_at,
            ),
    {
        let delegator = match origin {
            Origin::Signed(w) => w,
            _ => return Err(Error::BadOrigin),
        };
        if !delegator_compliant || !delegate_compliant {
            return Err(Error::InsufficientCompliance);
        }
        if delegator == delegate {
            return Err(Error::CannotDelegateToSelf);
        }
        if self.is_delegation_active(delegator, now) {
            return Err(Error::DelegationAlreadyExists);
        }
        let mut receivers = self.receivers_after_drop(delegator, delegate);
        if receivers.len() >= MAX_DELEGATION_RECEIVERS {
            return Err(Error::TooManyDelegators);
        }
        let ghost s_in = self@;
        self.drop_delegation_of(delegator);
        let ghost s0 = self@;
        let expires = match expires_at {
            Some(e) => e,
            None => now.saturating_add(BLOCKS_PER_YEAR as u64),
        };
        self.vote_delegations.insert(
            delegator,
            VoteDelegation { delegator, delegate, created_at: now, expires_at: expires, is_active: true },
        );
        receivers.push(delegator);
        self.delegation_receivers.insert(delegate, receivers);
        self.events.push(Event::VoteDelegationCreated { delegator, delegate, expires_at: Some(expires) });
        proof {
            assert(self@ =~= delegate_vote_post(s_in, now, delegator, delegate, expires_at));
        }
        Ok(())
    }

    /// Revokes the signer's delegation.
    pub fn revoke_delegation(&mut self, origin: Origin) -> (r: Result<(), Error>)
        ensures
            signer_of(origin) is None ==> r == Err::<(), Error>(Error::BadOrigin) && final(self)@ == old(
                self,
            )@,
            signer_of(origin) is Some && !old(self)@.vote_delegations.contains_key(signer_of(origin).unwrap())
                ==> r == Err::<(), Error>(Error::NoDelegationFound) && final(self)@ == old(self)@,
            signer_of(origin) is Some && old(self)@.vote_delegations.contains_key(signer_of(origin).unwrap())
                ==> r is Ok && final(self)@ == revoke_delegation_post(old(self)@, signer_of(origin).unwrap()),
    {
        let delegator = match origin {
            Origin::Signed(w) => w,
            _ => return Err(Error::BadOrigin),
        };
        let delegate = match self.vote_delegations.get(&delegator) {
            Some(d) => d.delegate,
            None => return Err(Error::NoDelegationFound),
        };
        let ghost s_in = self@;
        self.drop_delegation_of(delegator);
        self.events.push(Event::VoteDelegationRevoked { delegator, delegate });
        proof {
            assert(self@ =~= revoke_delegation_post(s_in, delegator));
        }
        Ok(())
    }

    /// The signer's delegation, if any.
    pub fn get_delegation_info(&self, delegator: AccountId) -> (d: Option<VoteDelegation>)
        ensures
            d == (if self@.vote_delegations.contains_key(delegator) {
                Some(self@.vote_delegations[delegator])
            } else {
                None
            }),
    {
        match self.vote_delegations.get(&delegator) {
            Some(d) => Some(*d),
            None => None,
        }
    }

    /// Number of accounts that have delegated to `delegate`.
    pub fn count_delegated_votes(&self, delegate: AccountId) -> (n: u32)
        ensures
            n == receivers_of(self@, delegate).len() as u32,
    {
        match self.delegation_receivers.get(&delegate) {
            Some(q) => q.len() as u32,
            None => 0,
        }
    }
}

} // verus!
