//! Jaguar Mode: declaring, vetoing and ending national emergencies.
use vstd::prelude::*;

use crate::config::Config;
use crate::events::{Error, Event, Origin};
use crate::hashing::{encode_account, le_bytes, lemma_le_bytes_len};
use crate::proposals::signer_of;
use crate::state::{GovView, Pallet};
use crate::types::{emergency_type_of, AccountId, BlockNumber, EmergencyStatus, EmergencyType};
use crate::vec_map::map_get_or;

verus! {

/// Whether an emergency is active or pending its veto window.
pub open spec fn emergency_in_force(s: GovView) -> bool {
    s.jaguar_mode is Some && (s.jaguar_mode.unwrap().active || s.jaguar_mode.unwrap().is_pending)
}

/// The declarer record of a signed origin: the SCALE bytes of the account,
/// zero-padded to 32 bytes.
pub open spec fn declarer_record(origin: Origin) -> Option<Seq<u8>> {
    match origin {
        Origin::Signed(a) => Some(le_bytes(a as nat, 8) + Seq::new(24, |i: int| 0u8)),
        _ => None,
    }
}

/// Blocks in `hours` hours at 600 blocks an hour, saturating in `u32`.
pub open spec fn hours_to_blocks(hours: u32) -> u32 {
    if 600 * hours > u32::MAX {
        u32::MAX
    } else {
        (600 * hours) as u32
    }
}

pub open spec fn declare_emergency_error(
    s: GovView,
    origin: Origin,
    council_origin: bool,
    description_len: nat,
) -> Option<Error> {
    if !(council_origin || origin == Origin::Root) {
        Some(Error::BadOrigin)
    } else if emergency_in_force(s) {
        Some(Error::EmergencyAlreadyActive)
    } else if description_len > 256 {
        Some(Error::DescriptionTooLong)
    } else {
        None
    }
}

/// The state after a declaration: the emergency waits, pending, for its
/// veto window; earlier vetoes are cleared.
pub open spec fn declare_emergency_post(
    s: GovView,
    cfg: Config,
    now: BlockNumber,
    emergency_type_index: u8,
    description: Vec<u8>,
    duration_hours: u32,
    declared_by: Option<[u8; 32]>,
    event_description: Vec<u8>,
) -> GovView {
    let veto_end = (now + cfg.emergency_veto_window) as u64;
    GovView {
        jaguar_mode: Some(
            EmergencyStatus {
                active: false,
                emergency_type: emergency_type_of(emergency_type_index),
                description,
                declared_at: now,
                expires_at: Some((now + hours_to_blocks(duration_hours)) as u64),
                declared_by,
                is_pending: true,
                veto_window_ends_at: Some(veto_end),
            },
        ),
        emergency_vetoes: Map::empty(),
        events: s.events.push(
            Event::EmergencyPendingActivation {
                emergency_type_index,
                description: event_description,
                veto_window_ends_at: veto_end,
            },
        ),
        ..s
    }
}

/// The description carried by the last event, where it is a pending
/// emergency.
pub open spec fn pending_description(evs: Seq<Event>) -> Vec<u8> {
    match evs.last() {
        Event::EmergencyPendingActivation { description, .. } => description,
        _ => arbitrary(),
    }
}

pub open spec fn veto_emergency_error(s: GovView, origin: Origin) -> Option<Error> {
    if signer_of(origin) is None {
        Some(Error::BadOrigin)
    } else if !s.council_members.contains_key(signer_of(origin).unwrap()) {
        Some(Error::NotCouncilMember)
    } else if !(s.jaguar_mode is Some && s.jaguar_mode.unwrap().is_pending) {
        Some(Error::NoPendingEmergency)
    } else if s.emergency_vetoes.contains_key(signer_of(origin).unwrap()) {
        Some(Error::AlreadyVetoed)
    } else {
        None
    }
}

/// Council members counted for the veto threshold: at most
/// `max_candidates_per_election` of them.
pub open spec fn counted_council(s: GovView, cfg: Config) -> nat {
    let n = s.council_members.dom().len();
    if n < cfg.max_candidates_per_election {
        n
    } else {
        cfg.max_candidates_per_election as nat
    }
}

/// The state after a veto: more than a third of the counted council
/// vetoing cancels the pending emergency.
pub open spec fn veto_emergency_post(s: GovView, cfg: Config, now: BlockNumber, who: AccountId) -> GovView {
    let vetoes = s.emergency_vetoes.insert(who, now);
    let count = vetoes.dom().len() as u32;
    let s1 = GovView {
        emergency_vetoes: vetoes,
        events: s.events.push(Event::EmergencyVetoed { who, vetoes_so_far: count }),
        ..s
    };
    if count >= (counted_council(s, cfg) as u32) / 3 + 1 {
        GovView {
            jaguar_mode: None,
            emergency_vetoes: Map::empty(),
            events: s1.events.push(Event::JaguarModeDeactivated),
            ..s1
        }
    } else {
        s1
    }
}

impl Pallet {
    /// Declares a national emergency (council or root). It stays pending for
    /// the veto window before it becomes active.
    ///
    /// `council_origin` is whether the council origin check passed.
    pub fn declare_emergency(
        &mut self,
        cfg: &Config,
        now: BlockNumber,
        origin: Origin,
        council_origin: bool,
        emergency_type_index: u8,
        description: Vec<u8>,
        duration_hours: u32,
    ) -> (r: Result<(), Error>)
        requires
            now + cfg.emergency_veto_window <= u64::MAX,
            now + hours_to_blocks(duration_hours) <= u64::MAX,
        ensures
            r == (match declare_emergency_error(old(self)@, origin, council_origin, description@.len()) {
                Some(e) => Err(e),
                None => Ok(()),
            }),
            r is Err ==> final(self)@ == old(self)@,
            r is Ok ==> ({
                let by = final(self)@.jaguar_mode.unwrap().declared_by;
                let ed = pending_description(final(self)@.events);
                &&& ed@ == description@
                &&& (match declarer_record(origin) {
                    Some(b) => by is Some && by.unwrap()@ == b,
                    None => by is None,
                })
                &&& final(self)@ == declare_emergency_post(
                    old(self)@,
                    *cfg,
                    now,
                    emergency_type_index,
                    description,
                    duration_hours,
                    by,
                    ed,
                )
            }),
    {
        let declared_by: Option<[u8; 32]> = match origin {
            Origin::Signed(who) => {
                let encoded = encode_account(who);
                proof {
                    lemma_le_bytes_len(who as nat, 8);
                }
                let mut bytes = [0u8; 32];
                let mut i: usize = 0;
                while i < 8
                    invariant
                        i <= 8,
                        encoded@.len() == 8,
                        bytes@.len() == 32,
                        forall|j: int| 0 <= j < i ==> bytes@[j] == encoded@[j],
                        forall|j: int| 8 <= j < 32 ==> bytes@[j] == 0u8,
                    decreases 8 - i,
                {
                    bytes[i] = encoded[i];
                    i = i + 1;
                }
                proof {
                    assert(bytes@ =~= le_bytes(who as nat, 8) + Seq::new(24, |i: int| 0u8)) by {
                        assert(encoded@ == le_bytes(who as nat, 8));
                    }
                }
                Some(bytes)
            },
            _ => None,
        };
        if !(council_origin || origin == Origin::Root) {
            return Err(Error::BadOrigin);
        }
        match &self.jaguar_mode {
            Some(e) => {
                if e.active || e.is_pending {
                    return Err(Error::EmergencyAlreadyActive);
                }
            },
            None => {},
        }
        let emergency_type = EmergencyType::from_index(emergency_type_index);
        if description.len() > 256 {
            return Err(Error::DescriptionTooLong);
        }
        let ghost s0 = self@;
        let ghost desc_g = description;
        let event_description = crate::vec_map::copy_bytes(&description);
        let ghost ed_g = event_description;
        let duration_blocks = if duration_hours > u32::MAX / 600 { u32::MAX } else { 600 * duration_hours };
        let expires_at = now + duration_blocks as u64;
        let veto_window_ends = now + cfg.emergency_veto_window;
        let ghost by_g = declared_by;
        self.jaguar_mode = Some(
            EmergencyStatus {
                active: false,
                emergency_type,
                description,
                declared_at: now,
                expires_at: Some(expires_at),
                declared_by,
                is_pending: true,
                veto_window_ends_at: Some(veto_window_ends),
            },
        );
        self.emergency_vetoes.clear();
        self.events.push(
            Event::EmergencyPendingActivation {
                emergency_type_index,
                description: event_description,
                veto_window_ends_at: veto_window_ends,
            },
        );
        proof {
            assert(self@ =~= declare_emergency_post(
                s0,
                *cfg,
                now,
                emergency_type_index,
                desc_g,
                duration_hours,
                by_g,
                ed_g,
            ));
        }
        Ok(())
    }

    /// Ends an active or pending emergency (council or root).
    pub fn end_emergency(&mut self, origin: Origin, council_origin: bool) -> (r: Result<(), Error>)
        ensures
            !(council_origin || origin == Origin::Root) ==> r == Err::<(), Error>(Error::BadOrigin),
            (council_origin || origin == Origin::Root) && !emergency_in_force(old(self)@) ==> r == Err::<
                (),
                Error,
            >(Error::NoActiveEmergency),
            (council_origin || origin == Origin::Root) && emergency_in_force(old(self)@) ==> r is Ok,
            r is Err ==> final(self)@ == old(self)@,
            r is Ok ==> final(self)@ == (GovView {
                jaguar_mode: None,
                emergency_vetoes: Map::empty(),
                events: old(self)@.events.push(Event::JaguarModeDeactivated),
                ..old(self)@
            }),
    {
        if !(council_origin || origin == Origin::Root) {
            return Err(Error::BadOrigin);
        }
        let in_force = match &self.jaguar_mode {
            Some(e) => e.active || e.is_pending,
            None => false,
        };
        if !in_force {
            return Err(Error::NoActiveEmergency);
        }
        self.jaguar_mode = None;
        self.emergency_vetoes.clear();
        self.events.push(Event::JaguarModeDeactivated);
        Ok(())
    }

    /// Number of council members, counting at most
    /// `max_candidates_per_election`.
    pub fn council_size(&self, cfg: &Config) -> (n: u32)
        ensures
            n == counted_council(self@, *cfg),
    {
        proof {
            use_type_invariant(&self.council_members);
            self.council_members.lemma_keys();
        }
        let n = self.council_members.len();
        if n < cfg.max_candidates_per_election as usize {
            n as u32
        } else {
            cfg.max_candidates_per_election
        }
    }

    /// A council member's veto of the pending emergency; enough vetoes
    /// cancel it.
    pub fn veto_emergency(&mut self, cfg: &Config, now: BlockNumber, origin: Origin) -> (r: Result<(), Error>)
        ensures
            r == (match veto_emergency_error(old(self)@, origin) {
                Some(e) => Err(e),
                None => Ok(()),
            }),
            r is Err ==> final(self)@ == old(self)@,
            r is Ok ==> final(self)@ == veto_emergency_post(old(self)@, *cfg, now, signer_of(origin).unwrap()),
    {
        let who = match origin {
            Origin::Signed(w) => w,
            _ => return Err(Error::BadOrigin),
        };
        if !self.council_members.contains_key(&who) {
            return Err(Error::NotCouncilMember);
        }
        let pending = match &self.jaguar_mode {
            Some(e) => e.is_pending,
            None => false,
        };
        if !pending {
            return Err(Error::NoPendingEmergency);
        }
        if self.emergency_vetoes.contains_key(&who) {
            return Err(Error::AlreadyVetoed);
        }
        let ghost s0 = self@;
        let council_count = self.council_size(cfg);
        self.emergency_vetoes.insert(who, now);
        proof {
            use_type_invariant(&self.emergency_vetoes);
            self.emergency_vetoes.lemma_keys();
        }
        let veto_count = self.emergency_vetoes.len() as u32;
        self.events.push(Event::EmergencyVetoed { who, vetoes_so_far: veto_count });
        let threshold = council_count / 3 + 1;
        if veto_count >= threshold {
            self.jaguar_mode = None;
            self.emergency_vetoes.clear();
            self.events.push(Event::JaguarModeDeactivated);
        }
        proof {
            assert(self@ =~= veto_emergency_post(s0, *cfg, now, who));
        }
        Ok(())
    }
}

} // verus!
