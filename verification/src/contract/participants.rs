//! Participant registration, roles, locations and statistics.
use vstd::prelude::*;

use super::{ContractError, ContractState, Participant, ParticipantInfo, ScavengerContract};
use crate::types::{ParticipantRole, RecyclingStats};
use crate::AccountId;

verus! {

broadcast use vstd::std_specs::hash::group_hash_axioms;

/// The value stored under `k`, if any.
pub open spec fn lookup<K, V>(m: Map<K, V>, k: K) -> Option<V> {
    if m.contains_key(k) {
        Some(m[k])
    } else {
        None
    }
}

/// The record of a newly registered participant.
pub open spec fn new_participant(
    address: AccountId,
    role: ParticipantRole,
    name: String,
    latitude: i128,
    longitude: i128,
    now: u64,
) -> Participant {
    Participant {
        address,
        role,
        name,
        latitude,
        longitude,
        is_registered: true,
        total_waste_processed: 0,
        total_tokens_earned: 0,
        registered_at: now,
    }
}

/// The refusal, if any, of an action restricted to registered participants.
pub open spec fn registration_refusal(s: ContractState, a: AccountId) -> Option<ContractError> {
    if !s.participants.contains_key(a) {
        Some(ContractError::ParticipantNotFound)
    } else if !s.participants[a].is_registered {
        Some(ContractError::ParticipantNotRegistered)
    } else {
        None
    }
}

/// The refusal, if any, of adding `weight` grams and `tokens` tokens to the
/// totals of participant `a` (nothing is added for an unknown participant).
pub open spec fn participant_stats_refusal(
    s: ContractState,
    a: AccountId,
    weight: u64,
    tokens: u64,
) -> Option<ContractError> {
    if !s.participants.contains_key(a) {
        None
    } else if s.participants[a].total_waste_processed + weight > u128::MAX {
        Some(ContractError::WasteProcessedOverflow)
    } else if s.participants[a].total_tokens_earned + tokens > u128::MAX {
        Some(ContractError::TokensEarnedOverflow)
    } else if tokens > 0 && s.total_tokens + tokens > u128::MAX {
        Some(ContractError::TotalTokensOverflow)
    } else {
        None
    }
}

/// The state after adding `weight` grams and `tokens` tokens to the totals
/// of participant `a`, and the tokens to the global token total.
pub open spec fn after_participant_stats(
    s: ContractState,
    a: AccountId,
    weight: u64,
    tokens: u64,
) -> ContractState {
    if !s.participants.contains_key(a) {
        s
    } else {
        ContractState {
            participants: s.participants.insert(
                a,
                Participant {
                    total_waste_processed: (s.participants[a].total_waste_processed
                        + weight) as u128,
                    total_tokens_earned: (s.participants[a].total_tokens_earned + tokens) as u128,
                    ..s.participants[a]
                },
            ),
            total_tokens: (s.total_tokens + tokens) as u128,
            ..s
        }
    }
}

/// Valid routes: Recycler -> Collector, Recycler -> Manufacturer,
/// Collector -> Manufacturer.
pub open spec fn valid_route(from: ParticipantRole, to: ParticipantRole) -> bool {
    (from == ParticipantRole::Recycler && to == ParticipantRole::Collector) || (from
        == ParticipantRole::Recycler && to == ParticipantRole::Manufacturer) || (from
        == ParticipantRole::Collector && to == ParticipantRole::Manufacturer)
}

/// Both participants are stored, registered, and the route between their
/// roles is valid.
pub open spec fn transfer_allowed(s: ContractState, from: AccountId, to: AccountId) -> bool {
    &&& s.participants.contains_key(from)
    &&& s.participants.contains_key(to)
    &&& s.participants[from].is_registered
    &&& s.participants[to].is_registered
    &&& valid_route(s.participants[from].role, s.participants[to].role)
}

impl ScavengerContract {
    /// Check if a participant is registered (has a stored record)
    pub fn is_participant_registered(&self, address: AccountId) -> (r: bool)
        ensures
            r == self@.participants.contains_key(address),
    {
        self.participants.contains_key(&address)
    }

    /// Register a new participant with a specific role
    /// Prevents duplicate registrations
    pub fn register_participant(
        &mut self,
        address: AccountId,
        role: ParticipantRole,
        name: String,
        latitude: i128,
        longitude: i128,
        now: u64,
    ) -> (r: Result<Participant, ContractError>)
        ensures
            old(self)@.participants.contains_key(address) ==> r == Err::<
                Participant,
                ContractError,
            >(ContractError::ParticipantAlreadyRegistered) && final(self)@ == old(self)@,
            !old(self)@.participants.contains_key(address) ==> r == Ok::<
                Participant,
                ContractError,
            >(new_participant(address, role, name, latitude, longitude, now)) && final(self)@
                == (ContractState {
                participants: old(self)@.participants.insert(
                    address,
                    new_participant(address, role, name, latitude, longitude, now),
                ),
                ..old(self)@
            }),
            r matches Ok(p) ==> p.address == address && p.role == role && p.name == name
                && p.latitude == latitude && p.longitude == longitude && p.registered_at == now,
    {
        if self.participants.contains_key(&address) {
            return Err(ContractError::ParticipantAlreadyRegistered);
        }
        let participant = Participant {
            address,
            role,
            name,
            latitude,
            longitude,
            is_registered: true,
            total_waste_processed: 0,
            total_tokens_earned: 0,
            registered_at: now,
        };
        self.participants.insert(address, participant.duplicate());
        Ok(participant)
    }

    /// Update participant statistics after processing waste
    /// Uses checked arithmetic to prevent overflow
    pub fn update_participant_stats(
        &mut self,
        address: AccountId,
        waste_weight: u64,
        tokens_earned: u64,
    ) -> (r: Result<(), ContractError>)
        ensures
            r == (match participant_stats_refusal(old(self)@, address, waste_weight, tokens_earned) {
                Some(e) => Err(e),
                None => Ok(()),
            }),
            r is Ok ==> final(self)@ == after_participant_stats(
                old(self)@,
                address,
                waste_weight,
                tokens_earned,
            ),
            r is Err ==> final(self)@ == old(self)@,
    {
        let p = match self.participants.get(&address) {
            Some(p) => p.duplicate(),
            None => {
                return Ok(());
            },
        };
        if p.total_waste_processed > u128::MAX - waste_weight as u128 {
            return Err(ContractError::WasteProcessedOverflow);
        }
        if p.total_tokens_earned > u128::MAX - tokens_earned as u128 {
            return Err(ContractError::TokensEarnedOverflow);
        }
        if tokens_earned > 0 && self.total_tokens > u128::MAX - tokens_earned as u128 {
            return Err(ContractError::TotalTokensOverflow);
        }
        let updated = Participant {
            total_waste_processed: p.total_waste_processed + waste_weight as u128,
            total_tokens_earned: p.total_tokens_earned + tokens_earned as u128,
            ..p
        };
        self.participants.insert(address, updated);
        if tokens_earned > 0 {
            self.total_tokens = self.total_tokens + tokens_earned as u128;
        }
        Ok(())
    }

    /// Validate that a participant is registered before allowing restricted actions
    pub fn require_registered(&self, address: AccountId) -> (r: Result<(), ContractError>)
        ensures
            r == (match registration_refusal(self@, address) {
                Some(e) => Err(e),
                None => Ok(()),
            }),
    {
        match self.participants.get(&address) {
            Some(p) => if p.is_registered {
                Ok(())
            } else {
                Err(ContractError::ParticipantNotRegistered)
            },
            None => Err(ContractError::ParticipantNotFound),
        }
    }

    /// Get participant information
    pub fn get_participant(&self, address: AccountId) -> (r: Option<Participant>)
        ensures
            r == lookup(self@.participants, address),
    {
        match self.participants.get(&address) {
            Some(p) => Some(p.duplicate()),
            None => None,
        }
    }

    /// Get recycling statistics for a participant
    pub fn get_stats(&self, participant: AccountId) -> (r: Option<RecyclingStats>)
        ensures
            r == lookup(self@.stats, participant),
    {
        match self.stats.get(&participant) {
            Some(s) => Some(*s),
            None => None,
        }
    }

    /// Get participant information with current statistics
    /// Returns participant details along with their recycling statistics
    /// (empty statistics when none were recorded)
    /// Returns None if participant is not registered
    pub fn get_participant_info(&self, address: AccountId) -> (r: Option<ParticipantInfo>)
        ensures
            !self@.participants.contains_key(address) ==> r is None,
            self@.participants.contains_key(address) ==> r == Some(
                ParticipantInfo {
                    participant: self@.participants[address],
                    stats: if self@.stats.contains_key(address) {
                        self@.stats[address]
                    } else {
                        RecyclingStats {
                            participant: address,
                            total_submissions: 0,
                            verified_submissions: 0,
                            total_weight: 0,
                            total_points: 0,
                        }
                    },
                },
            ),
    {
        let participant = match self.get_participant(address) {
            Some(p) => p,
            None => {
                return None;
            },
        };
        let stats = match self.get_stats(address) {
            Some(s) => s,
            None => RecyclingStats::new(address),
        };
        Some(ParticipantInfo { participant, stats })
    }

    /// Update participant role
    /// Preserves registration timestamp and other data
    pub fn update_role(&mut self, address: AccountId, new_role: ParticipantRole) -> (r: Result<
        Participant,
        ContractError,
    >)
        ensures
            r is Err ==> r == Err::<Participant, ContractError>(
                registration_refusal(old(self)@, address)->0,
            ) && final(self)@ == old(self)@,
            registration_refusal(old(self)@, address) is Some ==> r is Err,
            registration_refusal(old(self)@, address) is None ==> {
                let p = Participant { role: new_role, ..old(self)@.participants[address] };
                &&& r == Ok::<Participant, ContractError>(p)
                &&& final(self)@ == (ContractState {
                    participants: old(self)@.participants.insert(address, p),
                    ..old(self)@
                })
            },
    {
        let mut participant = match self.participants.get(&address) {
            Some(p) => p.duplicate(),
            None => {
                return Err(ContractError::ParticipantNotFound);
            },
        };
        if !participant.is_registered {
            return Err(ContractError::ParticipantNotRegistered);
        }
        participant.role = new_role;
        self.participants.insert(address, participant.duplicate());
        Ok(participant)
    }

    /// Deregister a participant (sets is_registered to false)
    pub fn deregister_participant(&mut self, address: AccountId) -> (r: Result<
        Participant,
        ContractError,
    >)
        ensures
            !old(self)@.participants.contains_key(address) ==> r == Err::<
                Participant,
                ContractError,
            >(ContractError::ParticipantNotFound) && final(self)@ == old(self)@,
            old(self)@.participants.contains_key(address) ==> {
                let p = Participant { is_registered: false, ..old(self)@.participants[address] };
                &&& r == Ok::<Participant, ContractError>(p)
                &&& final(self)@ == (ContractState {
                    participants: old(self)@.participants.insert(address, p),
                    ..old(self)@
                })
            },
    {
        let mut participant = match self.participants.get(&address) {
            Some(p) => p.duplicate(),
            None => {
                return Err(ContractError::ParticipantNotFound);
            },
        };
        participant.is_registered = false;
        self.participants.insert(address, participant.duplicate());
        Ok(participant)
    }

    /// Update participant location
    pub fn update_location(&mut self, address: AccountId, latitude: i128, longitude: i128) -> (r:
        Result<Participant, ContractError>)
        ensures
            r is Err ==> r == Err::<Participant, ContractError>(
                registration_refusal(old(self)@, address)->0,
            ) && final(self)@ == old(self)@,
            registration_refusal(old(self)@, address) is Some ==> r is Err,
            registration_refusal(old(self)@, address) is None ==> {
                let p = Participant { latitude, longitude, ..old(self)@.participants[address] };
                &&& r == Ok::<Participant, ContractError>(p)
                &&& final(self)@ == (ContractState {
                    participants: old(self)@.participants.insert(address, p),
                    ..old(self)@
                })
            },
    {
        let mut participant = match self.participants.get(&address) {
            Some(p) => p.duplicate(),
            None => {
                return Err(ContractError::ParticipantNotFound);
            },
        };
        if !participant.is_registered {
            return Err(ContractError::ParticipantNotRegistered);
        }
        participant.latitude = latitude;
        participant.longitude = longitude;
        self.participants.insert(address, participant.duplicate());
        Ok(participant)
    }

    /// Validate whether a transfer route is allowed between two participants.
    /// Valid routes:
    /// - Recycler -> Collector
    /// - Recycler -> Manufacturer
    /// - Collector -> Manufacturer
    pub fn is_valid_transfer(&self, from: AccountId, to: AccountId) -> (r: bool)
        ensures
            r == transfer_allowed(self@, from, to),
    {
        let from_p = match self.participants.get(&from) {
            Some(p) => p,
            None => {
                return false;
            },
        };
        let to_p = match self.participants.get(&to) {
            Some(p) => p,
            None => {
                return false;
            },
        };
        if !from_p.is_registered || !to_p.is_registered {
            return false;
        }
        match (from_p.role, to_p.role) {
            (ParticipantRole::Recycler, ParticipantRole::Collector) => true,
            (ParticipantRole::Recycler, ParticipantRole::Manufacturer) => true,
            (ParticipantRole::Collector, ParticipantRole::Manufacturer) => true,
            _ => false,
        }
    }

    /// Validate if a participant can perform a specific action
    pub fn can_collect(&self, address: AccountId) -> (r: bool)
        ensures
            r == (self@.participants.contains_key(address)
                && self@.participants[address].is_registered && (
            self@.participants[address].role == ParticipantRole::Recycler
                || self@.participants[address].role == ParticipantRole::Collector)),
    {
        match self.participants.get(&address) {
            Some(p) => p.is_registered && p.role.can_collect_materials(),
            None => false,
        }
    }

    /// Validate if a participants can manufacture
    pub fn can_manufacture(&self, address: AccountId) -> (r: bool)
        ensures
            r == (self@.participants.contains_key(address)
                && self@.participants[address].is_registered
                && self@.participants[address].role == ParticipantRole::Manufacturer),
    {
        match self.participants.get(&address) {
            Some(p) => p.is_registered && p.role.can_manufacture(),
            None => false,
        }
    }

    /// Convert participant role enum to a human-readable string.
    pub fn get_participant_role_string(role: ParticipantRole) -> (r: String)
        ensures
            r@ == role.name(),
    {
        role.as_str().to_string()
    }
}

} // verus!
