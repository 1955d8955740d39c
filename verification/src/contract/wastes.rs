//! Waste records with location: registration, hand-over along the supply
//! chain, third-party confirmation, deactivation and the active-weight total.
use vstd::prelude::*;

use super::admin::admin_refusal;
use super::participants::transfer_allowed;
use super::{list_at, ContractError, ContractState, ScavengerContract};
use crate::types::{ParticipantRole, Waste, WasteTransfer, WasteType};
use crate::AccountId;

verus! {

broadcast use vstd::std_specs::hash::group_hash_axioms;

/// The first `n` elements of `s` without the occurrences of `x`.
pub open spec fn without_prefix(s: Seq<u128>, x: u128, n: int) -> Seq<u128>
    decreases n,
{
    if n <= 0 || n > s.len() {
        Seq::empty()
    } else {
        let p = without_prefix(s, x, n - 1);
        if s[n - 1] != x {
            p.push(s[n - 1])
        } else {
            p
        }
    }
}

/// `s` without the occurrences of `x`, the rest in order.
pub open spec fn without(s: Seq<u128>, x: u128) -> Seq<u128> {
    without_prefix(s, x, s.len() as int)
}

/// A new active, unconfirmed waste record owned (and so far "confirmed") by `owner`.
pub open spec fn fresh_waste(
    id: u128,
    waste_type: WasteType,
    weight: u128,
    owner: AccountId,
    latitude: i128,
    longitude: i128,
    now: u64,
) -> Waste {
    Waste {
        waste_id: id,
        waste_type,
        weight,
        current_owner: owner,
        latitude,
        longitude,
        recycled_timestamp: now,
        is_active: true,
        is_confirmed: false,
        confirmer: owner,
    }
}

/// The state after storing a new waste record `w` under the next identifier
/// and listing it among its owner's wastes.
pub open spec fn after_new_waste(s: ContractState, w: Waste) -> ContractState {
    ContractState {
        waste_count: (s.waste_count + 1) as u64,
        wastes: s.wastes.insert(w.waste_id, w),
        participant_wastes: s.participant_wastes.insert(
            w.current_owner,
            list_at(s.participant_wastes, w.current_owner).push(w.waste_id),
        ),
        ..s
    }
}

/// Why `transfer_waste_v2` refuses, if it does.
pub open spec fn transfer_v2_refusal(
    s: ContractState,
    waste_id: u128,
    from: AccountId,
    to: AccountId,
) -> Option<ContractError> {
    if !s.wastes.contains_key(waste_id) {
        Some(ContractError::WasteNotFound)
    } else if s.wastes[waste_id].current_owner != from {
        Some(ContractError::CallerNotOwner)
    } else if !s.wastes[waste_id].is_active {
        Some(ContractError::TransferDeactivated)
    } else if !transfer_allowed(s, from, to) {
        Some(ContractError::InvalidTransfer)
    } else {
        None
    }
}

/// Why `transfer_collected_waste` refuses, if it does.
pub open spec fn collected_refusal(
    s: ContractState,
    collector: AccountId,
    manufacturer: AccountId,
) -> Option<ContractError> {
    if !s.participants.contains_key(collector) {
        Some(ContractError::CollectorNotRegistered)
    } else if s.participants[collector].role != ParticipantRole::Collector {
        Some(ContractError::OnlyCollectors)
    } else if !s.participants.contains_key(manufacturer) {
        Some(ContractError::ManufacturerNotRegistered)
    } else if s.participants[manufacturer].role != ParticipantRole::Manufacturer {
        Some(ContractError::RecipientNotManufacturer)
    } else if s.waste_count == u64::MAX {
        Some(ContractError::CounterOverflow)
    } else {
        None
    }
}

/// Why `confirm_waste_details` refuses, if it does.
pub open spec fn confirm_refusal(s: ContractState, waste_id: u128, confirmer: AccountId) -> Option<
    ContractError,
> {
    if !s.wastes.contains_key(waste_id) {
        Some(ContractError::WasteNotFound)
    } else if !s.wastes[waste_id].is_active {
        Some(ContractError::ConfirmDeactivated)
    } else if s.wastes[waste_id].current_owner == confirmer {
        Some(ContractError::OwnerCannotConfirm)
    } else if s.wastes[waste_id].is_confirmed {
        Some(ContractError::AlreadyConfirmed)
    } else {
        None
    }
}

/// Why `reset_waste_confirmation` refuses, if it does.
pub open spec fn reset_refusal(s: ContractState, waste_id: u128, owner: AccountId) -> Option<
    ContractError,
> {
    if !s.wastes.contains_key(waste_id) {
        Some(ContractError::WasteNotFound)
    } else if s.wastes[waste_id].current_owner != owner {
        Some(ContractError::OnlyOwnerCanReset)
    } else if !s.wastes[waste_id].is_confirmed {
        Some(ContractError::NotConfirmed)
    } else {
        None
    }
}

/// Why `deactivate_waste` refuses, if it does.
pub open spec fn deactivate_refusal(s: ContractState, waste_id: u128, admin: AccountId) -> Option<
    ContractError,
> {
    if admin_refusal(s, admin) is Some {
        admin_refusal(s, admin)
    } else if !s.wastes.contains_key(waste_id) {
        Some(ContractError::WasteNotFound)
    } else if !s.wastes[waste_id].is_active {
        Some(ContractError::AlreadyDeactivated)
    } else {
        None
    }
}

/// The weight of record `id` when it exists and is active, else 0.
pub open spec fn active_weight(wastes: Map<u128, Waste>, id: u128) -> int {
    if wastes.contains_key(id) && wastes[id].is_active {
        wastes[id].weight as int
    } else {
        0
    }
}

/// Total weight of the active records with identifiers 1..=n.
pub open spec fn active_weight_sum(wastes: Map<u128, Waste>, n: nat) -> int
    decreases n,
{
    if n == 0 {
        0
    } else {
        active_weight_sum(wastes, (n - 1) as nat) + active_weight(wastes, n as u128)
    }
}

/// The refusal met while adding up the active weights of records 1..=n in
/// order: a weight beyond u64, or a running total beyond u64.
pub open spec fn active_sum_refusal(wastes: Map<u128, Waste>, n: nat) -> Option<ContractError>
    decreases n,
{
    if n == 0 {
        None
    } else if active_sum_refusal(wastes, (n - 1) as nat) is Some {
        active_sum_refusal(wastes, (n - 1) as nat)
    } else if active_weight(wastes, n as u128) > u64::MAX {
        Some(ContractError::WasteWeightTooLarge)
    } else if active_weight_sum(wastes, n) > u64::MAX {
        Some(ContractError::ActiveWeightOverflow)
    } else {
        None
    }
}

/// The state after `transfer_waste_v2` hands record `waste_id` from `from`
/// to `to` and records the hand-over `t`.
pub open spec fn after_transfer_v2(
    s: ContractState,
    waste_id: u128,
    from: AccountId,
    to: AccountId,
    t: WasteTransfer,
) -> ContractState {
    ContractState {
        wastes: s.wastes.insert(waste_id, Waste { current_owner: to, ..s.wastes[waste_id] }),
        participant_wastes: s.participant_wastes.insert(
            from,
            without(list_at(s.participant_wastes, from), waste_id),
        ).insert(to, list_at(s.participant_wastes, to).push(waste_id)),
        transfer_history: s.transfer_history.insert(
            waste_id,
            list_at(s.transfer_history, waste_id).push(t),
        ),
        ..s
    }
}

/// The state after `transfer_collected_waste` stores the new record `w` and
/// records the hand-over `t` from the collector.
pub open spec fn after_collected(s: ContractState, w: Waste, t: WasteTransfer) -> ContractState {
    let s1 = after_new_waste(s, w);
    ContractState {
        transfer_history: s1.transfer_history.insert(
            w.waste_id,
            list_at(s1.transfer_history, w.waste_id).push(t),
        ),
        ..s1
    }
}

/// The state after `confirmer` confirms record `waste_id`.
pub open spec fn after_confirm(s: ContractState, waste_id: u128, confirmer: AccountId) -> ContractState {
    ContractState {
        wastes: s.wastes.insert(waste_id, Waste { is_confirmed: true, confirmer, ..s.wastes[waste_id] }),
        ..s
    }
}

/// The state after the owner resets the confirmation of record `waste_id`:
/// unconfirmed, the owner as confirmer.
pub open spec fn after_reset(s: ContractState, waste_id: u128) -> ContractState {
    ContractState {
        wastes: s.wastes.insert(
            waste_id,
            Waste {
                is_confirmed: false,
                confirmer: s.wastes[waste_id].current_owner,
                ..s.wastes[waste_id]
            },
        ),
        ..s
    }
}

/// The state after record `waste_id` is deactivated.
pub open spec fn after_deactivate(s: ContractState, waste_id: u128) -> ContractState {
    ContractState {
        wastes: s.wastes.insert(waste_id, Waste { is_active: false, ..s.wastes[waste_id] }),
        ..s
    }
}

/// Deactivated records stay deactivated and no record disappears.
pub open spec fn deactivation_kept(before: Map<u128, Waste>, after: Map<u128, Waste>) -> bool {
    forall|id: u128|
        #[trigger] before.contains_key(id) ==> after.contains_key(id) && (!before[id].is_active
            ==> !after[id].is_active)
}

impl ScavengerContract {
    /// Store the next waste record, owned by `owner`, and list it.
    fn store_new_waste(
        &mut self,
        waste_type: WasteType,
        weight: u128,
        owner: AccountId,
        latitude: i128,
        longitude: i128,
        now: u64,
    ) -> (id: u128)
        requires
            old(self)@.waste_count < u64::MAX,
        ensures
            id == old(self)@.waste_count + 1,
            final(self)@ == after_new_waste(
                old(self)@,
                fresh_waste(id, waste_type, weight, owner, latitude, longitude, now),
            ),
    {
        self.waste_count = self.waste_count + 1;
        let id = self.waste_count as u128;
        let waste = Waste::new(
            id,
            waste_type,
            weight,
            owner,
            latitude,
            longitude,
            now,
            true,
            false,
            owner,
        );
        self.wastes.insert(id, waste);
        let mut list = match self.participant_wastes.remove(&owner) {
            Some(l) => l,
            None => Vec::new(),
        };
        list.push(id);
        self.participant_wastes.insert(owner, list);
        assert(self@.participant_wastes =~= old(self)@.participant_wastes.insert(
            owner,
            list_at(old(self)@.participant_wastes, owner).push(id),
        ));
        id
    }

    /// Register new waste with location data; returns its identifier
    pub fn recycle_waste(
        &mut self,
        waste_type: WasteType,
        weight: u128,
        recycler: AccountId,
        latitude: i128,
        longitude: i128,
        now: u64,
    ) -> (r: Result<u128, ContractError>)
        ensures
            !old(self)@.participants.contains_key(recycler) ==> r == Err::<u128, ContractError>(
                ContractError::RecyclerNotRegistered,
            ),
            old(self)@.participants.contains_key(recycler) && old(self)@.waste_count == u64::MAX
                ==> r == Err::<u128, ContractError>(ContractError::CounterOverflow),
            old(self)@.participants.contains_key(recycler) && old(self)@.waste_count < u64::MAX
                ==> r == Ok::<u128, ContractError>((old(self)@.waste_count + 1) as u128)
                && final(self)@ == after_new_waste(
                old(self)@,
                fresh_waste(
                    (old(self)@.waste_count + 1) as u128,
                    waste_type,
                    weight,
                    recycler,
                    latitude,
                    longitude,
                    now,
                ),
            ),
            r is Err ==> final(self)@ == old(self)@,
            r matches Ok(id) ==> {
                let w = final(self)@.wastes[id];
                &&& final(self)@.wastes.contains_key(id)
                &&& w.waste_type == waste_type && w.weight == weight && w.current_owner == recycler
                &&& w.latitude == latitude && w.longitude == longitude
                &&& w.recycled_timestamp == now
            },
    {
        if !self.participants.contains_key(&recycler) {
            return Err(ContractError::RecyclerNotRegistered);
        }
        if self.waste_count == u64::MAX {
            return Err(ContractError::CounterOverflow);
        }
        let id = self.store_new_waste(waste_type, weight, recycler, latitude, longitude, now);
        Ok(id)
    }

    /// Append a transfer record to the history of a waste record.
    fn push_history(&mut self, waste_id: u128, transfer: WasteTransfer)
        ensures
            final(self)@ == (ContractState {
                transfer_history: old(self)@.transfer_history.insert(
                    waste_id,
                    list_at(old(self)@.transfer_history, waste_id).push(transfer),
                ),
                ..old(self)@
            }),
    {
        let mut history = match self.transfer_history.remove(&waste_id) {
            Some(h) => h,
            None => Vec::new(),
        };
        history.push(transfer);
        self.transfer_history.insert(waste_id, history);
        assert(self@.transfer_history =~= old(self)@.transfer_history.insert(
            waste_id,
            list_at(old(self)@.transfer_history, waste_id).push(transfer),
        ));
    }

    /// Transfer waste between participants with location tracking
    pub fn transfer_waste_v2(
        &mut self,
        waste_id: u128,
        from: AccountId,
        to: AccountId,
        latitude: i128,
        longitude: i128,
        now: u64,
    ) -> (r: Result<WasteTransfer, ContractError>)
        ensures
            transfer_v2_refusal(old(self)@, waste_id, from, to) matches Some(e) ==> r == Err::<
                WasteTransfer,
                ContractError,
            >(e),
            r is Err ==> final(self)@ == old(self)@,
            transfer_v2_refusal(old(self)@, waste_id, from, to) is None ==> r is Ok,
            r matches Ok(t) ==> {
                &&& transfer_v2_refusal(old(self)@, waste_id, from, to) is None
                &&& t == WasteTransfer {
                    waste_id,
                    from,
                    to,
                    transferred_at: now,
                    latitude,
                    longitude,
                    note: t.note,
                }
                &&& t.note@ == "transfer"@
                &&& final(self)@ == after_transfer_v2(old(self)@, waste_id, from, to, t)
            },
    {
        let mut waste = match self.wastes.get(&waste_id) {
            Some(w) => *w,
            None => {
                return Err(ContractError::WasteNotFound);
            },
        };
        if waste.current_owner != from {
            return Err(ContractError::CallerNotOwner);
        }
        if !waste.is_active {
            return Err(ContractError::TransferDeactivated);
        }
        if !self.is_valid_transfer(from, to) {
            return Err(ContractError::InvalidTransfer);
        }
        let ghost s0 = self@;
        waste.transfer_to(to);
        self.wastes.insert(waste_id, waste);
        // Remove the waste from the sender's list
        let from_list = match self.participant_wastes.remove(&from) {
            Some(l) => l,
            None => Vec::new(),
        };
        let ghost fl = from_list@;
        assert(fl == list_at(s0.participant_wastes, from));
        let mut new_from_list: Vec<u128> = Vec::new();
        for i in 0..from_list.len()
            invariant
                fl == from_list@,
                new_from_list@ == without_prefix(fl, waste_id, i as int),
        {
            if from_list[i] != waste_id {
                new_from_list.push(from_list[i]);
            }
        }
        self.participant_wastes.insert(from, new_from_list);
        // Append it to the receiver's list (from != to: the route is between two roles)
        let mut to_list = match self.participant_wastes.remove(&to) {
            Some(l) => l,
            None => Vec::new(),
        };
        to_list.push(waste_id);
        self.participant_wastes.insert(to, to_list);
        assert(self@.participant_wastes =~= s0.participant_wastes.insert(
            from,
            without(list_at(s0.participant_wastes, from), waste_id),
        ).insert(to, list_at(s0.participant_wastes, to).push(waste_id)));
        proof {
            reveal_strlit("transfer");
        }
        let transfer = WasteTransfer::new(
            waste_id,
            from,
            to,
            now,
            latitude,
            longitude,
            "transfer".to_string(),
        );
        self.push_history(waste_id, transfer.duplicate());
        Ok(transfer)
    }

    /// Transfer aggregated waste from collector to manufacturer: a new
    /// record of weight 0 owned by the manufacturer; returns its identifier
    pub fn transfer_collected_waste(
        &mut self,
        waste_type: WasteType,
        collector: AccountId,
        manufacturer: AccountId,
        latitude: i128,
        longitude: i128,
        notes: String,
        now: u64,
    ) -> (r: Result<u128, ContractError>)
        ensures
            collected_refusal(old(self)@, collector, manufacturer) matches Some(e) ==> r == Err::<
                u128,
                ContractError,
            >(e),
            r is Err ==> final(self)@ == old(self)@,
            collected_refusal(old(self)@, collector, manufacturer) is None ==> {
                let id = (old(self)@.waste_count + 1) as u128;
                &&& r == Ok::<u128, ContractError>(id)
                &&& final(self)@ == after_collected(
                    old(self)@,
                    fresh_waste(id, waste_type, 0, manufacturer, latitude, longitude, now),
                    WasteTransfer {
                        waste_id: id,
                        from: collector,
                        to: manufacturer,
                        transferred_at: now,
                        latitude,
                        longitude,
                        note: notes,
                    },
                )
            },
    {
        match self.participants.get(&collector) {
            None => {
                return Err(ContractError::CollectorNotRegistered);
            },
            Some(p) => {
                if p.role != ParticipantRole::Collector {
                    return Err(ContractError::OnlyCollectors);
                }
            },
        }
        match self.participants.get(&manufacturer) {
            None => {
                return Err(ContractError::ManufacturerNotRegistered);
            },
            Some(p) => {
                if p.role != ParticipantRole::Manufacturer {
                    return Err(ContractError::RecipientNotManufacturer);
                }
            },
        }
        if self.waste_count == u64::MAX {
            return Err(ContractError::CounterOverflow);
        }
        let id = self.store_new_waste(waste_type, 0, manufacturer, latitude, longitude, now);
        let transfer = WasteTransfer::new(
            id,
            collector,
            manufacturer,
            now,
            latitude,
            longitude,
            notes,
        );
        self.push_history(id, transfer);
        Ok(id)
    }

    /// Confirm waste details (a participant other than the owner confirms once)
    pub fn confirm_waste_details(&mut self, waste_id: u128, confirmer: AccountId) -> (r: Result<
        Waste,
        ContractError,
    >)
        ensures
            confirm_refusal(old(self)@, waste_id, confirmer) matches Some(e) ==> r == Err::<
                Waste,
                ContractError,
            >(e) && final(self)@ == old(self)@,
            confirm_refusal(old(self)@, waste_id, confirmer) is None ==> {
                let s1 = after_confirm(old(self)@, waste_id, confirmer);
                &&& r == Ok::<Waste, ContractError>(s1.wastes[waste_id])
                &&& final(self)@ == s1
            },
    {
        let mut waste = match self.wastes.get(&waste_id) {
            Some(w) => *w,
            None => {
                return Err(ContractError::WasteNotFound);
            },
        };
        if !waste.is_active {
            return Err(ContractError::ConfirmDeactivated);
        }
        if waste.current_owner == confirmer {
            return Err(ContractError::OwnerCannotConfirm);
        }
        if waste.is_confirmed {
            return Err(ContractError::AlreadyConfirmed);
        }
        waste.confirm(confirmer);
        self.wastes.insert(waste_id, waste);
        Ok(waste)
    }

    /// Reset waste confirmation status
    /// Only the waste owner can reset the confirmation
    pub fn reset_waste_confirmation(&mut self, waste_id: u128, owner: AccountId) -> (r: Result<
        Waste,
        ContractError,
    >)
        ensures
            reset_refusal(old(self)@, waste_id, owner) matches Some(e) ==> r == Err::<
                Waste,
                ContractError,
            >(e) && final(self)@ == old(self)@,
            reset_refusal(old(self)@, waste_id, owner) is None ==> {
                let s1 = after_reset(old(self)@, waste_id);
                &&& r == Ok::<Waste, ContractError>(s1.wastes[waste_id])
                &&& s1.wastes[waste_id].confirmer == owner
                &&& final(self)@ == s1
            },
    {
        let mut waste = match self.wastes.get(&waste_id) {
            Some(w) => *w,
            None => {
                return Err(ContractError::WasteNotFound);
            },
        };
        if waste.current_owner != owner {
            return Err(ContractError::OnlyOwnerCanReset);
        }
        if !waste.is_confirmed {
            return Err(ContractError::NotConfirmed);
        }
        waste.reset_confirmation();
        self.wastes.insert(waste_id, waste);
        Ok(waste)
    }

    /// Deactivate a waste record (admin only)
    /// Deactivated waste cannot be queried or reactivated
    pub fn deactivate_waste(&mut self, waste_id: u128, admin: AccountId) -> (r: Result<
        Waste,
        ContractError,
    >)
        ensures
            deactivate_refusal(old(self)@, waste_id, admin) matches Some(e) ==> r == Err::<
                Waste,
                ContractError,
            >(e) && final(self)@ == old(self)@,
            deactivate_refusal(old(self)@, waste_id, admin) is None ==> {
                let s1 = after_deactivate(old(self)@, waste_id);
                &&& r == Ok::<Waste, ContractError>(s1.wastes[waste_id])
                &&& final(self)@ == s1
            },
    {
        self.require_admin(admin)?;
        let mut waste = match self.wastes.get(&waste_id) {
            Some(w) => *w,
            None => {
                return Err(ContractError::WasteNotFound);
            },
        };
        if !waste.is_active {
            return Err(ContractError::AlreadyDeactivated);
        }
        waste.deactivate();
        self.wastes.insert(waste_id, waste);
        Ok(waste)
    }

    /// Calculate total weight for active waste entries.
    /// Iterates once across the waste ID range.
    pub fn get_total_active_waste_weight(&self) -> (r: Result<u64, ContractError>)
        ensures
            r == (match active_sum_refusal(self@.wastes, self@.waste_count as nat) {
                Some(e) => Err(e),
                None => Ok(active_weight_sum(self@.wastes, self@.waste_count as nat) as u64),
            }),
            r is Ok <==> active_weight_sum(self@.wastes, self@.waste_count as nat) <= u64::MAX,
    {
        let mut total_weight: u64 = 0;
        let total_wastes = self.waste_count;
        let mut waste_id: u64 = 0;
        while waste_id < total_wastes
            invariant
                waste_id <= total_wastes,
                total_wastes == self@.waste_count,
                active_sum_refusal(self@.wastes, waste_id as nat) is None,
                total_weight == active_weight_sum(self@.wastes, waste_id as nat),
            decreases total_wastes - waste_id,
        {
            waste_id = waste_id + 1;
            match self.wastes.get(&(waste_id as u128)) {
                Some(waste) => {
                    if waste.is_active {
                        if waste.weight > u64::MAX as u128 {
                            proof {
                                lemma_refusal_persists(
                                    self@.wastes,
                                    waste_id as nat,
                                    self@.waste_count as nat,
                                );
                                lemma_sum_monotone(
                                    self@.wastes,
                                    waste_id as nat,
                                    self@.waste_count as nat,
                                );
                            }
                            return Err(ContractError::WasteWeightTooLarge);
                        }
                        let weight = waste.weight as u64;
                        if total_weight > u64::MAX - weight {
                            proof {
                                lemma_refusal_persists(
                                    self@.wastes,
                                    waste_id as nat,
                                    self@.waste_count as nat,
                                );
                                lemma_sum_monotone(
                                    self@.wastes,
                                    waste_id as nat,
                                    self@.waste_count as nat,
                                );
                            }
                            return Err(ContractError::ActiveWeightOverflow);
                        }
                        total_weight = total_weight + weight;
                    }
                },
                None => {},
            }
        }
        Ok(total_weight)
    }

    /// Get supply chain statistics: (total waste identifiers handed out,
    /// total weight of the active waste records, total tokens earned)
    pub fn get_supply_chain_stats(&self) -> (r: Result<(u64, u64, u128), ContractError>)
        ensures
            r == (match active_sum_refusal(self@.wastes, self@.waste_count as nat) {
                Some(e) => Err(e),
                None => Ok(
                    (
                        self@.waste_count,
                        active_weight_sum(self@.wastes, self@.waste_count as nat) as u64,
                        self@.total_tokens,
                    ),
                ),
            }),
    {
        let total_wastes = self.waste_count;
        let total_weight = self.get_total_active_waste_weight()?;
        let total_tokens = self.total_tokens;
        Ok((total_wastes, total_weight, total_tokens))
    }
}

/// Once the running total has failed, the refusal stays the same for longer prefixes.
pub proof fn lemma_refusal_persists(wastes: Map<u128, Waste>, i: nat, n: nat)
    requires
        i <= n,
    ensures
        active_sum_refusal(wastes, i) is Some ==> active_sum_refusal(wastes, n)
            == active_sum_refusal(wastes, i),
    decreases n - i,
{
    if i < n {
        lemma_refusal_persists(wastes, i, (n - 1) as nat);
    }
}

/// Active weights are non-negative, so the running totals grow with the prefix.
pub proof fn lemma_sum_monotone(wastes: Map<u128, Waste>, i: nat, n: nat)
    requires
        i <= n,
    ensures
        active_weight_sum(wastes, i) <= active_weight_sum(wastes, n),
        active_weight_sum(wastes, i) >= 0,
    decreases n,
{
    if n > 0 {
        if i < n {
            lemma_sum_monotone(wastes, i, (n - 1) as nat);
        } else {
            lemma_sum_monotone(wastes, (n - 1) as nat, (n - 1) as nat);
        }
    }
}

} // verus!
