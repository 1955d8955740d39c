//! What the rewards contract keeps, and its accessors.
use std::collections::HashMap;
use vstd::prelude::*;

use super::errors::ScavengerError;
use super::types::{Incentive, Material, Participant, ParticipantStats, WasteTransfer, WasteType};
use crate::contract::list_at;
use crate::contract::participants::lookup;
use crate::AccountId;

verus! {

broadcast use vstd::std_specs::hash::group_hash_axioms;

/// Everything the rewards contract keeps in storage.
pub struct Storage {
    pub admin: Option<AccountId>,
    pub token_address: Option<AccountId>,
    pub charity_address: Option<AccountId>,
    pub collector_percentage: Option<u32>,
    pub owner_percentage: Option<u32>,
    /// Total tokens distributed as rewards.
    pub total_earned: i128,
    /// Total weight of the submitted materials (grams).
    pub total_weight: u64,
    /// Number of incentive identifiers handed out.
    pub incentive_counter: u64,
    /// Number of material identifiers handed out.
    pub material_counter: u64,
    pub participants: HashMap<AccountId, Participant>,
    pub incentives: HashMap<u64, Incentive>,
    /// Incentive identifiers by manufacturer, oldest first.
    pub rewarder_incentives: HashMap<AccountId, Vec<u64>>,
    /// Incentive identifiers by waste type number, oldest first.
    pub waste_type_incentives: HashMap<u32, Vec<u64>>,
    pub materials: HashMap<u64, Material>,
    /// Transfers of each material, oldest first.
    pub transfers: HashMap<u64, Vec<WasteTransfer>>,
    pub stats: HashMap<AccountId, ParticipantStats>,
}

/// The mathematical content of a `Storage`.
#[verifier::ext_equal]
pub struct StorageState {
    pub admin: Option<AccountId>,
    pub token_address: Option<AccountId>,
    pub charity_address: Option<AccountId>,
    pub collector_percentage: Option<u32>,
    pub owner_percentage: Option<u32>,
    pub total_earned: i128,
    pub total_weight: u64,
    pub incentive_counter: u64,
    pub material_counter: u64,
    pub participants: Map<AccountId, Participant>,
    pub incentives: Map<u64, Incentive>,
    pub rewarder_incentives: Map<AccountId, Seq<u64>>,
    pub waste_type_incentives: Map<u32, Seq<u64>>,
    pub materials: Map<u64, Material>,
    pub transfers: Map<u64, Seq<WasteTransfer>>,
    pub stats: Map<AccountId, ParticipantStats>,
}

impl View for Storage {
    type V = StorageState;

    open spec fn view(&self) -> StorageState {
        StorageState {
            admin: self.admin,
            token_address: self.token_address,
            charity_address: self.charity_address,
            collector_percentage: self.collector_percentage,
            owner_percentage: self.owner_percentage,
            total_earned: self.total_earned,
            total_weight: self.total_weight,
            incentive_counter: self.incentive_counter,
            material_counter: self.material_counter,
            participants: self.participants@,
            incentives: self.incentives@,
            rewarder_incentives: self.rewarder_incentives@.map_values(|v: Vec<u64>| v@),
            waste_type_incentives: self.waste_type_incentives@.map_values(|v: Vec<u64>| v@),
            materials: self.materials@,
            transfers: self.transfers@.map_values(|v: Vec<WasteTransfer>| v@),
            stats: self.stats@,
        }
    }
}

impl StorageState {
    /// Nothing stored.
    pub open spec fn empty() -> StorageState {
        StorageState {
            admin: None,
            token_address: None,
            charity_address: None,
            collector_percentage: None,
            owner_percentage: None,
            total_earned: 0,
            total_weight: 0,
            incentive_counter: 0,
            material_counter: 0,
            participants: Map::empty(),
            incentives: Map::empty(),
            rewarder_incentives: Map::empty(),
            waste_type_incentives: Map::empty(),
            materials: Map::empty(),
            transfers: Map::empty(),
            stats: Map::empty(),
        }
    }

    /// The statistics of `a`, empty ones when none are stored.
    pub open spec fn stats_of(self, a: AccountId) -> ParticipantStats {
        if self.stats.contains_key(a) {
            self.stats[a]
        } else {
            ParticipantStats {
                address: a,
                total_earned: 0,
                materials_submitted: 0,
                transfers_count: 0,
            }
        }
    }
}

impl Storage {
    /// Empty storage.
    pub fn new() -> (s: Self)
        ensures
            s@ == StorageState::empty(),
    {
        Storage {
            admin: None,
            token_address: None,
            charity_address: None,
            collector_percentage: None,
            owner_percentage: None,
            total_earned: 0,
            total_weight: 0,
            incentive_counter: 0,
            material_counter: 0,
            participants: HashMap::new(),
            incentives: HashMap::new(),
            rewarder_incentives: HashMap::new(),
            waste_type_incentives: HashMap::new(),
            materials: HashMap::new(),
            transfers: HashMap::new(),
            stats: HashMap::new(),
        }
    }

    /// A copy of the whole storage.
    pub fn snapshot(&self) -> (r: Self)
        ensures
            r@ == self@,
    {
        Storage {
            admin: self.admin,
            token_address: self.token_address,
            charity_address: self.charity_address,
            collector_percentage: self.collector_percentage,
            owner_percentage: self.owner_percentage,
            total_earned: self.total_earned,
            total_weight: self.total_weight,
            incentive_counter: self.incentive_counter,
            material_counter: self.material_counter,
            participants: self.participants.clone(),
            incentives: self.incentives.clone(),
            rewarder_incentives: self.rewarder_incentives.clone(),
            waste_type_incentives: self.waste_type_incentives.clone(),
            materials: self.materials.clone(),
            transfers: self.transfers.clone(),
            stats: self.stats.clone(),
        }
    }

    // Admin functions
    pub fn get_admin(&self) -> (r: Option<AccountId>)
        ensures
            r == self@.admin,
    {
        self.admin
    }

    pub fn set_admin(&mut self, admin: AccountId)
        ensures
            final(self)@ == (StorageState { admin: Some(admin), ..old(self)@ }),
    {
        self.admin = Some(admin);
    }

    pub fn has_admin(&self) -> (r: bool)
        ensures
            r == self@.admin is Some,
    {
        self.admin.is_some()
    }

    // Token address functions
    pub fn get_token_address(&self) -> (r: Option<AccountId>)
        ensures
            r == self@.token_address,
    {
        self.token_address
    }

    pub fn set_token_address(&mut self, address: AccountId)
        ensures
            final(self)@ == (StorageState { token_address: Some(address), ..old(self)@ }),
    {
        self.token_address = Some(address);
    }

    // Charity address functions
    pub fn get_charity_address(&self) -> (r: Option<AccountId>)
        ensures
            r == self@.charity_address,
    {
        self.charity_address
    }

    pub fn set_charity_address(&mut self, address: AccountId)
        ensures
            final(self)@ == (StorageState { charity_address: Some(address), ..old(self)@ }),
    {
        self.charity_address = Some(address);
    }

    // Collector percentage functions
    pub fn get_collector_percentage(&self) -> (r: Option<u32>)
        ensures
            r == self@.collector_percentage,
    {
        self.collector_percentage
    }

    pub fn set_collector_percentage(&mut self, percentage: u32)
        ensures
            final(self)@ == (StorageState { collector_percentage: Some(percentage), ..old(self)@ }),
    {
        self.collector_percentage = Some(percentage);
    }

    // Owner percentage functions
    pub fn get_owner_percentage(&self) -> (r: Option<u32>)
        ensures
            r == self@.owner_percentage,
    {
        self.owner_percentage
    }

    pub fn set_owner_percentage(&mut self, percentage: u32)
        ensures
            final(self)@ == (StorageState { owner_percentage: Some(percentage), ..old(self)@ }),
    {
        self.owner_percentage = Some(percentage);
    }

    // Total tokens earned functions
    pub fn get_total_earned(&self) -> (r: i128)
        ensures
            r == self@.total_earned,
    {
        self.total_earned
    }

    pub fn set_total_earned(&mut self, amount: i128)
        ensures
            final(self)@ == (StorageState { total_earned: amount, ..old(self)@ }),
    {
        self.total_earned = amount;
    }

    pub fn add_to_total_earned(&mut self, amount: i128) -> (r: Result<(), ScavengerError>)
        ensures
            (i128::MIN <= old(self)@.total_earned + amount <= i128::MAX) ==> r is Ok && final(self)@ == (StorageState {
                total_earned: (old(self)@.total_earned + amount) as i128,
                ..old(self)@
            }),
            !(i128::MIN <= old(self)@.total_earned + amount <= i128::MAX) ==> r == Err::<
                (),
                ScavengerError,
            >(ScavengerError::ArithmeticOverflow) && final(self)@ == old(self)@,
    {
        match self.total_earned.checked_add(amount) {
            Some(v) => {
                self.total_earned = v;
                Ok(())
            },
            None => Err(ScavengerError::ArithmeticOverflow),
        }
    }

    // Total weight functions
    pub fn get_total_weight(&self) -> (r: u64)
        ensures
            r == self@.total_weight,
    {
        self.total_weight
    }

    pub fn add_to_total_weight(&mut self, weight: u64) -> (r: Result<(), ScavengerError>)
        ensures
            old(self)@.total_weight + weight <= u64::MAX ==> r is Ok && final(self)@ == (
            StorageState { total_weight: (old(self)@.total_weight + weight) as u64, ..old(self)@ }),
            old(self)@.total_weight + weight > u64::MAX ==> r == Err::<(), ScavengerError>(
                ScavengerError::ArithmeticOverflow,
            ) && final(self)@ == old(self)@,
    {
        if self.total_weight > u64::MAX - weight {
            return Err(ScavengerError::ArithmeticOverflow);
        }
        self.total_weight = self.total_weight + weight;
        Ok(())
    }

    // Participant functions
    pub fn get_participant(&self, address: AccountId) -> (r: Option<Participant>)
        ensures
            r == lookup(self@.participants, address),
    {
        match self.participants.get(&address) {
            Some(p) => Some(p.duplicate()),
            None => None,
        }
    }

    pub fn set_participant(&mut self, address: AccountId, participant: Participant)
        ensures
            final(self)@ == (StorageState {
                participants: old(self)@.participants.insert(address, participant),
                ..old(self)@
            }),
    {
        self.participants.insert(address, participant);
    }

    pub fn is_participant_registered(&self, address: AccountId) -> (r: bool)
        ensures
            r == self@.participants.contains_key(address),
    {
        self.participants.contains_key(&address)
    }

    // Incentive counter functions
    pub fn next_incentive_id(&mut self) -> (r: Result<u64, ScavengerError>)
        ensures
            old(self)@.incentive_counter < u64::MAX ==> r == Ok::<u64, ScavengerError>(
                (old(self)@.incentive_counter + 1) as u64,
            ) && final(self)@ == (StorageState {
                incentive_counter: (old(self)@.incentive_counter + 1) as u64,
                ..old(self)@
            }),
            old(self)@.incentive_counter == u64::MAX ==> r == Err::<u64, ScavengerError>(
                ScavengerError::ArithmeticOverflow,
            ) && final(self)@ == old(self)@,
    {
        if self.incentive_counter == u64::MAX {
            return Err(ScavengerError::ArithmeticOverflow);
        }
        self.incentive_counter = self.incentive_counter + 1;
        Ok(self.incentive_counter)
    }

    // Incentive storage functions
    pub fn set_incentive(&mut self, incentive_id: u64, incentive: Incentive)
        ensures
            final(self)@ == (StorageState {
                incentives: old(self)@.incentives.insert(incentive_id, incentive),
                ..old(self)@
            }),
    {
        self.incentives.insert(incentive_id, incentive);
    }

    pub fn get_incentive(&self, incentive_id: u64) -> (r: Option<Incentive>)
        ensures
            r == lookup(self@.incentives, incentive_id),
    {
        match self.incentives.get(&incentive_id) {
            Some(i) => Some(*i),
            None => None,
        }
    }

    pub fn incentive_exists(&self, incentive_id: u64) -> (r: bool)
        ensures
            r == self@.incentives.contains_key(incentive_id),
    {
        self.incentives.contains_key(&incentive_id)
    }

    // Rewarder incentives map (manufacturer -> incentive ids)
    pub fn add_incentive_to_rewarder(&mut self, rewarder: AccountId, incentive_id: u64)
        ensures
            final(self)@ == (StorageState {
                rewarder_incentives: old(self)@.rewarder_incentives.insert(
                    rewarder,
                    list_at(old(self)@.rewarder_incentives, rewarder).push(incentive_id),
                ),
                ..old(self)@
            }),
    {
        let mut incentives = match self.rewarder_incentives.remove(&rewarder) {
            Some(l) => l,
            None => Vec::new(),
        };
        incentives.push(incentive_id);
        self.rewarder_incentives.insert(rewarder, incentives);
        assert(self@.rewarder_incentives =~= old(self)@.rewarder_incentives.insert(
            rewarder,
            list_at(old(self)@.rewarder_incentives, rewarder).push(incentive_id),
        ));
    }

    pub fn get_incentives_by_rewarder(&self, rewarder: AccountId) -> (r: Vec<u64>)
        ensures
            r@ == list_at(self@.rewarder_incentives, rewarder),
    {
        match self.rewarder_incentives.get(&rewarder) {
            Some(v) => v.clone(),
            None => Vec::new(),
        }
    }

    // General incentives map (waste type -> incentive ids)
    pub fn add_incentive_to_waste_type(&mut self, waste_type: WasteType, incentive_id: u64)
        ensures
            final(self)@ == (StorageState {
                waste_type_incentives: old(self)@.waste_type_incentives.insert(
                    waste_type.code(),
                    list_at(old(self)@.waste_type_incentives, waste_type.code()).push(
                        incentive_id,
                    ),
                ),
                ..old(self)@
            }),
    {
        let code = waste_type.to_u32();
        let mut incentives = match self.waste_type_incentives.remove(&code) {
            Some(l) => l,
            None => Vec::new(),
        };
        incentives.push(incentive_id);
        self.waste_type_incentives.insert(code, incentives);
        assert(self@.waste_type_incentives =~= old(self)@.waste_type_incentives.insert(
            code,
            list_at(old(self)@.waste_type_incentives, code).push(incentive_id),
        ));
    }

    pub fn get_incentives_by_waste_type(&self, waste_type: WasteType) -> (r: Vec<u64>)
        ensures
            r@ == list_at(self@.waste_type_incentives, waste_type.code()),
    {
        match self.waste_type_incentives.get(&waste_type.to_u32()) {
            Some(v) => v.clone(),
            None => Vec::new(),
        }
    }

    // Material functions
    pub fn next_material_id(&mut self) -> (r: Result<u64, ScavengerError>)
        ensures
            old(self)@.material_counter < u64::MAX ==> r == Ok::<u64, ScavengerError>(
                (old(self)@.material_counter + 1) as u64,
            ) && final(self)@ == (StorageState {
                material_counter: (old(self)@.material_counter + 1) as u64,
                ..old(self)@
            }),
            old(self)@.material_counter == u64::MAX ==> r == Err::<u64, ScavengerError>(
                ScavengerError::ArithmeticOverflow,
            ) && final(self)@ == old(self)@,
    {
        if self.material_counter == u64::MAX {
            return Err(ScavengerError::ArithmeticOverflow);
        }
        self.material_counter = self.material_counter + 1;
        Ok(self.material_counter)
    }

    pub fn get_material_count(&self) -> (r: u64)
        ensures
            r == self@.material_counter,
    {
        self.material_counter
    }

    pub fn set_material(&mut self, material_id: u64, material: Material)
        ensures
            final(self)@ == (StorageState {
                materials: old(self)@.materials.insert(material_id, material),
                ..old(self)@
            }),
    {
        self.materials.insert(material_id, material);
    }

    pub fn get_material(&self, material_id: u64) -> (r: Option<Material>)
        ensures
            r == lookup(self@.materials, material_id),
    {
        match self.materials.get(&material_id) {
            Some(m) => Some(*m),
            None => None,
        }
    }

    // Transfer history functions
    pub fn add_transfer(&mut self, waste_id: u64, transfer: WasteTransfer)
        ensures
            final(self)@ == (StorageState {
                transfers: old(self)@.transfers.insert(
                    waste_id,
                    list_at(old(self)@.transfers, waste_id).push(transfer),
                ),
                ..old(self)@
            }),
    {
        let mut history = match self.transfers.remove(&waste_id) {
            Some(h) => h,
            None => Vec::new(),
        };
        history.push(transfer);
        self.transfers.insert(waste_id, history);
        assert(self@.transfers =~= old(self)@.transfers.insert(
            waste_id,
            list_at(old(self)@.transfers, waste_id).push(transfer),
        ));
    }

    pub fn get_transfer_history(&self, waste_id: u64) -> (r: Vec<WasteTransfer>)
        ensures
            r@ == list_at(self@.transfers, waste_id),
    {
        match self.transfers.get(&waste_id) {
            Some(h) => {
                let mut out: Vec<WasteTransfer> = Vec::new();
                for i in 0..h.len()
                    invariant
                        out@ == h@.subrange(0, i as int),
                {
                    out.push(h[i]);
                    assert(out@ =~= h@.subrange(0, i + 1));
                }
                assert(out@ =~= h@);
                out
            },
            None => Vec::new(),
        }
    }

    // Participant statistics functions
    pub fn get_stats(&self, address: AccountId) -> (r: ParticipantStats)
        ensures
            r == self@.stats_of(address),
    {
        match self.stats.get(&address) {
            Some(s) => *s,
            None => ParticipantStats {
                address,
                total_earned: 0,
                materials_submitted: 0,
                transfers_count: 0,
            },
        }
    }

    pub fn add_earnings(&mut self, address: AccountId, amount: i128) -> (r: Result<
        (),
        ScavengerError,
    >)
        ensures
            (i128::MIN <= old(self)@.stats_of(address).total_earned + amount <= i128::MAX) ==> r is Ok
                && final(self)@ == (StorageState {
                stats: old(self)@.stats.insert(
                    address,
                    ParticipantStats {
                        total_earned: (old(self)@.stats_of(address).total_earned
                            + amount) as i128,
                        ..old(self)@.stats_of(address)
                    },
                ),
                ..old(self)@
            }),
            !(i128::MIN <= old(self)@.stats_of(address).total_earned + amount <= i128::MAX)
                ==> r == Err::<(), ScavengerError>(ScavengerError::ArithmeticOverflow) && final(self)@ == old(self)@,
    {
        let mut stats = self.get_stats(address);
        match stats.total_earned.checked_add(amount) {
            Some(v) => {
                stats.total_earned = v;
                self.stats.insert(address, stats);
                Ok(())
            },
            None => Err(ScavengerError::ArithmeticOverflow),
        }
    }
}

} // verus!
