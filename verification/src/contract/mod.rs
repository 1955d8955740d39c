//! The participant / waste / incentive contract as a verified state machine.
//!
//! `ScavengerContract` holds everything the contract keeps in storage; each
//! public method is one contract call. The caller's authorisation, the ledger
//! time and the publication of events belong to the host: a method takes the
//! time as an argument and returns what the event reports. A refused call
//! returns `Err` and leaves the state unchanged, as an aborted transaction does.
use std::collections::HashMap;
use vstd::prelude::*;

use crate::types::{Material, ParticipantRole, RecyclingStats, Waste, WasteTransfer, WasteType};
use crate::AccountId;

pub mod errors;
pub mod admin;
pub mod participants;
pub mod materials;
pub mod wastes;
pub mod incentives;
pub mod laws;

pub use errors::ContractError;

verus! {

broadcast use vstd::std_specs::hash::group_hash_axioms;

/// A registered participant of the supply chain.
#[derive(Clone, Debug, PartialEq, Eq)]
pub struct Participant {
    pub address: AccountId,
    pub role: ParticipantRole,
    pub name: String,
    pub latitude: i128,
    pub longitude: i128,
    pub is_registered: bool,
    pub total_waste_processed: u128,
    pub total_tokens_earned: u128,
    pub registered_at: u64,
}

impl Participant {
    /// A copy of the record, field for field.
    pub fn duplicate(&self) -> (r: Self)
        ensures
            r == *self,
    {
        Participant {
            address: self.address,
            role: self.role,
            name: self.name.clone(),
            latitude: self.latitude,
            longitude: self.longitude,
            is_registered: self.is_registered,
            total_waste_processed: self.total_waste_processed,
            total_tokens_earned: self.total_tokens_earned,
            registered_at: self.registered_at,
        }
    }
}

/// Represents a manufacturer incentive program for recycling specific waste types
#[derive(Clone, Copy, Debug, PartialEq, Eq, Structural)]
pub struct Incentive {
    /// Unique identifier for the incentive
    pub id: u64,
    /// Type of waste this incentive applies to
    pub waste_type: WasteType,
    /// Reward amount per unit (in tokens)
    pub reward: u128,
    /// Maximum waste amount eligible for this incentive (in grams)
    pub max_waste_amount: u128,
    /// Address of the manufacturer offering the incentive
    pub rewarder: AccountId,
    /// Whether this incentive is currently active
    pub is_active: bool,
    /// Timestamp when the incentive was created
    pub created_at: u64,
}

/// A participant together with its recycling statistics.
#[derive(Clone, Debug, PartialEq, Eq)]
pub struct ParticipantInfo {
    pub participant: Participant,
    pub stats: RecyclingStats,
}

/// Everything the contract keeps in storage.
pub struct ScavengerContract {
    /// The administrator, once initialised.
    pub admin: Option<AccountId>,
    /// The charity contract that receives donations.
    pub charity: Option<AccountId>,
    /// Share of rewards that goes to collectors, in percent.
    pub collector_pct: Option<u32>,
    /// Share of rewards that goes to the owner, in percent.
    pub owner_pct: Option<u32>,
    /// Total weight of all submitted materials (grams).
    pub total_weight: u64,
    /// Total tokens earned by all participants.
    pub total_tokens: u128,
    /// Number of waste identifiers handed out (materials and waste records share them).
    pub waste_count: u64,
    /// Number of incentive identifiers handed out.
    pub incentive_count: u64,
    /// Participants by address.
    pub participants: HashMap<AccountId, Participant>,
    /// Submitted materials by identifier.
    pub materials: HashMap<u64, Material>,
    /// Waste records by identifier.
    pub wastes: HashMap<u128, Waste>,
    /// Recycling statistics by participant.
    pub stats: HashMap<AccountId, RecyclingStats>,
    /// Incentives by identifier.
    pub incentives: HashMap<u64, Incentive>,
    /// Identifiers of the incentives each manufacturer created, oldest first.
    pub rewarder_incentives: HashMap<AccountId, Vec<u64>>,
    /// Identifiers of the incentives of each waste type (by type number), oldest first.
    pub type_incentives: HashMap<u32, Vec<u64>>,
    /// Identifiers of the waste records each participant holds.
    pub participant_wastes: HashMap<AccountId, Vec<u128>>,
    /// Ownership transfers of each material, oldest first.
    pub transfers: HashMap<u64, Vec<WasteTransfer>>,
    /// Transfers of each waste record, oldest first.
    pub transfer_history: HashMap<u128, Vec<WasteTransfer>>,
}

/// The mathematical content of a `ScavengerContract`.
#[verifier::ext_equal]
pub struct ContractState {
    pub admin: Option<AccountId>,
    pub charity: Option<AccountId>,
    pub collector_pct: Option<u32>,
    pub owner_pct: Option<u32>,
    pub total_weight: u64,
    pub total_tokens: u128,
    pub waste_count: u64,
    pub incentive_count: u64,
    pub participants: Map<AccountId, Participant>,
    pub materials: Map<u64, Material>,
    pub wastes: Map<u128, Waste>,
    pub stats: Map<AccountId, RecyclingStats>,
    pub incentives: Map<u64, Incentive>,
    pub rewarder_incentives: Map<AccountId, Seq<u64>>,
    pub type_incentives: Map<u32, Seq<u64>>,
    pub participant_wastes: Map<AccountId, Seq<u128>>,
    pub transfers: Map<u64, Seq<WasteTransfer>>,
    pub transfer_history: Map<u128, Seq<WasteTransfer>>,
}

/// The list stored under `k`, or the empty list when there is none.
pub open spec fn list_at<K, T>(m: Map<K, Seq<T>>, k: K) -> Seq<T> {
    if m.contains_key(k) {
        m[k]
    } else {
        Seq::empty()
    }
}

impl View for ScavengerContract {
    type V = ContractState;

    open spec fn view(&self) -> ContractState {
        ContractState {
            admin: self.admin,
            charity: self.charity,
            collector_pct: self.collector_pct,
            owner_pct: self.owner_pct,
            total_weight: self.total_weight,
            total_tokens: self.total_tokens,
            waste_count: self.waste_count,
            incentive_count: self.incentive_count,
            participants: self.participants@,
            materials: self.materials@,
            wastes: self.wastes@,
            stats: self.stats@,
            incentives: self.incentives@,
            rewarder_incentives: self.rewarder_incentives@.map_values(|v: Vec<u64>| v@),
            type_incentives: self.type_incentives@.map_values(|v: Vec<u64>| v@),
            participant_wastes: self.participant_wastes@.map_values(|v: Vec<u128>| v@),
            transfers: self.transfers@.map_values(|v: Vec<WasteTransfer>| v@),
            transfer_history: self.transfer_history@.map_values(|v: Vec<WasteTransfer>| v@),
        }
    }
}

impl ContractState {
    /// The state of a freshly deployed contract: nothing stored.
    pub open spec fn empty() -> ContractState {
        ContractState {
            admin: None,
            charity: None,
            collector_pct: None,
            owner_pct: None,
            total_weight: 0,
            total_tokens: 0,
            waste_count: 0,
            incentive_count: 0,
            participants: Map::empty(),
            materials: Map::empty(),
            wastes: Map::empty(),
            stats: Map::empty(),
            incentives: Map::empty(),
            rewarder_incentives: Map::empty(),
            type_incentives: Map::empty(),
            participant_wastes: Map::empty(),
            transfers: Map::empty(),
            transfer_history: Map::empty(),
        }
    }
}

impl ScavengerContract {
    /// A freshly deployed contract with empty storage.
    pub fn new() -> (c: Self)
        ensures
            c@ == ContractState::empty(),
    {
        ScavengerContract {
            admin: None,
            charity: None,
            collector_pct: None,
            owner_pct: None,
            total_weight: 0,
            total_tokens: 0,
            waste_count: 0,
            incentive_count: 0,
            participants: HashMap::new(),
            materials: HashMap::new(),
            wastes: HashMap::new(),
            stats: HashMap::new(),
            incentives: HashMap::new(),
            rewarder_incentives: HashMap::new(),
            type_incentives: HashMap::new(),
            participant_wastes: HashMap::new(),
            transfers: HashMap::new(),
            transfer_history: HashMap::new(),
        }
    }
}

} // verus!
