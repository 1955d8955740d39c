//! Records of the rewards contract.
use vstd::prelude::*;

use crate::AccountId;

pub use crate::types::WasteType;

verus! {

/// Participant role in the scavenger system
#[derive(Clone, Copy, Debug, PartialEq, Eq, Structural)]
pub enum Role {
    Recycler,
    Collector,
    Manufacturer,
}

impl Role {
    /// Check if role can manufacture products
    pub fn can_manufacture(&self) -> (r: bool)
        ensures
            r == (*self == Role::Manufacturer),
    {
        match self {
            Role::Manufacturer => true,
            _ => false,
        }
    }
}

/// Participant information
#[derive(Clone, Debug, PartialEq, Eq)]
pub struct Participant {
    pub address: AccountId,
    pub role: Role,
    pub name: String,
    pub latitude: i64,
    pub longitude: i64,
    pub registered_at: u64,
}

impl Participant {
    /// A copy of the record, field for field.
    pub fn duplicate(&self) -> (r: Self)
        ensures
            r == *self,
    {
        Participant {
            address: self.address,
            role: self.role,
            name: self.name.clone(),
            latitude: self.latitude,
            longitude: self.longitude,
            registered_at: self.registered_at,
        }
    }
}

/// Incentive program created by manufacturers
#[derive(Clone, Copy, Debug, PartialEq, Eq, Structural)]
pub struct Incentive {
    /// Unique identifier for the incentive
    pub id: u64,
    /// Address of the manufacturer offering the incentive
    pub rewarder: AccountId,
    /// Type of waste this incentive targets
    pub waste_type: WasteType,
    /// Reward points per kilogram
    pub reward_points: u64,
    /// Total points budget allocated for this incentive
    pub total_budget: u64,
    /// Remaining points budget available
    pub remaining_budget: u64,
    /// Whether the incentive is currently active
    pub active: bool,
    /// Timestamp when the incentive was created
    pub created_at: u64,
}

impl Incentive {
    /// Creates a new Incentive instance: active, with its whole budget remaining
    pub fn new(
        id: u64,
        rewarder: AccountId,
        waste_type: WasteType,
        reward_points: u64,
        total_budget: u64,
        created_at: u64,
    ) -> (i: Self)
        ensures
            i == (Incentive {
                id,
                rewarder,
                waste_type,
                reward_points,
                total_budget,
                remaining_budget: total_budget,
                active: true,
                created_at,
            }),
    {
        Incentive {
            id,
            rewarder,
            waste_type,
            reward_points,
            total_budget,
            remaining_budget: total_budget,
            active: true,
            created_at,
        }
    }
}

/// A waste submission that moves along the supply chain.
#[derive(Clone, Copy, Debug, PartialEq, Eq, Structural)]
pub struct Material {
    pub id: u64,
    pub waste_type: WasteType,
    /// Weight in grams
    pub weight: u64,
    /// The participant who submitted it
    pub submitter: AccountId,
    /// The current holder
    pub current_owner: AccountId,
    pub submitted_at: u64,
    pub verified: bool,
}

impl Material {
    /// A new, unverified material held by its submitter.
    pub fn new(
        id: u64,
        waste_type: WasteType,
        weight: u64,
        submitter: AccountId,
        submitted_at: u64,
    ) -> (m: Self)
        ensures
            m == (Material {
                id,
                waste_type,
                weight,
                submitter,
                current_owner: submitter,
                submitted_at,
                verified: false,
            }),
    {
        Material {
            id,
            waste_type,
            weight,
            submitter,
            current_owner: submitter,
            submitted_at,
            verified: false,
        }
    }
}

/// One hand-over of a material.
#[derive(Clone, Copy, Debug, PartialEq, Eq, Structural)]
pub struct WasteTransfer {
    pub waste_id: u64,
    pub from: AccountId,
    pub to: AccountId,
    pub transferred_at: u64,
}

impl WasteTransfer {
    /// A transfer record from all of its fields.
    pub fn new(waste_id: u64, from: AccountId, to: AccountId, transferred_at: u64) -> (t: Self)
        ensures
            t == (WasteTransfer { waste_id, from, to, transferred_at }),
    {
        WasteTransfer { waste_id, from, to, transferred_at }
    }
}

/// Earnings and activity of a participant.
#[derive(Clone, Copy, Debug, PartialEq, Eq, Structural)]
pub struct ParticipantStats {
    pub address: AccountId,
    pub total_earned: i128,
    pub materials_submitted: u64,
    pub transfers_count: u64,
}

/// Contract-wide totals.
#[derive(Clone, Copy, Debug, PartialEq, Eq, Structural)]
pub struct GlobalMetrics {
    pub total_wastes_count: u64,
    pub total_tokens_earned: i128,
}

} // verus!
