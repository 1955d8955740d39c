//! Participant roles, waste types and the records built from them.
use vstd::prelude::*;

use crate::AccountId;

verus! {

/// Represents the role of a participant in the Scavenger ecosystem
#[derive(Clone, Copy, Debug, PartialEq, Eq, Structural)]
pub enum ParticipantRole {
    /// Recycler role - responsible for collecting and processing recyclable materials
    Recycler,
    /// Collector role - responsible for gathering materials from various sources
    Collector,
    /// Manufacturer role - responsible for processing materials into new products
    Manufacturer,
}

impl ParticipantRole {
    /// The number of the role: Recycler 0, Collector 1, Manufacturer 2.
    pub open spec fn code(self) -> u32 {
        match self {
            ParticipantRole::Recycler => 0,
            ParticipantRole::Collector => 1,
            ParticipantRole::Manufacturer => 2,
        }
    }

    /// The role that a number stands for, if any.
    pub open spec fn of_code(value: u32) -> Option<ParticipantRole> {
        if value == 0 {
            Some(ParticipantRole::Recycler)
        } else if value == 1 {
            Some(ParticipantRole::Collector)
        } else if value == 2 {
            Some(ParticipantRole::Manufacturer)
        } else {
            None
        }
    }

    /// The upper-case name of the role.
    pub open spec fn name(self) -> Seq<char> {
        match self {
            ParticipantRole::Recycler => "RECYCLER"@,
            ParticipantRole::Collector => "COLLECTOR"@,
            ParticipantRole::Manufacturer => "MANUFACTURER"@,
        }
    }

    /// Validates if the role is a valid ParticipantRole variant
    pub fn is_valid(role: u32) -> (r: bool)
        ensures
            r == (role <= 2),
            r == Self::of_code(role).is_some(),
    {
        role == 0 || role == 1 || role == 2
    }

    /// Converts a u32 to a ParticipantRole
    /// Returns None if the value is invalid
    pub fn from_u32(value: u32) -> (r: Option<Self>)
        ensures
            r == Self::of_code(value),
            r matches Some(role) ==> role.code() == value,
    {
        match value {
            0 => Some(ParticipantRole::Recycler),
            1 => Some(ParticipantRole::Collector),
            2 => Some(ParticipantRole::Manufacturer),
            _ => None,
        }
    }

    /// Converts the ParticipantRole to u32
    pub fn to_u32(&self) -> (r: u32)
        ensures
            r == self.code(),
    {
        match self {
            ParticipantRole::Recycler => 0,
            ParticipantRole::Collector => 1,
            ParticipantRole::Manufacturer => 2,
        }
    }

    /// Returns the string representation of the role
    pub fn as_str(&self) -> (r: &'static str)
        ensures
            r@ == self.name(),
    {
        match self {
            ParticipantRole::Recycler => {
                proof {
                    reveal_strlit("RECYCLER");
                }
                "RECYCLER"
            },
            ParticipantRole::Collector => {
                proof {
                    reveal_strlit("COLLECTOR");
                }
                "COLLECTOR"
            },
            ParticipantRole::Manufacturer => {
                proof {
                    reveal_strlit("MANUFACTURER");
                }
                "MANUFACTURER"
            },
        }
    }

    /// Validates if a participant can perform a specific action based on their role
    pub fn can_collect_materials(&self) -> (r: bool)
        ensures
            r == (*self == ParticipantRole::Recycler || *self == ParticipantRole::Collector),
    {
        match self {
            ParticipantRole::Recycler => true,
            ParticipantRole::Collector => true,
            ParticipantRole::Manufacturer => false,
        }
    }

    /// Validates if a participant can manufacture products
    pub fn can_manufacture(&self) -> (r: bool)
        ensures
            r == (*self == ParticipantRole::Manufacturer),
    {
        match self {
            ParticipantRole::Manufacturer => true,
            _ => false,
        }
    }

    /// Validates if a participant can process recyclables
    pub fn can_process_recyclables(&self) -> (r: bool)
        ensures
            r == (*self == ParticipantRole::Recycler),
    {
        match self {
            ParticipantRole::Recycler => true,
            _ => false,
        }
    }
}

/// The numbering of roles is a bijection between the three roles and 0..=2:
/// converting a role to its number and back gives the role, and every number
/// that converts to a role is that role's number.
pub proof fn role_code_roundtrip(role: ParticipantRole, value: u32)
    ensures
        ParticipantRole::of_code(role.code()) == Some(role),
        ParticipantRole::of_code(value) matches Some(r) ==> r.code() == value,
        ParticipantRole::of_code(value).is_some() <==> value <= 2,
{
}

/// Represents the type of waste material in the recycling ecosystem
#[derive(Clone, Copy, Debug, PartialEq, Eq, Structural)]
pub enum WasteType {
    /// Paper waste - newspapers, cardboard, office paper
    Paper,
    /// PET plastic - polyethylene terephthalate bottles and containers
    PetPlastic,
    /// General plastic waste - various plastic types
    Plastic,
    /// Metal waste - aluminum, steel, copper
    Metal,
    /// Glass waste - bottles, jars, containers
    Glass,
}

impl WasteType {
    /// The number of the waste type: Paper 0, PetPlastic 1, Plastic 2, Metal 3, Glass 4.
    pub open spec fn code(self) -> u32 {
        match self {
            WasteType::Paper => 0,
            WasteType::PetPlastic => 1,
            WasteType::Plastic => 2,
            WasteType::Metal => 3,
            WasteType::Glass => 4,
        }
    }

    /// The waste type that a number stands for, if any.
    pub open spec fn of_code(value: u32) -> Option<WasteType> {
        if value == 0 {
            Some(WasteType::Paper)
        } else if value == 1 {
            Some(WasteType::PetPlastic)
        } else if value == 2 {
            Some(WasteType::Plastic)
        } else if value == 3 {
            Some(WasteType::Metal)
        } else if value == 4 {
            Some(WasteType::Glass)
        } else {
            None
        }
    }

    /// The upper-case name of the waste type.
    pub open spec fn name(self) -> Seq<char> {
        match self {
            WasteType::Paper => "PAPER"@,
            WasteType::PetPlastic => "PETPLASTIC"@,
            WasteType::Plastic => "PLASTIC"@,
            WasteType::Metal => "METAL"@,
            WasteType::Glass => "GLASS"@,
        }
    }

    /// Validates if the value is a valid WasteType variant
    pub fn is_valid(value: u32) -> (r: bool)
        ensures
            r == (value <= 4),
            r == Self::of_code(value).is_some(),
    {
        value == 0 || value == 1 || value == 2 || value == 3 || value == 4
    }

    /// Converts a u32 to a WasteType
    /// Returns None if the value is invalid
    pub fn from_u32(value: u32) -> (r: Option<Self>)
        ensures
            r == Self::of_code(value),
            r matches Some(t) ==> t.code() == value,
    {
        match value {
            0 => Some(WasteType::Paper),
            1 => Some(WasteType::PetPlastic),
            2 => Some(WasteType::Plastic),
            3 => Some(WasteType::Metal),
            4 => Some(WasteType::Glass),
            _ => None,
        }
    }

    /// Converts the WasteType to u32
    pub fn to_u32(&self) -> (r: u32)
        ensures
            r == self.code(),
    {
        match self {
            WasteType::Paper => 0,
            WasteType::PetPlastic => 1,
            WasteType::Plastic => 2,
            WasteType::Metal => 3,
            WasteType::Glass => 4,
        }
    }

    /// Returns the string representation of the waste type
    pub fn as_str(&self) -> (r: &'static str)
        ensures
            r@ == self.name(),
    {
        match self {
            WasteType::Paper => {
                proof {
                    reveal_strlit("PAPER");
                }
                "PAPER"
            },
            WasteType::PetPlastic => {
                proof {
                    reveal_strlit("PETPLASTIC");
                }
                "PETPLASTIC"
            },
            WasteType::Plastic => {
                proof {
                    reveal_strlit("PLASTIC");
                }
                "PLASTIC"
            },
            WasteType::Metal => {
                proof {
                    reveal_strlit("METAL");
                }
                "METAL"
            },
            WasteType::Glass => {
                proof {
                    reveal_strlit("GLASS");
                }
                "GLASS"
            },
        }
    }

    /// Checks if the waste type is recyclable plastic
    pub fn is_plastic(&self) -> (r: bool)
        ensures
            r == (*self == WasteType::PetPlastic || *self == WasteType::Plastic),
    {
        match self {
            WasteType::PetPlastic => true,
            WasteType::Plastic => true,
            _ => false,
        }
    }

    /// Checks if the waste type is biodegradable
    pub fn is_biodegradable(&self) -> (r: bool)
        ensures
            r == (*self == WasteType::Paper),
    {
        match self {
            WasteType::Paper => true,
            _ => false,
        }
    }

    /// Checks if the waste type is infinitely recyclable
    pub fn is_infinitely_recyclable(&self) -> (r: bool)
        ensures
            r == (*self == WasteType::Metal || *self == WasteType::Glass),
    {
        match self {
            WasteType::Metal => true,
            WasteType::Glass => true,
            _ => false,
        }
    }

    /// Text form of the waste type, as it is displayed: its upper-case name.
    pub fn to_display_string(&self) -> (r: String)
        ensures
            r@ == self.name(),
    {
        self.as_str().to_string()
    }
}

/// The numbering of waste types is a bijection between the five types and
/// 0..=4.
pub proof fn waste_type_code_roundtrip(t: WasteType, value: u32)
    ensures
        WasteType::of_code(t.code()) == Some(t),
        WasteType::of_code(value) matches Some(w) ==> w.code() == value,
        WasteType::of_code(value).is_some() <==> value <= 4,
{
}


/// Represents a recyclable material submission in the system
#[derive(Clone, Debug, PartialEq, Eq)]
pub struct Material {
    /// Unique identifier for the material
    pub id: u64,
    /// Type of waste material
    pub waste_type: WasteType,
    /// Weight of the material in grams
    pub weight: u64,
    /// Address of the participant who submitted the material
    pub submitter: AccountId,
    /// Timestamp when the material was submitted
    pub submitted_at: u64,
    /// Whether the material has been verified
    pub verified: bool,
    /// Optional description of the material
    pub description: String,
}

/// Reward points per kilogram of each waste type.
pub open spec fn reward_multiplier(t: WasteType) -> u64 {
    match t {
        WasteType::Paper => 1,
        WasteType::PetPlastic => 3,
        WasteType::Plastic => 2,
        WasteType::Metal => 5,
        WasteType::Glass => 2,
    }
}

/// Points = (weight in whole kilograms) * multiplier * 10
pub open spec fn reward_points(t: WasteType, weight: u64) -> int {
    (weight / 1000) * reward_multiplier(t) * 10
}

impl Material {
    /// Creates a new Material instance
    pub fn new(
        id: u64,
        waste_type: WasteType,
        weight: u64,
        submitter: AccountId,
        submitted_at: u64,
        description: String,
    ) -> (m: Self)
        ensures
            m == (Material {
                id,
                waste_type,
                weight,
                submitter,
                submitted_at,
                verified: false,
                description,
            }),
    {
        Material { id, waste_type, weight, submitter, submitted_at, verified: false, description }
    }

    /// A copy of the record, field for field.
    pub fn duplicate(&self) -> (r: Self)
        ensures
            r == *self,
    {
        Material {
            id: self.id,
            waste_type: self.waste_type,
            weight: self.weight,
            submitter: self.submitter,
            submitted_at: self.submitted_at,
            verified: self.verified,
            description: self.description.clone(),
        }
    }

    /// Marks the material as verified
    pub fn verify(&mut self)
        ensures
            *final(self) == (Material { verified: true, ..*old(self) }),
    {
        self.verified = true;
    }

    /// Checks if the material meets minimum weight requirement (100g)
    pub fn meets_minimum_weight(&self) -> (r: bool)
        ensures
            r == (self.weight >= 100),
    {
        self.weight >= 100
    }

    /// Calculates reward points based on waste type and weight
    /// Different waste types have different point multipliers
    pub fn calculate_reward_points(&self) -> (r: u64)
        ensures
            r == reward_points(self.waste_type, self.weight),
    {
        let multiplier: u64 = match self.waste_type {
            WasteType::Paper => 1,
            WasteType::PetPlastic => 3,
            WasteType::Plastic => 2,
            WasteType::Metal => 5,
            WasteType::Glass => 2,
        };
        let kg: u64 = self.weight / 1000;
        assert(kg * multiplier * 10 <= u64::MAX) by (nonlinear_arith)
            requires
                kg <= u64::MAX / 1000,
                multiplier <= 5,
        ;
        // Points = (weight in kg) * multiplier * 10
        kg * multiplier * 10
    }
}

/// A waste record with location, ownership and confirmation state.
#[derive(Clone, Copy, Debug, PartialEq, Eq, Structural)]
pub struct Waste {
    /// Unique identifier of the waste record
    pub waste_id: u128,
    /// Type of the waste
    pub waste_type: WasteType,
    /// Weight in grams
    pub weight: u128,
    /// The participant that currently owns the waste
    pub current_owner: AccountId,
    /// Latitude of the place where the waste was registered (micro-degrees)
    pub latitude: i128,
    /// Longitude of the place where the waste was registered (micro-degrees)
    pub longitude: i128,
    /// Ledger timestamp of the registration
    pub recycled_timestamp: u64,
    /// Whether the record is active (deactivated records stay so)
    pub is_active: bool,
    /// Whether a third party has confirmed the details
    pub is_confirmed: bool,
    /// The confirming participant (the owner while unconfirmed)
    pub confirmer: AccountId,
}

impl Waste {
    /// Creates a new waste record from all of its fields.
    pub fn new(
        waste_id: u128,
        waste_type: WasteType,
        weight: u128,
        current_owner: AccountId,
        latitude: i128,
        longitude: i128,
        recycled_timestamp: u64,
        is_active: bool,
        is_confirmed: bool,
        confirmer: AccountId,
    ) -> (w: Self)
        ensures
            w == (Waste {
                waste_id,
                waste_type,
                weight,
                current_owner,
                latitude,
                longitude,
                recycled_timestamp,
                is_active,
                is_confirmed,
                confirmer,
            }),
    {
        Waste {
            waste_id,
            waste_type,
            weight,
            current_owner,
            latitude,
            longitude,
            recycled_timestamp,
            is_active,
            is_confirmed,
            confirmer,
        }
    }

    /// Hands the waste to a new owner.
    pub fn transfer_to(&mut self, new_owner: AccountId)
        ensures
            *final(self) == (Waste { current_owner: new_owner, ..*old(self) }),
    {
        self.current_owner = new_owner;
    }

    /// Records a confirmation by `confirmer`.
    pub fn confirm(&mut self, confirmer: AccountId)
        ensures
            *final(self) == (Waste { is_confirmed: true, confirmer, ..*old(self) }),
    {
        self.is_confirmed = true;
        self.confirmer = confirmer;
    }

    /// Clears the confirmation; the confirmer goes back to the owner.
    pub fn reset_confirmation(&mut self)
        ensures
            *final(self) == (Waste {
                is_confirmed: false,
                confirmer: old(self).current_owner,
                ..*old(self)
            }),
    {
        self.is_confirmed = false;
        self.confirmer = self.current_owner;
    }

    /// Deactivates the record.
    pub fn deactivate(&mut self)
        ensures
            *final(self) == (Waste { is_active: false, ..*old(self) }),
    {
        self.is_active = false;
    }
}

/// One hand-over of a waste record from one participant to another.
#[derive(Clone, Debug, PartialEq, Eq)]
pub struct WasteTransfer {
    /// The waste that changed hands
    pub waste_id: u128,
    /// Previous owner
    pub from: AccountId,
    /// New owner
    pub to: AccountId,
    /// Ledger timestamp of the transfer
    pub transferred_at: u64,
    /// Latitude of the hand-over (micro-degrees)
    pub latitude: i128,
    /// Longitude of the hand-over (micro-degrees)
    pub longitude: i128,
    /// Short note (a symbol) describing the transfer
    pub note: String,
}

impl WasteTransfer {
    /// Creates a transfer record from all of its fields.
    pub fn new(
        waste_id: u128,
        from: AccountId,
        to: AccountId,
        transferred_at: u64,
        latitude: i128,
        longitude: i128,
        note: String,
    ) -> (t: Self)
        ensures
            t == (WasteTransfer { waste_id, from, to, transferred_at, latitude, longitude, note }),
    {
        WasteTransfer { waste_id, from, to, transferred_at, latitude, longitude, note }
    }

    /// A copy of the record, field for field.
    pub fn duplicate(&self) -> (r: Self)
        ensures
            r == *self,
    {
        WasteTransfer {
            waste_id: self.waste_id,
            from: self.from,
            to: self.to,
            transferred_at: self.transferred_at,
            latitude: self.latitude,
            longitude: self.longitude,
            note: self.note.clone(),
        }
    }
}

/// Per-participant counters of submissions, verifications, weight and points.
#[derive(Clone, Copy, Debug, PartialEq, Eq, Structural)]
pub struct RecyclingStats {
    /// The participant the counters belong to
    pub participant: AccountId,
    /// Number of materials submitted
    pub total_submissions: u64,
    /// Number of submitted materials that were verified
    pub verified_submissions: u64,
    /// Total weight submitted, in grams
    pub total_weight: u64,
    /// Reward points earned by verified materials
    pub total_points: u64,
}

impl RecyclingStats {
    /// Empty counters for a participant.
    pub fn new(participant: AccountId) -> (s: Self)
        ensures
            s == (RecyclingStats {
                participant,
                total_submissions: 0,
                verified_submissions: 0,
                total_weight: 0,
                total_points: 0,
            }),
    {
        RecyclingStats {
            participant,
            total_submissions: 0,
            verified_submissions: 0,
            total_weight: 0,
            total_points: 0,
        }
    }

    /// Whether recording a submission of `weight` grams fits the counters.
    pub open spec fn submission_fits(self, weight: u64) -> bool {
        self.total_submissions + 1 <= u64::MAX && self.total_weight + weight <= u64::MAX
    }

    /// The counters after a submission of `weight` grams.
    pub open spec fn after_submission(self, weight: u64) -> RecyclingStats {
        RecyclingStats {
            total_submissions: (self.total_submissions + 1) as u64,
            total_weight: (self.total_weight + weight) as u64,
            ..self
        }
    }

    /// Whether recording a verification worth `points` fits the counters.
    pub open spec fn verification_fits(self, points: u64) -> bool {
        self.verified_submissions + 1 <= u64::MAX && self.total_points + points <= u64::MAX
    }

    /// The counters after a verification worth `points`.
    pub open spec fn after_verification(self, points: u64) -> RecyclingStats {
        RecyclingStats {
            verified_submissions: (self.verified_submissions + 1) as u64,
            total_points: (self.total_points + points) as u64,
            ..self
        }
    }

    /// Counts a submitted material; returns false, changing nothing, when a
    /// counter would overflow.
    pub fn record_submission(&mut self, material: &Material) -> (ok: bool)
        ensures
            ok == old(self).submission_fits(material.weight),
            ok ==> *final(self) == old(self).after_submission(material.weight),
            !ok ==> *final(self) == *old(self),
    {
        if self.total_submissions < u64::MAX && material.weight <= u64::MAX - self.total_weight {
            self.total_submissions = self.total_submissions + 1;
            self.total_weight = self.total_weight + material.weight;
            true
        } else {
            false
        }
    }

    /// Counts a verified material and its reward points; returns false,
    /// changing nothing, when a counter would overflow.
    pub fn record_verification(&mut self, material: &Material) -> (ok: bool)
        ensures
            ok == old(self).verification_fits(
                reward_points(material.waste_type, material.weight) as u64,
            ),
            ok ==> *final(self) == old(self).after_verification(
                reward_points(material.waste_type, material.weight) as u64,
            ),
            !ok ==> *final(self) == *old(self),
    {
        let points = material.calculate_reward_points();
        if self.verified_submissions < u64::MAX && points <= u64::MAX - self.total_points {
            self.verified_submissions = self.verified_submissions + 1;
            self.total_points = self.total_points + points;
            true
        } else {
            false
        }
    }
}

} // verus!
