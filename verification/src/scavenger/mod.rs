//! The configured rewards contract: an administrator, a reward token, a
//! charity, collector and owner percentages, manufacturer incentives with
//! budgets, and the distribution of rewards along a material's supply chain.
//!
//! `Storage` holds everything the contract keeps; `ScavengerContract` holds
//! the calls, each taking the storage the contract runs on.
pub mod types;
pub mod errors;
pub mod storage;
pub mod contract;
pub mod laws;


pub use contract::{RewardDistribution, ScavengerContract};
pub use errors::ScavengerError;
pub use storage::{Storage, StorageState};
pub use types::{
    GlobalMetrics, Incentive, Material, Participant, ParticipantStats, Role, WasteTransfer,
    WasteType,
};
