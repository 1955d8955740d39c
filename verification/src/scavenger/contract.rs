//! The calls of the rewards contract.
//!
//! Each call takes the storage the contract runs on in place of the host
//! environment; the ledger time is an argument, and the token transfers of
//! a reward distribution are returned as a list of payouts for the host to
//! make. A refused call returns `Err` and leaves the storage unchanged.
use vstd::prelude::*;

use super::errors::ScavengerError;
use super::storage::{Storage, StorageState};
use super::types::{
    GlobalMetrics, Incentive, Material, Participant, ParticipantStats, Role, WasteTransfer,
    WasteType,
};
use crate::contract::list_at;
use crate::contract::participants::lookup;
use crate::AccountId;

verus! {

broadcast use vstd::std_specs::hash::group_hash_axioms;

/// The contract's calls (the storage is passed to each of them).
pub struct ScavengerContract;

/// The token transfers that settle a reward distribution, in order, all paid
/// by the manufacturer in the reward token.
#[derive(Clone, Debug, PartialEq, Eq)]
pub struct RewardDistribution {
    /// The reward token.
    pub token: AccountId,
    /// The whole reward.
    pub total_reward: i128,
    /// Recipients and amounts, in the order the transfers are made.
    pub payouts: Vec<(AccountId, i128)>,
}

/// The refusal, if any, of a call that only the administrator may make.
pub open spec fn admin_refusal(s: StorageState, admin: AccountId) -> Option<ScavengerError> {
    match s.admin {
        None => Some(ScavengerError::AdminNotSet),
        Some(a) => if a != admin {
            Some(ScavengerError::NotAdmin)
        } else {
            None
        },
    }
}

/// When both percentages are configured, together they do not exceed 100.
pub open spec fn percentages_bounded(s: StorageState) -> bool {
    s.collector_percentage is Some && s.owner_percentage is Some ==> s.collector_percentage->0
        + s.owner_percentage->0 <= 100
}

/// Among the first `n` identifiers of `ids`, the stored active incentive of
/// type `t` with the most reward points; the earliest wins a tie.
pub open spec fn best_active_incentive(
    incs: Map<u64, Incentive>,
    ids: Seq<u64>,
    t: WasteType,
    n: int,
) -> Option<Incentive>
    decreases n,
{
    if n <= 0 || n > ids.len() {
        None
    } else {
        let prev = best_active_incentive(incs, ids, t, n - 1);
        let id = ids[n - 1];
        if incs.contains_key(id) && incs[id].active && incs[id].waste_type == t && (prev is None
            || incs[id].reward_points > prev->0.reward_points) {
            Some(incs[id])
        } else {
            prev
        }
    }
}

/// The budget an incentive has already spent (its remaining budget never
/// exceeds its total budget; were it to, nothing counts as spent).
pub open spec fn used_budget(inc: Incentive) -> int {
    if inc.remaining_budget <= inc.total_budget {
        inc.total_budget - inc.remaining_budget
    } else {
        0
    }
}

/// Why `update_incentive` refuses, if it does.
pub open spec fn update_refusal(
    s: StorageState,
    incentive_id: u64,
    new_reward_points: u64,
    new_total_budget: u64,
) -> Option<ScavengerError> {
    if !s.incentives.contains_key(incentive_id) {
        Some(ScavengerError::IncentiveNotFound)
    } else if !s.incentives[incentive_id].active {
        Some(ScavengerError::UpdateInactiveIncentive)
    } else if new_reward_points == 0 {
        Some(ScavengerError::ZeroRewardPoints)
    } else if new_total_budget == 0 {
        Some(ScavengerError::ZeroTotalBudget)
    } else {
        None
    }
}

/// An incentive with new reward points and a new total budget: what was
/// already spent stays spent and the rest remains; the incentive is
/// deactivated, with nothing remaining, only when the new total is less than
/// what was spent.
pub open spec fn updated_incentive(inc: Incentive, new_reward_points: u64, new_total_budget: u64) -> Incentive {
    let used = used_budget(inc);
    Incentive {
        reward_points: new_reward_points,
        total_budget: new_total_budget,
        remaining_budget: if new_total_budget >= used {
            (new_total_budget - used) as u64
        } else {
            0
        },
        active: new_total_budget >= used,
        ..inc
    }
}

/// The state after incentive `inc` is stored under its identifier and listed
/// under its rewarder and its waste type.
pub open spec fn after_create(s: StorageState, inc: Incentive) -> StorageState {
    StorageState {
        incentive_counter: inc.id,
        incentives: s.incentives.insert(inc.id, inc),
        rewarder_incentives: s.rewarder_incentives.insert(
            inc.rewarder,
            list_at(s.rewarder_incentives, inc.rewarder).push(inc.id),
        ),
        waste_type_incentives: s.waste_type_incentives.insert(
            inc.waste_type.code(),
            list_at(s.waste_type_incentives, inc.waste_type.code()).push(inc.id),
        ),
        ..s
    }
}

/// The state after material `m` is stored under its identifier and its
/// weight added to the total.
pub open spec fn after_submit(s: StorageState, m: Material) -> StorageState {
    StorageState {
        material_counter: m.id,
        materials: s.materials.insert(m.id, m),
        total_weight: (s.total_weight + m.weight) as u64,
        ..s
    }
}

/// The state after material `waste_id` passes from `from` to `to` at `now`.
pub open spec fn after_transfer(
    s: StorageState,
    waste_id: u64,
    from: AccountId,
    to: AccountId,
    now: u64,
) -> StorageState {
    StorageState {
        materials: s.materials.insert(
            waste_id,
            Material { current_owner: to, ..s.materials[waste_id] },
        ),
        transfers: s.transfers.insert(
            waste_id,
            list_at(s.transfers, waste_id).push(
                WasteTransfer { waste_id, from, to, transferred_at: now },
            ),
        ),
        ..s
    }
}

/// Reward of a material under an incentive: points per kg times whole kilograms.
pub open spec fn reward_total(m: Material, inc: Incentive) -> int {
    inc.reward_points * (m.weight / 1000)
}

/// Why `distribute_rewards` refuses before any amount is computed, if it does.
pub open spec fn distribution_refusal(
    s: StorageState,
    waste_id: u64,
    incentive_id: u64,
    manufacturer: AccountId,
) -> Option<ScavengerError> {
    if !s.materials.contains_key(waste_id) {
        Some(ScavengerError::MaterialNotFound)
    } else if !s.materials[waste_id].verified {
        Some(ScavengerError::MaterialNotVerified)
    } else if !s.incentives.contains_key(incentive_id) {
        Some(ScavengerError::IncentiveNotFound)
    } else if s.incentives[incentive_id].rewarder != manufacturer {
        Some(ScavengerError::NotIncentiveCreator)
    } else if s.incentives[incentive_id].waste_type != s.materials[waste_id].waste_type {
        Some(ScavengerError::WasteTypeMismatch)
    } else if !s.incentives[incentive_id].active {
        Some(ScavengerError::IncentiveNotActive)
    } else if reward_total(s.materials[waste_id], s.incentives[incentive_id])
        > s.incentives[incentive_id].remaining_budget {
        Some(ScavengerError::InsufficientBudget)
    } else if s.collector_percentage is None {
        Some(ScavengerError::CollectorPercentageNotSet)
    } else if s.owner_percentage is None {
        Some(ScavengerError::OwnerPercentageNotSet)
    } else if s.token_address is None {
        Some(ScavengerError::TokenAddressNotSet)
    } else {
        None
    }
}

/// The recipients of the transfers among `ts[0..n]` that are registered collectors.
pub open spec fn collector_payees(
    parts: Map<AccountId, Participant>,
    ts: Seq<WasteTransfer>,
    n: int,
) -> Seq<AccountId>
    decreases n,
{
    if n <= 0 || n > ts.len() {
        Seq::empty()
    } else {
        let p = collector_payees(parts, ts, n - 1);
        if parts.contains_key(ts[n - 1].to) && parts[ts[n - 1].to].role == Role::Collector {
            p.push(ts[n - 1].to)
        } else {
            p
        }
    }
}

/// Each payee with the same share.
pub open spec fn equal_shares(payees: Seq<AccountId>, share: int) -> Seq<(AccountId, i128)> {
    payees.map_values(|a: AccountId| (a, share as i128))
}

/// The payouts of a distribution: each collector of the chain gets the
/// collector share, the submitter the owner share, and the current owner the
/// rest when it is positive.
pub open spec fn planned_payouts(
    payees: Seq<AccountId>,
    collector_share: int,
    owner_share: int,
    total: int,
    m: Material,
) -> Seq<(AccountId, i128)> {
    let distributed = payees.len() * collector_share + owner_share;
    let rest = total - distributed;
    equal_shares(payees, collector_share) + seq![
        (m.submitter, owner_share as i128),
    ] + if rest > 0 {
        seq![(m.current_owner, rest as i128)]
    } else {
        Seq::empty()
    }
}

/// The statistics after crediting the first `n` payouts in order, or None
/// when an earnings total leaves the i128 range.
pub open spec fn credit_payouts(
    s: StorageState,
    payouts: Seq<(AccountId, i128)>,
    n: int,
) -> Option<Map<AccountId, ParticipantStats>>
    decreases n,
{
    if n <= 0 || n > payouts.len() {
        Some(s.stats)
    } else {
        match credit_payouts(s, payouts, n - 1) {
            None => None,
            Some(st) => {
                let a = payouts[n - 1].0;
                let cur = StorageState { stats: st, ..s }.stats_of(a);
                if i128::MIN <= cur.total_earned + payouts[n - 1].1 <= i128::MAX {
                    Some(
                        st.insert(
                            a,
                            ParticipantStats {
                                total_earned: (cur.total_earned + payouts[n - 1].1) as i128,
                                ..cur
                            },
                        ),
                    )
                } else {
                    None
                }
            },
        }
    }
}

/// The outcome of a distribution that passed `distribution_refusal`: the
/// payouts and the new storage, or an arithmetic overflow.
pub open spec fn distribution_outcome(
    s: StorageState,
    waste_id: u64,
    incentive_id: u64,
) -> Result<(Seq<(AccountId, i128)>, StorageState), ScavengerError> {
    let m = s.materials[waste_id];
    let inc = s.incentives[incentive_id];
    let total = reward_total(m, inc);
    let cs_raw = total * s.collector_percentage->0;
    let os_raw = total * s.owner_percentage->0;
    let cs = cs_raw / 100;
    let os = os_raw / 100;
    let payees = collector_payees(s.participants, list_at(s.transfers, waste_id), list_at(
        s.transfers,
        waste_id,
    ).len() as int);
    let payouts = planned_payouts(payees, cs, os, total, m);
    let remaining = (inc.remaining_budget - total) as u64;
    if cs_raw > i128::MAX || os_raw > i128::MAX || payees.len() * cs + os > i128::MAX {
        Err(ScavengerError::ArithmeticOverflow)
    } else {
        match credit_payouts(s, payouts, payouts.len() as int) {
            None => Err(ScavengerError::ArithmeticOverflow),
            Some(stats) => if s.total_earned + total > i128::MAX {
                Err(ScavengerError::ArithmeticOverflow)
            } else {
                Ok(
                    (
                        payouts,
                        StorageState {
                            stats,
                            incentives: s.incentives.insert(
                                incentive_id,
                                Incentive {
                                    remaining_budget: remaining,
                                    active: remaining != 0,
                                    ..inc
                                },
                            ),
                            total_earned: (s.total_earned + total) as i128,
                            ..s
                        },
                    ),
                )
            },
        }
    }
}

impl ScavengerContract {
    /// Initialize the contract with admin and configuration
    pub fn __constructor(
        storage: &mut Storage,
        admin: AccountId,
        token_address: AccountId,
        charity_address: AccountId,
        collector_percentage: u32,
        owner_percentage: u32,
    ) -> (r: Result<(), ScavengerError>)
        ensures
            collector_percentage + owner_percentage > 100 ==> r == Err::<(), ScavengerError>(
                ScavengerError::PercentagesExceed100,
            ) && final(storage)@ == old(storage)@,
            collector_percentage + owner_percentage <= 100 ==> r is Ok && final(storage)@ == (
            StorageState {
                admin: Some(admin),
                token_address: Some(token_address),
                charity_address: Some(charity_address),
                collector_percentage: Some(collector_percentage),
                owner_percentage: Some(owner_percentage),
                total_earned: 0,
                ..old(storage)@
            }) && percentages_bounded(final(storage)@),
    {
        if collector_percentage as u64 + owner_percentage as u64 > 100 {
            return Err(ScavengerError::PercentagesExceed100);
        }
        storage.set_admin(admin);
        storage.set_token_address(token_address);
        storage.set_charity_address(charity_address);
        storage.set_collector_percentage(collector_percentage);
        storage.set_owner_percentage(owner_percentage);
        storage.set_total_earned(0);
        Ok(())
    }

    /// Get the current admin address
    pub fn get_admin(storage: &Storage) -> (r: Result<AccountId, ScavengerError>)
        ensures
            r == (match storage@.admin {
                Some(a) => Ok(a),
                None => Err(ScavengerError::AdminNotSet),
            }),
    {
        match storage.get_admin() {
            Some(a) => Ok(a),
            None => Err(ScavengerError::AdminNotSet),
        }
    }

    /// Get the scavenger token address
    pub fn get_token_address(storage: &Storage) -> (r: Result<AccountId, ScavengerError>)
        ensures
            r == (match storage@.token_address {
                Some(a) => Ok(a),
                None => Err(ScavengerError::TokenAddressNotSet),
            }),
    {
        match storage.get_token_address() {
            Some(a) => Ok(a),
            None => Err(ScavengerError::TokenAddressNotSet),
        }
    }

    /// Get the charity contract address
    pub fn get_charity_address(storage: &Storage) -> (r: Result<AccountId, ScavengerError>)
        ensures
            r == (match storage@.charity_address {
                Some(a) => Ok(a),
                None => Err(ScavengerError::CharityAddressNotSet),
            }),
    {
        match storage.get_charity_address() {
            Some(a) => Ok(a),
            None => Err(ScavengerError::CharityAddressNotSet),
        }
    }

    /// Get the collector percentage
    pub fn get_collector_percentage(storage: &Storage) -> (r: Result<u32, ScavengerError>)
        ensures
            r == (match storage@.collector_percentage {
                Some(p) => Ok(p),
                None => Err(ScavengerError::CollectorPercentageNotSet),
            }),
    {
        match storage.get_collector_percentage() {
            Some(p) => Ok(p),
            None => Err(ScavengerError::CollectorPercentageNotSet),
        }
    }

    /// Get the owner percentage
    pub fn get_owner_percentage(storage: &Storage) -> (r: Result<u32, ScavengerError>)
        ensures
            r == (match storage@.owner_percentage {
                Some(p) => Ok(p),
                None => Err(ScavengerError::OwnerPercentageNotSet),
            }),
    {
        match storage.get_owner_percentage() {
            Some(p) => Ok(p),
            None => Err(ScavengerError::OwnerPercentageNotSet),
        }
    }

    /// Get the total tokens earned
    pub fn get_total_earned(storage: &Storage) -> (r: i128)
        ensures
            r == storage@.total_earned,
    {
        storage.get_total_earned()
    }

    /// Retrieve global contract metrics (total wastes and total tokens earned)
    pub fn get_metrics(storage: &Storage) -> (r: GlobalMetrics)
        ensures
            r == (GlobalMetrics {
                total_wastes_count: storage@.material_counter,
                total_tokens_earned: storage@.total_earned,
            }),
    {
        GlobalMetrics {
            total_wastes_count: storage.get_material_count(),
            total_tokens_earned: storage.get_total_earned(),
        }
    }

    /// Check that the caller is the admin
    pub fn require_admin(storage: &Storage, admin: AccountId) -> (r: Result<(), ScavengerError>)
        ensures
            r == (match admin_refusal(storage@, admin) {
                Some(e) => Err(e),
                None => Ok(()),
            }),
    {
        match storage.get_admin() {
            None => Err(ScavengerError::AdminNotSet),
            Some(a) => if a != admin {
                Err(ScavengerError::NotAdmin)
            } else {
                Ok(())
            },
        }
    }

    /// Update the token address (admin only)
    pub fn update_token_address(storage: &mut Storage, admin: AccountId, new_address: AccountId) -> (r:
        Result<(), ScavengerError>)
        ensures
            admin_refusal(old(storage)@, admin) matches Some(e) ==> r == Err::<(), ScavengerError>(
                e,
            ) && final(storage)@ == old(storage)@,
            admin_refusal(old(storage)@, admin) is None ==> r is Ok && final(storage)@ == (
            StorageState { token_address: Some(new_address), ..old(storage)@ }),
    {
        Self::require_admin(storage, admin)?;
        storage.set_token_address(new_address);
        Ok(())
    }

    /// Update the charity address (admin only)
    pub fn update_charity_address(storage: &mut Storage, admin: AccountId, new_address: AccountId) -> (r:
        Result<(), ScavengerError>)
        ensures
            admin_refusal(old(storage)@, admin) matches Some(e) ==> r == Err::<(), ScavengerError>(
                e,
            ) && final(storage)@ == old(storage)@,
            admin_refusal(old(storage)@, admin) is None ==> r is Ok && final(storage)@ == (
            StorageState { charity_address: Some(new_address), ..old(storage)@ }),
    {
        Self::require_admin(storage, admin)?;
        storage.set_charity_address(new_address);
        Ok(())
    }

    /// Update the collector percentage (admin only; the owner percentage must be set)
    pub fn update_collector_percentage(storage: &mut Storage, admin: AccountId, new_percentage: u32) -> (r:
        Result<(), ScavengerError>)
        ensures
            admin_refusal(old(storage)@, admin) matches Some(e) ==> r == Err::<(), ScavengerError>(
                e,
            ),
            admin_refusal(old(storage)@, admin) is None && old(storage)@.owner_percentage is None
                ==> r == Err::<(), ScavengerError>(ScavengerError::OwnerPercentageNotSet),
            admin_refusal(old(storage)@, admin) is None && old(storage)@.owner_percentage is Some
                && new_percentage + old(storage)@.owner_percentage->0 > 100 ==> r == Err::<
                (),
                ScavengerError,
            >(ScavengerError::PercentagesExceed100),
            admin_refusal(old(storage)@, admin) is None && old(storage)@.owner_percentage is Some
                && new_percentage + old(storage)@.owner_percentage->0 <= 100 ==> r is Ok,
            r is Ok ==> final(storage)@ == (StorageState {
                collector_percentage: Some(new_percentage),
                ..old(storage)@
            }) && percentages_bounded(final(storage)@),
            r is Err ==> final(storage)@ == old(storage)@,
    {
        Self::require_admin(storage, admin)?;
        let owner_pct = match storage.get_owner_percentage() {
            Some(p) => p,
            None => {
                return Err(ScavengerError::OwnerPercentageNotSet);
            },
        };
        if new_percentage as u64 + owner_pct as u64 > 100 {
            return Err(ScavengerError::PercentagesExceed100);
        }
        storage.set_collector_percentage(new_percentage);
        Ok(())
    }

    /// Update the owner percentage (admin only; the collector percentage must be set)
    pub fn update_owner_percentage(storage: &mut Storage, admin: AccountId, new_percentage: u32) -> (r:
        Result<(), ScavengerError>)
        ensures
            admin_refusal(old(storage)@, admin) matches Some(e) ==> r == Err::<(), ScavengerError>(
                e,
            ),
            admin_refusal(old(storage)@, admin) is None && old(storage)@.collector_percentage is None
                ==> r == Err::<(), ScavengerError>(ScavengerError::CollectorPercentageNotSet),
            admin_refusal(old(storage)@, admin) is None && old(storage)@.collector_percentage is Some
                && old(storage)@.collector_percentage->0 + new_percentage > 100 ==> r == Err::<
                (),
                ScavengerError,
            >(ScavengerError::PercentagesExceed100),
            admin_refusal(old(storage)@, admin) is None && old(storage)@.collector_percentage is Some
                && old(storage)@.collector_percentage->0 + new_percentage <= 100 ==> r is Ok,
            r is Ok ==> final(storage)@ == (StorageState {
                owner_percentage: Some(new_percentage),
                ..old(storage)@
            }) && percentages_bounded(final(storage)@),
            r is Err ==> final(storage)@ == old(storage)@,
    {
        Self::require_admin(storage, admin)?;
        let collector_pct = match storage.get_collector_percentage() {
            Some(p) => p,
            None => {
                return Err(ScavengerError::CollectorPercentageNotSet);
            },
        };
        if collector_pct as u64 + new_percentage as u64 > 100 {
            return Err(ScavengerError::PercentagesExceed100);
        }
        storage.set_owner_percentage(new_percentage);
        Ok(())
    }

    /// Update both percentages at once (admin only)
    pub fn update_percentages(
        storage: &mut Storage,
        admin: AccountId,
        collector_percentage: u32,
        owner_percentage: u32,
    ) -> (r: Result<(), ScavengerError>)
        ensures
            admin_refusal(old(storage)@, admin) matches Some(e) ==> r == Err::<(), ScavengerError>(
                e,
            ),
            admin_refusal(old(storage)@, admin) is None && collector_percentage + owner_percentage
                > 100 ==> r == Err::<(), ScavengerError>(ScavengerError::PercentagesExceed100),
            admin_refusal(old(storage)@, admin) is None && collector_percentage + owner_percentage
                <= 100 ==> r is Ok,
            r is Ok ==> final(storage)@ == (StorageState {
                collector_percentage: Some(collector_percentage),
                owner_percentage: Some(owner_percentage),
                ..old(storage)@
            }) && percentages_bounded(final(storage)@),
            r is Err ==> final(storage)@ == old(storage)@,
    {
        Self::require_admin(storage, admin)?;
        if collector_percentage as u64 + owner_percentage as u64 > 100 {
            return Err(ScavengerError::PercentagesExceed100);
        }
        storage.set_collector_percentage(collector_percentage);
        storage.set_owner_percentage(owner_percentage);
        Ok(())
    }

    /// Transfer admin rights to a new address (admin only)
    pub fn transfer_admin(storage: &mut Storage, current_admin: AccountId, new_admin: AccountId) -> (r:
        Result<(), ScavengerError>)
        ensures
            admin_refusal(old(storage)@, current_admin) matches Some(e) ==> r == Err::<
                (),
                ScavengerError,
            >(e) && final(storage)@ == old(storage)@,
            admin_refusal(old(storage)@, current_admin) is None ==> r is Ok && final(storage)@ == (
            StorageState { admin: Some(new_admin), ..old(storage)@ }),
    {
        Self::require_admin(storage, current_admin)?;
        storage.set_admin(new_admin);
        Ok(())
    }

    /// Register a participant
    pub fn register_participant(
        storage: &mut Storage,
        address: AccountId,
        role: Role,
        name: String,
        latitude: i64,
        longitude: i64,
        now: u64,
    ) -> (r: Result<Participant, ScavengerError>)
        ensures
            old(storage)@.participants.contains_key(address) ==> r == Err::<
                Participant,
                ScavengerError,
            >(ScavengerError::ParticipantAlreadyRegistered) && final(storage)@ == old(storage)@,
            !old(storage)@.participants.contains_key(address) ==> {
                let p = Participant {
                    address,
                    role,
                    name,
                    latitude,
                    longitude,
                    registered_at: now,
                };
                &&& r == Ok::<Participant, ScavengerError>(p)
                &&& final(storage)@ == (StorageState {
                    participants: old(storage)@.participants.insert(address, p),
                    ..old(storage)@
                })
            },
    {
        if storage.is_participant_registered(address) {
            return Err(ScavengerError::ParticipantAlreadyRegistered);
        }
        let participant = Participant {
            address,
            role,
            name,
            latitude,
            longitude,
            registered_at: now,
        };
        storage.set_participant(address, participant.duplicate());
        Ok(participant)
    }

    /// Get participant information
    pub fn get_participant(storage: &Storage, address: AccountId) -> (r: Option<Participant>)
        ensures
            r == lookup(storage@.participants, address),
    {
        storage.get_participant(address)
    }

    /// Check if participant is registered
    pub fn is_participant_registered(storage: &Storage, address: AccountId) -> (r: bool)
        ensures
            r == storage@.participants.contains_key(address),
    {
        storage.is_participant_registered(address)
    }

    /// Create a new incentive (manufacturers only)
    pub fn create_incentive(
        storage: &mut Storage,
        rewarder: AccountId,
        waste_type: WasteType,
        reward_points: u64,
        total_budget: u64,
        now: u64,
    ) -> (r: Result<Incentive, ScavengerError>)
        ensures
            !old(storage)@.participants.contains_key(rewarder) ==> r == Err::<
                Incentive,
                ScavengerError,
            >(ScavengerError::RewarderNotRegistered),
            old(storage)@.participants.contains_key(rewarder)
                && old(storage)@.participants[rewarder].role != Role::Manufacturer ==> r == Err::<
                Incentive,
                ScavengerError,
            >(ScavengerError::OnlyManufacturers),
            old(storage)@.participants.contains_key(rewarder)
                && old(storage)@.participants[rewarder].role == Role::Manufacturer
                && old(storage)@.incentive_counter == u64::MAX ==> r == Err::<
                Incentive,
                ScavengerError,
            >(ScavengerError::ArithmeticOverflow),
            r is Err ==> final(storage)@ == old(storage)@,
            old(storage)@.participants.contains_key(rewarder)
                && old(storage)@.participants[rewarder].role == Role::Manufacturer
                && old(storage)@.incentive_counter < u64::MAX ==> {
                let id = (old(storage)@.incentive_counter + 1) as u64;
                let inc = Incentive {
                    id,
                    rewarder,
                    waste_type,
                    reward_points,
                    total_budget,
                    remaining_budget: total_budget,
                    active: true,
                    created_at: now,
                };
                &&& r == Ok::<Incentive, ScavengerError>(inc)
                &&& final(storage)@ == after_create(old(storage)@, inc)
            },
    {
        if !storage.is_participant_registered(rewarder) {
            return Err(ScavengerError::RewarderNotRegistered);
        }
        let participant = match storage.get_participant(rewarder) {
            Some(p) => p,
            None => {
                return Err(ScavengerError::RewarderNotRegistered);
            },
        };
        if !participant.role.can_manufacture() {
            return Err(ScavengerError::OnlyManufacturers);
        }
        let incentive_id = storage.next_incentive_id()?;
        let incentive = Incentive::new(
            incentive_id,
            rewarder,
            waste_type,
            reward_points,
            total_budget,
            now,
        );
        storage.set_incentive(incentive_id, incentive);
        storage.add_incentive_to_rewarder(rewarder, incentive_id);
        storage.add_incentive_to_waste_type(waste_type, incentive_id);
        Ok(incentive)
    }

    /// Get incentive by ID
    pub fn get_incentive_by_id(storage: &Storage, incentive_id: u64) -> (r: Option<Incentive>)
        ensures
            r == lookup(storage@.incentives, incentive_id),
    {
        storage.get_incentive(incentive_id)
    }

    /// Check if incentive exists
    pub fn incentive_exists(storage: &Storage, incentive_id: u64) -> (r: bool)
        ensures
            r == storage@.incentives.contains_key(incentive_id),
    {
        storage.incentive_exists(incentive_id)
    }

    /// Get all incentive IDs created by a specific rewarder (manufacturer)
    pub fn get_incentives_by_rewarder(storage: &Storage, rewarder: AccountId) -> (r: Vec<u64>)
        ensures
            r@ == list_at(storage@.rewarder_incentives, rewarder),
    {
        storage.get_incentives_by_rewarder(rewarder)
    }

    /// Get all incentive IDs for a specific waste type
    pub fn get_incentives_by_waste_type(storage: &Storage, waste_type: WasteType) -> (r: Vec<u64>)
        ensures
            r@ == list_at(storage@.waste_type_incentives, waste_type.code()),
    {
        storage.get_incentives_by_waste_type(waste_type)
    }

    /// Get the active incentive with the highest reward for a specific manufacturer and waste type
    /// Returns None if no active incentive is found
    pub fn get_active_incentive_for_manufacturer(
        storage: &Storage,
        manufacturer: AccountId,
        waste_type: WasteType,
    ) -> (r: Option<Incentive>)
        ensures
            r == best_active_incentive(
                storage@.incentives,
                list_at(storage@.rewarder_incentives, manufacturer),
                waste_type,
                list_at(storage@.rewarder_incentives, manufacturer).len() as int,
            ),
    {
        let incentive_ids = storage.get_incentives_by_rewarder(manufacturer);
        let ghost ids = incentive_ids@;
        let mut best: Option<Incentive> = None;
        for k in 0..incentive_ids.len()
            invariant
                ids == incentive_ids@,
                best == best_active_incentive(storage@.incentives, ids, waste_type, k as int),
        {
            match storage.get_incentive(incentive_ids[k]) {
                Some(incentive) => {
                    if incentive.active && incentive.waste_type == waste_type {
                        let better = match best {
                            None => true,
                            Some(b) => incentive.reward_points > b.reward_points,
                        };
                        if better {
                            best = Some(incentive);
                        }
                    }
                },
                None => {},
            }
        }
        best
    }

    /// Update an active incentive's reward points and total budget (the
    /// caller authenticates the rewarder). The budget already spent stays
    /// spent; only when the new total is less than it is the incentive
    /// deactivated, with nothing remaining.
    pub fn update_incentive(
        storage: &mut Storage,
        incentive_id: u64,
        new_reward_points: u64,
        new_total_budget: u64,
    ) -> (r: Result<Incentive, ScavengerError>)
        ensures
            update_refusal(old(storage)@, incentive_id, new_reward_points, new_total_budget) matches Some(
                e,
            ) ==> r == Err::<Incentive, ScavengerError>(e) && final(storage)@ == old(storage)@,
            update_refusal(old(storage)@, incentive_id, new_reward_points, new_total_budget) is None
                ==> {
                let inc = updated_incentive(
                    old(storage)@.incentives[incentive_id],
                    new_reward_points,
                    new_total_budget,
                );
                &&& r == Ok::<Incentive, ScavengerError>(inc)
                &&& final(storage)@ == (StorageState {
                    incentives: old(storage)@.incentives.insert(incentive_id, inc),
                    ..old(storage)@
                })
            },
    {
        let mut incentive = match storage.get_incentive(incentive_id) {
            Some(i) => i,
            None => {
                return Err(ScavengerError::IncentiveNotFound);
            },
        };
        if !incentive.active {
            return Err(ScavengerError::UpdateInactiveIncentive);
        }
        if new_reward_points == 0 {
            return Err(ScavengerError::ZeroRewardPoints);
        }
        if new_total_budget == 0 {
            return Err(ScavengerError::ZeroTotalBudget);
        }
        let used: u64 = if incentive.remaining_budget <= incentive.total_budget {
            incentive.total_budget - incentive.remaining_budget
        } else {
            0
        };
        incentive.reward_points = new_reward_points;
        incentive.total_budget = new_total_budget;
        if new_total_budget >= used {
            incentive.remaining_budget = new_total_budget - used;
            incentive.active = true;
        } else {
            incentive.remaining_budget = 0;
            incentive.active = false;
        }
        storage.set_incentive(incentive_id, incentive);
        Ok(incentive)
    }

    /// Submit material for recycling
    pub fn submit_material(
        storage: &mut Storage,
        submitter: AccountId,
        waste_type: WasteType,
        weight: u64,
        now: u64,
    ) -> (r: Result<Material, ScavengerError>)
        ensures
            !old(storage)@.participants.contains_key(submitter) ==> r == Err::<
                Material,
                ScavengerError,
            >(ScavengerError::SubmitterNotRegistered),
            old(storage)@.participants.contains_key(submitter) && (old(storage)@.material_counter
                == u64::MAX || old(storage)@.total_weight + weight > u64::MAX) ==> r == Err::<
                Material,
                ScavengerError,
            >(ScavengerError::ArithmeticOverflow),
            r is Err ==> final(storage)@ == old(storage)@,
            old(storage)@.participants.contains_key(submitter) && old(storage)@.material_counter
                < u64::MAX && old(storage)@.total_weight + weight <= u64::MAX ==> {
                let id = (old(storage)@.material_counter + 1) as u64;
                let m = Material {
                    id,
                    waste_type,
                    weight,
                    submitter,
                    current_owner: submitter,
                    submitted_at: now,
                    verified: false,
                };
                &&& r == Ok::<Material, ScavengerError>(m)
                &&& final(storage)@ == after_submit(old(storage)@, m)
            },
    {
        if !storage.is_participant_registered(submitter) {
            return Err(ScavengerError::SubmitterNotRegistered);
        }
        if storage.material_counter == u64::MAX || storage.total_weight > u64::MAX - weight {
            return Err(ScavengerError::ArithmeticOverflow);
        }
        let material_id = storage.next_material_id()?;
        let material = Material::new(material_id, waste_type, weight, submitter, now);
        storage.set_material(material_id, material);
        let res = storage.add_to_total_weight(weight);
        proof {
            assert(res is Ok);
        }
        Ok(material)
    }

    /// Transfer waste to another participant
    pub fn transfer_waste(
        storage: &mut Storage,
        waste_id: u64,
        from: AccountId,
        to: AccountId,
        now: u64,
    ) -> (r: Result<(), ScavengerError>)
        ensures
            !old(storage)@.participants.contains_key(from) ==> r == Err::<(), ScavengerError>(
                ScavengerError::SenderNotRegistered,
            ),
            old(storage)@.participants.contains_key(from)
                && !old(storage)@.participants.contains_key(to) ==> r == Err::<(), ScavengerError>(
                ScavengerError::ReceiverNotRegistered,
            ),
            old(storage)@.participants.contains_key(from) && old(storage)@.participants.contains_key(
                to,
            ) && !old(storage)@.materials.contains_key(waste_id) ==> r == Err::<
                (),
                ScavengerError,
            >(ScavengerError::MaterialNotFound),
            old(storage)@.participants.contains_key(from) && old(storage)@.participants.contains_key(
                to,
            ) && old(storage)@.materials.contains_key(waste_id)
                && old(storage)@.materials[waste_id].current_owner != from ==> r == Err::<
                (),
                ScavengerError,
            >(ScavengerError::NotCurrentOwner),
            r is Err ==> final(storage)@ == old(storage)@,
            old(storage)@.participants.contains_key(from) && old(storage)@.participants.contains_key(
                to,
            ) && old(storage)@.materials.contains_key(waste_id)
                && old(storage)@.materials[waste_id].current_owner == from ==> r is Ok
                && final(storage)@ == after_transfer(old(storage)@, waste_id, from, to, now),
    {
        if !storage.is_participant_registered(from) {
            return Err(ScavengerError::SenderNotRegistered);
        }
        if !storage.is_participant_registered(to) {
            return Err(ScavengerError::ReceiverNotRegistered);
        }
        let mut material = match storage.get_material(waste_id) {
            Some(m) => m,
            None => {
                return Err(ScavengerError::MaterialNotFound);
            },
        };
        if material.current_owner != from {
            return Err(ScavengerError::NotCurrentOwner);
        }
        material.current_owner = to;
        storage.set_material(waste_id, material);
        let transfer = WasteTransfer::new(waste_id, from, to, now);
        storage.add_transfer(waste_id, transfer);
        Ok(())
    }

    /// Get transfer history for a waste item
    pub fn get_transfer_history(storage: &Storage, waste_id: u64) -> (r: Vec<WasteTransfer>)
        ensures
            r@ == list_at(storage@.transfers, waste_id),
    {
        storage.get_transfer_history(waste_id)
    }

    /// Distribute token rewards through the supply chain.
    ///
    /// The reward is the incentive's points per kg times the material's whole
    /// kilograms. Every registered collector that received the material gets
    /// the collector share, the submitter gets the owner share, the current
    /// owner gets what is left when positive. The incentive's remaining budget
    /// shrinks by the reward (the incentive is deactivated at zero), and the
    /// earnings and the contract total grow. The returned payouts are the
    /// token transfers to make from the manufacturer, in order.
    pub fn distribute_rewards(
        storage: &mut Storage,
        waste_id: u64,
        incentive_id: u64,
        manufacturer: AccountId,
    ) -> (r: Result<RewardDistribution, ScavengerError>)
        ensures
            distribution_refusal(old(storage)@, waste_id, incentive_id, manufacturer) matches Some(
                e,
            ) ==> r == Err::<RewardDistribution, ScavengerError>(e),
            r is Err ==> final(storage)@ == old(storage)@,
            distribution_refusal(old(storage)@, waste_id, incentive_id, manufacturer) is None
                ==> match distribution_outcome(old(storage)@, waste_id, incentive_id) {
                Err(e) => r == Err::<RewardDistribution, ScavengerError>(e),
                Ok((payouts, s)) => r matches Ok(d) && d.payouts@ == payouts && d.token
                    == old(storage)@.token_address->0 && d.total_reward == reward_total(
                    old(storage)@.materials[waste_id],
                    old(storage)@.incentives[incentive_id],
                ) && final(storage)@ == s,
            },
    {
        let ghost s0 = storage@;
        let material = match storage.get_material(waste_id) {
            Some(m) => m,
            None => {
                return Err(ScavengerError::MaterialNotFound);
            },
        };
        if !material.verified {
            return Err(ScavengerError::MaterialNotVerified);
        }
        let incentive = match storage.get_incentive(incentive_id) {
            Some(i) => i,
            None => {
                return Err(ScavengerError::IncentiveNotFound);
            },
        };
        if incentive.rewarder != manufacturer {
            return Err(ScavengerError::NotIncentiveCreator);
        }
        if incentive.waste_type != material.waste_type {
            return Err(ScavengerError::WasteTypeMismatch);
        }
        if !incentive.active {
            return Err(ScavengerError::IncentiveNotActive);
        }
        // Calculate total reward (incentive * weight in kg)
        let weight_kg = material.weight / 1000;
        assert(incentive.reward_points * weight_kg <= u64::MAX * (u64::MAX / 1000)) by (
        nonlinear_arith)
            requires
                weight_kg <= u64::MAX / 1000,
        ;
        let total_reward: i128 = (incentive.reward_points as i128) * (weight_kg as i128);
        if total_reward > incentive.remaining_budget as i128 {
            return Err(ScavengerError::InsufficientBudget);
        }
        let budget_used = total_reward as u64;
        let collector_pct = match storage.get_collector_percentage() {
            Some(p) => p,
            None => {
                return Err(ScavengerError::CollectorPercentageNotSet);
            },
        };
        let owner_pct = match storage.get_owner_percentage() {
            Some(p) => p,
            None => {
                return Err(ScavengerError::OwnerPercentageNotSet);
            },
        };
        let token = match storage.get_token_address() {
            Some(t) => t,
            None => {
                return Err(ScavengerError::TokenAddressNotSet);
            },
        };
        // Shares of the collectors and of the owner
        let collector_share = match total_reward.checked_mul(collector_pct as i128) {
            Some(v) => v / 100,
            None => {
                return Err(ScavengerError::ArithmeticOverflow);
            },
        };
        let owner_share = match total_reward.checked_mul(owner_pct as i128) {
            Some(v) => v / 100,
            None => {
                return Err(ScavengerError::ArithmeticOverflow);
            },
        };
        let ghost cs = collector_share as int;
        let ghost os = owner_share as int;
        let ghost total = total_reward as int;
        assert(total >= 0) by (nonlinear_arith)
            requires
                total == incentive.reward_points * weight_kg,
        ;
        assert(total * collector_pct >= 0 && total * owner_pct >= 0) by (nonlinear_arith)
            requires
                total >= 0,
        ;
        let ghost m0 = s0.materials[waste_id];
        let ghost i0 = s0.incentives[incentive_id];
        assert(material == m0 && incentive == i0);
        assert(total == reward_total(m0, i0));
        assert(cs == (total * (s0.collector_percentage->0)) / 100);
        assert(os == (total * (s0.owner_percentage->0)) / 100);
        assert(total * (s0.collector_percentage->0) <= i128::MAX);
        assert(total * (s0.owner_percentage->0) <= i128::MAX);
        // Collectors along the transfer history
        let transfers = storage.get_transfer_history(waste_id);
        let ghost ts = transfers@;
        let ghost full = collector_payees(s0.participants, ts, ts.len() as int);
        let mut payouts: Vec<(AccountId, i128)> = Vec::new();
        let mut payees: Vec<AccountId> = Vec::new();
        let mut total_distributed: i128 = 0;
        for i in 0..transfers.len()
            invariant
                ts == transfers@,
                storage@ == s0,
                full == collector_payees(s0.participants, ts, ts.len() as int),
                payees@ == collector_payees(s0.participants, ts, i as int),
                payouts@ == payees@.map_values(|a: AccountId| (a, collector_share)),
                total_distributed == payees@.len() * cs,
                cs == collector_share,
                os == owner_share,
                0 <= cs,
                0 <= os,
                distribution_refusal(s0, waste_id, incentive_id, manufacturer) is None,
                s0 == old(storage)@,
                ts == list_at(s0.transfers, waste_id),
                m0 == s0.materials[waste_id],
                i0 == s0.incentives[incentive_id],
                total == reward_total(m0, i0),
                cs == (total * (s0.collector_percentage->0)) / 100,
                os == (total * (s0.owner_percentage->0)) / 100,
                total * (s0.collector_percentage->0) <= i128::MAX,
                total * (s0.owner_percentage->0) <= i128::MAX,
        {
            let to = transfers[i].to;
            let ghost before = payees@;
            match storage.get_participant(to) {
                Some(p) => {
                    if p.role == Role::Collector {
                        if total_distributed > i128::MAX - collector_share {
                            proof {
                                lemma_payees_grow(s0.participants, ts, i as int + 1, ts.len() as int);
                                let n1 = before.len() + 1;
                                let nf = full.len() as int;
                                assert(n1 * cs <= nf * cs) by (nonlinear_arith)
                                    requires
                                        n1 <= nf,
                                        0 <= cs,
                                ;
                                assert(n1 * cs == before.len() * cs + cs) by (nonlinear_arith)
                                    requires
                                        n1 == before.len() + 1,
                                ;
                            }
                            return Err(ScavengerError::ArithmeticOverflow);
                        }
                        payees.push(to);
                        payouts.push((to, collector_share));
                        total_distributed = total_distributed + collector_share;
                        assert(payees@.len() * cs == before.len() * cs + cs) by (nonlinear_arith)
                            requires
                                payees@.len() == before.len() + 1,
                        ;
                        assert(payouts@ =~= payees@.map_values(
                            |a: AccountId| (a, collector_share),
                        ));
                    }
                },
                None => {},
            }
        }
        assert(payees@ == full);
        if total_distributed > i128::MAX - owner_share {
            return Err(ScavengerError::ArithmeticOverflow);
        }
        payouts.push((material.submitter, owner_share));
        total_distributed = total_distributed + owner_share;
        let recycler_amount = total_reward - total_distributed;
        if recycler_amount > 0 {
            payouts.push((material.current_owner, recycler_amount));
        }
        let ghost plan = planned_payouts(payees@, cs, os, total, material);
        assert(payouts@ =~= plan);
        // Credit the earnings, update the incentive and the total, on a copy
        let mut work = storage.snapshot();
        for k in 0..payouts.len()
            invariant
                plan == payouts@,
                credit_payouts(s0, plan, k as int) == Some(work@.stats),
                work@ == (StorageState { stats: work@.stats, ..s0 }),
                s0 == old(storage)@,
                storage@ == s0,
                distribution_refusal(s0, waste_id, incentive_id, manufacturer) is None,
                full == collector_payees(
                    s0.participants,
                    list_at(s0.transfers, waste_id),
                    list_at(s0.transfers, waste_id).len() as int,
                ),
                m0 == s0.materials[waste_id],
                i0 == s0.incentives[incentive_id],
                total == reward_total(m0, i0),
                plan == planned_payouts(full, cs, os, total, m0),
                cs == (total * (s0.collector_percentage->0)) / 100,
                os == (total * (s0.owner_percentage->0)) / 100,
                total * (s0.collector_percentage->0) <= i128::MAX,
                total * (s0.owner_percentage->0) <= i128::MAX,
                full.len() * cs + os <= i128::MAX,
        {
            let (a, amount) = payouts[k];
            match work.add_earnings(a, amount) {
                Ok(()) => {},
                Err(e) => {
                    proof {
                        lemma_credit_fails_later(s0, plan, k as int + 1, plan.len() as int);
                    }
                    return Err(e);
                },
            }
        }
        let remaining = incentive.remaining_budget - budget_used;
        let updated_incentive = Incentive {
            remaining_budget: remaining,
            active: remaining != 0,
            ..incentive
        };
        work.set_incentive(incentive_id, updated_incentive);
        if work.total_earned.checked_add(total_reward).is_none() {
            return Err(ScavengerError::ArithmeticOverflow);
        }
        let res = work.add_to_total_earned(total_reward);
        proof {
            assert(res is Ok);
        }
        *storage = work;
        Ok(RewardDistribution { token, total_reward, payouts })
    }

    /// Get participant statistics
    pub fn get_participant_stats(storage: &Storage, address: AccountId) -> (r: ParticipantStats)
        ensures
            r == storage@.stats_of(address),
    {
        storage.get_stats(address)
    }

    /// Get supply chain statistics (total wastes, total weight, total tokens earned)
    pub fn get_supply_chain_stats(storage: &Storage) -> (r: (u64, u64, i128))
        ensures
            r == (storage@.material_counter, storage@.total_weight, storage@.total_earned),
    {
        (storage.get_material_count(), storage.get_total_weight(), storage.get_total_earned())
    }
}

/// The collectors found in a prefix of the transfer history are a prefix of
/// those found in a longer one.
pub proof fn lemma_payees_grow(
    parts: Map<AccountId, Participant>,
    ts: Seq<WasteTransfer>,
    i: int,
    n: int,
)
    requires
        0 <= i <= n <= ts.len(),
    ensures
        collector_payees(parts, ts, i).len() <= collector_payees(parts, ts, n).len(),
    decreases n - i,
{
    if i < n {
        lemma_payees_grow(parts, ts, i, n - 1);
    }
}

/// Once crediting fails, crediting more payouts fails too.
pub proof fn lemma_credit_fails_later(
    s: StorageState,
    payouts: Seq<(AccountId, i128)>,
    k: int,
    n: int,
)
    requires
        0 <= k <= n <= payouts.len(),
        credit_payouts(s, payouts, k) is None,
    ensures
        credit_payouts(s, payouts, n) is None,
    decreases n - k,
{
    if k < n {
        lemma_credit_fails_later(s, payouts, k, n - 1);
    }
}

} // verus!
