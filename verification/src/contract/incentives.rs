//! Manufacturer incentive programs: creation, updates, reward calculation
//! and queries.
use vstd::prelude::*;

use super::participants::lookup;
use super::{list_at, ContractError, ContractState, Incentive, ScavengerContract};
use crate::types::{ParticipantRole, WasteType};
use crate::AccountId;

verus! {

broadcast use vstd::std_specs::hash::group_hash_axioms;

/// The incentives with identifiers in 1..=n that satisfy `keep`, by identifier.
pub open spec fn incentives_where(
    incs: Map<u64, Incentive>,
    n: nat,
    keep: spec_fn(Incentive) -> bool,
) -> Seq<Incentive>
    decreases n,
{
    if n == 0 {
        Seq::empty()
    } else {
        let p = incentives_where(incs, (n - 1) as nat, keep);
        if incs.contains_key(n as u64) && keep(incs[n as u64]) {
            p.push(incs[n as u64])
        } else {
            p
        }
    }
}

/// How many of the first `n` incentives of `s` have a reward of at least `r`.
pub open spec fn reward_rank(s: Seq<Incentive>, r: u128, n: int) -> nat
    decreases n,
{
    if n <= 0 || n > s.len() {
        0
    } else {
        reward_rank(s, r, n - 1) + if s[n - 1].reward >= r {
            1nat
        } else {
            0nat
        }
    }
}

/// `x` inserted into `s` after every incentive whose reward is at least its
/// own (into a list ordered by decreasing reward, this keeps the order, and
/// equal rewards keep their earlier order).
pub open spec fn insert_by_reward(s: Seq<Incentive>, x: Incentive) -> Seq<Incentive> {
    s.insert(reward_rank(s, x.reward, s.len() as int) as int, x)
}

/// `s` ordered by decreasing reward, equal rewards in their order in `s`.
pub open spec fn sort_by_reward(s: Seq<Incentive>) -> Seq<Incentive>
    decreases s.len(),
{
    if s.len() == 0 {
        s
    } else {
        insert_by_reward(sort_by_reward(s.drop_last()), s.last())
    }
}

/// The rewards of `s` never increase along the list.
pub open spec fn reward_descending(s: Seq<Incentive>) -> bool {
    forall|i: int, j: int| 0 <= i < j < s.len() ==> #[trigger] s[i].reward >= #[trigger] s[j].reward
}

/// Among the first `n` identifiers of `ids`, the stored active incentive of
/// type `t` with the highest reward; the earliest one wins a tie.
pub open spec fn best_incentive(incs: Map<u64, Incentive>, ids: Seq<u64>, t: WasteType, n: int) -> Option<
    Incentive,
>
    decreases n,
{
    if n <= 0 || n > ids.len() {
        None
    } else {
        let prev = best_incentive(incs, ids, t, n - 1);
        let id = ids[n - 1];
        if incs.contains_key(id) && incs[id].is_active && incs[id].waste_type == t && (prev is None
            || incs[id].reward > prev->0.reward) {
            Some(incs[id])
        } else {
            prev
        }
    }
}

/// Why `create_incentive` refuses, if it does.
pub open spec fn create_incentive_refusal(
    s: ContractState,
    reward: u128,
    max_waste_amount: u128,
    rewarder: AccountId,
) -> Option<ContractError> {
    if !s.participants.contains_key(rewarder) {
        Some(ContractError::RewarderNotRegistered)
    } else if s.participants[rewarder].role != ParticipantRole::Manufacturer {
        Some(ContractError::OnlyManufacturers)
    } else if reward == 0 {
        Some(ContractError::ZeroReward)
    } else if max_waste_amount == 0 {
        Some(ContractError::ZeroMaxWasteAmount)
    } else if s.incentive_count == u64::MAX {
        Some(ContractError::CounterOverflow)
    } else {
        None
    }
}

/// The state after storing the new incentive `inc` and indexing it by
/// rewarder and by waste type.
pub open spec fn after_create_incentive(s: ContractState, inc: Incentive) -> ContractState {
    ContractState {
        incentive_count: inc.id,
        incentives: s.incentives.insert(inc.id, inc),
        rewarder_incentives: s.rewarder_incentives.insert(
            inc.rewarder,
            list_at(s.rewarder_incentives, inc.rewarder).push(inc.id),
        ),
        type_incentives: s.type_incentives.insert(
            inc.waste_type.code(),
            list_at(s.type_incentives, inc.waste_type.code()).push(inc.id),
        ),
        ..s
    }
}

/// Why `update_incentive` refuses, if it does.
pub open spec fn update_incentive_refusal(
    s: ContractState,
    id: u64,
    new_reward: u128,
    new_max: u128,
) -> Option<ContractError> {
    if !s.incentives.contains_key(id) {
        Some(ContractError::IncentiveNotFound)
    } else if !s.incentives[id].is_active {
        Some(ContractError::IncentiveNotActive)
    } else if new_reward == 0 {
        Some(ContractError::ZeroReward)
    } else if new_max == 0 {
        Some(ContractError::ZeroMaxWasteAmount)
    } else {
        None
    }
}

/// The reward an incentive grants for `amount` grams: nothing when inactive,
/// otherwise the amount capped at the maximum, times the reward per kg,
/// divided by 1000.
pub open spec fn incentive_reward(inc: Incentive, amount: u64) -> int {
    if !inc.is_active {
        0
    } else {
        let eligible = if amount > inc.max_waste_amount {
            inc.max_waste_amount as int
        } else {
            amount as int
        };
        (eligible * inc.reward) / 1000
    }
}

/// The capped amount times the reward overflows u128 (only for an active incentive).
pub open spec fn incentive_reward_overflows(inc: Incentive, amount: u64) -> bool {
    inc.is_active && (if amount > inc.max_waste_amount {
        inc.max_waste_amount as int
    } else {
        amount as int
    }) * inc.reward > u128::MAX
}

impl ScavengerContract {
    /// Get the total count of incentive records
    pub fn get_incentive_count(&self) -> (r: u64)
        ensures
            r == self@.incentive_count,
    {
        self.incentive_count
    }

    /// Increment and return the next incentive ID
    pub fn next_incentive_id(&mut self) -> (r: Result<u64, ContractError>)
        ensures
            old(self)@.incentive_count == u64::MAX ==> r == Err::<u64, ContractError>(
                ContractError::CounterOverflow,
            ) && final(self)@ == old(self)@,
            old(self)@.incentive_count < u64::MAX ==> r == Ok::<u64, ContractError>(
                (old(self)@.incentive_count + 1) as u64,
            ) && final(self)@ == (ContractState {
                incentive_count: (old(self)@.incentive_count + 1) as u64,
                ..old(self)@
            }),
    {
        if self.incentive_count == u64::MAX {
            return Err(ContractError::CounterOverflow);
        }
        self.incentive_count = self.incentive_count + 1;
        Ok(self.incentive_count)
    }

    /// Store an incentive record by ID
    fn set_incentive(&mut self, incentive_id: u64, incentive: Incentive)
        ensures
            final(self)@ == (ContractState {
                incentives: old(self)@.incentives.insert(incentive_id, incentive),
                ..old(self)@
            }),
    {
        self.incentives.insert(incentive_id, incentive);
    }

    /// Retrieve an incentive record by ID; None if it doesn't exist
    pub fn get_incentive_internal(&self, incentive_id: u64) -> (r: Option<Incentive>)
        ensures
            r == lookup(self@.incentives, incentive_id),
    {
        match self.incentives.get(&incentive_id) {
            Some(i) => Some(*i),
            None => None,
        }
    }

    /// Get incentive by ID
    pub fn get_incentive_by_id(&self, incentive_id: u64) -> (r: Option<Incentive>)
        ensures
            r == lookup(self@.incentives, incentive_id),
    {
        self.get_incentive_internal(incentive_id)
    }

    /// Check if an incentive record exists
    pub fn incentive_exists(&self, incentive_id: u64) -> (r: bool)
        ensures
            r == self@.incentives.contains_key(incentive_id),
    {
        self.incentives.contains_key(&incentive_id)
    }

    /// Identifiers of the incentives a manufacturer created, oldest first
    pub fn get_incentives_by_rewarder(&self, rewarder: AccountId) -> (r: Vec<u64>)
        ensures
            r@ == list_at(self@.rewarder_incentives, rewarder),
    {
        match self.rewarder_incentives.get(&rewarder) {
            Some(v) => v.clone(),
            None => Vec::new(),
        }
    }

    /// Create a new manufacturer incentive program
    /// Only manufacturers can create incentives
    pub fn create_incentive(
        &mut self,
        waste_type: WasteType,
        reward: u128,
        max_waste_amount: u128,
        rewarder: AccountId,
        now: u64,
    ) -> (r: Result<Incentive, ContractError>)
        ensures
            create_incentive_refusal(old(self)@, reward, max_waste_amount, rewarder) matches Some(
                e,
            ) ==> r == Err::<Incentive, ContractError>(e) && final(self)@ == old(self)@,
            create_incentive_refusal(old(self)@, reward, max_waste_amount, rewarder) is None ==> {
                let inc = Incentive {
                    id: (old(self)@.incentive_count + 1) as u64,
                    waste_type,
                    reward,
                    max_waste_amount,
                    rewarder,
                    is_active: true,
                    created_at: now,
                };
                &&& r == Ok::<Incentive, ContractError>(inc)
                &&& final(self)@ == after_create_incentive(old(self)@, inc)
            },
    {
        match self.participants.get(&rewarder) {
            None => {
                return Err(ContractError::RewarderNotRegistered);
            },
            Some(p) => {
                if !p.role.can_manufacture() {
                    return Err(ContractError::OnlyManufacturers);
                }
            },
        }
        if reward == 0 {
            return Err(ContractError::ZeroReward);
        }
        if max_waste_amount == 0 {
            return Err(ContractError::ZeroMaxWasteAmount);
        }
        let incentive_id = self.next_incentive_id()?;
        let incentive = Incentive {
            id: incentive_id,
            waste_type,
            reward,
            max_waste_amount,
            rewarder,
            is_active: true,
            created_at: now,
        };
        self.set_incentive(incentive_id, incentive);
        // Add to rewarder's incentive list
        let mut by_rewarder = match self.rewarder_incentives.remove(&rewarder) {
            Some(l) => l,
            None => Vec::new(),
        };
        by_rewarder.push(incentive_id);
        self.rewarder_incentives.insert(rewarder, by_rewarder);
        // Add to the list of its waste type
        let code = waste_type.to_u32();
        let mut by_type = match self.type_incentives.remove(&code) {
            Some(l) => l,
            None => Vec::new(),
        };
        by_type.push(incentive_id);
        self.type_incentives.insert(code, by_type);
        assert(self@.rewarder_incentives =~= old(self)@.rewarder_incentives.insert(
            rewarder,
            list_at(old(self)@.rewarder_incentives, rewarder).push(incentive_id),
        ));
        assert(self@.type_incentives =~= old(self)@.type_incentives.insert(
            code,
            list_at(old(self)@.type_incentives, code).push(incentive_id),
        ));
        Ok(incentive)
    }

    /// Update incentive active status
    /// Only the rewarder can update their incentive (the caller authenticates them)
    pub fn update_incentive_status(&mut self, incentive_id: u64, is_active: bool) -> (r: Result<
        Incentive,
        ContractError,
    >)
        ensures
            !old(self)@.incentives.contains_key(incentive_id) ==> r == Err::<
                Incentive,
                ContractError,
            >(ContractError::IncentiveNotFound) && final(self)@ == old(self)@,
            old(self)@.incentives.contains_key(incentive_id) ==> {
                let inc = Incentive { is_active, ..old(self)@.incentives[incentive_id] };
                &&& r == Ok::<Incentive, ContractError>(inc)
                &&& final(self)@ == (ContractState {
                    incentives: old(self)@.incentives.insert(incentive_id, inc),
                    ..old(self)@
                })
            },
    {
        let mut incentive = match self.incentives.get(&incentive_id) {
            Some(i) => *i,
            None => {
                return Err(ContractError::IncentiveNotFound);
            },
        };
        incentive.is_active = is_active;
        self.set_incentive(incentive_id, incentive);
        Ok(incentive)
    }

    /// Update an existing incentive's reward and maximum waste amount
    /// Only the rewarder can update their incentive
    /// Only active incentives can be updated
    pub fn update_incentive(&mut self, incentive_id: u64, new_reward: u128, new_max_waste_amount: u128) -> (r:
        Result<Incentive, ContractError>)
        ensures
            update_incentive_refusal(old(self)@, incentive_id, new_reward, new_max_waste_amount) matches Some(
                e,
            ) ==> r == Err::<Incentive, ContractError>(e) && final(self)@ == old(self)@,
            update_incentive_refusal(old(self)@, incentive_id, new_reward, new_max_waste_amount) is None ==> {
                let inc = Incentive {
                    reward: new_reward,
                    max_waste_amount: new_max_waste_amount,
                    ..old(self)@.incentives[incentive_id]
                };
                &&& r == Ok::<Incentive, ContractError>(inc)
                &&& final(self)@ == (ContractState {
                    incentives: old(self)@.incentives.insert(incentive_id, inc),
                    ..old(self)@
                })
            },
    {
        let mut incentive = match self.incentives.get(&incentive_id) {
            Some(i) => *i,
            None => {
                return Err(ContractError::IncentiveNotFound);
            },
        };
        if !incentive.is_active {
            return Err(ContractError::IncentiveNotActive);
        }
        if new_reward == 0 {
            return Err(ContractError::ZeroReward);
        }
        if new_max_waste_amount == 0 {
            return Err(ContractError::ZeroMaxWasteAmount);
        }
        incentive.reward = new_reward;
        incentive.max_waste_amount = new_max_waste_amount;
        self.set_incentive(incentive_id, incentive);
        Ok(incentive)
    }

    /// Calculate reward for a given waste amount based on an incentive
    /// Returns the reward amount, respecting max_waste_amount and is_active status
    pub fn calculate_incentive_reward(&self, incentive_id: u64, waste_amount: u64) -> (r: Result<
        u128,
        ContractError,
    >)
        ensures
            !self@.incentives.contains_key(incentive_id) ==> r == Err::<u128, ContractError>(
                ContractError::IncentiveNotFound,
            ),
            self@.incentives.contains_key(incentive_id) && incentive_reward_overflows(
                self@.incentives[incentive_id],
                waste_amount,
            ) ==> r == Err::<u128, ContractError>(ContractError::RewardOverflow),
            self@.incentives.contains_key(incentive_id) && !incentive_reward_overflows(
                self@.incentives[incentive_id],
                waste_amount,
            ) ==> r == Ok::<u128, ContractError>(
                incentive_reward(self@.incentives[incentive_id], waste_amount) as u128,
            ),
    {
        let incentive = match self.incentives.get(&incentive_id) {
            Some(i) => *i,
            None => {
                return Err(ContractError::IncentiveNotFound);
            },
        };
        if !incentive.is_active {
            return Ok(0);
        }
        let waste_amount_u128 = waste_amount as u128;
        let eligible_amount = if waste_amount_u128 > incentive.max_waste_amount {
            incentive.max_waste_amount
        } else {
            waste_amount_u128
        };
        match eligible_amount.checked_mul(incentive.reward) {
            Some(product) => Ok(product / 1000),
            None => Err(ContractError::RewardOverflow),
        }
    }

    /// Get all incentives for a specific waste type
    pub fn get_incentives_by_waste_type(&self, waste_type: WasteType) -> (r: Vec<Incentive>)
        ensures
            r@ == incentives_where(
                self@.incentives,
                self@.incentive_count as nat,
                |i: Incentive| i.waste_type == waste_type,
            ),
    {
        let mut results: Vec<Incentive> = Vec::new();
        let count = self.incentive_count;
        let mut i: u64 = 0;
        while i < count
            invariant
                i <= count,
                count == self@.incentive_count,
                results@ == incentives_where(
                    self@.incentives,
                    i as nat,
                    |x: Incentive| x.waste_type == waste_type,
                ),
            decreases count - i,
        {
            i = i + 1;
            match self.incentives.get(&i) {
                Some(inc) => {
                    if inc.waste_type == waste_type {
                        results.push(*inc);
                    }
                },
                None => {},
            }
        }
        results
    }

    /// Get all active incentives
    pub fn get_active_incentives(&self) -> (r: Vec<Incentive>)
        ensures
            r@ == incentives_where(
                self@.incentives,
                self@.incentive_count as nat,
                |i: Incentive| i.is_active,
            ),
    {
        let mut results: Vec<Incentive> = Vec::new();
        let count = self.incentive_count;
        let mut i: u64 = 0;
        while i < count
            invariant
                i <= count,
                count == self@.incentive_count,
                results@ == incentives_where(
                    self@.incentives,
                    i as nat,
                    |x: Incentive| x.is_active,
                ),
            decreases count - i,
        {
            i = i + 1;
            match self.incentives.get(&i) {
                Some(inc) => {
                    if inc.is_active {
                        results.push(*inc);
                    }
                },
                None => {},
            }
        }
        results
    }

    /// Get the active incentives of a waste type, highest reward first
    /// (incentives with equal rewards in the order they were created)
    pub fn get_incentives(&self, waste_type: WasteType) -> (r: Vec<Incentive>)
        ensures
            r@ == sort_by_reward(
                incentives_where(
                    self@.incentives,
                    self@.incentive_count as nat,
                    |i: Incentive| i.waste_type == waste_type && i.is_active,
                ),
            ),
    {
        let ghost keep = |i: Incentive| i.waste_type == waste_type && i.is_active;
        let mut results: Vec<Incentive> = Vec::new();
        let count = self.incentive_count;
        let mut i: u64 = 0;
        while i < count
            invariant
                i <= count,
                count == self@.incentive_count,
                keep == (|x: Incentive| x.waste_type == waste_type && x.is_active),
                results@ == sort_by_reward(incentives_where(self@.incentives, i as nat, keep)),
            decreases count - i,
        {
            let ghost before = incentives_where(self@.incentives, i as nat, keep);
            i = i + 1;
            match self.incentives.get(&i) {
                Some(inc) => {
                    if inc.waste_type == waste_type && inc.is_active {
                        let x = *inc;
                        let ghost sorted = results@;
                        let mut pos: usize = 0;
                        let mut k: usize = 0;
                        while k < results.len()
                            invariant
                                results@ == sorted,
                                k <= results.len(),
                                pos == reward_rank(sorted, x.reward, k as int),
                                pos <= k,
                            decreases results.len() - k,
                        {
                            if results[k].reward >= x.reward {
                                pos = pos + 1;
                            }
                            k = k + 1;
                        }
                        results.insert(pos, x);
                        assert(before.push(x).drop_last() =~= before);
                    }
                },
                None => {},
            }
        }
        results
    }

    /// Get the active incentive with the highest reward for a specific manufacturer and waste type
    /// Returns None if no active incentive is found
    pub fn get_active_incentive_for_manufacturer(
        &self,
        manufacturer: AccountId,
        waste_type: WasteType,
    ) -> (r: Option<Incentive>)
        ensures
            r == best_incentive(
                self@.incentives,
                list_at(self@.rewarder_incentives, manufacturer),
                waste_type,
                list_at(self@.rewarder_incentives, manufacturer).len() as int,
            ),
    {
        let incentive_ids = self.get_incentives_by_rewarder(manufacturer);
        let ghost ids = incentive_ids@;
        let mut best: Option<Incentive> = None;
        for k in 0..incentive_ids.len()
            invariant
                ids == incentive_ids@,
                best == best_incentive(self@.incentives, ids, waste_type, k as int),
        {
            let incentive_id = incentive_ids[k];
            match self.incentives.get(&incentive_id) {
                Some(incentive) => {
                    if incentive.is_active && incentive.waste_type == waste_type {
                        let better = match best {
                            None => true,
                            Some(b) => incentive.reward > b.reward,
                        };
                        if better {
                            best = Some(*incentive);
                        }
                    }
                },
                None => {},
            }
        }
        best
    }

    /// Deactivate an incentive (only by creator)
    pub fn deactivate_incentive(&mut self, incentive_id: u64, rewarder: AccountId) -> (r: Result<
        Incentive,
        ContractError,
    >)
        ensures
            !old(self)@.incentives.contains_key(incentive_id) ==> r == Err::<
                Incentive,
                ContractError,
            >(ContractError::IncentiveNotFound) && final(self)@ == old(self)@,
            old(self)@.incentives.contains_key(incentive_id)
                && old(self)@.incentives[incentive_id].rewarder != rewarder ==> r == Err::<
                Incentive,
                ContractError,
            >(ContractError::NotIncentiveCreator) && final(self)@ == old(self)@,
            old(self)@.incentives.contains_key(incentive_id)
                && old(self)@.incentives[incentive_id].rewarder == rewarder ==> {
                let inc = Incentive { is_active: false, ..old(self)@.incentives[incentive_id] };
                &&& r == Ok::<Incentive, ContractError>(inc)
                &&& final(self)@ == (ContractState {
                    incentives: old(self)@.incentives.insert(incentive_id, inc),
                    ..old(self)@
                })
            },
    {
        let mut incentive = match self.incentives.get(&incentive_id) {
            Some(i) => *i,
            None => {
                return Err(ContractError::IncentiveNotFound);
            },
        };
        if incentive.rewarder != rewarder {
            return Err(ContractError::NotIncentiveCreator);
        }
        incentive.is_active = false;
        self.set_incentive(incentive_id, incentive);
        Ok(incentive)
    }
}

} // verus!
