//! Material submission, verification, ownership transfer and the global
//! weight and token totals.
use vstd::prelude::*;

use super::participants::{
    after_participant_stats, lookup, participant_stats_refusal, registration_refusal,
};
use super::{list_at, ContractError, ContractState, ScavengerContract};
use crate::types::{
    reward_points, Material, ParticipantRole, RecyclingStats, WasteTransfer, WasteType,
};
use crate::AccountId;

verus! {

broadcast use vstd::std_specs::hash::group_hash_axioms;

/// Empty statistics of a participant.
pub open spec fn fresh_stats(a: AccountId) -> RecyclingStats {
    RecyclingStats {
        participant: a,
        total_submissions: 0,
        verified_submissions: 0,
        total_weight: 0,
        total_points: 0,
    }
}

/// The statistics stored for `a`, or empty ones.
pub open spec fn stats_of(s: ContractState, a: AccountId) -> RecyclingStats {
    if s.stats.contains_key(a) {
        s.stats[a]
    } else {
        fresh_stats(a)
    }
}

/// The material that `submit_material` creates.
pub open spec fn submitted_material(
    s: ContractState,
    waste_type: WasteType,
    weight: u64,
    submitter: AccountId,
    now: u64,
    description: String,
) -> Material {
    Material {
        id: (s.waste_count + 1) as u64,
        waste_type,
        weight,
        submitter,
        submitted_at: now,
        verified: false,
        description,
    }
}

/// Why `submit_material` refuses, if it does.
pub open spec fn submit_refusal(s: ContractState, submitter: AccountId, weight: u64) -> Option<
    ContractError,
> {
    if registration_refusal(s, submitter) is Some {
        registration_refusal(s, submitter)
    } else if s.waste_count == u64::MAX {
        Some(ContractError::CounterOverflow)
    } else if !stats_of(s, submitter).submission_fits(weight) {
        Some(ContractError::CounterOverflow)
    } else if participant_stats_refusal(s, submitter, weight, 0) is Some {
        participant_stats_refusal(s, submitter, weight, 0)
    } else if s.total_weight + weight > u64::MAX {
        Some(ContractError::TotalWeightOverflow)
    } else {
        None
    }
}

/// The state after `submit_material` stores `m`.
pub open spec fn after_submit(s: ContractState, m: Material) -> ContractState {
    let s1 = ContractState {
        waste_count: m.id,
        materials: s.materials.insert(m.id, m),
        stats: s.stats.insert(m.submitter, stats_of(s, m.submitter).after_submission(m.weight)),
        ..s
    };
    let s2 = after_participant_stats(s1, m.submitter, m.weight, 0);
    ContractState { total_weight: (s2.total_weight + m.weight) as u64, ..s2 }
}

/// Identifiers in 1..=n of the stored materials submitted (currently owned) by `a`,
/// in increasing order.
pub open spec fn owned_material_ids(materials: Map<u64, Material>, a: AccountId, n: nat) -> Seq<
    u64,
>
    decreases n,
{
    if n == 0 {
        Seq::empty()
    } else {
        let prev = owned_material_ids(materials, a, (n - 1) as nat);
        if materials.contains_key(n as u64) && materials[n as u64].submitter == a {
            prev.push(n as u64)
        } else {
            prev
        }
    }
}

/// Why a verifier may not verify materials, if it may not.
pub open spec fn verifier_refusal(s: ContractState, verifier: AccountId) -> Option<ContractError> {
    if !s.participants.contains_key(verifier) {
        Some(ContractError::VerifierNotFound)
    } else if !s.participants[verifier].is_registered {
        Some(ContractError::VerifierNotRegistered)
    } else if s.participants[verifier].role != ParticipantRole::Recycler {
        Some(ContractError::OnlyRecyclersVerify)
    } else {
        None
    }
}

/// Verifying a stored material: the material is marked verified, its
/// submitter's statistics and token totals grow by its reward points.
/// Refused (Err) when a counter would overflow.
pub open spec fn verify_one(s: ContractState, id: u64) -> Result<ContractState, ContractError> {
    let m = Material { verified: true, ..s.materials[id] };
    let points = reward_points(m.waste_type, m.weight) as u64;
    let st = stats_of(s, m.submitter);
    let s1 = ContractState {
        materials: s.materials.insert(id, m),
        stats: s.stats.insert(m.submitter, st.after_verification(points)),
        ..s
    };
    if !st.verification_fits(points) {
        Err(ContractError::CounterOverflow)
    } else if participant_stats_refusal(s1, m.submitter, 0, points) is Some {
        Err(participant_stats_refusal(s1, m.submitter, 0, points)->0)
    } else {
        Ok(after_participant_stats(s1, m.submitter, 0, points))
    }
}

/// Verifying the stored materials among `ids[i..]` one after the other
/// (absent ones are skipped): the final state and the verified records, or
/// the first refusal.
pub open spec fn verify_all(s: ContractState, ids: Seq<u64>, i: int) -> Result<
    (ContractState, Seq<Material>),
    ContractError,
>
    decreases ids.len() - i,
{
    if i >= ids.len() || i < 0 {
        Ok((s, Seq::empty()))
    } else if !s.materials.contains_key(ids[i]) {
        verify_all(s, ids, i + 1)
    } else {
        match verify_one(s, ids[i]) {
            Err(e) => Err(e),
            Ok(s1) => match verify_all(s1, ids, i + 1) {
                Err(e) => Err(e),
                Ok((s2, ms)) => Ok((s2, seq![s1.materials[ids[i]]] + ms)),
            },
        }
    }
}

/// The weights of a batch of submissions, added up.
pub open spec fn batch_weight(items: Seq<(WasteType, u64, String)>, n: int) -> int
    decreases n,
{
    if n <= 0 || n > items.len() {
        0
    } else {
        batch_weight(items, n - 1) + items[n - 1].1
    }
}

/// The materials a batch submission creates, numbered from `count + 1`.
pub open spec fn batch_materials(
    items: Seq<(WasteType, u64, String)>,
    submitter: AccountId,
    count: u64,
    now: u64,
) -> Seq<Material> {
    Seq::new(
        items.len(),
        |i: int|
            Material {
                id: (count + i + 1) as u64,
                waste_type: items[i].0,
                weight: items[i].1,
                submitter,
                submitted_at: now,
                verified: false,
                description: items[i].2,
            },
    )
}

/// The refusal met at item `i` of a batch submission, if any: the identifier
/// counter, the submitter's statistics, or the batch weight overflows.
pub open spec fn batch_item_refusal(
    items: Seq<(WasteType, u64, String)>,
    count: u64,
    st: RecyclingStats,
    i: int,
) -> Option<ContractError> {
    if count + i + 1 > u64::MAX {
        Some(ContractError::CounterOverflow)
    } else if st.total_submissions + i + 1 > u64::MAX || st.total_weight + batch_weight(
        items,
        i + 1,
    ) > u64::MAX {
        Some(ContractError::CounterOverflow)
    } else if batch_weight(items, i + 1) > u64::MAX {
        Some(ContractError::BatchWeightOverflow)
    } else {
        None
    }
}

/// The first refusal met among items `i..` of a batch submission.
pub open spec fn batch_refusal_from(
    items: Seq<(WasteType, u64, String)>,
    count: u64,
    st: RecyclingStats,
    i: int,
) -> Option<ContractError>
    decreases items.len() - i,
{
    if i < 0 || i >= items.len() {
        None
    } else if batch_item_refusal(items, count, st, i) is Some {
        batch_item_refusal(items, count, st, i)
    } else {
        batch_refusal_from(items, count, st, i + 1)
    }
}

/// Why a batch submission is refused, if it is.
pub open spec fn batch_refusal(
    s: ContractState,
    items: Seq<(WasteType, u64, String)>,
    submitter: AccountId,
) -> Option<ContractError> {
    if registration_refusal(s, submitter) is Some {
        registration_refusal(s, submitter)
    } else if batch_refusal_from(items, s.waste_count, stats_of(s, submitter), 0) is Some {
        batch_refusal_from(items, s.waste_count, stats_of(s, submitter), 0)
    } else {
        participant_stats_refusal(
            s,
            submitter,
            batch_weight(items, items.len() as int) as u64,
            0,
        )
    }
}

/// The state after a batch submission: the materials are stored, the
/// counter and the submitter's statistics and processed weight grow (the
/// global total weight does not).
pub open spec fn after_batch(
    s: ContractState,
    items: Seq<(WasteType, u64, String)>,
    submitter: AccountId,
    now: u64,
) -> ContractState {
    let ms = batch_materials(items, submitter, s.waste_count, now);
    let n = items.len();
    let w = batch_weight(items, n as int);
    let st = stats_of(s, submitter);
    let s1 = ContractState {
        waste_count: (s.waste_count + n) as u64,
        materials: Map::new(
            |k: u64|
                s.materials.contains_key(k) || (s.waste_count < k && k <= s.waste_count + n),
            |k: u64|
                if s.waste_count < k && k <= s.waste_count + n {
                    ms[k - s.waste_count - 1]
                } else {
                    s.materials[k]
                },
        ),
        stats: s.stats.insert(
            submitter,
            RecyclingStats {
                total_submissions: (st.total_submissions + n) as u64,
                total_weight: (st.total_weight + w) as u64,
                ..st
            },
        ),
        ..s
    };
    after_participant_stats(s1, submitter, w as u64, 0)
}

impl ScavengerContract {
    /// A copy of the whole storage.
    pub fn snapshot(&self) -> (r: Self)
        ensures
            r@ == self@,
    {
        ScavengerContract {
            admin: self.admin,
            charity: self.charity,
            collector_pct: self.collector_pct,
            owner_pct: self.owner_pct,
            total_weight: self.total_weight,
            total_tokens: self.total_tokens,
            waste_count: self.waste_count,
            incentive_count: self.incentive_count,
            participants: self.participants.clone(),
            materials: self.materials.clone(),
            wastes: self.wastes.clone(),
            stats: self.stats.clone(),
            incentives: self.incentives.clone(),
            rewarder_incentives: self.rewarder_incentives.clone(),
            type_incentives: self.type_incentives.clone(),
            participant_wastes: self.participant_wastes.clone(),
            transfers: self.transfers.clone(),
            transfer_history: self.transfer_history.clone(),
        }
    }

    /// Get the total count of waste records
    pub fn get_waste_count(&self) -> (r: u64)
        ensures
            r == self@.waste_count,
    {
        self.waste_count
    }

    /// Increment and return the next waste ID
    pub fn next_waste_id(&mut self) -> (r: Result<u64, ContractError>)
        ensures
            old(self)@.waste_count == u64::MAX ==> r == Err::<u64, ContractError>(
                ContractError::CounterOverflow,
            ) && final(self)@ == old(self)@,
            old(self)@.waste_count < u64::MAX ==> r == Ok::<u64, ContractError>(
                (old(self)@.waste_count + 1) as u64,
            ) && final(self)@ == (ContractState {
                waste_count: (old(self)@.waste_count + 1) as u64,
                ..old(self)@
            }),
    {
        if self.waste_count == u64::MAX {
            return Err(ContractError::CounterOverflow);
        }
        self.waste_count = self.waste_count + 1;
        Ok(self.waste_count)
    }

    /// Check if a waste (material) record exists
    pub fn waste_exists(&self, waste_id: u64) -> (r: bool)
        ensures
            r == self@.materials.contains_key(waste_id),
    {
        self.materials.contains_key(&waste_id)
    }

    /// Retrieve a waste (material) record by ID; None if it doesn't exist
    pub fn get_waste_internal(&self, waste_id: u64) -> (r: Option<Material>)
        ensures
            r == lookup(self@.materials, waste_id),
    {
        match self.materials.get(&waste_id) {
            Some(m) => Some(m.duplicate()),
            None => None,
        }
    }

    /// Get waste by ID (primary public interface)
    /// Returns the waste/material record if it exists, None otherwise
    pub fn get_waste(&self, waste_id: u64) -> (r: Option<Material>)
        ensures
            r == lookup(self@.materials, waste_id),
    {
        self.get_waste_internal(waste_id)
    }

    /// Get material by ID (alias for backward compatibility)
    pub fn get_material(&self, material_id: u64) -> (r: Option<Material>)
        ensures
            r == lookup(self@.materials, material_id),
    {
        self.get_waste(material_id)
    }

    /// Get waste by ID (alias for backward compatibility)
    pub fn get_waste_by_id(&self, waste_id: u64) -> (r: Option<Material>)
        ensures
            r == lookup(self@.materials, waste_id),
    {
        self.get_waste(waste_id)
    }

    /// Convert waste type enum to a human-readable string.
    pub fn get_waste_type_string(waste_type: WasteType) -> (r: String)
        ensures
            r@ == waste_type.name(),
    {
        waste_type.as_str().to_string()
    }

    /// Get global total weight
    pub fn get_total_weight(&self) -> (r: u64)
        ensures
            r == self@.total_weight,
    {
        self.total_weight
    }

    /// Add to global total weight
    pub fn add_to_total_weight(&mut self, weight: u64) -> (r: Result<(), ContractError>)
        ensures
            old(self)@.total_weight + weight > u64::MAX ==> r == Err::<(), ContractError>(
                ContractError::TotalWeightOverflow,
            ) && final(self)@ == old(self)@,
            old(self)@.total_weight + weight <= u64::MAX ==> r is Ok && final(self)@ == (
            ContractState { total_weight: (old(self)@.total_weight + weight) as u64, ..old(self)@ }),
    {
        if self.total_weight > u64::MAX - weight {
            return Err(ContractError::TotalWeightOverflow);
        }
        self.total_weight = self.total_weight + weight;
        Ok(())
    }

    /// Get global total tokens earned
    pub fn get_total_tokens(&self) -> (r: u128)
        ensures
            r == self@.total_tokens,
    {
        self.total_tokens
    }

    /// Add to global total tokens
    pub fn add_to_total_tokens(&mut self, tokens: u128) -> (r: Result<(), ContractError>)
        ensures
            old(self)@.total_tokens + tokens > u128::MAX ==> r == Err::<(), ContractError>(
                ContractError::TotalTokensOverflow,
            ) && final(self)@ == old(self)@,
            old(self)@.total_tokens + tokens <= u128::MAX ==> r is Ok && final(self)@ == (
            ContractState { total_tokens: (old(self)@.total_tokens + tokens) as u128, ..old(self)@ }),
    {
        if self.total_tokens > u128::MAX - tokens {
            return Err(ContractError::TotalTokensOverflow);
        }
        self.total_tokens = self.total_tokens + tokens;
        Ok(())
    }

    /// Submit a new material for recycling
    pub fn submit_material(
        &mut self,
        waste_type: WasteType,
        weight: u64,
        submitter: AccountId,
        description: String,
        now: u64,
    ) -> (r: Result<Material, ContractError>)
        ensures
            r == (match submit_refusal(old(self)@, submitter, weight) {
                Some(e) => Err(e),
                None => Ok(
                    submitted_material(old(self)@, waste_type, weight, submitter, now, description),
                ),
            }),
            r matches Ok(m) ==> final(self)@ == after_submit(old(self)@, m),
            r is Err ==> final(self)@ == old(self)@,
    {
        self.require_registered(submitter)?;
        if self.waste_count == u64::MAX {
            return Err(ContractError::CounterOverflow);
        }
        let id = self.waste_count + 1;
        let material = Material::new(id, waste_type, weight, submitter, now, description);
        let mut stats = match self.stats.get(&submitter) {
            Some(s) => *s,
            None => RecyclingStats::new(submitter),
        };
        if !stats.record_submission(&material) {
            return Err(ContractError::CounterOverflow);
        }
        match self.participants.get(&submitter) {
            Some(p) => {
                if p.total_waste_processed > u128::MAX - weight as u128 {
                    return Err(ContractError::WasteProcessedOverflow);
                }
            },
            None => {},
        }
        if self.total_weight > u64::MAX - weight {
            return Err(ContractError::TotalWeightOverflow);
        }
        let ghost s0 = self@;
        self.waste_count = id;
        self.materials.insert(id, material.duplicate());
        self.stats.insert(submitter, stats);
        let ghost s1 = self@;
        assert(s1 == ContractState {
            waste_count: material.id,
            materials: s0.materials.insert(material.id, material),
            stats: s0.stats.insert(submitter, stats_of(s0, submitter).after_submission(weight)),
            ..s0
        });
        let res = self.update_participant_stats(submitter, weight, 0);
        proof {
            assert(res is Ok);
        }
        self.total_weight = self.total_weight + weight;
        Ok(material)
    }

    /// Batch submit multiple materials for recycling
    /// More efficient than individual submissions
    pub fn submit_materials_batch(
        &mut self,
        materials: Vec<(WasteType, u64, String)>,
        submitter: AccountId,
        now: u64,
    ) -> (r: Result<Vec<Material>, ContractError>)
        ensures
            r is Err ==> r == Err::<Vec<Material>, ContractError>(
                batch_refusal(old(self)@, materials@, submitter)->0,
            ) && final(self)@ == old(self)@,
            batch_refusal(old(self)@, materials@, submitter) is Some ==> r is Err,
            batch_refusal(old(self)@, materials@, submitter) is None ==> {
                &&& r matches Ok(ms) && ms@ == batch_materials(
                    materials@,
                    submitter,
                    old(self)@.waste_count,
                    now,
                )
                &&& final(self)@ == after_batch(old(self)@, materials@, submitter, now)
            },
            r matches Ok(ms) ==> ms@.len() == materials@.len() && forall|i: int|
                0 <= i < ms@.len() ==> #[trigger] ms@[i].waste_type == materials@[i].0
                    && ms@[i].weight == materials@[i].1 && ms@[i].description == materials@[i].2,
    {
        self.require_registered(submitter)?;
        let count = self.waste_count;
        let st0 = match self.stats.get(&submitter) {
            Some(s) => *s,
            None => RecyclingStats::new(submitter),
        };
        let mut stats = st0;
        let mut results: Vec<Material> = Vec::new();
        let mut total_weight: u64 = 0;
        let n = materials.len();
        let ghost items = materials@;
        let ghost ms = batch_materials(items, submitter, count, now);
        let ghost s_in = self@;
        assert(stats_of(s_in, submitter) == st0);
        for i in 0..n
            invariant
                self@ == s_in,
                s_in == old(self)@,
                registration_refusal(s_in, submitter) is None,
                stats_of(s_in, submitter) == st0,
                count == s_in.waste_count,
                n == items.len(),
                items == materials@,
                ms == batch_materials(items, submitter, count, now),
                batch_refusal_from(items, count, st0, 0) == batch_refusal_from(
                    items,
                    count,
                    st0,
                    i as int,
                ),
                results@ == ms.subrange(0, i as int),
                total_weight == batch_weight(items, i as int),
                stats == (RecyclingStats {
                    total_submissions: (st0.total_submissions + i) as u64,
                    total_weight: (st0.total_weight + batch_weight(items, i as int)) as u64,
                    ..st0
                }),
                st0.total_submissions + i <= u64::MAX,
                st0.total_weight + batch_weight(items, i as int) <= u64::MAX,
                count + i <= u64::MAX,
        {
            let item = &materials[i];
            assert(batch_weight(items, i + 1) == batch_weight(items, i as int) + items[i as int].1);
            assert(batch_refusal_from(items, count, st0, i as int) == if batch_item_refusal(
                items,
                count,
                st0,
                i as int,
            ) is Some {
                batch_item_refusal(items, count, st0, i as int)
            } else {
                batch_refusal_from(items, count, st0, i + 1)
            });
            if count == u64::MAX || i as u64 >= u64::MAX - count {
                return Err(ContractError::CounterOverflow);
            }
            let id = count + i as u64 + 1;
            let material = Material::new(id, item.0, item.1, submitter, now, item.2.clone());
            if !stats.record_submission(&material) {
                return Err(ContractError::CounterOverflow);
            }
            if total_weight > u64::MAX - item.1 {
                return Err(ContractError::BatchWeightOverflow);
            }
            total_weight = total_weight + item.1;
            assert(material == ms[i as int]);
            results.push(material);
            assert(results@ =~= ms.subrange(0, i + 1));
        }
        assert(results@ =~= ms);
        match self.participants.get(&submitter) {
            Some(p) => {
                if p.total_waste_processed > u128::MAX - total_weight as u128 {
                    return Err(ContractError::WasteProcessedOverflow);
                }
            },
            None => {},
        }
        let ghost s0 = self@;
        for i in 0..n
            invariant
                n == ms.len(),
                ms == batch_materials(items, submitter, count, now),
                results@ == ms,
                count == s0.waste_count,
                count + n <= u64::MAX,
                self@ == (ContractState {
                    materials: Map::new(
                        |k: u64| s0.materials.contains_key(k) || (count < k && k <= count + i),
                        |k: u64|
                            if count < k && k <= count + i {
                                ms[k - count - 1]
                            } else {
                                s0.materials[k]
                            },
                    ),
                    ..s0
                }),
        {
            let m = results[i].duplicate();
            assert(m == ms[i as int]);
            assert(ms[i as int].id == (count + i + 1) as u64);
            assert(count + i + 1 <= u64::MAX);
            assert(m.id == count + i + 1);
            self.materials.insert(m.id, m);
            assert(self@.materials =~= Map::new(
                |k: u64| s0.materials.contains_key(k) || (count < k && k <= count + i + 1),
                |k: u64|
                    if count < k && k <= count + i + 1 {
                        ms[k - count - 1]
                    } else {
                        s0.materials[k]
                    },
            ));
        }
        self.waste_count = count + n as u64;
        self.stats.insert(submitter, stats);
        let res = self.update_participant_stats(submitter, total_weight, 0);
        proof {
            assert(res is Ok);
        }
        Ok(results)
    }

    /// Get all waste IDs owned by a participant
    /// Returns a vector of waste IDs where the participant is the current submitter/owner
    pub fn get_participant_wastes(&self, participant: AccountId) -> (r: Vec<u64>)
        ensures
            r@ == owned_material_ids(self@.materials, participant, self@.waste_count as nat),
    {
        let mut waste_ids: Vec<u64> = Vec::new();
        let waste_count = self.waste_count;
        let mut waste_id: u64 = 0;
        while waste_id < waste_count
            invariant
                waste_id <= waste_count,
                waste_count == self@.waste_count,
                waste_ids@ == owned_material_ids(self@.materials, participant, waste_id as nat),
            decreases waste_count - waste_id,
        {
            waste_id = waste_id + 1;
            match self.materials.get(&waste_id) {
                Some(m) => {
                    if m.submitter == participant {
                        waste_ids.push(waste_id);
                    }
                },
                None => {},
            }
        }
        waste_ids
    }

    /// Get multiple wastes by IDs (batch retrieval)
    pub fn get_wastes_batch(&self, waste_ids: &Vec<u64>) -> (r: Vec<Option<Material>>)
        ensures
            r@.len() == waste_ids@.len(),
            forall|i: int|
                0 <= i < waste_ids@.len() ==> #[trigger] r@[i] == lookup(
                    self@.materials,
                    waste_ids@[i],
                ),
    {
        let mut results: Vec<Option<Material>> = Vec::new();
        for i in 0..waste_ids.len()
            invariant
                results@.len() == i,
                forall|j: int|
                    0 <= j < i ==> #[trigger] results@[j] == lookup(
                        self@.materials,
                        waste_ids@[j],
                    ),
        {
            results.push(self.get_waste_internal(waste_ids[i]));
        }
        results
    }

    /// Verify one stored material (the verifier was checked by the caller).
    fn verify_stored(&mut self, material_id: u64) -> (r: Result<Material, ContractError>)
        requires
            old(self)@.materials.contains_key(material_id),
        ensures
            r is Err ==> verify_one(old(self)@, material_id) == Err::<ContractState, ContractError>(
                r->Err_0,
            ),
            r matches Ok(m) ==> verify_one(old(self)@, material_id) == Ok::<
                ContractState,
                ContractError,
            >(final(self)@) && m == (Material {
                verified: true,
                ..old(self)@.materials[material_id]
            }),
            verify_one(old(self)@, material_id) is Ok ==> r is Ok,
    {
        let mut material = self.materials.get(&material_id).unwrap().duplicate();
        material.verify();
        let tokens_earned = material.calculate_reward_points();
        let submitter = material.submitter;
        let mut stats = match self.stats.get(&submitter) {
            Some(s) => *s,
            None => RecyclingStats::new(submitter),
        };
        if !stats.record_verification(&material) {
            return Err(ContractError::CounterOverflow);
        }
        let ghost s0 = self@;
        self.materials.insert(material_id, material.duplicate());
        self.stats.insert(submitter, stats);
        let res = self.update_participant_stats(submitter, 0, tokens_earned);
        match res {
            Ok(()) => Ok(material),
            Err(e) => Err(e),
        }
    }

    /// Verify a material submission (only recyclers can verify)
    pub fn verify_material(&mut self, material_id: u64, verifier: AccountId) -> (r: Result<
        Material,
        ContractError,
    >)
        ensures
            verifier_refusal(old(self)@, verifier) matches Some(e) ==> r == Err::<
                Material,
                ContractError,
            >(e),
            verifier_refusal(old(self)@, verifier) is None && !old(self)@.materials.contains_key(
                material_id,
            ) ==> r == Err::<Material, ContractError>(ContractError::MaterialNotFound),
            verifier_refusal(old(self)@, verifier) is None && old(self)@.materials.contains_key(
                material_id,
            ) ==> match verify_one(old(self)@, material_id) {
                Err(e) => r == Err::<Material, ContractError>(e),
                Ok(s) => r == Ok::<Material, ContractError>(
                    Material { verified: true, ..old(self)@.materials[material_id] },
                ) && final(self)@ == s,
            },
            r is Err ==> final(self)@ == old(self)@,
    {
        match self.participants.get(&verifier) {
            None => {
                return Err(ContractError::VerifierNotFound);
            },
            Some(p) => {
                if !p.is_registered {
                    return Err(ContractError::VerifierNotRegistered);
                }
                if !p.role.can_process_recyclables() {
                    return Err(ContractError::OnlyRecyclersVerify);
                }
            },
        }
        if !self.materials.contains_key(&material_id) {
            return Err(ContractError::MaterialNotFound);
        }
        let mut work = self.snapshot();
        match work.verify_stored(material_id) {
            Ok(m) => {
                *self = work;
                Ok(m)
            },
            Err(e) => Err(e),
        }
    }

    /// Batch verify multiple materials (unknown identifiers are skipped)
    pub fn verify_materials_batch(&mut self, material_ids: &Vec<u64>, verifier: AccountId) -> (r:
        Result<Vec<Material>, ContractError>)
        ensures
            verifier_refusal(old(self)@, verifier) matches Some(e) ==> r == Err::<
                Vec<Material>,
                ContractError,
            >(e),
            verifier_refusal(old(self)@, verifier) is None ==> match verify_all(
                old(self)@,
                material_ids@,
                0,
            ) {
                Err(e) => r == Err::<Vec<Material>, ContractError>(e),
                Ok((s, ms)) => r matches Ok(v) && v@ == ms && final(self)@ == s,
            },
            r is Err ==> final(self)@ == old(self)@,
    {
        match self.participants.get(&verifier) {
            None => {
                return Err(ContractError::VerifierNotFound);
            },
            Some(p) => {
                if !p.is_registered {
                    return Err(ContractError::VerifierNotRegistered);
                }
                if !p.role.can_process_recyclables() {
                    return Err(ContractError::OnlyRecyclersVerify);
                }
            },
        }
        let ghost s0 = self@;
        let ghost ids = material_ids@;
        let mut work = self.snapshot();
        let mut results: Vec<Material> = Vec::new();
        let n = material_ids.len();
        for i in 0..n
            invariant
                n == ids.len(),
                ids == material_ids@,
                s0 == old(self)@,
                self@ == s0,
                verifier_refusal(s0, verifier) is None,
                verify_all(s0, ids, 0) == (match verify_all(work@, ids, i as int) {
                    Err(e) => Err(e),
                    Ok((s2, ms)) => Ok((s2, results@ + ms)),
                }),
        {
            let id = material_ids[i];
            let ghost before = work@;
            if work.materials.contains_key(&id) {
                let ghost prev = results@;
                match work.verify_stored(id) {
                    Ok(m) => {
                        results.push(m);
                        proof {
                            match verify_all(work@, ids, i + 1) {
                                Err(e) => {},
                                Ok((s2, ms)) => {
                                    assert(results@ + ms =~= prev + (seq![m] + ms));
                                },
                            }
                        }
                    },
                    Err(e) => {
                        assert(verify_all(before, ids, i as int) == Err::<
                            (ContractState, Seq<Material>),
                            ContractError,
                        >(e));
                        return Err(e);
                    },
                }
            }
        }
        assert(results@ + Seq::<Material>::empty() =~= results@);
        *self = work;
        Ok(results)
    }

    /// Store a waste (material) record by ID, replacing any earlier one.
    fn set_waste(&mut self, waste_id: u64, material: Material)
        ensures
            final(self)@ == (ContractState {
                materials: old(self)@.materials.insert(waste_id, material),
                ..old(self)@
            }),
    {
        self.materials.insert(waste_id, material);
    }

    /// Record a waste transfer
    /// Appends to immutable history (no coordinates are known: they are 0)
    fn record_transfer(&mut self, waste_id: u64, from: AccountId, to: AccountId, note: String, now: u64)
        ensures
            final(self)@ == (ContractState {
                transfers: old(self)@.transfers.insert(
                    waste_id,
                    list_at(old(self)@.transfers, waste_id).push(
                        WasteTransfer {
                            waste_id: waste_id as u128,
                            from,
                            to,
                            transferred_at: now,
                            latitude: 0,
                            longitude: 0,
                            note,
                        },
                    ),
                ),
                ..old(self)@
            }),
    {
        let mut history = match self.transfers.remove(&waste_id) {
            Some(h) => h,
            None => Vec::new(),
        };
        let transfer = WasteTransfer::new(waste_id as u128, from, to, now, 0, 0, note);
        history.push(transfer);
        self.transfers.insert(waste_id, history);
        assert(self@.transfers =~= old(self)@.transfers.insert(
            waste_id,
            list_at(old(self)@.transfers, waste_id).push(self@.transfers[waste_id].last()),
        ));
    }

    /// Transfer waste ownership from one participants to another; the
    /// history records the hand-over with the caller's note
    pub fn transfer_waste(
        &mut self,
        waste_id: u64,
        from: AccountId,
        to: AccountId,
        note: String,
        now: u64,
    ) -> (r: Result<Material, ContractError>)
        ensures
            !old(self)@.participants.contains_key(from) ==> r == Err::<Material, ContractError>(
                ContractError::SenderNotRegistered,
            ),
            old(self)@.participants.contains_key(from) && !old(self)@.participants.contains_key(to)
                ==> r == Err::<Material, ContractError>(ContractError::ReceiverNotRegistered),
            old(self)@.participants.contains_key(from) && old(self)@.participants.contains_key(to)
                && !old(self)@.materials.contains_key(waste_id) ==> r == Err::<
                Material,
                ContractError,
            >(ContractError::WasteNotFound),
            old(self)@.participants.contains_key(from) && old(self)@.participants.contains_key(to)
                && old(self)@.materials.contains_key(waste_id)
                && old(self)@.materials[waste_id].submitter != from ==> r == Err::<
                Material,
                ContractError,
            >(ContractError::NotWasteOwner),
            old(self)@.participants.contains_key(from) && old(self)@.participants.contains_key(to)
                && old(self)@.materials.contains_key(waste_id)
                && old(self)@.materials[waste_id].submitter == from ==> r is Ok,
            r is Err ==> final(self)@ == old(self)@,
            r matches Ok(m) ==> {
                &&& old(self)@.participants.contains_key(from)
                &&& old(self)@.participants.contains_key(to)
                &&& old(self)@.materials.contains_key(waste_id)
                &&& old(self)@.materials[waste_id].submitter == from
                &&& m == Material { submitter: to, ..old(self)@.materials[waste_id] }
                &&& final(self)@ == (ContractState {
                    materials: old(self)@.materials.insert(waste_id, m),
                    transfers: old(self)@.transfers.insert(
                        waste_id,
                        list_at(old(self)@.transfers, waste_id).push(
                            WasteTransfer {
                                waste_id: waste_id as u128,
                                from,
                                to,
                                transferred_at: now,
                                latitude: 0,
                                longitude: 0,
                                note,
                            },
                        ),
                    ),
                    ..old(self)@
                })
            },
    {
        if !self.participants.contains_key(&from) {
            return Err(ContractError::SenderNotRegistered);
        }
        if !self.participants.contains_key(&to) {
            return Err(ContractError::ReceiverNotRegistered);
        }
        let mut material = match self.materials.get(&waste_id) {
            Some(m) => m.duplicate(),
            None => {
                return Err(ContractError::WasteNotFound);
            },
        };
        if material.submitter != from {
            return Err(ContractError::NotWasteOwner);
        }
        material.submitter = to;
        self.set_waste(waste_id, material.duplicate());
        self.record_transfer(waste_id, from, to, note, now);
        Ok(material)
    }

    /// Get transfer history for a specific waste
    /// Returns chronologically ordered list of transfers
    pub fn get_transfer_history(&self, waste_id: u64) -> (r: Vec<WasteTransfer>)
        ensures
            r@ == list_at(self@.transfers, waste_id),
    {
        let mut out: Vec<WasteTransfer> = Vec::new();
        match self.transfers.get(&waste_id) {
            None => {},
            Some(h) => {
                for i in 0..h.len()
                    invariant
                        out@ == h@.subrange(0, i as int),
                {
                    out.push(h[i].duplicate());
                    assert(out@ =~= h@.subrange(0, i + 1));
                }
                assert(out@ =~= h@);
            },
        }
        out
    }

    /// Get complete transfer history for a waste (alias for get_transfer_history)
    pub fn get_waste_transfer_history(&self, waste_id: u64) -> (r: Vec<WasteTransfer>)
        ensures
            r@ == list_at(self@.transfers, waste_id),
    {
        self.get_transfer_history(waste_id)
    }

    /// Get all transfers for a participant (as sender): no index is kept, so
    /// the answer is always empty.
    pub fn get_transfers_from(&self, address: AccountId) -> (r: Vec<(u64, Vec<WasteTransfer>)>)
        ensures
            r@.len() == 0,
    {
        Vec::new()
    }

    /// Get all transfers for a participant (as receiver): no index is kept,
    /// so the answer is always empty.
    pub fn get_transfers_to(&self, address: AccountId) -> (r: Vec<(u64, Vec<WasteTransfer>)>)
        ensures
            r@.len() == 0,
    {
        Vec::new()
    }
}

} // verus!
