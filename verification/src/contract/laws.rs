//! Properties of the contract that relate several calls or hold of every state.
use vstd::prelude::*;

use super::incentives::{
    after_create_incentive, best_incentive, incentive_reward, incentives_where, insert_by_reward,
    reward_descending, reward_rank, sort_by_reward,
};
use super::materials::{
    after_submit, batch_materials, owned_material_ids, stats_of, submitted_material, verify_one,
};
use super::participants::{lookup, new_participant, transfer_allowed};
use super::wastes::{
    active_weight, active_weight_sum, after_collected, after_confirm, after_deactivate,
    after_new_waste, after_reset, after_transfer_v2, confirm_refusal, deactivate_refusal,
    deactivation_kept, fresh_waste, reset_refusal, transfer_v2_refusal, without, without_prefix,
};
use super::{list_at, ContractState, Incentive};
use crate::types::{Material, ParticipantRole, Waste, WasteTransfer, WasteType};
use crate::AccountId;

verus! {

/// A participant registered at an address is what a later lookup of that
/// address returns.
pub proof fn law_registered_participant_is_found(
    s: ContractState,
    address: AccountId,
    role: ParticipantRole,
    name: String,
    latitude: i128,
    longitude: i128,
    now: u64,
)
    requires
        !s.participants.contains_key(address),
    ensures
        lookup(
            s.participants.insert(
                address,
                new_participant(address, role, name, latitude, longitude, now),
            ),
            address,
        ) == Some(new_participant(address, role, name, latitude, longitude, now)),
{
}

/// The incentive chosen for a manufacturer and waste type is active, of that
/// type and one of the manufacturer's, and its reward is at least that of
/// every other active incentive of that type among them; none is chosen
/// exactly when the manufacturer has no active incentive of that type.
pub proof fn law_best_incentive_is_highest(
    incs: Map<u64, Incentive>,
    ids: Seq<u64>,
    t: WasteType,
    n: int,
)
    requires
        0 <= n <= ids.len(),
    ensures
        best_incentive(incs, ids, t, n) matches Some(b) ==> {
            &&& b.is_active
            &&& b.waste_type == t
            &&& exists|k: int| 0 <= k < n && incs.contains_key(ids[k]) && incs[ids[k]] == b
        },
        forall|k: int|
            0 <= k < n && incs.contains_key(#[trigger] ids[k]) && incs[ids[k]].is_active
                && incs[ids[k]].waste_type == t ==> best_incentive(incs, ids, t, n) is Some
                && incs[ids[k]].reward <= best_incentive(incs, ids, t, n)->0.reward,
        best_incentive(incs, ids, t, n) is None <==> !exists|k: int|
            0 <= k < n && incs.contains_key(#[trigger] ids[k]) && incs[ids[k]].is_active
                && incs[ids[k]].waste_type == t,
    decreases n,
{
    if n > 0 {
        law_best_incentive_is_highest(incs, ids, t, n - 1);
        let id = ids[n - 1];
        if incs.contains_key(id) {
            assert(incs.contains_key(ids[n - 1]) && incs[ids[n - 1]] == incs[id]);
        }
    }
}

/// Resetting a confirmation undoes it: after a third party confirms a
/// record, its owner may reset the confirmation, which leaves the record
/// unconfirmed with the owner as confirmer (exactly the state before the
/// confirmation when the owner was the confirmer then), and the same third
/// party may confirm it again.
pub proof fn law_reset_undoes_confirmation(s: ContractState, waste_id: u128, confirmer: AccountId)
    requires
        confirm_refusal(s, waste_id, confirmer) is None,
    ensures
        ({
            let w = s.wastes[waste_id];
            let s1 = after_confirm(s, waste_id, confirmer);
            let s2 = after_reset(s1, waste_id);
            &&& s1.wastes[waste_id].is_confirmed
            &&& s1.wastes[waste_id].confirmer == confirmer
            &&& reset_refusal(s1, waste_id, w.current_owner) is None
            &&& s2 == (ContractState {
                wastes: s.wastes.insert(waste_id, Waste { confirmer: w.current_owner, ..w }),
                ..s
            })
            &&& w.confirmer == w.current_owner ==> s2 == s
            &&& confirm_refusal(s2, waste_id, confirmer) is None
        }),
{
    let w = s.wastes[waste_id];
    let s2 = after_reset(after_confirm(s, waste_id, confirmer), waste_id);
    if w.confirmer == w.current_owner {
        assert(s2.wastes =~= s.wastes);
    }
}

/// A deactivated waste record can be neither transferred, confirmed nor
/// deactivated again.
pub proof fn law_deactivated_waste_is_frozen(
    s: ContractState,
    waste_id: u128,
    a: AccountId,
    b: AccountId,
)
    requires
        s.wastes.contains_key(waste_id),
        !s.wastes[waste_id].is_active,
    ensures
        transfer_v2_refusal(s, waste_id, a, b) is Some,
        confirm_refusal(s, waste_id, a) is Some,
        deactivate_refusal(s, waste_id, a) is Some,
{
}

/// Deactivating an active record lowers the active total over 1..=n by its
/// weight when its identifier is in that range, and leaves it otherwise.
pub proof fn law_deactivation_lowers_active_total(wastes: Map<u128, Waste>, id: u128, n: nat)
    requires
        wastes.contains_key(id),
        wastes[id].is_active,
        n <= u64::MAX,
    ensures
        active_weight_sum(wastes.insert(id, Waste { is_active: false, ..wastes[id] }), n)
            == active_weight_sum(wastes, n) - (if 1 <= id <= n {
            wastes[id].weight as int
        } else {
            0
        }),
    decreases n,
{
    if n > 0 {
        law_deactivation_lowers_active_total(wastes, id, (n - 1) as nat);
        let w2 = wastes.insert(id, Waste { is_active: false, ..wastes[id] });
        if id == n as u128 {
            assert(active_weight(w2, n as u128) == 0);
        } else {
            assert(active_weight(w2, n as u128) == active_weight(wastes, n as u128));
        }
    }
}

/// Removing an element from a list leaves none of its occurrences.
pub proof fn lemma_without(s: Seq<u128>, x: u128, n: int)
    requires
        0 <= n <= s.len(),
    ensures
        !without_prefix(s, x, n).contains(x),
    decreases n,
{
    if n > 0 {
        lemma_without(s, x, n - 1);
        let p = without_prefix(s, x, n - 1);
        if s[n - 1] != x {
            assert forall|k: int| 0 <= k < without_prefix(s, x, n).len() implies without_prefix(
                s,
                x,
                n,
            )[k] != x by {
                if k < p.len() {
                    assert(without_prefix(s, x, n)[k] == p[k]);
                }
            }
        }
    }
}

/// A transfer between two participants moves the waste out of the sender's
/// list, to the end of the receiver's list, and leaves the other lists alone.
pub proof fn law_transfer_moves_waste(
    s: ContractState,
    waste_id: u128,
    from: AccountId,
    to: AccountId,
    other: AccountId,
)
    requires
        transfer_v2_refusal(s, waste_id, from, to) is None,
        other != from,
        other != to,
    ensures
        ({
            let pw = s.participant_wastes.insert(
                from,
                without(list_at(s.participant_wastes, from), waste_id),
            ).insert(to, list_at(s.participant_wastes, to).push(waste_id));
            &&& from != to
            &&& !list_at(pw, from).contains(waste_id)
            &&& list_at(pw, to).last() == waste_id
            &&& list_at(pw, other) == list_at(s.participant_wastes, other)
        }),
{
    assert(transfer_allowed(s, from, to));
    let l = list_at(s.participant_wastes, from);
    lemma_without(l, waste_id, l.len() as int);
}

/// Every stored material and waste record has an identifier no larger than
/// the number of identifiers handed out.
pub open spec fn ids_within_count(s: ContractState) -> bool {
    &&& forall|k: u64| #[trigger] s.materials.contains_key(k) ==> 1 <= k <= s.waste_count
    &&& forall|k: u128| #[trigger] s.wastes.contains_key(k) ==> 1 <= k <= s.waste_count
}

/// The identifier of a new waste record is not in use, and storing the record
/// keeps every identifier within the count.
pub proof fn law_new_waste_identifier_is_fresh(s: ContractState, w: Waste)
    requires
        ids_within_count(s),
        s.waste_count < u64::MAX,
        w.waste_id == s.waste_count + 1,
    ensures
        !s.wastes.contains_key(w.waste_id),
        !s.materials.contains_key((s.waste_count + 1) as u64),
        ids_within_count(after_new_waste(s, w)),
{
}

/// The identifier of a submitted material is not in use, and storing it
/// keeps every identifier within the count.
pub proof fn law_new_material_identifier_is_fresh(s: ContractState, m: Material)
    requires
        ids_within_count(s),
        s.waste_count < u64::MAX,
        m.id == s.waste_count + 1,
    ensures
        !s.materials.contains_key(m.id),
        !s.wastes.contains_key(m.id as u128),
        ids_within_count(after_submit(s, m)),
{
    let s2 = after_submit(s, m);
    assert(s2.materials == s.materials.insert(m.id, m));
    assert(s2.wastes == s.wastes);
}


/// Deactivation is permanent and records are never removed: registering,
/// handing over, confirming, resetting and deactivating records all keep every
/// deactivated record deactivated (no call reactivates one).
pub proof fn law_deactivation_is_permanent(
    s: ContractState,
    waste_id: u128,
    a: AccountId,
    b: AccountId,
    t: WasteTransfer,
    w: Waste,
)
    ensures
        transfer_v2_refusal(s, waste_id, a, b) is None ==> deactivation_kept(
            s.wastes,
            after_transfer_v2(s, waste_id, a, b, t).wastes,
        ),
        confirm_refusal(s, waste_id, a) is None ==> deactivation_kept(
            s.wastes,
            after_confirm(s, waste_id, a).wastes,
        ),
        reset_refusal(s, waste_id, a) is None ==> deactivation_kept(
            s.wastes,
            after_reset(s, waste_id).wastes,
        ),
        s.wastes.contains_key(waste_id) ==> deactivation_kept(
            s.wastes,
            after_deactivate(s, waste_id).wastes,
        ),
        ids_within_count(s) && w.waste_id == s.waste_count + 1 ==> deactivation_kept(
            s.wastes,
            after_new_waste(s, w).wastes,
        ) && deactivation_kept(s.wastes, after_collected(s, w, t).wastes),
{
}

/// Transfer histories are append-only: a hand-over adds one entry at the end
/// of its record's history and leaves every other history as it was.
pub proof fn law_transfer_history_is_append_only(
    s: ContractState,
    waste_id: u128,
    from: AccountId,
    to: AccountId,
    t: WasteTransfer,
    w: Waste,
    k: u128,
)
    ensures
        transfer_v2_refusal(s, waste_id, from, to) is None ==> {
            let h = after_transfer_v2(s, waste_id, from, to, t).transfer_history;
            &&& list_at(h, waste_id) == list_at(s.transfer_history, waste_id).push(t)
            &&& k != waste_id ==> list_at(h, k) == list_at(s.transfer_history, k)
        },
        ({
            let h = after_collected(s, w, t).transfer_history;
            &&& list_at(h, w.waste_id) == list_at(s.transfer_history, w.waste_id).push(t)
            &&& k != w.waste_id ==> list_at(h, k) == list_at(s.transfer_history, k)
        }),
{
}

/// A created incentive is what a later lookup of its identifier returns, and
/// it is listed last among its rewarder's incentives and among those of its
/// waste type.
pub proof fn law_created_incentive_is_found(s: ContractState, inc: Incentive)
    ensures
        ({
            let s1 = after_create_incentive(s, inc);
            &&& lookup(s1.incentives, inc.id) == Some(inc)
            &&& list_at(s1.rewarder_incentives, inc.rewarder).last() == inc.id
            &&& list_at(s1.type_incentives, inc.waste_type.code()).last() == inc.id
            &&& s1.incentive_count == inc.id
        }),
{
}

/// Every stored incentive has an identifier no larger than the number of
/// incentive identifiers handed out.
pub open spec fn incentive_ids_within_count(s: ContractState) -> bool {
    forall|k: u64| #[trigger] s.incentives.contains_key(k) ==> 1 <= k <= s.incentive_count
}

/// The identifier of a new incentive is not in use, and storing the incentive
/// keeps every identifier within the count.
pub proof fn law_new_incentive_identifier_is_fresh(s: ContractState, inc: Incentive)
    requires
        incentive_ids_within_count(s),
        inc.id == s.incentive_count + 1,
    ensures
        !s.incentives.contains_key(inc.id),
        incentive_ids_within_count(after_create_incentive(s, inc)),
{
}

/// A submitted material is what a later lookup of its identifier returns,
/// and it is the last of its submitter's materials.
pub proof fn law_submitted_material_is_found(s: ContractState, m: Material)
    requires
        m.id == s.waste_count + 1,
    ensures
        ({
            let s1 = after_submit(s, m);
            &&& lookup(s1.materials, m.id) == Some(m)
            &&& owned_material_ids(s1.materials, m.submitter, s1.waste_count as nat).last()
                == m.id
        }),
{
    let s1 = after_submit(s, m);
    assert(s1.materials == s.materials.insert(m.id, m));
    assert(s1.waste_count == m.id);
}


/// In a list ordered by decreasing reward, the incentives with a reward of at
/// least `r` are exactly the first `reward_rank` ones.
pub proof fn lemma_rank_is_prefix(s: Seq<Incentive>, r: u128, n: int)
    requires
        reward_descending(s),
        0 <= n <= s.len(),
    ensures
        reward_rank(s, r, n) <= n,
        forall|i: int| 0 <= i < n ==> (i < reward_rank(s, r, n) <==> #[trigger] s[i].reward >= r),
    decreases n,
{
    if n > 0 {
        lemma_rank_is_prefix(s, r, n - 1);
        if s[n - 1].reward >= r {
            assert forall|i: int| 0 <= i < n - 1 implies #[trigger] s[i].reward >= r by {
                assert(s[i].reward >= s[n - 1].reward);
            }
        }
    }
}

/// Inserting by reward into a list ordered by decreasing reward keeps it
/// ordered, and adds exactly the inserted incentive.
pub proof fn lemma_insert_by_reward(s: Seq<Incentive>, x: Incentive)
    requires
        reward_descending(s),
    ensures
        reward_descending(insert_by_reward(s, x)),
        insert_by_reward(s, x).to_multiset() == s.to_multiset().insert(x),
        insert_by_reward(s, x).len() == s.len() + 1,
{
    broadcast use vstd::seq_lib::to_multiset_insert;

    let p = reward_rank(s, x.reward, s.len() as int) as int;
    lemma_rank_is_prefix(s, x.reward, s.len() as int);
    let t = insert_by_reward(s, x);
    s.insert_ensures(p, x);
    assert forall|i: int, j: int| 0 <= i < j < t.len() implies #[trigger] t[i].reward
        >= #[trigger] t[j].reward by {
        if j < p {
            assert(t[i] == s[i] && t[j] == s[j]);
        } else if j == p {
            assert(t[i] == s[i]);
        } else if i < p {
            assert(t[i] == s[i] && t[j] == s[j - 1]);
        } else if i == p {
            assert(t[j] == s[j - 1]);
        } else {
            assert(t[i] == s[i - 1] && t[j] == s[j - 1]);
        }
    }
}

/// The active incentives of a waste type are listed highest reward first, and
/// the list holds exactly the incentives it was built from, each as often.
pub proof fn law_incentives_listed_by_decreasing_reward(s: Seq<Incentive>)
    ensures
        reward_descending(sort_by_reward(s)),
        sort_by_reward(s).to_multiset() == s.to_multiset(),
        sort_by_reward(s).len() == s.len(),
    decreases s.len(),
{
    broadcast use vstd::seq_lib::group_to_multiset_ensures;

    if s.len() == 0 {
    } else {
        law_incentives_listed_by_decreasing_reward(s.drop_last());
        lemma_insert_by_reward(sort_by_reward(s.drop_last()), s.last());
        assert(s == s.drop_last().push(s.last()));
    }
}


/// A registered participant has exactly the address, role, name and
/// coordinates it was registered with, the registration time, and no waste
/// processed or tokens earned yet.
pub proof fn law_registration_keeps_the_given_details(
    address: AccountId,
    role: ParticipantRole,
    name: String,
    latitude: i128,
    longitude: i128,
    now: u64,
)
    ensures
        ({
            let p = new_participant(address, role, name, latitude, longitude, now);
            &&& p.address == address
            &&& p.role == role
            &&& p.name == name
            &&& p.latitude == latitude
            &&& p.longitude == longitude
            &&& p.registered_at == now
            &&& p.is_registered
            &&& p.total_waste_processed == 0
            &&& p.total_tokens_earned == 0
        }),
{
}

/// Waste moves only down the supply chain: a transfer is allowed only between
/// two registered participants along Recycler -> Collector,
/// Recycler -> Manufacturer or Collector -> Manufacturer, and each of these
/// routes is allowed. So a Manufacturer never passes waste on, a Recycler
/// never receives it, and nobody transfers to a participant of the same role.
pub proof fn law_waste_moves_down_the_chain(s: ContractState, from: AccountId, to: AccountId)
    ensures
        transfer_allowed(s, from, to) ==> {
            let rf = s.participants[from].role;
            let rt = s.participants[to].role;
            &&& s.participants.contains_key(from) && s.participants[from].is_registered
            &&& s.participants.contains_key(to) && s.participants[to].is_registered
            &&& rf != ParticipantRole::Manufacturer
            &&& rt != ParticipantRole::Recycler
            &&& rf != rt
        },
        s.participants.contains_key(from) && s.participants[from].is_registered
            && s.participants.contains_key(to) && s.participants[to].is_registered ==> {
            let rf = s.participants[from].role;
            let rt = s.participants[to].role;
            &&& (rf == ParticipantRole::Recycler && rt == ParticipantRole::Collector)
                ==> transfer_allowed(s, from, to)
            &&& (rf == ParticipantRole::Recycler && rt == ParticipantRole::Manufacturer)
                ==> transfer_allowed(s, from, to)
            &&& (rf == ParticipantRole::Collector && rt == ParticipantRole::Manufacturer)
                ==> transfer_allowed(s, from, to)
        },
{
}

/// A newly registered waste record holds exactly the type, weight, owner,
/// coordinates and time of the call; it is active, unconfirmed, and its owner
/// stands as confirmer.
pub proof fn law_new_waste_keeps_the_given_details(
    id: u128,
    waste_type: WasteType,
    weight: u128,
    owner: AccountId,
    latitude: i128,
    longitude: i128,
    now: u64,
)
    ensures
        ({
            let w = fresh_waste(id, waste_type, weight, owner, latitude, longitude, now);
            &&& w.waste_id == id
            &&& w.waste_type == waste_type
            &&& w.weight == weight
            &&& w.current_owner == owner
            &&& w.latitude == latitude
            &&& w.longitude == longitude
            &&& w.recycled_timestamp == now
            &&& w.is_active
            &&& !w.is_confirmed
            &&& w.confirmer == owner
        }),
{
}

/// A batch submission creates one material per item, in order: the i-th
/// material carries the waste type, weight and description of the i-th item,
/// the next identifiers in turn, the submitter and the time, unverified.
pub proof fn law_batch_materials_follow_the_items(
    items: Seq<(WasteType, u64, String)>,
    submitter: AccountId,
    count: u64,
    now: u64,
)
    requires
        count + items.len() <= u64::MAX,
    ensures
        batch_materials(items, submitter, count, now).len() == items.len(),
        forall|i: int|
            0 <= i < items.len() ==> {
                let m = #[trigger] batch_materials(items, submitter, count, now)[i];
                &&& m.waste_type == items[i].0
                &&& m.weight == items[i].1
                &&& m.description == items[i].2
                &&& m.id == count + i + 1
                &&& m.submitter == submitter
                &&& m.submitted_at == now
                &&& !m.verified
            },
{
}


/// A submitted material holds exactly the type, weight, submitter, time and
/// description of the call, takes the next identifier, and is unverified.
pub proof fn law_submission_keeps_the_given_details(
    s: ContractState,
    waste_type: WasteType,
    weight: u64,
    submitter: AccountId,
    now: u64,
    description: String,
)
    requires
        s.waste_count < u64::MAX,
    ensures
        ({
            let m = submitted_material(s, waste_type, weight, submitter, now, description);
            &&& m.id == s.waste_count + 1
            &&& m.waste_type == waste_type
            &&& m.weight == weight
            &&& m.submitter == submitter
            &&& m.submitted_at == now
            &&& m.description == description
            &&& !m.verified
        }),
        ({
            let m = submitted_material(s, waste_type, weight, submitter, now, description);
            let st = stats_of(after_submit(s, m), submitter);
            &&& stats_of(s, submitter).submission_fits(weight) ==> st.total_submissions
                == stats_of(s, submitter).total_submissions + 1 && st.total_weight
                == stats_of(s, submitter).total_weight + weight
            &&& s.total_weight + weight <= u64::MAX ==> after_submit(s, m).total_weight
                == s.total_weight + weight
        }),
{
}

/// The materials listed for a participant are exactly the stored materials
/// among the first `n` identifiers that the participant holds, in increasing
/// identifier order.
pub proof fn law_participant_wastes_are_exactly_theirs(
    materials: Map<u64, Material>,
    a: AccountId,
    n: nat,
)
    requires
        n <= u64::MAX,
    ensures
        forall|i: int|
            0 <= i < owned_material_ids(materials, a, n).len() ==> {
                let id = #[trigger] owned_material_ids(materials, a, n)[i];
                &&& 1 <= id <= n
                &&& materials.contains_key(id)
                &&& materials[id].submitter == a
            },
        forall|i: int, j: int|
            0 <= i < j < owned_material_ids(materials, a, n).len() ==> #[trigger] owned_material_ids(
                materials,
                a,
                n,
            )[i] < #[trigger] owned_material_ids(materials, a, n)[j],
        forall|id: u64|
            1 <= id <= n && #[trigger] materials.contains_key(id) && materials[id].submitter == a
                ==> owned_material_ids(materials, a, n).contains(id),
    decreases n,
{
    if n > 0 {
        law_participant_wastes_are_exactly_theirs(materials, a, (n - 1) as nat);
        let p = owned_material_ids(materials, a, (n - 1) as nat);
        let q = owned_material_ids(materials, a, n);
        if materials.contains_key(n as u64) && materials[n as u64].submitter == a {
            assert(q == p.push(n as u64));
            assert forall|id: u64|
                1 <= id <= n && #[trigger] materials.contains_key(id) && materials[id].submitter
                    == a implies q.contains(id) by {
                if id < n {
                    let j = choose|j: int| 0 <= j < p.len() && p[j] == id;
                    assert(q[j] == id);
                } else {
                    assert(q[p.len() as int] == id);
                }
            }
        } else {
            assert forall|id: u64|
                1 <= id <= n && #[trigger] materials.contains_key(id) && materials[id].submitter
                    == a implies q.contains(id) by {
                if id == n {
                    assert(false);
                }
            }
        }
    }
}

/// The incentives listed by a filter are exactly the stored incentives among
/// the first `n` identifiers that pass it, in increasing identifier order.
pub proof fn law_incentive_lists_are_exact(
    incs: Map<u64, Incentive>,
    n: nat,
    keep: spec_fn(Incentive) -> bool,
)
    requires
        n <= u64::MAX,
    ensures
        forall|i: int|
            0 <= i < incentives_where(incs, n, keep).len() ==> {
                let inc = #[trigger] incentives_where(incs, n, keep)[i];
                &&& keep(inc)
                &&& exists|id: u64| 1 <= id <= n && incs.contains_key(id) && incs[id] == inc
            },
        forall|id: u64|
            1 <= id <= n && #[trigger] incs.contains_key(id) && keep(incs[id])
                ==> incentives_where(incs, n, keep).contains(incs[id]),
    decreases n,
{
    if n > 0 {
        law_incentive_lists_are_exact(incs, (n - 1) as nat, keep);
        let p = incentives_where(incs, (n - 1) as nat, keep);
        let q = incentives_where(incs, n, keep);
        if incs.contains_key(n as u64) && keep(incs[n as u64]) {
            assert(q == p.push(incs[n as u64]));
            assert forall|i: int| 0 <= i < q.len() implies {
                let inc = #[trigger] q[i];
                &&& keep(inc)
                &&& exists|id: u64| 1 <= id <= n && incs.contains_key(id) && incs[id] == inc
            } by {
                if i < p.len() {
                    assert(q[i] == p[i]);
                    let id = choose|id: u64| 1 <= id <= n - 1 && incs.contains_key(id) && incs[id] == p[i];
                    assert(1 <= id <= n && incs.contains_key(id) && incs[id] == q[i]);
                } else {
                    assert(incs.contains_key(n as u64) && incs[n as u64] == q[i]);
                }
            }
            assert forall|id: u64|
                1 <= id <= n && #[trigger] incs.contains_key(id) && keep(incs[id]) implies q.contains(
                incs[id],
            ) by {
                if id < n {
                    let j = choose|j: int| 0 <= j < p.len() && p[j] == incs[id];
                    assert(q[j] == incs[id]);
                } else {
                    assert(q[p.len() as int] == incs[id]);
                }
            }
        } else {
            assert(q == p);
            assert forall|i: int| 0 <= i < q.len() implies {
                let inc = #[trigger] q[i];
                &&& keep(inc)
                &&& exists|id: u64| 1 <= id <= n && incs.contains_key(id) && incs[id] == inc
            } by {
                let id = choose|id: u64| 1 <= id <= n - 1 && incs.contains_key(id) && incs[id] == p[i];
                assert(1 <= id <= n && incs.contains_key(id) && incs[id] == q[i]);
            }
            assert forall|id: u64|
                1 <= id <= n && #[trigger] incs.contains_key(id) && keep(incs[id]) implies q.contains(
                incs[id],
            ) by {
                if id == n {
                    assert(false);
                }
            }
        }
    }
}

/// Verifying a material marks it verified and changes nothing else of it,
/// and credits its submitter with one verified submission and its reward
/// points (whole kilograms times the type's multiplier times ten).
pub proof fn law_verification_credits_the_submitter(s: ContractState, id: u64)
    requires
        s.materials.contains_key(id),
        verify_one(s, id) is Ok,
    ensures
        ({
            let m = s.materials[id];
            let s1 = verify_one(s, id)->Ok_0;
            let before = stats_of(s, m.submitter);
            let after = stats_of(s1, m.submitter);
            &&& s1.materials[id] == Material { verified: true, ..m }
            &&& after.verified_submissions == before.verified_submissions + 1
            &&& after.total_points == before.total_points + crate::types::reward_points(
                m.waste_type,
                m.weight,
            )
            &&& after.total_submissions == before.total_submissions
            &&& after.total_weight == before.total_weight
        }),
{
    let m = s.materials[id];
    let p = crate::types::reward_points(m.waste_type, m.weight);
    assert(0 <= p <= u64::MAX) by (nonlinear_arith)
        requires
            p == (m.weight / 1000) * crate::types::reward_multiplier(m.waste_type) * 10,
            m.weight / 1000 <= u64::MAX / 1000,
            crate::types::reward_multiplier(m.waste_type) <= 5,
    ;
}

/// An incentive's reward grows with the amount of waste, never exceeds what
/// its maximum amount earns, is the amount times the reward per kilogram
/// (divided by 1000) up to that maximum, and is nothing while inactive.
pub proof fn law_incentive_reward_is_capped(inc: Incentive, a: u64, b: u64)
    ensures
        !inc.is_active ==> incentive_reward(inc, a) == 0,
        inc.is_active && a <= inc.max_waste_amount ==> incentive_reward(inc, a) == (a * inc.reward)
            / 1000,
        inc.is_active ==> incentive_reward(inc, a) <= (inc.max_waste_amount * inc.reward) / 1000,
        a <= b ==> incentive_reward(inc, a) <= incentive_reward(inc, b),
        incentive_reward(inc, a) >= 0,
{
    let ea: int = if a > inc.max_waste_amount { inc.max_waste_amount as int } else { a as int };
    let eb: int = if b > inc.max_waste_amount { inc.max_waste_amount as int } else { b as int };
    let r = inc.reward as int;
    let mx = inc.max_waste_amount as int;
    assert((ea * r) / 1000 <= (mx * r) / 1000 && (ea * r) / 1000 >= 0) by (nonlinear_arith)
        requires
            0 <= ea <= mx,
            0 <= r,
    ;
    if a <= b {
        assert((ea * r) / 1000 <= (eb * r) / 1000) by (nonlinear_arith)
            requires
                0 <= ea <= eb,
                0 <= r,
        ;
    }
}

/// A hand-over makes the receiver the owner of the record and changes nothing
/// else of it, nor any other record; the entry added to its history names
/// the sender and the receiver.
pub proof fn law_hand_over_changes_only_the_owner(
    s: ContractState,
    waste_id: u128,
    from: AccountId,
    to: AccountId,
    t: WasteTransfer,
    other: u128,
)
    requires
        s.wastes.contains_key(waste_id),
        other != waste_id,
    ensures
        ({
            let s1 = after_transfer_v2(s, waste_id, from, to, t);
            &&& s1.wastes[waste_id] == Waste { current_owner: to, ..s.wastes[waste_id] }
            &&& lookup(s1.wastes, other) == lookup(s.wastes, other)
            &&& list_at(s1.transfer_history, waste_id).last() == t
            &&& s1.participants == s.participants
            &&& s1.materials == s.materials
        }),
{
}


/// Reward points count whole kilograms only (less than a kilogram earns
/// nothing), grow with weight, come in tens, and at equal weight Metal earns
/// the most and Paper the least of all waste types.
pub proof fn law_reward_points_follow_weight_and_type(t: WasteType, w: u64, v: u64)
    ensures
        w < 1000 ==> crate::types::reward_points(t, w) == 0,
        w <= v ==> crate::types::reward_points(t, w) <= crate::types::reward_points(t, v),
        crate::types::reward_points(t, w) % 10 == 0,
        crate::types::reward_points(WasteType::Paper, w) <= crate::types::reward_points(t, w),
        crate::types::reward_points(t, w) <= crate::types::reward_points(WasteType::Metal, w),
{
    let kw = (w / 1000) as int;
    let kv = (v / 1000) as int;
    let m = crate::types::reward_multiplier(t) as int;
    assert(1 <= m <= 5);
    if w <= v {
        assert(kw <= kv) by (nonlinear_arith)
            requires
                w <= v,
                kw == w / 1000,
                kv == v / 1000,
        ;
        assert(kw * m * 10 <= kv * m * 10) by (nonlinear_arith)
            requires
                0 <= kw <= kv,
                0 <= m,
        ;
    }
    assert((kw * m * 10) % 10 == 0) by (nonlinear_arith);
    assert(kw * 1 * 10 <= kw * m * 10 <= kw * 5 * 10) by (nonlinear_arith)
        requires
            0 <= kw,
            1 <= m <= 5,
    ;
}

} // verus!
