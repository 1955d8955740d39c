//! Properties of the rewards contract that relate several calls.
use vstd::prelude::*;

use super::contract::{
    after_create, after_submit, after_transfer, best_active_incentive, collector_payees,
    distribution_outcome, distribution_refusal, equal_shares, planned_payouts, reward_total,
    update_refusal, updated_incentive,
};
use super::storage::StorageState;
use super::types::{Incentive, Material, Participant, Role, WasteTransfer, WasteType};
use crate::contract::list_at;
use crate::contract::participants::lookup;
use crate::AccountId;

verus! {

/// The amounts of a list of payouts, added up.
pub open spec fn payout_sum(p: Seq<(AccountId, i128)>) -> int
    decreases p.len(),
{
    if p.len() == 0 {
        0
    } else {
        payout_sum(p.drop_last()) + p.last().1
    }
}

/// Adding up two lists of payouts one after the other.
pub proof fn lemma_payout_sum_concat(a: Seq<(AccountId, i128)>, b: Seq<(AccountId, i128)>)
    ensures
        payout_sum(a + b) == payout_sum(a) + payout_sum(b),
    decreases b.len(),
{
    if b.len() > 0 {
        lemma_payout_sum_concat(a, b.drop_last());
        assert((a + b).drop_last() =~= a + b.drop_last());
    } else {
        assert(a + b =~= a);
    }
}

/// Every collector receiving the same share adds up to their number times the share.
pub proof fn lemma_payout_sum_shares(payees: Seq<AccountId>, share: int)
    requires
        i128::MIN <= share <= i128::MAX,
    ensures
        payout_sum(equal_shares(payees, share)) == payees.len() * share,
    decreases payees.len(),
{
    let mv = equal_shares(payees, share);
    if payees.len() > 0 {
        lemma_payout_sum_shares(payees.drop_last(), share);
        assert(mv.drop_last() =~= equal_shares(payees.drop_last(), share));
        assert(mv.last() == (payees.last(), share as i128));
        assert(payees.len() * share == (payees.len() - 1) * share + share) by (nonlinear_arith);
    } else {
        assert(mv =~= Seq::<(AccountId, i128)>::empty());
        assert(payout_sum(mv) == 0);
    }
}

/// A distribution pays out exactly its reward when the collector and owner
/// shares fit in it, and the sum of those shares otherwise: the current owner
/// receives the rest, and nothing when there is no rest.
pub proof fn law_distribution_pays_out_the_reward(
    payees: Seq<AccountId>,
    collector_share: int,
    owner_share: int,
    total: int,
    m: Material,
)
    requires
        0 <= collector_share <= i128::MAX,
        0 <= owner_share <= i128::MAX,
        0 <= total <= i128::MAX,
        payees.len() * collector_share + owner_share <= i128::MAX,
    ensures
        ({
            let distributed = payees.len() * collector_share + owner_share;
            payout_sum(planned_payouts(payees, collector_share, owner_share, total, m)) == if distributed
                <= total {
                total
            } else {
                distributed
            }
        }),
{
    let shares = equal_shares(payees, collector_share);
    let owner = seq![(m.submitter, owner_share as i128)];
    let distributed = payees.len() * collector_share + owner_share;
    let rest = total - distributed;
    let tail: Seq<(AccountId, i128)> = if rest > 0 {
        seq![(m.current_owner, rest as i128)]
    } else {
        Seq::empty()
    };
    lemma_payout_sum_shares(payees, collector_share);
    lemma_payout_sum_concat(shares, owner);
    lemma_payout_sum_concat(shares + owner, tail);
    assert(payout_sum(Seq::<(AccountId, i128)>::empty()) == 0);
    assert(payout_sum(owner) == owner_share) by {
        assert(owner.drop_last() =~= Seq::<(AccountId, i128)>::empty());
        assert(owner.last().1 == owner_share);
    }
    if rest > 0 {
        assert(tail.drop_last() =~= Seq::<(AccountId, i128)>::empty());
        assert(tail.last().1 == rest);
        assert(payout_sum(tail) == rest);
    } else {
        assert(payout_sum(tail) == 0);
    }
}

/// With percentages that add up to at most 100, the shares of the owner and
/// of a collector fit in the reward when there is at most one collector.
pub proof fn law_shares_fit_one_collector(total: int, c: int, o: int)
    requires
        0 <= total,
        0 <= c,
        0 <= o,
        c + o <= 100,
    ensures
        (total * c) / 100 + (total * o) / 100 <= total,
{
    assert((total * c) / 100 + (total * o) / 100 <= (total * c + total * o) / 100) by (
    nonlinear_arith)
        requires
            0 <= total * c,
            0 <= total * o,
    ;
    assert(total * c + total * o <= total * 100) by (nonlinear_arith)
        requires
            0 <= total,
            c + o <= 100,
    ;
}

/// A successful distribution's reward fits in the incentive's remaining
/// budget and is spent from it, never from the total budget; it deactivates the
/// incentive exactly when nothing remains, and adds the reward to the total
/// earned.
pub proof fn law_distribution_spends_budget(
    s: StorageState,
    waste_id: u64,
    incentive_id: u64,
    manufacturer: AccountId,
)
    requires
        distribution_refusal(s, waste_id, incentive_id, manufacturer) is None,
        distribution_outcome(s, waste_id, incentive_id) is Ok,
    ensures
        ({
            let s2 = distribution_outcome(s, waste_id, incentive_id)->Ok_0.1;
            let before = s.incentives[incentive_id];
            let after = s2.incentives[incentive_id];
            let used = reward_total(s.materials[waste_id], before);
            &&& used <= before.remaining_budget
            &&& after.remaining_budget == before.remaining_budget - used
            &&& after.remaining_budget <= before.remaining_budget
            &&& after.total_budget == before.total_budget
            &&& after.active == (after.remaining_budget != 0)
            &&& s2.total_earned == s.total_earned + reward_total(s.materials[waste_id], before)
            &&& s2.materials == s.materials
            &&& s2.participants == s.participants
        }),
{
}

/// The incentive chosen for a manufacturer and waste type is active, of that
/// type and one of the manufacturer's, and has at least the reward points of
/// every other active incentive of that type among them; none is chosen
/// exactly when the manufacturer has no active incentive of that type.
pub proof fn law_best_active_incentive_is_highest(
    incs: Map<u64, Incentive>,
    ids: Seq<u64>,
    t: WasteType,
    n: int,
)
    requires
        0 <= n <= ids.len(),
    ensures
        best_active_incentive(incs, ids, t, n) matches Some(b) ==> {
            &&& b.active
            &&& b.waste_type == t
            &&& exists|k: int| 0 <= k < n && incs.contains_key(ids[k]) && incs[ids[k]] == b
        },
        forall|k: int|
            0 <= k < n && incs.contains_key(#[trigger] ids[k]) && incs[ids[k]].active
                && incs[ids[k]].waste_type == t ==> best_active_incentive(incs, ids, t, n) is Some
                && incs[ids[k]].reward_points <= best_active_incentive(incs, ids, t, n)->0.reward_points,
        best_active_incentive(incs, ids, t, n) is None <==> !exists|k: int|
            0 <= k < n && incs.contains_key(#[trigger] ids[k]) && incs[ids[k]].active
                && incs[ids[k]].waste_type == t,
    decreases n,
{
    if n > 0 {
        law_best_active_incentive_is_highest(incs, ids, t, n - 1);
        let id = ids[n - 1];
        if incs.contains_key(id) {
            assert(incs.contains_key(ids[n - 1]) && incs[ids[n - 1]] == incs[id]);
        }
    }
}

/// Every stored incentive has at most its whole budget remaining.
pub open spec fn budgets_within_totals(s: StorageState) -> bool {
    forall|k: u64|
        #[trigger] s.incentives.contains_key(k) ==> s.incentives[k].remaining_budget
            <= s.incentives[k].total_budget
}

/// No incentive ever has more budget remaining than it was given: a new
/// incentive starts with its whole budget, an update keeps what was spent,
/// and a distribution only lowers what remains.
pub proof fn law_budget_never_exceeds_total(
    s: StorageState,
    inc: Incentive,
    waste_id: u64,
    incentive_id: u64,
    manufacturer: AccountId,
    new_reward_points: u64,
    new_total_budget: u64,
)
    requires
        budgets_within_totals(s),
    ensures
        inc.remaining_budget == inc.total_budget ==> budgets_within_totals(after_create(s, inc)),
        update_refusal(s, incentive_id, new_reward_points, new_total_budget) is None
            ==> budgets_within_totals(
            StorageState {
                incentives: s.incentives.insert(
                    incentive_id,
                    updated_incentive(s.incentives[incentive_id], new_reward_points, new_total_budget),
                ),
                ..s
            },
        ),
        distribution_refusal(s, waste_id, incentive_id, manufacturer) is None && distribution_outcome(
            s,
            waste_id,
            incentive_id,
        ) is Ok ==> budgets_within_totals(distribution_outcome(s, waste_id, incentive_id)->Ok_0.1),
{
    if distribution_refusal(s, waste_id, incentive_id, manufacturer) is None && distribution_outcome(
        s,
        waste_id,
        incentive_id,
    ) is Ok {
        law_distribution_spends_budget(s, waste_id, incentive_id, manufacturer);
        let s2 = distribution_outcome(s, waste_id, incentive_id)->Ok_0.1;
        assert forall|k: u64| #[trigger] s2.incentives.contains_key(k) implies s2.incentives[k].remaining_budget
            <= s2.incentives[k].total_budget by {
            if k != incentive_id {
                assert(s2.incentives[k] == s.incentives[k]);
            }
        }
    }
}

/// A created incentive is what a later lookup of its identifier returns, and
/// it is listed last among its rewarder's incentives and among those of its
/// waste type.
pub proof fn law_created_incentive_is_found(s: StorageState, inc: Incentive)
    ensures
        ({
            let s1 = after_create(s, inc);
            &&& lookup(s1.incentives, inc.id) == Some(inc)
            &&& list_at(s1.rewarder_incentives, inc.rewarder).last() == inc.id
            &&& list_at(s1.waste_type_incentives, inc.waste_type.code()).last() == inc.id
        }),
{
}

/// A submitted material is what a later lookup of its identifier returns, and
/// its weight is counted in the total.
pub proof fn law_submitted_material_is_found(s: StorageState, m: Material)
    requires
        s.total_weight + m.weight <= u64::MAX,
    ensures
        lookup(after_submit(s, m).materials, m.id) == Some(m),
        after_submit(s, m).total_weight == s.total_weight + m.weight,
{
}

/// A transfer makes the receiver the current owner, changes nothing else of
/// the material, and appends one entry to its history, leaving the other
/// histories as they were.
pub proof fn law_transfer_moves_material(
    s: StorageState,
    waste_id: u64,
    from: AccountId,
    to: AccountId,
    now: u64,
    k: u64,
)
    requires
        s.materials.contains_key(waste_id),
    ensures
        ({
            let s1 = after_transfer(s, waste_id, from, to, now);
            &&& s1.materials[waste_id].current_owner == to
            &&& s1.materials[waste_id] == Material { current_owner: to, ..s.materials[waste_id] }
            &&& list_at(s1.transfers, waste_id) == list_at(s.transfers, waste_id).push(
                WasteTransfer { waste_id, from, to, transferred_at: now },
            )
            &&& k != waste_id ==> list_at(s1.transfers, k) == list_at(s.transfers, k)
                && lookup(s1.materials, k) == lookup(s.materials, k)
        }),
{
}


/// Updating an incentive keeps the budget it has already spent: while the new
/// total is at least what was spent, exactly the difference remains and the
/// incentive stays active; below it, nothing remains and it is deactivated.
/// Fields other than the points and the budgets are kept.
pub proof fn law_update_keeps_spent_budget(inc: Incentive, new_reward_points: u64, new_total_budget: u64)
    requires
        inc.remaining_budget <= inc.total_budget,
    ensures
        ({
            let u = updated_incentive(inc, new_reward_points, new_total_budget);
            let spent = inc.total_budget - inc.remaining_budget;
            &&& new_total_budget >= spent ==> u.total_budget - u.remaining_budget == spent && u.active
            &&& new_total_budget < spent ==> u.remaining_budget == 0 && !u.active
            &&& u.remaining_budget <= u.total_budget
            &&& u.id == inc.id && u.rewarder == inc.rewarder && u.waste_type == inc.waste_type
                && u.created_at == inc.created_at
        }),
{
}


/// The collector share goes to exactly the registered Collectors among the
/// recipients of the material's transfers, once per transfer they received,
/// in the order of the history: every payee received one of the transfers and
/// is registered as a Collector, and no recipient with another role (or none)
/// is paid a collector share.
pub proof fn law_only_collectors_get_the_collector_share(
    parts: Map<AccountId, Participant>,
    ts: Seq<WasteTransfer>,
    n: int,
)
    requires
        0 <= n <= ts.len(),
    ensures
        forall|i: int|
            0 <= i < collector_payees(parts, ts, n).len() ==> {
                let a = #[trigger] collector_payees(parts, ts, n)[i];
                &&& parts.contains_key(a)
                &&& parts[a].role == Role::Collector
                &&& exists|k: int| 0 <= k < n && ts[k].to == a
            },
        forall|k: int|
            0 <= k < n && parts.contains_key(#[trigger] ts[k].to) && parts[ts[k].to].role
                == Role::Collector ==> collector_payees(parts, ts, n).contains(ts[k].to),
        forall|k: int|
            0 <= k < n && !(parts.contains_key(#[trigger] ts[k].to) && parts[ts[k].to].role
                == Role::Collector) ==> !collector_payees(parts, ts, n).contains(ts[k].to),
        collector_payees(parts, ts, n).len() <= n,
    decreases n,
{
    if n > 0 {
        law_only_collectors_get_the_collector_share(parts, ts, n - 1);
        let p = collector_payees(parts, ts, n - 1);
        let q = collector_payees(parts, ts, n);
        let t = ts[n - 1].to;
        if parts.contains_key(t) && parts[t].role == Role::Collector {
            assert(q == p.push(t));
            assert forall|i: int| 0 <= i < q.len() implies {
                let a = #[trigger] q[i];
                &&& parts.contains_key(a)
                &&& parts[a].role == Role::Collector
                &&& exists|k: int| 0 <= k < n && ts[k].to == a
            } by {
                if i < p.len() {
                    assert(q[i] == p[i]);
                    let a = p[i];
                    let k = choose|k: int| 0 <= k < n - 1 && ts[k].to == a;
                    assert(0 <= k < n && ts[k].to == a);
                } else {
                    assert(ts[n - 1].to == q[i]);
                }
            }
            assert forall|k: int|
                0 <= k < n && parts.contains_key(#[trigger] ts[k].to) && parts[ts[k].to].role
                    == Role::Collector implies q.contains(ts[k].to) by {
                if k < n - 1 {
                    let j = choose|j: int| 0 <= j < p.len() && p[j] == ts[k].to;
                    assert(q[j] == p[j]);
                } else {
                    assert(q[p.len() as int] == t);
                }
            }
            assert forall|k: int|
                0 <= k < n && !(parts.contains_key(#[trigger] ts[k].to) && parts[ts[k].to].role
                    == Role::Collector) implies !q.contains(ts[k].to) by {
                if q.contains(ts[k].to) {
                    let j = choose|j: int| 0 <= j < q.len() && q[j] == ts[k].to;
                    assert(parts.contains_key(q[j]) && parts[q[j]].role == Role::Collector);
                }
            }
        } else {
            assert(q == p);
            assert forall|i: int| 0 <= i < q.len() implies {
                let a = #[trigger] q[i];
                &&& parts.contains_key(a)
                &&& parts[a].role == Role::Collector
                &&& exists|k: int| 0 <= k < n && ts[k].to == a
            } by {
                let a = p[i];
                let k = choose|k: int| 0 <= k < n - 1 && ts[k].to == a;
                assert(0 <= k < n && ts[k].to == a);
            }
            assert forall|k: int|
                0 <= k < n && parts.contains_key(#[trigger] ts[k].to) && parts[ts[k].to].role
                    == Role::Collector implies q.contains(ts[k].to) by {
                if k == n - 1 {
                    assert(false);
                }
            }
            assert forall|k: int|
                0 <= k < n && !(parts.contains_key(#[trigger] ts[k].to) && parts[ts[k].to].role
                    == Role::Collector) implies !q.contains(ts[k].to) by {
                if q.contains(ts[k].to) {
                    let j = choose|j: int| 0 <= j < q.len() && q[j] == ts[k].to;
                    assert(parts.contains_key(q[j]) && parts[q[j]].role == Role::Collector);
                }
            }
        }
    }
}

/// The payouts of a distribution, entry by entry: first one collector share
/// per collector payee in order, then the owner share to the submitter, then,
/// only when something is left of the reward, the rest to the current holder.
pub proof fn law_payout_order(
    payees: Seq<AccountId>,
    collector_share: int,
    owner_share: int,
    total: int,
    m: Material,
)
    ensures
        ({
            let p = planned_payouts(payees, collector_share, owner_share, total, m);
            let rest = total - (payees.len() * collector_share + owner_share);
            &&& p.len() == payees.len() + 1 + (if rest > 0 { 1int } else { 0int })
            &&& forall|i: int| 0 <= i < payees.len() ==> #[trigger] p[i] == (payees[i], collector_share as i128)
            &&& p[payees.len() as int] == (m.submitter, owner_share as i128)
            &&& rest > 0 ==> p[payees.len() as int + 1] == (m.current_owner, rest as i128)
        }),
{
}


/// A distribution pays, in order, one collector share (the reward times the
/// collector percentage, over 100) to each registered Collector that received
/// the material, the owner share (the reward times the owner percentage, over
/// 100) to the submitter, and what is left of the reward, if anything, to the
/// current holder; the reward is the incentive's points per kilogram times the
/// material's whole kilograms.
pub proof fn law_distribution_splits_by_percentages(
    s: StorageState,
    waste_id: u64,
    incentive_id: u64,
    manufacturer: AccountId,
)
    requires
        distribution_refusal(s, waste_id, incentive_id, manufacturer) is None,
        distribution_outcome(s, waste_id, incentive_id) is Ok,
    ensures
        ({
            let m = s.materials[waste_id];
            let inc = s.incentives[incentive_id];
            let total = inc.reward_points * (m.weight / 1000);
            let cs = (total * s.collector_percentage->0) / 100;
            let os = (total * s.owner_percentage->0) / 100;
            let ts = list_at(s.transfers, waste_id);
            let payees = collector_payees(s.participants, ts, ts.len() as int);
            let payouts = distribution_outcome(s, waste_id, incentive_id)->Ok_0.0;
            let rest = total - (payees.len() * cs + os);
            &&& reward_total(m, inc) == total
            &&& payouts.len() == payees.len() + 1 + (if rest > 0 { 1int } else { 0int })
            &&& forall|i: int| 0 <= i < payees.len() ==> #[trigger] payouts[i] == (payees[i], cs as i128)
            &&& payouts[payees.len() as int] == (m.submitter, os as i128)
            &&& rest > 0 ==> payouts[payees.len() as int + 1] == (m.current_owner, rest as i128)
        }),
{
    let m = s.materials[waste_id];
    let inc = s.incentives[incentive_id];
    let total = reward_total(m, inc);
    let ts = list_at(s.transfers, waste_id);
    let payees = collector_payees(s.participants, ts, ts.len() as int);
    law_payout_order(
        payees,
        (total * s.collector_percentage->0) / 100,
        (total * s.owner_percentage->0) / 100,
        total,
        m,
    );
}

} // verus!
