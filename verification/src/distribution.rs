//! The distribution engine: splitting a deposit or a withdrawal across a
//! weighted validator set.
//!
//! For a total stake `S`, a validator of weight `w` out of total weight `W`
//! has target stake `w * (S + amount) / W` on a deposit (and
//! `w * (S - amount) / W` on a withdrawal). Each operation allocates the
//! requested amount greedily, largest deviation from target first, steering
//! the set toward its weight-proportional shape without a full rebalance.

use vstd::prelude::*;
use vstd::string::StringExecFns;
use vstd::arithmetic::div_mod::lemma_div_multiples_vanish;
use crate::error::ContractError;
use crate::numbers::{mul_ratio, lemma_mul_div_le};
use crate::sums::{seq_sum, lemma_seq_sum_take_succ, lemma_seq_sum_nonneg, lemma_seq_sum_prefix_le, lemma_seq_sum_element_le, lemma_seq_sum_update, lemma_seq_sum_bounded, lemma_seq_sum_zero, lemma_div_superadd};

verus! {

/// One validator's current position: its address, its last known stake in
/// the remote staking denomination, and its operator-assigned weight.
#[derive(Clone, Debug, PartialEq, Eq)]
pub struct Delegation {
    pub valoper_address: String,
    pub stake: u128,
    pub weight: u64,
}

/// The amount the current operation should delegate to (or undelegate
/// from) one validator.
#[derive(Clone, Debug, PartialEq, Eq)]
pub struct IdealDelegation {
    pub valoper_address: String,
    pub ideal_stake: u128,
}

/// The stakes of a delegation list, as integers.
pub open spec fn stake_values(s: Seq<Delegation>) -> Seq<int> {
    Seq::new(s.len(), |i: int| s[i].stake as int)
}

/// The weights of a delegation list, as integers.
pub open spec fn weight_values(s: Seq<Delegation>) -> Seq<int> {
    Seq::new(s.len(), |i: int| s[i].weight as int)
}

/// The allocated amounts of a result list, as integers.
pub open spec fn ideal_values(s: Seq<IdealDelegation>) -> Seq<int> {
    Seq::new(s.len(), |i: int| s[i].ideal_stake as int)
}

/// The total stake currently delegated.
pub open spec fn total_stake(s: Seq<Delegation>) -> int {
    seq_sum(stake_values(s))
}

/// The total weight of the validator set.
pub open spec fn total_weight(s: Seq<Delegation>) -> int {
    seq_sum(weight_values(s))
}

/// The total amount a result allocates.
pub open spec fn total_ideal(s: Seq<IdealDelegation>) -> int {
    seq_sum(ideal_values(s))
}

/// A validator's target stake: its weight's share of the projected total.
pub open spec fn target_stake(weight: int, projected: int, w_total: int) -> int {
    projected * weight / w_total
}

/// Sums the weights of the validator set.
fn total_weight_exec(delegations: &Vec<Delegation>) -> (w: u128)
    ensures
        w == total_weight(delegations@),
{
    let ghost ws = weight_values(delegations@);
    let mut w: u128 = 0;
    let mut i: usize = 0;
    proof {
        assert(ws.take(0) =~= Seq::<int>::empty());
    }
    while i < delegations.len()
        invariant
            0 <= i <= delegations.len(),
            ws == weight_values(delegations@),
            w == seq_sum(ws.take(i as int)),
        decreases delegations.len() - i,
    {
        proof {
            lemma_seq_sum_take_succ(ws, i as int);
            assert(forall|k: int|
                0 <= k < ws.take(i as int + 1).len()
                    ==> #[trigger] ws.take(i as int + 1)[k] <= u64::MAX as int);
            lemma_seq_sum_bounded(ws.take(i as int + 1), u64::MAX as int);
            assert((i as int + 1) * (u64::MAX as int) <= u128::MAX as int) by (nonlinear_arith)
                requires 0 <= i as int + 1 <= 0x1_0000_0000_0000_0000;
        }
        w = w + delegations[i].weight as u128;
        i = i + 1;
    }
    proof {
        assert(ws.take(i as int) =~= ws);
    }
    w
}

/// Sums the stakes of the validator set.
fn total_stake_exec(delegations: &Vec<Delegation>) -> (s: u128)
    requires
        total_stake(delegations@) <= u128::MAX,
    ensures
        s == total_stake(delegations@),
{
    let ghost ss = stake_values(delegations@);
    let mut s: u128 = 0;
    let mut i: usize = 0;
    proof {
        assert(ss.take(0) =~= Seq::<int>::empty());
    }
    while i < delegations.len()
        invariant
            0 <= i <= delegations.len(),
            ss == stake_values(delegations@),
            total_stake(delegations@) <= u128::MAX,
            s == seq_sum(ss.take(i as int)),
        decreases delegations.len() - i,
    {
        proof {
            lemma_seq_sum_take_succ(ss, i as int);
            assert(forall|k: int| 0 <= k < ss.len() ==> #[trigger] ss[k] >= 0);
            lemma_seq_sum_prefix_le(ss, i as int + 1);
        }
        s = s + delegations[i].stake;
        i = i + 1;
    }
    proof {
        assert(ss.take(i as int) =~= ss);
    }
    s
}

/// The keys of an entry list, as integers.
pub open spec fn entry_keys(s: Seq<(u128, usize)>) -> Seq<int> {
    Seq::new(s.len(), |i: int| s[i].0 as int)
}

/// The entries' keys never increase along the list.
pub open spec fn sorted_desc(s: Seq<(u128, usize)>) -> bool {
    forall|k1: int, k2: int| 0 <= k1 < k2 < s.len() ==> (#[trigger] s[k1]).0 >= (#[trigger] s[k2]).0
}

/// No two entries carry the same validator position.
pub open spec fn distinct_indices(s: Seq<(u128, usize)>) -> bool {
    forall|k1: int, k2: int|
        0 <= k1 < k2 < s.len() ==> (#[trigger] s[k1]).1 != (#[trigger] s[k2]).1
}

/// Whether some entry carries the validator position `p`.
pub open spec fn holds_position(s: Seq<(u128, usize)>, p: int) -> bool {
    exists|k: int| 0 <= k < s.len() && (#[trigger] s[k]).1 == p
}

/// Every entry carries a valid validator position and that position's
/// deviation from target.
pub open spec fn entries_match(s: Seq<(u128, usize)>, devs: Seq<int>) -> bool {
    forall|k: int|
        0 <= k < s.len()
            ==> (#[trigger] s[k]).1 < devs.len() && s[k].0 as int == devs[s[k].1 as int]
}

/// Sorts `(deviation, validator position)` entries by deviation, largest
/// first. The entries stay a rearrangement of the input: positions stay
/// distinct, covered, and paired with the same deviations, and the keys
/// keep their total.
fn sort_entries_desc(entries: &mut Vec<(u128, usize)>, Ghost(devs): Ghost<Seq<int>>)
    requires
        entries_match(old(entries)@, devs),
        distinct_indices(old(entries)@),
    ensures
        final(entries)@.len() == old(entries)@.len(),
        sorted_desc(final(entries)@),
        entries_match(final(entries)@, devs),
        distinct_indices(final(entries)@),
        seq_sum(entry_keys(final(entries)@)) == seq_sum(entry_keys(old(entries)@)),
        forall|p: int|
            #[trigger] holds_position(old(entries)@, p) ==> holds_position(final(entries)@, p),
{
    let n = entries.len();
    if n < 2 {
        return;
    }
    let ghost total0 = seq_sum(entry_keys(entries@));
    let mut i: usize = 1;
    while i < n
        invariant
            1 <= i <= n,
            2 <= n,
            entries@.len() == n,
            sorted_desc(entries@.take(i as int)),
            entries_match(entries@, devs),
            distinct_indices(entries@),
            seq_sum(entry_keys(entries@)) == total0,
            forall|p: int|
                #[trigger] holds_position(old(entries)@, p) ==> holds_position(entries@, p),
        decreases n - i,
    {
        proof {
            // entering the insertion pass: the prefix is sorted except for
            // the entry now moving from slot i
            assert forall|k1: int, k2: int|
                0 <= k1 < k2 <= i as int && k1 != i as int && k2 != i as int implies
                (#[trigger] entries@[k1]).0 >= (#[trigger] entries@[k2]).0 by {
                assert(entries@.take(i as int)[k1] == entries@[k1]);
                assert(entries@.take(i as int)[k2] == entries@[k2]);
            }
        }
        let mut j: usize = i;
        while j > 0 && entries[j - 1].0 < entries[j].0
            invariant
                0 <= j <= i < n,
                entries@.len() == n,
                // sorted within the first i+1 slots, ignoring the one moving at j
                forall|k1: int, k2: int|
                    0 <= k1 < k2 <= i as int && k1 != j as int && k2 != j as int
                        ==> (#[trigger] entries@[k1]).0 >= (#[trigger] entries@[k2]).0,
                // the moving entry already passed everything to its right
                forall|k: int|
                    j < k <= i as int ==> (entries@[j as int]).0 > (#[trigger] entries@[k]).0,
                entries_match(entries@, devs),
                distinct_indices(entries@),
                seq_sum(entry_keys(entries@)) == total0,
                forall|p: int|
                    #[trigger] holds_position(old(entries)@, p) ==> holds_position(entries@, p),
            decreases j,
        {
            let ghost pre = entries@;
            let a = entries[j - 1];
            let b = entries[j];
            entries.set(j - 1, b);
            entries.set(j, a);
            proof {
                let post = entries@;
                assert(post =~= pre.update(j - 1, pre[j as int]).update(j as int, pre[
                    j as int - 1]));
                lemma_seq_sum_update(entry_keys(pre), j as int - 1, pre[j as int].0 as int);
                lemma_seq_sum_update(
                    entry_keys(pre).update(j as int - 1, pre[j as int].0 as int),
                    j as int,
                    pre[j as int - 1].0 as int,
                );
                assert(entry_keys(post) =~= entry_keys(pre).update(
                    j as int - 1,
                    pre[j as int].0 as int,
                ).update(j as int, pre[j as int - 1].0 as int));
                // the swap only exchanges the values at j-1 and j
                assert(forall|k: int|
                    0 <= k < post.len() && k != j as int - 1 && k != j as int
                        ==> post[k] == pre[k]);
                assert(post[j as int - 1] == pre[j as int]);
                assert(post[j as int] == pre[j as int - 1]);
                assert forall|p: int| #[trigger] holds_position(pre, p) implies holds_position(
                    post,
                    p,
                ) by {
                    let k0 = choose|k0: int| 0 <= k0 < pre.len() && (#[trigger] pre[k0]).1 == p;
                    if k0 == j as int - 1 {
                        assert(post[j as int].1 == p);
                    } else if k0 == j as int {
                        assert(post[j as int - 1].1 == p);
                    } else {
                        assert(post[k0].1 == p);
                    }
                }
            }
            j = j - 1;
        }
        proof {
            // with the moving entry no smaller than its left neighbour (or at
            // the front), the whole prefix is sorted
            assert forall|k1: int, k2: int| 0 <= k1 < k2 <= i as int implies
                (#[trigger] entries@[k1]).0 >= (#[trigger] entries@[k2]).0 by {
                if k1 == j as int {
                    assert(entries@[j as int].0 > entries@[k2].0);
                } else if k2 == j as int {
                    assert(j > 0);
                    if k1 < j as int - 1 {
                        assert(entries@[k1].0 >= entries@[j as int - 1].0);
                    }
                    assert(entries@[j as int - 1].0 >= entries@[j as int].0);
                }
            }
            assert(sorted_desc(entries@.take(i as int + 1)));
        }
        i = i + 1;
    }
    proof {
        if n > 0 {
            assert(entries@.take(n as int) =~= entries@);
        }
    }
}

/// How far a validator sits below its target stake on a deposit.
pub open spec fn deposit_deviation(d: Delegation, projected: int, w_total: int) -> int {
    let t = target_stake(d.weight as int, projected, w_total);
    if t > d.stake as int {
        t - d.stake as int
    } else {
        0
    }
}

/// How far a validator sits above its target stake on a withdrawal.
pub open spec fn withdraw_deviation(d: Delegation, projected: int, w_total: int) -> int {
    let t = target_stake(d.weight as int, projected, w_total);
    if (d.stake as int) > t {
        d.stake as int - t
    } else {
        0
    }
}

/// Per-validator deposit deviations.
pub open spec fn deposit_deviations(s: Seq<Delegation>, projected: int, w_total: int) -> Seq<
    int,
> {
    Seq::new(s.len(), |i: int| deposit_deviation(s[i], projected, w_total))
}

/// Per-validator withdrawal deviations.
pub open spec fn withdraw_deviations(s: Seq<Delegation>, projected: int, w_total: int) -> Seq<
    int,
> {
    Seq::new(s.len(), |i: int| withdraw_deviation(s[i], projected, w_total))
}

/// The projected stake total a deposit steers toward.
pub open spec fn deposit_projected(s: Seq<Delegation>, amount: int) -> int {
    total_stake(s) + amount
}

/// The projected stake total a withdrawal steers toward.
pub open spec fn withdraw_projected(s: Seq<Delegation>, amount: int) -> int {
    total_stake(s) - amount
}

/// What integer rounding leaves uncovered by the deviations on a deposit.
pub open spec fn rounding_shortfall(amount: int, devs: Seq<int>) -> int {
    if amount - seq_sum(devs) >= 0 {
        amount - seq_sum(devs)
    } else {
        0
    }
}

/// Per-validator target stakes.
pub open spec fn target_ints(s: Seq<Delegation>, projected: int, w_total: int) -> Seq<int> {
    Seq::new(s.len(), |i: int| target_stake(s[i].weight as int, projected, w_total))
}

spec fn alloc_ints(v: Seq<u128>) -> Seq<int> {
    Seq::new(v.len(), |i: int| v[i] as int)
}

/// The floored targets never promise more than the projected total.
proof fn lemma_target_sum_le_aux(s: Seq<Delegation>, projected: int, w_total: int)
    requires
        w_total > 0,
        projected >= 0,
    ensures
        seq_sum(target_ints(s, projected, w_total)) <= seq_sum(weight_values(s)) * projected
            / w_total,
    decreases s.len(),
{
    if s.len() == 0 {
        assert(seq_sum(weight_values(s)) * projected == 0) by (nonlinear_arith)
            requires seq_sum(weight_values(s)) == 0;
    } else {
        let st = s.drop_last();
        assert(target_ints(s, projected, w_total).drop_last() =~= target_ints(
            st,
            projected,
            w_total,
        ));
        assert(weight_values(s).drop_last() =~= weight_values(st));
        lemma_target_sum_le_aux(st, projected, w_total);
        let pw = seq_sum(weight_values(st));
        let wl = s.last().weight as int;
        assert(forall|k: int|
            0 <= k < weight_values(st).len() ==> #[trigger] weight_values(st)[k] >= 0);
        lemma_seq_sum_nonneg(weight_values(st));
        assert(pw * projected >= 0) by (nonlinear_arith)
            requires pw >= 0, projected >= 0;
        assert(wl * projected >= 0) by (nonlinear_arith)
            requires wl >= 0, projected >= 0;
        lemma_div_superadd(pw * projected, wl * projected, w_total);
        assert(pw * projected + wl * projected == (pw + wl) * projected) by (nonlinear_arith);
        assert(seq_sum(weight_values(s)) == pw + wl);
    }
}

/// With `w_total` the set's whole weight, the targets sum to at most the
/// projected total.
proof fn lemma_target_sum_le(s: Seq<Delegation>, projected: int, w_total: int)
    requires
        w_total == total_weight(s),
        w_total > 0,
        projected >= 0,
    ensures
        seq_sum(target_ints(s, projected, w_total)) <= projected,
    decreases s.len(),
{
    lemma_target_sum_le_aux(s, projected, w_total);
    lemma_div_multiples_vanish(projected, w_total);
    assert(w_total * projected == seq_sum(weight_values(s)) * projected);
}

/// The withdrawal deviations cover at least the stake above target.
proof fn lemma_withdraw_dev_sum(s: Seq<Delegation>, projected: int, w_total: int)
    ensures
        seq_sum(withdraw_deviations(s, projected, w_total)) >= total_stake(s) - seq_sum(
            target_ints(s, projected, w_total),
        ),
    decreases s.len(),
{
    if s.len() > 0 {
        let st = s.drop_last();
        assert(withdraw_deviations(s, projected, w_total).drop_last() =~= withdraw_deviations(
            st,
            projected,
            w_total,
        ));
        assert(target_ints(s, projected, w_total).drop_last() =~= target_ints(
            st,
            projected,
            w_total,
        ));
        assert(stake_values(s).drop_last() =~= stake_values(st));
        lemma_withdraw_dev_sum(st, projected, w_total);
    }
}

fn zeros(n: usize) -> (v: Vec<u128>)
    ensures
        v@.len() == n,
        forall|i: int| 0 <= i < n ==> v@[i] == 0,
{
    let mut v: Vec<u128> = Vec::new();
    let mut i: usize = 0;
    while i < n
        invariant
            0 <= i <= n,
            v@.len() == i,
            forall|k: int| 0 <= k < i ==> v@[k] == 0,
        decreases n - i,
    {
        v.push(0);
        i = i + 1;
    }
    v
}

/// Computes how much of `deposit` each validator should receive so the set
/// moves toward its weight-proportional targets: each validator is offered
/// at most its shortfall from target, largest shortfall first, and what
/// integer rounding leaves over goes to the validator furthest below
/// target. Fails only when the set's total weight is zero. The result
/// keeps the input's order and addresses and allocates `deposit` exactly.
#[verifier::rlimit(80)]
pub fn calc_deposit(deposit: u128, delegations: &Vec<Delegation>) -> (r: Result<
    Vec<IdealDelegation>,
    ContractError,
>)
    requires
        total_stake(delegations@) + deposit <= u128::MAX,
    ensures
        r is Err <==> total_weight(delegations@) == 0,
        r matches Err(e) ==> e is DistributionError,
        r matches Ok(out) ==> {
            let projected = deposit_projected(delegations@, deposit as int);
            let w_total = total_weight(delegations@);
            let devs = deposit_deviations(delegations@, projected, w_total);
            &&& out@.len() == delegations@.len()
            &&& forall|i: int|
                0 <= i < out@.len() ==> (#[trigger] out@[i]).valoper_address@
                    == delegations@[i].valoper_address@
            &&& total_ideal(out@) == deposit
            &&& exists|j: int|
                #![auto]
                0 <= j < out@.len() && (forall|i: int|
                    0 <= i < out@.len() && i != j ==> (#[trigger] out@[i]).ideal_stake as int
                        <= devs[i]) && out@[j].ideal_stake as int <= devs[j] + rounding_shortfall(
                    deposit as int,
                    devs,
                ) && (forall|i: int| 0 <= i < out@.len() ==> devs[j] >= devs[i])
            &&& forall|i1: int, i2: int|
                0 <= i1 < out@.len() && 0 <= i2 < out@.len() && devs[i1] > devs[i2] && (
                #[trigger] out@[i2]).ideal_stake > 0 ==> (#[trigger] out@[i1]).ideal_stake as int
                    >= devs[i1]
        },
{
    let w_total = total_weight_exec(delegations);
    if w_total == 0 {
        return Err(ContractError::DistributionError);
    }
    let s_total = total_stake_exec(delegations);
    let projected = s_total + deposit;
    let n = delegations.len();
    proof {
        if n == 0 {
            assert(weight_values(delegations@).len() == 0);
            assert(total_weight(delegations@) == 0);
        }
    }
    let ghost gprojected = projected as int;
    let ghost gw = w_total as int;
    let ghost dev_ints = deposit_deviations(delegations@, gprojected, gw);

    // each validator's shortfall from its target stake
    let mut devs: Vec<u128> = Vec::new();
    let mut i: usize = 0;
    while i < n
        invariant
            0 <= i <= n,
            n == delegations@.len(),
            devs@.len() == i,
            w_total == total_weight(delegations@),
            w_total > 0,
            gprojected == deposit_projected(delegations@, deposit as int),
            gprojected == projected as int,
            gprojected <= u128::MAX,
            gw == w_total as int,
            dev_ints == deposit_deviations(delegations@, gprojected, gw),
            forall|k: int| 0 <= k < i ==> devs@[k] as int == dev_ints[k],
        decreases n - i,
    {
        let stake = delegations[i].stake;
        let w = delegations[i].weight;
        proof {
            assert(forall|k: int|
                0 <= k < weight_values(delegations@).len()
                    ==> #[trigger] weight_values(delegations@)[k] >= 0);
            lemma_seq_sum_element_le(weight_values(delegations@), i as int);
            lemma_mul_div_le(projected as int, w as int, w_total as int);
        }
        let t = mul_ratio(projected, w as u128, w_total);
        let dv = if t > stake {
            t - stake
        } else {
            0
        };
        proof {
            assert(dev_ints[i as int] == deposit_deviation(delegations@[i as int], gprojected, gw));
            assert(w == delegations@[i as int].weight);
            assert((w as u128) as int == w as int);
            assert(t as int == gprojected * (w as int) / gw);
            assert(t as int == target_stake(delegations@[i as int].weight as int, gprojected, gw));
            assert(dv as int == deposit_deviation(delegations@[i as int], gprojected, gw));
        }
        devs.push(dv);
        i = i + 1;
    }

    // pair each shortfall with its validator position
    let mut entries: Vec<(u128, usize)> = Vec::new();
    i = 0;
    while i < n
        invariant
            0 <= i <= n,
            n == delegations@.len(),
            devs@.len() == n,
            entries@.len() == i,
            dev_ints.len() == n,
            forall|k: int| 0 <= k < n ==> devs@[k] as int == dev_ints[k],
            forall|k: int| 0 <= k < i ==> (#[trigger] entries@[k]) == (devs@[k], k as usize),
        decreases n - i,
    {
        entries.push((devs[i], i));
        i = i + 1;
    }
    proof {
        assert(entries_match(entries@, dev_ints));
        assert(distinct_indices(entries@));
        assert(entry_keys(entries@) =~= dev_ints);
        assert forall|p: int| 0 <= p < n implies #[trigger] holds_position(entries@, p) by {
            assert(entries@[p].1 == p);
        }
    }
    let ghost pre_sort = entries@;
    sort_entries_desc(&mut entries, Ghost(dev_ints));
    proof {
        assert forall|p: int| 0 <= p < n implies #[trigger] holds_position(entries@, p) by {
            assert(holds_position(pre_sort, p));
        }
    }

    // offer each validator its shortfall, largest first
    let mut allocs: Vec<u128> = zeros(n);
    let mut remaining: u128 = deposit;
    let mut k: usize = 0;
    proof {
        assert(entries@.take(0) =~= Seq::<(u128, usize)>::empty());
        assert(entry_keys(Seq::<(u128, usize)>::empty()) =~= Seq::<int>::empty());
        assert(alloc_ints(allocs@) =~= Seq::new(n as nat, |i: int| 0int));
        lemma_seq_sum_zero(Seq::new(n as nat, |i: int| 0int));
    }
    while k < n
        invariant
            0 <= k <= n,
            n == delegations@.len(),
            entries@.len() == n,
            allocs@.len() == n,
            dev_ints.len() == n,
            entries_match(entries@, dev_ints),
            distinct_indices(entries@),
            seq_sum(entry_keys(entries@)) == seq_sum(dev_ints),
            remaining as int == if deposit - seq_sum(entry_keys(entries@.take(k as int))) >= 0 {
                deposit - seq_sum(entry_keys(entries@.take(k as int)))
            } else {
                0
            },
            seq_sum(alloc_ints(allocs@)) == deposit - remaining,
            forall|p: int|
                0 <= p < n && (forall|k2: int| 0 <= k2 < k ==> (#[trigger] entries@[k2]).1 != p)
                    ==> alloc_ints(allocs@)[p] == 0,
            forall|p: int| 0 <= p < n ==> #[trigger] alloc_ints(allocs@)[p] <= dev_ints[p],
            // while anything remains, everything served so far got its full
            // shortfall
            remaining > 0 ==> forall|k2: int|
                0 <= k2 < k ==> alloc_ints(allocs@)[(#[trigger] entries@[k2]).1 as int]
                    == dev_ints[entries@[k2].1 as int],
            // once a later entry received anything, every earlier entry was
            // fully served
            forall|k1: int, k2: int|
                #![trigger entries@[k1], entries@[k2]]
                0 <= k1 < k2 < k && alloc_ints(allocs@)[entries@[k2].1 as int] > 0
                    ==> alloc_ints(allocs@)[entries@[k1].1 as int] == dev_ints[entries@[k1].1 as int],
        decreases n - k,
    {
        let d = entries[k].0;
        let idx = entries[k].1;
        let alloc = if remaining < d {
            remaining
        } else {
            d
        };
        let ghost pre_alloc = alloc_ints(allocs@);
        let ghost pre_remaining = remaining;
        proof {
            lemma_seq_sum_take_succ(entry_keys(entries@), k as int);
            assert(entry_keys(entries@).take(k as int) =~= entry_keys(
                entries@.take(k as int),
            ));
            assert(entry_keys(entries@).take(k as int + 1) =~= entry_keys(
                entries@.take(k as int + 1),
            ));
            // this validator has not been written yet
            assert(alloc_ints(allocs@)[idx as int] == 0);
            lemma_seq_sum_update(alloc_ints(allocs@), idx as int, alloc as int);
            assert(alloc_ints(allocs@.update(idx as int, alloc)) =~= alloc_ints(
                allocs@,
            ).update(idx as int, alloc as int));
        }
        allocs.set(idx, alloc);
        remaining = remaining - alloc;
        proof {
            let post = alloc_ints(allocs@);
            // the write touched only this validator's slot
            assert forall|k1: int| 0 <= k1 < k as int implies post[(#[trigger] entries@[k1]).1
                as int] == pre_alloc[entries@[k1].1 as int] by {
                assert(entries@[k1].1 != entries@[k as int].1);
            }
            assert(post[idx as int] == alloc as int);
            if remaining > 0 {
                // a partial grant would have exhausted the amount
                assert(alloc == d);
                assert(post[idx as int] == dev_ints[idx as int]);
            }
            if alloc > 0 {
                assert(pre_remaining > 0);
            }
        }
        k = k + 1;
    }
    proof {
        assert(entries@.take(n as int) =~= entries@);
        assert(remaining as int == rounding_shortfall(deposit as int, dev_ints));
    }

    // rounding leftovers go to the validator furthest below target: the
    // front entry after the sort carries the largest shortfall
    proof {
        assert(n >= 1);
    }
    let ghost greedy_alloc = alloc_ints(allocs@);
    let ghost fix_applied = remaining > 0;
    let ghost fixup: int = entries@[0].1 as int;
    if remaining > 0 {
        let d0 = entries[0].0;
        let idx0 = entries[0].1;
        let cur = allocs[idx0];
        proof {
            assert(forall|p: int|
                0 <= p < n ==> #[trigger] alloc_ints(allocs@)[p] >= 0);
            lemma_seq_sum_element_le(alloc_ints(allocs@), idx0 as int);
            lemma_seq_sum_update(alloc_ints(allocs@), idx0 as int, cur + remaining);
            assert(alloc_ints(allocs@.update(idx0 as int, (cur + remaining) as u128))
                =~= alloc_ints(allocs@).update(idx0 as int, cur + remaining));
        }
        allocs.set(idx0, cur + remaining);
    }
    proof {
        assert(seq_sum(alloc_ints(allocs@)) == deposit);
        assert(forall|p: int|
            0 <= p < n && p != fixup ==> #[trigger] alloc_ints(allocs@)[p] <= dev_ints[p]);
        assert(alloc_ints(allocs@)[fixup] <= dev_ints[fixup] + rounding_shortfall(
            deposit as int,
            dev_ints,
        ));
        assert(forall|p: int|
            0 <= p < n && !(fix_applied && p == fixup) ==> #[trigger] alloc_ints(allocs@)[p]
                == greedy_alloc[p]);
        assert(forall|p: int|
            0 <= p < n ==> #[trigger] alloc_ints(allocs@)[p] >= greedy_alloc[p]);
        // the recipient's shortfall is maximal: the sort put the largest key
        // in front
        assert forall|p: int| 0 <= p < n implies dev_ints[fixup] >= dev_ints[p] by {
            assert(holds_position(entries@, p));
            let kk = choose|k: int| 0 <= k < entries@.len() && (#[trigger] entries@[k]).1 == p;
            assert(entries@[kk].0 as int == dev_ints[p]);
            if kk > 0 {
                assert(entries@[0].0 >= entries@[kk].0);
            }
            assert(entries@[0].0 as int == dev_ints[fixup]);
        }
    }

    // report the allocations in the validators' input order
    let mut out: Vec<IdealDelegation> = Vec::new();
    i = 0;
    while i < n
        invariant
            0 <= i <= n,
            n == delegations@.len(),
            allocs@.len() == n,
            out@.len() == i,
            forall|p: int|
                0 <= p < i ==> (#[trigger] out@[p]).valoper_address@
                    == delegations@[p].valoper_address@,
            forall|p: int| 0 <= p < i ==> (#[trigger] out@[p]).ideal_stake == allocs@[p],
        decreases n - i,
    {
        out.push(
            IdealDelegation {
                valoper_address: delegations[i].valoper_address.clone(),
                ideal_stake: allocs[i],
            },
        );
        i = i + 1;
    }
    proof {
        assert(ideal_values(out@) =~= alloc_ints(allocs@));
        assert(n >= 1);
        assert(0 <= fixup < n);
        assert(forall|i2: int|
            0 <= i2 < n ==> (#[trigger] out@[i2]).ideal_stake as int == alloc_ints(allocs@)[i2]);
        assert(exists|j: int|
            #![auto]
            0 <= j < out@.len() && (forall|i2: int|
                0 <= i2 < out@.len() && i2 != j ==> out@[i2].ideal_stake as int <= dev_ints[i2])
                && out@[j].ideal_stake as int <= dev_ints[j] + rounding_shortfall(
                deposit as int,
                dev_ints,
            ) && (forall|i2: int| 0 <= i2 < out@.len() ==> dev_ints[j] >= dev_ints[i2])) by {
            assert(0 <= fixup < out@.len() && (forall|i2: int|
                0 <= i2 < out@.len() && i2 != fixup ==> out@[i2].ideal_stake as int
                    <= dev_ints[i2]) && out@[fixup].ideal_stake as int <= dev_ints[fixup]
                + rounding_shortfall(deposit as int, dev_ints) && (forall|i2: int|
                0 <= i2 < out@.len() ==> dev_ints[fixup] >= dev_ints[i2]));
        }
        // the greedy pass serves the largest shortfall first: anyone who
        // received anything implies everyone strictly more deficient was
        // served in full
        assert forall|i1: int, i2: int|
            0 <= i1 < n && 0 <= i2 < n && dev_ints[i1] > dev_ints[i2] && (
            #[trigger] out@[i2]).ideal_stake > 0 implies (#[trigger] out@[i1]).ideal_stake as int
            >= dev_ints[i1] by {
            assert(holds_position(entries@, i1));
            assert(holds_position(entries@, i2));
            let k1 = choose|k: int| 0 <= k < entries@.len() && (#[trigger] entries@[k]).1 == i1;
            let k2 = choose|k: int| 0 <= k < entries@.len() && (#[trigger] entries@[k]).1 == i2;
            assert(entries@[k1].0 as int == dev_ints[i1]);
            assert(entries@[k2].0 as int == dev_ints[i2]);
            assert(k1 != k2);
            if k2 < k1 {
                assert(entries@[k2].0 >= entries@[k1].0);
                assert(false);
            }
            // the rounding recipient sits first, so a later recipient kept
            // its greedy grant
            if fix_applied && i2 == fixup {
                assert(entries@[0].1 == entries@[k2].1);
                assert(k2 == 0);
                assert(false);
            }
            assert(alloc_ints(allocs@)[i2] == greedy_alloc[i2]);
            assert(greedy_alloc[entries@[k2].1 as int] > 0);
            assert(greedy_alloc[entries@[k1].1 as int] == dev_ints[entries@[k1].1 as int]);
            assert(alloc_ints(allocs@)[i1] >= greedy_alloc[i1]);
        }
    }
    Ok(out)
}

/// Computes how much of `withdraw` each validator should release so the
/// set moves toward its weight-proportional targets: each validator gives
/// up at most its excess above target, largest excess first. Because the
/// floored targets sum to at most the projected total, the excesses always
/// cover the requested amount. Fails only when the set's total weight is
/// zero. The result keeps the input's order and addresses, allocates
/// `withdraw` exactly, and never takes more than a validator's excess.
#[verifier::rlimit(80)]
pub fn calc_withdraw(withdraw: u128, delegations: &Vec<Delegation>) -> (r: Result<
    Vec<IdealDelegation>,
    ContractError,
>)
    requires
        total_stake(delegations@) <= u128::MAX,
        withdraw as int <= total_stake(delegations@),
    ensures
        r is Err <==> total_weight(delegations@) == 0,
        r matches Err(e) ==> e is DistributionError,
        r matches Ok(out) ==> {
            let projected = withdraw_projected(delegations@, withdraw as int);
            let w_total = total_weight(delegations@);
            let devs = withdraw_deviations(delegations@, projected, w_total);
            &&& out@.len() == delegations@.len()
            &&& forall|i: int|
                0 <= i < out@.len() ==> (#[trigger] out@[i]).valoper_address@
                    == delegations@[i].valoper_address@
            &&& total_ideal(out@) == withdraw
            &&& forall|i: int|
                0 <= i < out@.len() ==> (#[trigger] out@[i]).ideal_stake as int <= devs[i]
            &&& forall|i: int|
                0 <= i < out@.len() ==> (#[trigger] out@[i]).ideal_stake
                    <= delegations@[i].stake
            &&& forall|i1: int, i2: int|
                0 <= i1 < out@.len() && 0 <= i2 < out@.len() && devs[i1] > devs[i2] && (
                #[trigger] out@[i2]).ideal_stake > 0 ==> (#[trigger] out@[i1]).ideal_stake as int
                    >= devs[i1]
        },
{
    let w_total = total_weight_exec(delegations);
    if w_total == 0 {
        return Err(ContractError::DistributionError);
    }
    let s_total = total_stake_exec(delegations);
    let projected = s_total - withdraw;
    let n = delegations.len();
    let ghost gprojected = projected as int;
    let ghost gw = w_total as int;
    let ghost dev_ints = withdraw_deviations(delegations@, gprojected, gw);

    // each validator's excess above its target stake
    let mut devs: Vec<u128> = Vec::new();
    let mut i: usize = 0;
    while i < n
        invariant
            0 <= i <= n,
            n == delegations@.len(),
            devs@.len() == i,
            w_total == total_weight(delegations@),
            w_total > 0,
            gprojected == withdraw_projected(delegations@, withdraw as int),
            gprojected == projected as int,
            gprojected <= u128::MAX,
            gw == w_total as int,
            dev_ints == withdraw_deviations(delegations@, gprojected, gw),
            forall|k: int| 0 <= k < i ==> devs@[k] as int == dev_ints[k],
            forall|k: int|
                0 <= k < i ==> devs@[k] <= delegations@[k].stake,
        decreases n - i,
    {
        let stake = delegations[i].stake;
        let w = delegations[i].weight;
        proof {
            assert(forall|k: int|
                0 <= k < weight_values(delegations@).len()
                    ==> #[trigger] weight_values(delegations@)[k] >= 0);
            lemma_seq_sum_element_le(weight_values(delegations@), i as int);
            lemma_mul_div_le(projected as int, w as int, w_total as int);
        }
        let t = mul_ratio(projected, w as u128, w_total);
        let dv = if stake > t {
            stake - t
        } else {
            0
        };
        proof {
            assert(dev_ints[i as int] == withdraw_deviation(
                delegations@[i as int],
                gprojected,
                gw,
            ));
            assert(w == delegations@[i as int].weight);
            assert(t as int == gprojected * (w as int) / gw);
            assert(t as int == target_stake(delegations@[i as int].weight as int, gprojected, gw));
            assert(dv as int == withdraw_deviation(delegations@[i as int], gprojected, gw));
        }
        devs.push(dv);
        i = i + 1;
    }
    proof {
        // the excesses cover the whole withdrawal
        vstd::arithmetic::div_mod::lemma_div_pos_is_pos(gprojected, gw);
        lemma_target_sum_le(delegations@, gprojected, gw);
        lemma_withdraw_dev_sum(delegations@, gprojected, gw);
        assert(seq_sum(dev_ints) >= withdraw as int);
    }

    // pair each excess with its validator position
    let mut entries: Vec<(u128, usize)> = Vec::new();
    i = 0;
    while i < n
        invariant
            0 <= i <= n,
            n == delegations@.len(),
            devs@.len() == n,
            entries@.len() == i,
            dev_ints.len() == n,
            forall|k: int| 0 <= k < n ==> devs@[k] as int == dev_ints[k],
            forall|k: int| 0 <= k < i ==> (#[trigger] entries@[k]) == (devs@[k], k as usize),
        decreases n - i,
    {
        entries.push((devs[i], i));
        i = i + 1;
    }
    proof {
        assert(entries_match(entries@, dev_ints));
        assert(distinct_indices(entries@));
        assert(entry_keys(entries@) =~= dev_ints);
        assert forall|p: int| 0 <= p < n implies #[trigger] holds_position(entries@, p) by {
            assert(entries@[p].1 == p);
        }
    }
    let ghost pre_sort = entries@;
    sort_entries_desc(&mut entries, Ghost(dev_ints));
    proof {
        assert forall|p: int| 0 <= p < n implies #[trigger] holds_position(entries@, p) by {
            assert(holds_position(pre_sort, p));
        }
    }

    // take each validator's excess, largest first, until covered
    let mut allocs: Vec<u128> = zeros(n);
    let mut remaining: u128 = withdraw;
    let mut k: usize = 0;
    proof {
        assert(entries@.take(0) =~= Seq::<(u128, usize)>::empty());
        assert(entry_keys(Seq::<(u128, usize)>::empty()) =~= Seq::<int>::empty());
        assert(alloc_ints(allocs@) =~= Seq::new(n as nat, |i: int| 0int));
        lemma_seq_sum_zero(Seq::new(n as nat, |i: int| 0int));
    }
    while k < n
        invariant
            0 <= k <= n,
            n == delegations@.len(),
            entries@.len() == n,
            allocs@.len() == n,
            dev_ints.len() == n,
            entries_match(entries@, dev_ints),
            distinct_indices(entries@),
            seq_sum(entry_keys(entries@)) == seq_sum(dev_ints),
            remaining as int == if withdraw - seq_sum(entry_keys(entries@.take(k as int)))
                >= 0 {
                withdraw - seq_sum(entry_keys(entries@.take(k as int)))
            } else {
                0
            },
            seq_sum(alloc_ints(allocs@)) == withdraw - remaining,
            forall|p: int|
                0 <= p < n && (forall|k2: int| 0 <= k2 < k ==> (#[trigger] entries@[k2]).1 != p)
                    ==> alloc_ints(allocs@)[p] == 0,
            forall|p: int| 0 <= p < n ==> #[trigger] alloc_ints(allocs@)[p] <= dev_ints[p],
            // while anything remains, everything served so far gave its full
            // excess
            remaining > 0 ==> forall|k2: int|
                0 <= k2 < k ==> alloc_ints(allocs@)[(#[trigger] entries@[k2]).1 as int]
                    == dev_ints[entries@[k2].1 as int],
            // once a later entry gave anything, every earlier entry gave in
            // full
            forall|k1: int, k2: int|
                #![trigger entries@[k1], entries@[k2]]
                0 <= k1 < k2 < k && alloc_ints(allocs@)[entries@[k2].1 as int] > 0
                    ==> alloc_ints(allocs@)[entries@[k1].1 as int] == dev_ints[entries@[k1].1 as int],
        decreases n - k,
    {
        let d = entries[k].0;
        let idx = entries[k].1;
        let alloc = if remaining < d {
            remaining
        } else {
            d
        };
        let ghost pre_alloc = alloc_ints(allocs@);
        let ghost pre_remaining = remaining;
        proof {
            lemma_seq_sum_take_succ(entry_keys(entries@), k as int);
            assert(entry_keys(entries@).take(k as int) =~= entry_keys(
                entries@.take(k as int),
            ));
            assert(entry_keys(entries@).take(k as int + 1) =~= entry_keys(
                entries@.take(k as int + 1),
            ));
            assert(alloc_ints(allocs@)[idx as int] == 0);
            lemma_seq_sum_update(alloc_ints(allocs@), idx as int, alloc as int);
            assert(alloc_ints(allocs@.update(idx as int, alloc)) =~= alloc_ints(
                allocs@,
            ).update(idx as int, alloc as int));
        }
        allocs.set(idx, alloc);
        remaining = remaining - alloc;
        proof {
            let post = alloc_ints(allocs@);
            assert forall|k1: int| 0 <= k1 < k as int implies post[(#[trigger] entries@[k1]).1
                as int] == pre_alloc[entries@[k1].1 as int] by {
                assert(entries@[k1].1 != entries@[k as int].1);
            }
            assert(post[idx as int] == alloc as int);
            if remaining > 0 {
                assert(alloc == d);
                assert(post[idx as int] == dev_ints[idx as int]);
            }
            if alloc > 0 {
                assert(pre_remaining > 0);
            }
        }
        k = k + 1;
    }
    proof {
        assert(entries@.take(n as int) =~= entries@);
        assert(remaining == 0);
    }

    // report the allocations in the validators' input order
    let mut out: Vec<IdealDelegation> = Vec::new();
    i = 0;
    while i < n
        invariant
            0 <= i <= n,
            n == delegations@.len(),
            allocs@.len() == n,
            out@.len() == i,
            forall|p: int|
                0 <= p < i ==> (#[trigger] out@[p]).valoper_address@
                    == delegations@[p].valoper_address@,
            forall|p: int| 0 <= p < i ==> (#[trigger] out@[p]).ideal_stake == allocs@[p],
        decreases n - i,
    {
        out.push(
            IdealDelegation {
                valoper_address: delegations[i].valoper_address.clone(),
                ideal_stake: allocs[i],
            },
        );
        i = i + 1;
    }
    proof {
        assert(ideal_values(out@) =~= alloc_ints(allocs@));
        assert(forall|i2: int|
            0 <= i2 < n ==> (#[trigger] out@[i2]).ideal_stake as int
                == alloc_ints(allocs@)[i2]);
        assert(forall|i2: int|
            0 <= i2 < n ==> (#[trigger] out@[i2]).ideal_stake as int <= dev_ints[i2]);
        assert(forall|i2: int|
            0 <= i2 < n ==> dev_ints[i2] <= delegations@[i2].stake as int);
        // the greedy pass takes from the largest excess first: anyone who
        // gave anything implies everyone strictly more overweight gave in
        // full
        assert forall|i1: int, i2: int|
            0 <= i1 < n && 0 <= i2 < n && dev_ints[i1] > dev_ints[i2] && (
            #[trigger] out@[i2]).ideal_stake > 0 implies (#[trigger] out@[i1]).ideal_stake as int
            >= dev_ints[i1] by {
            assert(holds_position(entries@, i1));
            assert(holds_position(entries@, i2));
            let k1 = choose|k: int| 0 <= k < entries@.len() && (#[trigger] entries@[k]).1 == i1;
            let k2 = choose|k: int| 0 <= k < entries@.len() && (#[trigger] entries@[k]).1 == i2;
            assert(entries@[k1].0 as int == dev_ints[i1]);
            assert(entries@[k2].0 as int == dev_ints[i2]);
            assert(k1 != k2);
            if k2 < k1 {
                assert(entries@[k2].0 >= entries@[k1].0);
                assert(false);
            }
            assert(alloc_ints(allocs@)[entries@[k2].1 as int] > 0);
            assert(alloc_ints(allocs@)[entries@[k1].1 as int] == dev_ints[entries@[k1].1
                as int]);
        }
    }
    Ok(out)
}

} // verus!
