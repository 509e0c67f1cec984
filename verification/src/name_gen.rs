use vstd::prelude::*;
use crate::colonist::random_u64_below;

verus! {

/// Sum of the weights of `items`.
pub open spec fn weight_sum<T>(items: Seq<(T, u32)>) -> nat
    decreases items.len(),
{
    if items.len() == 0 {
        0
    } else {
        weight_sum(items.drop_last()) + (items.last().1 as nat)
    }
}

/// Total weight of the items up to and including the one at `i`.
pub open spec fn cumulative<T>(items: Seq<(T, u32)>, i: int) -> nat {
    weight_sum(items.take(i + 1))
}

/// The index that a roll lands on, looking from `i` on: the first item
/// whose cumulative weight exceeds the roll, or the last item when none does.
pub open spec fn landing_from<T>(items: Seq<(T, u32)>, roll: int, i: int) -> int
    decreases items.len() - i,
{
    if i >= items.len() - 1 {
        items.len() - 1
    } else if roll < cumulative(items, i) {
        i
    } else {
        landing_from(items, roll, i + 1)
    }
}

/// The index that a roll lands on.
pub open spec fn landing_index<T>(items: Seq<(T, u32)>, roll: int) -> int {
    landing_from(items, roll, 0)
}

proof fn lemma_weight_sum_take_step<T>(items: Seq<(T, u32)>, i: int)
    requires
        0 <= i < items.len(),
    ensures
        cumulative(items, i) == weight_sum(items.take(i)) + items[i].1,
{
    assert(items.take(i + 1).drop_last() =~= items.take(i));
}

proof fn lemma_weight_sum_monotone<T>(items: Seq<(T, u32)>, i: int, j: int)
    requires
        0 <= i <= j <= items.len(),
    ensures
        weight_sum(items.take(i)) <= weight_sum(items.take(j)),
    decreases j - i,
{
    if i < j {
        lemma_weight_sum_take_step(items, j - 1);
        lemma_weight_sum_monotone(items, i, j - 1);
    }
}

/// The item that a roll lands on, walking the items and taking away each
/// weight the roll passes.
pub fn pick_by_roll<T: Copy>(items: &[(T, u32)], roll: u64) -> (x: T)
    requires
        items@.len() > 0,
    ensures
        x == items@[landing_index(items@, roll as int)].0,
{
    let mut rest: u64 = roll;
    let mut i: usize = 0;
    let ghost s = items@;
    while i < items.len()
        invariant
            i <= s.len(),
            s == items@,
            s.len() > 0,
            rest as int == roll - weight_sum(s.take(i as int)),
            landing_index(s, roll as int) == landing_from(s, roll as int, i as int),
        decreases s.len() - i,
    {
        let (item, w) = items[i];
        proof {
            lemma_weight_sum_take_step(s, i as int);
        }
        if rest < w as u64 {
            return item;
        }
        rest = rest - w as u64;
        i = i + 1;
    }
    items[items.len() - 1].0
}

/// An item drawn with probability proportional to its weight.
pub fn weighted<T: Copy>(rng: &mut fastrand::Rng, items: &[(T, u32)]) -> (x: T)
    requires
        items@.len() > 0,
        0 < weight_sum(items@) <= u64::MAX,
    ensures
        exists|roll: int| 0 <= roll < weight_sum(items@) && x == items@[landing_index(items@, roll)].0,
{
    let mut total: u64 = 0;
    let mut i: usize = 0;
    let ghost s = items@;
    while i < items.len()
        invariant
            i <= s.len(),
            s == items@,
            weight_sum(s) <= u64::MAX,
            total == weight_sum(s.take(i as int)),
        decreases s.len() - i,
    {
        proof {
            lemma_weight_sum_take_step(s, i as int);
            lemma_weight_sum_monotone(s, i + 1, s.len() as int);
            assert(s.take(s.len() as int) =~= s);
        }
        total = total + items[i].1 as u64;
        i = i + 1;
    }
    assert(s.take(s.len() as int) =~= s);
    let roll = random_u64_below(rng, 0, total);
    pick_by_roll(items, roll)
}

proof fn lemma_landing_from_has_weight<T>(items: Seq<(T, u32)>, roll: int, i: int)
    requires
        items.len() > 0,
        0 <= i < items.len(),
        weight_sum(items.take(i)) <= roll < weight_sum(items),
    ensures
        0 <= landing_from(items, roll, i) < items.len(),
        items[landing_from(items, roll, i)].1 > 0,
    decreases items.len() - i,
{
    lemma_weight_sum_take_step(items, i);
    if i >= items.len() - 1 {
        assert(items.take(items.len() as int) =~= items);
    } else if roll >= cumulative(items, i) {
        lemma_landing_from_has_weight(items, roll, i + 1);
    }
}

/// A roll below the total weight never lands on an item of weight zero.
pub proof fn lemma_roll_lands_on_weight<T>(items: Seq<(T, u32)>, roll: int)
    requires
        items.len() > 0,
        0 <= roll < weight_sum(items),
    ensures
        0 <= landing_index(items, roll) < items.len(),
        items[landing_index(items, roll)].1 > 0,
{
    assert(items.take(0) =~= Seq::<(T, u32)>::empty());
    lemma_landing_from_has_weight(items, roll, 0);
}

} // verus!
