//! Helpers for the hash tables that hold per-address and per-flow state:
//! walking the keys of a table, and sums over everything a table holds.

use std::collections::HashMap;
use vstd::prelude::*;
use vstd::std_specs::hash::obeys_key_model;
use vstd::std_specs::iter::IteratorSpec;

verus! {

/// Sum of `weight` over the values of a finite map.
pub open spec fn sum_by<K, V>(m: Map<K, V>, weight: spec_fn(V) -> int) -> int
    decreases m.dom().len(),
    when m.dom().finite()
{
    if m.dom().len() == 0 {
        0
    } else {
        let k = m.dom().choose();
        weight(m[k]) + sum_by(m.remove(k), weight)
    }
}

/// The sum over an empty map is zero.
pub proof fn sum_by_empty<K, V>(weight: spec_fn(V) -> int)
    ensures
        sum_by(Map::<K, V>::empty(), weight) == 0,
{
}

/// Any entry can be taken out of the sum first: the order in which the
/// entries are added up does not matter.
pub proof fn sum_by_remove<K, V>(m: Map<K, V>, weight: spec_fn(V) -> int, k: K)
    requires
        m.dom().finite(),
        m.contains_key(k),
    ensures
        sum_by(m, weight) == weight(m[k]) + sum_by(m.remove(k), weight),
    decreases m.dom().len(),
{
    let c = m.dom().choose();
    if c != k {
        sum_by_remove(m.remove(c), weight, k);
        sum_by_remove(m.remove(k), weight, c);
        assert(m.remove(c).remove(k) =~= m.remove(k).remove(c));
    }
}

/// A new entry adds its weight to the sum.
pub proof fn sum_by_insert<K, V>(m: Map<K, V>, weight: spec_fn(V) -> int, k: K, v: V)
    requires
        m.dom().finite(),
        !m.contains_key(k),
    ensures
        sum_by(m.insert(k, v), weight) == sum_by(m, weight) + weight(v),
{
    sum_by_remove(m.insert(k, v), weight, k);
    assert(m.insert(k, v).remove(k) =~= m);
}

/// A sum of weights that are all within `[0, bound]` is within
/// `[0, entries * bound]`.
pub proof fn sum_by_bounds<K, V>(m: Map<K, V>, weight: spec_fn(V) -> int, bound: int)
    requires
        m.dom().finite(),
        forall|k: K| m.contains_key(k) ==> 0 <= #[trigger] weight(m[k]) <= bound,
    ensures
        0 <= sum_by(m, weight) <= m.dom().len() * bound,
    decreases m.dom().len(),
{
    if m.dom().len() > 0 {
        let k = m.dom().choose();
        sum_by_bounds(m.remove(k), weight, bound);
        assert((m.dom().len() - 1) * bound + bound == m.dom().len() * bound) by (nonlinear_arith);
    }
}

/// The keys of a table, each once, in the order in which the table hands
/// them out.
pub(crate) fn keys_of<K: Copy, V>(table: &HashMap<K, V>) -> (keys: Vec<K>)
    requires
        obeys_key_model::<K>(),
    ensures
        keys@.no_duplicates(),
        keys@.to_set() == table@.dom(),
        keys@.len() == table@.dom().len(),
{
    let mut keys: Vec<K> = Vec::new();
    for k in it: table.keys()
        invariant
            keys@ == it.seq().take(it.index() as int).unref(),
    {
        keys.push(*k);
    }
    proof {
        let all = vstd::std_specs::hash::spec_keys_iter(table).remaining();
        assert(keys@ =~= all.unref());
    }
    keys
}

} // verus!
