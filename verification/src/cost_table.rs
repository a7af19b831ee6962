//! The mathematical model of an operator-cost table: a sequence of
//! `(key, cost)` pairs where the first matching entry decides. The cost
//! models and estimators state their contracts over this model.

use vstd::prelude::*;

verus! {

/// The cost that the table `s` assigns to `key`: the first matching entry
/// decides, `None` when no entry matches.
pub open spec fn table_find<K>(s: Seq<(K, usize)>, key: K) -> Option<usize>
    decreases s.len(),
{
    if s.len() == 0 {
        None
    } else if s[0].0 == key {
        Some(s[0].1)
    } else {
        table_find(s.drop_first(), key)
    }
}

/// The mapping from keys to costs that the table `s` holds.
pub open spec fn table_map<K>(s: Seq<(K, usize)>) -> Map<K, usize> {
    Map::new(
        |key: K| table_find(s, key) is Some,
        |key: K| table_find(s, key)->Some_0,
    )
}

/// The first matching entry decides: an entry at `i` whose key no earlier
/// entry shares is what `table_find` yields.
pub proof fn lemma_table_find_at<K>(s: Seq<(K, usize)>, key: K, i: int)
    requires
        0 <= i < s.len(),
        s[i].0 == key,
        forall|j: int| 0 <= j < i ==> s[j].0 != key,
    ensures
        table_find(s, key) == Some(s[i].1),
    decreases i,
{
    if i > 0 {
        lemma_table_find_at(s.drop_first(), key, i - 1);
    }
}

/// A key no entry holds is not found.
pub proof fn lemma_table_find_absent<K>(s: Seq<(K, usize)>, key: K)
    requires
        forall|j: int| 0 <= j < s.len() ==> s[j].0 != key,
    ensures
        table_find(s, key) is None,
    decreases s.len(),
{
    if s.len() > 0 {
        lemma_table_find_absent(s.drop_first(), key);
    }
}

/// Appending an entry decides only the keys the table did not already hold.
pub proof fn lemma_table_find_push<K>(s: Seq<(K, usize)>, p: (K, usize), key: K)
    ensures
        table_find(s.push(p), key) == if table_find(s, key) is Some {
            table_find(s, key)
        } else if p.0 == key {
            Some(p.1)
        } else {
            None::<usize>
        },
    decreases s.len(),
{
    if s.len() == 0 {
        assert(s.push(p).drop_first() =~= s);
    } else {
        assert(s.push(p).drop_first() =~= s.drop_first().push(p));
        lemma_table_find_push(s.drop_first(), p, key);
    }
}

/// Overwriting the cost at `i`, the first entry holding `key`, finds the new
/// cost for `key` and leaves every other key as it was.
pub proof fn lemma_table_find_update<K>(s: Seq<(K, usize)>, i: int, cost: usize, key: K)
    requires
        0 <= i < s.len(),
        forall|j: int| 0 <= j < i ==> s[j].0 != s[i].0,
    ensures
        table_find(s.update(i, (s[i].0, cost)), s[i].0) == Some(cost),
        key != s[i].0 ==> table_find(s.update(i, (s[i].0, cost)), key) == table_find(s, key),
    decreases i,
{
    let t = s.update(i, (s[i].0, cost));
    lemma_table_find_at(t, s[i].0, i);
    if key != s[i].0 {
        if i == 0 {
            assert(t.drop_first() =~= s.drop_first());
        } else {
            assert(t.drop_first() =~= s.drop_first().update(i - 1, (s[i].0, cost)));
            lemma_table_find_update(s.drop_first(), i - 1, cost, key);
        }
    }
}

/// The map a table holds is its first entry laid over the map of the rest.
pub proof fn lemma_table_map_unfold<K>(s: Seq<(K, usize)>)
    requires
        s.len() > 0,
    ensures
        table_map(s) == table_map(s.drop_first()).insert(s[0].0, s[0].1),
{
    assert(table_map(s) =~= table_map(s.drop_first()).insert(s[0].0, s[0].1));
}

} // verus!
