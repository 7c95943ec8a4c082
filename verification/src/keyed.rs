//! A sequence of keys beside a sequence of values, read as a map. Both
//! stores keep their records in a vector and answer for them as a map; the
//! facts that connect the two views are proved here once.

use vstd::prelude::*;

verus! {

/// The map that sends each key to the value at the key's position.
pub open spec fn table<K, V>(keys: Seq<K>, values: Seq<V>) -> Map<K, V> {
    Map::new(|key: K| keys.contains(key), |key: K| values[keys.index_of(key)])
}

/// With distinct keys, the value beside the `i`-th key is the one the key
/// maps to.
pub proof fn lemma_table_at<K, V>(keys: Seq<K>, values: Seq<V>, i: int)
    requires
        keys.no_duplicates(),
        0 <= i < keys.len(),
    ensures
        table(keys, values).contains_key(keys[i]),
        table(keys, values)[keys[i]] == values[i],
{
    assert(keys.contains(keys[i]));
    let p = keys.index_of(keys[i]);
    assert(0 <= p < keys.len() && keys[p] == keys[i]);
}

/// A key that occurs nowhere is no key of the map.
pub proof fn lemma_table_absent<K, V>(keys: Seq<K>, values: Seq<V>, key: K)
    requires
        forall|i: int| 0 <= i < keys.len() ==> keys[i] != key,
    ensures
        !table(keys, values).contains_key(key),
{
}

/// Appending a fresh key with its value inserts the pair.
pub proof fn lemma_table_push<K, V>(keys: Seq<K>, values: Seq<V>, key: K, value: V)
    requires
        keys.no_duplicates(),
        keys.len() == values.len(),
        !keys.contains(key),
    ensures
        keys.push(key).no_duplicates(),
        table(keys.push(key), values.push(value)) == table(keys, values).insert(key, value),
{
    let grown = keys.push(key);
    assert forall|i: int, j: int| 0 <= i < grown.len() && 0 <= j < grown.len() && i != j implies
        grown[i] != grown[j] by {
        if i < keys.len() {
            assert(keys.contains(keys[i]));
        }
        if j < keys.len() {
            assert(keys.contains(keys[j]));
        }
    }
    let expected = table(keys, values).insert(key, value);
    let actual = table(grown, values.push(value));
    assert forall|k: K| actual.contains_key(k) <==> expected.contains_key(k) by {
        if grown.contains(k) {
            let p = grown.index_of(k);
            if p < keys.len() {
                assert(keys[p] == k);
            }
        }
        if keys.contains(k) {
            let p = keys.index_of(k);
            assert(grown[p] == k);
        }
        if k == key {
            assert(grown[keys.len() as int] == k);
        }
    }
    assert forall|k: K| actual.contains_key(k) implies actual[k] == expected[k] by {
        let p = grown.index_of(k);
        lemma_table_at(grown, values.push(value), p);
        if p < keys.len() {
            lemma_table_at(keys, values, p);
        }
    }
    assert(actual =~= expected);
}

/// Replacing the value beside the `i`-th key rebinds that key.
pub proof fn lemma_table_update<K, V>(keys: Seq<K>, values: Seq<V>, i: int, value: V)
    requires
        keys.no_duplicates(),
        keys.len() == values.len(),
        0 <= i < keys.len(),
    ensures
        table(keys, values.update(i, value)) == table(keys, values).insert(keys[i], value),
{
    let expected = table(keys, values).insert(keys[i], value);
    let actual = table(keys, values.update(i, value));
    assert(keys.contains(keys[i]));
    assert forall|k: K| actual.contains_key(k) implies actual[k] == expected[k] by {
        let p = keys.index_of(k);
        lemma_table_at(keys, values.update(i, value), p);
        lemma_table_at(keys, values, p);
    }
    assert(actual =~= expected);
}

/// Taking out the `i`-th key and its value removes that key and no other.
pub proof fn lemma_table_remove<K, V>(keys: Seq<K>, values: Seq<V>, i: int)
    requires
        keys.no_duplicates(),
        keys.len() == values.len(),
        0 <= i < keys.len(),
    ensures
        keys.remove(i).no_duplicates(),
        table(keys.remove(i), values.remove(i)) == table(keys, values).remove(keys[i]),
{
    let rest = keys.remove(i);
    assert forall|a: int, b: int| 0 <= a < rest.len() && 0 <= b < rest.len() && a != b implies
        rest[a] != rest[b] by {
        let a_at = if a < i { a } else { a + 1 };
        let b_at = if b < i { b } else { b + 1 };
        assert(rest[a] == keys[a_at] && rest[b] == keys[b_at]);
    }
    let expected = table(keys, values).remove(keys[i]);
    let actual = table(rest, values.remove(i));
    assert forall|k: K| actual.contains_key(k) <==> expected.contains_key(k) by {
        if rest.contains(k) {
            let p = rest.index_of(k);
            let q = if p < i { p } else { p + 1 };
            assert(keys[q] == k);
        }
        if keys.contains(k) && k != keys[i] {
            let q = keys.index_of(k);
            let p = if q < i { q } else { q - 1 };
            assert(rest[p] == k);
        }
    }
    assert forall|k: K| actual.contains_key(k) implies actual[k] == expected[k] by {
        let p = rest.index_of(k);
        let q = if p < i { p } else { p + 1 };
        assert(keys[q] == k);
        lemma_table_at(rest, values.remove(i), p);
        lemma_table_at(keys, values, q);
    }
    assert(actual =~= expected);
}

} // verus!
