//! Records kept in a vector and found by an identifier: the vector stands for
//! a map from identifier to record in which every identifier occurs once.
use vstd::prelude::*;

verus! {

/// The map from identifier to record that a list of records stands for; a
/// later record with the same identifier wins.
pub open spec fn keyed<T>(items: Seq<T>, key: spec_fn(T) -> Seq<char>) -> Map<Seq<char>, T>
    decreases items.len(),
{
    if items.len() == 0 {
        Map::empty()
    } else {
        keyed(items.drop_last(), key).insert(key(items.last()), items.last())
    }
}

/// No identifier occurs twice.
pub open spec fn keys_distinct<T>(items: Seq<T>, key: spec_fn(T) -> Seq<char>) -> bool {
    forall|i: int, j: int| 0 <= i < items.len() && 0 <= j < items.len() && i != j ==> key(items[i]) != key(items[j])
}

/// With distinct identifiers, the map has one entry per record, each record
/// stored under its identifier.
pub proof fn lemma_keyed_entries<T>(items: Seq<T>, key: spec_fn(T) -> Seq<char>)
    requires
        keys_distinct(items, key),
    ensures
        keyed(items, key).dom().finite(),
        keyed(items, key).len() == items.len(),
        forall|k: Seq<char>| #[trigger] keyed(items, key).dom().contains(k) <==> exists|i: int|
            0 <= i < items.len() && key(items[i]) == k,
        forall|i: int| 0 <= i < items.len() ==> #[trigger] keyed(items, key)[key(items[i])] == items[i],
    decreases items.len(),
{
    if items.len() > 0 {
        let init = items.drop_last();
        let last = items.last();
        lemma_keyed_entries(init, key);
        if keyed(init, key).dom().contains(key(last)) {
            let i = choose|i: int| 0 <= i < init.len() && key(init[i]) == key(last);
            assert(key(items[i]) == key(items[items.len() - 1]));
        }
        assert forall|k: Seq<char>| #[trigger] keyed(items, key).dom().contains(k) <==> exists|i: int|
            0 <= i < items.len() && key(items[i]) == k by {
            if keyed(init, key).dom().contains(k) {
                let i = choose|i: int| 0 <= i < init.len() && key(init[i]) == k;
                assert(key(items[i]) == k);
            }
            if k == key(last) {
                assert(key(items[items.len() - 1]) == k);
            }
            if exists|i: int| 0 <= i < items.len() && key(items[i]) == k {
                let i = choose|i: int| 0 <= i < items.len() && key(items[i]) == k;
                if i < init.len() {
                    assert(key(init[i]) == k);
                }
            }
        }
        assert forall|i: int| 0 <= i < items.len() implies #[trigger] keyed(items, key)[key(items[i])] == items[i] by {
            if i < init.len() {
                assert(init[i] == items[i]);
                assert(key(items[i]) != key(last));
            }
        }
    }
}

/// Replacing a record by one with the same identifier replaces the map's
/// entry and keeps identifiers distinct.
pub proof fn lemma_keyed_update<T>(items: Seq<T>, key: spec_fn(T) -> Seq<char>, i: int, x: T)
    requires
        keys_distinct(items, key),
        0 <= i < items.len(),
        key(x) == key(items[i]),
    ensures
        keys_distinct(items.update(i, x), key),
        keyed(items.update(i, x), key) == keyed(items, key).insert(key(x), x),
    decreases items.len(),
{
    let upd = items.update(i, x);
    assert forall|a: int, b: int| 0 <= a < upd.len() && 0 <= b < upd.len() && a != b implies key(upd[a]) != key(
        upd[b],
    ) by {
        assert(key(upd[a]) == key(items[a]));
        assert(key(upd[b]) == key(items[b]));
    }
    let init = items.drop_last();
    if i == items.len() - 1 {
        assert(upd.drop_last() =~= init);
        assert(keyed(upd, key) =~= keyed(items, key).insert(key(x), x));
    } else {
        assert(upd.drop_last() =~= init.update(i, x));
        lemma_keyed_update(init, key, i, x);
        assert(key(items.last()) != key(x)) by {
            assert(key(items[items.len() - 1]) != key(items[i]));
        }
        assert(keyed(upd, key) =~= keyed(items, key).insert(key(x), x));
    }
}

/// Appending a record with a new identifier adds its entry and keeps
/// identifiers distinct.
pub proof fn lemma_keyed_push<T>(items: Seq<T>, key: spec_fn(T) -> Seq<char>, x: T)
    requires
        keys_distinct(items, key),
        forall|i: int| 0 <= i < items.len() ==> key(#[trigger] items[i]) != key(x),
    ensures
        keys_distinct(items.push(x), key),
        keyed(items.push(x), key) == keyed(items, key).insert(key(x), x),
{
    let p = items.push(x);
    assert(p.drop_last() =~= items);
    assert forall|a: int, b: int| 0 <= a < p.len() && 0 <= b < p.len() && a != b implies key(p[a]) != key(p[b]) by {
        if a < items.len() && b < items.len() {
            assert(p[a] == items[a] && p[b] == items[b]);
        } else if a < items.len() {
            assert(p[a] == items[a]);
        } else if b < items.len() {
            assert(p[b] == items[b]);
        }
    }
}

} // verus!
