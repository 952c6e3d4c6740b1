//! The `$group` stage. With a key function, the items are split by the key
//! that the function gives each of them, and the transform runs once per
//! group; keys are JavaScript values, told apart by the caller, which hands
//! each distinct key a number. Without a key function, the whole output
//! array is the one group: the stage empties that array before the transform
//! runs, so the transform finds it empty.
use std::collections::HashMap;
use vstd::prelude::*;

use crate::js_array::{JsArray, LocalArrayExtension};

verus! {

broadcast use vstd::std_specs::hash::group_hash_axioms;

/// The keys of `keys`, each once, in the order in which they first occur.
pub open spec fn distinct_keys(keys: Seq<u64>) -> Seq<u64>
    decreases keys.len(),
{
    if keys.len() == 0 {
        Seq::<u64>::empty()
    } else {
        let n = keys.len() - 1;
        let before = distinct_keys(keys.take(n));
        if before.contains(keys[n]) {
            before
        } else {
            before.push(keys[n])
        }
    }
}

/// The slots of `items` whose key is `k`, in their order; the key of slot
/// `i` is `keys[i]`.
pub open spec fn with_key<T>(items: Seq<Option<T>>, keys: Seq<u64>, k: u64) -> Seq<Option<T>>
    decreases keys.len(),
{
    if keys.len() == 0 {
        Seq::<Option<T>>::empty()
    } else {
        let n = keys.len() - 1;
        let before = with_key(items, keys.take(n), k);
        if keys[n] == k {
            before.push(items[n])
        } else {
            before
        }
    }
}

/// The number of slots over a run of groups.
pub open spec fn total_len<T>(items: Seq<Option<T>>, keys: Seq<u64>, ks: Seq<u64>) -> nat
    decreases ks.len(),
{
    if ks.len() == 0 {
        0
    } else {
        total_len(items, keys, ks.drop_last()) + with_key(items, keys, ks.last()).len()
    }
}

/// One group of items that share a key.
pub struct Group<T> {
    pub key: u64,
    pub items: JsArray<T>,
}

/// Which of the stage's arguments is which.
pub struct GroupArguments {
    /// The position of the transform, run once per group.
    pub transform: usize,
    /// The position of the key function, when there is one.
    pub key: Option<usize>,
}

/// With two arguments, the first is the key function and the second the
/// transform; otherwise the first is the transform and there is no key
/// function.
pub fn group_arguments(count: i32) -> (a: GroupArguments)
    ensures
        count == 2 ==> a == (GroupArguments { transform: 1, key: Some(0) }),
        count != 2 ==> a == (GroupArguments { transform: 0, key: None }),
{
    if count == 2 {
        GroupArguments { transform: 1, key: Some(0) }
    } else {
        GroupArguments { transform: 0, key: None }
    }
}

proof fn lemma_distinct_push(keys: Seq<u64>, x: u64)
    ensures
        distinct_keys(keys.push(x)) == (if distinct_keys(keys).contains(x) {
            distinct_keys(keys)
        } else {
            distinct_keys(keys).push(x)
        }),
{
    assert(keys.push(x).take(keys.len() as int) =~= keys);
}

proof fn lemma_with_key_push<T>(items: Seq<Option<T>>, keys: Seq<u64>, x: u64, k: u64)
    ensures
        with_key(items, keys.push(x), k) == (if x == k {
            with_key(items, keys, k).push(items[keys.len() as int])
        } else {
            with_key(items, keys, k)
        }),
{
    assert(keys.push(x).take(keys.len() as int) =~= keys);
}

/// No key is listed twice, and a key is listed exactly when it occurs.
pub proof fn lemma_distinct_keys(keys: Seq<u64>)
    ensures
        distinct_keys(keys).no_duplicates(),
        forall|x: u64| distinct_keys(keys).contains(x) <==> keys.contains(x),
    decreases keys.len(),
{
    if keys.len() > 0 {
        let n = keys.len() - 1;
        let pre = keys.take(n);
        lemma_distinct_keys(pre);
        assert(keys =~= pre.push(keys[n]));
        lemma_distinct_push(pre, keys[n]);
        let d = distinct_keys(pre);
        assert forall|x: u64| distinct_keys(keys).contains(x) <==> keys.contains(x) by {
            if keys.contains(x) {
                let j = choose|j: int| 0 <= j < keys.len() && keys[j] == x;
                if j < n {
                    assert(pre[j] == x);
                    assert(pre.contains(x));
                    assert(d.contains(x));
                    if !d.contains(keys[n]) {
                        let m = choose|m: int| 0 <= m < d.len() && d[m] == x;
                        assert(d.push(keys[n])[m] == x);
                    }
                } else {
                    if !d.contains(keys[n]) {
                        assert(d.push(keys[n])[d.len() as int] == x);
                    }
                }
            }
            if distinct_keys(keys).contains(x) {
                if d.contains(x) {
                    assert(pre.contains(x));
                    let j = choose|j: int| 0 <= j < pre.len() && pre[j] == x;
                    assert(keys[j] == x);
                } else {
                    assert(!d.contains(keys[n]));
                    let m = choose|m: int| 0 <= m < d.len() + 1 && d.push(keys[n])[m] == x;
                    if m < d.len() {
                        assert(d[m] == x);
                    }
                    assert(keys[n] == x);
                }
            }
        }
        assert(distinct_keys(keys).no_duplicates()) by {
            if !d.contains(keys[n]) {
                assert forall|a: int, b: int| 0 <= a < b < d.len() + 1 implies d.push(keys[n])[a]
                    != d.push(keys[n])[b] by {
                    if b == d.len() {
                        assert(d[a] != keys[n]);
                    }
                }
            }
        }
    }
}

/// A key that does not occur selects no slot.
proof fn lemma_with_absent_key<T>(items: Seq<Option<T>>, keys: Seq<u64>, k: u64)
    requires
        !keys.contains(k),
    ensures
        with_key(items, keys, k) == Seq::<Option<T>>::empty(),
    decreases keys.len(),
{
    if keys.len() > 0 {
        let n = keys.len() - 1;
        assert(!keys.take(n).contains(k)) by {
            if keys.take(n).contains(k) {
                let j = choose|j: int| 0 <= j < n && keys.take(n)[j] == k;
                assert(keys[j] == k);
            }
        }
        lemma_with_absent_key(items, keys.take(n), k);
    }
}

/// Adding the slot of key `x` to the groups of `ks` (which lists each key
/// once) grows their total by one if `x` is among them, and leaves it
/// otherwise.
proof fn lemma_total_push<T>(items: Seq<Option<T>>, keys: Seq<u64>, x: u64, ks: Seq<u64>)
    requires
        ks.no_duplicates(),
    ensures
        total_len(items, keys.push(x), ks) == total_len(items, keys, ks) + (if ks.contains(x) {
            1int
        } else {
            0int
        }),
    decreases ks.len(),
{
    if ks.len() > 0 {
        let pre = ks.drop_last();
        assert(pre.no_duplicates());
        lemma_total_push(items, keys, x, pre);
        lemma_with_key_push(items, keys, x, ks.last());
        if ks.last() == x {
            assert(!pre.contains(x)) by {
                if pre.contains(x) {
                    let j = choose|j: int| 0 <= j < pre.len() && pre[j] == x;
                    assert(ks[j] == ks[ks.len() - 1]);
                }
            }
        }
        assert(ks.contains(x) <==> (pre.contains(x) || ks.last() == x)) by {
            if ks.contains(x) {
                let j = choose|j: int| 0 <= j < ks.len() && ks[j] == x;
                if j < ks.len() - 1 {
                    assert(pre[j] == x);
                }
            }
            if pre.contains(x) {
                let j = choose|j: int| 0 <= j < pre.len() && pre[j] == x;
                assert(ks[j] == x);
            }
        }
    }
}

/// The groups split the items without loss: their sizes add up to the
/// number of items.
pub proof fn lemma_groups_partition<T>(items: Seq<Option<T>>, keys: Seq<u64>)
    ensures
        total_len(items, keys, distinct_keys(keys)) == keys.len(),
    decreases keys.len(),
{
    if keys.len() > 0 {
        let n = keys.len() - 1;
        let pre = keys.take(n);
        let x = keys[n];
        lemma_groups_partition(items, pre);
        lemma_distinct_keys(pre);
        assert(keys =~= pre.push(x));
        lemma_distinct_push(pre, x);
        let ds = distinct_keys(pre);
        lemma_total_push(items, pre, x, ds);
        if !ds.contains(x) {
            assert(!pre.contains(x));
            lemma_with_absent_key(items, pre, x);
            lemma_with_key_push(items, pre, x, x);
            assert(ds.push(x).drop_last() =~= ds);
        }
    }
}

/// Without a key function the whole output array is the one group; the
/// stage empties it before the transform runs, so the transform finds it
/// empty.
pub fn ungrouped<T: Copy>(out: &mut JsArray<T>)
    ensures
        final(out)@ == Seq::<Option<T>>::empty(),
{
    out.clear();
}

/// Splits `items` by key, `keys[i]` being the key of slot `i`: one group per
/// distinct key, in the order in which the keys first occur, each holding
/// the slots of its key in their order.
pub fn group_by_keys<T: Copy>(items: &JsArray<T>, keys: &Vec<u64>) -> (groups: Vec<Group<T>>)
    requires
        keys@.len() == items@.len(),
    ensures
        groups@.len() == distinct_keys(keys@).len(),
        forall|g: int|
            0 <= g < groups@.len() ==> #[trigger] groups@[g].key == distinct_keys(keys@)[g]
                && groups@[g].items@ == with_key(items@, keys@, groups@[g].key),
{
    let mut groups: Vec<Group<T>> = Vec::new();
    let mut index: HashMap<u64, usize> = HashMap::new();
    let n = keys.len();
    let mut i: usize = 0;
    while i < n
        invariant
            n == keys@.len(),
            n == items@.len(),
            i <= n,
            groups@.len() == distinct_keys(keys@.take(i as int)).len(),
            forall|g: int|
                0 <= g < groups@.len() ==> #[trigger] groups@[g].key == distinct_keys(
                    keys@.take(i as int),
                )[g] && groups@[g].items@ == with_key(
                    items@,
                    keys@.take(i as int),
                    groups@[g].key,
                ),
            forall|k: u64|
                #[trigger] index@.contains_key(k) <==> distinct_keys(keys@.take(i as int)).contains(
                    k,
                ),
            forall|k: u64|
                #[trigger] index@.contains_key(k) ==> index@[k] < groups@.len()
                    && groups@[index@[k] as int].key == k,
        decreases n - i,
    {
        let ghost pre = keys@.take(i as int);
        let k = keys[i];
        let item = items.get_index(i);
        proof {
            assert(keys@.take(i + 1) =~= pre.push(k));
            lemma_distinct_push(pre, k);
            lemma_distinct_keys(pre);
        }
        match index.get(&k) {
            Some(g) => {
                let g = *g;
                groups[g].items.push_slot(item);
                proof {
                    assert forall|h: int| 0 <= h < groups@.len() implies #[trigger] groups@[h].key
                        == distinct_keys(keys@.take(i + 1))[h] && groups@[h].items@ == with_key(
                        items@,
                        keys@.take(i + 1),
                        groups@[h].key,
                    ) by {
                        lemma_with_key_push(items@, pre, k, groups@[h].key);
                        if h != g {
                            assert(distinct_keys(pre)[h] != distinct_keys(pre)[g as int]);
                        }
                    }
                }
            },
            None => {
                let g = groups.len();
                let mut fresh = JsArray::new();
                fresh.push_slot(item);
                groups.push(Group { key: k, items: fresh });
                index.insert(k, g);
                proof {
                    assert forall|kk: u64| #[trigger] index@.contains_key(kk) <==> distinct_keys(
                        keys@.take(i + 1),
                    ).contains(kk) by {
                        if kk == k {
                            assert(distinct_keys(pre).push(k)[distinct_keys(pre).len() as int] == k);
                        }
                        if distinct_keys(pre).push(k).contains(kk) && kk != k {
                            let j = choose|j: int| 0 <= j < distinct_keys(pre).len() + 1 && distinct_keys(pre).push(k)[j] == kk;
                            assert(distinct_keys(pre)[j] == kk);
                        }
                        if distinct_keys(pre).contains(kk) {
                            let j = choose|j: int| 0 <= j < distinct_keys(pre).len() && distinct_keys(pre)[j] == kk;
                            assert(distinct_keys(pre).push(k)[j] == kk);
                        }
                    }
                    assert forall|h: int| 0 <= h < groups@.len() implies #[trigger] groups@[h].key
                        == distinct_keys(keys@.take(i + 1))[h] && groups@[h].items@ == with_key(
                        items@,
                        keys@.take(i + 1),
                        groups@[h].key,
                    ) by {
                        lemma_with_key_push(items@, pre, k, groups@[h].key);
                        if h == g {
                            lemma_with_absent_key(items@, pre, k);
                        }
                    }
                }
            },
        }
        i = i + 1;
    }
    assert(keys@.take(n as int) =~= keys@);
    groups
}

} // verus!
