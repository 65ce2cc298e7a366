//! What a list of cache lookups comes to: the items found, in the order of the ids looked up,
//! and the answer of a single lookup that must find its item.

use vstd::prelude::*;
use crate::cache::CacheRead;
use crate::errors::QueryError;

verus! {

/// The items that the lookups found, in order.
pub open spec fn somes<T>(lookups: Seq<Option<T>>) -> Seq<T>
    decreases lookups.len(),
{
    if lookups.len() == 0 {
        Seq::<T>::empty()
    } else {
        let rest = somes(lookups.drop_last());
        match lookups.last() {
            Some(x) => rest.push(x),
            None => rest,
        }
    }
}

/// The answers of a list of reads of the cache, in order.
pub open spec fn answers<K, T>(reads: Seq<CacheRead<K, T>>) -> Seq<T> {
    reads.map_values(|r: CacheRead<K, T>| r.answer())
}

/// Whether the reads are those of the ids, one read per id in turn.
pub open spec fn reads_of_ids<T>(ids: Seq<u64>, reads: Seq<CacheRead<u64, T>>) -> bool {
    &&& reads.len() == ids.len()
    &&& forall|k: int| 0 <= k < reads.len() ==> (#[trigger] reads[k]).key() == ids[k]
}

/// Whether `lookups` holds, for each id in turn, what looking it up gave: an item found has
/// the id, as `key` reads it.
pub open spec fn lookups_match<T>(ids: Seq<u64>, lookups: Seq<Option<T>>, key: spec_fn(T) -> u64) -> bool {
    &&& lookups.len() == ids.len()
    &&& forall|i: int| 0 <= i < lookups.len() ==> (#[trigger] lookups[i] matches Some(x) ==> key(x) == ids[i])
}

/// The answer of a lookup that must find its item: the item, or `err` when nothing was found.
pub open spec fn found_or_error<T>(found: Option<T>, err: QueryError) -> Result<T, QueryError> {
    match found {
        Some(x) => Ok(x),
        None => Err(err),
    }
}

/// Every item found was found by one of the lookups; when the ids looked up are distinct, so
/// are the ids of the items found.
pub proof fn lemma_somes_from_lookups<T>(ids: Seq<u64>, lookups: Seq<Option<T>>, key: spec_fn(T) -> u64)
    requires
        lookups_match(ids, lookups, key),
    ensures
        forall|i: int| 0 <= i < somes(lookups).len() ==> lookups.contains(Some(#[trigger] somes(lookups)[i])),
        forall|i: int| 0 <= i < somes(lookups).len() ==> ids.contains(key(#[trigger] somes(lookups)[i])),
        ids.no_duplicates() ==> forall|i: int, j: int| 0 <= i < j < somes(lookups).len()
            ==> key(#[trigger] somes(lookups)[i]) != key(#[trigger] somes(lookups)[j]),
    decreases lookups.len(),
{
    if lookups.len() > 0 {
        let init = lookups.drop_last();
        let ids_init = ids.drop_last();
        assert(lookups_match(ids_init, init, key)) by {
            assert forall|i: int| 0 <= i < init.len() implies (#[trigger] init[i] matches Some(x) ==> key(x) == ids_init[i]) by {
                assert(init[i] == lookups[i]);
            }
        }
        lemma_somes_from_lookups(ids_init, init, key);
        let rest = somes(init);
        let s = somes(lookups);
        assert forall|i: int| 0 <= i < rest.len() implies lookups.contains(Some(#[trigger] rest[i])) && ids.contains(key(rest[i])) by {
            assert(init.contains(Some(rest[i])));
            let k = choose|k: int| 0 <= k < init.len() && init[k] == Some(rest[i]);
            assert(lookups[k] == Some(rest[i]));
            assert(ids_init.contains(key(rest[i])));
            let m = choose|m: int| 0 <= m < ids_init.len() && ids_init[m] == key(rest[i]);
            assert(ids[m] == key(rest[i]));
        }
        match lookups.last() {
            Some(x) => {
                assert(s == rest.push(x));
                assert(lookups[lookups.len() - 1] == Some(x));
                assert(key(x) == ids[ids.len() - 1]);
                assert forall|i: int| 0 <= i < s.len() implies lookups.contains(Some(#[trigger] s[i])) && ids.contains(key(s[i])) by {
                    if i < rest.len() {
                        assert(s[i] == rest[i]);
                    } else {
                        assert(s[i] == x);
                    }
                }
                if ids.no_duplicates() {
                    assert(ids_init.no_duplicates()) by {
                        assert forall|a: int, b: int| 0 <= a < ids_init.len() && 0 <= b < ids_init.len() && a != b
                            implies ids_init[a] != ids_init[b] by {
                            assert(ids_init[a] == ids[a]);
                            assert(ids_init[b] == ids[b]);
                        }
                    }
                    assert forall|i: int, j: int| 0 <= i < j < s.len() implies key(#[trigger] s[i]) != key(#[trigger] s[j]) by {
                        assert(s[i] == rest[i]);
                        if j < rest.len() {
                            assert(s[j] == rest[j]);
                        } else {
                            assert(s[j] == x);
                            assert(ids_init.contains(key(rest[i])));
                            let m = choose|m: int| 0 <= m < ids_init.len() && ids_init[m] == key(rest[i]);
                            assert(ids[m] == key(rest[i]));
                        }
                    }
                }
            },
            None => {
                assert(s == rest);
                if ids.no_duplicates() {
                    assert(ids_init.no_duplicates()) by {
                        assert forall|a: int, b: int| 0 <= a < ids_init.len() && 0 <= b < ids_init.len() && a != b
                            implies ids_init[a] != ids_init[b] by {
                            assert(ids_init[a] == ids[a]);
                            assert(ids_init[b] == ids[b]);
                        }
                    }
                }
            },
        }
    }
}

/// Nothing that a lookup found is left out: every item found is among the items kept.
pub proof fn law_found_items_are_kept<T>(lookups: Seq<Option<T>>)
    ensures
        forall|k: int| 0 <= k < lookups.len() && (#[trigger] lookups[k]) is Some ==> somes(lookups).contains(lookups[k]->0),
    decreases lookups.len(),
{
    if lookups.len() > 0 {
        let init = lookups.drop_last();
        law_found_items_are_kept(init);
        let rest = somes(init);
        assert forall|k: int| 0 <= k < lookups.len() && (#[trigger] lookups[k]) is Some implies somes(lookups).contains(lookups[k]->0) by {
            if k < lookups.len() - 1 {
                assert(init[k] == lookups[k]);
                assert(rest.contains(init[k]->0));
                let m = choose|m: int| 0 <= m < rest.len() && rest[m] == init[k]->0;
                match lookups.last() {
                    Some(x) => assert(somes(lookups)[m] == rest[m]),
                    None => {},
                }
            } else {
                assert(lookups.last() == lookups[k]);
                assert(somes(lookups) == rest.push(lookups[k]->0));
                assert(somes(lookups)[rest.len() as int] == lookups[k]->0);
            }
        }
    }
}

/// The items that the lookups found, in the order of the lookups.
pub fn found_items<T>(lookups: Vec<Option<T>>) -> (r: Vec<T>)
    ensures
        r@ == somes(lookups@),
{
    let ghost all = lookups@;
    let n = lookups.len();
    assert(all.len() == n);
    let mut rest = lookups;
    let mut r: Vec<T> = Vec::new();
    let mut taken: usize = 0;
    while rest.len() > 0
        invariant
            taken + rest@.len() == all.len(),
            all.len() <= usize::MAX,
            rest@ == all.subrange(taken as int, all.len() as int),
            r@ == somes(all.take(taken as int)),
        decreases rest.len(),
    {
        let item = rest.remove(0);
        assert(all.take(taken + 1).drop_last() =~= all.take(taken as int));
        assert(all.take(taken + 1).last() == item);
        match item {
            Some(x) => r.push(x),
            None => {},
        }
        taken = taken + 1;
    }
    assert(all.take(taken as int) =~= all);
    r
}

/// The answer of a lookup that must find its item: the item, or `err` when nothing was found.
pub fn require_found<T>(found: Option<T>, err: QueryError) -> (r: Result<T, QueryError>)
    ensures
        r == found_or_error(found, err),
{
    match found {
        Some(x) => Ok(x),
        None => Err(err),
    }
}

} // verus!
