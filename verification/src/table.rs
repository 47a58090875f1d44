//! Tables of records: a stable map of byte strings read as a map from
//! identifiers to the models of the records it stores.

use crate::record::{fits, Record, MAX_RECORD_BYTES};
use crate::stable::{table_entries, table_get, table_insert, table_scan, RawTable};
use vstd::prelude::*;

verus! {

/// Every entry of `t` is the byte form of a record of kind `R` and is short
/// enough to be written again.
pub open spec fn sound<R: Record>(t: RawTable) -> bool {
    forall|k: u64| #[trigger]
        table_entries(t).contains_key(k) ==> R::parse(table_entries(t)[k]) is Some && fits::<R>(
            R::parse(table_entries(t)[k])->0,
        )
}

/// The records of kind `R` that `t` stores, by identifier.
pub open spec fn rows<R: Record>(t: RawTable) -> Map<u64, R::V> {
    Map::new(
        |k: u64| table_entries(t).contains_key(k),
        |k: u64| R::parse(table_entries(t)[k])->0,
    )
}

/// The values that `m` holds under keys below `n`, in ascending order of
/// the keys.
pub open spec fn values_below<V>(m: Map<u64, V>, n: nat) -> Seq<V>
    decreases n,
{
    if n == 0 {
        Seq::empty()
    } else {
        let k = (n - 1) as nat;
        if k <= u64::MAX && m.contains_key(k as u64) {
            values_below(m, k).push(m[k as u64])
        } else {
            values_below(m, k)
        }
    }
}

/// All the values of `m`, in ascending order of their keys.
pub open spec fn ordered_values<V>(m: Map<u64, V>) -> Seq<V> {
    values_below(m, 0x1_0000_0000_0000_0000)
}

/// Whether `m` holds nothing.
pub open spec fn no_keys<V>(m: Map<u64, V>) -> bool {
    forall|k: u64| !m.contains_key(k)
}

/// One value is listed for each key.
proof fn values_below_count<V>(m: Map<u64, V>, n: nat)
    ensures
        values_below(m, n).len() <= n,
        values_below(m, n).len() == 0 <==> forall|k: u64| k < n ==> !m.contains_key(k),
    decreases n,
{
    if n > 0 {
        values_below_count(m, (n - 1) as nat);
    }
}

/// The ordered values are empty exactly where the map is.
pub proof fn ordered_values_empty<V>(m: Map<u64, V>)
    ensures
        ordered_values(m).len() == 0 <==> no_keys(m),
{
    values_below_count(m, 0x1_0000_0000_0000_0000);
}

/// `keys` are the keys of `m` in ascending order and `vals` their values.
pub open spec fn lists<V>(m: Map<u64, V>, keys: Seq<u64>, vals: Seq<V>) -> bool {
    &&& keys.len() == vals.len()
    &&& forall|i: int, j: int| 0 <= i < j < keys.len() ==> keys[i] < keys[j]
    &&& forall|i: int|
        0 <= i < keys.len() ==> m.contains_key(#[trigger] keys[i]) && m[keys[i]] == vals[i]
    &&& forall|k: u64|
        m.contains_key(k) ==> exists|i: int| 0 <= i < keys.len() && #[trigger] keys[i] == k
}

/// The values under keys below `n` are a prefix of any ascending listing.
proof fn listing_prefix<V>(m: Map<u64, V>, keys: Seq<u64>, vals: Seq<V>, n: nat) -> (p: int)
    requires
        lists(m, keys, vals),
    ensures
        0 <= p <= keys.len(),
        forall|i: int| 0 <= i < p ==> keys[i] < n,
        forall|i: int| p <= i < keys.len() ==> keys[i] >= n,
        values_below(m, n) == vals.subrange(0, p),
    decreases n,
{
    if n == 0 {
        0
    } else {
        let k = (n - 1) as nat;
        let q = listing_prefix(m, keys, vals, k);
        if k <= u64::MAX && m.contains_key(k as u64) {
            let i = choose|i: int| 0 <= i < keys.len() && #[trigger] keys[i] == k as u64;
            assert(i == q) by {
                if i > q {
                    assert(keys[q] >= k);
                }
            }
            q + 1
        } else {
            q
        }
    }
}

/// An ascending listing of `m` is its ordered values.
pub proof fn listing_is_ordered_values<V>(m: Map<u64, V>, keys: Seq<u64>, vals: Seq<V>)
    requires
        lists(m, keys, vals),
    ensures
        vals == ordered_values(m),
{
    let p = listing_prefix(m, keys, vals, 0x1_0000_0000_0000_0000);
    if p < keys.len() {
        assert(keys[p] >= 0x1_0000_0000_0000_0000);
    }
}

/// Whether `rec` is short enough to be stored.
pub fn storable<R: Record>(rec: &R) -> (r: bool)
    ensures
        r == fits::<R>(rec@),
{
    rec.to_bytes().len() <= MAX_RECORD_BYTES
}

/// The record stored under `id`, if there is one.
pub fn fetch<R: Record>(t: &RawTable, id: u64) -> (r: Option<R>)
    requires
        sound::<R>(*t),
    ensures
        match r {
            Some(x) => rows::<R>(*t).contains_key(id) && rows::<R>(*t)[id] == x@,
            None => !rows::<R>(*t).contains_key(id),
        },
{
    match table_get(t, id) {
        None => None,
        Some(bytes) => R::from_bytes(&bytes),
    }
}

/// Stores `rec` under `id`, in place of what was stored there.
pub fn store<R: Record>(t: &mut RawTable, id: u64, rec: &R)
    requires
        sound::<R>(*old(t)),
        fits::<R>(rec@),
    ensures
        sound::<R>(*final(t)),
        rows::<R>(*final(t)) == rows::<R>(*old(t)).insert(id, rec@),
{
    let bytes = rec.to_bytes();
    proof {
        R::wire_reads_back(rec@);
    }
    table_insert(t, id, bytes);
}

/// All the records stored, in ascending order of their identifiers.
pub fn scan<R: Record>(t: &RawTable) -> (r: Vec<R>)
    requires
        sound::<R>(*t),
    ensures
        r@.map_values(|x: R| x@) == ordered_values(rows::<R>(*t)),
{
    let raw = table_scan(t);
    let mut out: Vec<R> = Vec::new();
    let mut i: usize = 0;
    while i < raw.len()
        invariant
            sound::<R>(*t),
            i <= raw.len(),
            out@.len() == i,
            forall|j: int|
                0 <= j < raw@.len() ==> table_entries(*t).contains_key(#[trigger] raw@[j].0)
                    && table_entries(*t)[raw@[j].0] == raw@[j].1@,
            forall|j: int| 0 <= j < i ==> (#[trigger] out@[j])@ == rows::<R>(*t)[raw@[j].0],
        decreases raw.len() - i,
    {
        assert(table_entries(*t).contains_key(raw@[i as int].0));
        let rec = R::from_bytes(&raw[i].1).unwrap();
        out.push(rec);
        i += 1;
    }
    proof {
        let keys = raw@.map_values(|e: (u64, Vec<u8>)| e.0);
        let vals = out@.map_values(|x: R| x@);
        assert forall|k: u64| rows::<R>(*t).contains_key(k) implies exists|j: int|
            0 <= j < keys.len() && #[trigger] keys[j] == k by {
            let j = choose|j: int| 0 <= j < raw@.len() && #[trigger] raw@[j].0 == k;
            assert(keys[j] == k);
        }
        listing_is_ordered_values(rows::<R>(*t), keys, vals);
    }
    out
}

/// The identifiers of the entries `v`, in their order.
pub open spec fn keys_of<R: Record>(v: Seq<(u64, R)>) -> Seq<u64> {
    v.map_values(|e: (u64, R)| e.0)
}

/// The models of the records of the entries `v`, in their order.
pub open spec fn models_of<R: Record>(v: Seq<(u64, R)>) -> Seq<R::V> {
    v.map_values(|e: (u64, R)| e.1@)
}

/// Reads a table that may hold anything: all its records with their
/// identifiers, in ascending order of the identifiers, or `None` where some
/// entry is not a record of kind `R` that is short enough to be stored.
pub fn read_all<R: Record>(t: &RawTable) -> (r: Option<Vec<(u64, R)>>)
    ensures
        match r {
            Some(v) => sound::<R>(*t) && lists(rows::<R>(*t), keys_of(v@), models_of(v@)),
            None => !sound::<R>(*t),
        },
{
    let raw = table_scan(t);
    let mut out: Vec<(u64, R)> = Vec::new();
    let mut i: usize = 0;
    while i < raw.len()
        invariant
            i <= raw.len(),
            out@.len() == i,
            forall|j: int|
                0 <= j < raw@.len() ==> table_entries(*t).contains_key(#[trigger] raw@[j].0)
                    && table_entries(*t)[raw@[j].0] == raw@[j].1@,
            forall|j: int|
                0 <= j < i ==> (#[trigger] out@[j]).0 == raw@[j].0 && R::parse(raw@[j].1@) == Some(
                    out@[j].1@,
                ) && fits::<R>(out@[j].1@),
        decreases raw.len() - i,
    {
        assert(table_entries(*t).contains_key(raw@[i as int].0));
        match R::from_bytes(&raw[i].1) {
            None => {
                return None;
            },
            Some(rec) => {
                if !storable(&rec) {
                    return None;
                }
                out.push((raw[i].0, rec));
            },
        }
        i += 1;
    }
    proof {
        let keys = keys_of(out@);
        assert forall|k: u64| #[trigger] table_entries(*t).contains_key(k) implies R::parse(
            table_entries(*t)[k],
        ) is Some && fits::<R>(R::parse(table_entries(*t)[k])->0) by {
            let j = choose|j: int| 0 <= j < raw@.len() && #[trigger] raw@[j].0 == k;
            assert(out@[j].0 == k);
        }
        assert forall|k: u64| rows::<R>(*t).contains_key(k) implies exists|j: int|
            0 <= j < keys.len() && #[trigger] keys[j] == k by {
            let j = choose|j: int| 0 <= j < raw@.len() && #[trigger] raw@[j].0 == k;
            assert(keys[j] == k);
        }
    }
    Some(out)
}

} // verus!
