//! The import mapping: every origin module with its resolved dynamic imports,
//! kept in an insertion-ordered map.
use vstd::prelude::*;
use indexmap::IndexMap;
use crate::extract::{DynamicImportsMap, OptionDynamicImportsMap, view_imports};

verus! {

broadcast use vstd::std_specs::vec::group_vec_axioms, vstd::seq::group_seq_axioms;

#[verifier::external_type_specification]
#[verifier::external_body]
#[verifier::reject_recursive_types(K)]
#[verifier::reject_recursive_types(V)]
#[verifier::reject_recursive_types(S)]
pub struct ExIndexMap<K, V, S>(IndexMap<K, V, S>);

/// The entries of an import mapping, in insertion order: each origin module
/// with its list of (specifier, resolved module).
pub uninterp spec fn mapping_entries(m: IndexMap<u64, Vec<(String, u64)>>) -> Seq<
    (u64, Seq<(Seq<char>, u64)>),
>;

/// For each origin module, the output assets (by id) made for each of its
/// lazily loaded specifiers.
pub struct DynamicImportedChunks(pub IndexMap<u64, Vec<(String, Vec<u64>)>>);

/// The position of the last entry of `s` with key `k`, or -1 when none has it.
pub open spec fn key_pos<V>(s: Seq<(u64, V)>, k: u64) -> int
    decreases s.len(),
{
    if s.len() == 0 {
        -1
    } else if s.last().0 == k {
        s.len() - 1
    } else {
        key_pos(s.drop_last(), k)
    }
}

/// Relies on IndexMap::new: a new map has no entries.
#[verifier::external_body]
fn mapping_new() -> (r: IndexMap<u64, Vec<(String, u64)>>)
    ensures
        mapping_entries(r) == Seq::<(u64, Seq<(Seq<char>, u64)>)>::empty(),
{
    IndexMap::new()
}

/// Relies on IndexMap::insert: a key already there keeps its place and gets
/// the new value, and its old value is returned; a new key goes last.
#[verifier::external_body]
fn mapping_insert(m: &mut IndexMap<u64, Vec<(String, u64)>>, key: u64, value: Vec<(String, u64)>) -> (r:
    Option<Vec<(String, u64)>>)
    ensures
        key_pos(mapping_entries(*old(m)), key) >= 0 ==> {
            let i = key_pos(mapping_entries(*old(m)), key);
            &&& r is Some
            &&& view_imports(r->0@) == mapping_entries(*old(m))[i].1
            &&& mapping_entries(*final(m)) == mapping_entries(*old(m)).update(
                i,
                (key, view_imports(value@)),
            )
        },
        key_pos(mapping_entries(*old(m)), key) < 0 ==> {
            &&& r is None
            &&& mapping_entries(*final(m)) == mapping_entries(*old(m)).push(
                (key, view_imports(value@)),
            )
        },
{
    m.insert(key, value)
}

/// `s` with the imports `l` of origin `k` added: appended to the list of `k`
/// where `k` has an entry, else as a new last entry.
pub open spec fn merge_entry(
    s: Seq<(u64, Seq<(Seq<char>, u64)>)>,
    k: u64,
    l: Seq<(Seq<char>, u64)>,
) -> Seq<(u64, Seq<(Seq<char>, u64)>)> {
    let i = key_pos(s, k);
    if i >= 0 {
        s.update(i, (k, s[i].1 + l))
    } else {
        s.push((k, l))
    }
}

/// The mapping that the per-module results `results` fold into, in order.
pub open spec fn aggregate(results: Seq<Option<(u64, Seq<(Seq<char>, u64)>)>>) -> Seq<
    (u64, Seq<(Seq<char>, u64)>),
>
    decreases results.len(),
{
    if results.len() == 0 {
        Seq::empty()
    } else {
        let before = aggregate(results.drop_last());
        match results.last() {
            Some((k, l)) => merge_entry(before, k, l),
            None => before,
        }
    }
}

/// The views of a list of per-module results.
pub open spec fn view_results(v: Seq<OptionDynamicImportsMap>) -> Seq<
    Option<(u64, Seq<(Seq<char>, u64)>)>,
> {
    v.map_values(|r: OptionDynamicImportsMap| r.view())
}

/// The position of a key is -1 or that of an entry with that key.
pub proof fn lemma_key_pos_bounds<V>(s: Seq<(u64, V)>, k: u64)
    ensures
        -1 <= key_pos(s, k) < s.len(),
        key_pos(s, k) >= 0 ==> s[key_pos(s, k)].0 == k,
        key_pos(s, k) < 0 ==> forall|i: int| 0 <= i < s.len() ==> s[i].0 != k,
    decreases s.len(),
{
    if s.len() > 0 && s.last().0 != k {
        lemma_key_pos_bounds(s.drop_last(), k);
        if key_pos(s, k) < 0 {
            assert forall|i: int| 0 <= i < s.len() implies s[i].0 != k by {
                if i < s.len() - 1 {
                    assert(s.drop_last()[i] == s[i]);
                }
            }
        }
    }
}

/// Updating the value at the position of key `k` keeps that position.
proof fn lemma_key_pos_update<V>(s: Seq<(u64, V)>, k: u64, v: V)
    requires
        0 <= key_pos(s, k),
    ensures
        key_pos(s.update(key_pos(s, k), (k, v)), k) == key_pos(s, k),
    decreases s.len(),
{
    let t = s.update(key_pos(s, k), (k, v));
    lemma_key_pos_bounds(s, k);
    if s.last().0 != k {
        lemma_key_pos_bounds(s.drop_last(), k);
        lemma_key_pos_update(s.drop_last(), k, v);
        assert(t.drop_last() =~= s.drop_last().update(key_pos(s, k), (k, v)));
    }
}

/// Folds the per-module results into one mapping. A module that comes more
/// than once keeps the place of its first result, and its lists are
/// concatenated in order; results with no imports add nothing.
pub fn collect_import_mappings(results: &Vec<OptionDynamicImportsMap>) -> (r: IndexMap<
    u64,
    Vec<(String, u64)>,
>)
    ensures
        mapping_entries(r) == aggregate(view_results(results@)),
{
    let mut map = mapping_new();
    let mut i: usize = 0;
    while i < results.len()
        invariant
            i <= results.len(),
            mapping_entries(map) == aggregate(view_results(results@.take(i as int))),
        decreases results.len() - i,
    {
        proof {
            assert(view_results(results@.take(i + 1)).drop_last() =~= view_results(
                results@.take(i as int),
            ));
        }
        match &results[i].0 {
            Some(DynamicImportsMap((origin, imports))) => {
                let ghost before = mapping_entries(map);
                proof {
                    lemma_key_pos_bounds(before, *origin);
                }
                let empty: Vec<(String, u64)> = Vec::new();
                assert(view_imports(empty@) =~= Seq::<(Seq<char>, u64)>::empty());
                let prev = mapping_insert(&mut map, *origin, empty);
                let mut list = match prev {
                    Some(p) => p,
                    None => Vec::new(),
                };
                let ghost start = view_imports(list@);
                assert(key_pos(before, *origin) >= 0 ==> start == before[key_pos(before, *origin)].1);
                assert(key_pos(before, *origin) < 0 ==> start =~= Seq::<(Seq<char>, u64)>::empty());
                let mut j: usize = 0;
                while j < imports.len()
                    invariant
                        j <= imports.len(),
                        view_imports(list@) == start + view_imports(imports@.take(j as int)),
                    decreases imports.len() - j,
                {
                    let (s, m) = &imports[j];
                    let c = s.clone();
                    let ghost prev_list = list@;
                    list.push((c, *m));
                    assert(list@ == prev_list.push((c, *m)));
                    assert(view_imports(list@) =~= view_imports(prev_list).push((c@, *m)));
                    assert(view_imports(imports@.take(j + 1)) =~= view_imports(imports@.take(j as int)).push((c@, *m)));
                    assert(imports@.take(j + 1) =~= imports@.take(j as int).push(imports@[j as int]));
                    assert(view_imports(list@) =~= start + view_imports(imports@.take(j + 1)));
                    j = j + 1;
                }
                assert(imports@.take(imports.len() as int) =~= imports@);
                proof {
                    let e = Seq::<(Seq<char>, u64)>::empty();
                    if key_pos(before, *origin) >= 0 {
                        lemma_key_pos_update(before, *origin, e);
                    } else {
                        assert(before.push((*origin, e)).drop_last() =~= before);
                    }
                }
                mapping_insert(&mut map, *origin, list);
                assert(mapping_entries(map) =~= merge_entry(before, *origin, view_imports(imports@)));
            },
            None => {},
        }
        i = i + 1;
    }
    assert(results@.take(results.len() as int) =~= results@);
    map
}

} // verus!
