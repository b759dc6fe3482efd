//! Properties that relate the matcher, extraction and aggregation.
use vstd::prelude::*;
use crate::ast::{
    Callee, Expr, Item, Program, calls_binding, import_sources, sources_in, sources_in_items,
    sources_in_list, wrapped_source, wrapper_binding,
};
use crate::extract::{kept_imports, module_imports};
use crate::mapping::{aggregate, key_pos, lemma_key_pos_bounds, merge_entry};

verus! {

broadcast use vstd::std_specs::vec::group_vec_axioms, vstd::seq::group_seq_axioms;

/// The raw specifiers of a list of resolutions.
pub open spec fn resolution_sources(resolutions: Seq<(String, Option<u64>)>) -> Seq<Seq<char>> {
    resolutions.map_values(|p: (String, Option<u64>)| p.0@)
}

/// A module that does not import the wrapper has no dynamic imports, whatever
/// its specifiers would resolve to.
pub proof fn lemma_no_wrapper_no_imports(
    p: Program,
    module: u64,
    resolutions: Seq<(String, Option<u64>)>,
)
    requires
        wrapper_binding(p.items@) is None,
        resolution_sources(resolutions) == import_sources(p),
    ensures
        import_sources(p) == Seq::<Seq<char>>::empty(),
        module_imports(module, resolutions) is None,
{
    assert(resolutions.len() == resolution_sources(resolutions).len());
    assert(resolutions =~= Seq::<(String, Option<u64>)>::empty());
}

/// The specifiers found in a statement are among those found in the items.
proof fn lemma_items_contain(items: Seq<Item>, k: int, e: Expr, name: Seq<char>, a: Seq<char>)
    requires
        0 <= k < items.len(),
        items[k] == Item::Stmt(e),
        sources_in(e, name).contains(a),
    ensures
        sources_in_items(items, name).contains(a),
    decreases items.len(),
{
    let before = sources_in_items(items.drop_last(), name);
    let all = sources_in_items(items, name);
    if k == items.len() - 1 {
        let j = choose|j: int| 0 <= j < sources_in(e, name).len() && sources_in(e, name)[j] == a;
        assert(all[before.len() + j] == a);
    } else {
        assert(items.drop_last()[k] == items[k]);
        lemma_items_contain(items.drop_last(), k, e, name, a);
        let j = choose|j: int| 0 <= j < before.len() && before[j] == a;
        assert(all[j] == a);
    }
}

/// A resolved specifier is kept with the module it resolved to.
proof fn lemma_kept_contains(resolutions: Seq<(String, Option<u64>)>, i: int, t: u64)
    requires
        0 <= i < resolutions.len(),
        resolutions[i].1 == Some(t),
    ensures
        kept_imports(resolutions).contains((resolutions[i].0@, t)),
    decreases resolutions.len(),
{
    let rest = kept_imports(resolutions.drop_last());
    if i == resolutions.len() - 1 {
        assert(kept_imports(resolutions)[rest.len() as int] == (resolutions[i].0@, t));
    } else {
        assert(resolutions.drop_last()[i] == resolutions[i]);
        lemma_kept_contains(resolutions.drop_last(), i, t);
        let j = choose|j: int| 0 <= j < rest.len() && rest[j] == (resolutions[i].0@, t);
        assert(kept_imports(resolutions)[j] == rest[j]);
    }
}

/// The wrapper is matched by its local binding, whatever it is named: a
/// statement that calls the binding `x` around a dynamic load of the literal
/// `a` gives the entry (`a`, what `a` resolved to).
pub proof fn lemma_binding_honored(
    p: Program,
    x: Seq<char>,
    k: int,
    e: Expr,
    a: Seq<char>,
    module: u64,
    resolutions: Seq<(String, Option<u64>)>,
    t: u64,
)
    requires
        wrapper_binding(p.items@) == Some(x),
        0 <= k < p.items.len(),
        p.items@[k] == Item::Stmt(e),
        e matches Expr::Call(callee, args) && calls_binding(callee, x) && wrapped_source(args@)
            == Some(a),
        resolution_sources(resolutions) == import_sources(p),
        forall|i: int| 0 <= i < resolutions.len() && resolutions[i].0@ == a ==> resolutions[i].1 == Some(t),
    ensures
        import_sources(p).contains(a),
        module_imports(module, resolutions) matches Some((m, l)) && m == module && l.contains((a, t)),
{
    assert(sources_in(e, x)[0] == a);
    lemma_items_contain(p.items@, k, e, x, a);
    let i = choose|i: int| 0 <= i < import_sources(p).len() && import_sources(p)[i] == a;
    assert(resolution_sources(resolutions)[i] == resolutions[i].0@);
    lemma_kept_contains(resolutions, i, t);
    assert(kept_imports(resolutions).len() > 0);
}

/// Sibling nodes contribute their specifiers one after the other.
pub proof fn lemma_sources_concat(a: Seq<Expr>, b: Seq<Expr>, name: Seq<char>)
    ensures
        sources_in_list(a + b, name) == sources_in_list(a, name) + sources_in_list(b, name),
    decreases b.len(),
{
    if b.len() == 0 {
        assert(a + b =~= a);
    } else {
        lemma_sources_concat(a, b.drop_last(), name);
        assert((a + b).drop_last() =~= a + b.drop_last());
    }
}

/// A wrapper call whose dynamic load has no literal argument gives no entry
/// of its own; the calls around it in the same list are still matched, and
/// only the calls nested in its arguments add to them.
pub proof fn lemma_non_literal_skipped(es: Seq<Expr>, i: int, name: Seq<char>)
    requires
        0 <= i < es.len(),
        es[i] matches Expr::Call(callee, args) && calls_binding(callee, name) && wrapped_source(
            args@,
        ) is None,
    ensures
        es[i] matches Expr::Call(_, args) && sources_in_list(es, name) == sources_in_list(
            es.take(i),
            name,
        ) + sources_in_list(args@, name) + sources_in_list(es.skip(i + 1), name),
{
    let e = es[i];
    let args = e->Call_1;
    let b = e->Call_0->Expr_0;
    assert(sources_in(*b, name) =~= Seq::<Seq<char>>::empty());
    assert(sources_in(e, name) =~= sources_in_list(args@, name));
    assert(es =~= es.take(i) + seq![e] + es.skip(i + 1));
    lemma_sources_concat(es.take(i) + seq![e], es.skip(i + 1), name);
    lemma_sources_concat(es.take(i), seq![e], name);
    assert(seq![e].drop_last() =~= Seq::<Expr>::empty());
    assert(seq![e].last() == e);
    assert(sources_in_list(Seq::<Expr>::empty(), name) == Seq::<Seq<char>>::empty());
    assert(sources_in_list(seq![e], name) =~= sources_in(e, name));
}

/// The per-module results that carry imports, in order.
pub open spec fn present(results: Seq<Option<(u64, Seq<(Seq<char>, u64)>)>>) -> Seq<
    (u64, Seq<(Seq<char>, u64)>),
>
    decreases results.len(),
{
    if results.len() == 0 {
        Seq::empty()
    } else {
        match results.last() {
            Some(x) => present(results.drop_last()).push(x),
            None => present(results.drop_last()),
        }
    }
}

/// No two entries of `s` have the same key.
pub open spec fn keys_unique<V>(s: Seq<(u64, V)>) -> bool {
    forall|i: int, j: int| 0 <= i < j < s.len() ==> s[i].0 != s[j].0
}

/// In a sequence with unique keys, the position of a key is that of its entry.
proof fn lemma_key_pos_unique<V>(s: Seq<(u64, V)>, j: int)
    requires
        keys_unique(s),
        0 <= j < s.len(),
    ensures
        key_pos(s, s[j].0) == j,
{
    lemma_key_pos_bounds(s, s[j].0);
}

/// An origin module appears at most once as a key of the mapping, however
/// many results name it.
pub proof fn lemma_keys_unique(results: Seq<Option<(u64, Seq<(Seq<char>, u64)>)>>)
    ensures
        keys_unique(aggregate(results)),
    decreases results.len(),
{
    if results.len() > 0 {
        lemma_keys_unique(results.drop_last());
        let before = aggregate(results.drop_last());
        if let Some((k, l)) = results.last() {
            lemma_key_pos_bounds(before, k);
            let after = merge_entry(before, k, l);
            assert forall|i: int, j: int| 0 <= i < j < after.len() implies after[i].0
                != after[j].0 by {
                if key_pos(before, k) < 0 && j == before.len() {
                    assert(after[i] == before[i]);
                }
            }
        }
    }
}

/// Results of distinct modules are kept as they come: none is merged into
/// another, so each module is a key once, with its own list.
pub proof fn lemma_distinct_kept(results: Seq<Option<(u64, Seq<(Seq<char>, u64)>)>>)
    requires
        keys_unique(present(results)),
    ensures
        aggregate(results) == present(results),
    decreases results.len(),
{
    if results.len() > 0 {
        let rest = present(results.drop_last());
        assert(keys_unique(rest)) by {
            if let Some(x) = results.last() {
                assert forall|i: int, j: int| 0 <= i < j < rest.len() implies rest[i].0
                    != rest[j].0 by {
                    assert(present(results)[i] == rest[i]);
                    assert(present(results)[j] == rest[j]);
                }
            }
        }
        lemma_distinct_kept(results.drop_last());
        if let Some((k, l)) = results.last() {
            lemma_key_pos_bounds(rest, k);
            if key_pos(rest, k) >= 0 {
                assert(present(results)[key_pos(rest, k)] == rest[key_pos(rest, k)]);
                assert(present(results)[rest.len() as int].0 == k);
            }
        }
    }
}

/// The content of the mapping does not depend on the order in which the
/// results of distinct modules arrive: the same results, in any order, give
/// the same keys, each with the same list.
pub proof fn lemma_order_independent(
    r1: Seq<Option<(u64, Seq<(Seq<char>, u64)>)>>,
    r2: Seq<Option<(u64, Seq<(Seq<char>, u64)>)>>,
)
    requires
        keys_unique(present(r1)),
        keys_unique(present(r2)),
        present(r1).to_set() == present(r2).to_set(),
    ensures
        forall|k: u64|
            #![trigger key_pos(aggregate(r1), k)]
            #![trigger key_pos(aggregate(r2), k)]
            (key_pos(aggregate(r1), k) >= 0 <==> key_pos(aggregate(r2), k) >= 0) && (key_pos(
                aggregate(r1),
                k,
            ) >= 0 ==> aggregate(r1)[key_pos(aggregate(r1), k)].1 == aggregate(r2)[key_pos(
                aggregate(r2),
                k,
            )].1),
{
    lemma_distinct_kept(r1);
    lemma_distinct_kept(r2);
    let s1 = present(r1);
    let s2 = present(r2);
    assert forall|k: u64|
        (key_pos(s1, k) >= 0 <==> key_pos(s2, k) >= 0) && (key_pos(s1, k) >= 0 ==> s1[key_pos(
            s1,
            k,
        )].1 == s2[key_pos(s2, k)].1) by {
        lemma_key_pos_bounds(s1, k);
        lemma_key_pos_bounds(s2, k);
        if key_pos(s1, k) >= 0 {
            let x = s1[key_pos(s1, k)];
            assert(s1.contains(x));
            assert(s1.to_set().contains(x));
            assert(s2.contains(x));
            let j = choose|j: int| 0 <= j < s2.len() && s2[j] == x;
            lemma_key_pos_unique(s2, j);
        }
        if key_pos(s2, k) >= 0 {
            let y = s2[key_pos(s2, k)];
            assert(s2.contains(y));
            assert(s2.to_set().contains(y));
            assert(s1.contains(y));
            let j = choose|j: int| 0 <= j < s1.len() && s1[j] == y;
            lemma_key_pos_unique(s1, j);
        }
    }
}

} // verus!
