//! Traversal of the module reference graph that hands out each reachable
//! module exactly once. The caller asks the module system for the references
//! of each module handed out and feeds them back.
use vstd::prelude::*;

verus! {

broadcast use vstd::std_specs::vec::group_vec_axioms, vstd::seq::group_seq_axioms;

/// `order` followed by each module of `refs` that is not already in it, in
/// the order of its first appearance.
pub open spec fn append_new(order: Seq<u64>, refs: Seq<u64>) -> Seq<u64>
    decreases refs.len(),
{
    if refs.len() == 0 {
        order
    } else {
        let before = append_new(order, refs.drop_last());
        if before.contains(refs.last()) {
            before
        } else {
            before.push(refs.last())
        }
    }
}

/// Adding references keeps the earlier order as a prefix, holds exactly the
/// earlier modules and the referenced ones, and never repeats a module.
pub proof fn lemma_append_new(order: Seq<u64>, refs: Seq<u64>)
    requires
        order.no_duplicates(),
    ensures
        append_new(order, refs).no_duplicates(),
        order.len() <= append_new(order, refs).len(),
        append_new(order, refs).subrange(0, order.len() as int) == order,
        forall|m: u64|
            append_new(order, refs).contains(m) <==> (order.contains(m) || refs.contains(m)),
    decreases refs.len(),
{
    if refs.len() > 0 {
        lemma_append_new(order, refs.drop_last());
        let before = append_new(order, refs.drop_last());
        let after = append_new(order, refs);
        assert forall|m: u64| after.contains(m) <==> (order.contains(m) || refs.contains(m)) by {
            if refs.drop_last().contains(m) {
                let k = choose|k: int| 0 <= k < refs.drop_last().len() && refs.drop_last()[k] == m;
                assert(refs[k] == m);
            }
            if refs.contains(m) && !refs.drop_last().contains(m) {
                let k = choose|k: int| 0 <= k < refs.len() && refs[k] == m;
                if k < refs.len() - 1 {
                    assert(refs.drop_last()[k] == m);
                }
                assert(m == refs.last());
                if !before.contains(m) {
                    assert(after[after.len() - 1] == m);
                }
            }
            if after.contains(m) && !before.contains(m) {
                let k = choose|k: int| 0 <= k < after.len() && after[k] == m;
                if k < before.len() {
                    assert(before[k] == m);
                }
                assert(refs[refs.len() - 1] == m);
            }
            if before.contains(m) && !before.contains(refs.last()) {
                let k = choose|k: int| 0 <= k < before.len() && before[k] == m;
                assert(after[k] == m);
            }
        }
        if !before.contains(refs.last()) {
            assert(after.subrange(0, order.len() as int) =~= before.subrange(
                0,
                order.len() as int,
            ));
        }
    }
}

/// The traversal: every module found so far, in the order found, and how
/// many of them were handed out. Those not yet handed out form the frontier.
pub struct ModuleTraversal {
    visited: Vec<u64>,
    next: usize,
}

impl ModuleTraversal {
    /// Every module found so far, in the order found.
    pub closed spec fn order(&self) -> Seq<u64> {
        self.visited@
    }

    /// How many modules were handed out.
    pub closed spec fn cursor(&self) -> nat {
        self.next as nat
    }

    pub closed spec fn wf(&self) -> bool {
        &&& self.visited@.no_duplicates()
        &&& self.next <= self.visited.len()
    }

    /// A traversal from `entry`, which it hands out first.
    pub fn new(entry: u64) -> (r: Self)
        ensures
            r.wf(),
            r.order() == seq![entry],
            r.cursor() == 0,
    {
        let r = ModuleTraversal { visited: vec![entry], next: 0 };
        assert(r.visited@ =~= seq![entry]);
        r
    }

    /// Hands out the next module found and not yet handed out, if any.
    pub fn next_module(&mut self) -> (r: Option<u64>)
        requires
            old(self).wf(),
        ensures
            final(self).wf(),
            final(self).order() == old(self).order(),
            old(self).cursor() < old(self).order().len() ==> r == Some(
                old(self).order()[old(self).cursor() as int],
            ) && final(self).cursor() == old(self).cursor() + 1,
            old(self).cursor() == old(self).order().len() ==> r is None && final(self).cursor()
                == old(self).cursor(),
    {
        if self.next < self.visited.len() {
            let m = self.visited[self.next];
            self.next = self.next + 1;
            Some(m)
        } else {
            None
        }
    }

    /// Records the modules that a handed-out module references; those not
    /// found before join the frontier, each once.
    pub fn add_referenced(&mut self, refs: &Vec<u64>)
        requires
            old(self).wf(),
        ensures
            final(self).wf(),
            final(self).order() == append_new(old(self).order(), refs@),
            final(self).cursor() == old(self).cursor(),
    {
        let mut i: usize = 0;
        while i < refs.len()
            invariant
                i <= refs.len(),
                self.next == old(self).next,
                self.wf(),
                self.visited@ == append_new(old(self).visited@, refs@.take(i as int)),
            decreases refs.len() - i,
        {
            proof {
                assert(refs@.take(i + 1).drop_last() =~= refs@.take(i as int));
            }
            let m = refs[i];
            if !contains(&self.visited, m) {
                self.visited.push(m);
            }
            i = i + 1;
        }
        assert(refs@.take(refs.len() as int) =~= refs@);
    }

    /// Whether every module found was handed out.
    pub fn is_done(&self) -> (r: bool)
        requires
            self.wf(),
        ensures
            r == (self.cursor() == self.order().len()),
    {
        self.next == self.visited.len()
    }

    /// Every module found so far, in the order found.
    pub fn modules(&self) -> (r: Vec<u64>)
        ensures
            r@ == self.order(),
    {
        self.visited.clone()
    }
}

/// The traversal never holds a module twice, so each module of the graph,
/// however many paths reach it, is handed out at most once.
pub proof fn lemma_visits_once(t: ModuleTraversal)
    requires
        t.wf(),
    ensures
        t.order().no_duplicates(),
        t.cursor() <= t.order().len(),
{
}

/// Whether `v` holds `m`.
fn contains(v: &Vec<u64>, m: u64) -> (r: bool)
    ensures
        r == v@.contains(m),
{
    let mut i: usize = 0;
    while i < v.len()
        invariant
            i <= v.len(),
            forall|k: int| 0 <= k < i ==> v@[k] != m,
        decreases v.len() - i,
    {
        if v[i] == m {
            return true;
        }
        i = i + 1;
    }
    false
}

} // verus!
