//! The two-stage matcher: it tracks the wrapper's local binding, then collects
//! the literal specifier of the dynamic load inside each call of it.
use vstd::prelude::*;
use crate::ast::{
    Callee, Expr, ImportDecl, ImportSpecifier, Item, LoadSearch, Program, binding_of,
    calls_binding, import_sources, load_in, load_in_list, sources_in, sources_in_items,
    sources_in_list, view_strings, wrapped_source, wrapper_binding, wrapper_source,
};

verus! {

broadcast use vstd::std_specs::vec::group_vec_axioms, vstd::seq::group_seq_axioms;

/// Searches the children of one wrapper call for the first dynamic-load
/// expression and keeps its literal argument.
pub struct CollectImportSourceVisitor {
    pub import_source: Option<String>,
    pub found: bool,
}

impl CollectImportSourceVisitor {
    /// What the search has found so far.
    pub open spec fn search(&self) -> LoadSearch {
        if self.found {
            LoadSearch::Found(
                match self.import_source {
                    Some(s) => Some(s@),
                    None => None,
                },
            )
        } else {
            LoadSearch::NotFound
        }
    }

    pub fn new() -> (r: Self)
        ensures
            r.search() == LoadSearch::NotFound,
            r.import_source is None,
    {
        CollectImportSourceVisitor { import_source: None, found: false }
    }

    /// Goes on with the search into `e`, unless a dynamic load was found before.
    pub fn visit_expr(&mut self, e: &Expr)
        ensures
            final(self).search() == match old(self).search() {
                LoadSearch::NotFound => load_in(*e),
                found => found,
            },
            old(self).found ==> *final(self) == *old(self),
        decreases e,
    {
        if self.found {
            return;
        }
        match e {
            Expr::Call(Callee::Import, args) => {
                self.found = true;
                if args.len() > 0 {
                    match &args[0] {
                        Expr::Str(s) => {
                            self.import_source = Some(s.clone());
                        },
                        _ => {
                            self.import_source = None;
                        },
                    }
                } else {
                    self.import_source = None;
                }
            },
            Expr::Node(children) => {
                self.visit_exprs(children);
            },
            _ => {},
        }
    }

    /// Goes on with the search into the nodes of `es`, in order.
    pub fn visit_exprs(&mut self, es: &Vec<Expr>)
        requires
            !old(self).found,
        ensures
            final(self).search() == load_in_list(es@),
        decreases es,
    {
        let mut i: usize = 0;
        while i < es.len()
            invariant
                i <= es.len(),
                self.search() == load_in_list(es@.take(i as int)),
            decreases es.len() - i,
        {
            proof {
                assert(es@.take(i + 1).drop_last() =~= es@.take(i as int));
            }
            self.visit_expr(&es[i]);
            i = i + 1;
        }
        assert(es@.take(es.len() as int) =~= es@);
    }
}

/// The name under which the wrapper's module is imported.
pub const WRAPPER_SOURCE: &'static str = "next/dynamic";

/// Whether `src` names the wrapper's module.
fn is_wrapper_source(src: &String) -> (r: bool)
    ensures
        r == (src@ == wrapper_source()),
{
    let wrapper = WRAPPER_SOURCE.to_owned();
    proof {
        reveal_strlit("next/dynamic");
    }
    *src == wrapper
}

/// Tracks the wrapper's local binding and collects, call by call, the
/// specifiers that the wrapper loads.
pub struct LodableImportVisitor {
    pub dynamic_ident: Option<String>,
    pub import_sources: Vec<String>,
}

impl LodableImportVisitor {
    /// The tracked binding, as characters.
    pub open spec fn binding(&self) -> Option<Seq<char>> {
        match self.dynamic_ident {
            Some(n) => Some(n@),
            None => None,
        }
    }

    /// The specifiers collected so far.
    pub open spec fn sources(&self) -> Seq<Seq<char>> {
        view_strings(self.import_sources@)
    }

    pub fn new() -> (r: Self)
        ensures
            r.binding() is None,
            r.sources() == Seq::<Seq<char>>::empty(),
    {
        let r = LodableImportVisitor { dynamic_ident: None, import_sources: Vec::new() };
        assert(r.sources() =~= Seq::<Seq<char>>::empty());
        r
    }

    /// Tracks the local binding of a default import of the wrapper.
    pub fn visit_import_decl(&mut self, decl: &ImportDecl)
        ensures
            final(self).binding() == match binding_of(Item::Import(*decl)) {
                Some(n) => Some(n),
                None => old(self).binding(),
            },
            final(self).import_sources == old(self).import_sources,
    {
        if is_wrapper_source(&decl.src) && decl.specifiers.len() > 0 {
            match &decl.specifiers[0] {
                ImportSpecifier::Default(local) => {
                    self.dynamic_ident = Some(local.clone());
                },
                _ => {},
            }
        }
    }

    /// Collects the specifiers loaded through the tracked binding inside `e`;
    /// nothing while no binding is tracked.
    pub fn visit_expr(&mut self, e: &Expr)
        ensures
            final(self).dynamic_ident == old(self).dynamic_ident,
            final(self).sources() == old(self).sources() + match old(self).binding() {
                Some(name) => sources_in(*e, name),
                None => Seq::empty(),
            },
        decreases e,
    {
        if self.dynamic_ident.is_none() {
            assert(self.sources() =~= old(self).sources() + Seq::<Seq<char>>::empty());
            return;
        }
        let ghost name = self.binding()->0;
        match e {
            Expr::Call(callee, args) => {
                let ghost start = self.sources();
                let is_wrapper_call = match callee {
                    Callee::Expr(b) => match &**b {
                        Expr::Ident(n) => match &self.dynamic_ident {
                            Some(d) => *n == *d,
                            None => false,
                        },
                        _ => false,
                    },
                    Callee::Import => false,
                };
                assert(is_wrapper_call == calls_binding(*callee, name));
                if is_wrapper_call {
                    let mut inner = CollectImportSourceVisitor::new();
                    inner.visit_exprs(args);
                    if let Some(s) = inner.import_source {
                        if inner.found {
                            self.import_sources.push(s);
                        }
                    }
                }
                let ghost here = if calls_binding(*callee, name) {
                    match wrapped_source(args@) {
                        Some(s) => seq![s],
                        None => Seq::empty(),
                    }
                } else {
                    Seq::<Seq<char>>::empty()
                };
                assert(self.sources() =~= start + here);
                match callee {
                    Callee::Expr(b) => {
                        self.visit_expr(b);
                    },
                    Callee::Import => {},
                }
                self.visit_exprs(args);
                assert(self.sources() =~= start + sources_in(*e, name));
            },
            Expr::Node(children) => {
                self.visit_exprs(children);
            },
            _ => {
                assert(self.sources() =~= old(self).sources() + sources_in(*e, name));
            },
        }
    }

    /// Collects the specifiers loaded through the tracked binding inside the
    /// nodes of `es`, in order; nothing while no binding is tracked.
    pub fn visit_exprs(&mut self, es: &Vec<Expr>)
        ensures
            final(self).dynamic_ident == old(self).dynamic_ident,
            final(self).sources() == old(self).sources() + match old(self).binding() {
                Some(name) => sources_in_list(es@, name),
                None => Seq::empty(),
            },
        decreases es,
    {
        if self.dynamic_ident.is_none() {
            assert(self.sources() =~= old(self).sources() + Seq::<Seq<char>>::empty());
            return;
        }
        let ghost name = self.binding()->0;
        let ghost start = self.sources();
        let mut i: usize = 0;
        while i < es.len()
            invariant
                i <= es.len(),
                self.dynamic_ident == old(self).dynamic_ident,
                self.binding() == Some(name),
                self.sources() == start + sources_in_list(es@.take(i as int), name),
            decreases es.len() - i,
        {
            proof {
                assert(es@.take(i + 1).drop_last() =~= es@.take(i as int));
            }
            self.visit_expr(&es[i]);
            i = i + 1;
        }
        assert(es@.take(es.len() as int) =~= es@);
    }

    /// Runs the matcher over a whole module: the import declarations first,
    /// then every statement.
    pub fn visit_program(&mut self, p: &Program)
        requires
            old(self).binding() is None,
            old(self).sources() == Seq::<Seq<char>>::empty(),
        ensures
            final(self).sources() == import_sources(*p),
    {
        let mut i: usize = 0;
        while i < p.items.len()
            invariant
                i <= p.items.len(),
                self.binding() == wrapper_binding(p.items@.take(i as int)),
                self.sources() == Seq::<Seq<char>>::empty(),
            decreases p.items.len() - i,
        {
            proof {
                assert(p.items@.take(i + 1).drop_last() =~= p.items@.take(i as int));
            }
            match &p.items[i] {
                Item::Import(decl) => {
                    self.visit_import_decl(decl);
                },
                Item::Stmt(_) => {},
            }
            i = i + 1;
        }
        assert(p.items@.take(p.items.len() as int) =~= p.items@);
        if self.dynamic_ident.is_none() {
            return;
        }
        let ghost name = self.binding()->0;
        let mut j: usize = 0;
        while j < p.items.len()
            invariant
                j <= p.items.len(),
                self.binding() == Some(name),
                name == wrapper_binding(p.items@)->0,
                self.sources() == sources_in_items(p.items@.take(j as int), name),
            decreases p.items.len() - j,
        {
            proof {
                assert(p.items@.take(j + 1).drop_last() =~= p.items@.take(j as int));
            }
            match &p.items[j] {
                Item::Stmt(e) => {
                    self.visit_expr(e);
                },
                Item::Import(_) => {},
            }
            j = j + 1;
        }
        assert(p.items@.take(p.items.len() as int) =~= p.items@);
    }
}

/// The raw specifiers that `p` loads lazily through the wrapper, in source
/// order: the literal argument of the first dynamic load inside each call of
/// the wrapper's local binding.
pub fn extract_import_sources(p: &Program) -> (r: Vec<String>)
    ensures
        view_strings(r@) == import_sources(*p),
{
    let mut visitor = LodableImportVisitor::new();
    visitor.visit_program(p);
    visitor.import_sources
}

} // verus!
