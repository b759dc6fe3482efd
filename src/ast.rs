//! A small syntax tree of a script module: just what the matcher reads.
use vstd::prelude::*;

verus! {

broadcast use vstd::std_specs::vec::group_vec_axioms, vstd::seq::group_seq_axioms;

/// The callee of a call expression.
pub enum Callee {
    /// The dynamic-load form `import(...)`.
    Import,
    /// Any other callee expression.
    Expr(Box<Expr>),
}

/// An expression or statement node.
pub enum Expr {
    /// A plain identifier.
    Ident(String),
    /// A string literal, by its value.
    Str(String),
    /// A call expression with its arguments in source order.
    Call(Callee, Vec<Expr>),
    /// Any other node, with its child nodes in source order.
    Node(Vec<Expr>),
}

/// One specifier of an import declaration, by its local binding.
pub enum ImportSpecifier {
    /// `import x from '...'`
    Default(String),
    /// `import { y as x } from '...'`
    Named(String),
    /// `import * as x from '...'`
    Namespace(String),
}

/// A top-level import declaration.
pub struct ImportDecl {
    pub src: String,
    pub specifiers: Vec<ImportSpecifier>,
}

/// A top-level item of a module.
pub enum Item {
    Import(ImportDecl),
    Stmt(Expr),
}

/// A parsed module: its top-level items in source order.
pub struct Program {
    pub items: Vec<Item>,
}

/// What a dynamic-load search found: nothing, or a dynamic-load expression
/// together with its literal argument, if it had one.
pub enum LoadSearch {
    NotFound,
    Found(Option<Seq<char>>),
}

/// The literal value of the first argument of a dynamic-load call, if any.
pub open spec fn literal_arg(args: Seq<Expr>) -> Option<Seq<char>> {
    if args.len() > 0 {
        match args[0] {
            Expr::Str(s) => Some(s@),
            _ => None,
        }
    } else {
        None
    }
}

/// The first dynamic-load expression inside `e`, in source order. Calls are
/// not searched further: a dynamic load is expected at the top of the
/// wrapper's argument, possibly under non-call nodes such as an arrow function.
pub open spec fn load_in(e: Expr) -> LoadSearch
    decreases e,
{
    match e {
        Expr::Call(Callee::Import, args) => LoadSearch::Found(literal_arg(args@)),
        Expr::Node(children) => load_in_list(children@),
        _ => LoadSearch::NotFound,
    }
}

/// The first dynamic-load expression inside the nodes of `es`, in source order.
pub open spec fn load_in_list(es: Seq<Expr>) -> LoadSearch
    decreases es,
{
    if es.len() == 0 {
        LoadSearch::NotFound
    } else {
        match load_in_list(es.drop_last()) {
            LoadSearch::NotFound => load_in(es.last()),
            found => found,
        }
    }
}

/// The module name under which the deferred-load wrapper is imported.
pub open spec fn wrapper_source() -> Seq<char> {
    "next/dynamic"@
}

/// The literal specifier that a wrapper call with arguments `args` loads, if any.
pub open spec fn wrapped_source(args: Seq<Expr>) -> Option<Seq<char>> {
    match load_in_list(args) {
        LoadSearch::Found(Some(s)) => Some(s),
        _ => None,
    }
}

/// Whether `callee` is the plain identifier `name`.
pub open spec fn calls_binding(callee: Callee, name: Seq<char>) -> bool {
    match callee {
        Callee::Expr(b) => match *b {
            Expr::Ident(n) => n@ == name,
            _ => false,
        },
        Callee::Import => false,
    }
}

/// The specifiers loaded through calls of `name` inside `e`, in source order
/// (a call before the calls nested in it).
pub open spec fn sources_in(e: Expr, name: Seq<char>) -> Seq<Seq<char>>
    decreases e,
{
    match e {
        Expr::Call(callee, args) => {
            let here = if calls_binding(callee, name) {
                match wrapped_source(args@) {
                    Some(s) => seq![s],
                    None => Seq::empty(),
                }
            } else {
                Seq::empty()
            };
            let inner = match callee {
                Callee::Expr(b) => sources_in(*b, name),
                Callee::Import => Seq::empty(),
            };
            here + inner + sources_in_list(args@, name)
        },
        Expr::Node(children) => sources_in_list(children@, name),
        _ => Seq::empty(),
    }
}

/// The specifiers loaded through calls of `name` inside the nodes of `es`.
pub open spec fn sources_in_list(es: Seq<Expr>, name: Seq<char>) -> Seq<Seq<char>>
    decreases es,
{
    if es.len() == 0 {
        Seq::empty()
    } else {
        sources_in_list(es.drop_last(), name) + sources_in(es.last(), name)
    }
}

/// The local binding that `item` gives the wrapper: a default import of it.
pub open spec fn binding_of(item: Item) -> Option<Seq<char>> {
    match item {
        Item::Import(d) => if d.src@ == wrapper_source() && d.specifiers.len() > 0 {
            match d.specifiers@[0] {
                ImportSpecifier::Default(local) => Some(local@),
                _ => None,
            }
        } else {
            None
        },
        Item::Stmt(_) => None,
    }
}

/// The local binding of the wrapper in `items`: the last import that gives one.
pub open spec fn wrapper_binding(items: Seq<Item>) -> Option<Seq<char>>
    decreases items.len(),
{
    if items.len() == 0 {
        None
    } else {
        match binding_of(items.last()) {
            Some(n) => Some(n),
            None => wrapper_binding(items.drop_last()),
        }
    }
}

/// The specifiers loaded through calls of `name` in the statements of `items`.
pub open spec fn sources_in_items(items: Seq<Item>, name: Seq<char>) -> Seq<Seq<char>>
    decreases items.len(),
{
    if items.len() == 0 {
        Seq::empty()
    } else {
        sources_in_items(items.drop_last(), name) + match items.last() {
            Item::Stmt(e) => sources_in(e, name),
            Item::Import(_) => Seq::empty(),
        }
    }
}

/// The raw specifiers that a module loads lazily through the wrapper, in
/// source order; empty when the module does not import the wrapper.
pub open spec fn import_sources(p: Program) -> Seq<Seq<char>> {
    match wrapper_binding(p.items@) {
        Some(name) => sources_in_items(p.items@, name),
        None => Seq::empty(),
    }
}

/// The character views of a sequence of strings.
pub open spec fn view_strings(v: Seq<String>) -> Seq<Seq<char>> {
    v.map_values(|s: String| s@)
}

} // verus!
