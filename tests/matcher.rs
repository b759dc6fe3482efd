use dynamic_imports::ast::{Callee, Expr, ImportDecl, ImportSpecifier, Item, Program};
use dynamic_imports::matcher::{extract_import_sources, CollectImportSourceVisitor, LodableImportVisitor};

fn ident(name: &str) -> Expr {
    Expr::Ident(name.to_string())
}

fn string(value: &str) -> Expr {
    Expr::Str(value.to_string())
}

fn call(callee: &str, args: Vec<Expr>) -> Expr {
    Expr::Call(Callee::Expr(Box::new(ident(callee))), args)
}

fn load(args: Vec<Expr>) -> Expr {
    Expr::Call(Callee::Import, args)
}

fn arrow(body: Expr) -> Expr {
    Expr::Node(vec![body])
}

fn import_default(src: &str, local: &str) -> Item {
    Item::Import(ImportDecl {
        src: src.to_string(),
        specifiers: vec![ImportSpecifier::Default(local.to_string())],
    })
}

fn sources(items: Vec<Item>) -> Vec<String> {
    extract_import_sources(&Program { items })
}

#[test]
fn no_wrapper_import_gives_nothing() {
    let found = sources(vec![
        import_default("react", "React"),
        Item::Stmt(call("dynamic", vec![load(vec![string("./a")])])),
    ]);
    assert!(found.is_empty());
}

#[test]
fn empty_module_gives_nothing() {
    assert!(sources(vec![]).is_empty());
}

#[test]
fn wrapper_imported_but_not_called_gives_nothing() {
    let found = sources(vec![
        import_default("next/dynamic", "dynamic"),
        Item::Stmt(call("other", vec![load(vec![string("./a")])])),
    ]);
    assert!(found.is_empty());
}

#[test]
fn renamed_binding_is_honored() {
    let found = sources(vec![
        import_default("next/dynamic", "lazy"),
        Item::Stmt(call("lazy", vec![load(vec![string("./b")])])),
        Item::Stmt(call("dynamic", vec![load(vec![string("./c")])])),
    ]);
    assert_eq!(found, vec!["./b".to_string()]);
}

#[test]
fn named_import_is_not_the_wrapper() {
    let found = sources(vec![
        Item::Import(ImportDecl {
            src: "next/dynamic".to_string(),
            specifiers: vec![ImportSpecifier::Named("dynamic".to_string())],
        }),
        Item::Stmt(call("dynamic", vec![load(vec![string("./a")])])),
    ]);
    assert!(found.is_empty());
}

#[test]
fn arrow_function_argument_is_searched() {
    let found = sources(vec![
        import_default("next/dynamic", "dynamic"),
        Item::Stmt(call("dynamic", vec![arrow(load(vec![string("./widget")]))])),
    ]);
    assert_eq!(found, vec!["./widget".to_string()]);
}

#[test]
fn non_literal_argument_is_skipped_and_siblings_kept() {
    let found = sources(vec![
        import_default("next/dynamic", "dynamic"),
        Item::Stmt(call("dynamic", vec![call("getPath", vec![])])),
        Item::Stmt(call("dynamic", vec![load(vec![call("getPath", vec![])])])),
        Item::Stmt(call("dynamic", vec![load(vec![string("./x")])])),
    ]);
    assert_eq!(found, vec!["./x".to_string()]);
}

#[test]
fn import_declared_after_use_is_still_tracked() {
    let found = sources(vec![
        Item::Stmt(call("dynamic", vec![load(vec![string("./a")])])),
        import_default("next/dynamic", "dynamic"),
    ]);
    assert_eq!(found, vec!["./a".to_string()]);
}

#[test]
fn same_literal_twice_is_kept_twice() {
    let found = sources(vec![
        import_default("next/dynamic", "dynamic"),
        Item::Stmt(call("dynamic", vec![load(vec![string("./a")])])),
        Item::Stmt(call("dynamic", vec![load(vec![string("./a")])])),
    ]);
    assert_eq!(found, vec!["./a".to_string(), "./a".to_string()]);
}

#[test]
fn first_dynamic_load_wins() {
    let found = sources(vec![
        import_default("next/dynamic", "dynamic"),
        Item::Stmt(call("dynamic", vec![load(vec![string("./a")]), load(vec![string("./b")])])),
        Item::Stmt(call("dynamic", vec![load(vec![ident("p")]), load(vec![string("./c")])])),
    ]);
    assert_eq!(found, vec!["./a".to_string()]);
}

#[test]
fn loads_inside_other_calls_are_not_searched() {
    let found = sources(vec![
        import_default("next/dynamic", "dynamic"),
        Item::Stmt(call("dynamic", vec![call("wrap", vec![load(vec![string("./a")])])])),
    ]);
    assert!(found.is_empty());
}

#[test]
fn nested_wrapper_calls_are_found_in_order() {
    let inner = call("dynamic", vec![load(vec![string("./inner")])]);
    let outer = call("dynamic", vec![arrow(load(vec![string("./outer")])), arrow(inner)]);
    let found = sources(vec![
        import_default("next/dynamic", "dynamic"),
        Item::Stmt(Expr::Node(vec![outer, call("dynamic", vec![load(vec![string("./last")])])])),
    ]);
    assert_eq!(
        found,
        vec!["./outer".to_string(), "./inner".to_string(), "./last".to_string()]
    );
}

#[test]
fn later_wrapper_import_replaces_binding() {
    let found = sources(vec![
        import_default("next/dynamic", "first"),
        import_default("next/dynamic", "second"),
        Item::Stmt(call("first", vec![load(vec![string("./a")])])),
        Item::Stmt(call("second", vec![load(vec![string("./b")])])),
    ]);
    assert_eq!(found, vec!["./b".to_string()]);
}

#[test]
fn collect_visitor_starts_empty_and_finds_first_load() {
    let mut visitor = CollectImportSourceVisitor::new();
    assert!(visitor.import_source.is_none());
    assert!(!visitor.found);
    visitor.visit_exprs(&vec![ident("x"), arrow(load(vec![string("./m")])), load(vec![string("./n")])]);
    assert!(visitor.found);
    assert_eq!(visitor.import_source, Some("./m".to_string()));
}

#[test]
fn lodable_visitor_tracks_binding() {
    let mut visitor = LodableImportVisitor::new();
    visitor.visit_import_decl(&ImportDecl {
        src: "next/dynamic".to_string(),
        specifiers: vec![ImportSpecifier::Default("load".to_string())],
    });
    assert_eq!(visitor.dynamic_ident, Some("load".to_string()));
    visitor.visit_expr(&call("load", vec![load(vec![string("./z")])]));
    assert_eq!(visitor.import_sources, vec!["./z".to_string()]);
}
