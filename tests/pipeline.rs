use dynamic_imports::ast::{Callee, Expr, ImportDecl, ImportSpecifier, Item, Program};
use dynamic_imports::extract::{
    build_dynamic_imports_map_for_module, scan_module, DynamicImportsMap, IssueSeverity,
    ModuleSource, OptionDynamicImportsMap,
};
use dynamic_imports::mapping::collect_import_mappings;
use dynamic_imports::traversal::ModuleTraversal;

fn wrapper_call(binding: &str, specifier: &str) -> Item {
    Item::Stmt(Expr::Call(
        Callee::Expr(Box::new(Expr::Ident(binding.to_string()))),
        vec![Expr::Call(Callee::Import, vec![Expr::Str(specifier.to_string())])],
    ))
}

fn import_default(local: &str) -> Item {
    Item::Import(ImportDecl {
        src: "next/dynamic".to_string(),
        specifiers: vec![ImportSpecifier::Default(local.to_string())],
    })
}

fn resolve_with(sources: Vec<String>, table: &[(&str, u64)]) -> Vec<(String, Option<u64>)> {
    sources
        .into_iter()
        .map(|s| {
            let target = table.iter().find(|(k, _)| *k == s).map(|(_, m)| *m);
            (s, target)
        })
        .collect()
}

fn extract(module: u64, path: &str, source: ModuleSource, table: &[(&str, u64)]) -> OptionDynamicImportsMap {
    let scan = scan_module(&path.to_string(), &source);
    build_dynamic_imports_map_for_module(module, resolve_with(scan.sources, table))
}

fn entry(module: u64, imports: Vec<(&str, u64)>) -> OptionDynamicImportsMap {
    OptionDynamicImportsMap(Some(DynamicImportsMap((
        module,
        imports.into_iter().map(|(s, m)| (s.to_string(), m)).collect(),
    ))))
}

#[test]
fn unresolved_specifier_is_dropped() {
    let app = Program {
        items: vec![
            import_default("dynamic"),
            wrapper_call("dynamic", "./widget"),
            wrapper_call("dynamic", "./chart"),
        ],
    };
    let result = extract(1, "app.js", ModuleSource::Parsed(app), &[("./widget", 2)]);
    let mapping = collect_import_mappings(&vec![result]);
    assert_eq!(mapping.len(), 1);
    assert_eq!(mapping.get(&1), Some(&vec![("./widget".to_string(), 2)]));
}

#[test]
fn renamed_wrapper_scenario() {
    let a = Program { items: vec![import_default("lazy"), wrapper_call("lazy", "./b")] };
    let result = extract(10, "a.js", ModuleSource::Parsed(a), &[("./b", 11)]);
    let mapping = collect_import_mappings(&vec![result]);
    assert_eq!(mapping.len(), 1);
    assert_eq!(mapping.get(&10), Some(&vec![("./b".to_string(), 11)]));
}

#[test]
fn module_without_wrapper_has_no_imports() {
    let m = Program { items: vec![wrapper_call("dynamic", "./a")] };
    let result = extract(1, "m.js", ModuleSource::Parsed(m), &[("./a", 2)]);
    assert!(result.0.is_none());
}

#[test]
fn module_of_other_kind_has_no_imports() {
    let scan = scan_module(&"style.css".to_string(), &ModuleSource::Other);
    assert!(scan.sources.is_empty());
    assert!(scan.issue.is_none());
}

#[test]
fn parse_failure_gives_one_warning() {
    let scan = scan_module(&"broken.js".to_string(), &ModuleSource::Unparsable);
    assert!(scan.sources.is_empty());
    let issue = scan.issue.expect("a diagnostic");
    assert_eq!(issue.severity(), IssueSeverity::Warning);
    assert_eq!(issue.file_path(), "broken.js");
    assert_eq!(issue.category(), "parsing");
    assert_eq!(issue.title(), "Unable to parse source file");
    assert_eq!(
        issue.description(),
        "Failed to parse source file. This is likely due to a syntax error in the source file."
    );
    assert_eq!(issue.detail(), issue.description());
}

#[test]
fn all_unresolved_counts_as_none() {
    let result = build_dynamic_imports_map_for_module(
        3,
        vec![("./x".to_string(), None), ("./y".to_string(), None)],
    );
    assert!(result.0.is_none());
    assert!(OptionDynamicImportsMap::none().0.is_none());
}

#[test]
fn resolutions_keep_order() {
    let result = build_dynamic_imports_map_for_module(
        3,
        vec![("./x".to_string(), Some(5)), ("./y".to_string(), None), ("./z".to_string(), Some(4))],
    );
    let DynamicImportsMap((origin, imports)) = result.0.expect("imports");
    assert_eq!(origin, 3);
    assert_eq!(imports, vec![("./x".to_string(), 5), ("./z".to_string(), 4)]);
}

#[test]
fn repeated_origin_is_concatenated_in_place() {
    let mapping = collect_import_mappings(&vec![
        entry(1, vec![("./a", 10)]),
        entry(2, vec![("./b", 20)]),
        OptionDynamicImportsMap::none(),
        entry(1, vec![("./c", 30), ("./a", 10)]),
    ]);
    let keys: Vec<u64> = mapping.keys().copied().collect();
    assert_eq!(keys, vec![1, 2]);
    assert_eq!(
        mapping.get(&1),
        Some(&vec![("./a".to_string(), 10), ("./c".to_string(), 30), ("./a".to_string(), 10)])
    );
    assert_eq!(mapping.get(&2), Some(&vec![("./b".to_string(), 20)]));
}

#[test]
fn empty_results_give_empty_mapping() {
    assert!(collect_import_mappings(&vec![]).is_empty());
}

#[test]
fn collection_twice_or_reordered_has_same_content() {
    let first = collect_import_mappings(&vec![entry(1, vec![("./a", 10)]), entry(2, vec![("./b", 20)])]);
    let again = collect_import_mappings(&vec![entry(1, vec![("./a", 10)]), entry(2, vec![("./b", 20)])]);
    let reordered = collect_import_mappings(&vec![entry(2, vec![("./b", 20)]), entry(1, vec![("./a", 10)])]);
    assert_eq!(first, again);
    assert_eq!(first.len(), reordered.len());
    for (k, v) in first.iter() {
        assert_eq!(reordered.get(k), Some(v));
    }
}

fn run_traversal(entry: u64, graph: &[(u64, Vec<u64>)]) -> (Vec<u64>, Vec<u64>) {
    let mut t = ModuleTraversal::new(entry);
    let mut handed_out = vec![];
    while let Some(m) = t.next_module() {
        handed_out.push(m);
        let refs = graph.iter().find(|(k, _)| *k == m).map(|(_, r)| r.clone()).unwrap_or_default();
        t.add_referenced(&refs);
    }
    assert!(t.is_done());
    (handed_out, t.modules())
}

#[test]
fn diamond_is_visited_once() {
    let graph = vec![(1, vec![2, 3]), (2, vec![4]), (3, vec![4, 1]), (4, vec![])];
    let (handed_out, modules) = run_traversal(1, &graph);
    assert_eq!(handed_out, vec![1, 2, 3, 4]);
    assert_eq!(modules, vec![1, 2, 3, 4]);
}

#[test]
fn repeated_references_are_added_once() {
    let graph = vec![(7, vec![8, 8, 9, 8, 7])];
    let (handed_out, _) = run_traversal(7, &graph);
    assert_eq!(handed_out, vec![7, 8, 9]);
}

#[test]
fn lone_entry_is_visited() {
    let (handed_out, modules) = run_traversal(5, &[]);
    assert_eq!(handed_out, vec![5]);
    assert_eq!(modules, vec![5]);
}

#[test]
fn traversal_hands_out_in_found_order() {
    let mut t = ModuleTraversal::new(1);
    assert!(!t.is_done());
    assert_eq!(t.next_module(), Some(1));
    assert!(t.is_done());
    assert_eq!(t.next_module(), None);
    t.add_referenced(&vec![3, 2]);
    assert_eq!(t.modules(), vec![1, 3, 2]);
    assert_eq!(t.next_module(), Some(3));
    assert_eq!(t.next_module(), Some(2));
    assert_eq!(t.next_module(), None);
}

#[test]
fn diamond_module_is_one_key() {
    let graph = vec![(1, vec![2, 3]), (2, vec![4]), (3, vec![4]), (4, vec![])];
    let (modules, _) = run_traversal(1, &graph);
    let results: Vec<OptionDynamicImportsMap> = modules
        .iter()
        .map(|m| {
            if *m == 4 {
                let p = Program { items: vec![import_default("dynamic"), wrapper_call("dynamic", "./x")] };
                extract(4, "x.js", ModuleSource::Parsed(p), &[("./x", 9)])
            } else {
                OptionDynamicImportsMap::none()
            }
        })
        .collect();
    let mapping = collect_import_mappings(&results);
    assert_eq!(mapping.len(), 1);
    assert_eq!(mapping.get(&4), Some(&vec![("./x".to_string(), 9)]));
}
