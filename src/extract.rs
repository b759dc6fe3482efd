//! Per-module extraction: from a module's parse outcome to its resolved
//! dynamic imports, or to one parsing diagnostic.
use vstd::prelude::*;
use crate::ast::{Program, import_sources, view_strings};
use crate::matcher::extract_import_sources;

verus! {

broadcast use vstd::std_specs::vec::group_vec_axioms, vstd::seq::group_seq_axioms;

/// What the module system gives for one module of the graph.
pub enum ModuleSource {
    /// A module of a kind that the analysis does not read (not a script).
    Other,
    /// A script module whose source failed to parse.
    Unparsable,
    /// A script module and its syntax tree.
    Parsed(Program),
}

/// How severe a diagnostic is.
#[derive(PartialEq, Eq, Structural, Clone, Copy, Debug)]
pub enum IssueSeverity {
    Error,
    Warning,
}

/// The diagnostic reported for a module whose source failed to parse.
pub struct NextDynamicParsingIssue {
    pub path: String,
}

impl NextDynamicParsingIssue {
    pub fn severity(&self) -> (r: IssueSeverity)
        ensures
            r == IssueSeverity::Warning,
    {
        IssueSeverity::Warning
    }

    pub fn title(&self) -> (r: String)
        ensures
            r@ == "Unable to parse source file"@,
    {
        "Unable to parse source file".to_owned()
    }

    pub fn category(&self) -> (r: String)
        ensures
            r@ == "parsing"@,
    {
        "parsing".to_owned()
    }

    pub fn file_path(&self) -> (r: String)
        ensures
            r@ == self.path@,
    {
        self.path.clone()
    }

    pub fn description(&self) -> (r: String)
        ensures
            r@ == "Failed to parse source file. This is likely due to a syntax error in the source file."@,
    {
        "Failed to parse source file. This is likely due to a syntax error in the source file.".to_owned()
    }

    pub fn detail(&self) -> (r: String)
        ensures
            r@ == "Failed to parse source file. This is likely due to a syntax error in the source file."@,
    {
        "Failed to parse source file. This is likely due to a syntax error in the source file.".to_owned()
    }
}

/// The raw specifiers found in one module, and the diagnostic it raised.
pub struct ModuleScan {
    pub sources: Vec<String>,
    pub issue: Option<NextDynamicParsingIssue>,
}

/// The raw specifiers that a module with this parse outcome loads lazily.
pub open spec fn scanned_sources(source: ModuleSource) -> Seq<Seq<char>> {
    match source {
        ModuleSource::Parsed(p) => import_sources(p),
        _ => Seq::empty(),
    }
}

/// Reads one module: a module that is not a script gives nothing; one that
/// failed to parse gives nothing and one diagnostic on its path; a parsed one
/// gives the specifiers that the matcher finds.
pub fn scan_module(path: &String, source: &ModuleSource) -> (r: ModuleScan)
    ensures
        view_strings(r.sources@) == scanned_sources(*source),
        match r.issue {
            Some(issue) => source is Unparsable && issue.path@ == path@,
            None => !(source is Unparsable),
        },
{
    match source {
        ModuleSource::Other => {
            let r = ModuleScan { sources: Vec::new(), issue: None };
            assert(view_strings(r.sources@) =~= Seq::<Seq<char>>::empty());
            r
        },
        ModuleSource::Unparsable => {
            let r = ModuleScan {
                sources: Vec::new(),
                issue: Some(NextDynamicParsingIssue { path: path.clone() }),
            };
            assert(view_strings(r.sources@) =~= Seq::<Seq<char>>::empty());
            r
        },
        ModuleSource::Parsed(p) => ModuleScan { sources: extract_import_sources(p), issue: None },
    }
}

/// The character view of a list of resolved dynamic imports.
pub open spec fn view_imports(v: Seq<(String, u64)>) -> Seq<(Seq<char>, u64)> {
    v.map_values(|p: (String, u64)| (p.0@, p.1))
}

/// The resolved dynamic imports among `resolutions`, in order: each specifier
/// that resolved, with the module it resolved to.
pub open spec fn kept_imports(resolutions: Seq<(String, Option<u64>)>) -> Seq<(Seq<char>, u64)>
    decreases resolutions.len(),
{
    if resolutions.len() == 0 {
        Seq::empty()
    } else {
        let rest = kept_imports(resolutions.drop_last());
        match resolutions.last().1 {
            Some(m) => rest.push((resolutions.last().0@, m)),
            None => rest,
        }
    }
}

/// The resolved dynamic imports of one origin module.
pub struct DynamicImportsMap(pub (u64, Vec<(String, u64)>));

/// The dynamic imports of one module, or none.
pub struct OptionDynamicImportsMap(pub Option<DynamicImportsMap>);

impl DynamicImportsMap {
    pub open spec fn view(&self) -> (u64, Seq<(Seq<char>, u64)>) {
        (self.0.0, view_imports(self.0.1@))
    }
}

impl OptionDynamicImportsMap {
    pub open spec fn view(&self) -> Option<(u64, Seq<(Seq<char>, u64)>)> {
        match self.0 {
            Some(m) => Some(m.view()),
            None => None,
        }
    }

    /// No dynamic imports.
    pub fn none() -> (r: Self)
        ensures
            r.view() is None,
    {
        OptionDynamicImportsMap(None)
    }
}

/// The result of extraction for a module whose specifiers resolved as
/// `resolutions` says: none when no specifier resolved, else the origin with
/// the resolved ones in order.
pub open spec fn module_imports(module: u64, resolutions: Seq<(String, Option<u64>)>) -> Option<
    (u64, Seq<(Seq<char>, u64)>),
> {
    if kept_imports(resolutions).len() == 0 {
        None
    } else {
        Some((module, kept_imports(resolutions)))
    }
}

/// Builds the dynamic imports of `module` from its specifiers, each with what
/// it resolved to from the module's own location; unresolved ones are dropped.
pub fn build_dynamic_imports_map_for_module(
    module: u64,
    resolutions: Vec<(String, Option<u64>)>,
) -> (r: OptionDynamicImportsMap)
    ensures
        r.view() == module_imports(module, resolutions@),
{
    let mut imports: Vec<(String, u64)> = Vec::new();
    let mut i: usize = 0;
    while i < resolutions.len()
        invariant
            i <= resolutions.len(),
            view_imports(imports@) == kept_imports(resolutions@.take(i as int)),
        decreases resolutions.len() - i,
    {
        proof {
            assert(resolutions@.take(i + 1).drop_last() =~= resolutions@.take(i as int));
        }
        let (source, resolved) = &resolutions[i];
        match resolved {
            Some(m) => {
                imports.push((source.clone(), *m));
                assert(view_imports(imports@) =~= kept_imports(resolutions@.take(i + 1)));
            },
            None => {},
        }
        i = i + 1;
    }
    assert(resolutions@.take(resolutions.len() as int) =~= resolutions@);
    if imports.len() == 0 {
        OptionDynamicImportsMap::none()
    } else {
        OptionDynamicImportsMap(Some(DynamicImportsMap((module, imports))))
    }
}

} // verus!
