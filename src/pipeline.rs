//! The decisions of one generator run: which package provides the
//! component, which file to read, and what to generate from it.
use vstd::prelude::*;
use crate::assemble::{
    GeneratedArtifact,
    assemble,
    artifact_text,
    entries,
    module_file,
    module_file_path,
    names_of,
    skip_messages,
    sorted_setters,
};
use crate::extract::strings_view;
use crate::extract::{extract_component, extract_spec};
use crate::naming::snake;
use crate::syntax::SourceFile;
use crate::text::{has_prefix, starts_with, str_eq};
use crate::variant::Variant;

verus! {

/// One package of a resolved dependency graph.
#[derive(Clone, Debug)]
pub struct PackageInfo {
    pub name: String,
    /// Whether it comes from a registry or another outside source, rather
    /// than being a member of the workspace.
    pub is_external: bool,
    /// Path of its manifest.
    pub manifest_path: String,
}

/// Why a run fails.
#[derive(Clone, Debug)]
pub enum GenerateError {
    /// The workspace manifest could not be read or resolved.
    Manifest(String),
    /// No outside package of this name is in the graph.
    PackageNotFound(String),
    /// Neither the component's file nor the root module exists; the path
    /// of the root module.
    SourceNotFound(String),
    /// The source text could not be read or parsed.
    Source(String),
}

impl GenerateError {
    /// A one-line description of the error.
    pub fn message(&self) -> (r: String)
        ensures
            r@ == match self {
                GenerateError::Manifest(m) => "Could not resolve the workspace manifest: "@ + m@,
                GenerateError::PackageNotFound(n) => "Could not find dependency package "@ + n@,
                GenerateError::SourceNotFound(p) => "Source file not found at "@ + p@,
                GenerateError::Source(m) => "Could not read the source file: "@ + m@,
            },
    {
        match self {
            GenerateError::Manifest(m) => String::from_str(
                "Could not resolve the workspace manifest: ",
            ).concat(m.as_str()),
            GenerateError::PackageNotFound(n) => String::from_str(
                "Could not find dependency package ",
            ).concat(n.as_str()),
            GenerateError::SourceNotFound(p) => String::from_str("Source file not found at ").concat(
                p.as_str(),
            ),
            GenerateError::Source(m) => String::from_str("Could not read the source file: ").concat(
                m.as_str(),
            ),
        }
    }
}

/// A package that provides `dep`: of that name, and not a workspace member.
pub open spec fn provides(p: PackageInfo, dep: Seq<char>) -> bool {
    p.name@ == dep && p.is_external
}

/// The first package that provides `dep_name`, by index; an error when none
/// does. A workspace member of that name is never chosen, so a package never
/// resolves to itself.
pub fn find_dependency_package(packages: &Vec<PackageInfo>, dep_name: &str) -> (r: Result<
    usize,
    GenerateError,
>)
    ensures
        match r {
            Ok(i) => i < packages@.len() && provides(packages@[i as int], dep_name@) && forall|
                j: int,
            | 0 <= j < i ==> !provides(#[trigger] packages@[j], dep_name@),
            Err(e) => (forall|j: int|
                0 <= j < packages@.len() ==> !provides(#[trigger] packages@[j], dep_name@)) && match e {
                GenerateError::PackageNotFound(n) => n@ == dep_name@,
                _ => false,
            },
        },
{
    let mut i: usize = 0;
    while i < packages.len()
        invariant
            0 <= i <= packages@.len(),
            forall|j: int| 0 <= j < i ==> !provides(#[trigger] packages@[j], dep_name@),
        decreases packages@.len() - i,
    {
        let p = &packages[i];
        if p.is_external && str_eq(p.name.as_str(), dep_name) {
            return Ok(i);
        }
        i = i + 1;
    }
    Err(GenerateError::PackageNotFound(String::from_str(dep_name)))
}

/// The root module of a package.
pub open spec fn root_module_file() -> Seq<char> {
    "src/lib.rs"@
}

/// The file to read inside the providing package: the component's own
/// module if it exists, else the root module; an error if neither exists.
pub fn choose_source_file(component: &str, component_file_exists: bool, root_file_exists: bool) -> (r:
    Result<String, GenerateError>)
    ensures
        component_file_exists ==> r is Ok && r->Ok_0@ == module_file(component@),
        !component_file_exists && root_file_exists ==> r is Ok && r->Ok_0@ == root_module_file(),
        !component_file_exists && !root_file_exists ==> r is Err && match r->Err_0 {
            GenerateError::SourceNotFound(p) => p@ == root_module_file(),
            _ => false,
        },
{
    if component_file_exists {
        Ok(module_file_path(component))
    } else if root_file_exists {
        Ok(String::from_str("src/lib.rs"))
    } else {
        Err(GenerateError::SourceNotFound(String::from_str("src/lib.rs")))
    }
}

/// The wrapper generated for `component` from its source file: its builder
/// surface extracted, then assembled.
pub fn generate_binding(source: &SourceFile, component: &str, v: Variant) -> (r: GeneratedArtifact)
    ensures
        r.path@ == module_file(component@),
        r.text@ == artifact_text(extract_spec(*source, component@, v), component@, v),
        strings_view(r.parameters@) == names_of(entries(extract_spec(*source, component@, v), v)),
        strings_view(r.diagnostics@) == skip_messages(
            sorted_setters(extract_spec(*source, component@, v)),
            v,
        ),
{
    let desc = extract_component(source, component, v);
    assemble(&desc, component, v)
}

/// Whether a stub module belongs to the package: its name starts with the
/// package name spelled as a module (`-` as `_`).
pub fn keep_stub_module(module: &str, pkg_name: &str) -> (r: bool)
    ensures
        r == has_prefix(module@, snake(pkg_name@)),
{
    let prefix = crate::naming::to_snake(pkg_name);
    starts_with(module, prefix.as_str())
}

} // verus!
