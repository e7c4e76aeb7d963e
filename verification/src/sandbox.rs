//! The resolution sandbox: what the throwaway workspace of one request
//! holds, and how the resolver is run against it.

use vstd::prelude::*;
use vstd::string::*;

verus! {

/// What is to be laid out for one request before the resolver runs: a fresh
/// directory that holds the manifest and, in a source directory, one empty
/// placeholder file.
#[derive(Debug, PartialEq, Eq)]
pub struct SandboxPlan {
    /// How the directory's name begins; whoever creates the directory adds
    /// what makes the name unique to the request.
    pub prefix: String,
    /// Name of the manifest file, directly under the directory.
    pub manifest_name: String,
    /// What is written to the manifest file.
    pub manifest_text: String,
    /// Name of the source directory, directly under the directory.
    pub source_dir: String,
    /// Name of the placeholder file, under the source directory.
    pub placeholder_name: String,
}

/// How the resolver is invoked.
#[derive(Debug, PartialEq, Eq)]
pub struct ResolverCommand {
    pub program: String,
    pub arguments: Vec<String>,
}

/// The path of `name` directly under `directory`.
pub open spec fn path_under(directory: Seq<char>, name: Seq<char>) -> Seq<char> {
    directory + "/"@ + name
}

/// How the sandbox directory's name begins.
pub open spec fn sandbox_prefix_of(owner: Seq<char>, project: Seq<char>) -> Seq<char> {
    owner + "_"@ + project
}

/// The arguments with which the resolver is run on a sandbox: resolve afresh,
/// against the sandbox's manifest.
pub open spec fn resolver_arguments(sandbox: Seq<char>) -> Seq<Seq<char>> {
    seq!["update"@, "--manifest-path"@, path_under(sandbox, "Cargo.toml"@)]
}

/// The characters of each text.
pub open spec fn texts_of(items: Seq<String>) -> Seq<Seq<char>> {
    items.map_values(|item: String| item@)
}

/// Joins a directory and a name into a path.
pub fn join_path(directory: &str, name: &str) -> (path: String)
    ensures
        path@ == path_under(directory@, name@),
{
    directory.to_owned().concat("/").concat(name)
}

/// Whether a plan is the sandbox of a project's manifest: named after owner
/// and project, holding the manifest unchanged, character for character,
/// beside a source directory with its placeholder.
pub open spec fn plans_sandbox(
    plan: SandboxPlan,
    owner: Seq<char>,
    project: Seq<char>,
    manifest: Seq<char>,
) -> bool {
    &&& plan.prefix@ == sandbox_prefix_of(owner, project)
    &&& plan.manifest_name@ == "Cargo.toml"@
    &&& plan.manifest_text@ == manifest
    &&& plan.source_dir@ == "src"@
    &&& plan.placeholder_name@ == "lib.rs"@
}

/// Whether a command runs the resolver on a sandbox.
pub open spec fn runs_resolver(command: ResolverCommand, sandbox: Seq<char>) -> bool {
    &&& command.program@ == "cargo"@
    &&& texts_of(command.arguments@) == resolver_arguments(sandbox)
}

/// Plans the sandbox for the manifest of a project.
pub fn plan_sandbox(owner: &str, project: &str, manifest: &str) -> (plan: SandboxPlan)
    ensures
        plans_sandbox(plan, owner@, project@, manifest@),
{
    SandboxPlan {
        prefix: owner.to_owned().concat("_").concat(project),
        manifest_name: "Cargo.toml".to_owned(),
        manifest_text: manifest.to_owned(),
        source_dir: "src".to_owned(),
        placeholder_name: "lib.rs".to_owned(),
    }
}

/// The command that resolves the manifest of a sandbox and writes the lock
/// file beside it.
pub fn resolver_command(sandbox: &str) -> (command: ResolverCommand)
    ensures
        runs_resolver(command, sandbox@),
{
    let mut arguments: Vec<String> = Vec::new();
    arguments.push("update".to_owned());
    arguments.push("--manifest-path".to_owned());
    arguments.push(join_path(sandbox, "Cargo.toml"));
    assert(texts_of(arguments@) =~= resolver_arguments(sandbox@));
    ResolverCommand { program: "cargo".to_owned(), arguments }
}

/// Where the resolver leaves the lock file of a sandbox.
pub fn lock_path(sandbox: &str) -> (path: String)
    ensures
        path@ == path_under(sandbox@, "Cargo.lock"@),
{
    join_path(sandbox, "Cargo.lock")
}

} // verus!
