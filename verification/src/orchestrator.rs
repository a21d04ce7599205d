//! The build orchestrator's decisions: planning the external tool invocation
//! for the active target, and turning the tool's outcome into either the
//! linker directive set or a fatal build error.
//!
//! The subprocess itself is an external collaborator; the orchestrator's
//! logic here is a pure function from the target descriptor and the tool's
//! reported outcome to directives or an error, so the caller runs the tool
//! between [`plan_build`] and [`conclude_build`].

use vstd::prelude::*;
use vstd::string::StringExecFns;

use crate::arch::{spec_parse_descriptor, parse_descriptor, Arch};
use crate::toolchain::{select_toolchain, spec_veneer_source, Toolchain};

verus! {

/// File name of the object produced for family `a`, inside the build output
/// directory.
pub open spec fn spec_object_name(a: Arch) -> Seq<char> {
    match a {
        Arch::X8664 => "entry_x86_64.obj"@,
        Arch::Aarch64 => "entry_aarch64.obj"@,
    }
}

/// Output path of the object for family `a`: the object file name inside the
/// build output directory.
pub open spec fn spec_output_path(out_dir: Seq<char>, a: Arch) -> Seq<char> {
    out_dir + "/"@ + spec_object_name(a)
}

/// The externally-visible entry label of every veneer; the linker must
/// resolve the image entry point to it.
pub open spec fn spec_entry_symbol() -> Seq<char> {
    "_start"@
}

/// One planned invocation of the external tool: produced for a supported
/// target, it owns the fresh output path the object will be written to.
pub struct ToolInvocation {
    /// Name of the external tool to spawn.
    pub tool: String,
    /// Flags handed to the tool, ending with the flag introducing the output
    /// path; the caller appends the output path and then the source path.
    pub flags: Vec<String>,
    /// Veneer source path, relative to the project root.
    pub source: String,
    /// Fresh path of the object file inside the build output directory.
    pub output: String,
}

impl ToolInvocation {
    /// This invocation is exactly the planned one for family `a` with build
    /// output directory `out_dir`.
    pub open spec fn is_plan_for(self, a: Arch, out_dir: Seq<char>) -> bool {
        &&& (Toolchain { tool: self.tool, flags: self.flags, source: self.source }).is_mapping_for(a)
        &&& self.output@ == spec_output_path(out_dir, a)
    }
}

/// What the external tool invocation came to.
#[derive(Clone, Copy, PartialEq, Eq, Structural, Debug)]
pub enum ToolExit {
    /// The tool ran to completion and exited with `code`.
    Exited { code: i32 },
    /// The tool could not be spawned at all.
    SpawnFailed,
}

/// One linker directive, applied after artifact production.
#[derive(Clone, PartialEq, Eq, Debug)]
pub enum LinkerDirective {
    /// Include the produced object file at `path` in the final link.
    IncludeObject { path: String },
    /// Override the image entry symbol to `symbol`.
    EntrySymbol { symbol: String },
}

/// Why the build was aborted.
#[derive(Clone, Copy, PartialEq, Eq, Structural, Debug)]
pub enum BuildErrorKind {
    /// The external tool could not be spawned.
    SpawnFailed,
    /// The external tool exited with the non-zero `code`.
    ToolFailed { code: i32 },
}

/// A fatal build failure, naming the failing tool and the veneer source it
/// was invoked on.
#[derive(Clone, PartialEq, Eq, Debug)]
pub struct BuildError {
    /// Name of the failing external tool.
    pub tool: String,
    /// Veneer source the tool was invoked on.
    pub source: String,
    /// What went wrong.
    pub kind: BuildErrorKind,
}

/// `ds` is exactly the directive set owed for a produced object at `output`:
/// first include the object, then override the entry symbol to the veneer's
/// entry label — in that order, and nothing else.
pub open spec fn spec_success_directives(ds: Seq<LinkerDirective>, output: Seq<char>) -> bool {
    &&& ds.len() == 2
    &&& ds[0] matches LinkerDirective::IncludeObject { path } && path@ == output
    &&& ds[1] matches LinkerDirective::EntrySymbol { symbol } && symbol@ == spec_entry_symbol()
}

/// `e` is the fatal error owed for invocation `inv` ending in `exit`.
pub open spec fn spec_build_error(e: BuildError, inv: ToolInvocation, exit: ToolExit) -> bool {
    &&& e.tool@ == inv.tool@
    &&& e.source@ == inv.source@
    &&& match exit {
        ToolExit::Exited { code } => code != 0 && e.kind == (BuildErrorKind::ToolFailed { code }),
        ToolExit::SpawnFailed => e.kind == BuildErrorKind::SpawnFailed,
    }
}

/// File name of the object produced for family `a`.
fn object_name(a: Arch) -> (r: String)
    ensures
        r@ == spec_object_name(a),
{
    match a {
        Arch::X8664 => "entry_x86_64.obj".to_owned(),
        Arch::Aarch64 => "entry_aarch64.obj".to_owned(),
    }
}

/// Plans the veneer build for the active target descriptor: a supported
/// descriptor yields the invocation of its family's toolchain with a fresh
/// output path under `out_dir`; an unsupported descriptor yields no plan, so
/// no subprocess is ever invoked for it.
pub fn plan_build(descriptor: &str, out_dir: &str) -> (r: Option<ToolInvocation>)
    ensures
        match r {
            Some(inv) => spec_parse_descriptor(descriptor@) matches Some(a)
                && inv.is_plan_for(a, out_dir@),
            None => spec_parse_descriptor(descriptor@) is None,
        },
{
    match parse_descriptor(descriptor) {
        None => None,
        Some(a) => {
            let t = select_toolchain(a);
            let object = object_name(a);
            let output = out_dir.to_owned().concat("/").concat(object.as_str());
            Some(ToolInvocation { tool: t.tool, flags: t.flags, source: t.source, output })
        },
    }
}

/// The orchestrator's verdict on a finished tool invocation. On exit code
/// zero it emits, in order, exactly one include-object directive whose path
/// is the invocation's output path and exactly one entry-symbol override; on
/// any other outcome it emits no directive and aborts the build with an error
/// naming the failing tool and source.
pub fn conclude_build(inv: &ToolInvocation, exit: ToolExit) -> (r: Result<
    Vec<LinkerDirective>,
    BuildError,
>)
    ensures
        match r {
            Ok(ds) => exit == (ToolExit::Exited { code: 0 })
                && spec_success_directives(ds@, inv.output@),
            Err(e) => exit != (ToolExit::Exited { code: 0 }) && spec_build_error(e, *inv, exit),
        },
{
    match exit {
        ToolExit::Exited { code } => {
            if code == 0 {
                let mut ds: Vec<LinkerDirective> = Vec::new();
                ds.push(LinkerDirective::IncludeObject { path: inv.output.clone() });
                ds.push(LinkerDirective::EntrySymbol { symbol: "_start".to_owned() });
                Ok(ds)
            } else {
                Err(BuildError {
                    tool: inv.tool.clone(),
                    source: inv.source.clone(),
                    kind: BuildErrorKind::ToolFailed { code },
                })
            }
        },
        ToolExit::SpawnFailed => Err(BuildError {
            tool: inv.tool.clone(),
            source: inv.source.clone(),
            kind: BuildErrorKind::SpawnFailed,
        }),
    }
}

/// The build-invalidating inputs: every family's veneer source, so that any
/// edit to one triggers re-orchestration on the next build.
pub fn watched_sources() -> (r: Vec<String>)
    ensures
        r@.len() == 2,
        r@[0]@ == spec_veneer_source(Arch::X8664),
        r@[1]@ == spec_veneer_source(Arch::Aarch64),
{
    let mut v: Vec<String> = Vec::new();
    v.push("asm/x86_64/entry.asm".to_owned());
    v.push("asm/aarch64/entry.S".to_owned());
    v
}

} // verus!
