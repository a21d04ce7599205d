//! The toolchain selector: a pure mapping from an architecture family to the
//! external tool, flag set, and veneer source that produce a linkable object
//! for that family.

use vstd::prelude::*;

use crate::arch::{spec_parse_descriptor, parse_descriptor, Arch};

verus! {

/// Name of the external tool that assembles the veneer for family `a`.
pub open spec fn spec_tool_name(a: Arch) -> Seq<char> {
    match a {
        Arch::X8664 => "nasm"@,
        Arch::Aarch64 => "clang"@,
    }
}

/// The flag set handed to the tool for family `a`, ending with the flag that
/// introduces the output path.
pub open spec fn spec_tool_flags(a: Arch) -> Seq<Seq<char>> {
    match a {
        Arch::X8664 => seq!["-f"@, "win64"@, "-g"@, "-o"@],
        Arch::Aarch64 => seq!["-c"@, "-target"@, "aarch64-windows"@, "-g"@, "-o"@],
    }
}

/// Path of the veneer source for family `a`, relative to the project root.
pub open spec fn spec_veneer_source(a: Arch) -> Seq<char> {
    match a {
        Arch::X8664 => "asm/x86_64/entry.asm"@,
        Arch::Aarch64 => "asm/aarch64/entry.S"@,
    }
}

/// The views of a sequence of flag strings.
pub open spec fn flag_views(flags: Seq<String>) -> Seq<Seq<char>> {
    flags.map_values(|f: String| f@)
}

/// The toolchain mapping for one architecture family: which external tool to
/// invoke, with which flags, on which veneer source.
pub struct Toolchain {
    /// Name of the external assembler or compiler.
    pub tool: String,
    /// Flags producing an object file in the family's binary format.
    pub flags: Vec<String>,
    /// Veneer source path for the family, relative to the project root.
    pub source: String,
}

impl Toolchain {
    /// This mapping is exactly the one for family `a`.
    pub open spec fn is_mapping_for(self, a: Arch) -> bool {
        &&& self.tool@ == spec_tool_name(a)
        &&& flag_views(self.flags@) == spec_tool_flags(a)
        &&& self.source@ == spec_veneer_source(a)
    }
}

/// The pure mapping from a supported architecture family to its toolchain.
/// No side effects, no subprocess execution.
pub fn select_toolchain(a: Arch) -> (t: Toolchain)
    ensures
        t.is_mapping_for(a),
{
    match a {
        Arch::X8664 => {
            let mut flags: Vec<String> = Vec::new();
            flags.push("-f".to_owned());
            flags.push("win64".to_owned());
            flags.push("-g".to_owned());
            flags.push("-o".to_owned());
            let t = Toolchain {
                tool: "nasm".to_owned(),
                flags,
                source: "asm/x86_64/entry.asm".to_owned(),
            };
            proof {
                assert(flag_views(t.flags@) =~= spec_tool_flags(a));
            }
            t
        },
        Arch::Aarch64 => {
            let mut flags: Vec<String> = Vec::new();
            flags.push("-c".to_owned());
            flags.push("-target".to_owned());
            flags.push("aarch64-windows".to_owned());
            flags.push("-g".to_owned());
            flags.push("-o".to_owned());
            let t = Toolchain {
                tool: "clang".to_owned(),
                flags,
                source: "asm/aarch64/entry.S".to_owned(),
            };
            proof {
                assert(flag_views(t.flags@) =~= spec_tool_flags(a));
            }
            t
        },
    }
}

/// Toolchain selection keyed by the target descriptor: a supported descriptor
/// yields its family's mapping, an unsupported one yields no mapping.
pub fn select_for_descriptor(descriptor: &str) -> (r: Option<Toolchain>)
    ensures
        match r {
            Some(t) => spec_parse_descriptor(descriptor@) matches Some(a) && t.is_mapping_for(a),
            None => spec_parse_descriptor(descriptor@) is None,
        },
{
    match parse_descriptor(descriptor) {
        Some(a) => Some(select_toolchain(a)),
        None => None,
    }
}

/// Every supported architecture family has a non-empty mapping: a named tool,
/// at least one flag, and a named veneer source.
pub proof fn lemma_supported_mapping_nonempty(a: Arch)
    ensures
        spec_tool_name(a).len() > 0,
        spec_tool_flags(a).len() > 0,
        spec_veneer_source(a).len() > 0,
{
    reveal_strlit("nasm");
    reveal_strlit("clang");
    reveal_strlit("asm/x86_64/entry.asm");
    reveal_strlit("asm/aarch64/entry.S");
}

} // verus!
