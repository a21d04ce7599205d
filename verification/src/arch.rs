//! Target architecture families, descriptor parsing, and idle-instruction
//! selection.

use vstd::prelude::*;
use vstd::string::StrSliceExecFns;

verus! {

/// Closed enumeration of the CPU architecture families with boot support
/// wired. Exactly one family is active per build invocation.
#[derive(Clone, Copy, PartialEq, Eq, Structural, Debug)]
pub enum Arch {
    /// The x86_64 family.
    X8664,
    /// The aarch64 family.
    Aarch64,
}

/// The low-power idle instruction the halt safety net spins on. The choice is
/// made at build time from the architecture family alone.
#[derive(Clone, Copy, PartialEq, Eq, Structural, Debug)]
pub enum IdleInstruction {
    /// The x86_64 halt instruction (`hlt`).
    Halt,
    /// The aarch64 wait-for-event instruction (`wfe`).
    WaitForEvent,
}

/// The idle instruction that is correct for architecture family `a`.
pub open spec fn spec_idle_instruction(a: Arch) -> IdleInstruction {
    match a {
        Arch::X8664 => IdleInstruction::Halt,
        Arch::Aarch64 => IdleInstruction::WaitForEvent,
    }
}

/// Selects the idle instruction for architecture family `a`.
pub fn idle_instruction(a: Arch) -> (r: IdleInstruction)
    ensures
        r == spec_idle_instruction(a),
{
    match a {
        Arch::X8664 => IdleInstruction::Halt,
        Arch::Aarch64 => IdleInstruction::WaitForEvent,
    }
}

/// Idle-instruction selection is architecture-correct: the x86_64 family
/// idles on `hlt`, the aarch64 family on `wfe`, and no two families share an
/// instruction, so no build configuration can select the wrong family's
/// instruction.
pub proof fn lemma_idle_instruction_architecture_correct()
    ensures
        spec_idle_instruction(Arch::X8664) == IdleInstruction::Halt,
        spec_idle_instruction(Arch::Aarch64) == IdleInstruction::WaitForEvent,
        forall|a: Arch, b: Arch|
            spec_idle_instruction(a) == spec_idle_instruction(b) ==> a == b,
{
}

/// `p` is a prefix of `s`.
pub open spec fn is_prefix_of(p: Seq<char>, s: Seq<char>) -> bool {
    p.len() <= s.len() && s.subrange(0, p.len() as int) == p
}

/// Prefix test over string slices.
pub fn str_starts_with(s: &str, p: &str) -> (r: bool)
    ensures
        r == is_prefix_of(p@, s@),
{
    let sl = s.unicode_len();
    let pl = p.unicode_len();
    if pl > sl {
        return false;
    }
    let mut i: usize = 0;
    while i < pl
        invariant
            i <= pl,
            pl == p@.len(),
            sl == s@.len(),
            pl <= sl,
            forall|j: int| 0 <= j < i ==> s@[j] == p@[j],
        decreases pl - i,
    {
        if s.get_char(i) != p.get_char(i) {
            proof {
                assert(!is_prefix_of(p@, s@)) by {
                    if is_prefix_of(p@, s@) {
                        assert(s@.subrange(0, p@.len() as int)[i as int] == s@[i as int]);
                    }
                }
            }
            return false;
        }
        i += 1;
    }
    proof {
        assert(s@.subrange(0, p@.len() as int) =~= p@);
    }
    true
}

/// The architecture family named by a target descriptor, if any. A descriptor
/// names a family by carrying the family's name as a prefix, as target triples
/// do; every other descriptor has no mapping.
pub open spec fn spec_parse_descriptor(s: Seq<char>) -> Option<Arch> {
    if is_prefix_of("x86_64"@, s) {
        Some(Arch::X8664)
    } else if is_prefix_of("aarch64"@, s) {
        Some(Arch::Aarch64)
    } else {
        None
    }
}

/// Parses a target architecture descriptor into the supported family it
/// names, or `None` for a descriptor with no mapping.
pub fn parse_descriptor(s: &str) -> (r: Option<Arch>)
    ensures
        r == spec_parse_descriptor(s@),
{
    if str_starts_with(s, "x86_64") {
        Some(Arch::X8664)
    } else if str_starts_with(s, "aarch64") {
        Some(Arch::Aarch64)
    } else {
        None
    }
}

} // verus!
