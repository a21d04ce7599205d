use bootstage::arch::{parse_descriptor, Arch};
use bootstage::orchestrator::{
    conclude_build, plan_build, watched_sources, BuildErrorKind, LinkerDirective, ToolExit,
};
use bootstage::toolchain::{select_for_descriptor, select_toolchain};

#[test]
fn toolchain_for_x86_64_family() {
    let t = select_toolchain(Arch::X8664);
    assert_eq!(t.tool, "nasm");
    assert_eq!(t.flags, vec!["-f", "win64", "-g", "-o"]);
    assert_eq!(t.source, "asm/x86_64/entry.asm");
}

#[test]
fn toolchain_for_aarch64_family() {
    let t = select_toolchain(Arch::Aarch64);
    assert_eq!(t.tool, "clang");
    assert_eq!(t.flags, vec!["-c", "-target", "aarch64-windows", "-g", "-o"]);
    assert_eq!(t.source, "asm/aarch64/entry.S");
}

#[test]
fn descriptor_with_x86_64_prefix_is_supported() {
    assert_eq!(parse_descriptor("x86_64-unknown-uefi"), Some(Arch::X8664));
    assert_eq!(parse_descriptor("x86_64-pc-windows-msvc"), Some(Arch::X8664));
    assert_eq!(parse_descriptor("x86_64"), Some(Arch::X8664));
}

#[test]
fn descriptor_with_aarch64_prefix_is_supported() {
    assert_eq!(parse_descriptor("aarch64-pc-windows-msvc"), Some(Arch::Aarch64));
    assert_eq!(parse_descriptor("aarch64"), Some(Arch::Aarch64));
}

#[test]
fn unrecognized_descriptors_have_no_mapping() {
    assert_eq!(parse_descriptor("riscv64gc-unknown-none-elf"), None);
    assert_eq!(parse_descriptor(""), None);
    assert_eq!(parse_descriptor("x86_6"), None);
    assert_eq!(parse_descriptor("arm-unknown-linux-gnueabi"), None);
}

#[test]
fn selector_returns_mapping_exactly_for_supported_descriptors() {
    let t = select_for_descriptor("x86_64-unknown-uefi").unwrap();
    assert!(!t.tool.is_empty());
    assert!(!t.flags.is_empty());
    assert!(!t.source.is_empty());
    let t = select_for_descriptor("aarch64-pc-windows-msvc").unwrap();
    assert!(!t.tool.is_empty());
    assert!(!t.flags.is_empty());
    assert!(!t.source.is_empty());
    assert!(select_for_descriptor("riscv64gc-unknown-none-elf").is_none());
}

#[test]
fn plan_uses_fresh_output_path_in_out_dir() {
    let inv = plan_build("x86_64-unknown-uefi", "build/out").unwrap();
    assert_eq!(inv.tool, "nasm");
    assert_eq!(inv.output, "build/out/entry_x86_64.obj");
    assert_eq!(inv.source, "asm/x86_64/entry.asm");
}

#[test]
fn no_plan_means_no_subprocess_for_unsupported_target() {
    assert!(plan_build("riscv64gc-unknown-none-elf", "build/out").is_none());
    assert!(plan_build("powerpc64-unknown-linux-gnu", "o").is_none());
}

#[test]
fn successful_exit_emits_exactly_two_directives_in_order() {
    let inv = plan_build("x86_64-unknown-uefi", "out").unwrap();
    let ds = conclude_build(&inv, ToolExit::Exited { code: 0 }).unwrap();
    assert_eq!(ds.len(), 2);
    assert_eq!(ds[0], LinkerDirective::IncludeObject { path: inv.output.clone() });
    assert_eq!(ds[1], LinkerDirective::EntrySymbol { symbol: "_start".to_owned() });
}

#[test]
fn nonzero_exit_aborts_with_no_directives() {
    let inv = plan_build("x86_64-unknown-uefi", "out").unwrap();
    let e = conclude_build(&inv, ToolExit::Exited { code: 2 }).unwrap_err();
    assert_eq!(e.tool, "nasm");
    assert_eq!(e.source, "asm/x86_64/entry.asm");
    assert_eq!(e.kind, BuildErrorKind::ToolFailed { code: 2 });
}

#[test]
fn spawn_failure_aborts_with_no_directives() {
    let inv = plan_build("aarch64-pc-windows-msvc", "out").unwrap();
    let e = conclude_build(&inv, ToolExit::SpawnFailed).unwrap_err();
    assert_eq!(e.tool, "clang");
    assert_eq!(e.source, "asm/aarch64/entry.S");
    assert_eq!(e.kind, BuildErrorKind::SpawnFailed);
}

#[test]
fn build_for_x86_64_like_succeeds_end_to_end() {
    // One invocation planned, so one object produced, and two directives.
    let inv = plan_build("x86_64-unknown-uefi", "scratch").unwrap();
    assert_eq!(inv.tool, "nasm");
    assert_eq!(inv.output, "scratch/entry_x86_64.obj");
    let ds = conclude_build(&inv, ToolExit::Exited { code: 0 }).unwrap();
    assert_eq!(ds.len(), 2);
    assert!(matches!(&ds[0], LinkerDirective::IncludeObject { path } if path == &inv.output));
    assert!(matches!(&ds[1], LinkerDirective::EntrySymbol { symbol } if symbol == "_start"));
}

#[test]
fn build_for_aarch64_like_succeeds_via_alternate_tool() {
    let inv = plan_build("aarch64-pc-windows-msvc", "scratch").unwrap();
    assert_eq!(inv.tool, "clang");
    assert_eq!(inv.output, "scratch/entry_aarch64.obj");
    let ds = conclude_build(&inv, ToolExit::Exited { code: 0 }).unwrap();
    assert_eq!(ds.len(), 2);
    assert!(matches!(&ds[0], LinkerDirective::IncludeObject { path } if path == &inv.output));
    assert!(matches!(&ds[1], LinkerDirective::EntrySymbol { symbol } if symbol == "_start"));
}

#[test]
fn build_for_unmapped_architecture_is_a_no_op_not_a_failure() {
    // No plan: zero objects produced, zero directives emitted, and no error.
    let plan = plan_build("riscv64gc-unknown-none-elf", "scratch");
    assert!(plan.is_none());
}

#[test]
fn build_with_failing_tool_aborts_with_zero_directives() {
    let inv = plan_build("x86_64-unknown-uefi", "scratch").unwrap();
    let r = conclude_build(&inv, ToolExit::Exited { code: 1 });
    let e = r.unwrap_err();
    assert_eq!(e.tool, "nasm");
    assert_eq!(e.kind, BuildErrorKind::ToolFailed { code: 1 });
}

#[test]
fn veneer_sources_are_build_invalidating_inputs() {
    let ws = watched_sources();
    assert_eq!(ws, vec!["asm/x86_64/entry.asm", "asm/aarch64/entry.S"]);
}
