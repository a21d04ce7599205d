//! Boot entry and build orchestration for the earliest boot-handoff layer.
//!
//! The library models the build-time machinery that wires an architecture's
//! entry veneer into a boot image (toolchain selection, tool invocation
//! planning, linker directive emission) and the small run-time state machine
//! the veneer participates in (firmware entry, stage dispatch, and the
//! terminal halt safety net).

pub mod arch;
pub mod boot;
pub mod orchestrator;
pub mod toolchain;
