//! The run-time boot handoff, modelled as a small state machine: firmware
//! enters the veneer with its handle bundle, the veneer dispatches the stage
//! entry with the bundle forwarded unmodified, and every unrecoverable
//! condition collapses into the terminal halt safety net.

use vstd::prelude::*;

use crate::arch::{idle_instruction, spec_idle_instruction, Arch, IdleInstruction};

verus! {

/// The fixed pair of values firmware passes to the entry point: an
/// integer-sized image handle and an opaque address of a system/service
/// table. Neither is interpreted at this layer; both are forwarded
/// faithfully.
#[derive(Clone, Copy, PartialEq, Eq, Structural, Debug)]
pub struct FirmwareHandles {
    /// The numeric image/boot handle.
    pub image_handle: usize,
    /// The address of the system/service table, kept opaque.
    pub system_table: usize,
}

/// The states of the boot handoff. `Halted` is terminal: no event leads out
/// of it.
#[derive(Clone, Copy, PartialEq, Eq, Structural, Debug)]
pub enum BootState {
    /// Firmware still owns the processor.
    NotStarted,
    /// The entry veneer has received control with the firmware handles.
    VeneerEntered { handles: FirmwareHandles },
    /// The stage entry has been invoked with the forwarded handles.
    StageDispatched { handles: FirmwareHandles },
    /// The halt safety net: the processor repeats `idle` forever.
    Halted { idle: IdleInstruction },
}

/// The events the boot handoff reacts to.
#[derive(Clone, Copy, PartialEq, Eq, Structural, Debug)]
pub enum BootEvent {
    /// Firmware calls the veneer's entry label with its handle bundle.
    FirmwareEntry { handles: FirmwareHandles },
    /// The veneer transfers control to the stage entry.
    StageDispatch,
    /// An unrecoverable condition (a panic, or nothing further to do).
    Unrecoverable,
}

/// The boot transition relation for a build targeting family `a`. The two
/// expected transitions advance the handoff and forward the handles
/// unmodified; everything else — an unrecoverable condition, or an event the
/// current state does not expect — collapses into the halt safety net with
/// the family's own idle instruction, and the net absorbs every further
/// event.
pub open spec fn spec_step(s: BootState, e: BootEvent, a: Arch) -> BootState {
    match (s, e) {
        (BootState::NotStarted, BootEvent::FirmwareEntry { handles }) => BootState::VeneerEntered {
            handles,
        },
        (BootState::VeneerEntered { handles }, BootEvent::StageDispatch) => BootState::StageDispatched {
            handles,
        },
        (BootState::Halted { idle }, _) => BootState::Halted { idle },
        _ => BootState::Halted { idle: spec_idle_instruction(a) },
    }
}

/// Advances the boot handoff by one event.
pub fn step(s: BootState, e: BootEvent, a: Arch) -> (r: BootState)
    ensures
        r == spec_step(s, e, a),
{
    match (s, e) {
        (BootState::NotStarted, BootEvent::FirmwareEntry { handles }) => BootState::VeneerEntered {
            handles,
        },
        (BootState::VeneerEntered { handles }, BootEvent::StageDispatch) => BootState::StageDispatched {
            handles,
        },
        (BootState::Halted { idle }, _) => BootState::Halted { idle },
        _ => BootState::Halted { idle: idle_instruction(a) },
    }
}

/// The veneer receives control from firmware: the handoff leaves
/// `NotStarted` carrying exactly the supplied handle and table address.
pub fn veneer_enter(image_handle: usize, system_table: usize, a: Arch) -> (r: BootState)
    ensures
        r == (BootState::VeneerEntered {
            handles: FirmwareHandles { image_handle, system_table },
        }),
{
    step(
        BootState::NotStarted,
        BootEvent::FirmwareEntry { handles: FirmwareHandles { image_handle, system_table } },
        a,
    )
}

/// The stage entry receives the forwarded handles; with nothing further to
/// do at this layer, the handoff enters the halt safety net of family `a`.
pub fn stage_entry_step(handles: FirmwareHandles, a: Arch) -> (r: BootState)
    ensures
        r == (BootState::Halted { idle: spec_idle_instruction(a) }),
{
    step(BootState::StageDispatched { handles }, BootEvent::Unrecoverable, a)
}

/// Forwarding fidelity: once firmware enters the veneer with handles `h`,
/// the stage entry is dispatched with the same `h`, unmodified — the handles
/// pass through both transitions untouched.
pub proof fn lemma_forwarding_fidelity(h: FirmwareHandles, a: Arch)
    ensures
        ({
            let entered = spec_step(BootState::NotStarted, BootEvent::FirmwareEntry { handles: h }, a);
            let dispatched = spec_step(entered, BootEvent::StageDispatch, a);
            entered == (BootState::VeneerEntered { handles: h }) && dispatched
                == (BootState::StageDispatched { handles: h })
        }),
{
}

/// The stage entry never returns: for every handle bundle and every event,
/// the handoff leaves `StageDispatched` only into the halt safety net, and
/// the net is absorbing — no event leads out of `Halted`.
pub proof fn lemma_stage_entry_never_returns(h: FirmwareHandles, a: Arch)
    ensures
        forall|e: BootEvent|
            spec_step(BootState::StageDispatched { handles: h }, e, a) == (BootState::Halted {
                idle: spec_idle_instruction(a),
            }),
        forall|e: BootEvent, i: IdleInstruction|
            spec_step(BootState::Halted { idle: i }, e, a) == (BootState::Halted { idle: i }),
{
}

/// The state of the handoff after reacting to the whole event sequence
/// `es`, in order, starting from `s`.
pub open spec fn spec_run(s: BootState, es: Seq<BootEvent>, a: Arch) -> BootState
    decreases es.len(),
{
    if es.len() == 0 {
        s
    } else {
        spec_run(spec_step(s, es[0], a), es.subrange(1, es.len() as int), a)
    }
}

/// Once halted, always halted: a halted state is a fixed point of every
/// event sequence, so no execution ever progresses past the halt loop.
pub proof fn lemma_halted_forever(idle: IdleInstruction, es: Seq<BootEvent>, a: Arch)
    ensures
        spec_run(BootState::Halted { idle }, es, a) == (BootState::Halted { idle }),
    decreases es.len(),
{
    if es.len() > 0 {
        lemma_halted_forever(idle, es.subrange(1, es.len() as int), a);
    }
}

/// The halt safety net keeps the idle instruction it was entered with: a
/// build for family `a` parks the processor on `a`'s own idle instruction
/// and never switches to another family's.
pub proof fn lemma_halt_is_terminal_and_architecture_tagged(a: Arch, e: BootEvent)
    ensures
        spec_step(BootState::Halted { idle: spec_idle_instruction(a) }, e, a) == (BootState::Halted {
            idle: spec_idle_instruction(a),
        }),
{
}

} // verus!
