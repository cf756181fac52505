//! Structure behavior dispatcher.
//!
//! Routes each owned structure, by its runtime type tag, to its behavior:
//! spawners run the spawner controller, controllers and extensions are
//! recognized no-ops today, and an unrecognized type earns a warning and is
//! skipped for the tick.  The dispatch is a closed match, so adding a
//! behavior for a new structure type is a single additive arm.

use vstd::prelude::*;

use crate::spawner::SpawnerStep;
use crate::spawner::run_spawn;
use crate::spawner::spec_spawn_step_ok;

verus! {

/// One owned structure as observed this tick, already routed by type tag.
/// Spawners carry the inputs their controller needs; the other recognized
/// types carry nothing because their behavior reads nothing.
pub enum StructureView {
    /// A spawner: its name, its raw persisted blob, its stored energy.
    Spawn { name: Vec<u8>, memory: Vec<u8>, energy: u32 },
    /// A room controller; reserved for future auto-upgrade-assist behavior.
    Controller,
    /// A passive storage extension.
    Extension,
    /// A structure type this engine has no behavior for.
    Unrecognized,
}

/// The outcome of one structure's tick.
pub enum StructureDecision {
    /// What the spawner controller decided.
    Spawner(SpawnerStep),
    /// Recognized structure with nothing to do this tick.
    Quiet,
    /// Unrecognized type: log a warning, skip the structure this tick.
    WarnUnrecognized,
}

/// The full contract of one structure's tick: pins [`run_structure`]'s
/// result down for every input.
pub open spec fn spec_structure_decision_ok(v: StructureView, d: StructureDecision) -> bool {
    match v {
        StructureView::Spawn { name, memory, energy } => {
            &&& d matches StructureDecision::Spawner(step)
            &&& spec_spawn_step_ok(name@, memory@, energy, step)
        },
        StructureView::Controller => d is Quiet,
        StructureView::Extension => d is Quiet,
        StructureView::Unrecognized => d is WarnUnrecognized,
    }
}

/// Runs one structure's tick by dispatching on its type.
pub fn run_structure(v: &StructureView) -> (d: StructureDecision)
    ensures
        spec_structure_decision_ok(*v, d),
{
    match v {
        StructureView::Spawn { name, memory, energy } => StructureDecision::Spawner(
            run_spawn(name, memory, *energy),
        ),
        StructureView::Controller => StructureDecision::Quiet,
        StructureView::Extension => StructureDecision::Quiet,
        StructureView::Unrecognized => StructureDecision::WarnUnrecognized,
    }
}

} // verus!
