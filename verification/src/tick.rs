//! Tick driver.
//!
//! The host hands over a frozen snapshot of every owned entity once per
//! tick; the driver maps each to its decision and hands the decisions back,
//! structures first, then creeps.  Every entity's decision is a function of
//! its own snapshot alone, so no entity's outcome depends on the order its
//! peers are processed in, and one anomalous entity can never block the
//! rest of the colony's tick.

use vstd::prelude::*;

use crate::creep::CreepDecision;
use crate::creep::WorldView;
use crate::creep::run_creep;
use crate::creep::spec_job_of_memory;
use crate::creep::spec_step;
use crate::codec::spec_decode_creep;
use crate::structures::StructureDecision;
use crate::structures::StructureView;
use crate::structures::run_structure;
use crate::structures::spec_structure_decision_ok;

verus! {

/// One owned creep as observed this tick: its raw persisted blob and the
/// world observations its state machine may consult.
pub struct CreepInput {
    pub raw_memory: Vec<u8>,
    pub world: WorldView,
}

/// The frozen snapshot of one tick: every owned structure, every owned creep.
pub struct TickInput {
    pub structures: Vec<StructureView>,
    pub creeps: Vec<CreepInput>,
}

/// Every decision of one tick, in the snapshot's order: structures first,
/// then creeps.
pub struct TickOutput {
    pub structures: Vec<StructureDecision>,
    pub creeps: Vec<CreepDecision>,
}

/// The decision owed to one creep snapshot.
pub open spec fn spec_creep_decision_of(c: CreepInput) -> CreepDecision {
    spec_step(spec_job_of_memory(spec_decode_creep(c.raw_memory@)), c.world)
}

/// Runs every structure's tick, one decision per structure, in order.
pub fn run_structures(vs: &Vec<StructureView>) -> (ds: Vec<StructureDecision>)
    ensures
        ds@.len() == vs@.len(),
        forall|i: int|
            0 <= i < vs@.len() ==> #[trigger] spec_structure_decision_ok(vs@[i], ds@[i]),
{
    let mut ds: Vec<StructureDecision> = Vec::new();
    let mut i: usize = 0;
    while i < vs.len()
        invariant
            i <= vs@.len(),
            ds@.len() == i,
            forall|j: int|
                0 <= j < i ==> #[trigger] spec_structure_decision_ok(vs@[j], ds@[j]),
        decreases vs@.len() - i,
    {
        let d = run_structure(&vs[i]);
        ds.push(d);
        i = i + 1;
    }
    ds
}

/// Runs every creep's tick, one decision per creep, in order.
pub fn run_creeps(cs: &Vec<CreepInput>) -> (ds: Vec<CreepDecision>)
    ensures
        ds@.len() == cs@.len(),
        forall|i: int| 0 <= i < cs@.len() ==> ds@[i] == spec_creep_decision_of(#[trigger] cs@[i]),
{
    let mut ds: Vec<CreepDecision> = Vec::new();
    let mut i: usize = 0;
    while i < cs.len()
        invariant
            i <= cs@.len(),
            ds@.len() == i,
            forall|j: int| 0 <= j < i ==> ds@[j] == spec_creep_decision_of(#[trigger] cs@[j]),
        decreases cs@.len() - i,
    {
        let d = run_creep(&cs[i].raw_memory, &cs[i].world);
        ds.push(d);
        i = i + 1;
    }
    ds
}

/// Runs one whole tick over the snapshot: structures before creeps, each
/// entity independent of its peers.
pub fn run_tick(input: &TickInput) -> (out: TickOutput)
    ensures
        out.structures@.len() == input.structures@.len(),
        forall|i: int|
            0 <= i < input.structures@.len() ==> #[trigger] spec_structure_decision_ok(
                input.structures@[i],
                out.structures@[i],
            ),
        out.creeps@.len() == input.creeps@.len(),
        forall|i: int|
            0 <= i < input.creeps@.len() ==> out.creeps@[i] == spec_creep_decision_of(
                #[trigger] input.creeps@[i],
            ),
{
    let structures = run_structures(&input.structures);
    let creeps = run_creeps(&input.creeps);
    TickOutput { structures, creeps }
}

} // verus!
