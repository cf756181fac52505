//! The durable memory schema.
//!
//! Persisted memory is the only state channel that survives across ticks and
//! across full resets of the host process, so every durable intent of an
//! entity is one of the closed tagged variants below.  A job stores at most
//! one [`ObjectId`](crate::ids::ObjectId); it never stores a live handle,
//! which forces every consumer to re-resolve its target each tick.

use vstd::prelude::*;

use crate::ids::ObjectId;

verus! {

/// A creep's persisted intent.  Transitions are strictly sequential: each
/// tick a job either performs its action and stays, advances to exactly one
/// successor, or falls back to `Idle` when its target cannot be resolved.
#[derive(Clone, Copy, Debug, PartialEq, Eq, Structural)]
pub enum SimpleJob {
    MoveToSource(ObjectId),
    HarvestSource(ObjectId),
    MoveToController(ObjectId),
    UpgradeController(ObjectId),
    MoveToSpawn(ObjectId),
    TransferToSpawn(ObjectId),
    MoveToExtension(ObjectId),
    TransferToExtension(ObjectId),
    MoveToConstructionSite(ObjectId),
    ConstructSite(ObjectId),
    Idle,
}

/// Memory attached to a creep.
#[derive(Clone, Copy, Debug, PartialEq, Eq, Structural)]
pub enum CreepMemory {
    SimpleWorker(SimpleJob),
}

/// Memory attached to a structure.  The counter numbers the creeps the
/// spawner has created, so successive creeps get distinct names.
#[derive(Clone, Copy, Debug, PartialEq, Eq, Structural)]
pub enum StructureMemory {
    GenericSpawner(i32),
}

/// The target identifier a job stores, if it stores one.  `Idle` is the only
/// job without a target.
pub open spec fn spec_job_target(j: SimpleJob) -> Option<ObjectId> {
    match j {
        SimpleJob::MoveToSource(id) => Some(id),
        SimpleJob::HarvestSource(id) => Some(id),
        SimpleJob::MoveToController(id) => Some(id),
        SimpleJob::UpgradeController(id) => Some(id),
        SimpleJob::MoveToSpawn(id) => Some(id),
        SimpleJob::TransferToSpawn(id) => Some(id),
        SimpleJob::MoveToExtension(id) => Some(id),
        SimpleJob::TransferToExtension(id) => Some(id),
        SimpleJob::MoveToConstructionSite(id) => Some(id),
        SimpleJob::ConstructSite(id) => Some(id),
        SimpleJob::Idle => None,
    }
}

/// The target identifier the host must try to resolve before running a
/// creep's state machine this tick.
pub fn job_target(j: &SimpleJob) -> (r: Option<ObjectId>)
    ensures
        r == spec_job_target(*j),
{
    match j {
        SimpleJob::MoveToSource(id) => Some(*id),
        SimpleJob::HarvestSource(id) => Some(*id),
        SimpleJob::MoveToController(id) => Some(*id),
        SimpleJob::UpgradeController(id) => Some(*id),
        SimpleJob::MoveToSpawn(id) => Some(*id),
        SimpleJob::TransferToSpawn(id) => Some(*id),
        SimpleJob::MoveToExtension(id) => Some(*id),
        SimpleJob::TransferToExtension(id) => Some(*id),
        SimpleJob::MoveToConstructionSite(id) => Some(*id),
        SimpleJob::ConstructSite(id) => Some(*id),
        SimpleJob::Idle => None,
    }
}

} // verus!
