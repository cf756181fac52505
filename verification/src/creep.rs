//! The per-creep job state machine.
//!
//! Each tick, a creep's decision is a pure function of its persisted job and
//! a frozen snapshot of this tick's world observations ([`WorldView`]).  The
//! decision names at most one world action to attempt and at most one memory
//! write; the host shim performs both.  Live handles never cross this
//! boundary: the snapshot carries only plain values, so a stale handle
//! cannot survive into the next tick by construction.
//!
//! Transitions: every `MoveTo*` job walks toward its target and becomes the
//! paired execute job on arrival.  `HarvestSource` harvests until full, then
//! picks the next task in the fixed priority order construction site, then
//! own spawn, then controller.  The transfer jobs hand their load over and
//! return to harvesting the room's first source.  Any job whose stored
//! target no longer resolves falls back to `Idle` — an expected, frequent
//! condition, never an error.

use vstd::prelude::*;

use crate::ids::ObjectId;
use crate::memory::CreepMemory;
use crate::memory::SimpleJob;
use crate::memory::spec_job_target;
use crate::codec::decode_creep_memory;
use crate::codec::spec_decode_creep;

verus! {

/// What a creep observes this tick.  The host resolves the job's stored
/// target before calling the state machine; `target_resolves` and
/// `near_target` report the outcome and are meaningful only for jobs that
/// store a target.  The remaining fields are the room queries the machine
/// may consult, first match each.
#[derive(Clone, Copy, Debug)]
pub struct WorldView {
    /// The job's stored target resolved to a live object this tick.
    pub target_resolves: bool,
    /// The creep stands adjacent to the resolved target.
    pub near_target: bool,
    /// Free energy capacity left in the creep's store.
    pub free_capacity: u32,
    /// First owned construction site in the creep's room, if any.
    pub first_construction_site: Option<ObjectId>,
    /// First owned spawn in the creep's room, if any.
    pub first_spawn: Option<ObjectId>,
    /// The room's controller, if any.
    pub controller: Option<ObjectId>,
    /// First energy source in the creep's room, if any.
    pub first_source: Option<ObjectId>,
}

/// A world-mutating action to attempt this tick; at most one per creep per
/// tick, carried by [`CreepDecision`].
#[derive(Clone, Copy, Debug, PartialEq, Eq, Structural)]
pub enum CreepAction {
    MoveTowards(ObjectId),
    Harvest(ObjectId),
    Transfer(ObjectId),
    Build(ObjectId),
    Upgrade(ObjectId),
}

/// The outcome of one creep's tick: at most one action, at most one memory
/// write (`next_job` of `None` leaves the persisted memory untouched), and
/// whether a resolution failure deserves a warning in the log.
#[derive(Clone, Copy, Debug)]
pub struct CreepDecision {
    pub action: Option<CreepAction>,
    pub next_job: Option<SimpleJob>,
    pub warned: bool,
}

/// Where a full creep goes next: construction site first, then own spawn,
/// then controller; `Idle` if the room offers none of them.
pub open spec fn spec_next_after_full(w: WorldView) -> SimpleJob {
    match w.first_construction_site {
        Some(site) => SimpleJob::MoveToConstructionSite(site),
        None => match w.first_spawn {
            Some(spawn) => SimpleJob::MoveToSpawn(spawn),
            None => match w.controller {
                Some(c) => SimpleJob::MoveToController(c),
                None => SimpleJob::Idle,
            },
        },
    }
}

/// A `MoveTo*` job: fall back to `Idle` (with a warning) on resolution
/// failure, become the paired execute job on arrival, otherwise keep walking.
pub open spec fn spec_move_step(target: ObjectId, arrived: SimpleJob, w: WorldView) -> CreepDecision {
    if !w.target_resolves {
        CreepDecision { action: None, next_job: Some(SimpleJob::Idle), warned: true }
    } else if w.near_target {
        CreepDecision { action: None, next_job: Some(arrived), warned: false }
    } else {
        CreepDecision {
            action: Some(CreepAction::MoveTowards(target)),
            next_job: None,
            warned: false,
        }
    }
}

/// `HarvestSource`: harvest while there is room to carry more; once full,
/// move on to the next task; if the source is gone or the creep is not
/// beside it, fall back to `Idle`.
pub open spec fn spec_harvest_step(source: ObjectId, w: WorldView) -> CreepDecision {
    if !w.target_resolves {
        CreepDecision { action: None, next_job: Some(SimpleJob::Idle), warned: true }
    } else if !w.near_target {
        CreepDecision { action: None, next_job: Some(SimpleJob::Idle), warned: false }
    } else if w.free_capacity > 0 {
        CreepDecision { action: Some(CreepAction::Harvest(source)), next_job: None, warned: false }
    } else {
        CreepDecision { action: None, next_job: Some(spec_next_after_full(w)), warned: false }
    }
}

/// An on-site execute job (`ConstructSite`, `UpgradeController`): perform
/// the action while beside the target, mirror `HarvestSource` otherwise.
pub open spec fn spec_work_step(act: CreepAction, w: WorldView) -> CreepDecision {
    if !w.target_resolves {
        CreepDecision { action: None, next_job: Some(SimpleJob::Idle), warned: true }
    } else if w.near_target {
        CreepDecision { action: Some(act), next_job: None, warned: false }
    } else {
        CreepDecision { action: None, next_job: Some(SimpleJob::Idle), warned: false }
    }
}

/// A transfer job: hand the load over when adjacent and go back to
/// harvesting the room's first source; keep waiting otherwise.
pub open spec fn spec_transfer_step(target: ObjectId, w: WorldView) -> CreepDecision {
    if !w.target_resolves {
        CreepDecision { action: None, next_job: Some(SimpleJob::Idle), warned: true }
    } else if w.near_target {
        CreepDecision {
            action: Some(CreepAction::Transfer(target)),
            next_job: Some(
                match w.first_source {
                    Some(s) => SimpleJob::HarvestSource(s),
                    None => SimpleJob::Idle,
                },
            ),
            warned: false,
        }
    } else {
        CreepDecision { action: None, next_job: None, warned: false }
    }
}

/// The whole state machine: what a creep with the given job does under the
/// given observations.
pub open spec fn spec_step(job: SimpleJob, w: WorldView) -> CreepDecision {
    match job {
        SimpleJob::Idle => CreepDecision { action: None, next_job: None, warned: false },
        SimpleJob::MoveToSource(id) => spec_move_step(id, SimpleJob::HarvestSource(id), w),
        SimpleJob::MoveToController(id) => spec_move_step(id, SimpleJob::UpgradeController(id), w),
        SimpleJob::MoveToSpawn(id) => spec_move_step(id, SimpleJob::TransferToSpawn(id), w),
        SimpleJob::MoveToExtension(id) => spec_move_step(id, SimpleJob::TransferToExtension(id), w),
        SimpleJob::MoveToConstructionSite(id) => spec_move_step(id, SimpleJob::ConstructSite(id), w),
        SimpleJob::HarvestSource(id) => spec_harvest_step(id, w),
        SimpleJob::ConstructSite(id) => spec_work_step(CreepAction::Build(id), w),
        SimpleJob::UpgradeController(id) => spec_work_step(CreepAction::Upgrade(id), w),
        SimpleJob::TransferToSpawn(id) => spec_transfer_step(id, w),
        SimpleJob::TransferToExtension(id) => spec_transfer_step(id, w),
    }
}

/// The job persisted after one tick: the written one, or the old one when
/// the decision writes nothing.
pub open spec fn spec_job_after(job: SimpleJob, w: WorldView) -> SimpleJob {
    match spec_step(job, w).next_job {
        Some(j) => j,
        None => job,
    }
}

/// The job persisted after a whole run of ticks, first observation first.
pub open spec fn spec_job_after_many(job: SimpleJob, ws: Seq<WorldView>) -> SimpleJob
    decreases ws.len(),
{
    if ws.len() == 0 {
        job
    } else {
        spec_job_after_many(spec_job_after(job, ws[0]), ws.subrange(1, ws.len() as int))
    }
}

/// The creep's job as stored in its memory.
pub open spec fn spec_job_of_memory(m: CreepMemory) -> SimpleJob {
    match m {
        CreepMemory::SimpleWorker(j) => j,
    }
}

/// Runs one tick of the state machine for a creep whose memory already
/// decoded to the given job.
pub fn run_simple_worker_with_job(job: &SimpleJob, w: &WorldView) -> (d: CreepDecision)
    ensures
        d == spec_step(*job, *w),
{
    match job {
        SimpleJob::Idle => CreepDecision { action: None, next_job: None, warned: false },
        SimpleJob::MoveToSource(id) => move_step(*id, SimpleJob::HarvestSource(*id), w),
        SimpleJob::MoveToController(id) => move_step(*id, SimpleJob::UpgradeController(*id), w),
        SimpleJob::MoveToSpawn(id) => move_step(*id, SimpleJob::TransferToSpawn(*id), w),
        SimpleJob::MoveToExtension(id) => move_step(*id, SimpleJob::TransferToExtension(*id), w),
        SimpleJob::MoveToConstructionSite(id) => move_step(*id, SimpleJob::ConstructSite(*id), w),
        SimpleJob::HarvestSource(id) => harvest_step(*id, w),
        SimpleJob::ConstructSite(id) => work_step(CreepAction::Build(*id), w),
        SimpleJob::UpgradeController(id) => work_step(CreepAction::Upgrade(*id), w),
        SimpleJob::TransferToSpawn(id) => transfer_step(*id, w),
        SimpleJob::TransferToExtension(id) => transfer_step(*id, w),
    }
}

fn move_step(target: ObjectId, arrived: SimpleJob, w: &WorldView) -> (d: CreepDecision)
    ensures
        d == spec_move_step(target, arrived, *w),
{
    if !w.target_resolves {
        CreepDecision { action: None, next_job: Some(SimpleJob::Idle), warned: true }
    } else if w.near_target {
        CreepDecision { action: None, next_job: Some(arrived), warned: false }
    } else {
        CreepDecision {
            action: Some(CreepAction::MoveTowards(target)),
            next_job: None,
            warned: false,
        }
    }
}

fn harvest_step(source: ObjectId, w: &WorldView) -> (d: CreepDecision)
    ensures
        d == spec_harvest_step(source, *w),
{
    if !w.target_resolves {
        CreepDecision { action: None, next_job: Some(SimpleJob::Idle), warned: true }
    } else if !w.near_target {
        CreepDecision { action: None, next_job: Some(SimpleJob::Idle), warned: false }
    } else if w.free_capacity > 0 {
        CreepDecision { action: Some(CreepAction::Harvest(source)), next_job: None, warned: false }
    } else {
        let next = if let Some(site) = w.first_construction_site {
            SimpleJob::MoveToConstructionSite(site)
        } else if let Some(spawn) = w.first_spawn {
            SimpleJob::MoveToSpawn(spawn)
        } else if let Some(c) = w.controller {
            SimpleJob::MoveToController(c)
        } else {
            SimpleJob::Idle
        };
        CreepDecision { action: None, next_job: Some(next), warned: false }
    }
}

fn work_step(act: CreepAction, w: &WorldView) -> (d: CreepDecision)
    ensures
        d == spec_work_step(act, *w),
{
    if !w.target_resolves {
        CreepDecision { action: None, next_job: Some(SimpleJob::Idle), warned: true }
    } else if w.near_target {
        CreepDecision { action: Some(act), next_job: None, warned: false }
    } else {
        CreepDecision { action: None, next_job: Some(SimpleJob::Idle), warned: false }
    }
}

fn transfer_step(target: ObjectId, w: &WorldView) -> (d: CreepDecision)
    ensures
        d == spec_transfer_step(target, *w),
{
    if !w.target_resolves {
        CreepDecision { action: None, next_job: Some(SimpleJob::Idle), warned: true }
    } else if w.near_target {
        let next = match w.first_source {
            Some(s) => SimpleJob::HarvestSource(s),
            None => SimpleJob::Idle,
        };
        CreepDecision {
            action: Some(CreepAction::Transfer(target)),
            next_job: Some(next),
            warned: false,
        }
    } else {
        CreepDecision { action: None, next_job: None, warned: false }
    }
}

/// Runs one tick for a creep from its raw persisted blob: decode (malformed
/// blobs default to an idle worker), then step the state machine.
pub fn run_creep(raw: &Vec<u8>, w: &WorldView) -> (d: CreepDecision)
    ensures
        d == spec_step(spec_job_of_memory(spec_decode_creep(raw@)), *w),
{
    let mem = decode_creep_memory(raw);
    let CreepMemory::SimpleWorker(job) = mem;
    run_simple_worker_with_job(&job, w)
}

/// Number of world actions a decision attempts.
pub open spec fn spec_action_count(d: CreepDecision) -> nat {
    if d.action is Some {
        1
    } else {
        0
    }
}

/// Law: a creep attempts at most one world action per tick, whatever its
/// job and whatever it observes; pure transitions attempt none.  Moreover an
/// action is only ever attempted by a job that stores a target, and only in
/// a tick in which that target resolved.
pub proof fn lemma_at_most_one_action(job: SimpleJob, w: WorldView)
    ensures
        spec_action_count(spec_step(job, w)) <= 1,
        spec_step(job, w).action is Some ==> spec_job_target(job) is Some,
        spec_step(job, w).action is Some ==> w.target_resolves,
{
}

/// Law: an idle creep with unchanged memory stays idle for any run of
/// ticks, however long, absent external reassignment: idling attempts no
/// action and writes no memory.
pub proof fn lemma_idle_idempotent(ws: Seq<WorldView>)
    ensures
        spec_job_after_many(SimpleJob::Idle, ws) == SimpleJob::Idle,
        forall|w: WorldView| #[trigger] spec_step(SimpleJob::Idle, w) == (CreepDecision {
            action: None,
            next_job: None,
            warned: false,
        }),
    decreases ws.len(),
{
    if ws.len() > 0 {
        lemma_idle_idempotent(ws.subrange(1, ws.len() as int));
    }
}

/// Law: for every job that stores a target identifier, resolution failure
/// degrades the creep to `Idle` this very tick — no action is attempted and
/// the fallback is persisted.
pub proof fn lemma_unresolved_target_falls_back(job: SimpleJob, w: WorldView)
    requires
        spec_job_target(job) is Some,
        !w.target_resolves,
    ensures
        spec_step(job, w).next_job == Some(SimpleJob::Idle),
        spec_step(job, w).action is None,
        spec_step(job, w).warned,
{
}

} // verus!
