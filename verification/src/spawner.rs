//! Spawner controller.
//!
//! Two-phase behavior.  Bootstrap: a spawner whose blob holds no role yet —
//! first observation, schema drift, a manual edit — is initialized with the
//! spawner role and a zero counter, whatever its name; the memory self-heals
//! rather than leaving the structure frozen.  Steady state: once the stored energy meets the
//! threshold, the spawner requests one new worker with a fixed loadout and
//! a name derived from its own name and the counter.  The engine is free to
//! reject the request (capacity, name collision); the verdict is applied
//! afterwards by [`confirm_spawn`], so a rejected tick is a no-op and the
//! spawner simply retries next tick.

use vstd::prelude::*;

use crate::memory::CreepMemory;
use crate::memory::SimpleJob;
use crate::memory::StructureMemory;
use crate::codec::decode_structure_memory;
use crate::codec::spec_decode_structure;
use crate::codec::spec_encode_structure;
use crate::codec::lemma_structure_memory_roundtrip;

verus! {

/// Stored energy a spawner needs before it requests a new worker.
pub const SPAWN_ENERGY_THRESHOLD: u32 = 200;

/// One body segment of a creep's fixed capability loadout.
#[derive(Clone, Copy, Debug, PartialEq, Eq, Structural)]
pub enum CreepPart {
    Move,
    Carry,
    Work,
}

/// A creep-creation request for the host to submit to the engine this tick.
pub struct SpawnRequest {
    /// Capability loadout of the new worker.
    pub parts: Vec<CreepPart>,
    /// Name of the new worker: the spawner's name, ".Simple.", the counter.
    pub name: Vec<u8>,
    /// The counter the name was derived from; [`confirm_spawn`] advances it.
    pub counter: i32,
    /// Initial persisted memory of the new worker.
    pub memory: CreepMemory,
}

/// What a spawner does this tick.
pub enum SpawnerStep {
    /// Submit a creation request to the engine.
    Request(SpawnRequest),
    /// Write the initial role memory; runs once per structure lifetime.
    Bootstrap(StructureMemory),
    /// Nothing this tick.
    Wait,
}

/// Decimal digits of `n`, most significant first, as ASCII bytes.
pub open spec fn spec_decimal(n: nat) -> Seq<u8>
    decreases n,
{
    if n < 10 {
        seq![(48 + n) as u8]
    } else {
        spec_decimal(n / 10) + seq![(48 + n % 10) as u8]
    }
}

/// ASCII rendering of a possibly negative counter.
pub open spec fn spec_decimal_signed(n: int) -> Seq<u8> {
    if n < 0 {
        seq![45u8] + spec_decimal((-n) as nat)
    } else {
        spec_decimal(n as nat)
    }
}

/// The separator between the spawner's name and the counter: ".Simple.".
pub open spec fn spec_simple_separator() -> Seq<u8> {
    seq![46u8, 83u8, 105u8, 109u8, 112u8, 108u8, 101u8, 46u8]
}

/// The name given to the worker numbered `n` by the named spawner.
pub open spec fn spec_worker_name(spawn_name: Seq<u8>, n: int) -> Seq<u8> {
    spawn_name + spec_simple_separator() + spec_decimal_signed(n)
}

/// Appends the decimal digits of `n`.
fn push_decimal(out: &mut Vec<u8>, n: u32)
    ensures
        final(out)@ == old(out)@ + spec_decimal(n as nat),
    decreases n,
{
    if n < 10 {
        out.push(48 + n as u8);
        proof {
            assert(out@ =~= old(out)@ + spec_decimal(n as nat));
        }
    } else {
        push_decimal(out, n / 10);
        out.push(48 + (n % 10) as u8);
        proof {
            assert(out@ =~= old(out)@ + spec_decimal(n as nat));
        }
    }
}

/// Appends a copy of `src`.
fn append_bytes(out: &mut Vec<u8>, src: &Vec<u8>)
    ensures
        final(out)@ == old(out)@ + src@,
{
    let mut i: usize = 0;
    while i < src.len()
        invariant
            i <= src@.len(),
            out@ == old(out)@ + src@.subrange(0, i as int),
        decreases src@.len() - i,
    {
        out.push(src[i]);
        proof {
            assert(out@ =~= old(out)@ + src@.subrange(0, (i + 1) as int));
        }
        i = i + 1;
    }
    proof {
        assert(src@.subrange(0, src@.len() as int) =~= src@);
    }
}

/// Builds the name of the worker numbered `n`: deterministic, so successive
/// workers of one spawner get distinct names.
pub fn worker_name(spawn_name: &Vec<u8>, n: i32) -> (r: Vec<u8>)
    ensures
        r@ == spec_worker_name(spawn_name@, n as int),
{
    let mut out: Vec<u8> = Vec::new();
    append_bytes(&mut out, spawn_name);
    out.push(46);
    out.push(83);
    out.push(105);
    out.push(109);
    out.push(112);
    out.push(108);
    out.push(101);
    out.push(46);
    proof {
        assert(out@ =~= spawn_name@ + spec_simple_separator());
    }
    if n < 0 {
        out.push(45);
        let mag: u32 = (-(n as i64)) as u32;
        push_decimal(&mut out, mag);
    } else {
        push_decimal(&mut out, n as u32);
    }
    proof {
        assert(out@ =~= spec_worker_name(spawn_name@, n as int));
    }
    out
}

/// The full contract of one spawner tick: pins [`run_spawn`]'s result down
/// for every input.
pub open spec fn spec_spawn_step_ok(
    name: Seq<u8>,
    raw: Seq<u8>,
    energy: u32,
    step: SpawnerStep,
) -> bool {
    match spec_decode_structure(raw) {
        Some(StructureMemory::GenericSpawner(n)) => if energy >= SPAWN_ENERGY_THRESHOLD {
            &&& step matches SpawnerStep::Request(req)
            &&& req.parts@ == seq![CreepPart::Move, CreepPart::Carry, CreepPart::Work]
            &&& req.name@ == spec_worker_name(name, n as int)
            &&& req.counter == n
            &&& req.memory == CreepMemory::SimpleWorker(SimpleJob::Idle)
        } else {
            step is Wait
        },
        None => step == SpawnerStep::Bootstrap(StructureMemory::GenericSpawner(0)),
    }
}

/// Runs one spawner tick from its name, raw persisted blob and stored
/// energy.  An absent or foreign blob takes the bootstrap path; a decoded
/// role takes the steady-state path.
pub fn run_spawn(name: &Vec<u8>, raw_memory: &Vec<u8>, energy: u32) -> (step: SpawnerStep)
    ensures
        spec_spawn_step_ok(name@, raw_memory@, energy, step),
{
    match decode_structure_memory(raw_memory) {
        Some(StructureMemory::GenericSpawner(n)) => {
            if energy >= SPAWN_ENERGY_THRESHOLD {
                let req_name = worker_name(name, n);
                let mut parts: Vec<CreepPart> = Vec::new();
                parts.push(CreepPart::Move);
                parts.push(CreepPart::Carry);
                parts.push(CreepPart::Work);
                proof {
                    assert(parts@ =~= seq![CreepPart::Move, CreepPart::Carry, CreepPart::Work]);
                }
                SpawnerStep::Request(
                    SpawnRequest {
                        parts,
                        name: req_name,
                        counter: n,
                        memory: CreepMemory::SimpleWorker(SimpleJob::Idle),
                    },
                )
            } else {
                SpawnerStep::Wait
            }
        },
        None => SpawnerStep::Bootstrap(StructureMemory::GenericSpawner(0)),
    }
}

/// Law: the bootstrap runs at most once per structure lifetime.  Once any
/// role has been written — by the bootstrap or by [`confirm_spawn`] — the
/// blob is a canonical encoding, every later tick decodes it, and the
/// spawner takes the steady-state path, never the bootstrap again.
pub proof fn lemma_bootstrap_runs_once(
    name: Seq<u8>,
    m: StructureMemory,
    energy: u32,
    step: SpawnerStep,
)
    requires
        spec_spawn_step_ok(name, spec_encode_structure(m), energy, step),
    ensures
        !(step is Bootstrap),
{
    lemma_structure_memory_roundtrip(m);
}

/// Applies the engine's verdict on a creation request.  Acceptance advances
/// the counter so the next worker gets a fresh name; rejection writes
/// nothing, leaving the spawner to retry next tick.
pub fn confirm_spawn(req: &SpawnRequest, accepted: bool) -> (r: Option<StructureMemory>)
    requires
        accepted ==> req.counter < i32::MAX,
    ensures
        accepted ==> r == Some(StructureMemory::GenericSpawner((req.counter + 1) as i32)),
        !accepted ==> r is None,
{
    if accepted {
        Some(StructureMemory::GenericSpawner(req.counter + 1))
    } else {
        None
    }
}

} // verus!
