//! Durable memory codec.
//!
//! Converts between an entity's opaque persisted blob and the typed memory
//! of [`crate::memory`].  Decoding is total: a blob that is absent, foreign
//! or damaged never fails the calling tick, it yields the documented default
//! (`SimpleWorker(Idle)` for creeps, "no role assigned" — `None` — for
//! structures).  Encoding round-trips every variant losslessly, and only the
//! canonical encodings decode to anything but the default; both facts are
//! proved below ([`lemma_creep_memory_roundtrip`],
//! [`lemma_structure_memory_roundtrip`], [`lemma_creep_decode_canonical`],
//! [`lemma_structure_decode_canonical`]).
//!
//! Wire layout: a leading family tag (`1` for the single variant of each
//! family), then for creeps the job tag and, unless the job is `Idle`, the
//! 16-byte little-endian target identifier; for structures a sign byte and
//! the 4-byte little-endian magnitude of the spawner counter.

use vstd::prelude::*;

use crate::ids::ObjectId;
use crate::memory::CreepMemory;
use crate::memory::SimpleJob;
use crate::memory::StructureMemory;
use crate::memory::spec_job_target;
use crate::memory::job_target;
use crate::wire::le_bytes;
use crate::wire::le_value;
use crate::wire::le_encode;
use crate::wire::le_decode;
use crate::wire::pow256;
use crate::wire::lemma_le_bytes_len;
use crate::wire::lemma_le_value_bound;
use crate::wire::lemma_le_value_of_bytes;
use crate::wire::lemma_le_bytes_of_value;
use crate::wire::lemma_pow256_16;

verus! {

/// The default a creep's blob decodes to when it does not parse.
pub open spec fn spec_default_creep_memory() -> CreepMemory {
    CreepMemory::SimpleWorker(SimpleJob::Idle)
}

/// Wire tag of each job variant (`0` is `Idle`, the variant with no target).
pub open spec fn spec_job_tag(j: SimpleJob) -> u8 {
    match j {
        SimpleJob::Idle => 0,
        SimpleJob::MoveToSource(_) => 1,
        SimpleJob::HarvestSource(_) => 2,
        SimpleJob::MoveToController(_) => 3,
        SimpleJob::UpgradeController(_) => 4,
        SimpleJob::MoveToSpawn(_) => 5,
        SimpleJob::TransferToSpawn(_) => 6,
        SimpleJob::MoveToExtension(_) => 7,
        SimpleJob::TransferToExtension(_) => 8,
        SimpleJob::MoveToConstructionSite(_) => 9,
        SimpleJob::ConstructSite(_) => 10,
    }
}

/// The job a wire tag and a decoded target denote; tags outside `1..=10`
/// fall back to `Idle`.
pub open spec fn spec_job_of_tag(tag: u8, id: ObjectId) -> SimpleJob {
    if tag == 1 {
        SimpleJob::MoveToSource(id)
    } else if tag == 2 {
        SimpleJob::HarvestSource(id)
    } else if tag == 3 {
        SimpleJob::MoveToController(id)
    } else if tag == 4 {
        SimpleJob::UpgradeController(id)
    } else if tag == 5 {
        SimpleJob::MoveToSpawn(id)
    } else if tag == 6 {
        SimpleJob::TransferToSpawn(id)
    } else if tag == 7 {
        SimpleJob::MoveToExtension(id)
    } else if tag == 8 {
        SimpleJob::TransferToExtension(id)
    } else if tag == 9 {
        SimpleJob::MoveToConstructionSite(id)
    } else if tag == 10 {
        SimpleJob::ConstructSite(id)
    } else {
        SimpleJob::Idle
    }
}

/// The canonical blob of a creep's memory.
pub open spec fn spec_encode_creep(m: CreepMemory) -> Seq<u8> {
    match m {
        CreepMemory::SimpleWorker(j) => match spec_job_target(j) {
            Some(id) => seq![1u8, spec_job_tag(j)] + le_bytes(id.0 as nat, 16),
            None => seq![1u8, 0u8],
        },
    }
}

/// What a creep's blob decodes to.  Total: anything that is not a canonical
/// encoding yields the default.
pub open spec fn spec_decode_creep(s: Seq<u8>) -> CreepMemory {
    if s.len() == 2 && s[0] == 1 && s[1] == 0 {
        CreepMemory::SimpleWorker(SimpleJob::Idle)
    } else if s.len() == 18 && s[0] == 1 && 1 <= s[1] <= 10 {
        CreepMemory::SimpleWorker(
            spec_job_of_tag(s[1], ObjectId(le_value(s.subrange(2, 18)) as u128)),
        )
    } else {
        spec_default_creep_memory()
    }
}

/// Sign byte of the stored counter: `1` for negative values.
pub open spec fn spec_sign_byte(n: int) -> u8 {
    if n < 0 {
        1u8
    } else {
        0u8
    }
}

/// Magnitude of the stored counter.
pub open spec fn spec_magnitude(n: int) -> nat {
    if n < 0 {
        (-n) as nat
    } else {
        n as nat
    }
}

/// The canonical blob of a structure's memory.
pub open spec fn spec_encode_structure(m: StructureMemory) -> Seq<u8> {
    match m {
        StructureMemory::GenericSpawner(n) => seq![1u8, spec_sign_byte(n as int)] + le_bytes(
            spec_magnitude(n as int),
            4,
        ),
    }
}

/// What a structure's blob decodes to.  `None` means "no role assigned":
/// the caller's bootstrap path, never an error.
pub open spec fn spec_decode_structure(s: Seq<u8>) -> Option<StructureMemory> {
    if s.len() == 6 && s[0] == 1 && s[1] == 0 && le_value(s.subrange(2, 6)) <= 0x7fff_ffff {
        Some(StructureMemory::GenericSpawner(le_value(s.subrange(2, 6)) as i32))
    } else if s.len() == 6 && s[0] == 1 && s[1] == 1 && 1 <= le_value(s.subrange(2, 6))
        <= 0x8000_0000 {
        Some(StructureMemory::GenericSpawner((-(le_value(s.subrange(2, 6)) as int)) as i32))
    } else {
        None
    }
}

/// Wire tag of the given job.
fn job_wire_tag(j: &SimpleJob) -> (tag: u8)
    ensures
        tag == spec_job_tag(*j),
{
    match j {
        SimpleJob::Idle => 0,
        SimpleJob::MoveToSource(_) => 1,
        SimpleJob::HarvestSource(_) => 2,
        SimpleJob::MoveToController(_) => 3,
        SimpleJob::UpgradeController(_) => 4,
        SimpleJob::MoveToSpawn(_) => 5,
        SimpleJob::TransferToSpawn(_) => 6,
        SimpleJob::MoveToExtension(_) => 7,
        SimpleJob::TransferToExtension(_) => 8,
        SimpleJob::MoveToConstructionSite(_) => 9,
        SimpleJob::ConstructSite(_) => 10,
    }
}

/// Job denoted by a wire tag and target.
fn job_of_wire_tag(tag: u8, id: ObjectId) -> (j: SimpleJob)
    ensures
        j == spec_job_of_tag(tag, id),
{
    if tag == 1 {
        SimpleJob::MoveToSource(id)
    } else if tag == 2 {
        SimpleJob::HarvestSource(id)
    } else if tag == 3 {
        SimpleJob::MoveToController(id)
    } else if tag == 4 {
        SimpleJob::UpgradeController(id)
    } else if tag == 5 {
        SimpleJob::MoveToSpawn(id)
    } else if tag == 6 {
        SimpleJob::TransferToSpawn(id)
    } else if tag == 7 {
        SimpleJob::MoveToExtension(id)
    } else if tag == 8 {
        SimpleJob::TransferToExtension(id)
    } else if tag == 9 {
        SimpleJob::MoveToConstructionSite(id)
    } else if tag == 10 {
        SimpleJob::ConstructSite(id)
    } else {
        SimpleJob::Idle
    }
}

/// Encodes a creep's memory into its canonical blob.
pub fn encode_creep_memory(m: &CreepMemory) -> (r: Vec<u8>)
    ensures
        r@ == spec_encode_creep(*m),
{
    let mut out: Vec<u8> = Vec::new();
    let CreepMemory::SimpleWorker(job) = m;
    out.push(1u8);
    let tag = job_wire_tag(job);
    out.push(tag);
    match job_target(job) {
        Some(id) => {
            le_encode(id.0, 16, &mut out);
            proof {
                assert(out@ =~= spec_encode_creep(*m));
            }
        },
        None => {
            proof {
                assert(out@ =~= spec_encode_creep(*m));
            }
        },
    }
    out
}

/// Decodes a creep's blob; never fails, the default stands in for anything
/// that does not parse.
pub fn decode_creep_memory(b: &Vec<u8>) -> (m: CreepMemory)
    ensures
        m == spec_decode_creep(b@),
{
    if b.len() == 2 && b[0] == 1 && b[1] == 0 {
        CreepMemory::SimpleWorker(SimpleJob::Idle)
    } else if b.len() == 18 && b[0] == 1 && 1 <= b[1] && b[1] <= 10 {
        let v = le_decode(b, 2, 16);
        proof {
            lemma_le_value_bound(b@.subrange(2, 18));
            lemma_pow256_16();
        }
        let job = job_of_wire_tag(b[1], ObjectId(v));
        CreepMemory::SimpleWorker(job)
    } else {
        CreepMemory::SimpleWorker(SimpleJob::Idle)
    }
}

/// Encodes a structure's memory into its canonical blob.
pub fn encode_structure_memory(m: &StructureMemory) -> (r: Vec<u8>)
    ensures
        r@ == spec_encode_structure(*m),
{
    let StructureMemory::GenericSpawner(n) = *m;
    let mut out: Vec<u8> = Vec::new();
    out.push(1u8);
    if n < 0 {
        out.push(1u8);
        let mag: u128 = (-(n as i64)) as u128;
        le_encode(mag, 4, &mut out);
    } else {
        out.push(0u8);
        le_encode(n as u128, 4, &mut out);
    }
    proof {
        assert(out@ =~= spec_encode_structure(*m));
    }
    out
}

/// Decodes a structure's blob; `None` means no role has been assigned yet.
pub fn decode_structure_memory(b: &Vec<u8>) -> (m: Option<StructureMemory>)
    ensures
        m == spec_decode_structure(b@),
{
    if b.len() == 6 && b[0] == 1 {
        let v = le_decode(b, 2, 4);
        if b[1] == 0 && v <= 0x7fff_ffff {
            Some(StructureMemory::GenericSpawner(v as i32))
        } else if b[1] == 1 && 1 <= v && v <= 0x8000_0000 {
            let neg: i64 = -(v as i64);
            Some(StructureMemory::GenericSpawner(neg as i32))
        } else {
            None
        }
    } else {
        None
    }
}

/// `256^4`, the first value a 4-byte string cannot hold.
proof fn lemma_pow256_4()
    ensures
        pow256(4) == 0x1_0000_0000,
{
    reveal_with_fuel(pow256, 5);
}

/// Law: every creep memory round-trips losslessly through the codec.
pub proof fn lemma_creep_memory_roundtrip(m: CreepMemory)
    ensures
        spec_decode_creep(spec_encode_creep(m)) == m,
{
    let CreepMemory::SimpleWorker(j) = m;
    let s = spec_encode_creep(m);
    match spec_job_target(j) {
        Some(id) => {
            lemma_le_bytes_len(id.0 as nat, 16);
            lemma_pow256_16();
            lemma_le_value_of_bytes(id.0 as nat, 16);
            assert(s.subrange(2, 18) =~= le_bytes(id.0 as nat, 16));
        },
        None => {},
    }
}

/// Law: a creep blob decodes away from the default only if it is the
/// canonical encoding of what it decodes to.  Together with the round-trip
/// law this pins the codec down exactly: an arbitrary foreign blob yields
/// the default.
pub proof fn lemma_creep_decode_canonical(s: Seq<u8>)
    ensures
        spec_decode_creep(s) != spec_default_creep_memory() ==> s == spec_encode_creep(
            spec_decode_creep(s),
        ),
{
    if spec_decode_creep(s) != spec_default_creep_memory() {
        let id = ObjectId(le_value(s.subrange(2, 18)) as u128);
        lemma_le_value_bound(s.subrange(2, 18));
        lemma_pow256_16();
        lemma_le_bytes_of_value(s.subrange(2, 18));
        assert(s =~= seq![s[0], s[1]] + s.subrange(2, 18));
    }
}

/// Law: a blob that is no creep memory's encoding — arbitrary, foreign,
/// damaged or absent — decodes to the documented default, never to anything
/// else and never to an error.
pub proof fn lemma_foreign_creep_blob_defaults(s: Seq<u8>)
    requires
        forall|m: CreepMemory| s != spec_encode_creep(m),
    ensures
        spec_decode_creep(s) == spec_default_creep_memory(),
{
    lemma_creep_decode_canonical(s);
    assert(s != spec_encode_creep(spec_decode_creep(s)));
}

/// Law: every structure memory round-trips losslessly through the codec.
pub proof fn lemma_structure_memory_roundtrip(m: StructureMemory)
    ensures
        spec_decode_structure(spec_encode_structure(m)) == Some(m),
{
    let StructureMemory::GenericSpawner(n) = m;
    let mag = spec_magnitude(n as int);
    lemma_pow256_4();
    lemma_le_bytes_len(mag, 4);
    lemma_le_value_of_bytes(mag, 4);
    let s = spec_encode_structure(m);
    assert(s.subrange(2, 6) =~= le_bytes(mag, 4));
}

/// Law: a structure blob decodes to a role only if it is the canonical
/// encoding of that role; every other blob yields "no role assigned".
pub proof fn lemma_structure_decode_canonical(s: Seq<u8>)
    ensures
        spec_decode_structure(s) matches Some(m) ==> s == spec_encode_structure(m),
{
    if spec_decode_structure(s) is Some {
        lemma_le_bytes_of_value(s.subrange(2, 6));
        assert(s =~= seq![s[0], s[1]] + s.subrange(2, 6));
    }
}

/// Law: a blob that is no structure memory's encoding decodes to "no role
/// assigned", the caller's bootstrap path, never to a role and never to an
/// error.
pub proof fn lemma_foreign_structure_blob_defaults(s: Seq<u8>)
    requires
        forall|m: StructureMemory| s != spec_encode_structure(m),
    ensures
        spec_decode_structure(s) is None,
{
    lemma_structure_decode_canonical(s);
    match spec_decode_structure(s) {
        Some(m) => assert(s != spec_encode_structure(m)),
        None => (),
    }
}

} // verus!
