use creep_engine::codec::{
    decode_creep_memory, decode_structure_memory, encode_creep_memory, encode_structure_memory,
};
use creep_engine::ids::ObjectId;
use creep_engine::memory::{CreepMemory, SimpleJob, StructureMemory};

fn all_jobs() -> Vec<SimpleJob> {
    let id = ObjectId(0x0123_4567_89ab_cdef_fedc_ba98_7654_3210);
    vec![
        SimpleJob::MoveToSource(id),
        SimpleJob::HarvestSource(id),
        SimpleJob::MoveToController(id),
        SimpleJob::UpgradeController(id),
        SimpleJob::MoveToSpawn(id),
        SimpleJob::TransferToSpawn(id),
        SimpleJob::MoveToExtension(id),
        SimpleJob::TransferToExtension(id),
        SimpleJob::MoveToConstructionSite(id),
        SimpleJob::ConstructSite(id),
        SimpleJob::Idle,
    ]
}

#[test]
fn creep_memory_roundtrips_every_variant() {
    for job in all_jobs() {
        let m = CreepMemory::SimpleWorker(job);
        let blob = encode_creep_memory(&m);
        assert_eq!(decode_creep_memory(&blob), m);
    }
}

#[test]
fn creep_memory_roundtrips_extreme_ids() {
    for raw in [0u128, 1, u128::MAX, u128::MAX - 1, 1u128 << 127] {
        let m = CreepMemory::SimpleWorker(SimpleJob::HarvestSource(ObjectId(raw)));
        let blob = encode_creep_memory(&m);
        assert_eq!(decode_creep_memory(&blob), m);
    }
}

#[test]
fn structure_memory_roundtrips_every_counter_shape() {
    for n in [0i32, 1, 5, -1, -5, i32::MAX, i32::MIN, 1_000_000, -1_000_000] {
        let m = StructureMemory::GenericSpawner(n);
        let blob = encode_structure_memory(&m);
        assert_eq!(decode_structure_memory(&blob), Some(m));
    }
}

#[test]
fn idle_encoding_is_two_bytes() {
    let m = CreepMemory::SimpleWorker(SimpleJob::Idle);
    assert_eq!(encode_creep_memory(&m), vec![1u8, 0u8]);
}

#[test]
fn harvest_encoding_is_tag_then_little_endian_id() {
    let m = CreepMemory::SimpleWorker(SimpleJob::HarvestSource(ObjectId(0x0302_0100)));
    let mut expected = vec![1u8, 2u8, 0u8, 1u8, 2u8, 3u8];
    expected.extend(std::iter::repeat(0u8).take(12));
    assert_eq!(encode_creep_memory(&m), expected);
}

#[test]
fn spawner_encoding_is_tag_sign_then_magnitude() {
    let m = StructureMemory::GenericSpawner(5);
    assert_eq!(encode_structure_memory(&m), vec![1u8, 0u8, 5u8, 0u8, 0u8, 0u8]);
    let neg = StructureMemory::GenericSpawner(-1);
    assert_eq!(encode_structure_memory(&neg), vec![1u8, 1u8, 1u8, 0u8, 0u8, 0u8]);
}

#[test]
fn absent_creep_blob_decodes_to_default() {
    let default = CreepMemory::SimpleWorker(SimpleJob::Idle);
    assert_eq!(decode_creep_memory(&Vec::new()), default);
}

#[test]
fn foreign_creep_blobs_decode_to_default() {
    let default = CreepMemory::SimpleWorker(SimpleJob::Idle);
    let foreign: Vec<Vec<u8>> = vec![
        vec![0u8],
        vec![2u8, 0u8],                     // wrong family tag
        vec![1u8],                          // truncated
        vec![1u8, 11u8],                    // job tag out of range, wrong length
        vec![1u8, 2u8],                     // target missing
        vec![1u8, 2u8, 7u8],                // target truncated
        vec![0xffu8; 18],                   // wrong family tag, full length
        vec![1u8, 11u8, 0u8, 0, 0, 0, 0, 0, 0, 0, 0, 0, 0, 0, 0, 0, 0, 0], // bad job tag
        vec![1u8, 0u8, 0u8],                // idle with trailing bytes
        b"{\"SimpleWorker\":\"Idle\"}".to_vec(), // another schema entirely
    ];
    for blob in foreign {
        assert_eq!(decode_creep_memory(&blob), default, "blob {:?}", blob);
    }
}

#[test]
fn foreign_structure_blobs_decode_to_no_role() {
    let foreign: Vec<Vec<u8>> = vec![
        vec![],
        vec![1u8],
        vec![0u8, 0u8, 0u8, 0u8, 0u8, 0u8],      // wrong family tag
        vec![1u8, 2u8, 0u8, 0u8, 0u8, 0u8],      // bad sign byte
        vec![1u8, 1u8, 0u8, 0u8, 0u8, 0u8],      // negative zero is not canonical
        vec![1u8, 0u8, 0u8, 0u8, 0u8, 0x80u8],   // positive magnitude out of range
        vec![1u8, 1u8, 1u8, 0u8, 0u8, 0x80u8],   // negative magnitude out of range
        vec![1u8, 0u8, 5u8, 0u8, 0u8, 0u8, 0u8], // trailing byte
        b"spawner".to_vec(),
    ];
    for blob in foreign {
        assert_eq!(decode_structure_memory(&blob), None, "blob {:?}", blob);
    }
}

#[test]
fn boundary_counters_stay_canonical() {
    // The largest negative and positive counters sit right at the edge of
    // the canonical magnitude ranges.
    let min = encode_structure_memory(&StructureMemory::GenericSpawner(i32::MIN));
    assert_eq!(min, vec![1u8, 1u8, 0u8, 0u8, 0u8, 0x80u8]);
    assert_eq!(
        decode_structure_memory(&min),
        Some(StructureMemory::GenericSpawner(i32::MIN))
    );
    let max = encode_structure_memory(&StructureMemory::GenericSpawner(i32::MAX));
    assert_eq!(max, vec![1u8, 0u8, 0xffu8, 0xffu8, 0xffu8, 0x7fu8]);
    assert_eq!(
        decode_structure_memory(&max),
        Some(StructureMemory::GenericSpawner(i32::MAX))
    );
}
