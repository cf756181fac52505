use creep_engine::codec::{encode_creep_memory, encode_structure_memory};
use creep_engine::creep::{run_creep, run_simple_worker_with_job, CreepAction, WorldView};
use creep_engine::ids::ObjectId;
use creep_engine::memory::{job_target, CreepMemory, SimpleJob, StructureMemory};
use creep_engine::spawner::{confirm_spawn, run_spawn, worker_name, CreepPart, SpawnerStep};
use creep_engine::structures::{run_structure, StructureDecision, StructureView};
use creep_engine::tick::{run_tick, CreepInput, TickInput};

fn quiet_room() -> WorldView {
    WorldView {
        target_resolves: true,
        near_target: true,
        free_capacity: 50,
        first_construction_site: None,
        first_spawn: None,
        controller: None,
        first_source: None,
    }
}

// Scenario: spawner memory absent, structure named "Spawn1" -> memory is
// bootstrapped to a zero counter and no creep is requested this tick.
#[test]
fn absent_memory_bootstraps_spawn1() {
    let step = run_spawn(&b"Spawn1".to_vec(), &Vec::new(), 300);
    match step {
        SpawnerStep::Bootstrap(StructureMemory::GenericSpawner(0)) => {}
        _ => panic!("expected a zero-counter bootstrap"),
    }
}

// Every spawner lacking a valid role is bootstrapped, whatever its name:
// the memory self-heals instead of leaving a later-built spawner frozen.
#[test]
fn absent_memory_bootstraps_every_spawner() {
    for name in [b"Spawn2".to_vec(), b"Hub".to_vec(), Vec::new()] {
        let step = run_spawn(&name, &Vec::new(), 300);
        assert!(
            matches!(step, SpawnerStep::Bootstrap(StructureMemory::GenericSpawner(0))),
            "spawner {:?} must bootstrap",
            name
        );
    }
}

// Scenario: counter 5, stored energy 250 -> one request named
// "Spawn1.Simple.5" with idle-worker memory; acceptance advances the counter.
#[test]
fn funded_spawner_requests_one_worker() {
    let mem = encode_structure_memory(&StructureMemory::GenericSpawner(5));
    let step = run_spawn(&b"Spawn1".to_vec(), &mem, 250);
    match step {
        SpawnerStep::Request(req) => {
            assert_eq!(req.name, b"Spawn1.Simple.5".to_vec());
            assert_eq!(req.counter, 5);
            assert_eq!(req.memory, CreepMemory::SimpleWorker(SimpleJob::Idle));
            assert_eq!(
                req.parts,
                vec![CreepPart::Move, CreepPart::Carry, CreepPart::Work]
            );
            assert_eq!(
                confirm_spawn(&req, true),
                Some(StructureMemory::GenericSpawner(6))
            );
            assert_eq!(confirm_spawn(&req, false), None);
        }
        _ => panic!("expected a creation request"),
    }
}

#[test]
fn underfunded_spawner_waits() {
    let mem = encode_structure_memory(&StructureMemory::GenericSpawner(5));
    let step = run_spawn(&b"Spawn1".to_vec(), &mem, 199);
    assert!(matches!(step, SpawnerStep::Wait));
}

#[test]
fn threshold_is_exactly_two_hundred() {
    let mem = encode_structure_memory(&StructureMemory::GenericSpawner(0));
    let step = run_spawn(&b"Spawn1".to_vec(), &mem, 200);
    assert!(matches!(step, SpawnerStep::Request(_)));
}

#[test]
fn bootstrap_runs_only_once() {
    let name = b"Spawn1".to_vec();
    let step = run_spawn(&name, &Vec::new(), 0);
    let written = match step {
        SpawnerStep::Bootstrap(mem) => encode_structure_memory(&mem),
        _ => panic!("expected the first tick to bootstrap"),
    };
    // Every later tick decodes the written role and never bootstraps again.
    for energy in [0u32, 199, 200, 1000] {
        assert!(!matches!(
            run_spawn(&name, &written, energy),
            SpawnerStep::Bootstrap(_)
        ));
    }
}

#[test]
fn worker_names_render_counters() {
    assert_eq!(worker_name(&b"Spawn1".to_vec(), 0), b"Spawn1.Simple.0".to_vec());
    assert_eq!(worker_name(&b"Spawn1".to_vec(), 123), b"Spawn1.Simple.123".to_vec());
    assert_eq!(worker_name(&b"Hub".to_vec(), -7), b"Hub.Simple.-7".to_vec());
    assert_eq!(
        worker_name(&b"S".to_vec(), i32::MIN),
        b"S.Simple.-2147483648".to_vec()
    );
}

// Scenario: harvesting, adjacent, not at capacity -> harvest, no memory write.
#[test]
fn adjacent_harvester_with_room_harvests() {
    let source = ObjectId(11);
    let d = run_simple_worker_with_job(&SimpleJob::HarvestSource(source), &quiet_room());
    assert_eq!(d.action, Some(CreepAction::Harvest(source)));
    assert_eq!(d.next_job, None);
    assert!(!d.warned);
}

// Scenario: harvesting, adjacent, full, one construction site -> move to it.
#[test]
fn full_harvester_heads_for_the_construction_site() {
    let site = ObjectId(21);
    let w = WorldView {
        free_capacity: 0,
        first_construction_site: Some(site),
        first_spawn: Some(ObjectId(22)),
        controller: Some(ObjectId(23)),
        ..quiet_room()
    };
    let d = run_simple_worker_with_job(&SimpleJob::HarvestSource(ObjectId(11)), &w);
    assert_eq!(d.action, None);
    assert_eq!(d.next_job, Some(SimpleJob::MoveToConstructionSite(site)));
}

#[test]
fn full_harvester_prefers_spawn_over_controller() {
    let spawn = ObjectId(22);
    let w = WorldView {
        free_capacity: 0,
        first_spawn: Some(spawn),
        controller: Some(ObjectId(23)),
        ..quiet_room()
    };
    let d = run_simple_worker_with_job(&SimpleJob::HarvestSource(ObjectId(11)), &w);
    assert_eq!(d.next_job, Some(SimpleJob::MoveToSpawn(spawn)));
}

#[test]
fn full_harvester_falls_back_to_controller_then_idle() {
    let controller = ObjectId(23);
    let w = WorldView { free_capacity: 0, controller: Some(controller), ..quiet_room() };
    let d = run_simple_worker_with_job(&SimpleJob::HarvestSource(ObjectId(11)), &w);
    assert_eq!(d.next_job, Some(SimpleJob::MoveToController(controller)));

    let empty = WorldView { free_capacity: 0, controller: None, ..quiet_room() };
    let d2 = run_simple_worker_with_job(&SimpleJob::HarvestSource(ObjectId(11)), &empty);
    assert_eq!(d2.next_job, Some(SimpleJob::Idle));
}

#[test]
fn distant_harvester_goes_idle() {
    let w = WorldView { near_target: false, ..quiet_room() };
    let d = run_simple_worker_with_job(&SimpleJob::HarvestSource(ObjectId(11)), &w);
    assert_eq!(d.action, None);
    assert_eq!(d.next_job, Some(SimpleJob::Idle));
    assert!(!d.warned);
}

// Scenario: moving to the controller, controller unresolvable -> warning,
// memory goes Idle, no move action.
#[test]
fn unresolvable_controller_degrades_to_idle() {
    let w = WorldView { target_resolves: false, ..quiet_room() };
    let d = run_simple_worker_with_job(&SimpleJob::MoveToController(ObjectId(31)), &w);
    assert!(d.warned);
    assert_eq!(d.action, None);
    assert_eq!(d.next_job, Some(SimpleJob::Idle));
}

#[test]
fn every_targeted_job_degrades_to_idle_when_unresolved() {
    let id = ObjectId(9);
    let jobs = [
        SimpleJob::MoveToSource(id),
        SimpleJob::HarvestSource(id),
        SimpleJob::MoveToController(id),
        SimpleJob::UpgradeController(id),
        SimpleJob::MoveToSpawn(id),
        SimpleJob::TransferToSpawn(id),
        SimpleJob::MoveToExtension(id),
        SimpleJob::TransferToExtension(id),
        SimpleJob::MoveToConstructionSite(id),
        SimpleJob::ConstructSite(id),
    ];
    let w = WorldView { target_resolves: false, ..quiet_room() };
    for job in jobs {
        let d = run_simple_worker_with_job(&job, &w);
        assert_eq!(d.action, None, "job {:?}", job);
        assert_eq!(d.next_job, Some(SimpleJob::Idle), "job {:?}", job);
        assert!(d.warned, "job {:?}", job);
    }
}

// Scenario: transferring to the spawn while adjacent -> transfer, then back
// to harvesting the room's first source.
#[test]
fn adjacent_transfer_hands_over_and_returns_to_source() {
    let spawn = ObjectId(41);
    let source = ObjectId(42);
    let w = WorldView { first_source: Some(source), ..quiet_room() };
    let d = run_simple_worker_with_job(&SimpleJob::TransferToSpawn(spawn), &w);
    assert_eq!(d.action, Some(CreepAction::Transfer(spawn)));
    assert_eq!(d.next_job, Some(SimpleJob::HarvestSource(source)));
}

#[test]
fn distant_transfer_waits_in_place() {
    let w = WorldView { near_target: false, ..quiet_room() };
    let d = run_simple_worker_with_job(&SimpleJob::TransferToSpawn(ObjectId(41)), &w);
    assert_eq!(d.action, None);
    assert_eq!(d.next_job, None);
}

#[test]
fn transfer_with_sourceless_room_goes_idle() {
    let w = WorldView { first_source: None, ..quiet_room() };
    let d = run_simple_worker_with_job(&SimpleJob::TransferToExtension(ObjectId(43)), &w);
    assert_eq!(d.action, Some(CreepAction::Transfer(ObjectId(43))));
    assert_eq!(d.next_job, Some(SimpleJob::Idle));
}

#[test]
fn movers_arrive_into_their_execute_state() {
    let id = ObjectId(51);
    let arrived = [
        (SimpleJob::MoveToSource(id), SimpleJob::HarvestSource(id)),
        (SimpleJob::MoveToController(id), SimpleJob::UpgradeController(id)),
        (SimpleJob::MoveToSpawn(id), SimpleJob::TransferToSpawn(id)),
        (SimpleJob::MoveToExtension(id), SimpleJob::TransferToExtension(id)),
        (SimpleJob::MoveToConstructionSite(id), SimpleJob::ConstructSite(id)),
    ];
    for (mover, execute) in arrived {
        let d = run_simple_worker_with_job(&mover, &quiet_room());
        assert_eq!(d.action, None, "job {:?}", mover);
        assert_eq!(d.next_job, Some(execute), "job {:?}", mover);
    }
}

#[test]
fn distant_movers_keep_walking() {
    let id = ObjectId(51);
    let w = WorldView { near_target: false, ..quiet_room() };
    let d = run_simple_worker_with_job(&SimpleJob::MoveToSpawn(id), &w);
    assert_eq!(d.action, Some(CreepAction::MoveTowards(id)));
    assert_eq!(d.next_job, None);
}

#[test]
fn builders_and_upgraders_work_on_site() {
    let id = ObjectId(61);
    let d = run_simple_worker_with_job(&SimpleJob::ConstructSite(id), &quiet_room());
    assert_eq!(d.action, Some(CreepAction::Build(id)));
    assert_eq!(d.next_job, None);
    let d2 = run_simple_worker_with_job(&SimpleJob::UpgradeController(id), &quiet_room());
    assert_eq!(d2.action, Some(CreepAction::Upgrade(id)));
    assert_eq!(d2.next_job, None);
}

#[test]
fn idle_creeps_do_nothing_and_write_nothing() {
    for w in [
        quiet_room(),
        WorldView { target_resolves: false, near_target: false, ..quiet_room() },
    ] {
        let d = run_simple_worker_with_job(&SimpleJob::Idle, &w);
        assert_eq!(d.action, None);
        assert_eq!(d.next_job, None);
        assert!(!d.warned);
    }
}

#[test]
fn idle_creep_stays_idle_across_many_ticks() {
    let raw = encode_creep_memory(&CreepMemory::SimpleWorker(SimpleJob::Idle));
    let worlds = [
        quiet_room(),
        WorldView { target_resolves: false, ..quiet_room() },
        WorldView { free_capacity: 0, first_spawn: Some(ObjectId(1)), ..quiet_room() },
    ];
    for tick in 0..30 {
        let d = run_creep(&raw, &worlds[tick % worlds.len()]);
        assert_eq!(d.action, None);
        assert_eq!(d.next_job, None, "memory must stay untouched on tick {}", tick);
    }
}

#[test]
fn foreign_creep_memory_runs_as_idle() {
    let d = run_creep(&b"not a memory blob".to_vec(), &quiet_room());
    assert_eq!(d.action, None);
    assert_eq!(d.next_job, None);
}

#[test]
fn encoded_job_drives_the_machine_end_to_end() {
    let source = ObjectId(71);
    let raw = encode_creep_memory(&CreepMemory::SimpleWorker(SimpleJob::HarvestSource(source)));
    let d = run_creep(&raw, &quiet_room());
    assert_eq!(d.action, Some(CreepAction::Harvest(source)));
}

#[test]
fn job_target_reports_the_stored_identifier() {
    assert_eq!(job_target(&SimpleJob::Idle), None);
    assert_eq!(job_target(&SimpleJob::HarvestSource(ObjectId(5))), Some(ObjectId(5)));
    assert_eq!(job_target(&SimpleJob::MoveToExtension(ObjectId(6))), Some(ObjectId(6)));
}

#[test]
fn unrecognized_structures_earn_a_warning() {
    let d = run_structure(&StructureView::Unrecognized);
    assert!(matches!(d, StructureDecision::WarnUnrecognized));
    let c = run_structure(&StructureView::Controller);
    assert!(matches!(c, StructureDecision::Quiet));
    let e = run_structure(&StructureView::Extension);
    assert!(matches!(e, StructureDecision::Quiet));
}

#[test]
fn a_whole_tick_maps_every_entity_in_order() {
    let spawn_mem = encode_structure_memory(&StructureMemory::GenericSpawner(2));
    let input = TickInput {
        structures: vec![
            StructureView::Spawn { name: b"Spawn1".to_vec(), memory: spawn_mem, energy: 250 },
            StructureView::Extension,
            StructureView::Unrecognized,
        ],
        creeps: vec![
            CreepInput {
                raw_memory: encode_creep_memory(&CreepMemory::SimpleWorker(SimpleJob::Idle)),
                world: quiet_room(),
            },
            CreepInput {
                raw_memory: encode_creep_memory(&CreepMemory::SimpleWorker(
                    SimpleJob::HarvestSource(ObjectId(81)),
                )),
                world: quiet_room(),
            },
        ],
    };
    let out = run_tick(&input);
    assert_eq!(out.structures.len(), 3);
    assert_eq!(out.creeps.len(), 2);
    match &out.structures[0] {
        StructureDecision::Spawner(SpawnerStep::Request(req)) => {
            assert_eq!(req.name, b"Spawn1.Simple.2".to_vec());
        }
        _ => panic!("expected the funded spawner to request a worker"),
    }
    assert!(matches!(out.structures[1], StructureDecision::Quiet));
    assert!(matches!(out.structures[2], StructureDecision::WarnUnrecognized));
    assert_eq!(out.creeps[0].action, None);
    assert_eq!(out.creeps[1].action, Some(CreepAction::Harvest(ObjectId(81))));
}
