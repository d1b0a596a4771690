use fluid_sim::octree::{
    OctreeBarrier, OctreeConstructor, OctreeResource, OctreeStep, ACCESS_SHADER_STORAGE_READ, ACCESS_SHADER_STORAGE_READ_WRITE, WHOLE_SIZE,
};
use fluid_sim::particles::{BufferHandle, ParticleData};
use fluid_sim::compute::StageBarrier;
use fluid_sim::neighbor_list::{NeighborListBuffers, ParticleNeighborsStep, ParticleToParticleNeighborsConstructor};
use fluid_sim::physics_engine::{step_barriers, step_buffers, PhysicsEngine, PhysicsStep};
use fluid_sim::systems::{
    BufferBarrier, ConstraintSolverSystem, DensityComputeSystem, GridConstructionSystem, IntegrationSystem, MortonEncodingSystem,
    NeighborSearchSystem, RearrangingSystem, UpdateVelocitiesSystem,
};
use fluid_sim::ping_pong::PingPong;

fn h(raw: u64) -> BufferHandle {
    BufferHandle { raw }
}

fn sample_data() -> ParticleData {
    ParticleData {
        positions_buffer: PingPong::new(h(1), h(2)),
        previous_positions_buffer: PingPong::new(h(3), h(4)),
        velocities: PingPong::new(h(5), h(6)),
        lambdas: h(7),
        densities: h(8),
        vorticity: h(9),
        morton_codes_buffer: h(10),
        object_indices_buffer: h(11),
    }
}

#[test]
fn engine_keeps_solver_iterations() {
    let e = PhysicsEngine::new(10_000, 10, 4);
    assert_eq!(e.solver_iterations(), 4);
    assert_eq!(e.max_objects, 10_000);
    assert_eq!(e.max_levels, 10);
    assert_eq!(e.integrator.system.shader_name, "integrator");
}

#[test]
fn engine_truncates_sort_capacity() {
    let e = PhysicsEngine::new((1usize << 32) + 5, 10, 1);
    assert_eq!(e.max_objects, 5);
}

#[test]
fn update_plan_with_two_iterations() {
    let e = PhysicsEngine::new(1000, 10, 2);
    let mut d = sample_data();
    let plan = e.update(&mut d);
    assert_eq!(
        plan,
        vec![
            PhysicsStep::Integrate,
            PhysicsStep::EncodeKeys,
            PhysicsStep::SortKeys,
            PhysicsStep::ReorderParticles,
            PhysicsStep::SwapParticleBuffers,
            PhysicsStep::BuildOctree,
            PhysicsStep::BuildNeighborList,
            PhysicsStep::ComputeDensity { iteration: 0 },
            PhysicsStep::SolveConstraints { iteration: 0 },
            PhysicsStep::SwapPositions,
            PhysicsStep::ComputeDensity { iteration: 1 },
            PhysicsStep::SolveConstraints { iteration: 1 },
            PhysicsStep::SwapPositions,
            PhysicsStep::UpdateVelocities,
            PhysicsStep::RefineVelocities,
            PhysicsStep::SwapVelocities,
            PhysicsStep::ComputeVorticityForce,
        ]
    );
    // positions swapped 1 + 2 times, previous positions once, velocities twice
    assert_eq!(d.positions_buffer.current(), h(2));
    assert_eq!(d.previous_positions_buffer.current(), h(4));
    assert_eq!(d.velocities.current(), h(5));
    assert_eq!(d.lambdas, h(7));
}

#[test]
fn update_without_solver_iterations() {
    let e = PhysicsEngine::new(1000, 10, 0);
    let mut d = sample_data();
    let plan = e.update(&mut d);
    assert_eq!(plan.len(), 11);
    assert_eq!(d.positions_buffer.current(), h(2));
    assert_eq!(d.velocities.current(), h(5));
}

#[test]
fn update_with_three_iterations_restores_positions() {
    let e = PhysicsEngine::new(1000, 10, 3);
    let mut d = sample_data();
    let plan = e.update(&mut d);
    assert_eq!(plan.len(), 20);
    assert_eq!(d.positions_buffer.current(), h(1));
    assert_eq!(d.previous_positions_buffer.current(), h(4));
}

#[test]
fn octree_build_plan_rounds() {
    let c = OctreeConstructor::new(0xFFFF_FFFF, 10);
    assert_eq!(c.rebalancer.system.constants[0].value, 0xFFFF_FFFF);
    assert_eq!(c.level_offset_generator.system.constants[1].value, 10);
    let plan = c.build_plan(2, 32, false);
    assert_eq!(plan.len(), 2 * 13 + 17);
    assert_eq!(plan.iter().filter(|s| **s == OctreeStep::SwapCornerstone).count(), 2);
    assert_eq!(plan.iter().filter(|s| **s == OctreeStep::CountLeafParticles).count(), 3);
    assert_eq!(plan[0], OctreeStep::ClearChangedFlag { size: 4 });
    assert_eq!(
        plan[1],
        OctreeStep::Barrier(OctreeBarrier::TransferToCompute {
            resource: OctreeResource::WasChanged,
            size: 4,
            dst_access: ACCESS_SHADER_STORAGE_READ_WRITE,
        })
    );
    assert_eq!(plan[2], OctreeStep::CountLeafParticles);
    assert_eq!(plan[4], OctreeStep::MarkRebalancingOps { n_crit: 32, maintenance_mode: 0 });
    assert_eq!(plan[17], OctreeStep::MarkRebalancingOps { n_crit: 32, maintenance_mode: 0 });
    assert_eq!(plan[8], OctreeStep::Rebalance);
    assert_eq!(plan[9], OctreeStep::SwapCornerstone);
    assert_eq!(
        plan[10],
        OctreeStep::Barrier(OctreeBarrier::ComputeToIndirect { resource: OctreeResource::IndirectDispatchLeaves, size: WHOLE_SIZE })
    );
    assert_eq!(plan[13], OctreeStep::ClearChangedFlag { size: 4 });
    assert_eq!(plan[22], OctreeStep::SwapCornerstone);
    assert_eq!(plan[26], OctreeStep::RestoreLeafDispatch { src_offset: 16, dst_offset: 0, size: 12 });
    assert_eq!(plan[40], OctreeStep::LinkOctree);
    assert_eq!(
        plan[42],
        OctreeStep::Barrier(OctreeBarrier::ComputeToCompute {
            resource: OctreeResource::NodeBoundingBoxes,
            size: WHOLE_SIZE,
            dst_access: ACCESS_SHADER_STORAGE_READ,
        })
    );
    assert_eq!(c.build_plan(0, 32, false).len(), 17);
    let maintained = c.build_plan(1, 8, true);
    assert_eq!(maintained[4], OctreeStep::MarkRebalancingOps { n_crit: 8, maintenance_mode: 1 });
    assert_eq!(c.build_plan(0, 32, false)[0], OctreeStep::RestoreLeafDispatch { src_offset: 16, dst_offset: 0, size: 12 });
}

fn raws(v: Vec<BufferHandle>) -> Vec<u64> {
    v.into_iter().map(|b| b.raw).collect()
}

#[test]
fn physics_steps_bind_current_or_next_buffers() {
    let d = sample_data();
    assert_eq!(raws(step_buffers(PhysicsStep::Integrate, &d)), vec![1, 3, 5]);
    assert_eq!(raws(step_buffers(PhysicsStep::EncodeKeys, &d)), vec![1, 10, 11]);
    assert_eq!(raws(step_buffers(PhysicsStep::SortKeys, &d)), vec![10, 11]);
    assert_eq!(raws(step_buffers(PhysicsStep::ReorderParticles, &d)), vec![1, 2, 3, 4, 5, 6, 11]);
    assert_eq!(raws(step_buffers(PhysicsStep::BuildOctree, &d)), vec![10]);
    assert_eq!(raws(step_buffers(PhysicsStep::BuildNeighborList, &d)), vec![1]);
    assert_eq!(raws(step_buffers(PhysicsStep::ComputeDensity { iteration: 0 }, &d)), vec![1, 8, 7]);
    assert_eq!(raws(step_buffers(PhysicsStep::SolveConstraints { iteration: 0 }, &d)), vec![1, 2, 8, 7]);
    assert_eq!(raws(step_buffers(PhysicsStep::UpdateVelocities, &d)), vec![1, 3, 5]);
    assert_eq!(raws(step_buffers(PhysicsStep::RefineVelocities, &d)), vec![1, 5, 6, 9, 8]);
    assert_eq!(raws(step_buffers(PhysicsStep::ComputeVorticityForce, &d)), vec![1, 5, 9, 8]);
    assert!(step_buffers(PhysicsStep::SwapPositions, &d).is_empty());
}

#[test]
fn corrected_positions_are_read_by_the_next_iteration() {
    let e = PhysicsEngine::new(1000, 10, 2);
    let mut d = sample_data();
    let plan = e.update(&mut d);
    // replay the plan, checking what each solver iteration reads and writes
    let mut roles = sample_data();
    let mut written: Option<u64> = None;
    for step in plan.iter() {
        match step {
            PhysicsStep::SwapParticleBuffers => roles.swap(),
            PhysicsStep::SwapPositions => roles.positions_buffer.swap(),
            PhysicsStep::SwapVelocities => roles.velocities.swap(),
            PhysicsStep::ComputeDensity { .. } => {
                let read = step_buffers(*step, &roles)[0].raw;
                if let Some(w) = written {
                    assert_eq!(read, w);
                }
            }
            PhysicsStep::SolveConstraints { .. } => written = Some(step_buffers(*step, &roles)[1].raw),
            _ => {}
        }
    }
    assert_eq!(roles, d);
}

#[test]
fn systems_bind_particle_buffers() {
    let d = sample_data();
    assert_eq!(raws(MortonEncodingSystem::new().bound_buffers(&d)), vec![1, 10, 11]);
    assert_eq!(raws(GridConstructionSystem::new().bound_buffers(&d)), vec![10]);
    assert_eq!(raws(NeighborSearchSystem::new().bound_buffers(&d)), vec![10]);
    assert_eq!(raws(ConstraintSolverSystem::new().bound_buffers(&d)), vec![1, 2, 8, 7]);
    assert_eq!(raws(IntegrationSystem::new().bound_buffers(&d)), vec![1, 3, 5]);
    assert_eq!(raws(UpdateVelocitiesSystem::new().bound_buffers(&d)), vec![1, 3, 5]);
    assert_eq!(raws(DensityComputeSystem::new().bound_buffers(&d)), vec![1, 3, 5]);
    assert_eq!(raws(RearrangingSystem::new().bound_buffers(&d)), vec![1, 2, 3, 4, 5, 6, 11]);
    let mut swapped = d;
    swapped.swap();
    assert_eq!(raws(RearrangingSystem::new().bound_buffers(&swapped)), vec![2, 1, 4, 3, 6, 5, 11]);
}

fn barrier_triples(v: Vec<BufferBarrier>) -> Vec<(u64, u64, u64)> {
    v.into_iter().map(|b| (b.buffer.raw, b.src_access, b.dst_access)).collect()
}

#[test]
fn systems_barriers_after_dispatch() {
    let r = 1u64 << 33;
    let w = 1u64 << 34;
    let d = sample_data();
    let particle = vec![(1, r | w, r), (3, w, r), (5, r | w, w)];
    assert_eq!(barrier_triples(IntegrationSystem::new().barriers_after(&d)), particle);
    assert_eq!(barrier_triples(DensityComputeSystem::new().barriers_after(&d)), particle);
    assert_eq!(barrier_triples(MortonEncodingSystem::new().barriers_after(&d)), vec![(10, w, r), (11, w, r)]);
    assert_eq!(barrier_triples(ConstraintSolverSystem::new().barriers_after(&d)), vec![(1, r, r | w), (2, w, r | w)]);
    assert_eq!(barrier_triples(RearrangingSystem::new().barriers_after(&d)), vec![(2, w, r), (4, w, r), (6, w, r)]);
}

fn stage_triples(v: Vec<StageBarrier>) -> Vec<(char, u64, u64, u64)> {
    v.into_iter()
        .map(|b| match b {
            StageBarrier::ComputeToCompute(b) => ('c', b.buffer.raw, b.src_access, b.dst_access),
            StageBarrier::TransferToCompute(b) => ('t', b.buffer.raw, b.src_access, b.dst_access),
            StageBarrier::ComputeToGraphics(b) => ('g', b.buffer.raw, b.src_access, b.dst_access),
        })
        .collect()
}

#[test]
fn solver_stages_record_their_barriers() {
    let r = 1u64 << 33;
    let w = 1u64 << 34;
    let d = sample_data();
    assert_eq!(
        stage_triples(step_barriers(PhysicsStep::Integrate, &d)),
        vec![('c', 1, r | w, r), ('c', 3, w, r), ('c', 5, r | w, w)]
    );
    assert_eq!(stage_triples(step_barriers(PhysicsStep::UpdateVelocities, &d)), vec![('c', 5, w, r), ('c', 1, w, r)]);
    assert_eq!(stage_triples(step_barriers(PhysicsStep::ComputeDensity { iteration: 1 }, &d)), vec![('c', 8, w, r), ('c', 7, w, r)]);
    assert_eq!(
        stage_triples(step_barriers(PhysicsStep::SolveConstraints { iteration: 0 }, &d)),
        vec![('c', 1, r, r | w), ('c', 2, w, r | w)]
    );
    assert_eq!(
        stage_triples(step_barriers(PhysicsStep::RefineVelocities, &d)),
        vec![('c', 9, w, r), ('c', 6, w, r), ('c', 5, r, w)]
    );
    assert_eq!(
        stage_triples(step_barriers(PhysicsStep::ComputeVorticityForce, &d)),
        vec![('g', 1, w, r), ('c', 5, w, r | w)]
    );
    assert_eq!(stage_triples(UpdateVelocitiesSystem::new().barriers_after(&d)), vec![('g', 1, w, r)]);
}

#[test]
fn particle_neighbor_build_plan() {
    let r = 1u64 << 33;
    let w = 1u64 << 34;
    let data = NeighborListBuffers {
        leaf_to_leaf_neighbors: h(20),
        processed_leaves_counter: h(21),
        particle_to_neighborhood: h(22),
        neighbor_particle_indices: h(23),
    };
    let c = ParticleToParticleNeighborsConstructor::new();
    let plan = c.build_plan(h(30), &data, 1000);
    assert_eq!(plan.len(), 6);
    assert_eq!(plan[0], ParticleNeighborsStep::Clear { buffer: h(30), size: 4 });
    match plan[2] {
        ParticleNeighborsStep::Dispatch { groups } => {
            assert_eq!(groups, c.workgroups(1000));
            assert_eq!((groups.x, groups.y, groups.z), (16, 1, 1));
        }
        _ => panic!("dispatch expected third"),
    }
    let barriers: Vec<StageBarrier> = plan
        .iter()
        .filter_map(|s| match s {
            ParticleNeighborsStep::Barrier(b) => Some(*b),
            _ => None,
        })
        .collect();
    assert_eq!(
        stage_triples(barriers),
        vec![('t', 30, 0x1000, r), ('c', 30, w, r | w), ('c', 23, w, r), ('c', 22, w, r)]
    );
}
