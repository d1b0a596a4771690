use fluid_sim::compute::{dispatch_for_elements, BindingKind, ComputeSystemSpec};
use fluid_sim::fluids::{ConstraintSolver, DensityCompute, VelocityRefiner, VorticityForceCompute};
use fluid_sim::integration::{Integrator, VelocityUpdater};
use fluid_sim::neighbor_list::{NeighborList, NeighborListBuffers, NeighborSearch, ParticleToParticleNeighborsConstructor};
use fluid_sim::octree::{LeavesHistogram, LevelOffsetGenerator, Rebalancer, RebalancingOpsMarker};
use fluid_sim::particles::BufferHandle;
use fluid_sim::sorting::SortCommand;
use fluid_sim::systems::{
    ConstraintSolverSystem, DensityComputeSystem, GridConstructionSystem, IntegrationSystem, MortonEncodingSystem,
    NeighborSearchSystem, RearrangingSystem, SortingSystem, UpdateVelocitiesSystem,
};

fn constants(spec: &ComputeSystemSpec) -> Vec<(&'static str, u32)> {
    spec.constants.iter().map(|c| (c.name, c.value)).collect()
}

#[test]
fn dispatch_rounds_up_to_whole_groups() {
    let d = dispatch_for_elements(0, 64);
    assert_eq!((d.x, d.y, d.z), (0, 1, 1));
    assert_eq!(dispatch_for_elements(1, 64).x, 1);
    assert_eq!(dispatch_for_elements(64, 64).x, 1);
    assert_eq!(dispatch_for_elements(65, 64).x, 2);
    assert_eq!(dispatch_for_elements(100_000, 64).x, 1563);
}

#[test]
fn fluid_stage_shaders() {
    let c = ConstraintSolver::new();
    assert_eq!(c.system.shader_name, "constraint_solver");
    assert_eq!(c.system.entry_points, vec!["main"]);
    assert_eq!(constants(&c.system), vec![("THREAD_GROUP_SIZE", 64)]);
    assert!(c.system.bindings.is_empty());
    assert_eq!(c.workgroups(1000).x, 16);

    let d = DensityCompute::new();
    assert_eq!(d.system.shader_name, "density_compute");
    assert_eq!(constants(&d.system), vec![("THREAD_GROUP_SIZE", 64)]);
    assert_eq!(d.workgroups(129).x, 3);

    let r = VelocityRefiner::new();
    assert_eq!(r.system.shader_name, "velocity_refiner");
    assert!(r.system.constants.is_empty());
    assert_eq!(r.workgroups(64).x, 1);

    let v = VorticityForceCompute::new();
    assert_eq!(v.system.shader_name, "vorticity_force_compute");
    assert_eq!(v.system.entry_points, vec!["main"]);
    assert_eq!(v.workgroups(65).x, 2);
}

#[test]
fn integration_stage_shaders() {
    assert_eq!(Integrator::shader_name(), "integrator");
    assert_eq!(Integrator::profiling_label(), "Integration");
    let i = Integrator::new();
    assert_eq!(i.system.shader_name, "integrator");
    assert_eq!(i.system.bindings, vec![BindingKind::StorageBuffer; 3]);
    assert_eq!(i.workgroups(640).x, 10);

    let u = VelocityUpdater::new();
    assert_eq!(u.system.shader_name, "velocity_updater");
    assert!(u.system.bindings.is_empty());
    assert_eq!(u.workgroups(641).x, 11);
}

#[test]
fn neighbor_list_capacities_and_buffers() {
    assert_eq!(NeighborList::max_leaf_neighbors(), 256);
    assert_eq!(NeighborList::max_particle_neighbors(), 96);
    assert_eq!(NeighborList::profiling_label(), "Neighbor list construction");
    let buffers = NeighborListBuffers {
        leaf_to_leaf_neighbors: BufferHandle { raw: 1 },
        processed_leaves_counter: BufferHandle { raw: 2 },
        particle_to_neighborhood: BufferHandle { raw: 3 },
        neighbor_particle_indices: BufferHandle { raw: 4 },
    };
    let list = NeighborList::new(buffers, 32, 10, 256, 64, 4096);
    assert_eq!(list.leaf_to_leaf_neighbors().raw, 1);
    assert_eq!(list.processed_leaves_counter().raw, 2);
    assert_eq!(list.particle_to_neighborhood().raw, 3);
    assert_eq!(list.neighbor_particle_indices().raw, 4);
    assert_eq!(list.neighbor_search.super_cluster_size, 32);
    assert_eq!(
        constants(&list.neighbor_search.system),
        vec![
            ("THREAD_GROUP_SIZE", 32),
            ("MAX_LEVELS", 10),
            ("MAX_NEIGHBOR_CAPACITY", 256),
            ("WAVE_SIZE", 64),
            ("QUEUE_MEMORY_PER_WORKGROUP", 4096),
        ]
    );
}

#[test]
fn neighbor_search_runs_persistent_groups() {
    let s = NeighborSearch::new(64, 8, 128, 32, 1024);
    assert_eq!(s.system.shader_name, "build_neighbor_list");
    let g = s.workgroups(72);
    assert_eq!((g.x, g.y, g.z), (72, 1, 1));
}

#[test]
fn particle_to_particle_neighbors_shader() {
    let p = ParticleToParticleNeighborsConstructor::new();
    assert_eq!(p.system.shader_name, "build_particle_to_particle_neighbors");
    assert_eq!(constants(&p.system), vec![("THREAD_GROUP_SIZE", 64), ("MAX_PARTICLE_NEIGHBORS", 96)]);
    assert_eq!(p.workgroups(10_000).x, 157);
}

#[test]
fn octree_stage_shaders() {
    let h = LeavesHistogram::new();
    assert_eq!(h.system.shader_name, "leaves_histogram");
    assert_eq!(constants(&h.system), vec![("THREAD_GROUP_SIZE", 64)]);
    let l = LevelOffsetGenerator::new(21);
    assert_eq!(l.system.shader_name, "level_offset_generator");
    assert_eq!(constants(&l.system), vec![("THREAD_GROUP_SIZE", 64), ("MAX_LEVELS", 21)]);
    let w = l.workgroups();
    assert_eq!((w.x, w.y, w.z), (1, 1, 1));
    let r = Rebalancer::new(0xFFFF_FFFF);
    assert_eq!(r.system.shader_name, "octree_rebalancer");
    assert_eq!(constants(&r.system), vec![("SENTINEL_VALUE", 0xFFFF_FFFF), ("THREAD_GROUP_SIZE", 64)]);
    let m = RebalancingOpsMarker::new();
    assert_eq!(m.system.shader_name, "rebalancing_ops_marker");
    assert_eq!(RebalancingOpsMarker::maintenance_flag(true), 1);
    assert_eq!(RebalancingOpsMarker::maintenance_flag(false), 0);
}

#[test]
fn grid_system_shaders() {
    assert_eq!(MortonEncodingSystem::new().system.shader_name, "morton_encoding");
    assert_eq!(MortonEncodingSystem::new().system.bindings.len(), 3);
    let g = GridConstructionSystem::new();
    assert_eq!(g.system.shader_name, "grid_construction");
    assert_eq!(g.system.bindings, vec![BindingKind::StorageBuffer, BindingKind::StorageImage]);
    let n = NeighborSearchSystem::new();
    assert_eq!(n.system.shader_name, "neighbor_search");
    assert_eq!(n.system.bindings, vec![BindingKind::StorageBuffer, BindingKind::StorageImage]);
    let c = ConstraintSolverSystem::new();
    assert_eq!(
        c.system.bindings,
        vec![
            BindingKind::StorageBuffer,
            BindingKind::StorageBuffer,
            BindingKind::StorageBuffer,
            BindingKind::StorageBuffer,
            BindingKind::SampledImage
        ]
    );
    assert_eq!(IntegrationSystem::new().system.shader_name, "integration");
    assert_eq!(UpdateVelocitiesSystem::new().system.shader_name, "update_velocities");
    assert_eq!(DensityComputeSystem::new().system.shader_name, "density_compute");
    let r = RearrangingSystem::new();
    assert_eq!(r.system.shader_name, "rearrange");
    assert_eq!(r.system.bindings.len(), 7);
    assert_eq!(r.workgroups(63).x, 1);
    assert_eq!(MortonEncodingSystem::new().workgroups(6400).x, 100);
    assert_eq!(GridConstructionSystem::new().workgroups(1).x, 1);
    assert_eq!(NeighborSearchSystem::new().workgroups(128).x, 2);
    assert_eq!(c.workgroups(129).x, 3);
    assert_eq!(IntegrationSystem::new().workgroups(0).x, 0);
    assert_eq!(UpdateVelocitiesSystem::new().workgroups(64).x, 1);
    assert_eq!(DensityComputeSystem::new().workgroups(65).x, 2);
}

#[test]
fn sorting_system_passes() {
    let s = SortingSystem::new(4096, None);
    assert_eq!(s.system.shader_name, "parallel_sort");
    assert_eq!(s.system.entry_points, vec!["count", "scan_reduce_table", "scatter", "reduce", "scan_add"]);
    assert_eq!(s.system.bindings.len(), 7);
    assert_eq!(s.sorting_data.layout().num_passes, 8);
    let plan = s.sort();
    assert_eq!(plan.len(), 8 * 13);
    match plan[3 * 13] {
        SortCommand::BeginIteration(p) => {
            assert_eq!(p.shift, 12);
            assert_eq!(p.push_constants.num_thread_groups, 8);
        }
        _ => panic!("the fourth iteration does not begin at its first command"),
    }
}
