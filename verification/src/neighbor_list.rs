use vstd::prelude::*;
use crate::compute::{
    barrier, ceil_div, dispatch_for_elements, single_pass_view, BufferBarrier, ComputeSystemSpec, GroupCounts, ShaderConstant,
    StageBarrier, ACCESS_SHADER_STORAGE_READ, ACCESS_SHADER_STORAGE_READ_WRITE, ACCESS_SHADER_STORAGE_WRITE, ACCESS_TRANSFER_WRITE,
};
use crate::particles::BufferHandle;

verus! {

/// Capacity of the neighbor list of one leaf.
pub const MAX_LEAF_NEIGHBORS: u32 = 256;
/// Capacity of the neighbor list of one particle.
pub const MAX_PARTICLE_NEIGHBORS: u32 = 96;
/// Threads per group of the particle-to-particle neighbor pass.
pub const P2P_THREAD_GROUP_SIZE: u32 = 64;

/// The leaf-to-leaf neighbor search over the octree, run by a persistent set of
/// thread groups of `super_cluster_size` threads.
pub struct NeighborSearch {
    pub system: ComputeSystemSpec,
    pub super_cluster_size: u32,
}

/// The specialization constants of the neighbor search, in order.
pub open spec fn neighbor_search_constants(
    super_cluster_size: u32,
    max_levels: u32,
    max_neighbor_capacity: u32,
    wave_size: u32,
    queue_memory_per_workgroup: u32,
) -> Seq<(Seq<char>, u32)> {
    seq![
        ("THREAD_GROUP_SIZE"@, super_cluster_size),
        ("MAX_LEVELS"@, max_levels),
        ("MAX_NEIGHBOR_CAPACITY"@, max_neighbor_capacity),
        ("WAVE_SIZE"@, wave_size),
        ("QUEUE_MEMORY_PER_WORKGROUP"@, queue_memory_per_workgroup),
    ]
}

impl NeighborSearch {
    /// The `build_neighbor_list` shader specialized with the thread-group size
    /// (`super_cluster_size`), the octree depth, the neighbor capacity, the
    /// device's subgroup size and the per-group queue memory.
    pub fn new(
        super_cluster_size: u32,
        max_levels: u32,
        max_neighbor_capacity: u32,
        wave_size: u32,
        queue_memory_per_workgroup: u32,
    ) -> (r: NeighborSearch)
        ensures
            r.super_cluster_size == super_cluster_size,
            r.system@ == single_pass_view(
                "build_neighbor_list"@,
                neighbor_search_constants(super_cluster_size, max_levels, max_neighbor_capacity, wave_size, queue_memory_per_workgroup),
                seq![],
            ),
    {
        let constants = vec![
            ShaderConstant { name: "THREAD_GROUP_SIZE", value: super_cluster_size },
            ShaderConstant { name: "MAX_LEVELS", value: max_levels },
            ShaderConstant { name: "MAX_NEIGHBOR_CAPACITY", value: max_neighbor_capacity },
            ShaderConstant { name: "WAVE_SIZE", value: wave_size },
            ShaderConstant { name: "QUEUE_MEMORY_PER_WORKGROUP", value: queue_memory_per_workgroup },
        ];
        let system = ComputeSystemSpec::single_pass("build_neighbor_list", constants, Vec::new());
        assert(system@.constants =~= neighbor_search_constants(
            super_cluster_size, max_levels, max_neighbor_capacity, wave_size, queue_memory_per_workgroup));
        assert(system@.bindings =~= seq![]);
        NeighborSearch { system, super_cluster_size }
    }

    /// The search runs as many thread groups as the device keeps resident at once.
    pub fn workgroups(&self, num_persistent_workgroups: u32) -> (r: GroupCounts)
        ensures
            r == (GroupCounts { x: num_persistent_workgroups, y: 1, z: 1 }),
    {
        GroupCounts::linear(num_persistent_workgroups)
    }
}

/// The buffers of a neighbor list.
#[derive(Clone, Copy, Debug, PartialEq, Eq, Structural)]
pub struct NeighborListBuffers {
    pub leaf_to_leaf_neighbors: BufferHandle,
    pub processed_leaves_counter: BufferHandle,
    pub particle_to_neighborhood: BufferHandle,
    pub neighbor_particle_indices: BufferHandle,
}

/// The neighbor list of the particles: its buffers and the search that fills them.
pub struct NeighborList {
    pub data: NeighborListBuffers,
    pub neighbor_search: NeighborSearch,
}

impl NeighborList {
    /// A neighbor list over `data`, searched in thread groups of `n_crit` threads
    /// over an octree of `max_levels` levels.
    pub fn new(
        data: NeighborListBuffers,
        n_crit: u32,
        max_levels: u32,
        max_neighbor_capacity: u32,
        wave_size: u32,
        queue_memory_per_workgroup: u32,
    ) -> (r: NeighborList)
        ensures
            r.data == data,
            r.neighbor_search.super_cluster_size == n_crit,
            r.neighbor_search.system@ == single_pass_view(
                "build_neighbor_list"@,
                neighbor_search_constants(n_crit, max_levels, max_neighbor_capacity, wave_size, queue_memory_per_workgroup),
                seq![],
            ),
    {
        let neighbor_search = NeighborSearch::new(n_crit, max_levels, max_neighbor_capacity, wave_size, queue_memory_per_workgroup);
        NeighborList { data, neighbor_search }
    }

    /// Label of the neighbor-list construction in GPU profiles.
    pub fn profiling_label() -> (r: &'static str)
        ensures
            r@ == "Neighbor list construction"@,
    {
        "Neighbor list construction"
    }

    pub fn leaf_to_leaf_neighbors(&self) -> (r: BufferHandle)
        ensures
            r == self.data.leaf_to_leaf_neighbors,
    {
        self.data.leaf_to_leaf_neighbors
    }

    /// Capacity of the neighbor list of one leaf.
    pub fn max_leaf_neighbors() -> (r: u32)
        ensures
            r == MAX_LEAF_NEIGHBORS,
    {
        MAX_LEAF_NEIGHBORS
    }

    /// Capacity of the neighbor list of one particle.
    pub fn max_particle_neighbors() -> (r: u32)
        ensures
            r == MAX_PARTICLE_NEIGHBORS,
    {
        MAX_PARTICLE_NEIGHBORS
    }

    pub fn processed_leaves_counter(&self) -> (r: BufferHandle)
        ensures
            r == self.data.processed_leaves_counter,
    {
        self.data.processed_leaves_counter
    }

    pub fn particle_to_neighborhood(&self) -> (r: BufferHandle)
        ensures
            r == self.data.particle_to_neighborhood,
    {
        self.data.particle_to_neighborhood
    }

    pub fn neighbor_particle_indices(&self) -> (r: BufferHandle)
        ensures
            r == self.data.neighbor_particle_indices,
    {
        self.data.neighbor_particle_indices
    }
}

/// Bytes of the neighbor allocator's counter.
pub const ALLOCATOR_COUNTER_SIZE: u64 = 4;

/// One GPU step of building the per-particle neighbor lists.
#[derive(Clone, Copy, Debug, PartialEq, Eq, Structural)]
pub enum ParticleNeighborsStep {
    /// Fill the first `size` bytes of `buffer` with zero.
    Clear { buffer: BufferHandle, size: u64 },
    /// Dispatch the neighbor pass over `groups` thread groups.
    Dispatch { groups: GroupCounts },
    /// A memory barrier.
    Barrier(StageBarrier),
}

/// The build of the per-particle neighbor lists of `num_particles` particles with
/// the neighbor allocator `allocator`: clear the allocator's counter and publish
/// it to the pass, dispatch one thread per particle, then publish the allocator
/// for reading and writing and the neighbor indices and ranges for reading.
pub open spec fn particle_neighbors_plan_spec(
    allocator: BufferHandle,
    data: NeighborListBuffers,
    num_particles: u32,
) -> Seq<ParticleNeighborsStep> {
    seq![
        ParticleNeighborsStep::Clear { buffer: allocator, size: ALLOCATOR_COUNTER_SIZE },
        ParticleNeighborsStep::Barrier(StageBarrier::TransferToCompute(
            barrier(allocator, ACCESS_TRANSFER_WRITE, ACCESS_SHADER_STORAGE_READ),
        )),
        ParticleNeighborsStep::Dispatch {
            groups: GroupCounts { x: ceil_div(num_particles as int, P2P_THREAD_GROUP_SIZE as int) as u32, y: 1, z: 1 },
        },
        ParticleNeighborsStep::Barrier(StageBarrier::ComputeToCompute(
            barrier(allocator, ACCESS_SHADER_STORAGE_WRITE, ACCESS_SHADER_STORAGE_READ_WRITE),
        )),
        ParticleNeighborsStep::Barrier(StageBarrier::ComputeToCompute(
            barrier(data.neighbor_particle_indices, ACCESS_SHADER_STORAGE_WRITE, ACCESS_SHADER_STORAGE_READ),
        )),
        ParticleNeighborsStep::Barrier(StageBarrier::ComputeToCompute(
            barrier(data.particle_to_neighborhood, ACCESS_SHADER_STORAGE_WRITE, ACCESS_SHADER_STORAGE_READ),
        )),
    ]
}

/// The pass that turns leaf-to-leaf neighbors into per-particle neighbor lists.
pub struct ParticleToParticleNeighborsConstructor {
    pub system: ComputeSystemSpec,
}

impl ParticleToParticleNeighborsConstructor {
    /// The `build_particle_to_particle_neighbors` shader specialized with its
    /// thread-group size and the per-particle neighbor capacity.
    pub fn new() -> (r: ParticleToParticleNeighborsConstructor)
        ensures
            r.system@ == single_pass_view(
                "build_particle_to_particle_neighbors"@,
                seq![("THREAD_GROUP_SIZE"@, P2P_THREAD_GROUP_SIZE), ("MAX_PARTICLE_NEIGHBORS"@, MAX_PARTICLE_NEIGHBORS)],
                seq![],
            ),
    {
        let constants = vec![
            ShaderConstant { name: "THREAD_GROUP_SIZE", value: P2P_THREAD_GROUP_SIZE },
            ShaderConstant { name: "MAX_PARTICLE_NEIGHBORS", value: NeighborList::max_particle_neighbors() },
        ];
        let system = ComputeSystemSpec::single_pass("build_particle_to_particle_neighbors", constants, Vec::new());
        assert(system@.constants =~= seq![
            ("THREAD_GROUP_SIZE"@, P2P_THREAD_GROUP_SIZE),
            ("MAX_PARTICLE_NEIGHBORS"@, MAX_PARTICLE_NEIGHBORS),
        ]);
        assert(system@.bindings =~= seq![]);
        ParticleToParticleNeighborsConstructor { system }
    }

    /// Thread groups for `num_particles` particles, one thread each.
    pub fn workgroups(&self, num_particles: u32) -> (r: GroupCounts)
        requires
            num_particles + P2P_THREAD_GROUP_SIZE <= u32::MAX,
        ensures
            r == (GroupCounts { x: ceil_div(num_particles as int, P2P_THREAD_GROUP_SIZE as int) as u32, y: 1, z: 1 }),
    {
        dispatch_for_elements(num_particles, P2P_THREAD_GROUP_SIZE)
    }

    /// The steps of building the per-particle neighbor lists of `num_particles`
    /// particles into `data`, with the neighbor allocator `allocator`.
    pub fn build_plan(&self, allocator: BufferHandle, data: &NeighborListBuffers, num_particles: u32) -> (r: Vec<
        ParticleNeighborsStep,
    >)
        requires
            num_particles + P2P_THREAD_GROUP_SIZE <= u32::MAX,
        ensures
            r@ == particle_neighbors_plan_spec(allocator, *data, num_particles),
    {
        let w = ACCESS_SHADER_STORAGE_WRITE;
        let groups = self.workgroups(num_particles);
        vec![
            ParticleNeighborsStep::Clear { buffer: allocator, size: ALLOCATOR_COUNTER_SIZE },
            ParticleNeighborsStep::Barrier(StageBarrier::TransferToCompute(BufferBarrier {
                buffer: allocator,
                src_access: ACCESS_TRANSFER_WRITE,
                dst_access: ACCESS_SHADER_STORAGE_READ,
            })),
            ParticleNeighborsStep::Dispatch { groups },
            ParticleNeighborsStep::Barrier(StageBarrier::ComputeToCompute(BufferBarrier {
                buffer: allocator,
                src_access: w,
                dst_access: ACCESS_SHADER_STORAGE_READ_WRITE,
            })),
            ParticleNeighborsStep::Barrier(StageBarrier::ComputeToCompute(BufferBarrier {
                buffer: data.neighbor_particle_indices,
                src_access: w,
                dst_access: ACCESS_SHADER_STORAGE_READ,
            })),
            ParticleNeighborsStep::Barrier(StageBarrier::ComputeToCompute(BufferBarrier {
                buffer: data.particle_to_neighborhood,
                src_access: w,
                dst_access: ACCESS_SHADER_STORAGE_READ,
            })),
        ]
    }
}

} // verus!
