use vstd::prelude::*;
pub use crate::compute::{barrier, BufferBarrier, StageBarrier};
use crate::compute::{ACCESS_SHADER_STORAGE_READ, ACCESS_SHADER_STORAGE_READ_WRITE, ACCESS_SHADER_STORAGE_WRITE, ceil_div, dispatch_rounding_up, single_pass_view, BindingKind, ComputeSystemSpec, ComputeSystemView, GroupCounts};
use crate::particles::{BufferHandle, ParticleData};
use crate::sorting::{sort_commands_spec, sorting_layout_spec, SortCommand, SortingData, BLOCK_SIZE, DEFAULT_KEY_BITS};

verus! {

/// Threads per group of the per-particle systems.
pub const SYSTEM_GROUP_SIZE: u32 = 64;

/// `n` storage-buffer bindings.
pub open spec fn storage_buffers(n: nat) -> Seq<BindingKind> {
    Seq::new(n, |i: int| BindingKind::StorageBuffer)
}

/// `n` storage-buffer bindings, built.
fn storage_buffer_bindings(n: usize) -> (r: Vec<BindingKind>)
    ensures
        r@ == storage_buffers(n as nat),
{
    let mut v: Vec<BindingKind> = Vec::new();
    let mut i: usize = 0;
    while i < n
        invariant
            i <= n,
            v@ == storage_buffers(i as nat),
        decreases n - i,
    {
        v.push(BindingKind::StorageBuffer);
        i = i + 1;
        assert(v@ =~= storage_buffers(i as nat));
    }
    v
}

/// A single-pass system of shader `name` with `n` storage-buffer bindings.
fn storage_system(name: &'static str, n: usize) -> (r: ComputeSystemSpec)
    ensures
        r@ == single_pass_view(name@, seq![], storage_buffers(n as nat)),
{
    let r = ComputeSystemSpec::single_pass(name, Vec::new(), storage_buffer_bindings(n));
    assert(r@.constants =~= seq![]);
    r
}

/// Thread groups of `SYSTEM_GROUP_SIZE` for `num_elements` particles.
fn system_workgroups(num_elements: u32) -> (r: GroupCounts)
    requires
        num_elements + SYSTEM_GROUP_SIZE - 1 <= u32::MAX,
    ensures
        r == (GroupCounts { x: ceil_div(num_elements as int, SYSTEM_GROUP_SIZE as int) as u32, y: 1, z: 1 }),
{
    dispatch_rounding_up(num_elements, SYSTEM_GROUP_SIZE)
}

/// The barriers after a pass that read and wrote the current positions, wrote the
/// current previous positions and read and wrote the current velocities: the
/// positions and previous positions are published for reading, the velocities
/// handed on for writing.
pub open spec fn particle_pass_barriers(d: ParticleData) -> Seq<BufferBarrier> {
    seq![
        barrier(d.positions_buffer.front, ACCESS_SHADER_STORAGE_READ_WRITE, ACCESS_SHADER_STORAGE_READ),
        barrier(d.previous_positions_buffer.front, ACCESS_SHADER_STORAGE_WRITE, ACCESS_SHADER_STORAGE_READ),
        barrier(d.velocities.front, ACCESS_SHADER_STORAGE_READ_WRITE, ACCESS_SHADER_STORAGE_WRITE),
    ]
}

/// The barriers of `particle_pass_barriers`, built.
fn particle_pass_barrier_list(d: &ParticleData) -> (r: Vec<BufferBarrier>)
    ensures
        r@ == particle_pass_barriers(*d),
{
    vec![
        BufferBarrier {
            buffer: d.positions_buffer.current(),
            src_access: ACCESS_SHADER_STORAGE_READ_WRITE,
            dst_access: ACCESS_SHADER_STORAGE_READ,
        },
        BufferBarrier {
            buffer: d.previous_positions_buffer.current(),
            src_access: ACCESS_SHADER_STORAGE_WRITE,
            dst_access: ACCESS_SHADER_STORAGE_READ,
        },
        BufferBarrier {
            buffer: d.velocities.current(),
            src_access: ACCESS_SHADER_STORAGE_READ_WRITE,
            dst_access: ACCESS_SHADER_STORAGE_WRITE,
        },
    ]
}

/// Transforms positions into Morton codes (Z-order curve) and element indices.
pub struct MortonEncodingSystem {
    pub system: ComputeSystemSpec,
}

impl MortonEncodingSystem {
    /// The `morton_encoding` shader with bindings for the positions, the Morton
    /// codes and the element indices.
    pub fn new() -> (r: MortonEncodingSystem)
        ensures
            r.system@ == single_pass_view("morton_encoding"@, seq![], storage_buffers(3)),
    {
        MortonEncodingSystem { system: storage_system("morton_encoding", 3) }
    }

    /// Thread groups for `num_elements` particles.
    pub fn workgroups(&self, num_elements: u32) -> (r: GroupCounts)
        requires
            num_elements + SYSTEM_GROUP_SIZE - 1 <= u32::MAX,
        ensures
            r == (GroupCounts { x: ceil_div(num_elements as int, SYSTEM_GROUP_SIZE as int) as u32, y: 1, z: 1 }),
    {
        system_workgroups(num_elements)
    }

    /// The storage buffers bound for the particle buffers `d`: the current positions, the Morton codes and the element indices.
    pub fn bound_buffers(&self, d: &ParticleData) -> (r: Vec<BufferHandle>)
        ensures
            r@ == seq![d.positions_buffer.front, d.morton_codes_buffer, d.object_indices_buffer],
    {
        vec![d.positions_buffer.current(), d.morton_codes_buffer, d.object_indices_buffer]
    }

    /// The barriers recorded after the dispatch, for the particle buffers `d`:
    /// the Morton codes and element indices published for reading.
    pub fn barriers_after(&self, d: &ParticleData) -> (r: Vec<BufferBarrier>)
        ensures
            r@ == seq![barrier(d.morton_codes_buffer, ACCESS_SHADER_STORAGE_WRITE, ACCESS_SHADER_STORAGE_READ), barrier(d.object_indices_buffer, ACCESS_SHADER_STORAGE_WRITE, ACCESS_SHADER_STORAGE_READ)],
    {
        vec![
            BufferBarrier { buffer: d.morton_codes_buffer, src_access: ACCESS_SHADER_STORAGE_WRITE, dst_access: ACCESS_SHADER_STORAGE_READ },
            BufferBarrier { buffer: d.object_indices_buffer, src_access: ACCESS_SHADER_STORAGE_WRITE, dst_access: ACCESS_SHADER_STORAGE_READ },
        ]
    }
}

/// Fills the grid texture with the range of sorted particles of every cell.
pub struct GridConstructionSystem {
    pub system: ComputeSystemSpec,
}

impl GridConstructionSystem {
    /// The `grid_construction` shader with the Morton codes as storage buffer and
    /// the grid texture as storage image.
    pub fn new() -> (r: GridConstructionSystem)
        ensures
            r.system@ == single_pass_view("grid_construction"@, seq![], seq![BindingKind::StorageBuffer, BindingKind::StorageImage]),
    {
        let system = ComputeSystemSpec::single_pass(
            "grid_construction",
            Vec::new(),
            vec![BindingKind::StorageBuffer, BindingKind::StorageImage],
        );
        assert(system@.constants =~= seq![]);
        GridConstructionSystem { system }
    }

    /// Thread groups for `num_elements` particles.
    pub fn workgroups(&self, num_elements: u32) -> (r: GroupCounts)
        requires
            num_elements + SYSTEM_GROUP_SIZE - 1 <= u32::MAX,
        ensures
            r == (GroupCounts { x: ceil_div(num_elements as int, SYSTEM_GROUP_SIZE as int) as u32, y: 1, z: 1 }),
    {
        system_workgroups(num_elements)
    }

    /// The storage buffers bound for the particle buffers `d`: the Morton codes.
    pub fn bound_buffers(&self, d: &ParticleData) -> (r: Vec<BufferHandle>)
        ensures
            r@ == seq![d.morton_codes_buffer],
    {
        vec![d.morton_codes_buffer]
    }
}

/// Marks the neighbor cells of every occupied cell in the grid texture.
pub struct NeighborSearchSystem {
    pub system: ComputeSystemSpec,
}

impl NeighborSearchSystem {
    /// The `neighbor_search` shader with the Morton codes as storage buffer and the
    /// grid texture as storage image.
    pub fn new() -> (r: NeighborSearchSystem)
        ensures
            r.system@ == single_pass_view("neighbor_search"@, seq![], seq![BindingKind::StorageBuffer, BindingKind::StorageImage]),
    {
        let system = ComputeSystemSpec::single_pass(
            "neighbor_search",
            Vec::new(),
            vec![BindingKind::StorageBuffer, BindingKind::StorageImage],
        );
        assert(system@.constants =~= seq![]);
        NeighborSearchSystem { system }
    }

    /// Thread groups for `num_elements` particles.
    pub fn workgroups(&self, num_elements: u32) -> (r: GroupCounts)
        requires
            num_elements + SYSTEM_GROUP_SIZE - 1 <= u32::MAX,
        ensures
            r == (GroupCounts { x: ceil_div(num_elements as int, SYSTEM_GROUP_SIZE as int) as u32, y: 1, z: 1 }),
    {
        system_workgroups(num_elements)
    }

    /// The storage buffers bound for the particle buffers `d`: the Morton codes.
    pub fn bound_buffers(&self, d: &ParticleData) -> (r: Vec<BufferHandle>)
        ensures
            r@ == seq![d.morton_codes_buffer],
    {
        vec![d.morton_codes_buffer]
    }
}

/// The grid-based constraint solver.
pub struct ConstraintSolverSystem {
    pub system: ComputeSystemSpec,
}

/// The bindings of the grid-based constraint solver: positions read and written,
/// densities, multipliers, then the grid texture.
pub open spec fn constraint_solver_bindings() -> Seq<BindingKind> {
    storage_buffers(4).push(BindingKind::SampledImage)
}

impl ConstraintSolverSystem {
    /// The `constraint_solver` shader over the grid.
    pub fn new() -> (r: ConstraintSolverSystem)
        ensures
            r.system@ == single_pass_view("constraint_solver"@, seq![], constraint_solver_bindings()),
    {
        let mut bindings = storage_buffer_bindings(4);
        bindings.push(BindingKind::SampledImage);
        let system = ComputeSystemSpec::single_pass("constraint_solver", Vec::new(), bindings);
        assert(system@.constants =~= seq![]);
        ConstraintSolverSystem { system }
    }

    /// Thread groups for `num_elements` particles.
    pub fn workgroups(&self, num_elements: u32) -> (r: GroupCounts)
        requires
            num_elements + SYSTEM_GROUP_SIZE - 1 <= u32::MAX,
        ensures
            r == (GroupCounts { x: ceil_div(num_elements as int, SYSTEM_GROUP_SIZE as int) as u32, y: 1, z: 1 }),
    {
        system_workgroups(num_elements)
    }

    /// The storage buffers bound for the particle buffers `d`: the positions it reads (current) and writes (next), the densities and the multipliers.
    pub fn bound_buffers(&self, d: &ParticleData) -> (r: Vec<BufferHandle>)
        ensures
            r@ == seq![d.positions_buffer.front, d.positions_buffer.back, d.densities, d.lambdas],
    {
        let (read_positions, write_positions) = d.positions_buffer.read_write();
        vec![read_positions, write_positions, d.densities, d.lambdas]
    }

    /// The barriers recorded after the dispatch, for the particle buffers `d`:
    /// the positions read handed on for reading and writing, and the positions written published for reading and writing.
    pub fn barriers_after(&self, d: &ParticleData) -> (r: Vec<BufferBarrier>)
        ensures
            r@ == seq![barrier(d.positions_buffer.front, ACCESS_SHADER_STORAGE_READ, ACCESS_SHADER_STORAGE_READ_WRITE), barrier(d.positions_buffer.back, ACCESS_SHADER_STORAGE_WRITE, ACCESS_SHADER_STORAGE_READ_WRITE)],
    {
        let (read_positions, write_positions) = d.positions_buffer.read_write();
        vec![
            BufferBarrier { buffer: read_positions, src_access: ACCESS_SHADER_STORAGE_READ, dst_access: ACCESS_SHADER_STORAGE_READ_WRITE },
            BufferBarrier { buffer: write_positions, src_access: ACCESS_SHADER_STORAGE_WRITE, dst_access: ACCESS_SHADER_STORAGE_READ_WRITE },
        ]
    }
}

/// The grid-based integration.
pub struct IntegrationSystem {
    pub system: ComputeSystemSpec,
}

impl IntegrationSystem {
    /// The `integration` shader with bindings for positions, previous positions and
    /// velocities.
    pub fn new() -> (r: IntegrationSystem)
        ensures
            r.system@ == single_pass_view("integration"@, seq![], storage_buffers(3)),
    {
        IntegrationSystem { system: storage_system("integration", 3) }
    }

    /// Thread groups for `num_elements` particles.
    pub fn workgroups(&self, num_elements: u32) -> (r: GroupCounts)
        requires
            num_elements + SYSTEM_GROUP_SIZE - 1 <= u32::MAX,
        ensures
            r == (GroupCounts { x: ceil_div(num_elements as int, SYSTEM_GROUP_SIZE as int) as u32, y: 1, z: 1 }),
    {
        system_workgroups(num_elements)
    }

    /// The storage buffers bound for the particle buffers `d`: the current positions, previous positions and velocities.
    pub fn bound_buffers(&self, d: &ParticleData) -> (r: Vec<BufferHandle>)
        ensures
            r@ == seq![d.positions_buffer.front, d.previous_positions_buffer.front, d.velocities.front],
    {
        vec![d.positions_buffer.current(), d.previous_positions_buffer.current(), d.velocities.current()]
    }

    /// The barriers recorded after the dispatch, for the particle buffers `d`:
    /// the current positions and previous positions published for reading, the current velocities handed on for writing.
    pub fn barriers_after(&self, d: &ParticleData) -> (r: Vec<BufferBarrier>)
        ensures
            r@ == particle_pass_barriers(*d),
    {
        particle_pass_barrier_list(d)
    }
}

/// The grid-based velocity update.
pub struct UpdateVelocitiesSystem {
    pub system: ComputeSystemSpec,
}

impl UpdateVelocitiesSystem {
    /// The `update_velocities` shader with bindings for positions, previous
    /// positions and velocities.
    pub fn new() -> (r: UpdateVelocitiesSystem)
        ensures
            r.system@ == single_pass_view("update_velocities"@, seq![], storage_buffers(3)),
    {
        UpdateVelocitiesSystem { system: storage_system("update_velocities", 3) }
    }

    /// Thread groups for `num_elements` particles.
    pub fn workgroups(&self, num_elements: u32) -> (r: GroupCounts)
        requires
            num_elements + SYSTEM_GROUP_SIZE - 1 <= u32::MAX,
        ensures
            r == (GroupCounts { x: ceil_div(num_elements as int, SYSTEM_GROUP_SIZE as int) as u32, y: 1, z: 1 }),
    {
        system_workgroups(num_elements)
    }

    /// The storage buffers bound for the particle buffers `d`: the current positions, previous positions and velocities.
    pub fn bound_buffers(&self, d: &ParticleData) -> (r: Vec<BufferHandle>)
        ensures
            r@ == seq![d.positions_buffer.front, d.previous_positions_buffer.front, d.velocities.front],
    {
        vec![d.positions_buffer.current(), d.previous_positions_buffer.current(), d.velocities.current()]
    }

    /// The barrier recorded after the dispatch, for the particle buffers `d`: the
    /// current positions handed from the compute queue to the graphics queue for
    /// reading.
    pub fn barriers_after(&self, d: &ParticleData) -> (r: Vec<StageBarrier>)
        ensures
            r@ == seq![StageBarrier::ComputeToGraphics(
                barrier(d.positions_buffer.front, ACCESS_SHADER_STORAGE_WRITE, ACCESS_SHADER_STORAGE_READ),
            )],
    {
        vec![StageBarrier::ComputeToGraphics(BufferBarrier {
            buffer: d.positions_buffer.current(),
            src_access: ACCESS_SHADER_STORAGE_WRITE,
            dst_access: ACCESS_SHADER_STORAGE_READ,
        })]
    }
}

/// The grid-based density computation, bound through push descriptors.
pub struct DensityComputeSystem {
    pub system: ComputeSystemSpec,
}

impl DensityComputeSystem {
    /// The `density_compute` shader with bindings for positions, previous positions
    /// and velocities.
    pub fn new() -> (r: DensityComputeSystem)
        ensures
            r.system@ == single_pass_view("density_compute"@, seq![], storage_buffers(3)),
    {
        DensityComputeSystem { system: storage_system("density_compute", 3) }
    }

    /// Thread groups for `num_elements` particles.
    pub fn workgroups(&self, num_elements: u32) -> (r: GroupCounts)
        requires
            num_elements + SYSTEM_GROUP_SIZE - 1 <= u32::MAX,
        ensures
            r == (GroupCounts { x: ceil_div(num_elements as int, SYSTEM_GROUP_SIZE as int) as u32, y: 1, z: 1 }),
    {
        system_workgroups(num_elements)
    }

    /// The storage buffers bound for the particle buffers `d`: the current positions, previous positions and velocities.
    pub fn bound_buffers(&self, d: &ParticleData) -> (r: Vec<BufferHandle>)
        ensures
            r@ == seq![d.positions_buffer.front, d.previous_positions_buffer.front, d.velocities.front],
    {
        vec![d.positions_buffer.current(), d.previous_positions_buffer.current(), d.velocities.current()]
    }

    /// The barriers recorded after the dispatch, for the particle buffers `d`:
    /// the current positions and previous positions published for reading, the current velocities handed on for writing.
    pub fn barriers_after(&self, d: &ParticleData) -> (r: Vec<BufferBarrier>)
        ensures
            r@ == particle_pass_barriers(*d),
    {
        particle_pass_barrier_list(d)
    }
}

/// Moves the particle attributes into the order of the sorted indices, bound
/// through push descriptors.
pub struct RearrangingSystem {
    pub system: ComputeSystemSpec,
}

impl RearrangingSystem {
    /// The `rearrange` shader with bindings for source and destination positions,
    /// previous positions and velocities, then the sorted indices.
    pub fn new() -> (r: RearrangingSystem)
        ensures
            r.system@ == single_pass_view("rearrange"@, seq![], storage_buffers(7)),
    {
        RearrangingSystem { system: storage_system("rearrange", 7) }
    }

    /// Thread groups for `num_elements` particles.
    pub fn workgroups(&self, num_elements: u32) -> (r: GroupCounts)
        requires
            num_elements + SYSTEM_GROUP_SIZE - 1 <= u32::MAX,
        ensures
            r == (GroupCounts { x: ceil_div(num_elements as int, SYSTEM_GROUP_SIZE as int) as u32, y: 1, z: 1 }),
    {
        system_workgroups(num_elements)
    }

    /// The storage buffers bound for the particle buffers `d`: each pair's current buffer as source and its next buffer as destination (positions, previous positions, velocities), then the sorted indices.
    pub fn bound_buffers(&self, d: &ParticleData) -> (r: Vec<BufferHandle>)
        ensures
            r@ == seq![d.positions_buffer.front, d.positions_buffer.back, d.previous_positions_buffer.front, d.previous_positions_buffer.back, d.velocities.front, d.velocities.back, d.object_indices_buffer],
    {
        let (src_positions, dst_positions) = d.positions_buffer.read_write();
        let (src_previous, dst_previous) = d.previous_positions_buffer.read_write();
        let (src_velocities, dst_velocities) = d.velocities.read_write();
        vec![src_positions, dst_positions, src_previous, dst_previous, src_velocities, dst_velocities, d.object_indices_buffer]
    }

    /// The barriers recorded after the dispatch, for the particle buffers `d`:
    /// the next positions, previous positions and velocities, just written, published for reading.
    pub fn barriers_after(&self, d: &ParticleData) -> (r: Vec<BufferBarrier>)
        ensures
            r@ == seq![barrier(d.positions_buffer.back, ACCESS_SHADER_STORAGE_WRITE, ACCESS_SHADER_STORAGE_READ), barrier(d.previous_positions_buffer.back, ACCESS_SHADER_STORAGE_WRITE, ACCESS_SHADER_STORAGE_READ), barrier(d.velocities.back, ACCESS_SHADER_STORAGE_WRITE, ACCESS_SHADER_STORAGE_READ)],
    {
        vec![
            BufferBarrier { buffer: d.positions_buffer.next(), src_access: ACCESS_SHADER_STORAGE_WRITE, dst_access: ACCESS_SHADER_STORAGE_READ },
            BufferBarrier {
                buffer: d.previous_positions_buffer.next(),
                src_access: ACCESS_SHADER_STORAGE_WRITE,
                dst_access: ACCESS_SHADER_STORAGE_READ,
            },
            BufferBarrier { buffer: d.velocities.next(), src_access: ACCESS_SHADER_STORAGE_WRITE, dst_access: ACCESS_SHADER_STORAGE_READ },
        ]
    }
}

/// The GPU radix sort of keys with a payload.
pub struct SortingSystem {
    pub system: ComputeSystemSpec,
    pub sorting_data: SortingData,
}

/// The sort's shader: one pipeline per pass, and bindings for the keys and
/// payload read and written, the histogram, the reduce table and the scan scratch.
pub open spec fn sorting_system_view() -> ComputeSystemView {
    ComputeSystemView {
        shader_name: "parallel_sort"@,
        entry_points: seq!["count"@, "scan_reduce_table"@, "scatter"@, "reduce"@, "scan_add"@],
        constants: seq![],
        bindings: storage_buffers(7),
    }
}

impl SortingSystem {
    /// The sort for up to `max_keys` keys of `keys_bit_count` bits (32 when `None`).
    pub fn new(max_keys: u32, keys_bit_count: Option<u32>) -> (r: SortingSystem)
        requires
            max_keys + BLOCK_SIZE <= u32::MAX,
        ensures
            r.system@ == sorting_system_view(),
            r.sorting_data@ == sorting_layout_spec(max_keys, match keys_bit_count {
                Some(b) => b,
                None => DEFAULT_KEY_BITS,
            }),
    {
        let entry_points = vec!["count", "scan_reduce_table", "scatter", "reduce", "scan_add"];
        let system = ComputeSystemSpec {
            shader_name: "parallel_sort",
            entry_points,
            constants: Vec::new(),
            bindings: storage_buffer_bindings(7),
        };
        assert(system@.entry_points =~= seq!["count"@, "scan_reduce_table"@, "scatter"@, "reduce"@, "scan_add"@]);
        assert(system@.constants =~= seq![]);
        let sorting_data = SortingData::new(max_keys, keys_bit_count);
        SortingSystem { system, sorting_data }
    }

    /// The commands of a sort over all `max_keys` keys (see `SortingData::pass_plan`).
    pub fn sort(&self) -> (r: Vec<SortCommand>)
        requires
            self.sorting_data@.num_passes == 0 || self.sorting_data@.num_keys >= 1,
        ensures
            r@ == sort_commands_spec(self.sorting_data@.num_keys, self.sorting_data@.num_passes as nat),
    {
        self.sorting_data.pass_plan()
    }
}

} // verus!
