use vstd::prelude::*;
pub use crate::compute::{ACCESS_SHADER_STORAGE_READ, ACCESS_SHADER_STORAGE_READ_WRITE};
use crate::compute::{single_pass_view, ComputeSystemSpec, GroupCounts, ShaderConstant};

verus! {

/// Threads per group of the octree passes.
pub const THREAD_GROUP_SIZE: u32 = 64;

/// Counts the particles inside each leaf of the cornerstone array.
pub struct LeavesHistogram {
    pub system: ComputeSystemSpec,
}

impl LeavesHistogram {
    /// The `leaves_histogram` shader, specialized with `THREAD_GROUP_SIZE`.
    pub fn new() -> (r: LeavesHistogram)
        ensures
            r.system@ == single_pass_view("leaves_histogram"@, seq![("THREAD_GROUP_SIZE"@, THREAD_GROUP_SIZE)], seq![]),
    {
        let constants = vec![ShaderConstant { name: "THREAD_GROUP_SIZE", value: THREAD_GROUP_SIZE }];
        let system = ComputeSystemSpec::single_pass("leaves_histogram", constants, Vec::new());
        assert(system@.constants =~= seq![("THREAD_GROUP_SIZE"@, THREAD_GROUP_SIZE)]);
        assert(system@.bindings =~= seq![]);
        LeavesHistogram { system }
    }
}

/// Computes where each level of the octree starts among the sorted node keys.
pub struct LevelOffsetGenerator {
    pub system: ComputeSystemSpec,
}

impl LevelOffsetGenerator {
    /// The `level_offset_generator` shader, specialized with `THREAD_GROUP_SIZE`
    /// and the octree depth.
    pub fn new(max_levels: u32) -> (r: LevelOffsetGenerator)
        ensures
            r.system@ == single_pass_view(
                "level_offset_generator"@,
                seq![("THREAD_GROUP_SIZE"@, THREAD_GROUP_SIZE), ("MAX_LEVELS"@, max_levels)],
                seq![],
            ),
    {
        let constants = vec![
            ShaderConstant { name: "THREAD_GROUP_SIZE", value: THREAD_GROUP_SIZE },
            ShaderConstant { name: "MAX_LEVELS", value: max_levels },
        ];
        let system = ComputeSystemSpec::single_pass("level_offset_generator", constants, Vec::new());
        assert(system@.constants =~= seq![("THREAD_GROUP_SIZE"@, THREAD_GROUP_SIZE), ("MAX_LEVELS"@, max_levels)]);
        assert(system@.bindings =~= seq![]);
        LevelOffsetGenerator { system }
    }

    /// The level offsets are computed by a single thread group.
    pub fn workgroups(&self) -> (r: GroupCounts)
        ensures
            r == (GroupCounts { x: 1, y: 1, z: 1 }),
    {
        GroupCounts { x: 1, y: 1, z: 1 }
    }
}

/// Applies the marked merge and split operations to the cornerstone array.
pub struct Rebalancer {
    pub system: ComputeSystemSpec,
}

impl Rebalancer {
    /// The `octree_rebalancer` shader, specialized with the sentinel key and
    /// `THREAD_GROUP_SIZE`.
    pub fn new(sentinel_value: u32) -> (r: Rebalancer)
        ensures
            r.system@ == single_pass_view(
                "octree_rebalancer"@,
                seq![("SENTINEL_VALUE"@, sentinel_value), ("THREAD_GROUP_SIZE"@, THREAD_GROUP_SIZE)],
                seq![],
            ),
    {
        let constants = vec![
            ShaderConstant { name: "SENTINEL_VALUE", value: sentinel_value },
            ShaderConstant { name: "THREAD_GROUP_SIZE", value: THREAD_GROUP_SIZE },
        ];
        let system = ComputeSystemSpec::single_pass("octree_rebalancer", constants, Vec::new());
        assert(system@.constants =~= seq![("SENTINEL_VALUE"@, sentinel_value), ("THREAD_GROUP_SIZE"@, THREAD_GROUP_SIZE)]);
        assert(system@.bindings =~= seq![]);
        Rebalancer { system }
    }
}

/// Marks each leaf to be merged, split or kept, from its particle count.
pub struct RebalancingOpsMarker {
    pub system: ComputeSystemSpec,
}

impl RebalancingOpsMarker {
    /// The `rebalancing_ops_marker` shader, specialized with `THREAD_GROUP_SIZE`.
    pub fn new() -> (r: RebalancingOpsMarker)
        ensures
            r.system@ == single_pass_view("rebalancing_ops_marker"@, seq![("THREAD_GROUP_SIZE"@, THREAD_GROUP_SIZE)], seq![]),
    {
        let constants = vec![ShaderConstant { name: "THREAD_GROUP_SIZE", value: THREAD_GROUP_SIZE }];
        let system = ComputeSystemSpec::single_pass("rebalancing_ops_marker", constants, Vec::new());
        assert(system@.constants =~= seq![("THREAD_GROUP_SIZE"@, THREAD_GROUP_SIZE)]);
        assert(system@.bindings =~= seq![]);
        RebalancingOpsMarker { system }
    }

    /// The maintenance-mode flag as the shader reads it.
    pub fn maintenance_flag(maintenance_mode: bool) -> (r: u32)
        ensures
            r == maintenance_flag_spec(maintenance_mode),
    {
        if maintenance_mode { 1 } else { 0 }
    }
}

/// Raw value of `VK_WHOLE_SIZE`.
pub const WHOLE_SIZE: u64 = 0xFFFF_FFFF_FFFF_FFFF;
/// Bytes of the "was changed" flag.
pub const CHANGED_FLAG_SIZE: u64 = 4;
/// Byte offset of the saved leaf dispatch arguments in the leaves' indirect
/// dispatch buffer.
pub const SAVED_LEAF_DISPATCH_OFFSET: u64 = 16;
/// Byte size of indirect dispatch arguments (three `u32` group counts).
pub const DISPATCH_ARGS_SIZE: u64 = 12;

/// A buffer of the octree that the construction synchronizes on.
#[derive(Clone, Copy, Debug, PartialEq, Eq, Structural)]
pub enum OctreeResource {
    WasChanged,
    LeavesHistogram,
    RebalanceOps,
    IndirectDispatchLeaves,
    LeafCount,
    CornerstoneArray,
    NodeKeys,
    NodeCount,
    LeafParticles,
    UnsortedLeafParticles,
    LevelOffsets,
    IndirectDispatchNodes,
    NodeFirstChild,
    NodeBoundingBoxes,
}

/// A memory barrier on `size` bytes (`WHOLE_SIZE` for all) of one buffer.
#[derive(Clone, Copy, Debug, PartialEq, Eq, Structural)]
pub enum OctreeBarrier {
    /// A transfer write made visible to compute accesses `dst_access`.
    TransferToCompute { resource: OctreeResource, size: u64, dst_access: u64 },
    /// A compute write made visible to compute accesses `dst_access`.
    ComputeToCompute { resource: OctreeResource, size: u64, dst_access: u64 },
    /// A compute write made visible to indirect-dispatch reads.
    ComputeToIndirect { resource: OctreeResource, size: u64 },
}

/// One GPU step of the octree construction. Consecutive barriers are recorded in
/// one pipeline barrier.
#[derive(Clone, Copy, Debug, PartialEq, Eq, Structural)]
pub enum OctreeStep {
    /// Fill the first `size` bytes of the "was changed" flag with zero.
    ClearChangedFlag { size: u64 },
    /// Count the particles of every leaf.
    CountLeafParticles,
    /// Mark every leaf for merge, split or nothing, with the critical particle
    /// count `n_crit` and the maintenance-mode flag (1 on, 0 off).
    MarkRebalancingOps { n_crit: u32, maintenance_mode: u32 },
    /// Prefix sum of the rebalancing marks.
    PrefixSumRebalanceOps,
    /// Apply the marks, writing the next cornerstone array.
    Rebalance,
    /// Make the cornerstone array just written the current one.
    SwapCornerstone,
    /// Copy `size` bytes at `src_offset` of the leaves' indirect dispatch buffer
    /// to `dst_offset` of the same buffer.
    RestoreLeafDispatch { src_offset: u64, dst_offset: u64, size: u64 },
    /// Prefix sum of the leaf particle counts into the leaf offsets.
    PrefixSumLeafOffsets,
    /// Generate the keys of the internal nodes.
    GenerateNodeKeys,
    /// Sort the node keys.
    SortNodeKeys,
    /// Compute the offsets of the octree levels.
    GenerateLevelOffsets,
    /// Link parents to their children and compute bounding boxes.
    LinkOctree,
    /// A memory barrier.
    Barrier(OctreeBarrier),
}

/// A compute-to-compute barrier on the whole of `resource`.
pub open spec fn c2c(resource: OctreeResource, dst_access: u64) -> OctreeStep {
    OctreeStep::Barrier(OctreeBarrier::ComputeToCompute { resource, size: WHOLE_SIZE, dst_access })
}

/// One rebalancing round of the construction, marking with the critical count
/// `n_crit` and the maintenance flag `maintenance_mode`.
pub open spec fn rebalance_round(n_crit: u32, maintenance_mode: u32) -> Seq<OctreeStep> {
    seq![
        OctreeStep::ClearChangedFlag { size: CHANGED_FLAG_SIZE },
        OctreeStep::Barrier(OctreeBarrier::TransferToCompute {
            resource: OctreeResource::WasChanged,
            size: CHANGED_FLAG_SIZE,
            dst_access: ACCESS_SHADER_STORAGE_READ_WRITE,
        }),
        OctreeStep::CountLeafParticles,
        c2c(OctreeResource::LeavesHistogram, ACCESS_SHADER_STORAGE_READ),
        OctreeStep::MarkRebalancingOps { n_crit, maintenance_mode },
        c2c(OctreeResource::RebalanceOps, ACCESS_SHADER_STORAGE_READ),
        c2c(OctreeResource::WasChanged, ACCESS_SHADER_STORAGE_READ),
        OctreeStep::PrefixSumRebalanceOps,
        OctreeStep::Rebalance,
        OctreeStep::SwapCornerstone,
        OctreeStep::Barrier(OctreeBarrier::ComputeToIndirect { resource: OctreeResource::IndirectDispatchLeaves, size: WHOLE_SIZE }),
        c2c(OctreeResource::LeafCount, ACCESS_SHADER_STORAGE_READ_WRITE),
        c2c(OctreeResource::CornerstoneArray, ACCESS_SHADER_STORAGE_READ_WRITE),
    ]
}

/// The steps after the rebalancing rounds: restore the leaf dispatch arguments,
/// final leaf counts and offsets, then the internal nodes.
pub open spec fn finishing_steps() -> Seq<OctreeStep> {
    seq![
        OctreeStep::RestoreLeafDispatch { src_offset: SAVED_LEAF_DISPATCH_OFFSET, dst_offset: 0, size: DISPATCH_ARGS_SIZE },
        OctreeStep::Barrier(OctreeBarrier::TransferToCompute {
            resource: OctreeResource::WasChanged,
            size: CHANGED_FLAG_SIZE,
            dst_access: ACCESS_SHADER_STORAGE_READ_WRITE,
        }),
        OctreeStep::CountLeafParticles,
        c2c(OctreeResource::LeavesHistogram, ACCESS_SHADER_STORAGE_READ),
        OctreeStep::PrefixSumLeafOffsets,
        OctreeStep::GenerateNodeKeys,
        c2c(OctreeResource::NodeKeys, ACCESS_SHADER_STORAGE_READ),
        c2c(OctreeResource::NodeCount, ACCESS_SHADER_STORAGE_READ),
        c2c(OctreeResource::LeafParticles, ACCESS_SHADER_STORAGE_READ),
        c2c(OctreeResource::UnsortedLeafParticles, ACCESS_SHADER_STORAGE_READ),
        OctreeStep::SortNodeKeys,
        OctreeStep::GenerateLevelOffsets,
        c2c(OctreeResource::LevelOffsets, ACCESS_SHADER_STORAGE_READ),
        OctreeStep::Barrier(OctreeBarrier::ComputeToIndirect { resource: OctreeResource::IndirectDispatchNodes, size: WHOLE_SIZE }),
        OctreeStep::LinkOctree,
        c2c(OctreeResource::NodeFirstChild, ACCESS_SHADER_STORAGE_READ),
        c2c(OctreeResource::NodeBoundingBoxes, ACCESS_SHADER_STORAGE_READ),
    ]
}

/// `n` rebalancing rounds in a row.
pub open spec fn rebalance_rounds(n: nat, n_crit: u32, maintenance_mode: u32) -> Seq<OctreeStep>
    decreases n,
{
    if n == 0 {
        seq![]
    } else {
        rebalance_rounds((n - 1) as nat, n_crit, maintenance_mode) + rebalance_round(n_crit, maintenance_mode)
    }
}

/// The maintenance-mode flag as the marking shader reads it.
pub open spec fn maintenance_flag_spec(maintenance_mode: bool) -> u32 {
    if maintenance_mode { 1u32 } else { 0u32 }
}

/// The whole construction over `max_levels` rebalancing rounds, marking with the
/// critical count `n_crit` in maintenance mode or not.
pub open spec fn build_plan_spec(max_levels: nat, n_crit: u32, maintenance_mode: bool) -> Seq<OctreeStep> {
    rebalance_rounds(max_levels, n_crit, maintenance_flag_spec(maintenance_mode)) + finishing_steps()
}

/// Number of `step` steps among the first `n` steps of `s`.
pub open spec fn count_prefix(s: Seq<OctreeStep>, step: OctreeStep, n: nat) -> nat
    decreases n,
{
    if n == 0 {
        0
    } else {
        count_prefix(s, step, (n - 1) as nat) + (if s[n - 1] == step { 1nat } else { 0nat })
    }
}

/// Number of `step` steps in `s`.
pub open spec fn count_steps(s: Seq<OctreeStep>, step: OctreeStep) -> nat {
    count_prefix(s, step, s.len())
}

/// Builds the octree: the stages it runs, in order, and their configuration.
pub struct OctreeConstructor {
    pub leaves_histogram: LeavesHistogram,
    pub rebalancing_ops_marker: RebalancingOpsMarker,
    pub rebalancer: Rebalancer,
    pub level_offset_generator: LevelOffsetGenerator,
}

impl OctreeConstructor {
    /// The construction stages for an octree of `max_level` levels whose empty
    /// keys are `sentinel_val`.
    pub fn new(sentinel_val: u32, max_level: u32) -> (r: OctreeConstructor)
        ensures
            r.leaves_histogram.system@ == LeavesHistogram::new_spec(),
            r.rebalancing_ops_marker.system@ == RebalancingOpsMarker::new_spec(),
            r.rebalancer.system@ == single_pass_view(
                "octree_rebalancer"@,
                seq![("SENTINEL_VALUE"@, sentinel_val), ("THREAD_GROUP_SIZE"@, THREAD_GROUP_SIZE)],
                seq![],
            ),
            r.level_offset_generator.system@ == single_pass_view(
                "level_offset_generator"@,
                seq![("THREAD_GROUP_SIZE"@, THREAD_GROUP_SIZE), ("MAX_LEVELS"@, max_level)],
                seq![],
            ),
    {
        OctreeConstructor {
            leaves_histogram: LeavesHistogram::new(),
            rebalancing_ops_marker: RebalancingOpsMarker::new(),
            rebalancer: Rebalancer::new(sentinel_val),
            level_offset_generator: LevelOffsetGenerator::new(max_level),
        }
    }

    /// The steps of one construction over `max_levels` rebalancing rounds: each
    /// round clears the "was changed" flag, counts, marks, sums and rebalances
    /// the leaves and then swaps the cornerstone arrays, with the barriers between;
    /// afterwards the saved leaf dispatch arguments are restored, the final leaf
    /// counts and offsets are computed and the internal nodes built.
    pub fn build_plan(&self, max_levels: u32, n_crit: u32, maintenance_mode: bool) -> (r: Vec<OctreeStep>)
        ensures
            r@ == build_plan_spec(max_levels as nat, n_crit, maintenance_mode),
    {
        let m = RebalancingOpsMarker::maintenance_flag(maintenance_mode);
        let mut plan: Vec<OctreeStep> = Vec::new();
        let mut i: u32 = 0;
        while i < max_levels
            invariant
                i <= max_levels,
                m == maintenance_flag_spec(maintenance_mode),
                plan@ == rebalance_rounds(i as nat, n_crit, m),
            decreases max_levels - i,
        {
            let ghost before = plan@;
            plan.push(OctreeStep::ClearChangedFlag { size: CHANGED_FLAG_SIZE });
            plan.push(OctreeStep::Barrier(OctreeBarrier::TransferToCompute {
                resource: OctreeResource::WasChanged,
                size: CHANGED_FLAG_SIZE,
                dst_access: ACCESS_SHADER_STORAGE_READ_WRITE,
            }));
            plan.push(OctreeStep::CountLeafParticles);
            plan.push(c2c_step(OctreeResource::LeavesHistogram, ACCESS_SHADER_STORAGE_READ));
            plan.push(OctreeStep::MarkRebalancingOps { n_crit, maintenance_mode: m });
            plan.push(c2c_step(OctreeResource::RebalanceOps, ACCESS_SHADER_STORAGE_READ));
            plan.push(c2c_step(OctreeResource::WasChanged, ACCESS_SHADER_STORAGE_READ));
            plan.push(OctreeStep::PrefixSumRebalanceOps);
            plan.push(OctreeStep::Rebalance);
            plan.push(OctreeStep::SwapCornerstone);
            plan.push(OctreeStep::Barrier(OctreeBarrier::ComputeToIndirect {
                resource: OctreeResource::IndirectDispatchLeaves,
                size: WHOLE_SIZE,
            }));
            plan.push(c2c_step(OctreeResource::LeafCount, ACCESS_SHADER_STORAGE_READ_WRITE));
            plan.push(c2c_step(OctreeResource::CornerstoneArray, ACCESS_SHADER_STORAGE_READ_WRITE));
            assert(plan@ =~= before + rebalance_round(n_crit, m));
            i = i + 1;
        }
        let ghost rounds = plan@;
        plan.push(OctreeStep::RestoreLeafDispatch {
            src_offset: SAVED_LEAF_DISPATCH_OFFSET,
            dst_offset: 0,
            size: DISPATCH_ARGS_SIZE,
        });
        plan.push(OctreeStep::Barrier(OctreeBarrier::TransferToCompute {
            resource: OctreeResource::WasChanged,
            size: CHANGED_FLAG_SIZE,
            dst_access: ACCESS_SHADER_STORAGE_READ_WRITE,
        }));
        plan.push(OctreeStep::CountLeafParticles);
        plan.push(c2c_step(OctreeResource::LeavesHistogram, ACCESS_SHADER_STORAGE_READ));
        plan.push(OctreeStep::PrefixSumLeafOffsets);
        plan.push(OctreeStep::GenerateNodeKeys);
        plan.push(c2c_step(OctreeResource::NodeKeys, ACCESS_SHADER_STORAGE_READ));
        plan.push(c2c_step(OctreeResource::NodeCount, ACCESS_SHADER_STORAGE_READ));
        plan.push(c2c_step(OctreeResource::LeafParticles, ACCESS_SHADER_STORAGE_READ));
        plan.push(c2c_step(OctreeResource::UnsortedLeafParticles, ACCESS_SHADER_STORAGE_READ));
        plan.push(OctreeStep::SortNodeKeys);
        plan.push(OctreeStep::GenerateLevelOffsets);
        plan.push(c2c_step(OctreeResource::LevelOffsets, ACCESS_SHADER_STORAGE_READ));
        plan.push(OctreeStep::Barrier(OctreeBarrier::ComputeToIndirect {
            resource: OctreeResource::IndirectDispatchNodes,
            size: WHOLE_SIZE,
        }));
        plan.push(OctreeStep::LinkOctree);
        plan.push(c2c_step(OctreeResource::NodeFirstChild, ACCESS_SHADER_STORAGE_READ));
        plan.push(c2c_step(OctreeResource::NodeBoundingBoxes, ACCESS_SHADER_STORAGE_READ));
        assert(plan@ =~= rounds + finishing_steps());
        plan
    }
}

/// A compute-to-compute barrier on the whole of `resource`.
fn c2c_step(resource: OctreeResource, dst_access: u64) -> (r: OctreeStep)
    ensures
        r == c2c(resource, dst_access),
{
    OctreeStep::Barrier(OctreeBarrier::ComputeToCompute { resource, size: WHOLE_SIZE, dst_access })
}

impl LeavesHistogram {
    /// What `new` builds.
    pub open spec fn new_spec() -> crate::compute::ComputeSystemView {
        single_pass_view("leaves_histogram"@, seq![("THREAD_GROUP_SIZE"@, THREAD_GROUP_SIZE)], seq![])
    }
}

impl RebalancingOpsMarker {
    /// What `new` builds.
    pub open spec fn new_spec() -> crate::compute::ComputeSystemView {
        single_pass_view("rebalancing_ops_marker"@, seq![("THREAD_GROUP_SIZE"@, THREAD_GROUP_SIZE)], seq![])
    }
}

proof fn lemma_count_prefix_of_concat(a: Seq<OctreeStep>, b: Seq<OctreeStep>, step: OctreeStep, n: nat)
    requires
        n <= b.len(),
    ensures
        count_prefix(a + b, step, a.len() + n) == count_steps(a, step) + count_prefix(b, step, n),
    decreases n,
{
    if n == 0 {
        lemma_count_prefix_same(a + b, a, step, a.len());
    } else {
        lemma_count_prefix_of_concat(a, b, step, (n - 1) as nat);
        assert((a + b)[a.len() + n - 1] == b[n - 1]);
    }
}

proof fn lemma_count_prefix_same(s: Seq<OctreeStep>, t: Seq<OctreeStep>, step: OctreeStep, n: nat)
    requires
        n <= s.len(),
        n <= t.len(),
        forall|i: int| 0 <= i < n ==> s[i] == t[i],
    ensures
        count_prefix(s, step, n) == count_prefix(t, step, n),
    decreases n,
{
    if n > 0 {
        lemma_count_prefix_same(s, t, step, (n - 1) as nat);
    }
}

proof fn lemma_count_concat(a: Seq<OctreeStep>, b: Seq<OctreeStep>, step: OctreeStep)
    ensures
        count_steps(a + b, step) == count_steps(a, step) + count_steps(b, step),
{
    lemma_count_prefix_of_concat(a, b, step, b.len());
}

proof fn lemma_round_counts(n_crit: u32, m: u32)
    ensures
        count_steps(rebalance_round(n_crit, m), OctreeStep::ClearChangedFlag { size: CHANGED_FLAG_SIZE }) == 1,
        count_steps(rebalance_round(n_crit, m), OctreeStep::CountLeafParticles) == 1,
        count_steps(rebalance_round(n_crit, m), OctreeStep::MarkRebalancingOps { n_crit, maintenance_mode: m }) == 1,
        count_steps(rebalance_round(n_crit, m), OctreeStep::Rebalance) == 1,
        count_steps(rebalance_round(n_crit, m), OctreeStep::SwapCornerstone) == 1,
        count_steps(rebalance_round(n_crit, m), OctreeStep::RestoreLeafDispatch {
            src_offset: SAVED_LEAF_DISPATCH_OFFSET,
            dst_offset: 0,
            size: DISPATCH_ARGS_SIZE,
        }) == 0,
        count_steps(rebalance_round(n_crit, m), OctreeStep::LinkOctree) == 0,
{
    reveal_with_fuel(count_prefix, 14);
}

proof fn lemma_finishing_counts(n_crit: u32, m: u32)
    ensures
        count_steps(finishing_steps(), OctreeStep::ClearChangedFlag { size: CHANGED_FLAG_SIZE }) == 0,
        count_steps(finishing_steps(), OctreeStep::CountLeafParticles) == 1,
        count_steps(finishing_steps(), OctreeStep::MarkRebalancingOps { n_crit, maintenance_mode: m }) == 0,
        count_steps(finishing_steps(), OctreeStep::Rebalance) == 0,
        count_steps(finishing_steps(), OctreeStep::SwapCornerstone) == 0,
        count_steps(finishing_steps(), OctreeStep::RestoreLeafDispatch {
            src_offset: SAVED_LEAF_DISPATCH_OFFSET,
            dst_offset: 0,
            size: DISPATCH_ARGS_SIZE,
        }) == 1,
        count_steps(finishing_steps(), OctreeStep::LinkOctree) == 1,
{
    reveal_with_fuel(count_prefix, 18);
}

proof fn lemma_rounds_shape(n: nat, n_crit: u32, m: u32, step: OctreeStep)
    ensures
        rebalance_rounds(n, n_crit, m).len() == 13 * n,
        count_steps(rebalance_rounds(n, n_crit, m), step) == n * count_steps(rebalance_round(n_crit, m), step),
        forall|k: int| 0 <= k < rebalance_rounds(n, n_crit, m).len() ==>
            #[trigger] rebalance_rounds(n, n_crit, m)[k] == rebalance_round(n_crit, m)[k % 13],
    decreases n,
{
    if n > 0 {
        let prev = rebalance_rounds((n - 1) as nat, n_crit, m);
        lemma_rounds_shape((n - 1) as nat, n_crit, m, step);
        lemma_count_concat(prev, rebalance_round(n_crit, m), step);
        assert(n * count_steps(rebalance_round(n_crit, m), step) == (n - 1) * count_steps(rebalance_round(n_crit, m), step)
            + count_steps(rebalance_round(n_crit, m), step)) by (nonlinear_arith);
        assert forall|k: int| 0 <= k < rebalance_rounds(n, n_crit, m).len() implies
            #[trigger] rebalance_rounds(n, n_crit, m)[k] == rebalance_round(n_crit, m)[k % 13] by {
            if k < prev.len() {
            } else {
                assert(k - prev.len() == k % 13);
            }
        }
    }
}

/// One construction over `max_levels` rounds clears the change flag, marks,
/// rebalances and swaps the cornerstone arrays once per round; it counts the leaf
/// particles once per round and once more at the end; it restores the saved leaf
/// dispatch arguments (12 bytes from offset 16 to offset 0) once, after the last
/// round, and links the octree once, at the very end. Every rebalance is directly
/// followed by the swap that makes its output current, and every marking pass
/// runs with the given critical count and maintenance flag.
pub proof fn lemma_build_plan_rounds(max_levels: nat, n_crit: u32, maintenance_mode: bool)
    ensures
        build_plan_spec(max_levels, n_crit, maintenance_mode).len() == 13 * max_levels + 17,
        count_steps(build_plan_spec(max_levels, n_crit, maintenance_mode), OctreeStep::SwapCornerstone) == max_levels,
        count_steps(build_plan_spec(max_levels, n_crit, maintenance_mode), OctreeStep::Rebalance) == max_levels,
        count_steps(build_plan_spec(max_levels, n_crit, maintenance_mode), OctreeStep::MarkRebalancingOps { n_crit, maintenance_mode: maintenance_flag_spec(maintenance_mode) }) == max_levels,
        count_steps(build_plan_spec(max_levels, n_crit, maintenance_mode), OctreeStep::ClearChangedFlag { size: CHANGED_FLAG_SIZE }) == max_levels,
        count_steps(build_plan_spec(max_levels, n_crit, maintenance_mode), OctreeStep::CountLeafParticles) == max_levels + 1,
        count_steps(build_plan_spec(max_levels, n_crit, maintenance_mode), OctreeStep::RestoreLeafDispatch {
            src_offset: SAVED_LEAF_DISPATCH_OFFSET,
            dst_offset: 0,
            size: DISPATCH_ARGS_SIZE,
        }) == 1,
        build_plan_spec(max_levels, n_crit, maintenance_mode)[13 * max_levels as int] == (OctreeStep::RestoreLeafDispatch {
            src_offset: SAVED_LEAF_DISPATCH_OFFSET,
            dst_offset: 0,
            size: DISPATCH_ARGS_SIZE,
        }),
        count_steps(build_plan_spec(max_levels, n_crit, maintenance_mode), OctreeStep::LinkOctree) == 1,
        build_plan_spec(max_levels, n_crit, maintenance_mode).last() == c2c(OctreeResource::NodeBoundingBoxes, ACCESS_SHADER_STORAGE_READ),
        forall|k: int| 0 <= k < build_plan_spec(max_levels, n_crit, maintenance_mode).len()
            && #[trigger] build_plan_spec(max_levels, n_crit, maintenance_mode)[k] == OctreeStep::Rebalance
            ==> k + 1 < build_plan_spec(max_levels, n_crit, maintenance_mode).len()
                && build_plan_spec(max_levels, n_crit, maintenance_mode)[k + 1] == OctreeStep::SwapCornerstone,
        forall|k: int| 0 <= k < build_plan_spec(max_levels, n_crit, maintenance_mode).len()
            && (#[trigger] build_plan_spec(max_levels, n_crit, maintenance_mode)[k] is MarkRebalancingOps)
            ==> build_plan_spec(max_levels, n_crit, maintenance_mode)[k] == (OctreeStep::MarkRebalancingOps {
                n_crit,
                maintenance_mode: maintenance_flag_spec(maintenance_mode),
            }),
{
    let restore = OctreeStep::RestoreLeafDispatch { src_offset: SAVED_LEAF_DISPATCH_OFFSET, dst_offset: 0, size: DISPATCH_ARGS_SIZE };
    let clear = OctreeStep::ClearChangedFlag { size: CHANGED_FLAG_SIZE };
    let plan = build_plan_spec(max_levels, n_crit, maintenance_mode);
    lemma_round_counts(n_crit, maintenance_flag_spec(maintenance_mode));
    lemma_finishing_counts(n_crit, maintenance_flag_spec(maintenance_mode));
    lemma_plan_count(max_levels, n_crit, maintenance_mode, OctreeStep::LinkOctree);
    assert(count_steps(plan, OctreeStep::SwapCornerstone) == max_levels) by {
        lemma_plan_count(max_levels, n_crit, maintenance_mode, OctreeStep::SwapCornerstone);
    }
    assert(count_steps(plan, OctreeStep::Rebalance) == max_levels) by {
        lemma_plan_count(max_levels, n_crit, maintenance_mode, OctreeStep::Rebalance);
    }
    assert(count_steps(plan, OctreeStep::MarkRebalancingOps { n_crit, maintenance_mode: maintenance_flag_spec(maintenance_mode) }) == max_levels) by {
        lemma_plan_count(max_levels, n_crit, maintenance_mode, OctreeStep::MarkRebalancingOps { n_crit, maintenance_mode: maintenance_flag_spec(maintenance_mode) });
    }
    assert(count_steps(plan, clear) == max_levels) by {
        lemma_plan_count(max_levels, n_crit, maintenance_mode, clear);
    }
    assert(count_steps(plan, OctreeStep::CountLeafParticles) == max_levels + 1) by {
        lemma_plan_count(max_levels, n_crit, maintenance_mode, OctreeStep::CountLeafParticles);
    }
    assert(count_steps(plan, restore) == 1) by {
        lemma_plan_count(max_levels, n_crit, maintenance_mode, restore);
    }
    assert(count_steps(plan, OctreeStep::LinkOctree) == 1) by {
        lemma_plan_count(max_levels, n_crit, maintenance_mode, OctreeStep::LinkOctree);
    }
    lemma_rebalance_then_swap(max_levels, n_crit, maintenance_mode);
    lemma_marks_carry_parameters(max_levels, n_crit, maintenance_mode);
}

proof fn lemma_plan_count(max_levels: nat, n_crit: u32, maintenance_mode: bool, step: OctreeStep)
    ensures
        count_steps(build_plan_spec(max_levels, n_crit, maintenance_mode), step) == max_levels * count_steps(rebalance_round(n_crit, maintenance_flag_spec(maintenance_mode)), step)
            + count_steps(finishing_steps(), step),
        build_plan_spec(max_levels, n_crit, maintenance_mode).len() == 13 * max_levels + 17,
        build_plan_spec(max_levels, n_crit, maintenance_mode)[13 * max_levels as int] == finishing_steps()[0],
        build_plan_spec(max_levels, n_crit, maintenance_mode).last() == finishing_steps().last(),
{
    lemma_rounds_shape(max_levels, n_crit, maintenance_flag_spec(maintenance_mode), step);
    lemma_count_concat(rebalance_rounds(max_levels, n_crit, maintenance_flag_spec(maintenance_mode)), finishing_steps(), step);
}

proof fn lemma_rebalance_then_swap(max_levels: nat, n_crit: u32, maintenance_mode: bool)
    ensures
        forall|k: int| 0 <= k < build_plan_spec(max_levels, n_crit, maintenance_mode).len()
            && #[trigger] build_plan_spec(max_levels, n_crit, maintenance_mode)[k] == OctreeStep::Rebalance
            ==> k + 1 < build_plan_spec(max_levels, n_crit, maintenance_mode).len()
                && build_plan_spec(max_levels, n_crit, maintenance_mode)[k + 1] == OctreeStep::SwapCornerstone,
{
    let rounds = rebalance_rounds(max_levels, n_crit, maintenance_flag_spec(maintenance_mode));
    let plan = build_plan_spec(max_levels, n_crit, maintenance_mode);
    lemma_rounds_shape(max_levels, n_crit, maintenance_flag_spec(maintenance_mode), OctreeStep::Rebalance);
    assert forall|k: int| 0 <= k < plan.len() && #[trigger] plan[k] == OctreeStep::Rebalance
        implies k + 1 < plan.len() && plan[k + 1] == OctreeStep::SwapCornerstone by {
        if k < rounds.len() {
            assert(plan[k] == rounds[k]);
            assert(k % 13 == 8);
            assert(k + 1 < rounds.len());
            assert((k + 1) % 13 == 9);
            assert(plan[k + 1] == rounds[k + 1]);
        } else {
            assert(plan[k] == finishing_steps()[k - rounds.len()]);
        }
    }
}

proof fn lemma_marks_carry_parameters(max_levels: nat, n_crit: u32, maintenance_mode: bool)
    ensures
        forall|k: int| 0 <= k < build_plan_spec(max_levels, n_crit, maintenance_mode).len()
            && (#[trigger] build_plan_spec(max_levels, n_crit, maintenance_mode)[k] is MarkRebalancingOps)
            ==> build_plan_spec(max_levels, n_crit, maintenance_mode)[k] == (OctreeStep::MarkRebalancingOps {
                n_crit,
                maintenance_mode: maintenance_flag_spec(maintenance_mode),
            }),
{
    let m = maintenance_flag_spec(maintenance_mode);
    let rounds = rebalance_rounds(max_levels, n_crit, m);
    let plan = build_plan_spec(max_levels, n_crit, maintenance_mode);
    lemma_rounds_shape(max_levels, n_crit, m, OctreeStep::Rebalance);
    assert forall|k: int| 0 <= k < plan.len() && (#[trigger] plan[k] is MarkRebalancingOps)
        implies plan[k] == (OctreeStep::MarkRebalancingOps { n_crit, maintenance_mode: m }) by {
        if k < rounds.len() {
            assert(plan[k] == rounds[k]);
            assert(plan[k] == rebalance_round(n_crit, m)[k % 13]);
            assert(k % 13 == 4);
        } else {
            assert(plan[k] == finishing_steps()[k - rounds.len()]);
        }
    }
}

proof fn lemma_round_has_no_node_steps(n_crit: u32, m: u32, j: int)
    requires
        0 <= j < 13,
    ensures
        rebalance_round(n_crit, m)[j] != OctreeStep::GenerateNodeKeys,
        rebalance_round(n_crit, m)[j] != OctreeStep::SortNodeKeys,
        rebalance_round(n_crit, m)[j] != OctreeStep::GenerateLevelOffsets,
        rebalance_round(n_crit, m)[j] != OctreeStep::LinkOctree,
{
    let r = rebalance_round(n_crit, m);
    if j == 0 {} else if j == 1 {} else if j == 2 {} else if j == 3 {} else if j == 4 {} else if j == 5 {}
    else if j == 6 {} else if j == 7 {} else if j == 8 {} else if j == 9 {} else if j == 10 {}
    else if j == 11 {} else {}
}

proof fn lemma_finishing_node_steps(j: int)
    requires
        0 <= j < 17,
    ensures
        finishing_steps()[j] == OctreeStep::GenerateNodeKeys <==> j == 5,
        finishing_steps()[j] == OctreeStep::SortNodeKeys <==> j == 10,
        finishing_steps()[j] == OctreeStep::GenerateLevelOffsets <==> j == 11,
        finishing_steps()[j] == OctreeStep::LinkOctree <==> j == 14,
{
    let f = finishing_steps();
    if j == 0 {} else if j == 1 {} else if j == 2 {} else if j == 3 {} else if j == 4 {} else if j == 5 {}
    else if j == 6 {} else if j == 7 {} else if j == 8 {} else if j == 9 {} else if j == 10 {}
    else if j == 11 {} else if j == 12 {} else if j == 13 {} else if j == 14 {} else if j == 15 {} else {}
}

/// The internal nodes are built in one fixed order after all rebalancing rounds:
/// the node keys are generated exactly once, then sorted exactly once, then the
/// level offsets are computed from the sorted keys exactly once, and only then is
/// the octree linked, exactly once. So in every plan the key generation comes
/// before the key sort, the key sort before the level offsets, and the level
/// offsets before the linking.
pub proof fn lemma_node_steps_in_order(max_levels: nat, n_crit: u32, maintenance_mode: bool)
    ensures
        ({
            let plan = build_plan_spec(max_levels, n_crit, maintenance_mode);
            let base = 13 * max_levels as int;
            &&& forall|k: int| 0 <= k < plan.len() ==> (#[trigger] plan[k] == OctreeStep::GenerateNodeKeys <==> k == base + 5)
            &&& forall|k: int| 0 <= k < plan.len() ==> (#[trigger] plan[k] == OctreeStep::SortNodeKeys <==> k == base + 10)
            &&& forall|k: int| 0 <= k < plan.len() ==> (#[trigger] plan[k] == OctreeStep::GenerateLevelOffsets <==> k == base + 11)
            &&& forall|k: int| 0 <= k < plan.len() ==> (#[trigger] plan[k] == OctreeStep::LinkOctree <==> k == base + 14)
            &&& forall|a: int, b: int| 0 <= a < plan.len() && 0 <= b < plan.len()
                && #[trigger] plan[a] == OctreeStep::SortNodeKeys
                && #[trigger] plan[b] == OctreeStep::GenerateLevelOffsets ==> a < b
            &&& forall|a: int, b: int| 0 <= a < plan.len() && 0 <= b < plan.len()
                && #[trigger] plan[a] == OctreeStep::GenerateNodeKeys
                && #[trigger] plan[b] == OctreeStep::SortNodeKeys ==> a < b
            &&& forall|a: int, b: int| 0 <= a < plan.len() && 0 <= b < plan.len()
                && #[trigger] plan[a] == OctreeStep::GenerateLevelOffsets
                && #[trigger] plan[b] == OctreeStep::LinkOctree ==> a < b
        }),
{
    let m = maintenance_flag_spec(maintenance_mode);
    let rounds = rebalance_rounds(max_levels, n_crit, m);
    let plan = build_plan_spec(max_levels, n_crit, maintenance_mode);
    let base = 13 * max_levels as int;
    lemma_rounds_shape(max_levels, n_crit, m, OctreeStep::Rebalance);
    assert(plan.len() == base + 17);
    assert forall|k: int| 0 <= k < plan.len() implies {
        &&& (plan[k] == OctreeStep::GenerateNodeKeys <==> k == base + 5)
        &&& (plan[k] == OctreeStep::SortNodeKeys <==> k == base + 10)
        &&& (plan[k] == OctreeStep::GenerateLevelOffsets <==> k == base + 11)
        &&& (plan[k] == OctreeStep::LinkOctree <==> k == base + 14)
    } by {
        if k < base {
            assert(plan[k] == rounds[k]);
            assert(rounds[k] == rebalance_round(n_crit, m)[k % 13]);
            lemma_round_has_no_node_steps(n_crit, m, k % 13);
        } else {
            assert(plan[k] == finishing_steps()[k - base]);
            lemma_finishing_node_steps(k - base);
        }
    }
}

/// Every rebalancing round runs its passes in one fixed order: clear the change
/// flag (4 bytes), count the leaf particles, mark the leaves with the given
/// critical count and maintenance flag, sum the marks, rebalance, and swap the
/// cornerstone arrays; round `r` starts at step `13 * r`. After the last round the
/// saved leaf dispatch arguments are restored before the leaf particles are
/// counted once more and their offsets summed.
pub proof fn lemma_round_order(max_levels: nat, n_crit: u32, maintenance_mode: bool, r: int)
    requires
        0 <= r < max_levels,
    ensures
        ({
            let plan = build_plan_spec(max_levels, n_crit, maintenance_mode);
            let k = 13 * r;
            &&& plan[k] == (OctreeStep::ClearChangedFlag { size: CHANGED_FLAG_SIZE })
            &&& plan[k + 2] == OctreeStep::CountLeafParticles
            &&& plan[k + 4] == (OctreeStep::MarkRebalancingOps {
                n_crit,
                maintenance_mode: if maintenance_mode { 1u32 } else { 0u32 },
            })
            &&& plan[k + 7] == OctreeStep::PrefixSumRebalanceOps
            &&& plan[k + 8] == OctreeStep::Rebalance
            &&& plan[k + 9] == OctreeStep::SwapCornerstone
            &&& plan[13 * max_levels as int] == (OctreeStep::RestoreLeafDispatch { src_offset: 16, dst_offset: 0, size: 12 })
            &&& plan[13 * max_levels as int + 2] == OctreeStep::CountLeafParticles
            &&& plan[13 * max_levels as int + 4] == OctreeStep::PrefixSumLeafOffsets
        }),
{
    let m = maintenance_flag_spec(maintenance_mode);
    let rounds = rebalance_rounds(max_levels, n_crit, m);
    let plan = build_plan_spec(max_levels, n_crit, maintenance_mode);
    lemma_rounds_shape(max_levels, n_crit, m, OctreeStep::Rebalance);
    let k = 13 * r;
    assert(k + 12 < rounds.len()) by (nonlinear_arith)
        requires
            k == 13 * r,
            0 <= r < max_levels,
            rounds.len() == 13 * max_levels,
    ;
    assert forall|j: int| 0 <= j < 13 implies #[trigger] plan[k + j] == rebalance_round(n_crit, m)[j] by {
        assert(plan[k + j] == rounds[k + j]);
        assert((k + j) % 13 == j);
    }
    let f = finishing_steps();
    let b = rounds.len() as int;
    assert(plan[b] == f[0]);
    assert(plan[b + 2] == f[2]);
    assert(plan[b + 4] == f[4]);
}

} // verus!
