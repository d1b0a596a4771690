use vstd::prelude::*;
use crate::compute::{ceil_div, dispatch_for_elements, dispatch_rounding_up, single_pass_view, ComputeSystemSpec, GroupCounts, ShaderConstant};

verus! {

/// Threads per group of the constraint and density passes.
pub const THREAD_GROUP_SIZE: u32 = 64;

/// The constraint-solver pass: moves each particle to satisfy the density
/// constraint of its neighborhood.
pub struct ConstraintSolver {
    pub system: ComputeSystemSpec,
}

impl ConstraintSolver {
    /// The `constraint_solver` shader, specialized with `THREAD_GROUP_SIZE`.
    pub fn new() -> (r: ConstraintSolver)
        ensures
            r.system@ == single_pass_view("constraint_solver"@, seq![("THREAD_GROUP_SIZE"@, THREAD_GROUP_SIZE)], seq![]),
    {
        let constants = vec![ShaderConstant { name: "THREAD_GROUP_SIZE", value: THREAD_GROUP_SIZE }];
        let system = ComputeSystemSpec::single_pass("constraint_solver", constants, Vec::new());
        assert(system@.constants =~= seq![("THREAD_GROUP_SIZE"@, THREAD_GROUP_SIZE)]);
        assert(system@.bindings =~= seq![]);
        ConstraintSolver { system }
    }

    /// Thread groups for `num_elements` particles, one thread each.
    pub fn workgroups(&self, num_elements: u32) -> (r: GroupCounts)
        requires
            num_elements + THREAD_GROUP_SIZE <= u32::MAX,
        ensures
            r == (GroupCounts { x: ceil_div(num_elements as int, THREAD_GROUP_SIZE as int) as u32, y: 1, z: 1 }),
    {
        dispatch_for_elements(num_elements, THREAD_GROUP_SIZE)
    }
}

/// The density pass: computes each particle's density and constraint multiplier.
pub struct DensityCompute {
    pub system: ComputeSystemSpec,
}

impl DensityCompute {
    /// The `density_compute` shader, specialized with `THREAD_GROUP_SIZE`.
    pub fn new() -> (r: DensityCompute)
        ensures
            r.system@ == single_pass_view("density_compute"@, seq![("THREAD_GROUP_SIZE"@, THREAD_GROUP_SIZE)], seq![]),
    {
        let constants = vec![ShaderConstant { name: "THREAD_GROUP_SIZE", value: THREAD_GROUP_SIZE }];
        let system = ComputeSystemSpec::single_pass("density_compute", constants, Vec::new());
        assert(system@.constants =~= seq![("THREAD_GROUP_SIZE"@, THREAD_GROUP_SIZE)]);
        assert(system@.bindings =~= seq![]);
        DensityCompute { system }
    }

    /// Thread groups for `num_elements` particles, one thread each.
    pub fn workgroups(&self, num_elements: u32) -> (r: GroupCounts)
        requires
            num_elements + THREAD_GROUP_SIZE <= u32::MAX,
        ensures
            r == (GroupCounts { x: ceil_div(num_elements as int, THREAD_GROUP_SIZE as int) as u32, y: 1, z: 1 }),
    {
        dispatch_for_elements(num_elements, THREAD_GROUP_SIZE)
    }
}

/// The velocity-refinement pass (viscosity).
pub struct VelocityRefiner {
    pub system: ComputeSystemSpec,
}

impl VelocityRefiner {
    /// The `velocity_refiner` shader, without specialization constants.
    pub fn new() -> (r: VelocityRefiner)
        ensures
            r.system@ == single_pass_view("velocity_refiner"@, seq![], seq![]),
    {
        let system = ComputeSystemSpec::single_pass("velocity_refiner", Vec::new(), Vec::new());
        assert(system@.constants =~= seq![]);
        assert(system@.bindings =~= seq![]);
        VelocityRefiner { system }
    }

    /// Thread groups of 64 for `num_elements` particles, one thread each.
    pub fn workgroups(&self, num_elements: u32) -> (r: GroupCounts)
        requires
            num_elements + 63 <= u32::MAX,
        ensures
            r == (GroupCounts { x: ceil_div(num_elements as int, 64) as u32, y: 1, z: 1 }),
    {
        dispatch_rounding_up(num_elements, 64)
    }
}

/// The vorticity-confinement pass.
pub struct VorticityForceCompute {
    pub system: ComputeSystemSpec,
}

impl VorticityForceCompute {
    /// The `vorticity_force_compute` shader, without specialization constants.
    pub fn new() -> (r: VorticityForceCompute)
        ensures
            r.system@ == single_pass_view("vorticity_force_compute"@, seq![], seq![]),
    {
        let system = ComputeSystemSpec::single_pass("vorticity_force_compute", Vec::new(), Vec::new());
        assert(system@.constants =~= seq![]);
        assert(system@.bindings =~= seq![]);
        VorticityForceCompute { system }
    }

    /// Thread groups of 64 for `num_elements` particles, one thread each.
    pub fn workgroups(&self, num_elements: u32) -> (r: GroupCounts)
        requires
            num_elements + 63 <= u32::MAX,
        ensures
            r == (GroupCounts { x: ceil_div(num_elements as int, 64) as u32, y: 1, z: 1 }),
    {
        dispatch_rounding_up(num_elements, 64)
    }
}

} // verus!
