use vstd::prelude::*;
use crate::compute::{ceil_div, dispatch_rounding_up, single_pass_view, BindingKind, ComputeSystemSpec, GroupCounts};

verus! {

/// The integration pass: advances positions by the velocities, keeping the
/// previous positions.
pub struct Integrator {
    pub system: ComputeSystemSpec,
}

impl Integrator {
    /// Name of the integration shader.
    pub fn shader_name() -> (r: &'static str)
        ensures
            r@ == "integrator"@,
    {
        "integrator"
    }

    /// Label of the integration pass in GPU profiles.
    pub fn profiling_label() -> (r: &'static str)
        ensures
            r@ == "Integration"@,
    {
        "Integration"
    }

    /// The integration shader with storage-buffer bindings for the positions,
    /// the previous positions and the velocities.
    pub fn new() -> (r: Integrator)
        ensures
            r.system@ == single_pass_view(
                "integrator"@,
                seq![],
                seq![BindingKind::StorageBuffer, BindingKind::StorageBuffer, BindingKind::StorageBuffer],
            ),
    {
        let bindings = vec![BindingKind::StorageBuffer, BindingKind::StorageBuffer, BindingKind::StorageBuffer];
        let system = ComputeSystemSpec::single_pass(Self::shader_name(), Vec::new(), bindings);
        assert(system@.constants =~= seq![]);
        Integrator { system }
    }

    /// Thread groups of 64 for `num_elements` particles, one thread each.
    pub fn workgroups(&self, num_elements: u32) -> (r: GroupCounts)
        requires
            num_elements + 63 <= u32::MAX,
        ensures
            r == (GroupCounts { x: ceil_div(num_elements as int, 64) as u32, y: 1, z: 1 }),
    {
        dispatch_rounding_up(num_elements, 64)
    }
}

/// The velocity-update pass: derives velocities from the displacement since the
/// previous positions.
pub struct VelocityUpdater {
    pub system: ComputeSystemSpec,
}

impl VelocityUpdater {
    /// The `velocity_updater` shader, without specialization constants.
    pub fn new() -> (r: VelocityUpdater)
        ensures
            r.system@ == single_pass_view("velocity_updater"@, seq![], seq![]),
    {
        let system = ComputeSystemSpec::single_pass("velocity_updater", Vec::new(), Vec::new());
        assert(system@.constants =~= seq![]);
        assert(system@.bindings =~= seq![]);
        VelocityUpdater { system }
    }

    /// Thread groups of 64 for `num_elements` particles, one thread each.
    pub fn workgroups(&self, num_elements: u32) -> (r: GroupCounts)
        requires
            num_elements + 63 <= u32::MAX,
        ensures
            r == (GroupCounts { x: ceil_div(num_elements as int, 64) as u32, y: 1, z: 1 }),
    {
        dispatch_rounding_up(num_elements, 64)
    }
}

} // verus!
