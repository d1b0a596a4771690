use vstd::prelude::*;
use crate::compute::{
    barrier, single_pass_view, BindingKind, BufferBarrier, StageBarrier, ACCESS_SHADER_STORAGE_READ, ACCESS_SHADER_STORAGE_READ_WRITE,
    ACCESS_SHADER_STORAGE_WRITE,
};
use crate::fluids::{ConstraintSolver, DensityCompute, VelocityRefiner, VorticityForceCompute, THREAD_GROUP_SIZE};
use crate::integration::{Integrator, VelocityUpdater};
use crate::particles::{BufferHandle, ParticleData};

verus! {

/// One step of a physics update, in the order the GPU runs them.
#[derive(Clone, Copy, Debug, PartialEq, Eq, Structural)]
pub enum PhysicsStep {
    /// Predict positions from the velocities.
    Integrate,
    /// Compute the space-filling-curve key of every particle.
    EncodeKeys,
    /// Sort the particle indices by key.
    SortKeys,
    /// Reorder the particle attributes by the sorted indices.
    ReorderParticles,
    /// Make the reordered positions, previous positions and velocities current.
    SwapParticleBuffers,
    /// Build the octree over the sorted keys.
    BuildOctree,
    /// Build the neighbor lists.
    BuildNeighborList,
    /// Densities and constraint multipliers of solver iteration `iteration`.
    ComputeDensity { iteration: usize },
    /// Position corrections of solver iteration `iteration`.
    SolveConstraints { iteration: usize },
    /// Make the corrected positions current.
    SwapPositions,
    /// Derive velocities from the displacement.
    UpdateVelocities,
    /// Apply viscosity to the velocities.
    RefineVelocities,
    /// Make the refined velocities current.
    SwapVelocities,
    /// Apply the vorticity-confinement force.
    ComputeVorticityForce,
}

/// The particle buffers after `step`: swap steps exchange buffer roles, the others
/// leave them.
pub open spec fn apply_step(d: ParticleData, step: PhysicsStep) -> ParticleData {
    match step {
        PhysicsStep::SwapParticleBuffers => d.swapped(),
        PhysicsStep::SwapPositions => ParticleData { positions_buffer: d.positions_buffer.swapped(), ..d },
        PhysicsStep::SwapVelocities => ParticleData { velocities: d.velocities.swapped(), ..d },
        _ => d,
    }
}

/// The particle buffers after the steps `steps`, in order.
pub open spec fn apply_steps(d: ParticleData, steps: Seq<PhysicsStep>) -> ParticleData
    decreases steps.len(),
{
    if steps.len() == 0 {
        d
    } else {
        apply_step(apply_steps(d, steps.drop_last()), steps.last())
    }
}

/// The steps before the solver iterations.
pub open spec fn prologue_steps() -> Seq<PhysicsStep> {
    seq![
        PhysicsStep::Integrate,
        PhysicsStep::EncodeKeys,
        PhysicsStep::SortKeys,
        PhysicsStep::ReorderParticles,
        PhysicsStep::SwapParticleBuffers,
        PhysicsStep::BuildOctree,
        PhysicsStep::BuildNeighborList,
    ]
}

/// Solver iteration `i`.
pub open spec fn solver_iteration_steps(i: int) -> Seq<PhysicsStep> {
    seq![
        PhysicsStep::ComputeDensity { iteration: i as usize },
        PhysicsStep::SolveConstraints { iteration: i as usize },
        PhysicsStep::SwapPositions,
    ]
}

/// The first `n` solver iterations.
pub open spec fn solver_steps(n: nat) -> Seq<PhysicsStep>
    decreases n,
{
    if n == 0 {
        seq![]
    } else {
        solver_steps((n - 1) as nat) + solver_iteration_steps(n - 1)
    }
}

/// The steps after the solver iterations.
pub open spec fn epilogue_steps() -> Seq<PhysicsStep> {
    seq![
        PhysicsStep::UpdateVelocities,
        PhysicsStep::RefineVelocities,
        PhysicsStep::SwapVelocities,
        PhysicsStep::ComputeVorticityForce,
    ]
}

/// The whole update with `solver_iterations` solver iterations.
pub open spec fn update_plan_spec(solver_iterations: nat) -> Seq<PhysicsStep> {
    prologue_steps() + solver_steps(solver_iterations) + epilogue_steps()
}

/// The particle buffers that `step` hands its shader, in the order of its
/// bindings or push-constant addresses, for the buffer roles `d` at the time it runs. Reading stages take the
/// current buffer of a pair; the reordering pass reads each current buffer and
/// writes the other one, the constraint solver reads the current positions and
/// writes the next ones, and the velocity refinement reads the current velocities
/// and writes the next ones. Swaps bind nothing.
pub open spec fn step_buffers_spec(step: PhysicsStep, d: ParticleData) -> Seq<BufferHandle> {
    match step {
        PhysicsStep::Integrate => seq![
            d.positions_buffer.front,
            d.previous_positions_buffer.front,
            d.velocities.front,
        ],
        PhysicsStep::EncodeKeys => seq![d.positions_buffer.front, d.morton_codes_buffer, d.object_indices_buffer],
        PhysicsStep::SortKeys => seq![d.morton_codes_buffer, d.object_indices_buffer],
        PhysicsStep::ReorderParticles => seq![
            d.positions_buffer.front,
            d.positions_buffer.back,
            d.previous_positions_buffer.front,
            d.previous_positions_buffer.back,
            d.velocities.front,
            d.velocities.back,
            d.object_indices_buffer,
        ],
        PhysicsStep::BuildOctree => seq![d.morton_codes_buffer],
        PhysicsStep::BuildNeighborList => seq![d.positions_buffer.front],
        PhysicsStep::ComputeDensity { .. } => seq![d.positions_buffer.front, d.densities, d.lambdas],
        PhysicsStep::SolveConstraints { .. } => seq![
            d.positions_buffer.front,
            d.positions_buffer.back,
            d.densities,
            d.lambdas,
        ],
        PhysicsStep::UpdateVelocities => seq![d.positions_buffer.front, d.previous_positions_buffer.front, d.velocities.front],
        PhysicsStep::RefineVelocities => seq![
            d.positions_buffer.front,
            d.velocities.front,
            d.velocities.back,
            d.vorticity,
            d.densities,
        ],
        PhysicsStep::ComputeVorticityForce => seq![d.positions_buffer.front, d.velocities.front, d.vorticity, d.densities],
        PhysicsStep::SwapParticleBuffers | PhysicsStep::SwapPositions | PhysicsStep::SwapVelocities => seq![],
    }
}

/// The particle buffers that `step` binds when the buffer roles are `particles`.
pub fn step_buffers(step: PhysicsStep, particles: &ParticleData) -> (r: Vec<BufferHandle>)
    ensures
        r@ == step_buffers_spec(step, *particles),
{
    let d = particles;
    match step {
        PhysicsStep::Integrate => vec![d.positions_buffer.current(), d.previous_positions_buffer.current(), d.velocities.current()],
        PhysicsStep::EncodeKeys => vec![d.positions_buffer.current(), d.morton_codes_buffer, d.object_indices_buffer],
        PhysicsStep::SortKeys => vec![d.morton_codes_buffer, d.object_indices_buffer],
        PhysicsStep::ReorderParticles => {
            let (src_positions, dst_positions) = d.positions_buffer.read_write();
            let (src_previous, dst_previous) = d.previous_positions_buffer.read_write();
            let (src_velocities, dst_velocities) = d.velocities.read_write();
            vec![src_positions, dst_positions, src_previous, dst_previous, src_velocities, dst_velocities, d.object_indices_buffer]
        },
        PhysicsStep::BuildOctree => vec![d.morton_codes_buffer],
        PhysicsStep::BuildNeighborList => vec![d.positions_buffer.current()],
        PhysicsStep::ComputeDensity { .. } => vec![d.positions_buffer.current(), d.densities, d.lambdas],
        PhysicsStep::SolveConstraints { .. } => {
            let (read_positions, write_positions) = d.positions_buffer.read_write();
            vec![read_positions, write_positions, d.densities, d.lambdas]
        },
        PhysicsStep::UpdateVelocities => vec![d.positions_buffer.current(), d.previous_positions_buffer.current(), d.velocities.current()],
        PhysicsStep::RefineVelocities => {
            let (read_velocities, write_velocities) = d.velocities.read_write();
            vec![d.positions_buffer.current(), read_velocities, write_velocities, d.vorticity, d.densities]
        },
        PhysicsStep::ComputeVorticityForce => vec![d.positions_buffer.current(), d.velocities.current(), d.vorticity, d.densities],
        PhysicsStep::SwapParticleBuffers | PhysicsStep::SwapPositions | PhysicsStep::SwapVelocities => Vec::new(),
    }
}

/// Whether `step` is a solver stage that records its own barriers after its
/// dispatch: the integration, the density and constraint passes, the velocity
/// update and refinement, and the vorticity force.
pub open spec fn records_stage_barriers(step: PhysicsStep) -> bool {
    match step {
        PhysicsStep::Integrate | PhysicsStep::ComputeDensity { .. } | PhysicsStep::SolveConstraints { .. }
        | PhysicsStep::UpdateVelocities | PhysicsStep::RefineVelocities | PhysicsStep::ComputeVorticityForce => true,
        _ => false,
    }
}

/// A compute-to-compute barrier on `buffer`.
pub open spec fn c2c_barrier(buffer: BufferHandle, src_access: u64, dst_access: u64) -> StageBarrier {
    StageBarrier::ComputeToCompute(barrier(buffer, src_access, dst_access))
}

/// The barriers that the solver stage `step` records after its dispatch, for the
/// buffer roles `d`:
/// - integration: the positions and previous positions published for reading, the
///   velocities handed on for writing;
/// - velocity update: the velocities and positions published for reading;
/// - density: the densities and multipliers published for reading;
/// - constraints: the positions read handed on for writing and the positions
///   written published, both for reading and writing;
/// - refinement: the vorticities and the velocities written published for reading,
///   the velocities read handed on for writing;
/// - vorticity force: the positions handed to the graphics queue for reading, the
///   velocities published for reading and writing.
pub open spec fn step_barriers_spec(step: PhysicsStep, d: ParticleData) -> Seq<StageBarrier> {
    let r = ACCESS_SHADER_STORAGE_READ;
    let w = ACCESS_SHADER_STORAGE_WRITE;
    let rw = ACCESS_SHADER_STORAGE_READ_WRITE;
    match step {
        PhysicsStep::Integrate => seq![
            c2c_barrier(d.positions_buffer.front, rw, r),
            c2c_barrier(d.previous_positions_buffer.front, w, r),
            c2c_barrier(d.velocities.front, rw, w),
        ],
        PhysicsStep::UpdateVelocities => seq![c2c_barrier(d.velocities.front, w, r), c2c_barrier(d.positions_buffer.front, w, r)],
        PhysicsStep::ComputeDensity { .. } => seq![c2c_barrier(d.densities, w, r), c2c_barrier(d.lambdas, w, r)],
        PhysicsStep::SolveConstraints { .. } => seq![
            c2c_barrier(d.positions_buffer.front, r, rw),
            c2c_barrier(d.positions_buffer.back, w, rw),
        ],
        PhysicsStep::RefineVelocities => seq![
            c2c_barrier(d.vorticity, w, r),
            c2c_barrier(d.velocities.back, w, r),
            c2c_barrier(d.velocities.front, r, w),
        ],
        PhysicsStep::ComputeVorticityForce => seq![
            StageBarrier::ComputeToGraphics(barrier(d.positions_buffer.front, w, r)),
            c2c_barrier(d.velocities.front, w, rw),
        ],
        _ => seq![],
    }
}

fn c2c(buffer: BufferHandle, src_access: u64, dst_access: u64) -> (r: StageBarrier)
    ensures
        r == c2c_barrier(buffer, src_access, dst_access),
{
    StageBarrier::ComputeToCompute(BufferBarrier { buffer, src_access, dst_access })
}

/// The barriers that the solver stage `step` records after its dispatch when the
/// buffer roles are `particles`.
pub fn step_barriers(step: PhysicsStep, particles: &ParticleData) -> (r: Vec<StageBarrier>)
    requires
        records_stage_barriers(step),
    ensures
        r@ == step_barriers_spec(step, *particles),
{
    let d = particles;
    let r = ACCESS_SHADER_STORAGE_READ;
    let w = ACCESS_SHADER_STORAGE_WRITE;
    let rw = ACCESS_SHADER_STORAGE_READ_WRITE;
    match step {
        PhysicsStep::Integrate => vec![
            c2c(d.positions_buffer.current(), rw, r),
            c2c(d.previous_positions_buffer.current(), w, r),
            c2c(d.velocities.current(), rw, w),
        ],
        PhysicsStep::UpdateVelocities => vec![c2c(d.velocities.current(), w, r), c2c(d.positions_buffer.current(), w, r)],
        PhysicsStep::ComputeDensity { .. } => vec![c2c(d.densities, w, r), c2c(d.lambdas, w, r)],
        PhysicsStep::SolveConstraints { .. } => {
            let (read_positions, write_positions) = d.positions_buffer.read_write();
            vec![c2c(read_positions, r, rw), c2c(write_positions, w, rw)]
        },
        PhysicsStep::RefineVelocities => {
            let (read_velocities, write_velocities) = d.velocities.read_write();
            vec![c2c(d.vorticity, w, r), c2c(write_velocities, w, r), c2c(read_velocities, r, w)]
        },
        PhysicsStep::ComputeVorticityForce => vec![
            StageBarrier::ComputeToGraphics(BufferBarrier { buffer: d.positions_buffer.current(), src_access: w, dst_access: r }),
            c2c(d.velocities.current(), w, rw),
        ],
        _ => Vec::new(),
    }
}

/// Appends `step` to the plan and applies it to the particle buffers.
fn push_step(plan: &mut Vec<PhysicsStep>, particles: &mut ParticleData, step: PhysicsStep, Ghost(start): Ghost<ParticleData>)
    requires
        *old(particles) == apply_steps(start, old(plan)@),
    ensures
        final(plan)@ == old(plan)@.push(step),
        *final(particles) == apply_step(*old(particles), step),
        *final(particles) == apply_steps(start, final(plan)@),
{
    match step {
        PhysicsStep::SwapParticleBuffers => particles.swap(),
        PhysicsStep::SwapPositions => particles.positions_buffer.swap(),
        PhysicsStep::SwapVelocities => particles.velocities.swap(),
        _ => {},
    }
    let ghost before = plan@;
    plan.push(step);
    assert(plan@.drop_last() =~= before);
}

/// The solver stages of the fluid simulation and the number of solver iterations
/// of an update.
pub struct PhysicsEngine {
    pub integrator: Integrator,
    pub density_compute: DensityCompute,
    pub constraint_solver: ConstraintSolver,
    pub velocity_updater: VelocityUpdater,
    pub velocity_refiner: VelocityRefiner,
    pub vorticity_force_compute: VorticityForceCompute,
    /// Capacity of the key sort, in particles.
    pub max_objects: u32,
    /// Depth of the key encoding.
    pub max_levels: u32,
    /// Solver iterations per update.
    pub solver_iterations: usize,
}

impl PhysicsEngine {
    /// The engine for `num_particles` particles (the sort capacity is
    /// `num_particles` truncated to `u32`), keys of `max_levels` levels and
    /// `solver_iterations` solver iterations per update.
    pub fn new(num_particles: usize, max_levels: u32, solver_iterations: usize) -> (r: PhysicsEngine)
        ensures
            r.max_objects == num_particles as u32,
            r.max_levels == max_levels,
            r.solver_iterations == solver_iterations,
            r.integrator.system@ == single_pass_view(
                "integrator"@,
                seq![],
                seq![BindingKind::StorageBuffer, BindingKind::StorageBuffer, BindingKind::StorageBuffer],
            ),
            r.density_compute.system@ == single_pass_view("density_compute"@, seq![("THREAD_GROUP_SIZE"@, THREAD_GROUP_SIZE)], seq![]),
            r.constraint_solver.system@ == single_pass_view("constraint_solver"@, seq![("THREAD_GROUP_SIZE"@, THREAD_GROUP_SIZE)], seq![]),
            r.velocity_updater.system@ == single_pass_view("velocity_updater"@, seq![], seq![]),
            r.velocity_refiner.system@ == single_pass_view("velocity_refiner"@, seq![], seq![]),
            r.vorticity_force_compute.system@ == single_pass_view("vorticity_force_compute"@, seq![], seq![]),
    {
        PhysicsEngine {
            integrator: Integrator::new(),
            density_compute: DensityCompute::new(),
            constraint_solver: ConstraintSolver::new(),
            velocity_updater: VelocityUpdater::new(),
            velocity_refiner: VelocityRefiner::new(),
            vorticity_force_compute: VorticityForceCompute::new(),
            max_objects: num_particles as u32,
            max_levels,
            solver_iterations,
        }
    }

    /// Returns the number of solver iterations.
    pub fn solver_iterations(&self) -> (r: usize)
        ensures
            r == self.solver_iterations,
    {
        self.solver_iterations
    }

    /// The steps of one physics update, in order, with the buffer swaps applied to
    /// `particles` as they happen: integrate, encode, sort and reorder the
    /// particles (swapping all double buffers), build the octree and the
    /// neighbor lists, run the solver iterations (density, constraints, swap of
    /// the positions), then update and refine the velocities (swapping them) and
    /// apply the vorticity force.
    pub fn update(&self, particles: &mut ParticleData) -> (r: Vec<PhysicsStep>)
        ensures
            r@ == update_plan_spec(self.solver_iterations as nat),
            *final(particles) == apply_steps(*old(particles), r@),
    {
        let ghost start = *old(particles);
        let mut plan: Vec<PhysicsStep> = Vec::new();
        assert(apply_steps(start, plan@) == start);
        push_step(&mut plan, particles, PhysicsStep::Integrate, Ghost(start));
        push_step(&mut plan, particles, PhysicsStep::EncodeKeys, Ghost(start));
        push_step(&mut plan, particles, PhysicsStep::SortKeys, Ghost(start));
        push_step(&mut plan, particles, PhysicsStep::ReorderParticles, Ghost(start));
        push_step(&mut plan, particles, PhysicsStep::SwapParticleBuffers, Ghost(start));
        push_step(&mut plan, particles, PhysicsStep::BuildOctree, Ghost(start));
        push_step(&mut plan, particles, PhysicsStep::BuildNeighborList, Ghost(start));
        assert(plan@ =~= prologue_steps());
        let mut i: usize = 0;
        while i < self.solver_iterations
            invariant
                i <= self.solver_iterations,
                plan@ == prologue_steps() + solver_steps(i as nat),
                *particles == apply_steps(start, plan@),
            decreases self.solver_iterations - i,
        {
            push_step(&mut plan, particles, PhysicsStep::ComputeDensity { iteration: i }, Ghost(start));
            push_step(&mut plan, particles, PhysicsStep::SolveConstraints { iteration: i }, Ghost(start));
            push_step(&mut plan, particles, PhysicsStep::SwapPositions, Ghost(start));
            assert(plan@ =~= prologue_steps() + solver_steps((i + 1) as nat));
            i = i + 1;
        }
        let ghost body = plan@;
        push_step(&mut plan, particles, PhysicsStep::UpdateVelocities, Ghost(start));
        push_step(&mut plan, particles, PhysicsStep::RefineVelocities, Ghost(start));
        push_step(&mut plan, particles, PhysicsStep::SwapVelocities, Ghost(start));
        push_step(&mut plan, particles, PhysicsStep::ComputeVorticityForce, Ghost(start));
        assert(plan@ =~= body + epilogue_steps());
        plan
    }
}


proof fn lemma_apply_concat(d: ParticleData, a: Seq<PhysicsStep>, b: Seq<PhysicsStep>)
    ensures
        apply_steps(d, a + b) == apply_steps(apply_steps(d, a), b),
    decreases b.len(),
{
    if b.len() == 0 {
        assert(a + b =~= a);
    } else {
        assert((a + b).drop_last() =~= a + b.drop_last());
        lemma_apply_concat(d, a, b.drop_last());
    }
}

proof fn lemma_apply_single(d: ParticleData, x: PhysicsStep)
    ensures
        apply_steps(d, seq![x]) == apply_step(d, x),
{
    assert(seq![x].drop_last() =~= Seq::<PhysicsStep>::empty());
    assert(seq![x].last() == x);
    assert(apply_steps(d, Seq::<PhysicsStep>::empty()) == d);
}

proof fn lemma_apply_solver_steps(d: ParticleData, n: nat)
    ensures
        apply_steps(d, solver_steps(n)) == (ParticleData { positions_buffer: d.positions_buffer.swapped_times(n), ..d }),
    decreases n,
{
    if n > 0 {
        let prev = solver_steps((n - 1) as nat);
        let it = solver_iteration_steps(n - 1);
        lemma_apply_solver_steps(d, (n - 1) as nat);
        lemma_apply_concat(d, prev, it);
        let mid = apply_steps(d, prev);
        let a = seq![PhysicsStep::ComputeDensity { iteration: (n - 1) as usize }];
        let b = seq![PhysicsStep::SolveConstraints { iteration: (n - 1) as usize }];
        let c = seq![PhysicsStep::SwapPositions];
        assert(it =~= a + b + c);
        lemma_apply_concat(mid, a + b, c);
        lemma_apply_concat(mid, a, b);
        lemma_apply_single(mid, a[0]);
        lemma_apply_single(mid, b[0]);
        lemma_apply_single(mid, c[0]);
    }
}

/// Buffer roles after one physics update with `n` solver iterations: the positions
/// have been swapped once for the reordering and once per solver iteration, the
/// previous positions once, and the velocities twice (reordering and
/// refinement), so their roles are as before; the single buffers are untouched.
pub proof fn lemma_update_buffer_roles(d: ParticleData, n: nat)
    ensures
        apply_steps(d, update_plan_spec(n)) == (ParticleData {
            positions_buffer: d.positions_buffer.swapped_times(n + 1),
            previous_positions_buffer: d.previous_positions_buffer.swapped(),
            ..d
        }),
{
    let p = prologue_steps();
    let sv = solver_steps(n);
    let e = epilogue_steps();
    lemma_apply_concat(d, p + sv, e);
    lemma_apply_concat(d, p, sv);
    // the prologue swaps every double buffer once
    let p1 = seq![PhysicsStep::Integrate, PhysicsStep::EncodeKeys, PhysicsStep::SortKeys, PhysicsStep::ReorderParticles];
    let p2 = seq![PhysicsStep::SwapParticleBuffers];
    let p3 = seq![PhysicsStep::BuildOctree, PhysicsStep::BuildNeighborList];
    assert(p =~= p1 + p2 + p3);
    lemma_apply_concat(d, p1 + p2, p3);
    lemma_apply_concat(d, p1, p2);
    lemma_apply_no_swaps(d, p1);
    lemma_apply_single(apply_steps(d, p1), p2[0]);
    lemma_apply_no_swaps(apply_steps(d, p1 + p2), p3);
    let after_p = apply_steps(d, p);
    assert(after_p == d.swapped());
    lemma_apply_solver_steps(after_p, n);
    let after_s = apply_steps(after_p, sv);
    let e1 = seq![PhysicsStep::UpdateVelocities, PhysicsStep::RefineVelocities];
    let e2 = seq![PhysicsStep::SwapVelocities];
    let e3 = seq![PhysicsStep::ComputeVorticityForce];
    assert(e =~= e1 + e2 + e3);
    lemma_apply_concat(after_s, e1 + e2, e3);
    lemma_apply_concat(after_s, e1, e2);
    lemma_apply_no_swaps(after_s, e1);
    lemma_apply_single(apply_steps(after_s, e1), e2[0]);
    lemma_apply_no_swaps(apply_steps(after_s, e1 + e2), e3);
    assert(d.positions_buffer.swapped().swapped_times(n) == d.positions_buffer.swapped_times(n + 1));
    assert(d.velocities.swapped().swapped() == d.velocities);
}

/// What a stage writes into the other buffer of a pair is what the stage after the
/// swap of that pair reads: the constraint solver's corrected positions are read
/// by the next density computation, the refined velocities by the vorticity
/// force, and the reordered positions by the neighbor search. The barrier that
/// the constraint solver and the refinement record on what they wrote is a
/// barrier on the buffer that the next reader takes.
pub proof fn lemma_written_buffer_is_read_after_swap(d: ParticleData, i: usize, j: usize)
    ensures
        step_barriers_spec(PhysicsStep::SolveConstraints { iteration: i }, d)[1] == c2c_barrier(
            step_buffers_spec(PhysicsStep::ComputeDensity { iteration: j }, apply_step(d, PhysicsStep::SwapPositions))[0],
            ACCESS_SHADER_STORAGE_WRITE,
            ACCESS_SHADER_STORAGE_READ_WRITE,
        ),
        step_barriers_spec(PhysicsStep::RefineVelocities, d)[1] == c2c_barrier(
            step_buffers_spec(PhysicsStep::ComputeVorticityForce, apply_step(d, PhysicsStep::SwapVelocities))[1],
            ACCESS_SHADER_STORAGE_WRITE,
            ACCESS_SHADER_STORAGE_READ,
        ),
        step_buffers_spec(PhysicsStep::SolveConstraints { iteration: i }, d)[1]
            == step_buffers_spec(PhysicsStep::ComputeDensity { iteration: j }, apply_step(d, PhysicsStep::SwapPositions))[0],
        step_buffers_spec(PhysicsStep::RefineVelocities, d)[2]
            == step_buffers_spec(PhysicsStep::ComputeVorticityForce, apply_step(d, PhysicsStep::SwapVelocities))[1],
        step_buffers_spec(PhysicsStep::ReorderParticles, d)[1]
            == step_buffers_spec(PhysicsStep::BuildNeighborList, apply_step(d, PhysicsStep::SwapParticleBuffers))[0],
        step_buffers_spec(PhysicsStep::ReorderParticles, d)[5]
            == step_buffers_spec(PhysicsStep::UpdateVelocities, apply_step(d, PhysicsStep::SwapParticleBuffers))[2],
{
}

proof fn lemma_apply_no_swaps(d: ParticleData, s: Seq<PhysicsStep>)
    requires
        forall|i: int| 0 <= i < s.len() ==> s[i] != PhysicsStep::SwapParticleBuffers
            && s[i] != PhysicsStep::SwapPositions && s[i] != PhysicsStep::SwapVelocities,
    ensures
        apply_steps(d, s) == d,
    decreases s.len(),
{
    if s.len() > 0 {
        lemma_apply_no_swaps(d, s.drop_last());
    }
}

} // verus!
