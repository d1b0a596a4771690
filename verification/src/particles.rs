use vstd::prelude::*;
use crate::ping_pong::PingPong;

verus! {

/// A GPU buffer, by the raw value of its handle.
#[derive(Clone, Copy, Debug, PartialEq, Eq, Structural)]
pub struct BufferHandle {
    pub raw: u64,
}

/// The GPU buffers of the particle system. Positions, previous positions and
/// velocities are double-buffered; the rest are single buffers.
#[derive(Clone, Copy, Debug, PartialEq, Eq, Structural)]
pub struct ParticleData {
    pub positions_buffer: PingPong<BufferHandle>,
    pub previous_positions_buffer: PingPong<BufferHandle>,
    pub velocities: PingPong<BufferHandle>,
    pub lambdas: BufferHandle,
    pub densities: BufferHandle,
    pub vorticity: BufferHandle,
    pub morton_codes_buffer: BufferHandle,
    pub object_indices_buffer: BufferHandle,
}

impl ParticleData {
    /// The particle data after `swap`: the three double-buffered attributes
    /// exchange roles, the single buffers stay.
    pub open spec fn swapped(self) -> ParticleData {
        ParticleData {
            positions_buffer: self.positions_buffer.swapped(),
            previous_positions_buffer: self.previous_positions_buffer.swapped(),
            velocities: self.velocities.swapped(),
            ..self
        }
    }

    /// Makes the buffers just written by a reordering pass the ones read next.
    pub fn swap(&mut self)
        ensures
            *final(self) == old(self).swapped(),
    {
        self.positions_buffer.swap();
        self.previous_positions_buffer.swap();
        self.velocities.swap();
    }
}

/// The two regions in which the initial particles are spawned.
#[derive(Clone, Copy, Debug, PartialEq, Eq, Structural)]
pub enum SpawnBand {
    /// The first half of the particles, near the origin along z.
    Near,
    /// The second half, further along z.
    Far,
}

/// The band in which particle `index` of `num_particles` is spawned: the first
/// `num_particles / 2` particles go to the near band, the rest to the far one.
pub fn spawn_band(index: usize, num_particles: usize) -> (r: SpawnBand)
    requires
        index < num_particles,
    ensures
        r == (if index < num_particles / 2 { SpawnBand::Near } else { SpawnBand::Far }),
{
    if index < num_particles / 2 {
        SpawnBand::Near
    } else {
        SpawnBand::Far
    }
}

} // verus!
