use fluid_sim::particles::{spawn_band, BufferHandle, ParticleData, SpawnBand};
use fluid_sim::ping_pong::PingPong;

fn h(raw: u64) -> BufferHandle {
    BufferHandle { raw }
}

fn sample_data() -> ParticleData {
    ParticleData {
        positions_buffer: PingPong::new(h(1), h(2)),
        previous_positions_buffer: PingPong::new(h(3), h(4)),
        velocities: PingPong::new(h(5), h(6)),
        lambdas: h(7),
        densities: h(8),
        vorticity: h(9),
        morton_codes_buffer: h(10),
        object_indices_buffer: h(11),
    }
}

#[test]
fn ping_pong_swap_exchanges_roles() {
    let mut p = PingPong::new(10u32, 20u32);
    assert_eq!(p.current(), 10);
    assert_eq!(p.next(), 20);
    assert_eq!(p.read_write(), (10, 20));
    p.swap();
    assert_eq!(p.current(), 20);
    assert_eq!(p.next(), 10);
    p.swap();
    assert_eq!(p, PingPong::new(10, 20));
}

#[test]
fn particle_data_swap_swaps_double_buffers_only() {
    let mut d = sample_data();
    d.swap();
    assert_eq!(d.positions_buffer.current(), h(2));
    assert_eq!(d.previous_positions_buffer.current(), h(4));
    assert_eq!(d.velocities.current(), h(6));
    assert_eq!(d.lambdas, h(7));
    assert_eq!(d.densities, h(8));
    assert_eq!(d.vorticity, h(9));
    assert_eq!(d.morton_codes_buffer, h(10));
    assert_eq!(d.object_indices_buffer, h(11));
    d.swap();
    assert_eq!(d, sample_data());
}

#[test]
fn spawn_bands_split_at_half() {
    assert_eq!(spawn_band(0, 10), SpawnBand::Near);
    assert_eq!(spawn_band(4, 10), SpawnBand::Near);
    assert_eq!(spawn_band(5, 10), SpawnBand::Far);
    assert_eq!(spawn_band(9, 10), SpawnBand::Far);
    assert_eq!(spawn_band(0, 1), SpawnBand::Far);
    assert_eq!(spawn_band(1, 3), SpawnBand::Far);
    assert_eq!(spawn_band(0, 3), SpawnBand::Near);
}
