use vstd::prelude::*;
use vstd::std_specs::bits::{axiom_u32_trailing_zeros, u32_trailing_zeros};
use crate::particles::BufferHandle;

verus! {

/// Values stored per grid cell: the start and end of its particles and its
/// neighbor bits.
pub const NUM_VARIABLES_PER_CELL: u32 = 3;
/// The value of a grid cell that holds no particle.
pub const EMPTY_CELL: u32 = 0xFFFF_FFFF;
/// Spatial dimensions of the grid.
pub const NUM_DIMENSIONS: u32 = 3;

/// Whether `r` is `1 << k` for some `k < 32`.
pub open spec fn is_power_of_two(r: u32) -> bool {
    exists|k: u32| k < 32 && r == #[trigger] (1u32 << k)
}

/// Powers of two grow with the exponent.
proof fn lemma_shift_monotone(k: u32, j: u32)
    by (bit_vector)
    requires
        k <= j,
        j < 32,
    ensures
        (1u32 << k) <= (1u32 << j),
{
}

/// Doubling `1 << k` gives `1 << (k + 1)`, and a power of two below `1 << 31`
/// has an exponent below 31.
proof fn lemma_shift_double(k: u32)
    by (bit_vector)
    requires
        k < 32,
        (1u32 << k) < 0x8000_0000u32,
    ensures
        k < 31,
        (1u32 << k) * 2 == (1u32 << ((k + 1) as u32)),
{
}

/// The smallest power of two that is at least `n` (as `u32::next_power_of_two`),
/// for the `n` whose result fits in a `u32`.
fn next_power_of_two(n: u32) -> (r: u32)
    requires
        n <= 0x8000_0000,
    ensures
        is_power_of_two(r),
        n <= r,
        forall|k: u32| k < 32 && n <= #[trigger] (1u32 << k) ==> r <= (1u32 << k),
{
    let mut p: u32 = 1;
    let ghost mut e: u32 = 0;
    assert(1u32 << 0u32 == 1u32) by (bit_vector);
    while p < n
        invariant
            n <= 0x8000_0000,
            e < 32,
            p == 1u32 << e,
            forall|j: u32| j < e ==> #[trigger] (1u32 << j) < n,
        decreases 32 - e,
    {
        proof {
            lemma_shift_double(e);
        }
        p = p * 2;
        proof {
            e = (e + 1) as u32;
        }
    }
    assert forall|k: u32| k < 32 && n <= #[trigger] (1u32 << k) implies p <= (1u32 << k) by {
        if k < e {
            assert((1u32 << k) < n);
        } else {
            lemma_shift_monotone(e, k);
        }
    }
    p
}

/// Side length, in cells, of the grid along an axis that needs at least `cells`
/// cells: the smallest power of two that is at least `cells`.
pub fn grid_dimension(cells: u32) -> (r: u32)
    requires
        cells <= 0x8000_0000,
    ensures
        is_power_of_two(r),
        cells <= r,
        forall|k: u32| k < 32 && cells <= #[trigger] (1u32 << k) ==> r <= (1u32 << k),
{
    next_power_of_two(cells)
}

/// The trailing zeros of `1 << k` are `k`.
pub proof fn lemma_trailing_zeros_of_power_of_two(k: u32)
    requires
        k < 32,
    ensures
        u32_trailing_zeros(1u32 << k) == k,
{
    let x = 1u32 << k;
    axiom_u32_trailing_zeros(x);
    let tz = u32_trailing_zeros(x);
    assert(x != 0) by (bit_vector)
        requires
            x == 1u32 << k,
            k < 32,
    ;
    assert(forall|j: u32| j < 32 ==> ((x >> j) & 1u32 == 1u32 <==> j == k)) by (bit_vector)
        requires
            x == 1u32 << k,
            k < 32,
    ;
    if tz < k {
        assert((x >> (tz as u32)) & 1u32 == 1u32);
    } else if tz > k {
        assert((x >> k) & 1u32 == 0u32);
    }
}

/// The size of the grid in cells along each axis.
#[derive(Clone, Copy, Debug, PartialEq, Eq, Structural)]
pub struct GridSize {
    pub x: u32,
    pub y: u32,
    pub z: u32,
}

/// Width, height and depth of a 3D texture.
#[derive(Clone, Copy, Debug, PartialEq, Eq, Structural)]
pub struct Extent3D {
    pub width: u32,
    pub height: u32,
    pub depth: u32,
}

/// A uniform grid over the simulated world, whose sides are powers of two so
/// that cell coordinates interleave into Morton codes.
pub struct SpatialGrid {
    grid_size: GridSize,
}

impl SpatialGrid {
    #[verifier::type_invariant]
    spec fn wf(self) -> bool {
        &&& is_power_of_two(self.grid_size.x)
        &&& is_power_of_two(self.grid_size.y)
        &&& is_power_of_two(self.grid_size.z)
    }

    /// The grid size in cells.
    pub closed spec fn size_spec(self) -> GridSize {
        self.grid_size
    }

    /// A grid with at least `cells_x`, `cells_y` and `cells_z` cells along the three
    /// axes, each rounded up to a power of two.
    pub fn new(cells_x: u32, cells_y: u32, cells_z: u32) -> (r: SpatialGrid)
        requires
            cells_x <= 0x8000_0000,
            cells_y <= 0x8000_0000,
            cells_z <= 0x8000_0000,
        ensures
            is_power_of_two(r.size_spec().x) && cells_x <= r.size_spec().x,
            is_power_of_two(r.size_spec().y) && cells_y <= r.size_spec().y,
            is_power_of_two(r.size_spec().z) && cells_z <= r.size_spec().z,
            forall|k: u32| k < 32 && cells_x <= #[trigger] (1u32 << k) ==> r.size_spec().x <= (1u32 << k),
            forall|k: u32| k < 32 && cells_y <= #[trigger] (1u32 << k) ==> r.size_spec().y <= (1u32 << k),
            forall|k: u32| k < 32 && cells_z <= #[trigger] (1u32 << k) ==> r.size_spec().z <= (1u32 << k),
    {
        let grid_size = GridSize { x: grid_dimension(cells_x), y: grid_dimension(cells_y), z: grid_dimension(cells_z) };
        SpatialGrid { grid_size }
    }

    /// The grid size in cells.
    pub fn grid_size(&self) -> (r: GridSize)
        ensures
            r == self.size_spec(),
            is_power_of_two(r.x) && is_power_of_two(r.y) && is_power_of_two(r.z),
    {
        proof {
            use_type_invariant(self);
        }
        self.grid_size
    }

    /// Returns the number of bits used to encode the Morton code: the grid has
    /// `2^k` cells along x, and each of the three coordinates takes `k` bits.
    pub fn num_bits_needed_for_morton_codes(&self) -> (r: u32)
        ensures
            r % NUM_DIMENSIONS == 0,
            r / NUM_DIMENSIONS < 32,
            (1u32 << (r / NUM_DIMENSIONS)) == self.size_spec().x,
            r == NUM_DIMENSIONS * u32_trailing_zeros(self.size_spec().x),
    {
        proof {
            use_type_invariant(self);
            let k = choose|k: u32| k < 32 && self.grid_size.x == #[trigger] (1u32 << k);
            lemma_trailing_zeros_of_power_of_two(k);
        }
        self.grid_size.x.trailing_zeros() * NUM_DIMENSIONS
    }
}

/// The grid's texture: for every cell, `NUM_VARIABLES_PER_CELL` values side by side
/// along x.
pub struct SpatialGridBuffers {
    pub grid_texture: BufferHandle,
    pub grid_texture_view: BufferHandle,
}

impl SpatialGridBuffers {
    /// The buffers of a grid, from the texture and its view.
    pub fn new(grid_texture: BufferHandle, grid_texture_view: BufferHandle) -> (r: SpatialGridBuffers)
        ensures
            r.grid_texture == grid_texture,
            r.grid_texture_view == grid_texture_view,
    {
        SpatialGridBuffers { grid_texture, grid_texture_view }
    }

    /// Extent of the texture of a grid of `grid_size` cells: the width holds the
    /// `NUM_VARIABLES_PER_CELL` values of every cell.
    pub fn texture_extent(grid_size: GridSize) -> (r: Extent3D)
        requires
            grid_size.x * NUM_VARIABLES_PER_CELL <= u32::MAX,
        ensures
            r == (Extent3D { width: (grid_size.x * NUM_VARIABLES_PER_CELL) as u32, height: grid_size.y, depth: grid_size.z }),
    {
        Extent3D { width: grid_size.x * NUM_VARIABLES_PER_CELL, height: grid_size.y, depth: grid_size.z }
    }
}

} // verus!
