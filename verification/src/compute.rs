use vstd::prelude::*;
use crate::particles::BufferHandle;

verus! {

/// Numbers of thread groups of one compute dispatch, along x, y and z.
#[derive(Clone, Copy, Debug, PartialEq, Eq, Structural)]
pub struct GroupCounts {
    pub x: u32,
    pub y: u32,
    pub z: u32,
}

impl GroupCounts {
    /// A one-dimensional dispatch of `x` thread groups.
    pub fn linear(x: u32) -> (r: GroupCounts)
        ensures
            r == (GroupCounts { x, y: 1, z: 1 }),
    {
        GroupCounts { x, y: 1, z: 1 }
    }
}


/// Raw bit of `VK_ACCESS_2_SHADER_STORAGE_READ_BIT`.
pub const ACCESS_SHADER_STORAGE_READ: u64 = 0x2_0000_0000;
/// Raw bit of `VK_ACCESS_2_SHADER_STORAGE_WRITE_BIT`.
pub const ACCESS_SHADER_STORAGE_WRITE: u64 = 0x4_0000_0000;
/// Shader storage reads and writes.
pub const ACCESS_SHADER_STORAGE_READ_WRITE: u64 = 0x6_0000_0000;

/// Raw bit of `VK_ACCESS_2_TRANSFER_WRITE_BIT`.
pub const ACCESS_TRANSFER_WRITE: u64 = 0x1000;

/// A memory barrier on one whole buffer: the accesses before it (`src_access`)
/// that the accesses after it (`dst_access`) wait for, as raw access bits.
#[derive(Clone, Copy, Debug, PartialEq, Eq, Structural)]
pub struct BufferBarrier {
    pub buffer: BufferHandle,
    pub src_access: u64,
    pub dst_access: u64,
}

/// The barrier on `buffer` from `src_access` to `dst_access`.
pub open spec fn barrier(buffer: BufferHandle, src_access: u64, dst_access: u64) -> BufferBarrier {
    BufferBarrier { buffer, src_access, dst_access }
}

/// A buffer barrier together with the pipeline stages it separates.
#[derive(Clone, Copy, Debug, PartialEq, Eq, Structural)]
pub enum StageBarrier {
    /// Between compute shaders.
    ComputeToCompute(BufferBarrier),
    /// From a transfer (fill or copy) to compute shaders.
    TransferToCompute(BufferBarrier),
    /// From compute shaders on the compute queue to the graphics queue.
    ComputeToGraphics(BufferBarrier),
}

/// `ceil(n / d)` over the integers.
pub open spec fn ceil_div(n: int, d: int) -> int
    recommends
        d > 0,
{
    (n + d - 1) / d
}

/// A one-dimensional dispatch with one thread per element, computed as
/// `(num_elements + (group_size - 1)) / group_size`: `ceil(num_elements /
/// group_size)` thread groups of `group_size` threads.
pub fn dispatch_rounding_up(num_elements: u32, group_size: u32) -> (r: GroupCounts)
    requires
        group_size > 0,
        num_elements + group_size - 1 <= u32::MAX,
    ensures
        r == (GroupCounts { x: ceil_div(num_elements as int, group_size as int) as u32, y: 1, z: 1 }),
{
    let x = (num_elements + (group_size - 1)) / group_size;
    GroupCounts::linear(x)
}

/// A one-dimensional dispatch with one thread per element, computed as
/// `(num_elements + group_size - 1) / group_size`, left to right (so
/// `num_elements + group_size` must fit): `ceil(num_elements / group_size)`
/// thread groups of `group_size` threads.
pub fn dispatch_for_elements(num_elements: u32, group_size: u32) -> (r: GroupCounts)
    requires
        group_size > 0,
        num_elements + group_size <= u32::MAX,
    ensures
        r == (GroupCounts { x: ceil_div(num_elements as int, group_size as int) as u32, y: 1, z: 1 }),
        r.x * group_size >= num_elements,
        r.x * group_size < num_elements + group_size,
{
    let x = (num_elements + group_size - 1) / group_size;
    proof {
        let n = num_elements as int;
        let g = group_size as int;
        assert(x * g >= n && x * g < n + g) by (nonlinear_arith)
            requires
                x == (n + g - 1) / g,
                g > 0,
                n >= 0,
        ;
    }
    GroupCounts::linear(x)
}

/// The kind of a descriptor binding of a compute shader.
#[derive(Clone, Copy, Debug, PartialEq, Eq, Structural)]
pub enum BindingKind {
    StorageBuffer,
    StorageImage,
    SampledImage,
}

/// A specialization constant handed to a shader when its pipeline is built.
#[derive(Clone, Copy, Debug)]
pub struct ShaderConstant {
    pub name: &'static str,
    pub value: u32,
}

/// What a compute system is built from: the shader, its entry points (one
/// pipeline per entry point, in order), its specialization constants and its
/// descriptor bindings (binding `i` is the `i`-th kind).
#[derive(Debug)]
pub struct ComputeSystemSpec {
    pub shader_name: &'static str,
    pub entry_points: Vec<&'static str>,
    pub constants: Vec<ShaderConstant>,
    pub bindings: Vec<BindingKind>,
}

/// The mathematical content of a `ComputeSystemSpec`.
pub struct ComputeSystemView {
    pub shader_name: Seq<char>,
    pub entry_points: Seq<Seq<char>>,
    pub constants: Seq<(Seq<char>, u32)>,
    pub bindings: Seq<BindingKind>,
}

impl View for ComputeSystemSpec {
    type V = ComputeSystemView;

    open spec fn view(&self) -> ComputeSystemView {
        ComputeSystemView {
            shader_name: self.shader_name@,
            entry_points: self.entry_points@.map_values(|e: &'static str| e@),
            constants: self.constants@.map_values(|c: ShaderConstant| (c.name@, c.value)),
            bindings: self.bindings@,
        }
    }
}

/// A compute system of a single `main` entry point.
pub open spec fn single_pass_view(
    shader_name: Seq<char>,
    constants: Seq<(Seq<char>, u32)>,
    bindings: Seq<BindingKind>,
) -> ComputeSystemView {
    ComputeSystemView { shader_name, entry_points: seq!["main"@], constants, bindings }
}

impl ComputeSystemSpec {
    /// A compute system built from `shader_name` with the single entry point `main`.
    pub fn single_pass(
        shader_name: &'static str,
        constants: Vec<ShaderConstant>,
        bindings: Vec<BindingKind>,
    ) -> (r: ComputeSystemSpec)
        ensures
            r@ == single_pass_view(shader_name@, constants@.map_values(|c: ShaderConstant| (c.name@, c.value)), bindings@),
    {
        let entry_points = vec!["main"];
        let r = ComputeSystemSpec { shader_name, entry_points, constants, bindings };
        assert(r@.entry_points =~= seq!["main"@]);
        r
    }
}

} // verus!
