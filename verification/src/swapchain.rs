use vstd::prelude::*;

verus! {

/// Raw value of `VK_PRESENT_MODE_IMMEDIATE_KHR` (no vertical sync).
pub const PRESENT_MODE_IMMEDIATE: i32 = 0;
/// Raw value of `VK_PRESENT_MODE_MAILBOX_KHR`.
pub const PRESENT_MODE_MAILBOX: i32 = 1;
/// Raw value of `VK_PRESENT_MODE_FIFO_KHR` (vertical sync, always supported).
pub const PRESENT_MODE_FIFO: i32 = 2;
/// Raw bit of `VK_SURFACE_TRANSFORM_IDENTITY_BIT_KHR`.
pub const SURFACE_TRANSFORM_IDENTITY: u32 = 1;
/// Images the swapchain asks for at least, for triple buffering.
pub const PREFERRED_IMAGE_COUNT: u32 = 3;
/// Width that a surface reports when the window decides the extent.
pub const EXTENT_FROM_WINDOW: u32 = 0xFFFF_FFFF;

/// A width and height in pixels.
#[derive(Clone, Copy, Debug, PartialEq, Eq, Structural)]
pub struct Extent2D {
    pub width: u32,
    pub height: u32,
}

/// A surface format, by the raw values of its format and color space.
#[derive(Clone, Copy, Debug, PartialEq, Eq, Structural)]
pub struct SurfaceFormat {
    pub format: i32,
    pub color_space: i32,
}

/// What the surface reports of its capabilities, as far as the swapchain set-up
/// reads them.
#[derive(Clone, Copy, Debug, PartialEq, Eq, Structural)]
pub struct SurfaceCapabilities {
    pub min_image_count: u32,
    pub max_image_count: u32,
    pub current_extent: Extent2D,
    /// Raw bits of the supported transforms.
    pub supported_transforms: u32,
    /// Raw bits of the current transform.
    pub current_transform: u32,
}

/// `min_image_count` raised to `PREFERRED_IMAGE_COUNT`, then capped at `max_image_count`.
pub open spec fn image_count_spec(min_image_count: u32, max_image_count: u32) -> u32 {
    let desired = if min_image_count >= PREFERRED_IMAGE_COUNT { min_image_count } else { PREFERRED_IMAGE_COUNT };
    if desired <= max_image_count { desired } else { max_image_count }
}

/// Number of swapchain images: at least `PREFERRED_IMAGE_COUNT` and at least the
/// surface's minimum, capped at the surface's reported maximum (so a reported
/// maximum of 0 gives 0).
pub fn choose_image_count(min_image_count: u32, max_image_count: u32) -> (r: u32)
    ensures
        r == image_count_spec(min_image_count, max_image_count),
        r <= max_image_count,
        min_image_count <= max_image_count ==> min_image_count <= r,
        PREFERRED_IMAGE_COUNT <= max_image_count ==> PREFERRED_IMAGE_COUNT <= r,
{
    let desired = if min_image_count >= PREFERRED_IMAGE_COUNT { min_image_count } else { PREFERRED_IMAGE_COUNT };
    if desired <= max_image_count { desired } else { max_image_count }
}

/// The swapchain extent: the surface's current extent, unless the surface
/// leaves it to the window (width `EXTENT_FROM_WINDOW`), then the window's size.
pub fn choose_surface_extent(current_extent: Extent2D, window_size: Extent2D) -> (r: Extent2D)
    ensures
        r == (if current_extent.width == EXTENT_FROM_WINDOW { window_size } else { current_extent }),
{
    if current_extent.width == EXTENT_FROM_WINDOW {
        window_size
    } else {
        current_extent
    }
}

/// The present mode: `PRESENT_MODE_IMMEDIATE` (no vertical sync) where the surface
/// offers it, else `PRESENT_MODE_FIFO`.
pub fn choose_present_mode(present_modes: &Vec<i32>) -> (r: i32)
    ensures
        r == (if present_modes@.contains(PRESENT_MODE_IMMEDIATE) { PRESENT_MODE_IMMEDIATE } else { PRESENT_MODE_FIFO }),
{
    let mut i: usize = 0;
    while i < present_modes.len()
        invariant
            i <= present_modes.len(),
            forall|j: int| 0 <= j < i ==> present_modes@[j] != PRESENT_MODE_IMMEDIATE,
        decreases present_modes.len() - i,
    {
        if present_modes[i] == PRESENT_MODE_IMMEDIATE {
            assert(present_modes@[i as int] == PRESENT_MODE_IMMEDIATE);
            return PRESENT_MODE_IMMEDIATE;
        }
        i = i + 1;
    }
    PRESENT_MODE_FIFO
}

/// Whether the flag bits `flags` hold every bit of `other`.
pub open spec fn flags_contain(flags: u32, other: u32) -> bool {
    flags & other == other
}

/// The pre-transform: the identity where the surface supports it, else the
/// surface's current transform.
pub fn choose_pre_transform(supported_transforms: u32, current_transform: u32) -> (r: u32)
    ensures
        r == (if flags_contain(supported_transforms, SURFACE_TRANSFORM_IDENTITY) {
            SURFACE_TRANSFORM_IDENTITY
        } else {
            current_transform
        }),
{
    if supported_transforms & SURFACE_TRANSFORM_IDENTITY == SURFACE_TRANSFORM_IDENTITY {
        SURFACE_TRANSFORM_IDENTITY
    } else {
        current_transform
    }
}

/// The parameters a swapchain is created with.
#[derive(Clone, Copy, Debug, PartialEq, Eq, Structural)]
pub struct SwapchainConfig {
    pub image_count: u32,
    pub extent: Extent2D,
    pub format: SurfaceFormat,
    pub present_mode: i32,
    pub pre_transform: u32,
}

impl SwapchainConfig {
    /// The swapchain parameters for a surface with capabilities `caps`, formats
    /// `formats` (the first is taken), present modes `present_modes`, in a window
    /// of size `window_size`.
    pub fn select(
        caps: SurfaceCapabilities,
        formats: &Vec<SurfaceFormat>,
        present_modes: &Vec<i32>,
        window_size: Extent2D,
    ) -> (r: SwapchainConfig)
        requires
            formats.len() > 0,
        ensures
            r.image_count == image_count_spec(caps.min_image_count, caps.max_image_count),
            r.extent == (if caps.current_extent.width == EXTENT_FROM_WINDOW { window_size } else { caps.current_extent }),
            r.format == formats@[0],
            r.present_mode == (if present_modes@.contains(PRESENT_MODE_IMMEDIATE) {
                PRESENT_MODE_IMMEDIATE
            } else {
                PRESENT_MODE_FIFO
            }),
            r.pre_transform == (if flags_contain(caps.supported_transforms, SURFACE_TRANSFORM_IDENTITY) {
                SURFACE_TRANSFORM_IDENTITY
            } else {
                caps.current_transform
            }),
    {
        SwapchainConfig {
            image_count: choose_image_count(caps.min_image_count, caps.max_image_count),
            extent: choose_surface_extent(caps.current_extent, window_size),
            format: formats[0],
            present_mode: choose_present_mode(present_modes),
            pre_transform: choose_pre_transform(caps.supported_transforms, caps.current_transform),
        }
    }
}

/// A window with a zero width or height is not visible: its swapchain is not
/// recreated on resize.
pub fn should_recreate_swapchain(resolution: Extent2D) -> (r: bool)
    ensures
        r == (resolution.width != 0 && resolution.height != 0),
{
    !(resolution.width == 0 || resolution.height == 0)
}

} // verus!
