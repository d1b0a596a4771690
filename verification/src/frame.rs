use vstd::prelude::*;
use crate::swapchain::Extent2D;

verus! {

/// Number of frames that may be in flight on the GPU at once.
pub const MAX_FRAME_LATENCY: usize = 3;
/// Raw bit of `VK_PIPELINE_STAGE_2_COLOR_ATTACHMENT_OUTPUT_BIT`.
pub const STAGE_COLOR_ATTACHMENT_OUTPUT: u64 = 0x400;
/// Raw bit of `VK_PIPELINE_STAGE_2_ALL_GRAPHICS_BIT`.
pub const STAGE_ALL_GRAPHICS: u64 = 0x8000;
/// Raw bit of `VK_PIPELINE_STAGE_2_TASK_SHADER_BIT_EXT`.
pub const STAGE_TASK_SHADER: u64 = 0x80000;

/// What became of the request for the next swapchain image.
#[derive(Clone, Copy, Debug, PartialEq, Eq, Structural)]
pub enum AcquireOutcome {
    /// Image `image_index` was acquired; `suboptimal` if the swapchain no longer
    /// matches the surface exactly.
    Acquired { image_index: u32, suboptimal: bool },
    /// The swapchain is out of date and must be recreated.
    OutOfDate,
}

/// What became of the presentation of a frame.
#[derive(Clone, Copy, Debug, PartialEq, Eq, Structural)]
pub enum PresentOutcome {
    /// Presented; `suboptimal` if the swapchain no longer matches the surface exactly.
    Presented { suboptimal: bool },
    /// The swapchain is out of date and must be recreated.
    OutOfDate,
}

/// What to do at the start of a frame.
#[derive(Clone, Copy, Debug, PartialEq, Eq, Structural)]
pub struct FrameStart {
    /// Recreate the swapchain first.
    pub resize: bool,
    /// The per-frame resources to use, or `None` to skip the frame (minimized window).
    pub frame_slot: Option<usize>,
}

/// The frame loop's bookkeeping: how many frames were submitted and whether the
/// swapchain must be recreated before the next one.
#[derive(Clone, Copy, Debug, PartialEq, Eq, Structural)]
pub struct FrameScheduler {
    pub frame_index: usize,
    pub needs_resize: bool,
}

/// The per-frame resources used by frame number `frame_index`.
pub open spec fn frame_slot_spec(frame_index: int) -> int {
    frame_index % (MAX_FRAME_LATENCY as int)
}

impl FrameScheduler {
    /// Before the first frame.
    pub fn new() -> (r: FrameScheduler)
        ensures
            r.frame_index == 0,
            !r.needs_resize,
    {
        FrameScheduler { frame_index: 0, needs_resize: false }
    }

    /// Number of frames that may be in flight at once.
    pub fn frames_in_flight() -> (r: usize)
        ensures
            r == MAX_FRAME_LATENCY,
    {
        MAX_FRAME_LATENCY
    }

    /// Starts a frame in a window of size `window_size`: a pending resize is
    /// handed out (and cleared); a minimized window (zero width or height) skips
    /// the frame; otherwise the frame uses slot `frame_index % MAX_FRAME_LATENCY`.
    pub fn begin_frame(&mut self, window_size: Extent2D) -> (r: FrameStart)
        ensures
            r.resize == old(self).needs_resize,
            !final(self).needs_resize,
            final(self).frame_index == old(self).frame_index,
            r.frame_slot == (if window_size.width == 0 || window_size.height == 0 {
                None::<usize>
            } else {
                Some(frame_slot_spec(old(self).frame_index as int) as usize)
            }),
            r.frame_slot matches Some(s) ==> s < MAX_FRAME_LATENCY,
    {
        let resize = self.needs_resize;
        self.needs_resize = false;
        if window_size.width == 0 || window_size.height == 0 {
            return FrameStart { resize, frame_slot: None };
        }
        FrameStart { resize, frame_slot: Some(self.frame_index % MAX_FRAME_LATENCY) }
    }

    /// Records the outcome of acquiring a swapchain image: the image to render to,
    /// or `None` when the swapchain is out of date. A suboptimal or out-of-date
    /// swapchain is marked for recreation.
    pub fn acquired(&mut self, outcome: AcquireOutcome) -> (r: Option<u32>)
        ensures
            final(self).frame_index == old(self).frame_index,
            match outcome {
                AcquireOutcome::Acquired { image_index, suboptimal } => {
                    &&& r == Some(image_index)
                    &&& final(self).needs_resize == (old(self).needs_resize || suboptimal)
                },
                AcquireOutcome::OutOfDate => {
                    &&& r == None::<u32>
                    &&& final(self).needs_resize
                },
            },
    {
        match outcome {
            AcquireOutcome::Acquired { image_index, suboptimal } => {
                if suboptimal {
                    self.needs_resize = true;
                }
                Some(image_index)
            },
            AcquireOutcome::OutOfDate => {
                self.needs_resize = true;
                None
            },
        }
    }

    /// Records the outcome of presenting a frame: a suboptimal or out-of-date
    /// swapchain is marked for recreation, and the next frame comes.
    pub fn presented(&mut self, outcome: PresentOutcome)
        requires
            old(self).frame_index < usize::MAX,
        ensures
            final(self).frame_index == old(self).frame_index + 1,
            final(self).needs_resize == (old(self).needs_resize || match outcome {
                PresentOutcome::Presented { suboptimal } => suboptimal,
                PresentOutcome::OutOfDate => true,
            }),
            frame_slot_spec(final(self).frame_index as int) == (frame_slot_spec(old(self).frame_index as int) + 1)
                % (MAX_FRAME_LATENCY as int),
    {
        match outcome {
            PresentOutcome::Presented { suboptimal } => {
                if suboptimal {
                    self.needs_resize = true;
                }
            },
            PresentOutcome::OutOfDate => {
                self.needs_resize = true;
            },
        }
        self.frame_index = self.frame_index + 1;
    }

    /// The stricter variant of `presented` of the single-threaded renderer: only a
    /// frame presented to an optimal swapchain advances the frame count; otherwise
    /// the swapchain is marked for recreation and the frame count stays.
    pub fn presented_or_retry(&mut self, outcome: PresentOutcome)
        requires
            old(self).frame_index < usize::MAX,
        ensures
            outcome == (PresentOutcome::Presented { suboptimal: false }) ==> {
                &&& final(self).frame_index == old(self).frame_index + 1
                &&& final(self).needs_resize == old(self).needs_resize
            },
            outcome != (PresentOutcome::Presented { suboptimal: false }) ==> {
                &&& final(self).frame_index == old(self).frame_index
                &&& final(self).needs_resize
            },
    {
        match outcome {
            PresentOutcome::Presented { suboptimal } => {
                if suboptimal {
                    self.needs_resize = true;
                } else {
                    self.frame_index = self.frame_index + 1;
                }
            },
            PresentOutcome::OutOfDate => {
                self.needs_resize = true;
            },
        }
    }
}

/// Frames less than `MAX_FRAME_LATENCY` apart never share per-frame resources, and
/// frames exactly `MAX_FRAME_LATENCY` apart always do.
pub proof fn lemma_frame_slots_distinct(a: int, b: int)
    requires
        0 <= a,
        0 <= b,
    ensures
        a < b < a + MAX_FRAME_LATENCY ==> frame_slot_spec(a) != frame_slot_spec(b),
        frame_slot_spec(a) == frame_slot_spec(a + MAX_FRAME_LATENCY),
        0 <= frame_slot_spec(a) < MAX_FRAME_LATENCY,
{
}

/// A semaphore that a submission waits on, and the stages that wait for it.
#[derive(Clone, Copy, Debug, PartialEq, Eq, Structural)]
pub struct SemaphoreWait {
    pub semaphore: u64,
    pub stage_mask: u64,
}

/// What a frame's draw submission waits for: the acquired image, before color
/// output, and, when the simulation ran this frame, its compute work, before the
/// task shaders read the particles.
pub fn render_wait_semaphores(present_complete: u64, compute_finished: Option<u64>) -> (r: Vec<SemaphoreWait>)
    ensures
        r@ == (match compute_finished {
            Some(c) => seq![
                SemaphoreWait { semaphore: present_complete, stage_mask: STAGE_COLOR_ATTACHMENT_OUTPUT },
                SemaphoreWait { semaphore: c, stage_mask: STAGE_TASK_SHADER },
            ],
            None => seq![SemaphoreWait { semaphore: present_complete, stage_mask: STAGE_COLOR_ATTACHMENT_OUTPUT }],
        }),
{
    let mut waits = vec![SemaphoreWait { semaphore: present_complete, stage_mask: STAGE_COLOR_ATTACHMENT_OUTPUT }];
    if let Some(c) = compute_finished {
        waits.push(SemaphoreWait { semaphore: c, stage_mask: STAGE_TASK_SHADER });
    }
    assert(waits@ =~= (match compute_finished {
        Some(c) => seq![
            SemaphoreWait { semaphore: present_complete, stage_mask: STAGE_COLOR_ATTACHMENT_OUTPUT },
            SemaphoreWait { semaphore: c, stage_mask: STAGE_TASK_SHADER },
        ],
        None => seq![SemaphoreWait { semaphore: present_complete, stage_mask: STAGE_COLOR_ATTACHMENT_OUTPUT }],
    }));
    waits
}

/// The stage masks of the `num_wait` semaphores of a one-time submission: none
/// when no masks are given, else the `i`-th mask for the `i`-th semaphore.
pub fn wait_stage_masks(num_wait: usize, wait_mask: &Vec<u64>) -> (r: Vec<Option<u64>>)
    requires
        wait_mask.len() == 0 || wait_mask.len() >= num_wait,
    ensures
        r.len() == num_wait,
        forall|i: int| 0 <= i < num_wait ==> #[trigger] r@[i] == (if wait_mask.len() == 0 {
            None::<u64>
        } else {
            Some(wait_mask@[i])
        }),
{
    let mut masks: Vec<Option<u64>> = Vec::new();
    let mut i: usize = 0;
    while i < num_wait
        invariant
            i <= num_wait,
            wait_mask.len() == 0 || wait_mask.len() >= num_wait,
            masks.len() == i,
            forall|j: int| 0 <= j < i ==> #[trigger] masks@[j] == (if wait_mask.len() == 0 {
                None::<u64>
            } else {
                Some(wait_mask@[j])
            }),
        decreases num_wait - i,
    {
        if wait_mask.len() == 0 {
            masks.push(None);
        } else {
            masks.push(Some(wait_mask[i]));
        }
        i = i + 1;
    }
    masks
}

/// The stage masks of the `num_signal` semaphores that a one-time submission
/// signals: all graphics stages for each.
pub fn signal_stage_masks(num_signal: usize) -> (r: Vec<u64>)
    ensures
        r.len() == num_signal,
        forall|i: int| 0 <= i < num_signal ==> #[trigger] r@[i] == STAGE_ALL_GRAPHICS,
{
    let mut masks: Vec<u64> = Vec::new();
    let mut i: usize = 0;
    while i < num_signal
        invariant
            i <= num_signal,
            masks.len() == i,
            forall|j: int| 0 <= j < i ==> #[trigger] masks@[j] == STAGE_ALL_GRAPHICS,
        decreases num_signal - i,
    {
        masks.push(STAGE_ALL_GRAPHICS);
        i = i + 1;
    }
    masks
}

/// Mesh-shader task groups of 64 particles for a draw of `num_particles`
/// particles that is always recorded, with zero groups when there are no
/// particles. The count is truncated to `u32`.
pub fn draw_task_groups(num_particles: usize) -> (r: u32)
    requires
        num_particles + 63 <= usize::MAX,
    ensures
        r == ((((num_particles + 63) as int) / 64) as u32),
{
    let group_count_x = (num_particles + 63) / 64;
    group_count_x as u32
}

/// Mesh-shader task groups of 64 particles for drawing `total_particles`
/// particles, or `None` when there is nothing to draw. The count is truncated to
/// `u32`.
pub fn mesh_task_groups(total_particles: usize) -> (r: Option<u32>)
    requires
        total_particles + 63 <= usize::MAX,
    ensures
        total_particles == 0 ==> r == None::<u32>,
        total_particles > 0 ==> r == Some((((total_particles + 63) as int) / 64) as u32),
{
    if total_particles == 0 {
        return None;
    }
    let group_count_x = (total_particles + 63) / 64;
    Some(group_count_x as u32)
}

} // verus!
