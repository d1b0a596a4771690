use fluid_sim::frame::{
    draw_task_groups, mesh_task_groups, render_wait_semaphores, signal_stage_masks, wait_stage_masks, AcquireOutcome, FrameScheduler,
    PresentOutcome, SemaphoreWait, STAGE_ALL_GRAPHICS, STAGE_COLOR_ATTACHMENT_OUTPUT, STAGE_TASK_SHADER,
};
use fluid_sim::input::{route_key, Key, KeyRoute, MouseButton, MovementKeys, PointerState, SimulationAction, SimulationControl};
use fluid_sim::memory::find_memory_type_index;
use fluid_sim::spatial_grid::{grid_dimension, GridSize, SpatialGrid, SpatialGridBuffers};
use fluid_sim::swapchain::{
    choose_image_count, choose_pre_transform, choose_present_mode, choose_surface_extent, should_recreate_swapchain,
    Extent2D, SurfaceCapabilities, SurfaceFormat, SwapchainConfig, PRESENT_MODE_FIFO, PRESENT_MODE_IMMEDIATE,
    PRESENT_MODE_MAILBOX,
};

#[test]
fn image_count_prefers_three_within_limits() {
    assert_eq!(choose_image_count(2, 8), 3);
    assert_eq!(choose_image_count(4, 8), 4);
    assert_eq!(choose_image_count(2, 2), 2);
    // a maximum of 0 is taken literally
    assert_eq!(choose_image_count(2, 0), 0);
}

#[test]
fn extent_comes_from_window_when_surface_leaves_it_open() {
    let window = Extent2D { width: 800, height: 600 };
    let fixed = Extent2D { width: 1024, height: 768 };
    assert_eq!(choose_surface_extent(fixed, window), fixed);
    assert_eq!(choose_surface_extent(Extent2D { width: u32::MAX, height: u32::MAX }, window), window);
}

#[test]
fn present_mode_prefers_immediate() {
    assert_eq!(choose_present_mode(&vec![PRESENT_MODE_FIFO, PRESENT_MODE_IMMEDIATE]), PRESENT_MODE_IMMEDIATE);
    assert_eq!(choose_present_mode(&vec![PRESENT_MODE_MAILBOX, PRESENT_MODE_FIFO]), PRESENT_MODE_FIFO);
    assert_eq!(choose_present_mode(&vec![]), PRESENT_MODE_FIFO);
}

#[test]
fn pre_transform_prefers_identity() {
    assert_eq!(choose_pre_transform(0b1011, 0b10), 1);
    assert_eq!(choose_pre_transform(0b1010, 0b10), 0b10);
}

#[test]
fn swapchain_config_from_surface() {
    let caps = SurfaceCapabilities {
        min_image_count: 2,
        max_image_count: 5,
        current_extent: Extent2D { width: u32::MAX, height: u32::MAX },
        supported_transforms: 0b1,
        current_transform: 0b1,
    };
    let formats = vec![SurfaceFormat { format: 44, color_space: 0 }, SurfaceFormat { format: 50, color_space: 0 }];
    let c = SwapchainConfig::select(caps, &formats, &vec![PRESENT_MODE_FIFO], Extent2D { width: 640, height: 480 });
    assert_eq!(c.image_count, 3);
    assert_eq!(c.extent, Extent2D { width: 640, height: 480 });
    assert_eq!(c.format, SurfaceFormat { format: 44, color_space: 0 });
    assert_eq!(c.present_mode, PRESENT_MODE_FIFO);
    assert_eq!(c.pre_transform, 1);
    assert!(!should_recreate_swapchain(Extent2D { width: 0, height: 480 }));
    assert!(!should_recreate_swapchain(Extent2D { width: 640, height: 0 }));
    assert!(should_recreate_swapchain(Extent2D { width: 640, height: 480 }));
}

#[test]
fn frame_loop_cycles_three_slots() {
    let mut s = FrameScheduler::new();
    assert_eq!(FrameScheduler::frames_in_flight(), 3);
    let window = Extent2D { width: 800, height: 600 };
    let mut slots = Vec::new();
    for _ in 0..4 {
        let start = s.begin_frame(window);
        assert!(!start.resize);
        slots.push(start.frame_slot.unwrap());
        assert_eq!(s.acquired(AcquireOutcome::Acquired { image_index: 1, suboptimal: false }), Some(1));
        s.presented(PresentOutcome::Presented { suboptimal: false });
    }
    assert_eq!(slots, vec![0, 1, 2, 0]);
    assert_eq!(s.frame_index, 4);
}

#[test]
fn frame_loop_resizes_after_out_of_date() {
    let mut s = FrameScheduler::new();
    let window = Extent2D { width: 800, height: 600 };
    s.begin_frame(window);
    assert_eq!(s.acquired(AcquireOutcome::OutOfDate), None);
    assert!(s.needs_resize);
    let start = s.begin_frame(window);
    assert!(start.resize);
    assert!(!s.needs_resize);
    assert_eq!(start.frame_slot, Some(0));
    s.acquired(AcquireOutcome::Acquired { image_index: 0, suboptimal: true });
    assert!(s.needs_resize);
    s.presented(PresentOutcome::OutOfDate);
    assert_eq!(s.frame_index, 1);
}

#[test]
fn minimized_window_skips_frame() {
    let mut s = FrameScheduler::new();
    s.needs_resize = true;
    let start = s.begin_frame(Extent2D { width: 0, height: 0 });
    assert!(start.resize);
    assert_eq!(start.frame_slot, None);
}

#[test]
fn retrying_presentation_keeps_frame_index() {
    let mut s = FrameScheduler::new();
    s.presented_or_retry(PresentOutcome::Presented { suboptimal: true });
    assert_eq!(s.frame_index, 0);
    assert!(s.needs_resize);
    s.needs_resize = false;
    s.presented_or_retry(PresentOutcome::OutOfDate);
    assert_eq!(s.frame_index, 0);
    assert!(s.needs_resize);
    s.needs_resize = false;
    s.presented_or_retry(PresentOutcome::Presented { suboptimal: false });
    assert_eq!(s.frame_index, 1);
    assert!(!s.needs_resize);
}

#[test]
fn submission_semaphores() {
    assert_eq!(
        render_wait_semaphores(7, Some(9)),
        vec![
            SemaphoreWait { semaphore: 7, stage_mask: STAGE_COLOR_ATTACHMENT_OUTPUT },
            SemaphoreWait { semaphore: 9, stage_mask: STAGE_TASK_SHADER },
        ]
    );
    assert_eq!(render_wait_semaphores(7, None), vec![SemaphoreWait { semaphore: 7, stage_mask: 0x400 }]);
    assert_eq!(wait_stage_masks(2, &vec![]), vec![None, None]);
    assert_eq!(wait_stage_masks(2, &vec![4, 8, 16]), vec![Some(4), Some(8)]);
    assert_eq!(signal_stage_masks(2), vec![STAGE_ALL_GRAPHICS, STAGE_ALL_GRAPHICS]);
    assert_eq!(STAGE_ALL_GRAPHICS, 0x8000);
}

#[test]
fn mesh_groups_for_particles() {
    assert_eq!(mesh_task_groups(0), None);
    assert_eq!(mesh_task_groups(1), Some(1));
    assert_eq!(mesh_task_groups(64), Some(1));
    assert_eq!(mesh_task_groups(65), Some(2));
    assert_eq!(draw_task_groups(0), 0);
    assert_eq!(draw_task_groups(64), 1);
    assert_eq!(draw_task_groups(65), 2);
}

#[test]
fn keys_route_to_pause_or_camera() {
    assert_eq!(route_key(Key::Space, true), KeyRoute::TogglePause);
    assert_eq!(route_key(Key::Space, false), KeyRoute::Camera);
    assert_eq!(route_key(Key::W, true), KeyRoute::Camera);
    let mut k = MovementKeys::new();
    assert!(k.move_camera(Key::W, true));
    assert!(k.is_up_pressed);
    assert!(k.move_camera(Key::D, true));
    assert!(k.is_right_pressed);
    assert!(k.move_camera(Key::W, false));
    assert!(!k.is_up_pressed && k.is_right_pressed);
    assert!(!k.move_camera(Key::Space, true));
    assert!(k.move_camera(Key::S, true) && k.move_camera(Key::A, true));
    assert!(k.is_down_pressed && k.is_left_pressed);
}

#[test]
fn pointer_drag_starts_at_press() {
    let mut p = PointerState::new((0.0f32, 0.0f32));
    p.update_mouse_position((5.0, 5.0));
    assert_eq!(p.take_drag(), ((5.0, 5.0), (5.0, 5.0)));
    p.handle_mouse_click(MouseButton::Left, true);
    p.update_mouse_position((8.0, 1.0));
    assert_eq!(p.take_drag(), ((5.0, 5.0), (8.0, 1.0)));
    p.update_mouse_position((9.0, 3.0));
    assert_eq!(p.take_drag(), ((8.0, 1.0), (9.0, 3.0)));
    p.handle_mouse_click(MouseButton::Left, false);
    p.update_mouse_position((20.0, 20.0));
    assert_eq!(p.last_mouse_position, (20.0, 20.0));
    p.handle_mouse_click(MouseButton::Other, true);
    assert!(!p.is_left_pressed && !p.is_right_pressed && !p.is_middle_pressed);
}

#[test]
fn simulation_starts_paused() {
    let mut c = SimulationControl::new();
    assert_eq!(c.update_action(), SimulationAction::SubmitEmpty);
    c.toggle_pause();
    assert_eq!(c.update_action(), SimulationAction::StepAndPublish);
    c.toggle_pause();
    assert!(c.paused);
}

#[test]
fn grid_sizes_are_powers_of_two() {
    assert_eq!(grid_dimension(0), 1);
    assert_eq!(grid_dimension(1), 1);
    assert_eq!(grid_dimension(5), 8);
    assert_eq!(grid_dimension(1024), 1024);
    assert_eq!(grid_dimension(1025), 2048);
    let g = SpatialGrid::new(1000, 1000, 3);
    assert_eq!(g.grid_size(), GridSize { x: 1024, y: 1024, z: 4 });
}

#[test]
fn morton_bits_for_1024_grid() {
    // e.g. if grid size is 1024 = 2^10: 10 bits per dimension, 30 bits in all
    let g = SpatialGrid::new(1024, 1024, 1024);
    assert_eq!(g.num_bits_needed_for_morton_codes(), 30);
    assert_eq!(SpatialGrid::new(1, 1, 1).num_bits_needed_for_morton_codes(), 0);
}

#[test]
fn grid_texture_holds_three_values_per_cell() {
    let e = SpatialGridBuffers::texture_extent(GridSize { x: 64, y: 32, z: 16 });
    assert_eq!((e.width, e.height, e.depth), (192, 32, 16));
}

#[test]
fn memory_type_search() {
    let props = vec![0b0001, 0b0110, 0b0111, 0b0110];
    // allowed types 1, 2, 3; wanted flags 0b0110 -> first suitable is 1
    assert_eq!(find_memory_type_index(0b1110, &props, 4, 0b0110), Some(1));
    // type 1 not allowed -> 2
    assert_eq!(find_memory_type_index(0b1100, &props, 4, 0b0110), Some(2));
    // beyond the reported count -> none
    assert_eq!(find_memory_type_index(0b1000, &props, 3, 0b0110), None);
    assert_eq!(find_memory_type_index(0b1111, &props, 4, 0b1000), None);
    assert_eq!(find_memory_type_index(0, &props, 4, 0), None);
}
