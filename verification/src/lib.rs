//! Verified core of a particle-based GPU fluid simulation: the sizing and
//! dispatch arithmetic of the GPU radix sort, the ping-pong buffer
//! bookkeeping of the particle data, the plan of one physics step, the
//! compute-stage descriptions, the spatial-grid dimensions and the
//! decisions of the swapchain set-up and of the frame loop.
pub mod sorting;
pub mod compute;
pub mod ping_pong;
pub mod particles;
pub mod fluids;
pub mod integration;
pub mod neighbor_list;
pub mod octree;
pub mod physics_engine;
pub mod swapchain;
pub mod frame;
pub mod input;
pub mod spatial_grid;
pub mod memory;
pub mod systems;
pub mod bytes;
pub mod shader;
