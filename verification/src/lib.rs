//! Visibility-driven chunk meshing: the scheduling, culling and meshing rules
//! of a voxel-world renderer, with their contracts.
//!
//! The occlusion pass (`hiz`, `cull`) says for every cell of a grid of
//! sections around the camera whether it can be seen, and how near it is.
//! Its answer reaches the scheduler as a snapshot (`snapshot`). The scheduler
//! (`mesher`, `queue`, `dirty`) lists the sections that changed and can be
//! seen, the nearest first, and hands them to workers one by one. A worker
//! copies the section and its rim out of the world (`chunk`) and meshes it
//! (`mesh`); the meshes are kept by section until newer ones replace them
//! (`meshes`). What holds of the scheduler however its operations follow one
//! another is in `laws`.
//!
//! Depths are ordered keys, not numbers with a fraction: see
//! `snapshot::Depth`. Threads, locks and the arithmetic of the projection are
//! the caller's.

pub mod arm;
pub mod chunk;
pub mod config;
pub mod cull;
pub mod dirty;
pub mod entity_pose;
pub mod frame;
pub mod hiz;
pub mod laws;
pub mod mesh;
pub mod mesher;
pub mod meshes;
pub mod position;
pub mod queue;
pub mod snapshot;
pub mod timings;
