//! Verified core of a GPU-backed 2D rendering backend.
//!
//! The backend sits between a declarative tree of drawable items and a
//! GPU canvas. Its verified heart is made of the three caches (per-item
//! GPU resources, content-addressed images, fonts), the exclusive
//! current/not-current handoff of the GPU context, and the clip stack.
//! Each frame is rendered by translating the items into an exact list of
//! canvas commands; an unverified shell executes those commands on the
//! real canvas and performs the GPU, windowing and decoding work.

pub mod commands;
pub mod context;
pub mod fonts;
pub mod items;
pub mod renderer;
pub mod graphics;
pub mod image_cache;
pub mod item_cache;
