//! Runtime core of a retained-mode UI toolkit: per-window layout, scene,
//! stacking order, glyph cache, entity leases and the frame cycle.
pub mod geometry;
pub mod layout;
pub mod scene;
pub mod stacking;
pub mod entity;
pub mod window;
