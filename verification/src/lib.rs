//! Shaped-text rendering support: a glyph-atlas construction pipeline
//! (rasterize, pack, build geometry, build a lookup map) together with a
//! draw-planning routine that walks a shaped glyph run and positions one
//! quad per glyph along a text baseline.
//!
//! Everything is measured in one of three systems: font design units inside
//! the collaborating engines, 26.6 fixed-point rasterizer units (one unit is
//! 1/64 pixel), and pixel or texture space. The rasterization and shaping
//! engines are reached through narrow handles; the GPU resource layer is
//! left to the embedder, which uploads the byte buffer, converts the mesh,
//! and executes the draw plan this crate produces.

pub mod atlas;
pub mod draw;
pub mod engine;
pub mod error;
pub mod fixed;
pub mod font;
pub mod glyph;
pub mod mesh;
