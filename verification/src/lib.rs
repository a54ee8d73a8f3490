//! A minimal, verified model of a flat-shaded polygon renderer.
//!
//! The library owns the parts of the renderer that are plain data and logic:
//! the vertex record layouts, the fixed pentagon mesh with its index list,
//! the byte images that are uploaded into GPU buffers, the command sequence
//! a draw records into a render pass, and the full descriptor from which a
//! graphics pipeline is built.  Everything here is verified; the surrounding
//! application owns the GPU device and queue, creates the real buffers and
//! pipeline objects from the data this library hands it, and replays the
//! recorded pass commands onto a real render pass.

pub mod encoding;
pub mod vertex;
pub mod pass;
pub mod mesh;
pub mod pipeline;
