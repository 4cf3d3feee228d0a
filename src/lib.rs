//! Verified core of a sphere viewer with a dolly-zoom camera: the
//! wireframe switch, the debug texture's layout and the decisions of the
//! per-frame zoom update.

pub mod wireframe;
pub mod texture;
pub mod zoom;
pub mod geometry;
