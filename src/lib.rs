//! Geometry, camera state and frame decisions for a renderer that draws one
//! flat-shaded cube from a fixed perspective camera.
//!
//! All quantities are integers: lengths in fixed units, the aspect ratio as an
//! exact pair. The GPU side converts them to floating point at the upload.
pub mod vertex;
pub mod cube;
pub mod vector;
pub mod camera;
pub mod frame;
