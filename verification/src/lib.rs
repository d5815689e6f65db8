//! Decision core of an interactive Mandelbrot-set viewer.
//!
//! The viewer draws a full-screen quad and lets a fragment shader compute the
//! fractal per pixel. Everything that touches the window system or the GL
//! context lives with the caller; this crate holds what the viewer decides:
//! how GL error codes are named and reported, which GL commands build the
//! shader program and how their replies steer the build, and how input
//! events change the quit and redraw flags and move the camera.
//!
//! The functions here are verified with Verus. One call is taken on trust,
//! the UTF-8 decoder of std; it is marked where it stands, in `text`.

pub mod events;
pub mod glerror;
pub mod pipeline;
pub mod shader;
pub mod text;
