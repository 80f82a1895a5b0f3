//! Decision logic of a live-reloading fragment-shader viewer.
//!
//! The viewer wraps a user shader in a fixed preamble and postamble, compiles
//! it, and renders it every frame; whenever the shader file changes on disk it
//! recompiles, and whenever the shader is broken it renders a default program
//! instead. Reading files, compiling, drawing and polling the window are done
//! by the program around this library. What to do next, and with which
//! values, is decided here, and every decision is verified.

pub mod controller;
pub mod frame;
pub mod laws;
pub mod outcome;
pub mod render;
pub mod report;
pub mod source;
pub mod startup;
pub mod watch;
