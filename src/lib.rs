//! Frame orchestration and camera navigation for an instanced 3D viewer.
//!
//! The library holds the decisions of the viewer: which window events move the
//! camera, how much look motion each frame consumes, when the surface must be
//! reconfigured, how a failed frame is recovered, how long a capped frame waits,
//! where the instances stand and which draw calls a model needs. The graphics
//! device, the window and all floating-point math live with the application.
pub mod input;
pub mod camera_controller;
pub mod frame;
pub mod state;
pub mod instance;
pub mod model;
