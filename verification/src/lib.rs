//! Verified core of a small real-time rendering harness: the input state that
//! the event thread and the render thread share, the decisions of the event
//! dispatch loop and of each frame, and the staged build of a shader program.
//!
//! Nothing here touches a window, a graphics context or the GPU. Every
//! function takes what the driver or the window system answered as plain
//! values and returns what is to be done next.

pub mod camera;
pub mod dispatch;
pub mod failure;
pub mod health;
pub mod keys;
pub mod outside;
pub mod shader;
pub mod stage;
pub mod text;
pub mod uniform;
