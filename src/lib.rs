//! The input logic of a small fly camera: which key latches which command,
//! how pointer motion is summed between frames, which motion each frame
//! applies, and how the window reacts to closing and resizing.
pub mod camera_controller;
pub mod input;
pub mod state;
