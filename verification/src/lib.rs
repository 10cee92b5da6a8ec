//! Supervision of one long-running server process, as a state machine.
//!
//! The library decides; the program around it acts. It says which command
//! line starts the server, which bytes a console command puts on the child's
//! input, what an observed exit does to the lifecycle state, and what the
//! console shows. Spawning, reading, writing and sleeping are the caller's.

pub mod decimal;
pub mod launcher;
pub mod streamer;
pub mod laws;
pub mod console;
pub mod gui;
