//! The decisions behind an in-game overlay, kept apart from the system calls
//! that carry them out.
//!
//! Every procedure that talks to the operating system is a small state machine:
//! `next` names the call to make, `advance` takes what the call answered. What a
//! procedure takes from the slots or leaves there, it takes and leaves itself.

pub mod c_string;
pub mod creation;
pub mod failure;
pub mod frame;
pub mod hooks;
pub mod injection;
pub mod message;
pub mod present;
pub mod process;
pub mod renderer;
pub mod slots;
pub mod text;
