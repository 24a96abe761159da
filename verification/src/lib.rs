//! A task runner that decides and never acts.
//!
//! A task is a fixed list of command invocations, optionally wrapped around a
//! scratch file that must be gone when the task is over. The library turns a
//! task into a small machine: it says which piece of outside work comes next,
//! is told how that work went, and moves on. Starting processes and touching
//! files is left to the caller, so every decision made here is a function of
//! plain values and is verified for all of them.

pub mod dispatch;
pub mod eraser;
pub mod invocation;
pub mod laws;
pub mod outcome;
pub mod run;
pub mod task;
pub mod text;
