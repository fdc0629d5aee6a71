//! Forking a child process onto a freshly allocated pseudo-terminal.
//!
//! The library decides; the calls that change anything are made by its driver. Every
//! protocol here is a state machine: it names the next [`call::Request`] to make, and
//! moves on when it is told, as a [`call::Event`], what the system answered.

pub mod call;
pub mod child;
pub mod errno;
pub mod fork;

pub use child::{fork, Child, ChildPTY};
pub use errno::to_result;
pub use fork::DEFAULT_PTMX;
