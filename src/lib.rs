//! Spawning work onto a tokio scheduler and joining it again.
//!
//! Work is handed to the scheduler that is active on the calling thread, or,
//! where none is, to a fallback scheduler that the caller supplies lazily.
//! Joining a task yields its value, or the fault that ended it, untouched.
pub mod join_handle;
pub mod scheduler;
