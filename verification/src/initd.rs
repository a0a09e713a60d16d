//! The init process: early mounts, the tasks it runs and how it supervises them.

pub mod error;
pub mod util;
pub mod early;
pub mod task;
pub mod supervisor;
pub mod args;
