//! Inspection of running processes on Windows: the decisions behind reading a
//! process's command line out of its own address space, and behind naming the
//! pipe endpoint of a process that runs inside an app container.
//!
//! The operating system is never called from here. A caller performs each
//! system call and hands back what it observed as plain values; every decision
//! taken on those values is made, and proved, in this crate.

pub mod command_line;
pub mod container;
pub mod error;
pub mod filetime;
pub mod handle;
pub mod process;
pub mod text;

pub use crate::process::{get_app_container_process_tokens, get_process_info, ProcessInfo};
