//! Detect whether the current process was started by the Windows service
//! control manager.
//!
//! The decision rests on a heuristic: resolve the parent of the current
//! process, locate the parent's entry in a system-wide process enumeration,
//! and report `true` exactly when the parent runs in session 0 under the
//! image name `services.exe`.

pub mod detect;
pub mod error;
pub mod record;
pub mod snapshot;
