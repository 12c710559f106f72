//! Core of a companion service that turns a removable storage device into a
//! bootable medium: job validation, device verification, the job executor state
//! machine, and the per-connection job queue.

pub mod text;
pub mod device;
pub mod job;
pub mod executor;
pub mod laws;
pub mod session;
pub mod usb;
