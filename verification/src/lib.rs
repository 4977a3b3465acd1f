//! Decisions behind a small tool that writes an image file to a removable
//! disk: which block devices qualify as targets, which choices the device
//! selector shows, which compression filter a file name suggests, and when a
//! dragged file is accepted.
//!
//! Everything here works on plain values. Reading the block-device registry
//! and driving the window are left to the caller.

pub mod device;
pub mod device_laws;
pub mod filter;
pub mod image_drop;
pub mod chooser;
