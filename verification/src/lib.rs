//! Verified core of a zero-copy V4L2 → DMA-BUF → Wayland/EGL frame pipeline.
//!
//! The library holds everything the publisher and the subscriber decide:
//! pixel-format tables, the socket wire format, the byte layout of the kernel
//! structures handed to `ioctl`, the capture bookkeeping, the EGL attribute
//! lists, the Wayland window state and the per-frame protocol of both ends.
//! The system calls themselves are made by the programs built on top of it.

pub mod fourcc;
pub mod layout;
pub mod wire;
pub mod kabi;
pub mod capture;
pub mod egl;
pub mod window;
pub mod session;
pub mod startup;
