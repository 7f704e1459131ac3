//! Core of a native launcher shell for a windowed front-end: the liveness
//! watchdog that ties this process's lifetime to its backend process, the
//! duplex transport bridge between the UI surface and the backend connection,
//! and the launch-argument and log-line handling the supervisor exposes to
//! the UI surface.

pub mod bridge;
pub mod digits;
pub mod launch;
pub mod logging;
pub mod watchdog;
