//! Verified core of Hourglass, a small countdown-timer utility.
//!
//! The library models the shared timer state (enabled flag, configured start
//! and end dates, the active scheduler task), computes the time remaining
//! until the configured end date, and builds the periodic notification body.
//! The host shell around it (tray icon, window glue, the async runtime that
//! drives the scheduler loop) lives outside the library.

pub mod dates;
pub mod duration;
pub mod notify;
pub mod remaining;
pub mod state;
