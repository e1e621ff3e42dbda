//! Visibility coordination engine for screen-edge overlay surfaces.
//!
//! The library decides when an auto-hiding surface (a status bar, a dock)
//! should be revealed or hidden in response to pointer position, using a
//! hysteresis-buffered hit region, a per-surface two-state watcher, a shared
//! cursor snapshot with change detection, and a poll tick that is suppressed
//! while a fullscreen or floating window is focused.  All queries of the
//! compositor and all actuation are performed by the surrounding program;
//! the functions here take the query results as plain values and return the
//! decisions.

pub mod cursor;
pub mod geometry;
pub mod poll;
pub mod resolve;
pub mod watcher;

pub use cursor::CursorState;
pub use geometry::CursorPos;
pub use geometry::Layer;
pub use poll::Client;
pub use poll::TickOutcome;
pub use watcher::ToggleAction;
