//! Core logic of a dual-mode (work/break) countdown timer appliance:
//! session time tracking, tick-alignment arithmetic, a debounced
//! button-press classifier, a fixed-capacity animation engine, and the
//! decision logic of the cooperative render scheduler. Hardware access
//! (display, pins, executor) lives outside this crate; all state
//! mutations cross task boundaries as `SessionNotice` messages.

pub mod animations;
pub mod button;
pub mod clickable;
pub mod clock_util;
pub mod constants;
pub mod draw_panels;
pub mod error;
pub mod geometry;
pub mod scenes;
pub mod time_util;
