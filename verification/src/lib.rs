//! Verified core of a small display-brightness controller.
//!
//! The controller keeps one scalar brightness value, clamped to a fixed
//! range, and derives from it two control signals: a backlight level for a
//! one-shot backlight tool, and a blend factor for a long-running
//! color-temperature daemon. All values are held in fixed-point integers;
//! the surrounding program converts at its edges.

pub mod brightness;
pub mod control;
pub mod format;
