//! Resolutions of the fixed-point quantities, and the rates of the model.
//!
//! | quantity            | type  | one whole is      |
//! |---------------------|-------|-------------------|
//! | elapsed time        | `u32` | `TIME_ONE`        |
//! | direction component | `i32` | `DIRECTION_ONE`   |
//! | position coordinate | `i64` | `POSITION_ONE`    |
//! | heading             | `i64` | `HEADING_ONE`     |
//! | scroll delta        | `i32` | `SCROLL_ONE`      |
//! | camera scale        | `i64` | `SCALE_ONE`       |
//!
//! A position step is `LINEAR_SPEED * dt * direction`, so one world unit is
//! `TIME_ONE * DIRECTION_ONE` position steps. A heading step is
//! `ANGULAR_SPEED * dt`, so one radian is `TIME_ONE` heading steps. A scale
//! step is `ZOOM_SPEED * delta`, where `ZOOM_SPEED` is one half written in
//! scale steps per scroll step.

use vstd::prelude::*;

verus! {

/// One second of elapsed time, in microseconds.
pub const TIME_ONE: u32 = 1_000_000;

/// The length one of a direction component.
pub const DIRECTION_ONE: i32 = 1_000;

/// One world unit of position.
pub const POSITION_ONE: i64 = 1_000_000_000;

/// One radian of heading.
pub const HEADING_ONE: i64 = 1_000_000;

/// One line of scroll.
pub const SCROLL_ONE: i32 = 1_000;

/// The camera scale 1.0.
pub const SCALE_ONE: i64 = 10_000;

/// World units travelled per second while driving.
pub const LINEAR_SPEED: i64 = 500;

/// Radians turned per second while steering.
pub const ANGULAR_SPEED: i64 = 1;

/// Scale steps per scroll step: half a scale unit per scroll line.
pub const ZOOM_SPEED: i64 = 5;

/// The smallest scale the camera may have.
pub const MIN_SCALE: i64 = 10_000;

} // verus!
