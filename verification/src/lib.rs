//! Input-driven kinematics, camera follow and zoom for a top-down driving
//! scene, in exact fixed-point arithmetic.
//!
//! Every quantity is a machine integer at a fixed resolution (see [`units`]).
//! The resolutions are chosen so that each update is a sum of integer
//! products: nothing is ever rounded, and the contracts state the new values
//! exactly.

pub mod units;
pub mod geometry;
pub mod input;
pub mod keyboard;
pub mod kinematics;
pub mod camera;
pub mod scene;
