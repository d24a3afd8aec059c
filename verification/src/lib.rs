//! Planar open-chain robot-arm kinematics.
//!
//! The crate models a serial kinematic chain: an ordered list of joints,
//! each followed by a fixed-length link.  A joint holds an angle; the chain
//! resolver walks the joints in order and accumulates the absolute position
//! of every joint from the angles and the link lengths.
//!
//! All quantities are fixed-point integers so that every computation is
//! exact and fully specified:
//!
//! * angles are measured in *turn units*: `1_000_000` units per quarter
//!   turn, so a full revolution is `4_000_000` units;
//! * lengths and coordinates are measured in *micro-units*: `1_000_000`
//!   micro-units per geometric unit;
//! * trigonometric values are scaled by `1_000_000`.
//!
//! Only revolute joints exist today; the joint abstraction is shaped so
//! that a prismatic kind can be added without changing call sites.

pub mod links;
pub mod robot;
pub mod trig;
