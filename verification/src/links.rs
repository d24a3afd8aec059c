//! Joints, links, and the per-joint displacement computation.
//!
//! A joint holds the behavioural state of one articulation point: its
//! angle and angular velocity.  A link holds the geometric constant
//! between two consecutive joints: its length.  Keeping the two apart
//! lets links grow further physical constants (centre of mass, inertia)
//! without touching the angle-processing code.

use vstd::prelude::*;
use vstd::string::StringExecFns;
use crate::trig::FULL_TURN;
use crate::trig::MAX_LEN;
use crate::trig::clamp_angle;
use crate::trig::cos_fixed;
use crate::trig::cos_units;
use crate::trig::lemma_cos_units_bounds;
use crate::trig::lemma_scale_len_bounds;
use crate::trig::lemma_sin_units_bounds;
use crate::trig::scale_len;
use crate::trig::scaled_component;
use crate::trig::sin_fixed;
use crate::trig::sin_units;

verus! {

/// A planar point or displacement, in micro-units.
#[derive(Clone, Copy, Debug, PartialEq, Eq, Structural)]
pub struct Vec2 {
    pub x: i64,
    pub y: i64,
}

/// The position of the joint currently being solved for.
///
/// Only used as an intermediate step while a joint kind's `process`
/// accumulates the chain's next absolute position.
#[derive(Clone, Copy, Debug, PartialEq, Eq, Structural)]
pub struct JointState {
    pub x: Vec2,
}

/// A link between two consecutive joints, in micro-units.
///
/// Links hold nothing but geometry; all angle handling lives with the
/// joints.
#[derive(Clone, Copy, Debug, PartialEq, Eq, Structural)]
pub struct Link {
    pub len: i64,
}

impl Link {
    /// A length that the chain arithmetic accommodates.
    pub open spec fn wf(&self) -> bool {
        0 <= self.len <= MAX_LEN
    }
}

impl Default for Link {
    /// The stock link: 200 units long.
    fn default() -> (r: Link)
        ensures
            r.len == 200_000_000int,
            r.wf(),
    {
        Link { len: 200_000_000 }
    }
}

/// The capability set every joint kind defines: report a kind label,
/// apply a bounded angle change, and contribute a displacement across
/// the preceding link.
pub trait JointType: Sized {
    /// Validity of the joint's own state.
    spec fn wf(&self) -> bool;

    /// The joint's angle, in turn units.
    spec fn angle(&self) -> int;

    /// Horizontal displacement contributed across `link`, in micro-units.
    spec fn disp_x(&self, link: &Link) -> int;

    /// Vertical displacement contributed across `link`, in micro-units.
    spec fn disp_y(&self, link: &Link) -> int;

    /// The kind's human-readable label.
    spec fn spec_name(&self) -> Seq<char>;

    /// A joint's displacement never exceeds the link length in magnitude.
    proof fn lemma_disp_bounded(&self, link: &Link)
        requires
            self.wf(),
            link.wf(),
        ensures
            -link.len <= self.disp_x(link) <= link.len,
            -link.len <= self.disp_y(link) <= link.len,
    ;

    /// Returns the kind label.
    fn get_name(&self) -> (r: String)
        ensures
            r@ == self.spec_name(),
    ;

    /// Adds `delta` to the joint's angle, saturating at the mechanical
    /// stops `0` and `FULL_TURN` rather than wrapping.
    fn move_joint(&mut self, delta: i64)
        requires
            old(self).wf(),
        ensures
            final(self).wf(),
            final(self).angle() == clamp_angle(old(self).angle(), delta as int),
    ;

    /// Adds the joint's displacement across `link` to the accumulator.
    /// Mutates neither the joint nor the link.
    fn process(&self, state: &mut JointState, link: &Link)
        requires
            self.wf(),
            link.wf(),
            i64::MIN <= old(state).x.x + self.disp_x(link) <= i64::MAX,
            i64::MIN <= old(state).x.y + self.disp_y(link) <= i64::MAX,
        ensures
            final(state).x.x == old(state).x.x + self.disp_x(link),
            final(state).x.y == old(state).x.y + self.disp_y(link),
    ;
}

/// A revolute joint: a hinge with hard mechanical stops at `0` and
/// `FULL_TURN`.
#[derive(Clone, Copy, Debug, PartialEq, Eq, Structural)]
pub struct Revolute {
    /// Angle of the joint, counter-clockwise from the x axis, in turn units.
    pub theta: i64,
    /// Angular velocity at the joint, in turn units per second.
    pub omega: i64,
}

impl Default for Revolute {
    /// A revolute joint at rest along the x axis.
    fn default() -> (r: Revolute)
        ensures
            r.theta == 0,
            r.omega == 0,
            r.wf(),
    {
        Revolute { theta: 0, omega: 0 }
    }
}

impl JointType for Revolute {
    open spec fn wf(&self) -> bool {
        0 <= self.theta <= FULL_TURN
    }

    open spec fn angle(&self) -> int {
        self.theta as int
    }

    open spec fn disp_x(&self, link: &Link) -> int {
        scale_len(link.len as int, cos_units(self.theta as int))
    }

    open spec fn disp_y(&self, link: &Link) -> int {
        scale_len(link.len as int, sin_units(self.theta as int))
    }

    open spec fn spec_name(&self) -> Seq<char> {
        "Revolute Joint"@
    }

    proof fn lemma_disp_bounded(&self, link: &Link) {
        lemma_cos_units_bounds(self.theta as int);
        lemma_sin_units_bounds(self.theta as int);
        lemma_scale_len_bounds(link.len as int, cos_units(self.theta as int));
        lemma_scale_len_bounds(link.len as int, sin_units(self.theta as int));
    }

    fn get_name(&self) -> (r: String) {
        String::from_str("Revolute Joint")
    }

    fn move_joint(&mut self, delta: i64)
        ensures
            final(self).theta == clamp_angle(old(self).theta as int, delta as int),
            final(self).omega == old(self).omega,
    {
        if delta >= 0 {
            if delta > FULL_TURN - self.theta {
                self.theta = FULL_TURN;
            } else {
                self.theta = self.theta + delta;
            }
        } else {
            if delta < -self.theta {
                self.theta = 0;
            } else {
                self.theta = self.theta + delta;
            }
        }
    }

    fn process(&self, state: &mut JointState, link: &Link) {
        let c: i64 = cos_fixed(self.theta);
        let s: i64 = sin_fixed(self.theta);
        let dx: i64 = scaled_component(link.len, c);
        let dy: i64 = scaled_component(link.len, s);
        state.x.x = state.x.x + dx;
        state.x.y = state.x.y + dy;
    }
}

/// A joint in the robot space: the kind-specific behaviour and state.
#[derive(Clone, Copy, Debug, PartialEq, Eq)]
pub struct Joint<T: JointType> {
    pub mode: T,
}

impl<T: JointType> Joint<T> {
    /// Validity of the joint's state.
    pub open spec fn wf(&self) -> bool {
        self.mode.wf()
    }
}

impl Default for Joint<Revolute> {
    /// A revolute joint at rest.
    fn default() -> (r: Joint<Revolute>)
        ensures
            r.mode.theta == 0,
            r.mode.omega == 0,
            r.wf(),
    {
        Joint { mode: Revolute { theta: 0, omega: 0 } }
    }
}

} // verus!
