//! The chain resolver: an ordered collection of joints and links, and
//! the walk that turns relative joint angles into absolute positions.
//!
//! Angle policy: each joint's angle is measured independently against
//! the fixed world x axis, not accumulated along the chain; with every
//! angle at zero, a chain therefore lies stretched along the x axis.

use vstd::prelude::*;
use crate::links::Joint;
use crate::links::JointState;
use crate::links::JointType;
use crate::links::Link;
use crate::links::Revolute;
use crate::links::Vec2;
use crate::trig::FULL_TURN;
use crate::trig::MAX_LEN;
use crate::trig::clamp_angle;

verus! {

/// Most joints a configuration may hold; keeps every resolved
/// coordinate far inside the machine integer range.
pub const MAX_JOINTS: usize = 1000;

/// A failure reported by a configuration operation.
#[derive(Clone, Copy, Debug, PartialEq, Eq, Structural)]
pub enum RobotError {
    /// The given joint index lies outside the joints sequence.
    InvalidIndex,
}

/// The current configuration of the robot.
///
/// At any point the robot holds exactly as many links as joints: link
/// `i` spans from the position of joint `i - 1` (or from the origin,
/// for the first joint) to the position of joint `i`.
#[derive(Debug)]
pub struct RobotConfiguration {
    /// World anchor of the chain, in micro-units.
    pub origin: Vec2,
    /// The joints, in chain order from base to tip.
    pub joints: Vec<Joint<Revolute>>,
    /// The links, one per joint.
    pub links: Vec<Link>,
}

impl RobotConfiguration {
    /// The structural invariant: equal joint and link counts, a bounded
    /// chain, and every joint and link valid.
    pub open spec fn wf(&self) -> bool {
        &&& self.joints@.len() == self.links@.len()
        &&& self.joints@.len() <= MAX_JOINTS
        &&& -MAX_LEN <= self.origin.x <= MAX_LEN
        &&& -MAX_LEN <= self.origin.y <= MAX_LEN
        &&& forall|i: int|
            0 <= i < self.joints@.len() ==> (#[trigger] self.joints@[i]).wf()
        &&& forall|i: int|
            0 <= i < self.links@.len() ==> (#[trigger] self.links@[i]).wf()
    }

    /// The x coordinate of joint `i`'s absolute position; for `i < 0`,
    /// the origin's.
    pub open spec fn abs_x(&self, i: int) -> int
        decreases i + 1,
    {
        if i < 0 {
            self.origin.x as int
        } else {
            self.abs_x(i - 1) + self.joints@[i].mode.disp_x(&self.links@[i])
        }
    }

    /// The y coordinate of joint `i`'s absolute position; for `i < 0`,
    /// the origin's.
    pub open spec fn abs_y(&self, i: int) -> int
        decreases i + 1,
    {
        if i < 0 {
            self.origin.y as int
        } else {
            self.abs_y(i - 1) + self.joints@[i].mode.disp_y(&self.links@[i])
        }
    }

    /// Walks the chain in order and returns the absolute position of
    /// every joint, base to tip: one position per joint, each the
    /// previous one (or the origin) plus the joint's own displacement.
    /// Mutates nothing; two resolutions of one configuration agree.
    pub fn resolve(&self) -> (r: Vec<Vec2>)
        requires
            self.wf(),
        ensures
            r@.len() == self.joints@.len(),
            forall|i: int|
                0 <= i < r@.len() ==> (#[trigger] r@[i]).x == self.abs_x(i) && r@[i].y
                    == self.abs_y(i),
    {
        let n: usize = self.joints.len();
        let mut out: Vec<Vec2> = Vec::new();
        let mut back: Vec2 = self.origin;
        let mut idx: usize = 0;
        while idx < n
            invariant
                self.wf(),
                n == self.joints@.len(),
                idx <= n,
                out@.len() == idx,
                forall|j: int|
                    0 <= j < idx ==> (#[trigger] out@[j]).x == self.abs_x(j) && out@[j].y
                        == self.abs_y(j),
                back.x == self.abs_x(idx - 1),
                back.y == self.abs_y(idx - 1),
                -MAX_LEN - idx * MAX_LEN <= back.x <= MAX_LEN + idx * MAX_LEN,
                -MAX_LEN - idx * MAX_LEN <= back.y <= MAX_LEN + idx * MAX_LEN,
            decreases n - idx,
        {
            let joint: &Joint<Revolute> = &self.joints[idx];
            let link: &Link = &self.links[idx];
            proof {
                joint.mode.lemma_disp_bounded(link);
            }
            let mut state: JointState = JointState { x: Vec2 { x: 0, y: 0 } };
            joint.mode.process(&mut state, link);
            state.x.x = state.x.x + back.x;
            state.x.y = state.x.y + back.y;
            out.push(state.x);
            back = state.x;
            idx = idx + 1;
        }
        out
    }

    /// Applies a bounded angle change to joint `index`: delegates to the
    /// joint's own saturating update.  An index outside the joints
    /// sequence is a reported failure and leaves the configuration
    /// untouched; nothing else in the configuration ever changes.
    pub fn set_joint_angle(&mut self, index: usize, delta: i64) -> (r: Result<(), RobotError>)
        requires
            old(self).wf(),
        ensures
            final(self).wf(),
            final(self).origin == old(self).origin,
            final(self).links@ == old(self).links@,
            final(self).joints@.len() == old(self).joints@.len(),
            forall|j: int|
                0 <= j < old(self).joints@.len() && j != index ==> final(self).joints@[j] == old(
                    self,
                ).joints@[j],
            index < old(self).joints@.len() ==> {
                &&& r == Ok::<(), RobotError>(())
                &&& final(self).joints@[index as int].mode.theta == clamp_angle(
                    old(self).joints@[index as int].mode.theta as int,
                    delta as int,
                )
                &&& final(self).joints@[index as int].mode.omega == old(self).joints@[
                    index as int].mode.omega
            },
            index >= old(self).joints@.len() ==> {
                &&& r == Err::<(), RobotError>(RobotError::InvalidIndex)
                &&& final(self).joints@ == old(self).joints@
            },
    {
        if index < self.joints.len() {
            let mut joint: Joint<Revolute> = self.joints[index];
            joint.mode.move_joint(delta);
            self.joints.set(index, joint);
            Ok(())
        } else {
            Err(RobotError::InvalidIndex)
        }
    }

    /// Checks the structural invariant at run time, for callers that
    /// assemble a configuration by hand.
    pub fn is_well_formed(&self) -> (r: bool)
        ensures
            r == self.wf(),
    {
        if self.joints.len() != self.links.len() {
            return false;
        }
        if self.joints.len() > MAX_JOINTS {
            return false;
        }
        if self.origin.x < -MAX_LEN || self.origin.x > MAX_LEN {
            return false;
        }
        if self.origin.y < -MAX_LEN || self.origin.y > MAX_LEN {
            return false;
        }
        let n: usize = self.joints.len();
        let mut idx: usize = 0;
        while idx < n
            invariant
                n == self.joints@.len(),
                n == self.links@.len(),
                idx <= n,
                forall|i: int| 0 <= i < idx ==> (#[trigger] self.joints@[i]).wf(),
                forall|i: int| 0 <= i < idx ==> (#[trigger] self.links@[i]).wf(),
            decreases n - idx,
        {
            let theta: i64 = self.joints[idx].mode.theta;
            if theta < 0 || theta > FULL_TURN {
                return false;
            }
            let len: i64 = self.links[idx].len;
            if len < 0 || len > MAX_LEN {
                return false;
            }
            idx = idx + 1;
        }
        true
    }
}

impl Default for RobotConfiguration {
    /// The stock chain: one revolute joint at rest, anchored at the
    /// world origin, with one stock link.
    fn default() -> (r: RobotConfiguration)
        ensures
            r.origin == (Vec2 { x: 0, y: 0 }),
            r.joints@.len() == 1,
            r.joints@[0].mode.theta == 0,
            r.joints@[0].mode.omega == 0,
            r.links@.len() == 1,
            r.links@[0].len == 200_000_000int,
            r.wf(),
    {
        let mut joints: Vec<Joint<Revolute>> = Vec::new();
        joints.push(Joint { mode: Revolute { theta: 0, omega: 0 } });
        let mut links: Vec<Link> = Vec::new();
        links.push(Link { len: 200_000_000 });
        RobotConfiguration { origin: Vec2 { x: 0, y: 0 }, joints, links }
    }
}

/// Resolution is a pure function of the configuration: any two position
/// sequences that meet `resolve`'s contract for one configuration are
/// equal, so resolving twice without an intervening mutation yields
/// identical sequences.
pub proof fn lemma_resolve_deterministic(c: RobotConfiguration, r1: Seq<Vec2>, r2: Seq<Vec2>)
    requires
        r1.len() == c.joints@.len(),
        forall|i: int|
            0 <= i < r1.len() ==> (#[trigger] r1[i]).x == c.abs_x(i) && r1[i].y == c.abs_y(i),
        r2.len() == c.joints@.len(),
        forall|i: int|
            0 <= i < r2.len() ==> (#[trigger] r2[i]).x == c.abs_x(i) && r2[i].y == c.abs_y(i),
    ensures
        r1 == r2,
{
    assert forall|i: int| 0 <= i < r1.len() implies r1[i] == r2[i] by {
        assert(r1[i].x == r2[i].x && r1[i].y == r2[i].y);
    }
    assert(r1 =~= r2);
}

/// Two configurations that agree on the origin and on every joint and
/// link up to position `j` resolve joint `j` to the same place.
proof fn lemma_abs_prefix_equal(c1: RobotConfiguration, c2: RobotConfiguration, j: int)
    requires
        c1.origin == c2.origin,
        forall|m: int|
            0 <= m <= j ==> #[trigger] c1.joints@[m] == c2.joints@[m] && c1.links@[m]
                == c2.links@[m],
    ensures
        c1.abs_x(j) == c2.abs_x(j),
        c1.abs_y(j) == c2.abs_y(j),
    decreases j + 1,
{
    if j >= 0 {
        lemma_abs_prefix_equal(c1, c2, j - 1);
    }
}

/// Two configurations that differ only in joint `k` resolve every joint
/// from `k` on to positions shifted by one and the same vector: the
/// difference of joint `k`'s displacements.
proof fn lemma_abs_translation(c1: RobotConfiguration, c2: RobotConfiguration, k: int, j: int)
    requires
        c1.origin == c2.origin,
        c1.links@ == c2.links@,
        c1.joints@.len() == c2.joints@.len(),
        forall|m: int|
            0 <= m < c1.joints@.len() && m != k ==> #[trigger] c1.joints@[m] == c2.joints@[m],
        0 <= k <= j < c1.joints@.len(),
    ensures
        c1.abs_x(j) - c2.abs_x(j) == c1.joints@[k].mode.disp_x(&c1.links@[k])
            - c2.joints@[k].mode.disp_x(&c1.links@[k]),
        c1.abs_y(j) - c2.abs_y(j) == c1.joints@[k].mode.disp_y(&c1.links@[k])
            - c2.joints@[k].mode.disp_y(&c1.links@[k]),
    decreases j,
{
    if j == k {
        lemma_abs_prefix_equal(c1, c2, k - 1);
    } else {
        lemma_abs_translation(c1, c2, k, j - 1);
    }
}

/// Mutating joint `k`'s angle is felt only downstream: the resolved
/// positions of joints before `k` are unchanged, and the positions of
/// joint `k` and of every joint after it shift by one and the same
/// vector, the change in joint `k`'s own displacement.
pub proof fn lemma_angle_change_is_downstream(
    c1: RobotConfiguration,
    c2: RobotConfiguration,
    k: int,
)
    requires
        c1.origin == c2.origin,
        c1.links@ == c2.links@,
        c1.joints@.len() == c2.joints@.len(),
        0 <= k < c1.joints@.len(),
        forall|m: int|
            0 <= m < c1.joints@.len() && m != k ==> #[trigger] c1.joints@[m] == c2.joints@[m],
    ensures
        forall|j: int| 0 <= j < k ==> #[trigger] c1.abs_x(j) == c2.abs_x(j),
        forall|j: int| 0 <= j < k ==> #[trigger] c1.abs_y(j) == c2.abs_y(j),
        forall|j: int|
            k <= j < c1.joints@.len() ==> #[trigger] c1.abs_x(j) == c2.abs_x(j)
                + c1.joints@[k].mode.disp_x(&c1.links@[k]) - c2.joints@[k].mode.disp_x(
                &c1.links@[k],
            ),
        forall|j: int|
            k <= j < c1.joints@.len() ==> #[trigger] c1.abs_y(j) == c2.abs_y(j)
                + c1.joints@[k].mode.disp_y(&c1.links@[k]) - c2.joints@[k].mode.disp_y(
                &c1.links@[k],
            ),
{
    assert forall|j: int| 0 <= j < k implies #[trigger] c1.abs_x(j) == c2.abs_x(j) by {
        lemma_abs_prefix_equal(c1, c2, j);
    }
    assert forall|j: int| 0 <= j < k implies #[trigger] c1.abs_y(j) == c2.abs_y(j) by {
        lemma_abs_prefix_equal(c1, c2, j);
    }
    assert forall|j: int| k <= j < c1.joints@.len() implies #[trigger] c1.abs_x(j) == c2.abs_x(j)
        + c1.joints@[k].mode.disp_x(&c1.links@[k]) - c2.joints@[k].mode.disp_x(&c1.links@[k]) by {
        lemma_abs_translation(c1, c2, k, j);
    }
    assert forall|j: int| k <= j < c1.joints@.len() implies #[trigger] c1.abs_y(j) == c2.abs_y(j)
        + c1.joints@[k].mode.disp_y(&c1.links@[k]) - c2.joints@[k].mode.disp_y(&c1.links@[k]) by {
        lemma_abs_translation(c1, c2, k, j);
    }
}

} // verus!

