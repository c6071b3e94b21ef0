//! The pose of an entity and the per-frame update of the driven vehicle.

use vstd::prelude::*;
use crate::geometry::{Direction, Offset, Position};
use crate::input::Keys;
use crate::units::{ANGULAR_SPEED, LINEAR_SPEED};

verus! {

/// The mathematical value of a [`Pose`].
pub struct PoseModel {
    pub position: Offset,
    pub heading: int,
}

impl PoseModel {
    /// Position and heading can be stored in a [`Pose`].
    pub open spec fn fits(self) -> bool {
        &&& self.position.fits()
        &&& i64::MIN <= self.heading <= i64::MAX
    }
}

/// Where an entity is and which way it faces: a position in position steps
/// and a heading in heading steps, counter-clockwise.
#[derive(Clone, Copy, Debug, PartialEq, Eq, Structural)]
pub struct Pose {
    pub position: Position,
    pub heading: i64,
}

impl View for Pose {
    type V = PoseModel;

    open spec fn view(&self) -> PoseModel {
        PoseModel { position: self.position@, heading: self.heading as int }
    }
}

/// The pose after one frame of driving.
///
/// `forward` is the direction the entity faces at the start of the frame
/// and `dt` the elapsed time. The position moves by
/// `LINEAR_SPEED * dt * forward` in the sense of travel, and the heading
/// turns by `ANGULAR_SPEED * dt` in the sense of steering.
pub open spec fn driven(keys: Keys, dt: int, pose: PoseModel, forward: Offset) -> PoseModel {
    PoseModel {
        position: pose.position.plus(forward.times(keys.drive() * (LINEAR_SPEED * dt))),
        heading: pose.heading + keys.steer() * (ANGULAR_SPEED * dt),
    }
}

/// The three coordinates of [`driven`], before they are stored.
fn driven_wide(keys: Keys, dt: u32, pose: Pose, forward: Direction) -> (wide: (i128, i128, i128))
    ensures
        wide.0 == driven(keys, dt as int, pose@, forward@).position.x,
        wide.1 == driven(keys, dt as int, pose@, forward@).position.y,
        wide.2 == driven(keys, dt as int, pose@, forward@).heading,
{
    let drive: i8 = keys.drive_sign();
    let steer: i8 = keys.steer_sign();
    let run: i128 = (LINEAR_SPEED as i128) * (dt as i128);
    let swing: i128 = (ANGULAR_SPEED as i128) * (dt as i128);
    let reach: i128 = if drive > 0 {
        run
    } else if drive < 0 {
        -run
    } else {
        0
    };
    let turn: i128 = if steer > 0 {
        swing
    } else if steer < 0 {
        -swing
    } else {
        0
    };
    proof {
        assert(reach == keys.drive() * (LINEAR_SPEED * dt));
        assert(turn == keys.steer() * (ANGULAR_SPEED * dt));
        lemma_product_bound(forward.x as int, reach as int);
        lemma_product_bound(forward.y as int, reach as int);
    }
    let x: i128 = (pose.position.x as i128) + (forward.x as i128) * reach;
    let y: i128 = (pose.position.y as i128) + (forward.y as i128) * reach;
    let heading: i128 = (pose.heading as i128) + turn;
    (x, y, heading)
}

/// A direction component times a frame's reach stays far inside `i128`.
proof fn lemma_product_bound(component: int, reach: int)
    requires
        -0x8000_0000 <= component <= 0x8000_0000,
        -0x200_0000_0000 <= reach <= 0x200_0000_0000,
    ensures
        -0x1_0000_0000_0000_0000_0000 <= component * reach <= 0x1_0000_0000_0000_0000_0000,
{
    assert(-0x1_0000_0000_0000_0000_0000 <= component * reach <= 0x1_0000_0000_0000_0000_0000)
        by (nonlinear_arith)
        requires
            -0x8000_0000 <= component <= 0x8000_0000,
            -0x200_0000_0000 <= reach <= 0x200_0000_0000,
    ;
}

/// Tells whether the pose after the frame can be stored: the condition
/// under which [`move_truck`] may be called.
pub fn can_move_truck(keys: Keys, dt: u32, pose: Pose, forward: Direction) -> (ok: bool)
    ensures
        ok == driven(keys, dt as int, pose@, forward@).fits(),
{
    let (x, y, heading) = driven_wide(keys, dt, pose, forward);
    let low: i128 = i64::MIN as i128;
    let high: i128 = i64::MAX as i128;
    low <= x && x <= high && low <= y && y <= high && low <= heading && heading <= high
}

/// Drives the vehicle for one frame: returns [`driven`] of its pose.
///
/// With no key down the pose comes back unchanged. The direction `forward`
/// is the one the vehicle faces before the frame's turn is applied.
pub fn move_truck(keys: Keys, dt: u32, pose: Pose, forward: Direction) -> (next: Pose)
    requires
        driven(keys, dt as int, pose@, forward@).fits(),
    ensures
        next@ == driven(keys, dt as int, pose@, forward@),
{
    let (x, y, heading) = driven_wide(keys, dt, pose, forward);
    Pose { position: Position { x: x as i64, y: y as i64 }, heading: heading as i64 }
}

/// With no key down the pose stays as it is, whatever time has passed.
pub proof fn lemma_idle_keeps_pose(keys: Keys, dt: int, pose: PoseModel, forward: Offset)
    requires
        keys.is_idle(),
        dt >= 0,
    ensures
        driven(keys, dt, pose, forward) == pose,
{
    assert(forward.x * (0 * (LINEAR_SPEED * dt)) == 0) by (nonlinear_arith);
    assert(forward.y * (0 * (LINEAR_SPEED * dt)) == 0) by (nonlinear_arith);
}

/// With only the forward key down the position moves by exactly
/// `LINEAR_SPEED * dt` along `forward`, the direction faced, and the heading
/// stays.
pub proof fn lemma_forward_alone_moves_straight(keys: Keys, dt: int, pose: PoseModel, forward: Offset)
    requires
        keys.forward && !keys.backward && !keys.turn_left && !keys.turn_right,
        dt >= 0,
    ensures
        driven(keys, dt, pose, forward).position == pose.position.plus(
            forward.times(LINEAR_SPEED * dt),
        ),
        driven(keys, dt, pose, forward).position.x - pose.position.x == 500 * dt * forward.x,
        driven(keys, dt, pose, forward).position.y - pose.position.y == 500 * dt * forward.y,
        driven(keys, dt, pose, forward).heading == pose.heading,
{
    assert(1 * (LINEAR_SPEED * dt) == 500 * dt);
    assert(forward.x * (500 * dt) == 500 * dt * forward.x) by (nonlinear_arith);
    assert(forward.y * (500 * dt) == 500 * dt * forward.y) by (nonlinear_arith);
}

/// With the forward and the left key down the heading grows by exactly
/// `ANGULAR_SPEED * dt`, and the position moves by `LINEAR_SPEED * dt` along
/// the direction faced before the turn.
pub proof fn lemma_forward_left_turns_and_moves(
    keys: Keys,
    dt: int,
    pose: PoseModel,
    forward: Offset,
)
    requires
        keys.forward && !keys.backward && keys.turn_left && !keys.turn_right,
        dt >= 0,
    ensures
        driven(keys, dt, pose, forward).heading == pose.heading + dt,
        driven(keys, dt, pose, forward).position == pose.position.plus(
            forward.times(LINEAR_SPEED * dt),
        ),
{
    assert(1 * (LINEAR_SPEED * dt) == LINEAR_SPEED * dt);
}

/// Opposite travel keys cancel: with both down the pose stays as it is.
pub proof fn lemma_opposite_keys_cancel(keys: Keys, dt: int, pose: PoseModel, forward: Offset)
    requires
        keys.forward && keys.backward,
    ensures
        driven(keys, dt, pose, forward) == pose,
{
    assert(forward.x * (0 * (LINEAR_SPEED * dt)) == 0) by (nonlinear_arith);
    assert(forward.y * (0 * (LINEAR_SPEED * dt)) == 0) by (nonlinear_arith);
}

/// Driving backward undoes driving forward: a frame with the travel keys
/// swapped, from the pose reached and facing the same direction, leads back.
pub proof fn lemma_backward_undoes_forward(keys: Keys, dt: int, pose: PoseModel, forward: Offset)
    ensures
        driven(
            Keys { forward: keys.backward, backward: keys.forward, ..keys },
            dt,
            driven(keys, dt, pose, forward),
            forward,
        ) == pose,
{
    let back = Keys { forward: keys.backward, backward: keys.forward, ..keys };
    let k = LINEAR_SPEED * dt;
    assert(back.drive() == -keys.drive());
    assert(back.steer() == -keys.steer());
    assert(forward.x * (keys.drive() * k) + forward.x * ((-keys.drive()) * k) == 0)
        by (nonlinear_arith);
    assert(forward.y * (keys.drive() * k) + forward.y * ((-keys.drive()) * k) == 0)
        by (nonlinear_arith);
    assert(keys.steer() * (ANGULAR_SPEED * dt) + (-keys.steer()) * (ANGULAR_SPEED * dt) == 0)
        by (nonlinear_arith);
}

} // verus!
