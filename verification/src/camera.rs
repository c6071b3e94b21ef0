//! The camera: following the vehicle, and zooming by the scroll wheel.

use vstd::prelude::*;
use crate::kinematics::Pose;
use crate::units::{MIN_SCALE, ZOOM_SPEED};

verus! {

/// How the camera maps the world to the screen.
#[derive(Clone, Copy, Debug, PartialEq, Eq, Structural)]
pub enum Projection {
    /// Parallel projection; a larger `scale`, in scale steps, shows more of
    /// the world.
    Orthographic { scale: i64 },
    /// Perspective projection with a vertical field of view in heading steps.
    Perspective { field_of_view: i64 },
}

impl Projection {
    /// An orthographic scale is never below [`MIN_SCALE`].
    pub open spec fn wf(self) -> bool {
        match self {
            Projection::Orthographic { scale } => scale >= MIN_SCALE,
            Projection::Perspective { .. } => true,
        }
    }
}

/// The camera of the scene: its own pose and its projection.
#[derive(Clone, Copy, Debug, PartialEq, Eq, Structural)]
pub struct Camera {
    pub pose: Pose,
    pub projection: Projection,
}

/// The scale after a scroll of `delta`: `scale - ZOOM_SPEED * delta`, and
/// [`MIN_SCALE`] where that would be smaller. A positive `delta` (scrolling
/// up) zooms in.
pub open spec fn zoomed_scale(scale: int, delta: int) -> int {
    if scale - ZOOM_SPEED * delta < MIN_SCALE {
        MIN_SCALE as int
    } else {
        scale - ZOOM_SPEED * delta
    }
}

/// The projection after a scroll of `delta`: an orthographic scale is
/// zoomed, any other projection stays as it is.
pub open spec fn zoomed(projection: Projection, delta: int) -> Projection {
    match projection {
        Projection::Orthographic { scale } => Projection::Orthographic {
            scale: zoomed_scale(scale as int, delta) as i64,
        },
        other => other,
    }
}

/// The scroll of `delta` leaves a scale that can be stored: the condition
/// under which [`zoom_camera`] may be called.
pub open spec fn zoom_fits(projection: Projection, delta: int) -> bool {
    match projection {
        Projection::Orthographic { scale } => zoomed_scale(scale as int, delta) <= i64::MAX,
        _ => true,
    }
}

/// The camera after it was locked onto `target`: the target's position,
/// its own heading and projection.
pub open spec fn locked(camera: Camera, target: Pose) -> Camera {
    Camera {
        pose: Pose { position: target.position, heading: camera.pose.heading },
        projection: camera.projection,
    }
}

/// Moves the camera onto the vehicle. Only the camera's position changes,
/// whatever it was before.
pub fn camera_truck_lock(camera: &mut Camera, truck: &Pose)
    ensures
        *final(camera) == locked(*old(camera), *truck),
        final(camera).pose.position == truck.position,
        final(camera).pose.heading == old(camera).pose.heading,
        final(camera).projection == old(camera).projection,
{
    camera.pose.position = truck.position;
}

/// The scale after the scroll, before it is held to [`MIN_SCALE`].
fn raw_scale(scale: i64, delta: i32) -> (raw: i128)
    ensures
        raw == scale - ZOOM_SPEED * delta,
{
    assert(ZOOM_SPEED * delta == 5 * delta) by (nonlinear_arith)
        requires
            ZOOM_SPEED == 5,
    ;
    let step: i128 = (ZOOM_SPEED as i128) * (delta as i128);
    (scale as i128) - step
}

/// Computes [`zoomed_scale`] where the result can be stored, and `None`
/// where it is too large.
pub fn checked_zoom_scale(scale: i64, delta: i32) -> (next: Option<i64>)
    ensures
        next.is_some() <==> zoomed_scale(scale as int, delta as int) <= i64::MAX,
        next.is_some() ==> next.unwrap() == zoomed_scale(scale as int, delta as int),
{
    let raw: i128 = raw_scale(scale, delta);
    if raw < MIN_SCALE as i128 {
        Some(MIN_SCALE)
    } else if raw <= i64::MAX as i128 {
        Some(raw as i64)
    } else {
        None
    }
}

/// Tells whether [`zoom_camera`] may be called with this scroll.
pub fn can_zoom_camera(projection: &Projection, delta: i32) -> (ok: bool)
    ensures
        ok == zoom_fits(*projection, delta as int),
{
    match projection {
        Projection::Orthographic { scale } => checked_zoom_scale(*scale, delta).is_some(),
        Projection::Perspective { .. } => true,
    }
}

/// Applies the frame's accumulated vertical scroll to the camera's
/// projection: an orthographic scale becomes
/// `max(MIN_SCALE, scale - ZOOM_SPEED * delta)`; any other projection is left
/// untouched.
pub fn zoom_camera(projection: &mut Projection, delta: i32)
    requires
        zoom_fits(*old(projection), delta as int),
    ensures
        *final(projection) == zoomed(*old(projection), delta as int),
        final(projection).wf(),
{
    match projection {
        Projection::Orthographic { scale } => {
            let raw: i128 = raw_scale(*scale, delta);
            if raw < MIN_SCALE as i128 {
                *scale = MIN_SCALE;
            } else {
                *scale = raw as i64;
            }
        },
        Projection::Perspective { .. } => {},
    }
}

/// The zoomed scale is the larger of [`MIN_SCALE`] and
/// `scale - ZOOM_SPEED * delta`, for every scale and every scroll.
pub proof fn lemma_zoom_is_clamped_difference(scale: int, delta: int)
    ensures
        zoomed_scale(scale, delta) >= MIN_SCALE,
        zoomed_scale(scale, delta) >= scale - 5 * delta,
        zoomed_scale(scale, delta) == MIN_SCALE || zoomed_scale(scale, delta) == scale - 5 * delta,
{
}

/// From the smallest scale, zooming in further changes nothing.
pub proof fn lemma_zoom_floor_holds(delta: int)
    requires
        delta >= 0,
    ensures
        zoomed_scale(MIN_SCALE as int, delta) == MIN_SCALE,
{
}

/// Locking the camera twice onto the same pose is the same as locking it
/// once.
pub proof fn lemma_lock_is_idempotent(camera: Camera, target: Pose)
    ensures
        locked(locked(camera, target), target) == locked(camera, target),
{
}

/// Following and zooming touch different parts of the camera: they give
/// the same camera in either order.
pub proof fn lemma_lock_and_zoom_commute(camera: Camera, target: Pose, delta: int)
    ensures
        locked(Camera { projection: zoomed(camera.projection, delta), ..camera }, target) == (Camera {
            projection: zoomed(locked(camera, target).projection, delta),
            ..locked(camera, target)
        }),
{
}

} // verus!
