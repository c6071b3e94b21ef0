//! The scene as one value: the truck, the camera, and a whole frame.

use vstd::prelude::*;
use crate::camera::{camera_truck_lock, can_zoom_camera, locked, zoom_camera, zoom_fits, zoomed, Camera};
use crate::geometry::Direction;
use crate::input::Keys;
use crate::kinematics::{can_move_truck, driven, move_truck, Pose};

verus! {

/// What the host reads for one frame.
#[derive(Clone, Copy, Debug, PartialEq, Eq, Structural)]
pub struct Frame {
    /// The movement keys that are down.
    pub keys: Keys,
    /// The time since the last frame, in microseconds.
    pub dt: u32,
    /// The direction the truck faces at the start of the frame.
    pub forward: Direction,
    /// The vertical scroll accumulated since the last frame, in scroll steps.
    pub scroll: i32,
}

/// The driven truck and the camera that watches it, held by value.
#[derive(Clone, Copy, Debug, PartialEq, Eq, Structural)]
pub struct Scene {
    pub truck: Pose,
    pub camera: Camera,
}

impl Scene {
    /// The frame leaves a truck pose and a camera scale that can be stored:
    /// the condition under which [`Scene::advance`] may be called.
    pub open spec fn frame_fits(self, frame: Frame) -> bool {
        &&& driven(frame.keys, frame.dt as int, self.truck@, frame.forward@).fits()
        &&& zoom_fits(self.camera.projection, frame.scroll as int)
    }

    /// Tells whether [`Scene::advance`] may be called with this frame.
    pub fn can_advance(&self, frame: &Frame) -> (ok: bool)
        ensures
            ok == self.frame_fits(*frame),
    {
        can_move_truck(frame.keys, frame.dt, self.truck, frame.forward) && can_zoom_camera(
            &self.camera.projection,
            frame.scroll,
        )
    }

    /// Runs one frame: the truck is driven, then the camera is moved onto
    /// it, then the camera is zoomed.
    ///
    /// Afterwards the camera sits on the truck, still faces the way it did,
    /// and its projection is well formed.
    pub fn advance(&mut self, frame: &Frame)
        requires
            old(self).frame_fits(*frame),
        ensures
            final(self).truck@ == driven(frame.keys, frame.dt as int, old(self).truck@, frame.forward@),
            final(self).camera == (Camera {
                projection: zoomed(old(self).camera.projection, frame.scroll as int),
                ..locked(old(self).camera, final(self).truck)
            }),
            final(self).camera.pose.position == final(self).truck.position,
            final(self).camera.pose.heading == old(self).camera.pose.heading,
            final(self).camera.projection.wf(),
    {
        self.truck = move_truck(frame.keys, frame.dt, self.truck, frame.forward);
        camera_truck_lock(&mut self.camera, &self.truck);
        zoom_camera(&mut self.camera.projection, frame.scroll);
    }
}

} // verus!
