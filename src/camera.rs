use vstd::prelude::*;

use crate::input::{requested_step, step_for, Axis, KeyInput, Step};
use crate::scene::UniformState;

verus! {

/// A size in pixels; as an aspect ratio it stands for `width / height`.
#[derive(Clone, Copy, Debug, PartialEq, Eq, Structural)]
pub struct Extent {
    pub width: u32,
    pub height: u32,
}

/// Where the flying camera stands, counted in movement steps away from its
/// default position along each world axis. A step's length is the camera
/// speed; the world position is the default one plus `speed` times this.
#[derive(Clone, Copy, Debug, PartialEq, Eq, Structural)]
pub struct Offset {
    pub x: i64,
    pub y: i64,
    pub z: i64,
}

/// Everything a camera matrix is computed from: the aspect ratio picks the
/// projection matrix, the offset the view matrix of the flying pose. Two equal
/// transforms give bit-identical matrices.
#[derive(Clone, Copy, Debug, PartialEq, Eq, Structural)]
pub struct Transform {
    pub aspect: Extent,
    pub offset: Offset,
}

/// What a camera-driven event asks of the caller.
#[derive(Clone, Copy, Debug, PartialEq, Eq, Structural)]
pub enum EventResult {
    Ignored,
    Redraw,
}

/// A flying camera with an infinite perspective projection.
///
/// `aspect` and `offset` are the camera's settings; `view` records the inputs
/// of the combined view-projection matrix as it was last computed, which is
/// stale after a move until `update_view` runs.
#[derive(Clone, Copy, Debug, PartialEq, Eq, Structural)]
pub struct Camera {
    pub aspect: Extent,
    pub offset: Offset,
    pub view: Transform,
}

/// The default position: no step taken along any axis.
pub open spec fn origin() -> Offset {
    Offset { x: 0, y: 0, z: 0 }
}

/// One step forward or back on a counter; a counter at the end of its range
/// stays there.
pub open spec fn stepped(v: i64, forward: bool) -> i64 {
    if forward {
        if v == i64::MAX { v } else { (v + 1) as i64 }
    } else {
        if v == i64::MIN { v } else { (v - 1) as i64 }
    }
}

/// The offset after one step.
pub open spec fn moved(o: Offset, s: Step) -> Offset {
    match s.axis {
        Axis::X => Offset { x: stepped(o.x, s.forward), ..o },
        Axis::Y => Offset { y: stepped(o.y, s.forward), ..o },
        Axis::Z => Offset { z: stepped(o.z, s.forward), ..o },
    }
}

fn step_counter(v: i64, forward: bool) -> (r: i64)
    ensures
        r == stepped(v, forward),
{
    if forward {
        if v == i64::MAX { v } else { v + 1 }
    } else {
        if v == i64::MIN { v } else { v - 1 }
    }
}

impl Camera {
    /// The transform of the camera's present settings.
    pub open spec fn current(&self) -> Transform {
        Transform { aspect: self.aspect, offset: self.offset }
    }

    /// The stored view-projection is the one of the present settings.
    pub open spec fn is_current(&self) -> bool {
        self.view == self.current()
    }

    /// A camera at its default pose, for the given aspect ratio, with its
    /// view-projection computed.
    pub fn new(aspect: Extent) -> (c: Camera)
        ensures
            c.aspect == aspect,
            c.offset == origin(),
            c.is_current(),
    {
        let offset = Offset { x: 0, y: 0, z: 0 };
        Camera { aspect, offset, view: Transform { aspect, offset } }
    }

    /// Takes a new aspect ratio and recomputes the projection and the
    /// view-projection; the pose is kept.
    pub fn update_projection(&mut self, aspect: Extent)
        ensures
            final(self).aspect == aspect,
            final(self).offset == old(self).offset,
            final(self).is_current(),
    {
        self.aspect = aspect;
        self.update_view();
    }

    /// Recomputes the view-projection from the present settings alone.
    pub fn update_view(&mut self)
        ensures
            final(self).aspect == old(self).aspect,
            final(self).offset == old(self).offset,
            final(self).is_current(),
    {
        self.view = Transform { aspect: self.aspect, offset: self.offset };
    }

    /// The uniform state of the reference grid: its own projection and raw
    /// view, taken from the present settings rather than the stored
    /// view-projection, with the given uniform scale.
    pub fn grid_input(&self, scale: u32) -> (r: UniformState)
        ensures
            r == (UniformState { transform: self.current(), scale }),
    {
        UniformState { transform: Transform { aspect: self.aspect, offset: self.offset }, scale }
    }
}

/// Moves the camera one step for a press of a directional key and reports
/// whether a redraw is due; every other key, and every release, is ignored
/// and leaves the camera as it was. The stored view-projection is left for
/// `update_view` to refresh.
pub fn maybe_move_camera(camera: &mut Camera, key: KeyInput) -> (r: EventResult)
    ensures
        requested_step(key) is None ==> r == EventResult::Ignored && *final(camera) == *old(camera),
        requested_step(key) matches Some(s) ==> r == EventResult::Redraw && *final(camera) == (Camera {
            offset: moved(old(camera).offset, s),
            ..*old(camera)
        }),
{
    match step_for(key) {
        None => EventResult::Ignored,
        Some(s) => {
            match s.axis {
                Axis::X => camera.offset.x = step_counter(camera.offset.x, s.forward),
                Axis::Y => camera.offset.y = step_counter(camera.offset.y, s.forward),
                Axis::Z => camera.offset.z = step_counter(camera.offset.z, s.forward),
            }
            EventResult::Redraw
        },
    }
}

/// The view-projection is a function of the settings alone: two cameras with
/// the same aspect ratio and pose whose view-projections are both current
/// hold the same one, however each got there.
pub proof fn view_determinism(a: Camera, b: Camera)
    requires
        a.is_current(),
        b.is_current(),
        a.aspect == b.aspect,
        a.offset == b.offset,
    ensures
        a.view == b.view,
{
}

} // verus!
