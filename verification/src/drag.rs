//! The drag controller: a pan gesture followed from the press of the
//! pointer button to its release.
//!
//! The controller is idle or dragging. While it drags it remembers where the
//! cursor was last seen; that memory is the whole state.

use vstd::prelude::*;
use crate::camera::{CameraState, CameraView};
use crate::fixed::{representable, saturate, scaled, Fixed};
use crate::mapper::{lemma_scaled_negation, screen_to_world_delta, world_delta};

verus! {

/// The memory of a drag in progress.
#[derive(Clone, Copy, Debug, PartialEq, Eq)]
pub struct DragSession {
    /// Where the cursor was last seen, in screen space.
    pub last_cursor_pos: (Fixed, Fixed),
}

/// What the host reports of the pointer in one tick.
#[derive(Clone, Copy, Debug, PartialEq, Eq)]
pub struct PointerSample {
    /// The cursor in screen space, or `None` while it is outside the viewport.
    pub position: Option<(Fixed, Fixed)>,
    /// The button went down in this tick.
    pub just_pressed: bool,
    /// The button is down.
    pub held: bool,
    /// The button went up in this tick.
    pub just_released: bool,
}

/// What a pointer sample stands for, in raw units.
pub struct PointerView {
    pub position: Option<(int, int)>,
    pub just_pressed: bool,
    pub held: bool,
    pub just_released: bool,
}

/// A cursor position, where there is one, in raw units.
pub open spec fn position_view(position: Option<(Fixed, Fixed)>) -> Option<(int, int)> {
    match position {
        Some(p) => Some(p@),
        None => None,
    }
}

impl View for PointerSample {
    type V = PointerView;

    open spec fn view(&self) -> PointerView {
        PointerView {
            position: position_view(self.position),
            just_pressed: self.just_pressed,
            held: self.held,
            just_released: self.just_released,
        }
    }
}

/// The camera after the cursor went from `last` to `cursor` with the button
/// down: the scene follows the cursor. The camera moves against the cursor
/// along x; screen y grows downward and world y upward, so along y it moves
/// with it.
pub open spec fn dragged_camera(
    camera: CameraView,
    last: (int, int),
    cursor: (int, int),
) -> CameraView {
    let screen_delta = (saturate(cursor.0 - last.0), saturate(cursor.1 - last.1));
    let world = world_delta(screen_delta, camera.scale);
    CameraView {
        translation: (
            saturate(camera.translation.0 - world.0),
            saturate(camera.translation.1 + world.1),
            camera.translation.2,
        ),
        scale: camera.scale,
    }
}

/// Whether the pan from `last` to `cursor` is computed without saturation:
/// the cursor's motion, its image in world space and the new translation
/// are all representable.
pub open spec fn drag_is_exact(camera: CameraView, last: (int, int), cursor: (int, int)) -> bool {
    let dx = cursor.0 - last.0;
    let dy = cursor.1 - last.1;
    &&& representable(dx)
    &&& representable(dy)
    &&& representable(scaled(dx, camera.scale))
    &&& representable(scaled(dy, camera.scale))
    &&& representable(camera.translation.0 - scaled(dx, camera.scale))
    &&& representable(camera.translation.1 + scaled(dy, camera.scale))
}

/// The session after a button-down edge: it starts, or starts anew, at the
/// cursor; without a cursor nothing changes.
pub open spec fn after_press(
    session: Option<(int, int)>,
    cursor: Option<(int, int)>,
) -> Option<(int, int)> {
    match cursor {
        Some(p) => Some(p),
        None => session,
    }
}

/// Session and camera after a tick with the button down: a drag in progress
/// that sees the cursor pans the camera and remembers the cursor; anything
/// else changes nothing.
pub open spec fn after_hold(
    session: Option<(int, int)>,
    camera: CameraView,
    cursor: Option<(int, int)>,
) -> (Option<(int, int)>, CameraView) {
    match (session, cursor) {
        (Some(last), Some(p)) => (Some(p), dragged_camera(camera, last, p)),
        _ => (session, camera),
    }
}

/// Session and camera after one tick of the pointer: the press, then the
/// hold, then the release, each only if the sample reports it.
pub open spec fn after_pointer(
    session: Option<(int, int)>,
    camera: CameraView,
    sample: PointerView,
) -> (Option<(int, int)>, CameraView) {
    let pressed = if sample.just_pressed {
        after_press(session, sample.position)
    } else {
        session
    };
    let moved = if sample.held {
        after_hold(pressed, camera, sample.position)
    } else {
        (pressed, camera)
    };
    if sample.just_released {
        (None, moved.1)
    } else {
        moved
    }
}

/// A drag out and back restores the camera.
///
/// Press at `origin`, move to `target` with the button down, move back to
/// `origin`, release: whatever the controller held before, it ends idle and
/// the camera is where it was, provided that neither pan saturates. The
/// scale is the same throughout, since no pointer event changes it.
pub proof fn lemma_drag_round_trip(
    session: Option<(int, int)>,
    camera: CameraView,
    origin: (int, int),
    target: (int, int),
    release_position: Option<(int, int)>,
)
    requires
        camera.representable(),
        drag_is_exact(camera, origin, target),
        drag_is_exact(dragged_camera(camera, origin, target), target, origin),
    ensures
        ({
            let press = PointerView {
                position: Some(origin),
                just_pressed: true,
                held: true,
                just_released: false,
            };
            let out = PointerView {
                position: Some(target),
                just_pressed: false,
                held: true,
                just_released: false,
            };
            let back = PointerView {
                position: Some(origin),
                just_pressed: false,
                held: true,
                just_released: false,
            };
            let release = PointerView {
                position: release_position,
                just_pressed: false,
                held: false,
                just_released: true,
            };
            let t1 = after_pointer(session, camera, press);
            let t2 = after_pointer(t1.0, t1.1, out);
            let t3 = after_pointer(t2.0, t2.1, back);
            let t4 = after_pointer(t3.0, t3.1, release);
            &&& t1 == (Some(origin), camera)
            &&& t2.0 == Some(target)
            &&& t3 == (Some(origin), camera)
            &&& t4 == (None::<(int, int)>, camera)
        }),
{
    lemma_scaled_negation(target.0 - origin.0, camera.scale);
    lemma_scaled_negation(target.1 - origin.1, camera.scale);
    assert(dragged_camera(camera, origin, origin) == camera);
    assert(dragged_camera(dragged_camera(camera, origin, target), target, origin) == camera);
}

/// The drag controller: idle, or dragging with a session.
#[derive(Clone, Copy, Debug, PartialEq, Eq)]
pub struct DragController {
    session: Option<DragSession>,
}

impl View for DragController {
    type V = Option<(int, int)>;

    /// `None` while idle; while dragging, the last cursor position.
    closed spec fn view(&self) -> Option<(int, int)> {
        match self.session {
            Some(session) => Some(session.last_cursor_pos@),
            None => None,
        }
    }
}

impl DragController {
    /// An idle controller.
    pub fn new() -> (controller: DragController)
        ensures
            controller@ is None,
    {
        DragController { session: None }
    }

    /// Whether a drag is in progress.
    pub fn is_dragging(&self) -> (dragging: bool)
        ensures
            dragging == (self@ is Some),
    {
        self.session.is_some()
    }

    /// The session of the drag in progress, if there is one.
    pub fn session(&self) -> (session: Option<DragSession>)
        ensures
            match session {
                Some(s) => self@ == Some(s.last_cursor_pos@),
                None => self@ is None,
            },
    {
        self.session
    }

    /// Handles the button-down edge: a session starts at the cursor. While
    /// the cursor is outside the viewport no session starts, and one that
    /// exists stays as it is.
    pub fn start_drag(&mut self, cursor: Option<(Fixed, Fixed)>)
        ensures
            final(self)@ == after_press(old(self)@, position_view(cursor)),
    {
        if let Some(cursor_pos) = cursor {
            self.session = Some(DragSession { last_cursor_pos: cursor_pos });
        }
    }

    /// Handles a tick with the button down. While dragging with the cursor
    /// in view, the camera is panned by the cursor's motion since the last
    /// tick, mapped to world space at the camera's scale, and the cursor is
    /// remembered. While idle, or with the cursor outside the viewport,
    /// neither the session nor the camera changes.
    pub fn drag(&mut self, camera: &mut CameraState, cursor: Option<(Fixed, Fixed)>)
        ensures
            (final(self)@, final(camera)@) == after_hold(
                old(self)@,
                old(camera)@,
                position_view(cursor),
            ),
            cursor is None || old(self)@ is None
                ==> final(self)@ == old(self)@ && *final(camera) == *old(camera),
    {
        if let Some(cursor_pos) = cursor {
            if let Some(session) = self.session {
                let last: (Fixed, Fixed) = session.last_cursor_pos;
                let screen_delta: (Fixed, Fixed) = (
                    cursor_pos.0.saturating_sub(last.0),
                    cursor_pos.1.saturating_sub(last.1),
                );
                let world: (Fixed, Fixed) = screen_to_world_delta(screen_delta, camera.scale);
                camera.translation = (
                    camera.translation.0.saturating_sub(world.0),
                    camera.translation.1.saturating_add(world.1),
                    camera.translation.2,
                );
                self.session = Some(DragSession { last_cursor_pos: cursor_pos });
            }
        }
    }

    /// Handles the button-up edge: the session ends.
    pub fn end_drag(&mut self)
        ensures
            final(self)@ is None,
    {
        self.session = None;
    }

    /// Runs the controller for one tick: the press, then the hold, then the
    /// release, each only if the sample reports it.
    ///
    /// With no button held the camera stays as it is, wherever the cursor
    /// goes; so it does while the controller is idle and no press arrives.
    pub fn tick(&mut self, camera: &mut CameraState, sample: &PointerSample)
        ensures
            (final(self)@, final(camera)@) == after_pointer(old(self)@, old(camera)@, sample@),
            !sample.held || (old(self)@ is None && !sample.just_pressed)
                ==> *final(camera) == *old(camera),
            sample.position is None && !sample.just_released
                ==> final(self)@ == old(self)@ && *final(camera) == *old(camera),
    {
        if sample.just_pressed {
            self.start_drag(sample.position);
        }
        if sample.held {
            self.drag(camera, sample.position);
        }
        if sample.just_released {
            self.end_drag();
        }
    }
}

} // verus!
