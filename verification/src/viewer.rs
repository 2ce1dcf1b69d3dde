//! The viewer session: one camera, one drag controller, and the order in
//! which the controllers run in a tick.

use vstd::prelude::*;
use crate::camera::{CameraState, CameraView};
use crate::drag::{
    after_pointer, drag_is_exact, dragged_camera, DragController, DragSession, PointerSample,
    PointerView,
};
use crate::fixed::{representable, scaled, UNIT};
use crate::keys::{key_pan, panned_camera, Key, KeySet, PAN_STEP};
use crate::zoom::{scroll_delta, zoom, zoomed_camera, ScrollSample};

verus! {

/// Everything that the host reports in one tick.
#[derive(Clone, Copy, Debug, PartialEq, Eq)]
pub struct TickInput {
    /// The scroll accumulated in this tick, if the wheel moved.
    pub scroll: Option<ScrollSample>,
    /// The keys held.
    pub keys: KeySet,
    /// Cursor and pointer button.
    pub pointer: PointerSample,
}

/// What a viewer stands for: its camera, and the last cursor position of
/// the drag in progress, if there is one.
pub struct ViewerView {
    pub camera: CameraView,
    pub session: Option<(int, int)>,
}

/// The camera as zoom and key pan leave it, before the pointer has its
/// turn.
pub open spec fn before_pointer(camera: CameraView, scroll: int, keys: Set<Key>) -> CameraView {
    panned_camera(zoomed_camera(camera, scroll), keys)
}

/// The viewer after one tick. The controllers run in a fixed order: zoom,
/// then key pan, then the pointer, so that a drag maps the cursor's motion
/// at the scale that this tick's scroll has set.
pub open spec fn after_tick(
    viewer: ViewerView,
    scroll: int,
    keys: Set<Key>,
    pointer: PointerView,
) -> ViewerView {
    let prepared = before_pointer(viewer.camera, scroll, keys);
    let dragged = after_pointer(viewer.session, prepared, pointer);
    ViewerView { camera: dragged.1, session: dragged.0 }
}

/// A tick with no scroll and no arrow key held is the pointer's alone: what
/// holds of the drag controller's ticks holds of such ticks of the viewer.
pub proof fn lemma_quiet_tick(viewer: ViewerView, keys: Set<Key>, pointer: PointerView)
    requires
        viewer.camera.representable(),
        !keys.contains(Key::Left),
        !keys.contains(Key::Right),
        !keys.contains(Key::Up),
        !keys.contains(Key::Down),
    ensures
        before_pointer(viewer.camera, 0, keys) == viewer.camera,
        after_tick(viewer, 0, keys, pointer) == (ViewerView {
            session: after_pointer(viewer.session, viewer.camera, pointer).0,
            camera: after_pointer(viewer.session, viewer.camera, pointer).1,
        }),
{
    assert(viewer.camera.scale * 0 == 0) by (nonlinear_arith);
}

/// Whether the pointer sample makes a drag in progress follow the cursor:
/// the button was down before this tick and still is, and the cursor is in
/// view. In no other tick does the pointer move the camera.
pub open spec fn pointer_pans(session: Option<(int, int)>, pointer: PointerView) -> bool {
    &&& pointer.held
    &&& !pointer.just_pressed
    &&& session is Some
    &&& pointer.position is Some
}

/// Holding `Left` and `Up` pans by exactly `(-PAN_STEP, +PAN_STEP, 0)`,
/// whatever else happens in the tick.
///
/// Whatever the scroll, zoom and key pan together move the translation by
/// that much from where it was. In a tick in which the pointer does not pan,
/// that is the translation after the tick; in one in which it does, the pan
/// of the drag comes on top, at the scale that the scroll has set. It holds
/// where the moved translation is representable and the drag, if there is
/// one, does not saturate.
pub proof fn lemma_key_pan_independent(
    viewer: ViewerView,
    scroll: int,
    keys: Set<Key>,
    pointer: PointerView,
)
    requires
        viewer.camera.representable(),
        keys.contains(Key::Left),
        keys.contains(Key::Up),
        !keys.contains(Key::Right),
        !keys.contains(Key::Down),
        representable(viewer.camera.translation.0 - PAN_STEP),
        representable(viewer.camera.translation.1 + PAN_STEP),
        pointer_pans(viewer.session, pointer) ==> drag_is_exact(
            before_pointer(viewer.camera, scroll, keys),
            viewer.session->0,
            pointer.position->0,
        ),
    ensures
        ({
            let before = viewer.camera.translation;
            let moved = (before.0 - PAN_STEP, before.1 + PAN_STEP, before.2);
            let scale = zoomed_camera(viewer.camera, scroll).scale;
            let after = after_tick(viewer, scroll, keys, pointer).camera;
            &&& before_pointer(viewer.camera, scroll, keys).translation == moved
            &&& after.scale == scale
            &&& !pointer_pans(viewer.session, pointer) ==> after.translation == moved
            &&& pointer_pans(viewer.session, pointer) ==> {
                let last = viewer.session->0;
                let cursor = pointer.position->0;
                after.translation == (
                    moved.0 - scaled(cursor.0 - last.0, scale),
                    moved.1 + scaled(cursor.1 - last.1, scale),
                    moved.2,
                )
            }
        }),
{
    let prepared = before_pointer(viewer.camera, scroll, keys);
    if pointer.just_pressed && pointer.held {
        if let Some(p) = pointer.position {
            assert(dragged_camera(prepared, p, p) == prepared);
        }
    }
}

/// A viewer session: the camera and the drag controller that moves it.
#[derive(Clone, Copy, Debug, PartialEq, Eq)]
pub struct Viewer {
    camera: CameraState,
    drag: DragController,
}

impl View for Viewer {
    type V = ViewerView;

    closed spec fn view(&self) -> ViewerView {
        ViewerView { camera: self.camera@, session: self.drag@ }
    }
}

impl Viewer {
    /// A viewer at startup: the camera at the origin with scale one, no
    /// drag in progress.
    pub fn new() -> (viewer: Viewer)
        ensures
            viewer@ == (ViewerView {
                camera: CameraView { translation: (0, 0, 0), scale: UNIT as int },
                session: None,
            }),
    {
        Viewer { camera: CameraState::new(), drag: DragController::new() }
    }

    /// The camera as it stands.
    pub fn get(&self) -> (camera: CameraState)
        ensures
            camera@ == self@.camera,
    {
        self.camera
    }

    /// The session of the drag in progress, if there is one.
    pub fn session(&self) -> (session: Option<DragSession>)
        ensures
            match session {
                Some(s) => self@.session == Some(s.last_cursor_pos@),
                None => self@.session is None,
            },
    {
        self.drag.session()
    }

    /// Runs one tick: zoom, then key pan, then the pointer.
    ///
    /// The cursor alone moves nothing: with no button held, or while idle
    /// with no press, the camera is what zoom and key pan made of it. While
    /// the cursor is outside the viewport and the button is not released, the
    /// session stays as it is and the pointer moves nothing either.
    pub fn tick(&mut self, input: &TickInput)
        ensures
            final(self)@ == after_tick(
                old(self)@,
                scroll_delta(input.scroll),
                input.keys@,
                input.pointer@,
            ),
            !input.pointer.held || (old(self)@.session is None && !input.pointer.just_pressed)
                ==> final(self)@.camera == before_pointer(
                old(self)@.camera,
                scroll_delta(input.scroll),
                input.keys@,
            ),
            input.pointer.position is None && !input.pointer.just_released
                ==> final(self)@.session == old(self)@.session
                && final(self)@.camera == before_pointer(
                old(self)@.camera,
                scroll_delta(input.scroll),
                input.keys@,
            ),
    {
        zoom(&mut self.camera, input.scroll);
        key_pan(&mut self.camera, &input.keys);
        self.drag.tick(&mut self.camera, &input.pointer);
    }
}

} // verus!
