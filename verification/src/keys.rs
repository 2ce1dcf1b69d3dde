//! The key pan controller: each arrow key held moves the camera by a fixed
//! step per tick.

use vstd::prelude::*;
use crate::camera::{CameraState, CameraView};
use crate::fixed::{saturate, Fixed, UNIT};

verus! {

/// The distance that one arrow key pans per tick, in raw units: twenty
/// world units.
pub const PAN_STEP: i64 = 20 * UNIT;

/// A key of the keyboard. Only the four arrows mean something here.
#[derive(Clone, Copy, Debug, PartialEq, Eq, Structural)]
pub enum Key {
    Left,
    Right,
    Up,
    Down,
    /// Any key that is not an arrow.
    Other,
}

/// The keys that are held in one tick.
#[derive(Clone, Copy, Debug, PartialEq, Eq)]
pub struct KeySet {
    left: bool,
    right: bool,
    up: bool,
    down: bool,
    other: bool,
}

impl KeySet {
    /// Whether the set holds `key`.
    closed spec fn holds(self, key: Key) -> bool {
        match key {
            Key::Left => self.left,
            Key::Right => self.right,
            Key::Up => self.up,
            Key::Down => self.down,
            Key::Other => self.other,
        }
    }
}

impl View for KeySet {
    type V = Set<Key>;

    closed spec fn view(&self) -> Set<Key> {
        Set::new(|key: Key| self.holds(key))
    }
}

impl KeySet {
    /// No key held.
    pub fn new() -> (keys: KeySet)
        ensures
            keys@ == Set::<Key>::empty(),
    {
        let keys = KeySet { left: false, right: false, up: false, down: false, other: false };
        assert(keys@ =~= Set::<Key>::empty());
        keys
    }

    /// Whether `key` is held.
    pub fn contains(&self, key: Key) -> (held: bool)
        ensures
            held == self@.contains(key),
    {
        match key {
            Key::Left => self.left,
            Key::Right => self.right,
            Key::Up => self.up,
            Key::Down => self.down,
            Key::Other => self.other,
        }
    }

    /// Adds `key` to the keys held.
    pub fn insert(&mut self, key: Key)
        ensures
            final(self)@ == old(self)@.insert(key),
    {
        match key {
            Key::Left => {
                self.left = true;
            },
            Key::Right => {
                self.right = true;
            },
            Key::Up => {
                self.up = true;
            },
            Key::Down => {
                self.down = true;
            },
            Key::Other => {
                self.other = true;
            },
        }
        assert(self@ =~= old(self)@.insert(key));
    }
}

/// The distance that the arrow keys among `keys` pan in one tick: each
/// adds its step along its axis, opposite keys cancel, other keys count for
/// nothing.
pub open spec fn pan_offset(keys: Set<Key>) -> (int, int) {
    (
        (if keys.contains(Key::Right) {
            PAN_STEP as int
        } else {
            0
        }) - (if keys.contains(Key::Left) {
            PAN_STEP as int
        } else {
            0
        }),
        (if keys.contains(Key::Up) {
            PAN_STEP as int
        } else {
            0
        }) - (if keys.contains(Key::Down) {
            PAN_STEP as int
        } else {
            0
        }),
    )
}

/// The camera after one tick with `keys` held.
pub open spec fn panned_camera(camera: CameraView, keys: Set<Key>) -> CameraView {
    let offset = pan_offset(keys);
    CameraView {
        translation: (
            saturate(camera.translation.0 + offset.0),
            saturate(camera.translation.1 + offset.1),
            camera.translation.2,
        ),
        scale: camera.scale,
    }
}

/// Pans the camera by the arrow keys held in this tick: `Left` and `Right`
/// move it by `PAN_STEP` down and up the x axis, `Down` and `Up` the y axis.
/// Keys held together each take effect; other keys are ignored. The scale
/// is never touched.
pub fn key_pan(camera: &mut CameraState, keys: &KeySet)
    ensures
        final(camera)@ == panned_camera(old(camera)@, keys@),
        final(camera).scale == old(camera).scale,
        final(camera).translation.2 == old(camera).translation.2,
{
    let mut dx: i64 = 0;
    let mut dy: i64 = 0;
    if keys.contains(Key::Right) {
        dx = dx + PAN_STEP;
    }
    if keys.contains(Key::Left) {
        dx = dx - PAN_STEP;
    }
    if keys.contains(Key::Up) {
        dy = dy + PAN_STEP;
    }
    if keys.contains(Key::Down) {
        dy = dy - PAN_STEP;
    }
    camera.translation = (
        camera.translation.0.saturating_add(Fixed { raw: dx }),
        camera.translation.1.saturating_add(Fixed { raw: dy }),
        camera.translation.2,
    );
}

} // verus!
