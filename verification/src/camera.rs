//! The camera: where it stands in the world and how far it is zoomed.

use vstd::prelude::*;
use crate::fixed::{representable, Fixed, UNIT};

verus! {

/// What a camera state stands for, in raw units.
pub struct CameraView {
    pub translation: (int, int, int),
    pub scale: int,
}

impl CameraView {
    /// Whether each part is within the range that a camera state can hold.
    pub open spec fn representable(self) -> bool {
        &&& representable(self.translation.0)
        &&& representable(self.translation.1)
        &&& representable(self.translation.2)
        &&& representable(self.scale)
    }
}

/// Position and zoom factor of the one orthographic camera.
///
/// `translation` is the camera's place in world space; its third part
/// orders layers and no controller moves it. `scale` is the zoom factor:
/// a larger one shows more of the world. It is meant to stay positive, which
/// nothing enforces: a scroll up by fifty or more in one tick takes it to
/// zero or below.
#[derive(Clone, Copy, Debug, PartialEq, Eq)]
pub struct CameraState {
    pub translation: (Fixed, Fixed, Fixed),
    pub scale: Fixed,
}

impl View for CameraState {
    type V = CameraView;

    open spec fn view(&self) -> CameraView {
        CameraView { translation: self.translation@, scale: self.scale@ }
    }
}

impl CameraState {
    /// The camera at startup: at the origin, with scale one.
    pub fn new() -> (camera: CameraState)
        ensures
            camera@ == (CameraView { translation: (0, 0, 0), scale: UNIT as int }),
    {
        let zero: Fixed = Fixed { raw: 0 };
        CameraState { translation: (zero, zero, zero), scale: Fixed { raw: UNIT } }
    }
}

} // verus!
