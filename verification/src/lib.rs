//! Viewport navigation for a 2D scene viewer: panning and zooming an
//! orthographic camera over a fixed scene by mouse drag, mouse wheel and
//! arrow keys.
//!
//! The library holds the camera and decides how input changes it. It opens
//! no window and reads no device: each tick the host hands over what it
//! saw — where the cursor is, what the pointer button did, how far the wheel
//! turned, which keys are down — and reads the camera back.
//!
//! * [`camera`] is the state: a translation in world space and a scale.
//! * [`mapper`] turns a distance on the screen into a distance in the
//!   world.
//! * [`zoom`] rescales the camera by the scroll of a tick.
//! * [`drag`] follows a pan gesture from press to release.
//! * [`keys`] pans by the arrow keys held.
//! * [`viewer`] owns one camera and one drag controller and runs a tick.
//!
//! Every quantity is a fixed-point number with six decimal places
//! ([`fixed`]). Products are rounded away from zero, so that no motion and
//! no scroll is lost to rounding; results that leave the 64-bit range stop
//! at its end. The contracts say so to the last unit.

pub mod camera;
pub mod drag;
pub mod fixed;
pub mod keys;
pub mod mapper;
pub mod viewer;
pub mod zoom;
