use vstd::prelude::*;

verus! {

/// The actions that the camera rig reacts to.
#[derive(Clone, Copy, Debug, PartialEq, Eq, Structural, Hash)]
pub enum CameraAction {
    /// Move the ground target over the terrain (two axes).
    Pan,
    /// Move the camera towards or away from the ground target (one axis).
    Zoom,
    /// Turn the ground target about the vertical axis (one axis).
    Rotate,
}

} // verus!
