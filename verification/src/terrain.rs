use vstd::prelude::*;

verus! {

/// The side length of the square terrain, in world units.
pub const TERRAIN_SIZE: u32 = 2000;

/// The number of subdivisions of the terrain mesh along each side.
pub const TERRAIN_DENSITY: u32 = 500;

/// What to do with the wireframe overlay of the terrain in one frame.
#[derive(Clone, Copy, Debug, PartialEq, Eq, Structural)]
pub enum WireframeChange {
    /// Leave the terrain as it is.
    Keep,
    /// Take the wireframe off the terrain.
    Remove,
    /// Put a wireframe on the terrain.
    Insert,
}

/// The change that the debug toggle calls for.
pub open spec fn wireframe_toggle_spec(toggle_pressed: bool, has_wireframe: bool) -> WireframeChange {
    if !toggle_pressed {
        WireframeChange::Keep
    } else if has_wireframe {
        WireframeChange::Remove
    } else {
        WireframeChange::Insert
    }
}

/// Whether the terrain has a wireframe once `change` is carried out on a
/// terrain that had one exactly when `has_wireframe`.
pub open spec fn has_wireframe_after(change: WireframeChange, has_wireframe: bool) -> bool {
    match change {
        WireframeChange::Keep => has_wireframe,
        WireframeChange::Remove => false,
        WireframeChange::Insert => true,
    }
}

/// The debug toggle: when the toggle key was just pressed, a terrain with a
/// wireframe loses it and one without gains it; otherwise nothing changes.
pub fn wireframe_toggle(toggle_pressed: bool, has_wireframe: bool) -> (c: WireframeChange)
    ensures
        c == wireframe_toggle_spec(toggle_pressed, has_wireframe),
{
    if toggle_pressed {
        match has_wireframe {
            true => WireframeChange::Remove,
            false => WireframeChange::Insert,
        }
    } else {
        WireframeChange::Keep
    }
}

/// A press of the toggle flips the wireframe; no press leaves it alone.
pub proof fn lemma_toggle_flips(toggle_pressed: bool, has_wireframe: bool)
    ensures
        has_wireframe_after(wireframe_toggle_spec(toggle_pressed, has_wireframe), has_wireframe)
            == (has_wireframe != toggle_pressed),
{
}

/// Pressing the toggle twice brings the terrain back to where it started:
/// the second press undoes the first.
pub proof fn lemma_toggle_twice_restores(has_wireframe: bool)
    ensures
        ({
            let once = has_wireframe_after(wireframe_toggle_spec(true, has_wireframe), has_wireframe);
            has_wireframe_after(wireframe_toggle_spec(true, once), once) == has_wireframe
        }),
{
}

} // verus!
