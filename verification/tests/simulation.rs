use rts_core::input::CameraAction;
use rts_core::simulation::Seed;
use rts_core::terrain::{wireframe_toggle, WireframeChange, TERRAIN_DENSITY, TERRAIN_SIZE};

#[test]
fn seed_from_value_derefs_to_that_value() {
    assert_eq!(*Seed::from_value(0), 0);
    assert_eq!(*Seed::from_value(12345), 12345);
    assert_eq!(*Seed::from_value(u32::MAX), u32::MAX);
}

#[test]
fn default_seed_can_be_read() {
    let seed = Seed::default();
    let _value: u32 = *seed;
}

#[test]
fn terrain_layout_constants() {
    assert_eq!(TERRAIN_SIZE, 2000);
    assert_eq!(TERRAIN_DENSITY, 500);
}

#[test]
fn toggle_without_press_keeps() {
    assert_eq!(wireframe_toggle(false, false), WireframeChange::Keep);
    assert_eq!(wireframe_toggle(false, true), WireframeChange::Keep);
}

#[test]
fn toggle_press_removes_existing_wireframe() {
    assert_eq!(wireframe_toggle(true, true), WireframeChange::Remove);
}

#[test]
fn toggle_press_inserts_missing_wireframe() {
    assert_eq!(wireframe_toggle(true, false), WireframeChange::Insert);
}

#[test]
fn toggle_twice_restores() {
    for start in [false, true] {
        let apply = |change: WireframeChange, has: bool| match change {
            WireframeChange::Keep => has,
            WireframeChange::Remove => false,
            WireframeChange::Insert => true,
        };
        let once = apply(wireframe_toggle(true, start), start);
        assert_ne!(once, start);
        let twice = apply(wireframe_toggle(true, once), once);
        assert_eq!(twice, start);
    }
}

#[test]
fn camera_actions_are_distinct() {
    assert_ne!(CameraAction::Pan, CameraAction::Zoom);
    assert_ne!(CameraAction::Zoom, CameraAction::Rotate);
    assert_eq!(CameraAction::Rotate, CameraAction::Rotate);
}
