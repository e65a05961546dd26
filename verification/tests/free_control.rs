use bevy::input::Input;
use freecam::free_control::{
    free_controls, FreeControlPlugin, FreeControls, KEY_A, KEY_D, KEY_LSHIFT, KEY_S, KEY_SPACE,
    KEY_W,
};
use freecam::keybind::{map_keybinds, RawInput, RawSnapshot};

fn snapshot_with_keys(pressed: Vec<u32>) -> RawSnapshot {
    RawSnapshot {
        pressed_keys: pressed,
        just_released_keys: vec![],
        pressed_mouse: vec![],
        just_released_mouse: vec![],
    }
}

#[test]
fn action_numbers() {
    assert_eq!(FreeControls::Forward.to_num(), 0);
    assert_eq!(FreeControls::Backward.to_num(), 1);
    assert_eq!(FreeControls::Left.to_num(), 2);
    assert_eq!(FreeControls::Right.to_num(), 3);
    assert_eq!(FreeControls::Up.to_num(), 4);
    assert_eq!(FreeControls::Down.to_num(), 5);
}

#[test]
fn unlocked_cursor_stills_movement() {
    let mut actions: Input<u32> = Input::default();
    actions.press(FreeControls::Forward.to_num());
    let m = free_controls(false, &actions);
    assert!(!m.forward && !m.backward && !m.left && !m.right && !m.up && !m.down);
}

#[test]
fn pressed_actions_move_while_locked() {
    let mut actions: Input<u32> = Input::default();
    actions.press(FreeControls::Forward.to_num());
    actions.press(FreeControls::Left.to_num());
    let m = free_controls(true, &actions);
    assert!(m.forward);
    assert!(m.left);
    assert!(!m.backward);
    assert!(!m.right);
    assert!(!m.up);
    assert!(!m.down);
}

#[test]
fn default_bindings_drive_the_regular_keys() {
    let plugin = FreeControlPlugin::default();
    let mut actions: Input<u32> = Input::default();
    let snap = snapshot_with_keys(vec![KEY_W, KEY_LSHIFT]);
    map_keybinds(&snap, plugin.key_bindings().bindings(), &mut actions);
    let m = free_controls(true, &actions);
    assert!(m.forward);
    assert!(m.down);
    assert!(!m.up);
    assert!(!m.backward);
}

#[test]
fn default_bindings_cover_all_six_directions() {
    let plugin = FreeControlPlugin::default();
    let mut actions: Input<u32> = Input::default();
    let snap = snapshot_with_keys(vec![KEY_W, KEY_S, KEY_A, KEY_D, KEY_SPACE, KEY_LSHIFT]);
    map_keybinds(&snap, plugin.key_bindings().bindings(), &mut actions);
    let m = free_controls(true, &actions);
    assert!(m.forward && m.backward && m.left && m.right && m.up && m.down);
}

#[test]
fn fresh_plugin_binds_nothing() {
    let plugin = FreeControlPlugin::new();
    let mut actions: Input<u32> = Input::default();
    let snap = snapshot_with_keys(vec![KEY_W]);
    map_keybinds(&snap, plugin.key_bindings().bindings(), &mut actions);
    let m = free_controls(true, &actions);
    assert!(!m.forward);
}

#[test]
fn custom_binding_replaces_default() {
    let plugin = FreeControlPlugin::default().bind(RawInput::Key(KEY_W), FreeControls::Backward);
    let mut actions: Input<u32> = Input::default();
    let snap = snapshot_with_keys(vec![KEY_W]);
    map_keybinds(&snap, plugin.key_bindings().bindings(), &mut actions);
    let m = free_controls(true, &actions);
    assert!(m.backward);
    assert!(!m.forward);
}

#[test]
fn cloned_plugin_behaves_alike() {
    let plugin = FreeControlPlugin::default();
    let copy = plugin.clone();
    let mut a: Input<u32> = Input::default();
    let mut b: Input<u32> = Input::default();
    let snap = snapshot_with_keys(vec![KEY_W]);
    map_keybinds(&snap, plugin.key_bindings().bindings(), &mut a);
    map_keybinds(&snap, copy.key_bindings().bindings(), &mut b);
    assert_eq!(a.pressed(0), b.pressed(0));
}

#[test]
fn default_action_is_forward() {
    assert_eq!(FreeControls::default(), FreeControls::Forward);
}
