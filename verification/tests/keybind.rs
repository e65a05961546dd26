use bevy::input::Input;
use freecam::keybind::{map_keybinds, KeyBindingPlugin, KeyBindings, RawInput, RawSnapshot};

fn empty_snapshot() -> RawSnapshot {
    RawSnapshot {
        pressed_keys: vec![],
        just_released_keys: vec![],
        pressed_mouse: vec![],
        just_released_mouse: vec![],
    }
}

#[test]
fn pressed_key_presses_bound_action() {
    let mut kb = KeyBindings::new();
    kb.bind(RawInput::Key(32), 0);
    let mut actions: Input<u32> = Input::default();
    let snap = RawSnapshot { pressed_keys: vec![32], ..empty_snapshot() };
    map_keybinds(&snap, &kb, &mut actions);
    assert!(actions.pressed(0));
    assert!(actions.just_pressed(0));
    assert!(!actions.just_released(0));
}

#[test]
fn held_key_does_not_retrigger() {
    let mut kb = KeyBindings::new();
    kb.bind(RawInput::Key(32), 0);
    let mut actions: Input<u32> = Input::default();
    let snap = RawSnapshot { pressed_keys: vec![32], ..empty_snapshot() };
    map_keybinds(&snap, &kb, &mut actions);
    assert!(actions.just_pressed(0));
    // The key is still held on the next frame: the action stays pressed but
    // is no longer an edge.
    map_keybinds(&snap, &kb, &mut actions);
    assert!(actions.pressed(0));
    assert!(!actions.just_pressed(0));
}

#[test]
fn released_key_releases_bound_action() {
    let mut kb = KeyBindings::new();
    kb.bind(RawInput::Key(32), 0);
    let mut actions: Input<u32> = Input::default();
    let down = RawSnapshot { pressed_keys: vec![32], ..empty_snapshot() };
    map_keybinds(&down, &kb, &mut actions);
    let up = RawSnapshot { just_released_keys: vec![32], ..empty_snapshot() };
    map_keybinds(&up, &kb, &mut actions);
    assert!(!actions.pressed(0));
    assert!(!actions.just_pressed(0));
    assert!(actions.just_released(0));
}

#[test]
fn unbound_key_has_no_effect() {
    let mut kb = KeyBindings::new();
    kb.bind(RawInput::Key(32), 0);
    let mut actions: Input<u32> = Input::default();
    let snap = RawSnapshot { pressed_keys: vec![99], ..empty_snapshot() };
    map_keybinds(&snap, &kb, &mut actions);
    assert!(!actions.pressed(0));
    assert!(!actions.just_pressed(0));
}

#[test]
fn mouse_button_presses_bound_action() {
    let mut kb = KeyBindings::new();
    kb.bind(RawInput::Mouse(0), 6);
    let mut actions: Input<u32> = Input::default();
    let snap = RawSnapshot { pressed_mouse: vec![0], ..empty_snapshot() };
    map_keybinds(&snap, &kb, &mut actions);
    assert!(actions.pressed(6));
    // A key with the same code as the mouse button is a different raw input.
    let key_snap = RawSnapshot { pressed_keys: vec![0], ..empty_snapshot() };
    let mut other: Input<u32> = Input::default();
    map_keybinds(&key_snap, &kb, &mut other);
    assert!(!other.pressed(6));
}

#[test]
fn clear_bind_drops_the_binding() {
    let mut kb = KeyBindings::new();
    kb.bind(RawInput::Key(32), 0);
    kb.clear_bind(RawInput::Key(32));
    let mut actions: Input<u32> = Input::default();
    let snap = RawSnapshot { pressed_keys: vec![32], ..empty_snapshot() };
    map_keybinds(&snap, &kb, &mut actions);
    assert!(!actions.pressed(0));
}

#[test]
fn rebind_replaces_the_action() {
    let mut kb = KeyBindings::new();
    kb.bind(RawInput::Key(32), 0);
    kb.rebind(RawInput::Key(32), 4);
    let mut actions: Input<u32> = Input::default();
    let snap = RawSnapshot { pressed_keys: vec![32], ..empty_snapshot() };
    map_keybinds(&snap, &kb, &mut actions);
    assert!(actions.pressed(4));
    assert!(!actions.pressed(0));
}

#[test]
fn binding_same_input_twice_keeps_last_action() {
    let mut kb = KeyBindings::new();
    kb.bind(RawInput::Key(32), 0);
    kb.bind(RawInput::Key(32), 1);
    let mut actions: Input<u32> = Input::default();
    let snap = RawSnapshot { pressed_keys: vec![32], ..empty_snapshot() };
    map_keybinds(&snap, &kb, &mut actions);
    assert!(actions.pressed(1));
    assert!(!actions.pressed(0));
}

#[test]
fn two_inputs_may_share_an_action() {
    let mut kb = KeyBindings::new();
    kb.bind(RawInput::Key(32), 0);
    kb.bind(RawInput::Key(17), 0);
    let mut actions: Input<u32> = Input::default();
    let snap = RawSnapshot { pressed_keys: vec![17], ..empty_snapshot() };
    map_keybinds(&snap, &kb, &mut actions);
    assert!(actions.pressed(0));
}

#[test]
fn empty_bindings_only_clear_the_edges() {
    let kb = KeyBindings::new();
    let mut actions: Input<u32> = Input::default();
    actions.press(3);
    assert!(actions.just_pressed(3));
    let snap = RawSnapshot { pressed_keys: vec![32], ..empty_snapshot() };
    map_keybinds(&snap, &kb, &mut actions);
    assert!(actions.pressed(3));
    assert!(!actions.just_pressed(3));
}

#[test]
fn plugin_bindings_flow_into_the_map() {
    let plugin = KeyBindingPlugin::new().bind(RawInput::Key(32), 2);
    let mut actions: Input<u32> = Input::default();
    let snap = RawSnapshot { pressed_keys: vec![32], ..empty_snapshot() };
    map_keybinds(&snap, plugin.bindings(), &mut actions);
    assert!(actions.pressed(2));
}

#[test]
fn plugin_clear_and_rebind() {
    let plugin = KeyBindingPlugin::new().bind(RawInput::Key(32), 2).clear_bind(RawInput::Key(32));
    let mut actions: Input<u32> = Input::default();
    let snap = RawSnapshot { pressed_keys: vec![32], ..empty_snapshot() };
    map_keybinds(&snap, plugin.bindings(), &mut actions);
    assert!(!actions.pressed(2));

    let mut plugin = KeyBindingPlugin::new().bind(RawInput::Key(32), 2);
    plugin.rebind(RawInput::Key(32), 5);
    let mut actions: Input<u32> = Input::default();
    map_keybinds(&snap, plugin.bindings(), &mut actions);
    assert!(actions.pressed(5));
    assert!(!actions.pressed(2));
}

#[test]
fn snapshot_queries_match_contents() {
    let snap = RawSnapshot {
        pressed_keys: vec![1, 2],
        just_released_keys: vec![3],
        pressed_mouse: vec![0],
        just_released_mouse: vec![],
    };
    assert!(snap.is_pressed(&RawInput::Key(1)));
    assert!(snap.is_pressed(&RawInput::Key(2)));
    assert!(!snap.is_pressed(&RawInput::Key(3)));
    assert!(snap.is_just_released(&RawInput::Key(3)));
    assert!(snap.is_pressed(&RawInput::Mouse(0)));
    assert!(!snap.is_just_released(&RawInput::Mouse(0)));
}

#[test]
fn cloned_bindings_behave_alike() {
    let mut kb = KeyBindings::new();
    kb.bind(RawInput::Key(32), 0);
    let copy = kb.clone();
    let snap = RawSnapshot { pressed_keys: vec![32], ..empty_snapshot() };
    let mut a: Input<u32> = Input::default();
    let mut b: Input<u32> = Input::default();
    map_keybinds(&snap, &kb, &mut a);
    map_keybinds(&snap, &copy, &mut b);
    assert_eq!(a.pressed(0), b.pressed(0));
    assert!(b.pressed(0));
}
