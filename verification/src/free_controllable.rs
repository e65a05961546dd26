//! Free-moving controls for a single 3D object, in the variant that manages
//! the cursor grab itself: a left mouse press locks the cursor to the window,
//! escape unlocks it, and while it is locked the movement actions steer the
//! object. The plugin can be set up with no default bindings
//! (`FreeControlPlugin::new`) or with the regular bindings: W/A/S/D, left
//! shift for down, space for up, left mouse to lock, escape to unlock
//! (`FreeControlPlugin::default`).

use vstd::prelude::*;
use bevy::input::Input;
use crate::action_state::{action_just_pressed, action_pressed, just_pressed_set, pressed_set};
use crate::free_control::{
    MoveIntent, KEY_A, KEY_D, KEY_ESCAPE, KEY_LSHIFT, KEY_S, KEY_SPACE, KEY_W, MOUSE_LEFT,
};
use crate::keybind::{KeyBindingPlugin, RawInput};

verus! {

/// The semantic actions of the self-contained free controls: the six movement
/// directions, locking the cursor and unlocking it.
#[derive(Debug, Clone, Copy, PartialEq, Eq, Structural, Hash, PartialOrd, Ord)]
pub enum FreeControls {
    Forward,
    Backward,
    Left,
    Right,
    Up,
    Down,
    Locked,
    Unlock,
}

impl FreeControls {
    /// The number standing for the action in the action state.
    pub open spec fn num(self) -> u32 {
        match self {
            FreeControls::Forward => 0,
            FreeControls::Backward => 1,
            FreeControls::Left => 2,
            FreeControls::Right => 3,
            FreeControls::Up => 4,
            FreeControls::Down => 5,
            FreeControls::Locked => 6,
            FreeControls::Unlock => 7,
        }
    }

    /// The number standing for the action in the action state.
    pub fn to_num(self) -> (n: u32)
        ensures
            n == self.num(),
    {
        match self {
            FreeControls::Forward => 0,
            FreeControls::Backward => 1,
            FreeControls::Left => 2,
            FreeControls::Right => 3,
            FreeControls::Up => 4,
            FreeControls::Down => 5,
            FreeControls::Locked => 6,
            FreeControls::Unlock => 7,
        }
    }
}

/// Distinct actions have distinct numbers.
pub proof fn lemma_num_injective(a: FreeControls, b: FreeControls)
    ensures
        a.num() == b.num() ==> a == b,
{
}

impl Default for FreeControls {
    fn default() -> (r: FreeControls)
        ensures
            r is Forward,
    {
        FreeControls::Forward
    }
}

/// What the frame does with the cursor grab: `engage` locks it, `disengage`
/// then releases it, and `active` says whether it ends the frame locked —
/// which is what gates the frame's movement and rotation.
#[derive(Debug, Clone, Copy, PartialEq, Eq, Structural)]
pub struct GrabIntent {
    pub engage: bool,
    pub disengage: bool,
    pub active: bool,
}

/// The decision of the self-contained free-control frame. A just-pressed lock
/// action grabs a cursor that is not yet locked (locking twice would behave
/// as if unlocked on some platforms); a just-pressed unlock action releases
/// it, even on the frame that locked it. Movement applies exactly when the
/// cursor ends the frame locked and the direction's action is pressed.
pub fn free_controls(cursor_locked: bool, binds: &Input<u32>) -> (r: (GrabIntent, MoveIntent))
    ensures
        r.0.engage == (just_pressed_set(*binds).contains(FreeControls::Locked.num())
            && !cursor_locked),
        r.0.disengage == just_pressed_set(*binds).contains(FreeControls::Unlock.num()),
        r.0.active == (!r.0.disengage && (cursor_locked || r.0.engage)),
        r.1.forward == (r.0.active && pressed_set(*binds).contains(FreeControls::Forward.num())),
        r.1.backward == (r.0.active && pressed_set(*binds).contains(FreeControls::Backward.num())),
        r.1.left == (r.0.active && pressed_set(*binds).contains(FreeControls::Left.num())),
        r.1.right == (r.0.active && pressed_set(*binds).contains(FreeControls::Right.num())),
        r.1.up == (r.0.active && pressed_set(*binds).contains(FreeControls::Up.num())),
        r.1.down == (r.0.active && pressed_set(*binds).contains(FreeControls::Down.num())),
        !r.0.active ==> r.1.is_still(),
{
    let engage = action_just_pressed(binds, FreeControls::Locked.to_num()) && !cursor_locked;
    let disengage = action_just_pressed(binds, FreeControls::Unlock.to_num());
    let active = !disengage && (cursor_locked || engage);
    let movement = if active {
        MoveIntent {
            forward: action_pressed(binds, FreeControls::Forward.to_num()),
            backward: action_pressed(binds, FreeControls::Backward.to_num()),
            left: action_pressed(binds, FreeControls::Left.to_num()),
            right: action_pressed(binds, FreeControls::Right.to_num()),
            up: action_pressed(binds, FreeControls::Up.to_num()),
            down: action_pressed(binds, FreeControls::Down.to_num()),
        }
    } else {
        MoveIntent {
            forward: false,
            backward: false,
            left: false,
            right: false,
            up: false,
            down: false,
        }
    };
    (GrabIntent { engage, disengage, active }, movement)
}

/// The regular bindings: W/A/S/D, left shift for down, space for up, left
/// mouse to lock, escape to unlock.
pub open spec fn spec_default_bindings() -> Map<RawInput, u32> {
    map![
        RawInput::Key(KEY_W) => FreeControls::Forward.num(),
        RawInput::Key(KEY_S) => FreeControls::Backward.num(),
        RawInput::Key(KEY_A) => FreeControls::Left.num(),
        RawInput::Key(KEY_D) => FreeControls::Right.num(),
        RawInput::Key(KEY_LSHIFT) => FreeControls::Down.num(),
        RawInput::Key(KEY_SPACE) => FreeControls::Up.num(),
        RawInput::Mouse(MOUSE_LEFT) => FreeControls::Locked.num(),
        RawInput::Key(KEY_ESCAPE) => FreeControls::Unlock.num(),
    ]
}

/// Adds free-moving controls to the 3D object carrying the marker the plugin
/// targets. What it holds is the keybindings the host wiring installs.
pub struct FreeControlPlugin {
    key_bindings: KeyBindingPlugin,
}

impl View for FreeControlPlugin {
    type V = Map<RawInput, u32>;

    closed spec fn view(&self) -> Map<RawInput, u32> {
        self.key_bindings@
    }
}

impl FreeControlPlugin {
    /// Each raw input is bound at most once.
    pub closed spec fn wf(self) -> bool {
        self.key_bindings.wf()
    }

    /// Creates a new `FreeControlPlugin`, without any default bindings.
    pub fn new() -> (r: FreeControlPlugin)
        ensures
            r.wf(),
            r@ == Map::<RawInput, u32>::empty(),
    {
        FreeControlPlugin { key_bindings: KeyBindingPlugin::new() }
    }

    /// Binds the provided `input` to the provided `bind`.
    pub fn bind(self, input: RawInput, bind: FreeControls) -> (r: FreeControlPlugin)
        requires
            self.wf(),
        ensures
            r.wf(),
            r@ == self@.insert(input, bind.num()),
    {
        FreeControlPlugin { key_bindings: self.key_bindings.bind(input, bind.to_num()) }
    }

    /// The bindings the plugin installs.
    pub fn key_bindings(&self) -> (r: &KeyBindingPlugin)
        ensures
            r@ == self@,
            r.wf() == self.wf(),
    {
        &self.key_bindings
    }
}

impl Clone for FreeControlPlugin {
    fn clone(&self) -> (r: FreeControlPlugin)
        ensures
            r@ == self@,
            r.wf() == self.wf(),
    {
        FreeControlPlugin { key_bindings: self.key_bindings.clone() }
    }
}

impl Default for FreeControlPlugin {
    fn default() -> (r: FreeControlPlugin)
        ensures
            r.wf(),
            r@ == spec_default_bindings(),
    {
        let r = FreeControlPlugin::new().bind(RawInput::Key(KEY_W), FreeControls::Forward).bind(
            RawInput::Key(KEY_S),
            FreeControls::Backward,
        ).bind(RawInput::Key(KEY_A), FreeControls::Left).bind(
            RawInput::Key(KEY_D),
            FreeControls::Right,
        ).bind(RawInput::Key(KEY_LSHIFT), FreeControls::Down).bind(
            RawInput::Key(KEY_SPACE),
            FreeControls::Up,
        ).bind(RawInput::Mouse(MOUSE_LEFT), FreeControls::Locked).bind(
            RawInput::Key(KEY_ESCAPE),
            FreeControls::Unlock,
        );
        proof {
            assert(r@ =~= spec_default_bindings());
        }
        r
    }
}

} // verus!
