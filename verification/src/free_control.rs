//! Free-moving controls for 3D objects carrying a marker component, with a
//! per-axis speed and sensitivity configuration. The plugin can be set up
//! with no default bindings (`FreeControlPlugin::new`) or with the regular
//! bindings: W/A/S/D, left shift for down, space for up
//! (`FreeControlPlugin::default`).
//!
//! The verified part decides, from the debounced action state, which movement
//! directions apply this frame; the host side turns them into translation and
//! rotation (floating-point vector math) at the configured speeds.

use vstd::prelude::*;
use bevy::input::Input;
use crate::action_state::{action_pressed, pressed_set};
use crate::keybind::{KeyBindingPlugin, RawInput};

verus! {

/// The key code of the `W` key, as the engine numbers key codes.
pub const KEY_W: u32 = 32;

/// The key code of the `A` key.
pub const KEY_A: u32 = 10;

/// The key code of the `S` key.
pub const KEY_S: u32 = 28;

/// The key code of the `D` key.
pub const KEY_D: u32 = 13;

/// The key code of the escape key.
pub const KEY_ESCAPE: u32 = 36;

/// The key code of the space key.
pub const KEY_SPACE: u32 = 76;

/// The key code of the left shift key.
pub const KEY_LSHIFT: u32 = 114;

/// The button number of the left mouse button.
pub const MOUSE_LEFT: u32 = 0;

/// The semantic movement actions free control binds raw inputs to.
#[derive(Debug, Clone, Copy, PartialEq, Eq, Structural, Hash, PartialOrd, Ord)]
pub enum FreeControls {
    Forward,
    Backward,
    Left,
    Right,
    Up,
    Down,
}

impl FreeControls {
    /// The number standing for the action in the action state.
    pub open spec fn num(self) -> u32 {
        match self {
            FreeControls::Forward => 0,
            FreeControls::Backward => 1,
            FreeControls::Left => 2,
            FreeControls::Right => 3,
            FreeControls::Up => 4,
            FreeControls::Down => 5,
        }
    }

    /// The number standing for the action in the action state.
    pub fn to_num(self) -> (n: u32)
        ensures
            n == self.num(),
    {
        match self {
            FreeControls::Forward => 0,
            FreeControls::Backward => 1,
            FreeControls::Left => 2,
            FreeControls::Right => 3,
            FreeControls::Up => 4,
            FreeControls::Down => 5,
        }
    }
}

/// Distinct actions have distinct numbers.
pub proof fn lemma_num_injective(a: FreeControls, b: FreeControls)
    ensures
        a.num() == b.num() ==> a == b,
{
}

impl Default for FreeControls {
    fn default() -> (r: FreeControls)
        ensures
            r is Forward,
    {
        FreeControls::Forward
    }
}

/// The marker component of the free-flying camera entity.
pub struct FreeCam;

/// Which movement directions apply this frame.
#[derive(Debug, Clone, Copy, PartialEq, Eq, Structural)]
pub struct MoveIntent {
    pub forward: bool,
    pub backward: bool,
    pub left: bool,
    pub right: bool,
    pub up: bool,
    pub down: bool,
}

impl MoveIntent {
    /// No movement at all.
    pub open spec fn is_still(self) -> bool {
        !self.forward && !self.backward && !self.left && !self.right && !self.up && !self.down
    }
}

/// The movement decision of the free-control frame: while the window's cursor
/// is grabbed, each direction applies exactly when its action is pressed;
/// while it is not, nothing moves (and no rotation applies either).
pub fn free_controls(cursor_locked: bool, binds: &Input<u32>) -> (m: MoveIntent)
    ensures
        m.forward == (cursor_locked && pressed_set(*binds).contains(FreeControls::Forward.num())),
        m.backward == (cursor_locked && pressed_set(*binds).contains(
            FreeControls::Backward.num(),
        )),
        m.left == (cursor_locked && pressed_set(*binds).contains(FreeControls::Left.num())),
        m.right == (cursor_locked && pressed_set(*binds).contains(FreeControls::Right.num())),
        m.up == (cursor_locked && pressed_set(*binds).contains(FreeControls::Up.num())),
        m.down == (cursor_locked && pressed_set(*binds).contains(FreeControls::Down.num())),
        !cursor_locked ==> m.is_still(),
{
    if cursor_locked {
        MoveIntent {
            forward: action_pressed(binds, FreeControls::Forward.to_num()),
            backward: action_pressed(binds, FreeControls::Backward.to_num()),
            left: action_pressed(binds, FreeControls::Left.to_num()),
            right: action_pressed(binds, FreeControls::Right.to_num()),
            up: action_pressed(binds, FreeControls::Up.to_num()),
            down: action_pressed(binds, FreeControls::Down.to_num()),
        }
    } else {
        MoveIntent {
            forward: false,
            backward: false,
            left: false,
            right: false,
            up: false,
            down: false,
        }
    }
}

/// The regular bindings: W/A/S/D, left shift for down, space for up.
pub open spec fn spec_default_bindings() -> Map<RawInput, u32> {
    map![
        RawInput::Key(KEY_W) => FreeControls::Forward.num(),
        RawInput::Key(KEY_S) => FreeControls::Backward.num(),
        RawInput::Key(KEY_A) => FreeControls::Left.num(),
        RawInput::Key(KEY_D) => FreeControls::Right.num(),
        RawInput::Key(KEY_LSHIFT) => FreeControls::Down.num(),
        RawInput::Key(KEY_SPACE) => FreeControls::Up.num(),
    ]
}

/// Adds free-moving controls to the 3D objects carrying the marker the plugin
/// targets. What it holds is the keybindings the host wiring installs.
pub struct FreeControlPlugin {
    key_bindings: KeyBindingPlugin,
}

impl View for FreeControlPlugin {
    type V = Map<RawInput, u32>;

    closed spec fn view(&self) -> Map<RawInput, u32> {
        self.key_bindings@
    }
}

impl FreeControlPlugin {
    /// Each raw input is bound at most once.
    pub closed spec fn wf(self) -> bool {
        self.key_bindings.wf()
    }

    /// Creates a new `FreeControlPlugin`, without any default bindings.
    pub fn new() -> (r: FreeControlPlugin)
        ensures
            r.wf(),
            r@ == Map::<RawInput, u32>::empty(),
    {
        FreeControlPlugin { key_bindings: KeyBindingPlugin::new() }
    }

    /// Binds the provided `input` to the provided `bind`.
    pub fn bind(self, input: RawInput, bind: FreeControls) -> (r: FreeControlPlugin)
        requires
            self.wf(),
        ensures
            r.wf(),
            r@ == self@.insert(input, bind.num()),
    {
        FreeControlPlugin { key_bindings: self.key_bindings.bind(input, bind.to_num()) }
    }

    /// The bindings the plugin installs.
    pub fn key_bindings(&self) -> (r: &KeyBindingPlugin)
        ensures
            r@ == self@,
            r.wf() == self.wf(),
    {
        &self.key_bindings
    }
}

impl Clone for FreeControlPlugin {
    fn clone(&self) -> (r: FreeControlPlugin)
        ensures
            r@ == self@,
            r.wf() == self.wf(),
    {
        FreeControlPlugin { key_bindings: self.key_bindings.clone() }
    }
}

impl Default for FreeControlPlugin {
    fn default() -> (r: FreeControlPlugin)
        ensures
            r.wf(),
            r@ == spec_default_bindings(),
    {
        let r = FreeControlPlugin::new().bind(RawInput::Key(KEY_W), FreeControls::Forward).bind(
            RawInput::Key(KEY_S),
            FreeControls::Backward,
        ).bind(RawInput::Key(KEY_A), FreeControls::Left).bind(
            RawInput::Key(KEY_D),
            FreeControls::Right,
        ).bind(RawInput::Key(KEY_LSHIFT), FreeControls::Down).bind(
            RawInput::Key(KEY_SPACE),
            FreeControls::Up,
        );
        proof {
            assert(r@ =~= spec_default_bindings());
        }
        r
    }
}

} // verus!
