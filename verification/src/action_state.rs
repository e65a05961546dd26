//! Debounced semantic action state.
//!
//! Actions are identified by numbers (each action enum of this crate gives its
//! variants numbers). The state itself is kept in the engine's press-able
//! input collection, `bevy::input::Input`, behind trusted wrappers: three
//! uninterpreted functions name what the collection holds — the pressed,
//! just-pressed and just-released sets — and each wrapper states, from the
//! collection's own source, how one of its methods moves those sets.

use vstd::prelude::*;
use std::hash::Hash;
use bevy::input::Input;

verus! {

/// `bevy::input::Input`, the engine's press-able input collection: three hash
/// sets holding what is pressed, what has just been pressed and what has just
/// been released.
#[verifier::external_type_specification]
#[verifier::external_body]
#[verifier::reject_recursive_types(T)]
pub struct ExInput<T: Copy + Eq + Hash + Send + Sync + 'static>(Input<T>);

/// The actions the collection holds as currently pressed.
pub uninterp spec fn pressed_set(input: Input<u32>) -> Set<u32>;

/// The actions the collection holds as pressed since the last clear.
pub uninterp spec fn just_pressed_set(input: Input<u32>) -> Set<u32>;

/// The actions the collection holds as released since the last clear.
pub uninterp spec fn just_released_set(input: Input<u32>) -> Set<u32>;

/// The three sets of an action-state collection, as one value.
pub struct ActionsView {
    pub pressed: Set<u32>,
    pub just_pressed: Set<u32>,
    pub just_released: Set<u32>,
}

/// What `input` holds, over the three named sets.
pub open spec fn actions_view(input: Input<u32>) -> ActionsView {
    ActionsView {
        pressed: pressed_set(input),
        just_pressed: just_pressed_set(input),
        just_released: just_released_set(input),
    }
}

/// Relies on `bevy::input::Input::press`: inserts the action into the pressed
/// set, and into the just-pressed set only if it was not pressed before.
#[verifier::external_body]
pub(crate) fn press_action(input: &mut Input<u32>, action: u32)
    ensures
        pressed_set(*final(input)) == pressed_set(*old(input)).insert(action),
        just_pressed_set(*final(input)) == (if pressed_set(*old(input)).contains(action) {
            just_pressed_set(*old(input))
        } else {
            just_pressed_set(*old(input)).insert(action)
        }),
        just_released_set(*final(input)) == just_released_set(*old(input)),
{
    input.press(action);
}

/// Relies on `bevy::input::Input::release`: removes the action from the
/// pressed set, and inserts it into the just-released set only if it was
/// pressed before.
#[verifier::external_body]
pub(crate) fn release_action(input: &mut Input<u32>, action: u32)
    ensures
        pressed_set(*final(input)) == pressed_set(*old(input)).remove(action),
        just_pressed_set(*final(input)) == just_pressed_set(*old(input)),
        just_released_set(*final(input)) == (if pressed_set(*old(input)).contains(action) {
            just_released_set(*old(input)).insert(action)
        } else {
            just_released_set(*old(input))
        }),
{
    input.release(action);
}

/// Relies on `bevy::input::Input::clear`: empties the just-pressed and
/// just-released sets and keeps the pressed set.
#[verifier::external_body]
pub(crate) fn clear_actions(input: &mut Input<u32>)
    ensures
        pressed_set(*final(input)) == pressed_set(*old(input)),
        just_pressed_set(*final(input)) == Set::<u32>::empty(),
        just_released_set(*final(input)) == Set::<u32>::empty(),
{
    input.clear();
}

/// Relies on `bevy::input::Input::pressed`: membership in the pressed set.
#[verifier::external_body]
pub(crate) fn action_pressed(input: &Input<u32>, action: u32) -> (r: bool)
    ensures
        r == pressed_set(*input).contains(action),
{
    input.pressed(action)
}

/// Relies on `bevy::input::Input::just_pressed`: membership in the
/// just-pressed set.
#[verifier::external_body]
pub(crate) fn action_just_pressed(input: &Input<u32>, action: u32) -> (r: bool)
    ensures
        r == just_pressed_set(*input).contains(action),
{
    input.just_pressed(action)
}

} // verus!
