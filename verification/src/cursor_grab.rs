//! Cursor grabbing: locking the cursor to the center of the window.
//!
//! `CursorGrab` is the state the application steers (a resource in the host
//! engine); `cursor_grab` decides, once per frame, whether the window's cursor
//! must be grabbed or released, and `toggle_cursor_grab` flips the state from
//! mouse and keyboard edges.

use vstd::prelude::*;

verus! {

/// Whether cursor grabbing is currently requested.
#[derive(Debug, Clone, Copy, PartialEq, Eq, Structural, Hash)]
pub enum CursorGrab {
    Active,
    Inactive,
}

impl CursorGrab {
    pub fn is_active(&self) -> (r: bool)
        ensures
            r == (*self is Active),
    {
        matches!(*self, CursorGrab::Active)
    }

    pub fn is_inactive(&self) -> (r: bool)
        ensures
            r == (*self is Inactive),
    {
        matches!(*self, CursorGrab::Inactive)
    }

    pub fn activate(&mut self)
        ensures
            *final(self) is Active,
    {
        *self = CursorGrab::Active;
    }

    pub fn deactivate(&mut self)
        ensures
            *final(self) is Inactive,
    {
        *self = CursorGrab::Inactive;
    }
}

/// A plugin to handle cursor grabbing. Initialized as inactive; the
/// `CursorGrab` state switches it between active and inactive. The host
/// wiring registers `cursor_grab`'s decision each frame.
pub struct CursorGrabPlugin;

/// What the window must do with the cursor this frame: lock it to the center
/// and hide it, release and show it, or leave it as it is.
#[derive(Debug, Clone, Copy, PartialEq, Eq, Structural)]
pub enum CursorAction {
    Grab,
    Release,
    Keep,
}

/// A window focus event, reduced to what the grab logic reads of it: whether
/// it concerns the primary window, and the focus it reports.
#[derive(Debug, Clone, Copy, PartialEq, Eq, Structural)]
pub struct FocusEvent {
    pub primary: bool,
    pub focused: bool,
}

/// Whether any of the frame's focus events concerns the primary window.
pub open spec fn spec_focus_changed(events: Seq<FocusEvent>) -> bool {
    exists|i: int| 0 <= i < events.len() && events[i].primary
}

/// The cursor action a frame calls for.
///
/// While grabbing is active, the cursor is grabbed when the state just became
/// active on a focused window, and follows focus otherwise: if focus on the
/// window is just lost the cursor is released, if it is just gained the
/// cursor is grabbed (this keeps alt-tabbing working). While inactive, a
/// still-grabbed cursor is released the moment the state changes.
pub open spec fn spec_cursor_grab(
    grab: CursorGrab,
    grab_changed: bool,
    focused: bool,
    currently_grabbed: bool,
    events: Seq<FocusEvent>,
) -> CursorAction {
    match grab {
        CursorGrab::Active => {
            if grab_changed && focused {
                CursorAction::Grab
            } else if spec_focus_changed(events) {
                if focused {
                    CursorAction::Grab
                } else {
                    CursorAction::Release
                }
            } else {
                CursorAction::Keep
            }
        },
        CursorGrab::Inactive => {
            if grab_changed && currently_grabbed {
                CursorAction::Release
            } else {
                CursorAction::Keep
            }
        },
    }
}

/// The sole decision of `CursorGrabPlugin`: what to do with the cursor this
/// frame, given the grab state, whether that state changed since the last
/// frame, the primary window's focus, whether its cursor is currently
/// grabbed, and the frame's focus events.
pub fn cursor_grab(
    grab: &CursorGrab,
    grab_changed: bool,
    focused: bool,
    currently_grabbed: bool,
    focus_events: &Vec<FocusEvent>,
) -> (action: CursorAction)
    ensures
        action == spec_cursor_grab(*grab, grab_changed, focused, currently_grabbed, focus_events@),
{
    match *grab {
        CursorGrab::Active => {
            if grab_changed && focused {
                return CursorAction::Grab;
            }
        },
        CursorGrab::Inactive => {
            if grab_changed && currently_grabbed {
                return CursorAction::Release;
            }
            return CursorAction::Keep;
        },
    }

    let mut focus_changed = false;
    let mut i: usize = 0;
    while i < focus_events.len()
        invariant
            0 <= i <= focus_events.len(),
            focus_changed == exists|j: int| 0 <= j < i && focus_events@[j].primary,
        decreases focus_events.len() - i,
    {
        let prim = focus_events[i].primary;
        if prim {
            focus_changed = true;
        }
        proof {
            if prim {
                assert(exists|j: int| 0 <= j < i as int + 1 && focus_events@[j].primary) by {
                    assert(focus_events@[i as int].primary);
                }
            } else if focus_changed {
                let j = choose|j: int| 0 <= j < i as int && focus_events@[j].primary;
                assert(exists|j: int| 0 <= j < i as int + 1 && focus_events@[j].primary) by {
                    assert(focus_events@[j].primary);
                }
            }
        }
        i = i + 1;
    }

    if focus_changed {
        if focused {
            CursorAction::Grab
        } else {
            CursorAction::Release
        }
    } else {
        CursorAction::Keep
    }
}

/// The grab state after one frame of toggling: a left mouse press activates
/// grabbing when it is inactive, and then an escape press deactivates it when
/// it is active, in that order within the frame.
pub open spec fn spec_toggle_cursor_grab(
    grab: CursorGrab,
    mouse_left_just_pressed: bool,
    escape_just_pressed: bool,
) -> CursorGrab {
    let grab1 = if mouse_left_just_pressed && grab is Inactive {
        CursorGrab::Active
    } else {
        grab
    };
    if escape_just_pressed && grab1 is Active {
        CursorGrab::Inactive
    } else {
        grab1
    }
}

/// Flips the grab state from this frame's input edges: left mouse button
/// just pressed activates, escape just pressed deactivates.
pub fn toggle_cursor_grab(
    grab: &mut CursorGrab,
    mouse_left_just_pressed: bool,
    escape_just_pressed: bool,
)
    ensures
        *final(grab) == spec_toggle_cursor_grab(
            *old(grab),
            mouse_left_just_pressed,
            escape_just_pressed,
        ),
{
    if mouse_left_just_pressed && grab.is_inactive() {
        grab.activate();
    }
    if escape_just_pressed && grab.is_active() {
        grab.deactivate();
    }
}

} // verus!
