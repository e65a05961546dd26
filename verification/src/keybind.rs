//! A generic keybinding remapper: raw device inputs (keys, mouse buttons) are
//! bound to semantic actions, and once per frame `map_keybinds` translates the
//! raw input state into debounced action state.
//!
//! Raw inputs are carried as plain codes: a key by the engine's key-code
//! number, a mouse button by its button number. Actions are carried as the
//! numbers the action enums of this crate give their variants.

use vstd::prelude::*;
use bevy::input::Input;
use crate::action_state::{
    actions_view, clear_actions, press_action, release_action, ActionsView,
};

verus! {

/// A raw device input: a key, by its key-code number, or a mouse button, by
/// its button number.
#[derive(Debug, Clone, Copy, PartialEq, Eq, Structural, Hash)]
pub enum RawInput {
    Key(u32),
    Mouse(u32),
}

/// A map from raw inputs to actions, kept as a vector of entries with unique
/// raw inputs, in the order the frame translation walks them.
pub struct KeyBindings {
    entries: Vec<(RawInput, u32)>,
}

/// The entries hold no raw input twice.
pub open spec fn unique_keys(s: Seq<(RawInput, u32)>) -> bool {
    forall|i: int, j: int| 0 <= i < j < s.len() ==> s[i].0 != s[j].0
}

/// Whether some entry binds the raw input `k`.
pub open spec fn has_key(s: Seq<(RawInput, u32)>, k: RawInput) -> bool {
    exists|i: int| 0 <= i < s.len() && s[i].0 == k
}

/// The map a sequence of entries stands for; later entries win.
pub open spec fn binds_map(s: Seq<(RawInput, u32)>) -> Map<RawInput, u32>
    decreases s.len(),
{
    if s.len() == 0 {
        Map::empty()
    } else {
        binds_map(s.drop_last()).insert(s.last().0, s.last().1)
    }
}

/// What `binds_map` gives on a sequence with unique raw inputs: its domain is
/// the bound raw inputs, and each entry's action is its value.
proof fn lemma_binds_map(s: Seq<(RawInput, u32)>)
    requires
        unique_keys(s),
    ensures
        forall|k: RawInput| #[trigger] binds_map(s).dom().contains(k) ==> has_key(s, k),
        forall|k: RawInput| #[trigger] has_key(s, k) ==> binds_map(s).dom().contains(k),
        forall|i: int| 0 <= i < s.len() ==> binds_map(s)[#[trigger] s[i].0] == s[i].1,
    decreases s.len(),
{
    if s.len() > 0 {
        let t = s.drop_last();
        let last = s.last();
        assert(unique_keys(t));
        lemma_binds_map(t);
        assert(binds_map(s) == binds_map(t).insert(last.0, last.1));
        assert forall|k: RawInput| #[trigger] binds_map(s).dom().contains(k) implies has_key(
            s,
            k,
        ) by {
            if k == last.0 {
                assert(s[s.len() - 1].0 == k);
            } else {
                assert(binds_map(t).dom().contains(k));
                assert(has_key(t, k));
                let i = choose|i: int| 0 <= i < t.len() && t[i].0 == k;
                assert(s[i].0 == k);
            }
        }
        assert forall|k: RawInput| #[trigger] has_key(s, k) implies binds_map(s).dom().contains(
            k,
        ) by {
            let i = choose|i: int| 0 <= i < s.len() && s[i].0 == k;
            if i < s.len() - 1 {
                assert(t[i].0 == k);
                assert(has_key(t, k));
            }
        }
        assert forall|i: int| 0 <= i < s.len() implies binds_map(s)[#[trigger] s[i].0]
            == s[i].1 by {
            if i < s.len() - 1 {
                assert(t[i] == s[i]);
                assert(s[i].0 != last.0);
                assert(binds_map(t)[t[i].0] == t[i].1);
            }
        }
    }
}

impl View for KeyBindings {
    type V = Map<RawInput, u32>;

    closed spec fn view(&self) -> Map<RawInput, u32> {
        binds_map(self.entries@)
    }
}

impl KeyBindings {
    /// The entries, in the order the frame translation walks them.
    pub closed spec fn binds_seq(self) -> Seq<(RawInput, u32)> {
        self.entries@
    }

    /// Each raw input is bound at most once.
    pub closed spec fn wf(self) -> bool {
        unique_keys(self.entries@)
    }

    /// An empty set of bindings.
    pub fn new() -> (r: KeyBindings)
        ensures
            r.wf(),
            r@ == Map::<RawInput, u32>::empty(),
            r.binds_seq() == Seq::<(RawInput, u32)>::empty(),
    {
        KeyBindings { entries: Vec::new() }
    }

    /// The index of the entry binding `input`, if any.
    fn position(&self, input: &RawInput) -> (r: Option<usize>)
        ensures
            match r {
                Some(i) => 0 <= i < self.binds_seq().len() && self.binds_seq()[i as int].0
                    == *input,
                None => !has_key(self.binds_seq(), *input),
            },
    {
        let mut i: usize = 0;
        while i < self.entries.len()
            invariant
                0 <= i <= self.entries.len(),
                forall|j: int| 0 <= j < i ==> self.entries@[j].0 != *input,
            decreases self.entries.len() - i,
        {
            if self.entries[i].0 == *input {
                return Some(i);
            }
            i = i + 1;
        }
        None
    }

    /// Clears the binding to the provided `input`.
    pub fn clear_bind(&mut self, input: RawInput)
        requires
            old(self).wf(),
        ensures
            final(self).wf(),
            final(self)@ == old(self)@.remove(input),
            !has_key(final(self).binds_seq(), input),
            !has_key(old(self).binds_seq(), input) ==> final(self).binds_seq() == old(
                self,
            ).binds_seq(),
    {
        proof {
            lemma_binds_map(self.entries@);
        }
        match self.position(&input) {
            Some(i) => {
                let ghost s = self.entries@;
                self.entries.remove(i);
                proof {
                    assert(self.entries@ =~= s.subrange(0, i as int) + s.subrange(
                        i as int + 1,
                        s.len() as int,
                    ));
                    assert forall|p: int, q: int|
                        0 <= p < q < self.entries@.len() implies self.entries@[p].0
                        != self.entries@[q].0 by {
                        let s2 = self.entries@;
                        let p0 = if p < i as int { p } else { p + 1 };
                        let q0 = if q < i as int { q } else { q + 1 };
                        assert(s2[p] == s[p0]);
                        assert(s2[q] == s[q0]);
                    }
                    lemma_binds_map(self.entries@);
                    assert forall|k: RawInput| #[trigger] has_key(self.entries@, k) implies k
                        != input && has_key(s, k) by {
                        let j = choose|j: int|
                            0 <= j < self.entries@.len() && self.entries@[j].0 == k;
                        let j0 = if j < i as int { j } else { j + 1 };
                        assert(s[j0].0 == k);
                        assert(j0 != i ==> s[j0].0 != s[i as int].0);
                    }
                    assert forall|k: RawInput| k != input && #[trigger] has_key(s, k) implies has_key(
                        self.entries@,
                        k,
                    ) && binds_map(self.entries@)[k] == binds_map(s)[k] by {
                        let j0 = choose|j0: int| 0 <= j0 < s.len() && s[j0].0 == k;
                        let j = if j0 < i as int { j0 } else { j0 - 1 };
                        assert(self.entries@[j] == s[j0]);
                        assert(self.entries@[j].0 == k);
                    }
                    assert(binds_map(self.entries@) =~= binds_map(s).remove(input));
                }
            },
            None => {
                proof {
                    assert(self@ =~= old(self)@.remove(input));
                }
            },
        }
    }

    /// Binds the provided `input` to the provided `bind`: any earlier binding
    /// of `input` is dropped, and the new entry comes last in the walk.
    pub fn bind(&mut self, input: RawInput, bind: u32)
        requires
            old(self).wf(),
        ensures
            final(self).wf(),
            final(self)@ == old(self)@.insert(input, bind),
            !has_key(old(self).binds_seq(), input) ==> final(self).binds_seq() == old(
                self,
            ).binds_seq().push((input, bind)),
    {
        self.clear_bind(input);
        let ghost s = self.entries@;
        self.entries.push((input, bind));
        proof {
            assert(self.entries@.drop_last() =~= s);
            assert forall|p: int, q: int|
                0 <= p < q < self.entries@.len() implies self.entries@[p].0
                != self.entries@[q].0 by {
                if q < self.entries@.len() - 1 {
                    assert(s[p].0 != s[q].0);
                } else {
                    assert(self.entries@[p].0 == s[p].0);
                    assert(!has_key(s, input));
                }
            }
            assert(binds_map(self.entries@) =~= old(self)@.insert(input, bind)) by {
                assert(binds_map(self.entries@) == binds_map(s).insert(input, bind));
                assert(binds_map(s) == old(self)@.remove(input));
                assert(old(self)@.remove(input).insert(input, bind) =~= old(self)@.insert(
                    input,
                    bind,
                ));
            }
        }
    }

    /// Clears the binding to the provided `input` then binds `input` to the
    /// provided `bind`.
    pub fn rebind(&mut self, input: RawInput, bind: u32)
        requires
            old(self).wf(),
        ensures
            final(self).wf(),
            final(self)@ == old(self)@.insert(input, bind),
    {
        self.clear_bind(input);
        self.bind(input, bind);
    }
}

impl Clone for KeyBindings {
    fn clone(&self) -> (r: KeyBindings)
        ensures
            r@ == self@,
            r.binds_seq() == self.binds_seq(),
            r.wf() == self.wf(),
    {
        let mut entries: Vec<(RawInput, u32)> = Vec::new();
        let mut i: usize = 0;
        while i < self.entries.len()
            invariant
                0 <= i <= self.entries.len(),
                entries@ == self.entries@.take(i as int),
            decreases self.entries.len() - i,
        {
            entries.push(self.entries[i]);
            proof {
                assert(self.entries@.take(i as int).push(self.entries@[i as int])
                    =~= self.entries@.take(i as int + 1));
            }
            i = i + 1;
        }
        proof {
            assert(entries@ =~= self.entries@);
        }
        KeyBindings { entries }
    }
}

/// The raw device state a frame hands to the translation: which key codes
/// and mouse buttons are pressed, and which have just been released.
pub struct RawSnapshot {
    pub pressed_keys: Vec<u32>,
    pub just_released_keys: Vec<u32>,
    pub pressed_mouse: Vec<u32>,
    pub just_released_mouse: Vec<u32>,
}

/// Whether the snapshot holds the raw input as pressed.
pub open spec fn spec_raw_pressed(snap: RawSnapshot, input: RawInput) -> bool {
    match input {
        RawInput::Key(k) => snap.pressed_keys@.contains(k),
        RawInput::Mouse(m) => snap.pressed_mouse@.contains(m),
    }
}

/// Whether the snapshot holds the raw input as just released.
pub open spec fn spec_raw_just_released(snap: RawSnapshot, input: RawInput) -> bool {
    match input {
        RawInput::Key(k) => snap.just_released_keys@.contains(k),
        RawInput::Mouse(m) => snap.just_released_mouse@.contains(m),
    }
}

/// Whether `codes` holds `code`.
fn contains_code(codes: &Vec<u32>, code: u32) -> (r: bool)
    ensures
        r == codes@.contains(code),
{
    let mut i: usize = 0;
    while i < codes.len()
        invariant
            0 <= i <= codes.len(),
            forall|j: int| 0 <= j < i ==> codes@[j] != code,
        decreases codes.len() - i,
    {
        if codes[i] == code {
            return true;
        }
        i = i + 1;
    }
    false
}

impl RawSnapshot {
    /// Whether the raw input is pressed.
    pub fn is_pressed(&self, input: &RawInput) -> (r: bool)
        ensures
            r == spec_raw_pressed(*self, *input),
    {
        match input {
            RawInput::Key(k) => contains_code(&self.pressed_keys, *k),
            RawInput::Mouse(m) => contains_code(&self.pressed_mouse, *m),
        }
    }

    /// Whether the raw input has just been released.
    pub fn is_just_released(&self, input: &RawInput) -> (r: bool)
        ensures
            r == spec_raw_just_released(*self, *input),
    {
        match input {
            RawInput::Key(k) => contains_code(&self.just_released_keys, *k),
            RawInput::Mouse(m) => contains_code(&self.just_released_mouse, *m),
        }
    }
}

/// An action-state press: the action joins the pressed set, and the
/// just-pressed set only if it was not pressed before.
pub open spec fn spec_press(v: ActionsView, action: u32) -> ActionsView {
    ActionsView {
        pressed: v.pressed.insert(action),
        just_pressed: if v.pressed.contains(action) {
            v.just_pressed
        } else {
            v.just_pressed.insert(action)
        },
        just_released: v.just_released,
    }
}

/// An action-state release: the action leaves the pressed set, and joins the
/// just-released set only if it was pressed before.
pub open spec fn spec_release(v: ActionsView, action: u32) -> ActionsView {
    ActionsView {
        pressed: v.pressed.remove(action),
        just_pressed: v.just_pressed,
        just_released: if v.pressed.contains(action) {
            v.just_released.insert(action)
        } else {
            v.just_released
        },
    }
}

/// A frame start: the just-pressed and just-released sets are emptied, the
/// pressed set is kept.
pub open spec fn spec_clear(v: ActionsView) -> ActionsView {
    ActionsView { pressed: v.pressed, just_pressed: Set::empty(), just_released: Set::empty() }
}

/// One binding's effect on the action state: a pressed raw input presses the
/// bound action, and a just-released raw input then releases it.
pub open spec fn spec_apply_bind(v: ActionsView, snap: RawSnapshot, entry: (RawInput, u32)) -> ActionsView {
    let v1 = if spec_raw_pressed(snap, entry.0) {
        spec_press(v, entry.1)
    } else {
        v
    };
    if spec_raw_just_released(snap, entry.0) {
        spec_release(v1, entry.1)
    } else {
        v1
    }
}

/// The action state after walking the entries in order, starting from `v`.
pub open spec fn spec_run_binds(
    v: ActionsView,
    snap: RawSnapshot,
    entries: Seq<(RawInput, u32)>,
) -> ActionsView
    decreases entries.len(),
{
    if entries.len() == 0 {
        v
    } else {
        spec_apply_bind(spec_run_binds(v, snap, entries.drop_last()), snap, entries.last())
    }
}

/// One frame of the keybinding remapper: the just-pressed and just-released
/// action sets are emptied, then each binding presses its action if its raw
/// input is pressed, and releases it if its raw input has just been released.
/// An action bound to a held raw input thus stays pressed but re-enters the
/// just-pressed set only on the frame the raw input went down.
pub fn map_keybinds(raw: &RawSnapshot, key_bindings: &KeyBindings, binds: &mut Input<u32>)
    ensures
        actions_view(*final(binds)) == spec_run_binds(
            spec_clear(actions_view(*old(binds))),
            *raw,
            key_bindings.binds_seq(),
        ),
{
    clear_actions(binds);
    let ghost start = actions_view(*binds);
    let ghost s = key_bindings.binds_seq();
    let mut i: usize = 0;
    while i < key_bindings.entries.len()
        invariant
            0 <= i <= key_bindings.entries.len(),
            s == key_bindings.binds_seq(),
            actions_view(*binds) == spec_run_binds(start, *raw, s.take(i as int)),
        decreases key_bindings.entries.len() - i,
    {
        let (input, action) = key_bindings.entries[i];
        let ghost before = actions_view(*binds);
        if raw.is_pressed(&input) {
            press_action(binds, action);
        }
        if raw.is_just_released(&input) {
            release_action(binds, action);
        }
        proof {
            assert(actions_view(*binds) == spec_apply_bind(before, *raw, s[i as int]));
            assert(s.take(i as int + 1).drop_last() =~= s.take(i as int));
            assert(s.take(i as int + 1).last() == s[i as int]);
        }
        i = i + 1;
    }
    proof {
        assert(s.take(s.len() as int) =~= s);
    }
}

/// Walking entries that never release `action` keeps a pressed action whose
/// just-pressed mark is absent pressed and unmarked.
proof fn lemma_no_retrigger(
    v: ActionsView,
    snap: RawSnapshot,
    entries: Seq<(RawInput, u32)>,
    action: u32,
)
    requires
        v.pressed.contains(action),
        !v.just_pressed.contains(action),
        forall|i: int|
            0 <= i < entries.len() && (#[trigger] entries[i]).1 == action
                ==> !spec_raw_just_released(snap, entries[i].0),
    ensures
        spec_run_binds(v, snap, entries).pressed.contains(action),
        !spec_run_binds(v, snap, entries).just_pressed.contains(action),
    decreases entries.len(),
{
    if entries.len() > 0 {
        let t = entries.drop_last();
        assert forall|i: int|
            0 <= i < t.len() && (#[trigger] t[i]).1 == action implies !spec_raw_just_released(
            snap,
            t[i].0,
        ) by {
            assert(t[i] == entries[i]);
        }
        lemma_no_retrigger(v, snap, t, action);
        assert(entries[entries.len() - 1] == entries.last());
    }
}

/// Walking entries that never release `action` leaves it pressed exactly when
/// it started pressed or some entry binds a pressed raw input to it.
proof fn lemma_pressed_no_release(
    v: ActionsView,
    snap: RawSnapshot,
    entries: Seq<(RawInput, u32)>,
    action: u32,
)
    requires
        forall|i: int|
            0 <= i < entries.len() && (#[trigger] entries[i]).1 == action
                ==> !spec_raw_just_released(snap, entries[i].0),
    ensures
        spec_run_binds(v, snap, entries).pressed.contains(action) == (v.pressed.contains(action)
            || exists|i: int|
            0 <= i < entries.len() && (#[trigger] entries[i]).1 == action && spec_raw_pressed(
                snap,
                entries[i].0,
            )),
    decreases entries.len(),
{
    if entries.len() > 0 {
        let t = entries.drop_last();
        let e = entries.last();
        assert forall|i: int|
            0 <= i < t.len() && (#[trigger] t[i]).1 == action implies !spec_raw_just_released(
            snap,
            t[i].0,
        ) by {
            assert(t[i] == entries[i]);
        }
        lemma_pressed_no_release(v, snap, t, action);
        assert(entries[entries.len() - 1] == e);
        let presser_in_t = exists|i: int|
            0 <= i < t.len() && (#[trigger] t[i]).1 == action && spec_raw_pressed(snap, t[i].0);
        let presser = exists|i: int|
            0 <= i < entries.len() && (#[trigger] entries[i]).1 == action && spec_raw_pressed(
                snap,
                entries[i].0,
            );
        assert(presser == (presser_in_t || (e.1 == action && spec_raw_pressed(snap, e.0)))) by {
            if presser {
                let i = choose|i: int|
                    0 <= i < entries.len() && (#[trigger] entries[i]).1 == action
                        && spec_raw_pressed(snap, entries[i].0);
                if i < entries.len() - 1 {
                    assert(t[i] == entries[i]);
                }
            }
            if presser_in_t {
                let i = choose|i: int|
                    0 <= i < t.len() && (#[trigger] t[i]).1 == action && spec_raw_pressed(
                        snap,
                        t[i].0,
                    );
                assert(entries[i] == t[i]);
            }
        }
    }
}

/// An action once marked just-pressed keeps the mark through the walk.
proof fn lemma_just_pressed_stays(
    v: ActionsView,
    snap: RawSnapshot,
    entries: Seq<(RawInput, u32)>,
    action: u32,
)
    requires
        v.just_pressed.contains(action),
    ensures
        spec_run_binds(v, snap, entries).just_pressed.contains(action),
    decreases entries.len(),
{
    if entries.len() > 0 {
        lemma_just_pressed_stays(v, snap, entries.drop_last(), action);
    }
}

/// Law: a held action does not retrigger. If an action is pressed when the
/// frame starts, and no binding of it sees a raw release this frame, the walk
/// leaves it pressed and outside the just-pressed set.
pub proof fn lemma_held_action_does_not_retrigger(
    v: ActionsView,
    snap: RawSnapshot,
    entries: Seq<(RawInput, u32)>,
    action: u32,
)
    requires
        v.pressed.contains(action),
        forall|i: int|
            0 <= i < entries.len() && (#[trigger] entries[i]).1 == action
                ==> !spec_raw_just_released(snap, entries[i].0),
    ensures
        spec_run_binds(spec_clear(v), snap, entries).pressed.contains(action),
        !spec_run_binds(spec_clear(v), snap, entries).just_pressed.contains(action),
{
    lemma_no_retrigger(spec_clear(v), snap, entries, action);
}

/// Law: a fresh press is an edge. If an action is not pressed when the frame
/// starts, some entry binds a pressed raw input to it, and no binding of it
/// sees a raw release, the walk leaves it both pressed and just-pressed.
pub proof fn lemma_new_press_triggers(
    v: ActionsView,
    snap: RawSnapshot,
    entries: Seq<(RawInput, u32)>,
    action: u32,
)
    requires
        !v.pressed.contains(action),
        exists|i: int|
            0 <= i < entries.len() && (#[trigger] entries[i]).1 == action && spec_raw_pressed(
                snap,
                entries[i].0,
            ),
        forall|i: int|
            0 <= i < entries.len() && (#[trigger] entries[i]).1 == action
                ==> !spec_raw_just_released(snap, entries[i].0),
    ensures
        spec_run_binds(spec_clear(v), snap, entries).pressed.contains(action),
        spec_run_binds(spec_clear(v), snap, entries).just_pressed.contains(action),
{
    lemma_pressed_no_release(spec_clear(v), snap, entries, action);
    lemma_edge_marks(spec_clear(v), snap, entries, action);
}

/// Walking entries that never press `action`: a raw release of some binding
/// of a pressed action unpresses and marks it, and without one both
/// memberships are kept.
proof fn lemma_release_helper(
    v: ActionsView,
    snap: RawSnapshot,
    entries: Seq<(RawInput, u32)>,
    action: u32,
)
    requires
        v.pressed.contains(action),
        forall|i: int|
            0 <= i < entries.len() && (#[trigger] entries[i]).1 == action ==> !spec_raw_pressed(
                snap,
                entries[i].0,
            ),
    ensures
        (exists|i: int|
            0 <= i < entries.len() && (#[trigger] entries[i]).1 == action
                && spec_raw_just_released(snap, entries[i].0)) ==> (!spec_run_binds(
            v,
            snap,
            entries,
        ).pressed.contains(action) && spec_run_binds(v, snap, entries).just_released.contains(
            action,
        )),
        !(exists|i: int|
            0 <= i < entries.len() && (#[trigger] entries[i]).1 == action
                && spec_raw_just_released(snap, entries[i].0)) ==> (spec_run_binds(
            v,
            snap,
            entries,
        ).pressed.contains(action) && spec_run_binds(v, snap, entries).just_released.contains(
            action,
        ) == v.just_released.contains(action)),
    decreases entries.len(),
{
    if entries.len() > 0 {
        let t = entries.drop_last();
        let e = entries.last();
        assert(entries[entries.len() - 1] == e);
        assert forall|i: int|
            0 <= i < t.len() && (#[trigger] t[i]).1 == action implies !spec_raw_pressed(
            snap,
            t[i].0,
        ) by {
            assert(t[i] == entries[i]);
        }
        lemma_release_helper(v, snap, t, action);
        let releaser = exists|i: int|
            0 <= i < entries.len() && (#[trigger] entries[i]).1 == action
                && spec_raw_just_released(snap, entries[i].0);
        let releaser_in_t = exists|i: int|
            0 <= i < t.len() && (#[trigger] t[i]).1 == action && spec_raw_just_released(
                snap,
                t[i].0,
            );
        assert(releaser == (releaser_in_t || (e.1 == action && spec_raw_just_released(
            snap,
            e.0,
        )))) by {
            if releaser {
                let i = choose|i: int|
                    0 <= i < entries.len() && (#[trigger] entries[i]).1 == action
                        && spec_raw_just_released(snap, entries[i].0);
                if i < entries.len() - 1 {
                    assert(t[i] == entries[i]);
                }
            }
            if releaser_in_t {
                let i = choose|i: int|
                    0 <= i < t.len() && (#[trigger] t[i]).1 == action && spec_raw_just_released(
                        snap,
                        t[i].0,
                    );
                assert(entries[i] == t[i]);
            }
        }
    }
}

/// Law: a raw release is an edge out. If an action is pressed when the frame
/// starts, some entry binding it sees a raw release, and no entry binding it
/// sees a raw press, the walk leaves it unpressed and just-released.
pub proof fn lemma_release_unpresses(
    v: ActionsView,
    snap: RawSnapshot,
    entries: Seq<(RawInput, u32)>,
    action: u32,
)
    requires
        v.pressed.contains(action),
        exists|i: int|
            0 <= i < entries.len() && (#[trigger] entries[i]).1 == action
                && spec_raw_just_released(snap, entries[i].0),
        forall|i: int|
            0 <= i < entries.len() && (#[trigger] entries[i]).1 == action ==> !spec_raw_pressed(
                snap,
                entries[i].0,
            ),
    ensures
        !spec_run_binds(spec_clear(v), snap, entries).pressed.contains(action),
        spec_run_binds(spec_clear(v), snap, entries).just_released.contains(action),
{
    lemma_release_helper(spec_clear(v), snap, entries, action);
}

/// Walking entries that never mention `action` changes none of its three
/// memberships.
proof fn lemma_untouched_helper(
    v: ActionsView,
    snap: RawSnapshot,
    entries: Seq<(RawInput, u32)>,
    action: u32,
)
    requires
        forall|i: int| 0 <= i < entries.len() ==> (#[trigger] entries[i]).1 != action,
    ensures
        spec_run_binds(v, snap, entries).pressed.contains(action) == v.pressed.contains(action),
        spec_run_binds(v, snap, entries).just_pressed.contains(action) == v.just_pressed.contains(
            action,
        ),
        spec_run_binds(v, snap, entries).just_released.contains(action)
            == v.just_released.contains(action),
    decreases entries.len(),
{
    if entries.len() > 0 {
        let t = entries.drop_last();
        assert forall|i: int| 0 <= i < t.len() implies (#[trigger] t[i]).1 != action by {
            assert(t[i] == entries[i]);
        }
        lemma_untouched_helper(v, snap, t, action);
        assert(entries[entries.len() - 1] == entries.last());
    }
}

/// Law: the walk touches only bound actions. An action no entry binds keeps
/// its pressed membership and ends the frame with both edge marks clear.
pub proof fn lemma_unbound_action_untouched(
    v: ActionsView,
    snap: RawSnapshot,
    entries: Seq<(RawInput, u32)>,
    action: u32,
)
    requires
        forall|i: int| 0 <= i < entries.len() ==> (#[trigger] entries[i]).1 != action,
    ensures
        spec_run_binds(spec_clear(v), snap, entries).pressed.contains(action)
            == v.pressed.contains(action),
        !spec_run_binds(spec_clear(v), snap, entries).just_pressed.contains(action),
        !spec_run_binds(spec_clear(v), snap, entries).just_released.contains(action),
{
    lemma_untouched_helper(spec_clear(v), snap, entries, action);
}

/// The just-pressed part of the edge law, from any start without the action
/// pressed or marked.
proof fn lemma_edge_marks(
    v: ActionsView,
    snap: RawSnapshot,
    entries: Seq<(RawInput, u32)>,
    action: u32,
)
    requires
        !v.pressed.contains(action),
        exists|i: int|
            0 <= i < entries.len() && (#[trigger] entries[i]).1 == action && spec_raw_pressed(
                snap,
                entries[i].0,
            ),
        forall|i: int|
            0 <= i < entries.len() && (#[trigger] entries[i]).1 == action
                ==> !spec_raw_just_released(snap, entries[i].0),
    ensures
        spec_run_binds(v, snap, entries).just_pressed.contains(action),
    decreases entries.len(),
{
    assert(entries.len() > 0) by {
        let i = choose|i: int|
            0 <= i < entries.len() && (#[trigger] entries[i]).1 == action && spec_raw_pressed(
                snap,
                entries[i].0,
            );
    }
    let t = entries.drop_last();
    let e = entries.last();
    assert(entries[entries.len() - 1] == e);
    assert(spec_run_binds(v, snap, entries) == spec_apply_bind(
        spec_run_binds(v, snap, t),
        snap,
        e,
    ));
    assert forall|i: int|
        0 <= i < t.len() && (#[trigger] t[i]).1 == action implies !spec_raw_just_released(
        snap,
        t[i].0,
    ) by {
        assert(t[i] == entries[i]);
    }
    let presser_in_t = exists|i: int|
        0 <= i < t.len() && (#[trigger] t[i]).1 == action && spec_raw_pressed(snap, t[i].0);
    if presser_in_t {
        lemma_edge_marks(v, snap, t, action);
    } else {
        let i = choose|i: int|
            0 <= i < entries.len() && (#[trigger] entries[i]).1 == action && spec_raw_pressed(
                snap,
                entries[i].0,
            );
        assert(i == entries.len() - 1) by {
            if i < entries.len() - 1 {
                assert(t[i] == entries[i]);
            }
        }
        lemma_pressed_no_release(v, snap, t, action);
        assert(!spec_run_binds(v, snap, t).pressed.contains(action));
    }
}

impl Default for KeyBindings {
    fn default() -> (r: KeyBindings)
        ensures
            r.wf(),
            r@ == Map::<RawInput, u32>::empty(),
            r.binds_seq() == Seq::<(RawInput, u32)>::empty(),
    {
        KeyBindings::new()
    }
}

/// The keybinding plugin's configuration: the bindings the host wiring
/// installs, so that `map_keybinds` runs on them each frame, right after the
/// engine gathers raw input.
pub struct KeyBindingPlugin {
    binds: KeyBindings,
}

impl View for KeyBindingPlugin {
    type V = Map<RawInput, u32>;

    closed spec fn view(&self) -> Map<RawInput, u32> {
        self.binds@
    }
}

impl KeyBindingPlugin {
    /// The bindings, as the walk sees them.
    pub closed spec fn binds_seq(self) -> Seq<(RawInput, u32)> {
        self.binds.binds_seq()
    }

    /// Each raw input is bound at most once.
    pub closed spec fn wf(self) -> bool {
        self.binds.wf()
    }

    /// A plugin without any bindings.
    pub fn new() -> (r: KeyBindingPlugin)
        ensures
            r.wf(),
            r@ == Map::<RawInput, u32>::empty(),
            r.binds_seq() == Seq::<(RawInput, u32)>::empty(),
    {
        KeyBindingPlugin { binds: KeyBindings::new() }
    }

    /// Binds the provided `input` to the provided `bind`.
    pub fn bind(self, input: RawInput, bind: u32) -> (r: KeyBindingPlugin)
        requires
            self.wf(),
        ensures
            r.wf(),
            r@ == self@.insert(input, bind),
            !has_key(self.binds_seq(), input) ==> r.binds_seq() == self.binds_seq().push(
                (input, bind),
            ),
    {
        let mut binds = self.binds;
        binds.bind(input, bind);
        KeyBindingPlugin { binds }
    }

    /// Clears the binding to the provided `input`.
    pub fn clear_bind(self, input: RawInput) -> (r: KeyBindingPlugin)
        requires
            self.wf(),
        ensures
            r.wf(),
            r@ == self@.remove(input),
    {
        let mut binds = self.binds;
        binds.clear_bind(input);
        KeyBindingPlugin { binds }
    }

    /// Clears the binding to the provided `input` then binds `input` to the
    /// provided `bind`.
    pub fn rebind(&mut self, input: RawInput, bind: u32)
        requires
            old(self).wf(),
        ensures
            final(self).wf(),
            final(self)@ == old(self)@.insert(input, bind),
    {
        self.binds.rebind(input, bind);
    }

    /// The bindings the plugin installs.
    pub fn bindings(&self) -> (r: &KeyBindings)
        ensures
            r@ == self@,
            r.binds_seq() == self.binds_seq(),
            r.wf() == self.wf(),
    {
        &self.binds
    }
}

impl Clone for KeyBindingPlugin {
    fn clone(&self) -> (r: KeyBindingPlugin)
        ensures
            r@ == self@,
            r.binds_seq() == self.binds_seq(),
            r.wf() == self.wf(),
    {
        KeyBindingPlugin { binds: self.binds.clone() }
    }
}

impl Default for KeyBindingPlugin {
    fn default() -> (r: KeyBindingPlugin)
        ensures
            r.wf(),
            r@ == Map::<RawInput, u32>::empty(),
            r.binds_seq() == Seq::<(RawInput, u32)>::empty(),
    {
        KeyBindingPlugin::new()
    }
}

} // verus!
