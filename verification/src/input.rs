//! Input state accumulated from host mouse and keyboard events.
//!
//! The host event loop delivers raw events through the `handle_*` callbacks;
//! queries are pure membership checks.  Two pieces of state are frame-scoped:
//! the set of keys pressed this frame and the wheel delta, both reset by
//! `handle_end_frame`, which the host must call exactly once per frame.

use vstd::prelude::*;

verus! {

/// A native key code, as delivered by the host windowing or browser event
/// source.  The handler never interprets the code; it only stores it.
#[derive(Clone, Copy, PartialEq, Eq, Structural, Hash, Debug)]
pub struct KeyCode(pub u32);

/// A mouse button, mapped by the host from its native button enumeration.
#[derive(Clone, Copy, PartialEq, Eq, Structural, Hash, Debug)]
pub enum MouseButton {
    Left,
    Middle,
    Right,
    Button4,
    Button5,
}

/// The abstract state of the input handler: the sets of held keys, keys
/// pressed this frame and held mouse buttons, the last mouse position, and
/// the wheel delta of the current frame (the bit pattern of a 32-bit float,
/// stored but never interpreted here).
#[verifier::ext_equal]
pub struct InputState {
    pub keys: Set<KeyCode>,
    pub frame_keys: Set<KeyCode>,
    pub mouse_keys: Set<MouseButton>,
    pub mouse_x: i32,
    pub mouse_y: i32,
    pub wheel: u32,
}

/// One event delivered by the host event loop, or the once-per-frame
/// boundary mark.
#[derive(Clone, Copy, PartialEq, Eq, Structural, Debug)]
pub enum InputEvent {
    KeyDown(KeyCode),
    KeyUp(KeyCode),
    MouseDown(MouseButton),
    MouseUp(MouseButton),
    MouseMove(i32, i32),
    MouseWheel(u32),
    EndFrame,
}

/// The state of a handler that has seen no events.
pub open spec fn init_state() -> InputState {
    InputState {
        keys: Set::empty(),
        frame_keys: Set::empty(),
        mouse_keys: Set::empty(),
        mouse_x: 0,
        mouse_y: 0,
        wheel: 0,
    }
}

/// A key press enters both the held set and the pressed-this-frame set.
pub open spec fn spec_key_down(s: InputState, k: KeyCode) -> InputState {
    InputState { keys: s.keys.insert(k), frame_keys: s.frame_keys.insert(k), ..s }
}

/// A key release leaves only the held set; the pressed-this-frame set keeps
/// the key until the frame ends.
pub open spec fn spec_key_up(s: InputState, k: KeyCode) -> InputState {
    InputState { keys: s.keys.remove(k), ..s }
}

pub open spec fn spec_mouse_down(s: InputState, b: MouseButton) -> InputState {
    InputState { mouse_keys: s.mouse_keys.insert(b), ..s }
}

pub open spec fn spec_mouse_up(s: InputState, b: MouseButton) -> InputState {
    InputState { mouse_keys: s.mouse_keys.remove(b), ..s }
}

pub open spec fn spec_mouse_move(s: InputState, x: i32, y: i32) -> InputState {
    InputState { mouse_x: x, mouse_y: y, ..s }
}

/// The wheel delta is overwritten, not accumulated: within a frame the last
/// event wins.
pub open spec fn spec_mouse_wheel(s: InputState, delta: u32) -> InputState {
    InputState { wheel: delta, ..s }
}

/// The frame boundary clears the frame-scoped state and nothing else.
pub open spec fn spec_end_frame(s: InputState) -> InputState {
    InputState { frame_keys: Set::empty(), wheel: 0, ..s }
}

/// The meaning of one event on the abstract state.
pub open spec fn spec_step(s: InputState, e: InputEvent) -> InputState {
    match e {
        InputEvent::KeyDown(k) => spec_key_down(s, k),
        InputEvent::KeyUp(k) => spec_key_up(s, k),
        InputEvent::MouseDown(b) => spec_mouse_down(s, b),
        InputEvent::MouseUp(b) => spec_mouse_up(s, b),
        InputEvent::MouseMove(x, y) => spec_mouse_move(s, x, y),
        InputEvent::MouseWheel(d) => spec_mouse_wheel(s, d),
        InputEvent::EndFrame => spec_end_frame(s),
    }
}

/// The state after a whole sequence of events.
pub open spec fn spec_run(s: InputState, evs: Seq<InputEvent>) -> InputState
    decreases evs.len(),
{
    if evs.len() == 0 {
        s
    } else {
        spec_step(spec_run(s, evs.drop_last()), evs.last())
    }
}

/// Accumulates raw input events into simple queryable per-frame state.
///
/// The key and button sets are held as duplicate-free vectors; the abstract
/// value of a handler is the [`InputState`] given by its view.
pub struct InputHandler {
    /// Keys currently held down.
    pub keys: Vec<KeyCode>,
    /// Keys pressed since the last frame boundary.
    pub frame_keys: Vec<KeyCode>,
    /// Mouse buttons currently held down.
    pub mouse_keys: Vec<MouseButton>,
    /// Last reported mouse x position, in whole pixels.
    pub mouse_x: i32,
    /// Last reported mouse y position, in whole pixels.
    pub mouse_y: i32,
    /// Wheel delta of the current frame: the bit pattern of a 32-bit float,
    /// written by the host and never interpreted here.
    pub wheel: u32,
}

impl View for InputHandler {
    type V = InputState;

    open spec fn view(&self) -> InputState {
        InputState {
            keys: self.keys@.to_set(),
            frame_keys: self.frame_keys@.to_set(),
            mouse_keys: self.mouse_keys@.to_set(),
            mouse_x: self.mouse_x,
            mouse_y: self.mouse_y,
            wheel: self.wheel,
        }
    }
}

impl InputHandler {
    /// The sets never hold an element twice.
    pub open spec fn wf(&self) -> bool {
        &&& self.keys@.no_duplicates()
        &&& self.frame_keys@.no_duplicates()
        &&& self.mouse_keys@.no_duplicates()
    }

    /// A fresh handler: nothing held, nothing pressed, everything zero.
    pub fn new() -> (handler: InputHandler)
        ensures
            handler.wf(),
            handler@ == init_state(),
    {
        let handler = InputHandler {
            keys: Vec::new(),
            frame_keys: Vec::new(),
            mouse_keys: Vec::new(),
            mouse_x: 0,
            mouse_y: 0,
            wheel: 0,
        };
        proof {
            assert(handler@.keys =~= init_state().keys);
            assert(handler@.frame_keys =~= init_state().frame_keys);
            assert(handler@.mouse_keys =~= init_state().mouse_keys);
            assert(handler@ =~= init_state());
        }
        handler
    }

    /// Overwrites the stored mouse position.
    pub fn handle_mouse_move(&mut self, mouse_x: i32, mouse_y: i32)
        requires
            old(self).wf(),
        ensures
            final(self).wf(),
            final(self)@ == spec_mouse_move(old(self)@, mouse_x, mouse_y),
    {
        self.mouse_x = mouse_x;
        self.mouse_y = mouse_y;
        proof {
            assert(final(self)@ =~= spec_mouse_move(old(self)@, mouse_x, mouse_y));
        }
    }

    /// Adds the button to the held set.
    pub fn handle_mouse_down(&mut self, button: MouseButton)
        requires
            old(self).wf(),
        ensures
            final(self).wf(),
            final(self)@ == spec_mouse_down(old(self)@, button),
    {
        insert_button(&mut self.mouse_keys, button);
        proof {
            assert(final(self)@ =~= spec_mouse_down(old(self)@, button));
        }
    }

    /// Removes the button from the held set.
    pub fn handle_mouse_up(&mut self, button: MouseButton)
        requires
            old(self).wf(),
        ensures
            final(self).wf(),
            final(self)@ == spec_mouse_up(old(self)@, button),
    {
        remove_button(&mut self.mouse_keys, button);
        proof {
            assert(final(self)@ =~= spec_mouse_up(old(self)@, button));
        }
    }

    /// Adds the key to both the held set and the pressed-this-frame set.
    pub fn handle_key_down(&mut self, keycode: KeyCode)
        requires
            old(self).wf(),
        ensures
            final(self).wf(),
            final(self)@ == spec_key_down(old(self)@, keycode),
    {
        insert_key(&mut self.keys, keycode);
        insert_key(&mut self.frame_keys, keycode);
        proof {
            assert(final(self)@ =~= spec_key_down(old(self)@, keycode));
        }
    }

    /// Removes the key from the held set only: whether it was pressed this
    /// frame is remembered until the frame ends.
    pub fn handle_key_up(&mut self, keycode: KeyCode)
        requires
            old(self).wf(),
        ensures
            final(self).wf(),
            final(self)@ == spec_key_up(old(self)@, keycode),
    {
        remove_key(&mut self.keys, keycode);
        proof {
            assert(final(self)@ =~= spec_key_up(old(self)@, keycode));
        }
    }

    /// Overwrites the wheel delta: the last event within a frame wins.
    pub fn handle_mouse_wheel(&mut self, delta_y: u32)
        requires
            old(self).wf(),
        ensures
            final(self).wf(),
            final(self)@ == spec_mouse_wheel(old(self)@, delta_y),
    {
        self.wheel = delta_y;
        proof {
            assert(final(self)@ =~= spec_mouse_wheel(old(self)@, delta_y));
        }
    }

    /// Marks the frame boundary: clears the pressed-this-frame set and the
    /// wheel delta.  The host loop must call this exactly once per frame.
    pub fn handle_end_frame(&mut self)
        requires
            old(self).wf(),
        ensures
            final(self).wf(),
            final(self)@ == spec_end_frame(old(self)@),
    {
        self.frame_keys.clear();
        self.wheel = 0;
        proof {
            assert(final(self)@.frame_keys =~= spec_end_frame(old(self)@).frame_keys);
            assert(final(self)@ =~= spec_end_frame(old(self)@));
        }
    }

    /// Whether the key is currently held down.
    pub fn is_key_pressed(&self, keycode: KeyCode) -> (held: bool)
        ensures
            held == self@.keys.contains(keycode),
    {
        contains_key(&self.keys, keycode)
    }

    /// Whether the key was pressed since the last frame boundary.
    pub fn is_key_down(&self, keycode: KeyCode) -> (pressed: bool)
        ensures
            pressed == self@.frame_keys.contains(keycode),
    {
        contains_key(&self.frame_keys, keycode)
    }

    /// Whether the mouse button is currently held down.
    pub fn is_mouse_key_down(&self, key: &MouseButton) -> (held: bool)
        ensures
            held == self@.mouse_keys.contains(*key),
    {
        contains_button(&self.mouse_keys, *key)
    }
}

/// A key pressed and not released stays visible to `is_key_pressed` across
/// any events that do not release it, while the frame boundary alone hides it
/// from `is_key_down`; releasing it removes it from the held set.
pub proof fn lemma_key_visible_until_key_up(
    s: InputState,
    k: KeyCode,
    evs: Seq<InputEvent>,
)
    requires
        forall|i: int| 0 <= i < evs.len() ==> evs[i] != InputEvent::KeyUp(k),
    ensures
        spec_run(spec_key_down(s, k), evs).keys.contains(k),
        !spec_end_frame(spec_key_down(s, k)).frame_keys.contains(k),
        !spec_key_up(spec_run(spec_key_down(s, k), evs), k).keys.contains(k),
    decreases evs.len(),
{
    if evs.len() > 0 {
        lemma_key_visible_until_key_up(s, k, evs.drop_last());
        let mid = spec_run(spec_key_down(s, k), evs.drop_last());
        assert(evs[evs.len() - 1] != InputEvent::KeyUp(k));
        match evs.last() {
            InputEvent::KeyUp(k2) => {
                assert(k2 != k);
                assert(spec_key_up(mid, k2).keys.contains(k));
            },
            _ => {},
        }
    }
}

/// Within one frame the last wheel event wins, and the frame boundary resets
/// the delta to zero.
pub proof fn lemma_wheel_last_write_wins(s: InputState, first: u32, second: u32)
    ensures
        spec_mouse_wheel(spec_mouse_wheel(s, first), second).wheel == second,
        spec_end_frame(spec_mouse_wheel(spec_mouse_wheel(s, first), second)).wheel == 0,
{
}

/// A pressed mouse button is held exactly until it is released.
pub proof fn lemma_mouse_down_until_up(s: InputState, b: MouseButton)
    ensures
        spec_mouse_down(s, b).mouse_keys.contains(b),
        !spec_mouse_up(spec_mouse_down(s, b), b).mouse_keys.contains(b),
{
}

/// Pushing an element a duplicate-free sequence lacks keeps it duplicate-free
/// and adds exactly that element to the set of members.
proof fn lemma_push_absent<T>(s: Seq<T>, x: T)
    requires
        s.no_duplicates(),
        !s.contains(x),
    ensures
        s.push(x).no_duplicates(),
        s.push(x).to_set() == s.to_set().insert(x),
{
    assert forall|i: int, j: int| 0 <= i < j < s.push(x).len() implies s.push(x)[i] != s.push(
        x,
    )[j] by {
        if j < s.len() {
            assert(s.push(x)[i] == s[i] && s.push(x)[j] == s[j]);
        } else {
            assert(s.push(x)[j] == x);
            assert(s.push(x)[i] == s[i]);
            assert(!(exists|m: int| 0 <= m < s.len() && s[m] == x));
        }
    }
    assert forall|y: T| s.push(x).to_set().contains(y) implies s.to_set().insert(x).contains(
        y,
    ) by {
        let i = choose|i: int| 0 <= i < s.push(x).len() && s.push(x)[i] == y;
        if i < s.len() {
            assert(s[i] == y);
        }
    }
    assert forall|y: T| s.to_set().insert(x).contains(y) implies s.push(x).to_set().contains(
        y,
    ) by {
        if y == x {
            assert(s.push(x)[s.len() as int] == y);
        } else {
            let i = choose|i: int| 0 <= i < s.len() && s[i] == y;
            assert(s.push(x)[i] == y);
        }
    }
    assert(s.push(x).to_set() =~= s.to_set().insert(x));
}

/// Removing the one index holding an element of a duplicate-free sequence
/// keeps it duplicate-free and removes exactly that element from the set of
/// members.
proof fn lemma_remove_present<T>(s: Seq<T>, i: int)
    requires
        s.no_duplicates(),
        0 <= i < s.len(),
    ensures
        s.remove(i).no_duplicates(),
        s.remove(i).to_set() == s.to_set().remove(s[i]),
{
    let r = s.remove(i);
    s.remove_ensures(i);
    assert forall|a: int, b: int| 0 <= a < b < r.len() implies r[a] != r[b] by {
        if b < i {
            assert(r[a] == s[a] && r[b] == s[b]);
        } else if a < i {
            assert(r[a] == s[a] && r[b] == s[b + 1]);
        } else {
            assert(r[a] == s[a + 1] && r[b] == s[b + 1]);
        }
    }
    assert forall|y: T| r.to_set().contains(y) implies s.to_set().remove(s[i]).contains(y) by {
        let a = choose|a: int| 0 <= a < r.len() && r[a] == y;
        if a < i {
            assert(s[a] == y);
            assert(s[a] != s[i]);
        } else {
            assert(s[a + 1] == y);
            assert(s[a + 1] != s[i]);
        }
    }
    assert forall|y: T| s.to_set().remove(s[i]).contains(y) implies r.to_set().contains(y) by {
        let a = choose|a: int| 0 <= a < s.len() && s[a] == y;
        assert(a != i);
        if a < i {
            assert(r[a] == y);
        } else {
            assert(r[a - 1] == y);
        }
    }
    assert(r.to_set() =~= s.to_set().remove(s[i]));
}

/// An element absent from a sequence is absent from its set of members.
proof fn lemma_absent<T>(s: Seq<T>, x: T)
    requires
        !s.contains(x),
    ensures
        s.to_set().remove(x) == s.to_set(),
        !s.to_set().contains(x),
{
    assert(s.to_set().remove(x) =~= s.to_set());
}

fn contains_key(v: &Vec<KeyCode>, k: KeyCode) -> (found: bool)
    ensures
        found == v@.contains(k),
{
    let mut i: usize = 0;
    while i < v.len()
        invariant
            0 <= i <= v@.len(),
            forall|j: int| 0 <= j < i ==> v@[j] != k,
        decreases v@.len() - i,
    {
        if v[i] == k {
            return true;
        }
        i += 1;
    }
    false
}

fn contains_button(v: &Vec<MouseButton>, b: MouseButton) -> (found: bool)
    ensures
        found == v@.contains(b),
{
    let mut i: usize = 0;
    while i < v.len()
        invariant
            0 <= i <= v@.len(),
            forall|j: int| 0 <= j < i ==> v@[j] != b,
        decreases v@.len() - i,
    {
        if v[i] == b {
            return true;
        }
        i += 1;
    }
    false
}

/// Inserts the key unless it is already present, so the sequence stays
/// duplicate-free.
fn insert_key(v: &mut Vec<KeyCode>, k: KeyCode)
    requires
        old(v)@.no_duplicates(),
    ensures
        final(v)@.no_duplicates(),
        final(v)@.to_set() == old(v)@.to_set().insert(k),
{
    if !contains_key(v, k) {
        proof {
            lemma_push_absent(v@, k);
        }
        v.push(k);
    } else {
        proof {
            assert(v@.to_set().contains(k));
            assert(v@.to_set().insert(k) =~= v@.to_set());
        }
    }
}

fn insert_button(v: &mut Vec<MouseButton>, b: MouseButton)
    requires
        old(v)@.no_duplicates(),
    ensures
        final(v)@.no_duplicates(),
        final(v)@.to_set() == old(v)@.to_set().insert(b),
{
    if !contains_button(v, b) {
        proof {
            lemma_push_absent(v@, b);
        }
        v.push(b);
    } else {
        proof {
            assert(v@.to_set().contains(b));
            assert(v@.to_set().insert(b) =~= v@.to_set());
        }
    }
}

/// Removes the key if present; with no duplicates, removing its one
/// occurrence removes it from the set of members.
fn remove_key(v: &mut Vec<KeyCode>, k: KeyCode)
    requires
        old(v)@.no_duplicates(),
    ensures
        final(v)@.no_duplicates(),
        final(v)@.to_set() == old(v)@.to_set().remove(k),
{
    let mut i: usize = 0;
    while i < v.len()
        invariant
            0 <= i <= v@.len(),
            forall|j: int| 0 <= j < i ==> v@[j] != k,
            v@.no_duplicates(),
            v@ == old(v)@,
        decreases v@.len() - i,
    {
        if v[i] == k {
            proof {
                lemma_remove_present(v@, i as int);
            }
            v.remove(i);
            return ;
        }
        i += 1;
    }
    proof {
        lemma_absent(v@, k);
    }
}

fn remove_button(v: &mut Vec<MouseButton>, b: MouseButton)
    requires
        old(v)@.no_duplicates(),
    ensures
        final(v)@.no_duplicates(),
        final(v)@.to_set() == old(v)@.to_set().remove(b),
{
    let mut i: usize = 0;
    while i < v.len()
        invariant
            0 <= i <= v@.len(),
            forall|j: int| 0 <= j < i ==> v@[j] != b,
            v@.no_duplicates(),
            v@ == old(v)@,
        decreases v@.len() - i,
    {
        if v[i] == b {
            proof {
                lemma_remove_present(v@, i as int);
            }
            v.remove(i);
            return ;
        }
        i += 1;
    }
    proof {
        lemma_absent(v@, b);
    }
}

} // verus!
