//! Keyboard input tracking with frame-accurate edge detection.
//!
//! Each platform key code owns one [`KeyState`]. Event handlers may only set
//! `Down` and `Up`; the end-of-frame transition carries `Down` to `Held` and
//! `Up` to `Idle`, so `key_down` and `key_up` are true exactly on the frame
//! the edge happened.
use vstd::prelude::*;
use vstd::pervasive::VecAdditionalExecFns;

use crate::key_codes;

verus! {

/// Number of tracked key codes; codes at or above this are ignored.
pub const KEY_CODE_MAX: usize = 300;

/// Edge/hold state of a single key code.
///
/// `Idle`: not pressed. `Down`: became pressed this frame. `Held`: pressed
/// since an earlier frame. `Up`: released this frame.
#[derive(Clone, Copy, Debug, PartialEq, Eq, Structural)]
pub enum KeyState {
    Idle,
    Down,
    Held,
    Up,
}

/// The end-of-frame transition of one key state.
pub open spec fn tick_key(k: KeyState) -> KeyState {
    match k {
        KeyState::Down => KeyState::Held,
        KeyState::Up => KeyState::Idle,
        _ => k,
    }
}

/// The table after a key-down event for `code`.
///
/// A key-down event on a key that is already `Held` is a no-op, so a
/// repeating platform key-down cannot re-arm the pressed edge.
pub open spec fn spec_key_down_event(s: Seq<KeyState>, code: int) -> Seq<KeyState> {
    if 0 <= code < s.len() && s[code] != KeyState::Held {
        s.update(code, KeyState::Down)
    } else {
        s
    }
}

/// The table after a key-up event for `code`.
pub open spec fn spec_key_up_event(s: Seq<KeyState>, code: int) -> Seq<KeyState> {
    if 0 <= code < s.len() {
        s.update(code, KeyState::Up)
    } else {
        s
    }
}

/// The table after a focus-lost signal: every code is released.
pub open spec fn spec_focus_lost(s: Seq<KeyState>) -> Seq<KeyState> {
    Seq::new(s.len(), |i: int| KeyState::Up)
}

/// The table after the end-of-frame transition.
pub open spec fn spec_frame_transition(s: Seq<KeyState>) -> Seq<KeyState> {
    Seq::new(s.len(), |i: int| tick_key(s[i]))
}

/// True iff `code` is in range and became pressed this frame.
pub open spec fn spec_key_down(s: Seq<KeyState>, code: int) -> bool {
    0 <= code < s.len() && s[code] == KeyState::Down
}

/// True iff `code` is in range and is pressed, the pressing frame included.
pub open spec fn spec_key_pressed(s: Seq<KeyState>, code: int) -> bool {
    0 <= code < s.len() && (s[code] == KeyState::Down || s[code] == KeyState::Held)
}

/// True iff `code` is in range and was released this frame.
pub open spec fn spec_key_up(s: Seq<KeyState>, code: int) -> bool {
    0 <= code < s.len() && s[code] == KeyState::Up
}

/// The state of the key table before any event.
pub open spec fn spec_initial_keys() -> Seq<KeyState> {
    Seq::new(KEY_CODE_MAX as nat, |i: int| KeyState::Idle)
}

/// Tracks the state of every key code. The platform adapter feeds events in
/// through [`KeyManager::on_key_down`], [`KeyManager::on_key_up`] and
/// [`KeyManager::on_focus_lost`]; the frame driver calls
/// [`KeyManager::post_tick_update_key_states`] exactly once per frame after
/// the world has read the input.
pub struct KeyManager {
    keys: Vec<KeyState>,
}

impl View for KeyManager {
    type V = Seq<KeyState>;

    closed spec fn view(&self) -> Seq<KeyState> {
        self.keys@
    }
}

impl KeyManager {
    /// The table always covers exactly the tracked key-code range.
    pub open spec fn wf(&self) -> bool {
        self@.len() == KEY_CODE_MAX
    }

    pub fn new() -> (r: KeyManager)
        ensures
            r.wf(),
            r@ =~= spec_initial_keys(),
    {
        let mut keys: Vec<KeyState> = Vec::new();
        let mut i: usize = 0;
        while i < KEY_CODE_MAX
            invariant
                i <= KEY_CODE_MAX,
                keys@.len() == i,
                forall|j: int| 0 <= j < i ==> keys@[j] == KeyState::Idle,
            decreases KEY_CODE_MAX - i,
        {
            keys.push(KeyState::Idle);
            i = i + 1;
        }
        KeyManager { keys }
    }

    /// Records a platform key-down event; out-of-range codes are ignored.
    pub fn on_key_down(&mut self, code: usize)
        requires
            old(self).wf(),
        ensures
            final(self).wf(),
            final(self)@ =~= spec_key_down_event(old(self)@, code as int),
    {
        if code < KEY_CODE_MAX {
            if self.keys[code] != KeyState::Held {
                self.keys.set(code, KeyState::Down);
            }
        }
    }

    /// Records a platform key-up event; out-of-range codes are ignored.
    pub fn on_key_up(&mut self, code: usize)
        requires
            old(self).wf(),
        ensures
            final(self).wf(),
            final(self)@ =~= spec_key_up_event(old(self)@, code as int),
    {
        if code < KEY_CODE_MAX {
            self.keys.set(code, KeyState::Up);
        }
    }

    /// Records a focus-lost signal: every code is forced to `Up`, so keys
    /// held while the window loses focus are not stuck pressed.
    pub fn on_focus_lost(&mut self)
        requires
            old(self).wf(),
        ensures
            final(self).wf(),
            final(self)@ =~= spec_focus_lost(old(self)@),
    {
        let mut i: usize = 0;
        while i < KEY_CODE_MAX
            invariant
                i <= KEY_CODE_MAX,
                self.keys@.len() == KEY_CODE_MAX,
                forall|j: int| 0 <= j < i ==> self.keys@[j] == KeyState::Up,
            decreases KEY_CODE_MAX - i,
        {
            self.keys.set(i, KeyState::Up);
            i = i + 1;
        }
    }

    /// The end-of-frame transition, run exactly once per frame after the
    /// world tick has read the input: `Up` becomes `Idle`, `Down` becomes
    /// `Held`; `Held` and `Idle` are unchanged.
    pub fn post_tick_update_key_states(&mut self)
        requires
            old(self).wf(),
        ensures
            final(self).wf(),
            final(self)@ =~= spec_frame_transition(old(self)@),
    {
        let mut i: usize = 0;
        while i < KEY_CODE_MAX
            invariant
                i <= KEY_CODE_MAX,
                self.keys@.len() == KEY_CODE_MAX,
                forall|j: int| 0 <= j < i ==> self.keys@[j] == tick_key(old(self)@[j]),
                forall|j: int| i <= j < KEY_CODE_MAX ==> self.keys@[j] == old(self)@[j],
            decreases KEY_CODE_MAX - i,
        {
            let k = self.keys[i];
            match k {
                KeyState::Up => self.keys.set(i, KeyState::Idle),
                KeyState::Down => self.keys.set(i, KeyState::Held),
                _ => (),
            }
            i = i + 1;
        }
    }

    /// True iff the key became pressed this frame. Out-of-range codes yield
    /// `false`.
    pub fn key_down(&self, code: usize) -> (r: bool)
        requires
            self.wf(),
        ensures
            r == spec_key_down(self@, code as int),
    {
        code < KEY_CODE_MAX && self.keys[code] == KeyState::Down
    }

    /// True on every frame the key is pressed, the pressing frame included.
    /// Out-of-range codes yield `false`.
    pub fn key_pressed(&self, code: usize) -> (r: bool)
        requires
            self.wf(),
        ensures
            r == spec_key_pressed(self@, code as int),
    {
        if code < KEY_CODE_MAX {
            match self.keys[code] {
                KeyState::Down | KeyState::Held => true,
                _ => false,
            }
        } else {
            false
        }
    }

    /// True iff the key was released this frame. Out-of-range codes yield
    /// `false`.
    pub fn key_up(&self, code: usize) -> (r: bool)
        requires
            self.wf(),
        ensures
            r == spec_key_up(self@, code as int),
    {
        code < KEY_CODE_MAX && self.keys[code] == KeyState::Up
    }
}

/// True iff the platform's default action for `code` should be suppressed:
/// every key takes part except the function-key range, which keeps its
/// default behaviour.
pub fn should_suppress_default(code: usize) -> (r: bool)
    ensures
        r == !(key_codes::F1 <= code <= key_codes::F12),
{
    code < key_codes::F1 || code > key_codes::F12
}

// Keyboard edge-detection laws.

/// Before any event, no key is reported pressed, just-pressed or
/// just-released.
pub proof fn lemma_initial_keys_unpressed(code: int)
    ensures
        !spec_key_down(spec_initial_keys(), code),
        !spec_key_pressed(spec_initial_keys(), code),
        !spec_key_up(spec_initial_keys(), code),
{
}

/// The life of one key press, starting from a quiescent code: the key-down
/// event makes `key_down` and `key_pressed` true within the frame; after one
/// frame transition the key is held, so only `key_pressed` stays true; the
/// key-up event makes `key_up` true; the next frame transition returns the
/// code to quiescence.
pub proof fn lemma_key_press_lifecycle(s: Seq<KeyState>, code: int)
    requires
        0 <= code < s.len(),
        s[code] == KeyState::Idle,
    ensures
        ({
            let pressed = spec_key_down_event(s, code);
            let held = spec_frame_transition(pressed);
            let released = spec_key_up_event(held, code);
            let done = spec_frame_transition(released);
            &&& spec_key_down(pressed, code)
            &&& spec_key_pressed(pressed, code)
            &&& !spec_key_up(pressed, code)
            &&& !spec_key_down(held, code)
            &&& spec_key_pressed(held, code)
            &&& spec_key_up(released, code)
            &&& !spec_key_down(done, code)
            &&& !spec_key_pressed(done, code)
            &&& !spec_key_up(done, code)
        }),
{
}

/// A focus-lost signal forces `key_up` for every code in range, and the next
/// frame transition returns every code to quiescence.
pub proof fn lemma_focus_lost_releases_all(s: Seq<KeyState>, code: int)
    requires
        0 <= code < s.len(),
    ensures
        spec_key_up(spec_focus_lost(s), code),
        !spec_key_down(spec_frame_transition(spec_focus_lost(s)), code),
        !spec_key_pressed(spec_frame_transition(spec_focus_lost(s)), code),
        !spec_key_up(spec_frame_transition(spec_focus_lost(s)), code),
{
}

} // verus!
