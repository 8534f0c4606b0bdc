//! Pointer input: a bounded event queue reduced once per frame into a
//! per-button edge/hold state plus position and frame-over-frame delta.
//!
//! Events arrive asynchronously between frames through
//! [`MouseManager::push_event`]; the frame driver calls
//! [`MouseManager::pre_tick_process_mouse_state`] exactly once per frame,
//! before the world tick, which folds the queued events in arrival order
//! into the [`MouseState`] and empties the queue. When the queue is full,
//! the newest event is dropped and counted, never written out of bounds.
use vstd::prelude::*;
use vstd::pervasive::VecAdditionalExecFns;

use crate::key::tick_key;
use crate::key::KeyState;

verus! {

/// Capacity of the pointer event queue.
pub const MOUSE_EVENT_MAX: usize = 1000;

pub const BUTTON_COUNT: usize = 3;

#[derive(Clone, Copy, Debug, PartialEq, Eq, Structural)]
pub enum MouseButton {
    Left,
    Middle,
    Right,
}

/// The kind of a platform pointer event.
#[derive(Clone, Copy, Debug, PartialEq, Eq, Structural)]
pub enum MouseEventKind {
    Down,
    Up,
    Over,
    Out,
    Move,
}

/// One platform pointer event: kind, button and integer screen coordinates.
#[derive(Clone, Copy, Debug, PartialEq, Eq, Structural)]
pub struct PointerEvent {
    pub kind: MouseEventKind,
    pub button: MouseButton,
    pub x: i32,
    pub y: i32,
}

/// The queue slot a button's state is kept in.
pub open spec fn spec_button_index(b: MouseButton) -> int {
    match b {
        MouseButton::Left => 0,
        MouseButton::Middle => 1,
        MouseButton::Right => 2,
    }
}

pub fn button_index(b: MouseButton) -> (r: usize)
    ensures
        r == spec_button_index(b),
        r < BUTTON_COUNT,
{
    match b {
        MouseButton::Left => 0,
        MouseButton::Middle => 1,
        MouseButton::Right => 2,
    }
}

/// Maps the platform's numeric button id to a button, if it is one the
/// engine tracks.
pub fn button_from_code(code: i16) -> (r: Option<MouseButton>)
    ensures
        r == (if code == 0 {
            Some(MouseButton::Left)
        } else if code == 1 {
            Some(MouseButton::Middle)
        } else if code == 2 {
            Some(MouseButton::Right)
        } else {
            None::<MouseButton>
        }),
{
    if code == 0 {
        Some(MouseButton::Left)
    } else if code == 1 {
        Some(MouseButton::Middle)
    } else if code == 2 {
        Some(MouseButton::Right)
    } else {
        None
    }
}

/// The mathematical value of a [`MouseState`].
pub struct MouseStateV {
    pub buttons: Seq<KeyState>,
    pub x: int,
    pub y: int,
    pub dx: int,
    pub dy: int,
}

/// The per-frame button transition: like the key table, `Down` becomes
/// `Held` and `Up` becomes `Idle`; position and delta are untouched.
pub open spec fn ms_tick_buttons(s: MouseStateV) -> MouseStateV {
    MouseStateV { buttons: Seq::new(s.buttons.len(), |i: int| tick_key(s.buttons[i])), ..s }
}

/// One queued event applied to the state: `Down` and `Up` set the edge of
/// their button; every event carries coordinates, which overwrite the
/// position, so the last event of a frame determines it.
pub open spec fn ms_apply_event(s: MouseStateV, e: PointerEvent) -> MouseStateV {
    let moved = MouseStateV { x: e.x as int, y: e.y as int, ..s };
    match e.kind {
        MouseEventKind::Down => MouseStateV {
            buttons: s.buttons.update(spec_button_index(e.button), KeyState::Down),
            ..moved
        },
        MouseEventKind::Up => MouseStateV {
            buttons: s.buttons.update(spec_button_index(e.button), KeyState::Up),
            ..moved
        },
        _ => moved,
    }
}

/// The queued events applied in arrival order.
pub open spec fn ms_apply_all(s: MouseStateV, evs: Seq<PointerEvent>) -> MouseStateV
    decreases evs.len(),
{
    if evs.len() == 0 {
        s
    } else {
        ms_apply_event(ms_apply_all(s, evs.drop_last()), evs.last())
    }
}

/// The whole per-frame drain: the button transition, then the queued events
/// in arrival order, then the delta against the position at frame start.
pub open spec fn ms_drain(s: MouseStateV, evs: Seq<PointerEvent>) -> MouseStateV {
    let after = ms_apply_all(ms_tick_buttons(s), evs);
    MouseStateV { dx: after.x - s.x, dy: after.y - s.y, ..after }
}

/// The state before any event.
pub open spec fn spec_initial_mouse_state() -> MouseStateV {
    MouseStateV {
        buttons: Seq::new(BUTTON_COUNT as nat, |i: int| KeyState::Idle),
        x: 0,
        y: 0,
        dx: 0,
        dy: 0,
    }
}

/// Per-button edge/hold state plus last known position and frame-over-frame
/// delta.
pub struct MouseState {
    buttons: Vec<KeyState>,
    x: i64,
    y: i64,
    dx: i64,
    dy: i64,
}

impl View for MouseState {
    type V = MouseStateV;

    closed spec fn view(&self) -> MouseStateV {
        MouseStateV {
            buttons: self.buttons@,
            x: self.x as int,
            y: self.y as int,
            dx: self.dx as int,
            dy: self.dy as int,
        }
    }
}

impl MouseState {
    /// One state per button, and coordinates within the platform's 32-bit
    /// event range.
    pub open spec fn wf(&self) -> bool {
        &&& self@.buttons.len() == BUTTON_COUNT
        &&& i32::MIN <= self@.x <= i32::MAX
        &&& i32::MIN <= self@.y <= i32::MAX
    }

    fn new() -> (r: MouseState)
        ensures
            r.wf(),
            r@ == spec_initial_mouse_state(),
    {
        let mut buttons: Vec<KeyState> = Vec::new();
        buttons.push(KeyState::Idle);
        buttons.push(KeyState::Idle);
        buttons.push(KeyState::Idle);
        let r = MouseState { buttons, x: 0, y: 0, dx: 0, dy: 0 };
        proof {
            assert(r@.buttons =~= spec_initial_mouse_state().buttons);
        }
        r
    }

    /// True iff the button became pressed this frame.
    pub fn button_down(&self, b: MouseButton) -> (r: bool)
        requires
            self.wf(),
        ensures
            r == (self@.buttons[spec_button_index(b)] == KeyState::Down),
    {
        self.buttons[button_index(b)] == KeyState::Down
    }

    /// True on every frame the button is pressed, the pressing frame
    /// included.
    pub fn button_pressed(&self, b: MouseButton) -> (r: bool)
        requires
            self.wf(),
        ensures
            r == (self@.buttons[spec_button_index(b)] == KeyState::Down
                || self@.buttons[spec_button_index(b)] == KeyState::Held),
    {
        let s = self.buttons[button_index(b)];
        s == KeyState::Down || s == KeyState::Held
    }

    /// True iff the button was released this frame.
    pub fn button_up(&self, b: MouseButton) -> (r: bool)
        requires
            self.wf(),
        ensures
            r == (self@.buttons[spec_button_index(b)] == KeyState::Up),
    {
        self.buttons[button_index(b)] == KeyState::Up
    }

    /// Last known pointer position.
    pub fn position(&self) -> (r: (i64, i64))
        ensures
            r.0 == self@.x,
            r.1 == self@.y,
    {
        (self.x, self.y)
    }

    /// Pointer movement between the two most recent frame drains.
    pub fn delta(&self) -> (r: (i64, i64))
        ensures
            r.0 == self@.dx,
            r.1 == self@.dy,
    {
        (self.dx, self.dy)
    }
}

/// The mathematical value of a [`MouseManager`].
pub struct MouseManagerV {
    pub events: Seq<PointerEvent>,
    pub state: MouseStateV,
    pub dropped: int,
}

/// Buffers pointer events and reduces them into a [`MouseState`] once per
/// frame.
pub struct MouseManager {
    events: Vec<PointerEvent>,
    state: MouseState,
    dropped: u64,
}

impl View for MouseManager {
    type V = MouseManagerV;

    closed spec fn view(&self) -> MouseManagerV {
        MouseManagerV { events: self.events@, state: self.state@, dropped: self.dropped as int }
    }
}

impl MouseManager {
    pub open spec fn wf(&self) -> bool {
        &&& self@.state.buttons.len() == BUTTON_COUNT
        &&& i32::MIN <= self@.state.x <= i32::MAX
        &&& i32::MIN <= self@.state.y <= i32::MAX
        &&& self@.events.len() <= MOUSE_EVENT_MAX
    }

    pub fn new() -> (r: MouseManager)
        ensures
            r.wf(),
            r@.events.len() == 0,
            r@.state == spec_initial_mouse_state(),
            r@.dropped == 0,
    {
        MouseManager { events: Vec::new(), state: MouseState::new(), dropped: 0 }
    }

    /// Appends an arriving platform event. When the queue is full the event
    /// is dropped and counted instead, so a burst of events can never write
    /// past the queue's bound. The counter saturates.
    pub fn push_event(&mut self, e: PointerEvent)
        requires
            old(self).wf(),
        ensures
            final(self).wf(),
            old(self)@.events.len() < MOUSE_EVENT_MAX ==> final(self)@ == (MouseManagerV {
                events: old(self)@.events.push(e),
                ..old(self)@
            }),
            old(self)@.events.len() == MOUSE_EVENT_MAX ==> final(self)@ == (MouseManagerV {
                dropped: if old(self)@.dropped < u64::MAX as int {
                    old(self)@.dropped + 1
                } else {
                    old(self)@.dropped
                },
                ..old(self)@
            }),
    {
        if self.events.len() < MOUSE_EVENT_MAX {
            self.events.push(e);
        } else if self.dropped < u64::MAX {
            self.dropped = self.dropped + 1;
        }
    }

    /// How many events have been dropped to queue overflow so far.
    pub fn dropped_events(&self) -> (r: u64)
        ensures
            r == self@.dropped,
    {
        self.dropped
    }

    /// The per-frame reduction, run exactly once per frame before the world
    /// tick: ticks the button edges over, folds the queued events in arrival
    /// order into the state, computes the frame-over-frame delta, and resets
    /// the queue.
    pub fn pre_tick_process_mouse_state(&mut self)
        requires
            old(self).wf(),
        ensures
            final(self).wf(),
            final(self)@.state == ms_drain(old(self)@.state, old(self)@.events),
            final(self)@.events.len() == 0,
            final(self)@.dropped == old(self)@.dropped,
    {
        let ghost started = ms_tick_buttons(old(self)@.state);
        let frame_start_x = self.state.x;
        let frame_start_y = self.state.y;

        let mut bi: usize = 0;
        while bi < BUTTON_COUNT
            invariant
                bi <= BUTTON_COUNT,
                self.state.buttons@.len() == BUTTON_COUNT,
                forall|j: int|
                    0 <= j < bi ==> self.state.buttons@[j] == tick_key(
                        old(self)@.state.buttons[j],
                    ),
                forall|j: int|
                    bi <= j < BUTTON_COUNT ==> self.state.buttons@[j]
                        == old(self)@.state.buttons[j],
                self.state.x == old(self)@.state.x,
                self.state.y == old(self)@.state.y,
                self.state.dx == old(self)@.state.dx,
                self.state.dy == old(self)@.state.dy,
                self.events == old(self).events,
                self.dropped == old(self).dropped,
            decreases BUTTON_COUNT - bi,
        {
            let k = self.state.buttons[bi];
            match k {
                KeyState::Up => self.state.buttons.set(bi, KeyState::Idle),
                KeyState::Down => self.state.buttons.set(bi, KeyState::Held),
                _ => (),
            }
            bi = bi + 1;
        }
        proof {
            assert(self.state@.buttons =~= started.buttons);
            assert(self.state@ == started);
        }

        let n = self.events.len();
        let mut i: usize = 0;
        while i < n
            invariant
                i <= n,
                n == old(self)@.events.len(),
                self.events == old(self).events,
                self.dropped == old(self).dropped,
                self.state@ == ms_apply_all(started, old(self)@.events.take(i as int)),
                self.state.wf(),
            decreases n - i,
        {
            let e = self.events[i];
            match e.kind {
                MouseEventKind::Down => {
                    self.state.buttons.set(button_index(e.button), KeyState::Down);
                },
                MouseEventKind::Up => {
                    self.state.buttons.set(button_index(e.button), KeyState::Up);
                },
                _ => (),
            }
            self.state.x = e.x as i64;
            self.state.y = e.y as i64;
            proof {
                let evs = old(self)@.events;
                assert(evs.take(i + 1).drop_last() =~= evs.take(i as int));
                assert(evs.take(i + 1).last() == evs[i as int]);
                assert(self.state@ == ms_apply_event(
                    ms_apply_all(started, evs.take(i as int)),
                    evs[i as int],
                ));
            }
            i = i + 1;
        }
        proof {
            assert(old(self)@.events.take(n as int) =~= old(self)@.events);
        }

        self.state.dx = self.state.x - frame_start_x;
        self.state.dy = self.state.y - frame_start_y;
        self.events.clear();
    }

    /// The reduced per-frame pointer state.
    pub fn state(&self) -> (r: &MouseState)
        ensures
            r@ == self@.state,
            self.wf() ==> r.wf(),
    {
        &self.state
    }
}

} // verus!
