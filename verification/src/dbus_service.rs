//! The timer state mirrored to the desktop bus.
//!
//! Four scalar fields describe the timer at any moment.  They sit behind a
//! reader/writer lock so the shell's update command and the desktop-bus
//! service can share them across threads; [`TimerDbusService`] answers the
//! queries the bus service forwards to it.

use std::sync::Arc;
use vstd::prelude::*;
use vstd::rwlock::RwLock;
use vstd::rwlock::RwLockPredicate;

verus! {

/// Timer state shared between the application shell and the desktop-bus
/// service.
#[derive(Debug)]
pub struct TimerState {
    /// Whether the timer is currently running.
    pub running: bool,
    /// Remaining seconds; negative once the timer has run past its end.
    pub remaining_seconds: i32,
    /// Focus text for the current timer.
    pub focus_text: String,
    /// Whether the timer is past its end.
    pub is_overtime: bool,
}

impl TimerState {
    /// Builds the state with exactly the four given fields.
    pub fn new(
        running: bool,
        remaining_seconds: i32,
        focus_text: String,
        is_overtime: bool,
    ) -> (r: Self)
        ensures
            r.running == running,
            r.remaining_seconds == remaining_seconds,
            r.focus_text == focus_text,
            r.is_overtime == is_overtime,
    {
        TimerState { running, remaining_seconds, focus_text, is_overtime }
    }

    /// The query tuple the desktop bus answers with:
    /// (running, remaining seconds, focus text, overtime).
    pub fn as_tuple(self) -> (r: (bool, i32, String, bool))
        ensures
            r.0 == self.running,
            r.1 == self.remaining_seconds,
            r.2 == self.focus_text,
            r.3 == self.is_overtime,
    {
        (self.running, self.remaining_seconds, self.focus_text, self.is_overtime)
    }
}

impl Clone for TimerState {
    /// An exact copy, field for field.
    fn clone(&self) -> (r: Self)
        ensures
            r.running == self.running,
            r.remaining_seconds == self.remaining_seconds,
            r.focus_text@ == self.focus_text@,
            r.is_overtime == self.is_overtime,
    {
        TimerState {
            running: self.running,
            remaining_seconds: self.remaining_seconds,
            focus_text: self.focus_text.clone(),
            is_overtime: self.is_overtime,
        }
    }
}

impl Default for TimerState {
    /// The idle state: stopped, nothing remaining, no focus text.
    fn default() -> (r: Self)
        ensures
            r.running == false,
            r.remaining_seconds == 0,
            r.focus_text@ == Seq::<char>::empty(),
            r.is_overtime == false,
    {
        TimerState {
            running: false,
            remaining_seconds: 0,
            focus_text: String::new(),
            is_overtime: false,
        }
    }
}

/// Every combination of the four fields is a legal timer state: the shared
/// lock imposes no further condition on the value it stores.
pub struct AnyTimerState;

impl RwLockPredicate<TimerState> for AnyTimerState {
    open spec fn inv(self, v: TimerState) -> bool {
        true
    }
}

/// Timer state behind a reader/writer lock, shared between threads.
/// Cloning the handle hands out another reference to the same lock.
pub struct SharedTimerState {
    lock: Arc<RwLock<TimerState, AnyTimerState>>,
}

impl SharedTimerState {
    /// Wraps an initial state in a fresh shared lock.
    pub fn new(initial: TimerState) -> Self {
        SharedTimerState { lock: Arc::new(RwLock::new(initial, Ghost(AnyTimerState))) }
    }

    /// Replaces the stored state.  Readers that come later see the new
    /// value until the next write.
    pub fn store(&self, new_state: TimerState) {
        let (_replaced, write_handle) = self.lock.acquire_write();
        write_handle.release_write(new_state);
    }

    /// Reads one consistent copy of the stored state: all four fields come
    /// from the same write, never from two interleaved ones.
    pub fn load(&self) -> TimerState {
        let read_handle = self.lock.acquire_read();
        let copy = read_handle.borrow().clone();
        read_handle.release_read();
        copy
    }
}

impl Clone for SharedTimerState {
    /// Another handle to the same lock.
    fn clone(&self) -> (r: Self)
        ensures
            r == *self,
    {
        SharedTimerState { lock: self.lock.clone() }
    }
}

/// Answers the desktop-bus queries about the timer from the shared state.
pub struct TimerDbusService {
    state: SharedTimerState,
}

impl TimerDbusService {
    /// The shared state the service answers from.
    pub closed spec fn shared_state(self) -> SharedTimerState {
        self.state
    }

    /// Takes a handle to the shared state the service will answer from.
    pub fn new(state: SharedTimerState) -> (r: Self)
        ensures
            r.shared_state() == state,
    {
        Self { state }
    }

    /// The complete timer state as a tuple: (running, remaining seconds,
    /// focus text, overtime), all four taken from one consistent snapshot.
    /// [`TimerState::as_tuple`]'s contract pins each position to the field
    /// of the loaded snapshot.
    pub fn get_state(&self) -> (bool, i32, String, bool) {
        self.state.load().as_tuple()
    }

    /// Whether the timer is currently running: the first position of the
    /// snapshot's query tuple.
    pub fn running(&self) -> bool {
        self.state.load().as_tuple().0
    }

    /// Remaining seconds, negative once the timer has run past its end:
    /// the second position of the snapshot's query tuple.
    pub fn remaining_seconds(&self) -> i32 {
        self.state.load().as_tuple().1
    }

    /// Focus text for the current timer: the third position of the
    /// snapshot's query tuple.
    pub fn focus_text(&self) -> String {
        self.state.load().as_tuple().2
    }

    /// Whether the timer is past its end: the fourth position of the
    /// snapshot's query tuple.
    pub fn is_overtime(&self) -> bool {
        self.state.load().as_tuple().3
    }
}

/// Replaces the shared timer state with the four fields the shell's update
/// command hands over.  [`TimerState::new`]'s contract pins the written
/// value to the four arguments alone.
pub fn update_state(
    state: &SharedTimerState,
    running: bool,
    remaining_seconds: i32,
    focus_text: String,
    is_overtime: bool,
) {
    state.store(TimerState::new(running, remaining_seconds, focus_text, is_overtime));
}

/// The well-known bus name under which the timer service registers.
pub fn bus_name() -> (r: &'static str)
    ensures
        r@ == "org.pucoti.Timer"@,
{
    "org.pucoti.Timer"
}

/// The object path at which the timer service is served.
pub fn object_path() -> (r: &'static str)
    ensures
        r@ == "/org/pucoti/Timer"@,
{
    "/org/pucoti/Timer"
}

} // verus!
