//! The event reduction loop's state machine: one step per input event, one
//! step per validation outcome. The surrounding program waits for events,
//! feeds them in, and performs the command each step hands back — render
//! feedback, run one validation attempt, or ungrab and finish. While a
//! validation runs no further event is consumed, so a second Enter or
//! Escape can never race a pending attempt.

use vstd::prelude::*;

use crate::auth::AuthOutcome;
use crate::auth::spec_unlocks;
use crate::buffer::PasswordBuffer;
use crate::buffer::spec_clear;
use crate::buffer::spec_pop_last;
use crate::buffer::spec_push;
use crate::grab::GrabController;
use crate::keyboard::KeyDirection;
use crate::keyboard::KeySym;
use crate::keyboard::Keymap;
use crate::keyboard::Tracker;
use crate::keyboard::spec_text;
use crate::keyboard::spec_update;
use crate::keyboard::sym_of;

verus! {

/// One input event, as the session delivers it.
#[derive(Clone, Copy, PartialEq, Eq, Structural, Debug)]
pub enum Event {
    KeyDown(u8),
    KeyUp(u8),
    /// The capture surface needs redrawing.
    Expose,
    /// Anything else; ignored.
    Other,
}

/// How a run ends.
#[derive(Clone, Copy, PartialEq, Eq, Structural, Debug)]
pub enum Termination {
    /// The validator accepted an attempt and capture was released.
    Success,
    /// A session-level failure; capture was released before giving up.
    Abort,
}

/// Where the loop stands.
#[derive(Clone, Copy, PartialEq, Eq, Structural, Debug)]
pub enum Phase {
    AwaitingInput,
    /// An Enter was taken; exactly one validation outcome is owed before
    /// the next event.
    Authenticating,
    Terminated(Termination),
}

/// What the surrounding program must do after a step.
pub enum Command {
    /// Nothing.
    Idle,
    /// Re-render the feedback with this many indicators.
    Redraw(usize),
    /// Run one validation attempt on this snapshot of the buffer, then feed
    /// the outcome back in.
    Validate(Vec<char>),
    /// Ungrab both devices, flush, and end the loop.
    Release,
}

/// The whole lock: keymap and modifier state, the password buffer, the
/// grab, and the loop phase.
pub struct LockMachine {
    pub tracker: Tracker,
    pub buffer: PasswordBuffer,
    pub grab: GrabController,
    pub phase: Phase,
}

impl LockMachine {
    /// The symbol the current keymap assigns to a key code.
    pub open spec fn key_sym(&self, code: u8) -> KeySym {
        sym_of(self.tracker.keymap@, code)
    }

    /// Capture is held exactly while the loop still runs, and the buffer is
    /// zeroed by the time a run ends.
    pub open spec fn wf(&self) -> bool {
        &&& self.grab.wf()
        &&& self.phase is AwaitingInput ==> self.grab.phase() is Grabbed
        &&& self.phase is Authenticating ==> self.grab.phase() is Grabbed
        &&& self.phase matches Phase::Terminated(_) ==> self.grab.phase() is Released
            && self.buffer@.len() == 0
    }

    /// What one event step does: the event is folded into the modifier
    /// state first, then Enter snapshots the buffer for validation, Backspace
    /// removes the last character, Escape resets the entry, any other press
    /// appends the text it resolves to, and key releases, exposures and
    /// unknown events touch the buffer not at all.
    pub open spec fn step_ok(pre: LockMachine, post: LockMachine, ev: Event, cmd: Command) -> bool {
        match ev {
            Event::KeyDown(code) => {
                let sym = pre.key_sym(code);
                let st1 = spec_update(pre.tracker.state, sym, KeyDirection::Down);
                let text = spec_text(st1, sym);
                &&& post.tracker.state == st1
                &&& match sym {
                    KeySym::Enter => {
                        &&& post.phase is Authenticating
                        &&& post.buffer@ == pre.buffer@
                        &&& cmd matches Command::Validate(p) && p@ == pre.buffer@
                    },
                    KeySym::Backspace => {
                        &&& post.phase is AwaitingInput
                        &&& post.buffer@ == spec_pop_last(pre.buffer@)
                        &&& cmd matches Command::Redraw(n) && n == post.buffer@.len()
                    },
                    KeySym::Escape => {
                        &&& post.phase is AwaitingInput
                        &&& post.buffer@ == spec_clear(pre.buffer@)
                        &&& cmd matches Command::Redraw(n) && n == 0
                    },
                    _ => {
                        &&& post.phase is AwaitingInput
                        &&& post.buffer@ == spec_push(pre.buffer@, text)
                        &&& if text.len() > 0 {
                            cmd matches Command::Redraw(n) && n == post.buffer@.len()
                        } else {
                            cmd is Idle
                        }
                    },
                }
            },
            Event::KeyUp(code) => {
                &&& post.tracker.state == spec_update(
                    pre.tracker.state,
                    pre.key_sym(code),
                    KeyDirection::Up,
                )
                &&& post.phase is AwaitingInput
                &&& post.buffer@ == pre.buffer@
                &&& cmd is Idle
            },
            Event::Expose => {
                &&& post.tracker.state == pre.tracker.state
                &&& post.phase is AwaitingInput
                &&& post.buffer@ == pre.buffer@
                &&& cmd matches Command::Redraw(n) && n == pre.buffer@.len()
            },
            Event::Other => {
                &&& post.tracker.state == pre.tracker.state
                &&& post.phase is AwaitingInput
                &&& post.buffer@ == pre.buffer@
                &&& cmd is Idle
            },
        }
    }

    /// A fresh machine over an already-acquired capture: empty buffer,
    /// neutral modifier state, awaiting the first event.
    pub fn new(keymap: Keymap, grab: GrabController) -> (m: LockMachine)
        requires
            grab.wf(),
            grab.phase() is Grabbed,
        ensures
            m.wf(),
            m.phase is AwaitingInput,
            m.buffer@ == Seq::<char>::empty(),
            m.tracker.keymap@ == keymap@,
            !m.tracker.state.shift && !m.tracker.state.caps,
            m.grab == grab,
    {
        LockMachine {
            tracker: Tracker::new(keymap),
            buffer: PasswordBuffer::new(),
            grab,
            phase: Phase::AwaitingInput,
        }
    }

    /// Consumes one input event and says what to do next. The grab is never
    /// touched here: only a validation outcome or an abort releases it.
    pub fn on_event(&mut self, ev: Event) -> (cmd: Command)
        requires
            old(self).wf(),
            old(self).phase is AwaitingInput,
        ensures
            final(self).wf(),
            final(self).tracker.keymap@ == old(self).tracker.keymap@,
            final(self).grab == old(self).grab,
            LockMachine::step_ok(*old(self), *final(self), ev, cmd),
    {
        match ev {
            Event::KeyDown(code) => {
                self.tracker.update(code, KeyDirection::Down);
                let (sym, text) = self.tracker.resolve(code);
                match sym {
                    KeySym::Enter => {
                        let snap = self.buffer.snapshot();
                        self.phase = Phase::Authenticating;
                        Command::Validate(snap)
                    },
                    KeySym::Backspace => {
                        self.buffer.pop_last();
                        Command::Redraw(self.buffer.len())
                    },
                    KeySym::Escape => {
                        self.buffer.clear();
                        Command::Redraw(0)
                    },
                    _ => {
                        if text.len() > 0 {
                            self.buffer.push(&text);
                            Command::Redraw(self.buffer.len())
                        } else {
                            proof {
                                assert(self.buffer@ =~= spec_push(self.buffer@, text@));
                            }
                            Command::Idle
                        }
                    },
                }
            },
            Event::KeyUp(code) => {
                self.tracker.update(code, KeyDirection::Up);
                Command::Idle
            },
            Event::Expose => Command::Redraw(self.buffer.len()),
            Event::Other => Command::Idle,
        }
    }

    /// Takes in the outcome of the one validation attempt owed. Whatever
    /// came back, the buffer is zeroed: on acceptance the capture is
    /// released and the run ends in success, on anything less the loop
    /// returns to awaiting input with the feedback reset — a rejection and
    /// an unavailable backend look the same from the lock surface.
    pub fn on_auth_result(&mut self, outcome: AuthOutcome) -> (cmd: Command)
        requires
            old(self).wf(),
            old(self).phase is Authenticating,
        ensures
            final(self).wf(),
            final(self).tracker == old(self).tracker,
            final(self).buffer@ == Seq::<char>::empty(),
            spec_unlocks(outcome) ==> final(self).phase == Phase::Terminated(Termination::Success)
                && final(self).grab.phase() is Released
                && final(self).grab.devices_held() == 0
                && cmd is Release,
            !spec_unlocks(outcome) ==> final(self).phase is AwaitingInput
                && final(self).grab == old(self).grab
                && (cmd matches Command::Redraw(n) && n == 0),
    {
        self.buffer.clear();
        match outcome {
            AuthOutcome::Accepted => {
                let _ = self.grab.release();
                self.phase = Phase::Terminated(Termination::Success);
                Command::Release
            },
            AuthOutcome::Rejected => {
                self.phase = Phase::AwaitingInput;
                Command::Redraw(0)
            },
            AuthOutcome::Unavailable => {
                self.phase = Phase::AwaitingInput;
                Command::Redraw(0)
            },
        }
    }

    /// Ends the run on a session-level failure — an event-stream error, or
    /// a failed acquisition. The capture is released and the buffer zeroed
    /// on this exit path like on every other.
    pub fn abort(&mut self) -> (cmd: Command)
        requires
            old(self).wf(),
        ensures
            final(self).wf(),
            final(self).phase == Phase::Terminated(Termination::Abort),
            final(self).grab.phase() is Released,
            final(self).grab.devices_held() == 0,
            final(self).buffer@ == Seq::<char>::empty(),
            cmd is Release,
    {
        self.buffer.clear();
        let _ = self.grab.release();
        self.phase = Phase::Terminated(Termination::Abort);
        Command::Release
    }
}

} // verus!
