//! The input grab controller: the protocol for acquiring and releasing
//! exclusive keyboard and pointer capture on the session. The controller
//! decides; the surrounding program performs the display calls it mandates
//! and reports their outcomes back.
//!
//! Acquisition grabs the keyboard first, then the pointer. If either device
//! is denied, the whole acquisition fails and any partial grab already taken
//! is ordered released before the failure is reported: a half-grab is never
//! an end state. Once released, capture is never re-acquired within a run.

use vstd::prelude::*;

verus! {

/// The lifecycle of the capture: forward-only, with no way back to
/// `Grabbed` once `Released`.
#[derive(Clone, Copy, PartialEq, Eq, Structural, Debug)]
pub enum GrabPhase {
    /// No capture surface yet.
    Unarmed,
    /// The surface is mapped; the device grabs are still to be taken.
    Mapped,
    /// Both devices are captured by this process.
    Grabbed,
    /// Capture is over, on success or on failure; final.
    Released,
}

/// A display call the surrounding program must perform now.
#[derive(Clone, Copy, PartialEq, Eq, Structural, Debug)]
pub enum GrabAction {
    DoNothing,
    /// Ungrab the keyboard (taken while acquisition later failed).
    ReleaseKeyboard,
    /// Ungrab both devices.
    ReleaseBoth,
}

/// Tracks which devices this process holds and where in the lifecycle the
/// capture stands.
pub struct GrabController {
    phase: GrabPhase,
    keyboard_held: bool,
    pointer_held: bool,
}

/// Where a phase stands in the forward-only order.
pub open spec fn phase_rank(p: GrabPhase) -> int {
    match p {
        GrabPhase::Unarmed => 0,
        GrabPhase::Mapped => 1,
        GrabPhase::Grabbed => 2,
        GrabPhase::Released => 3,
    }
}

impl GrabController {
    pub closed spec fn phase(&self) -> GrabPhase {
        self.phase
    }

    pub closed spec fn keyboard_held(&self) -> bool {
        self.keyboard_held
    }

    pub closed spec fn pointer_held(&self) -> bool {
        self.pointer_held
    }

    /// How many devices this process currently has grabbed.
    pub open spec fn devices_held(&self) -> int {
        (if self.keyboard_held() { 1int } else { 0int })
            + (if self.pointer_held() { 1int } else { 0int })
    }

    /// The states the protocol can be in: devices are held only during and
    /// after a successful acquisition, both of them exactly in `Grabbed`,
    /// and none once `Released`.
    pub open spec fn wf(&self) -> bool {
        &&& self.phase() is Unarmed ==> !self.keyboard_held() && !self.pointer_held()
        &&& self.phase() is Mapped ==> !self.pointer_held()
        &&& self.phase() is Grabbed ==> self.keyboard_held() && self.pointer_held()
        &&& self.phase() is Released ==> !self.keyboard_held() && !self.pointer_held()
    }

    /// Where in the lifecycle the capture stands.
    pub fn read_phase(&self) -> (p: GrabPhase)
        ensures
            p == self.phase(),
    {
        self.phase
    }

    pub fn holds_keyboard(&self) -> (b: bool)
        ensures
            b == self.keyboard_held(),
    {
        self.keyboard_held
    }

    pub fn holds_pointer(&self) -> (b: bool)
        ensures
            b == self.pointer_held(),
    {
        self.pointer_held
    }

    pub fn new() -> (c: GrabController)
        ensures
            c.wf(),
            c.phase() is Unarmed,
            c.devices_held() == 0,
    {
        GrabController { phase: GrabPhase::Unarmed, keyboard_held: false, pointer_held: false }
    }

    /// The capture surface is created and mapped; the device grabs may now
    /// be attempted.
    pub fn arm(&mut self)
        requires
            old(self).wf(),
            old(self).phase() is Unarmed,
        ensures
            final(self).wf(),
            final(self).phase() is Mapped,
            final(self).devices_held() == 0,
            phase_rank(final(self).phase()) >= phase_rank(old(self).phase()),
    {
        self.phase = GrabPhase::Mapped;
    }

    /// Takes in the outcome of the keyboard grab, the first of the two.
    /// A denial ends the acquisition with nothing held; a grant leaves the
    /// keyboard held while the pointer grab is attempted.
    pub fn keyboard_result(&mut self, granted: bool)
        requires
            old(self).wf(),
            old(self).phase() is Mapped,
            !old(self).keyboard_held(),
        ensures
            final(self).wf(),
            granted ==> final(self).phase() is Mapped && final(self).keyboard_held()
                && !final(self).pointer_held(),
            !granted ==> final(self).phase() is Released && final(self).devices_held() == 0,
            phase_rank(final(self).phase()) >= phase_rank(old(self).phase()),
    {
        if granted {
            self.keyboard_held = true;
        } else {
            self.phase = GrabPhase::Released;
        }
    }

    /// Takes in the outcome of the pointer grab, attempted with the keyboard
    /// already held. A grant completes the acquisition. A denial fails it,
    /// and the keyboard grab is ordered released before the failure is
    /// reported: after a failed acquisition zero devices remain grabbed.
    pub fn pointer_result(&mut self, granted: bool) -> (act: GrabAction)
        requires
            old(self).wf(),
            old(self).phase() is Mapped,
            old(self).keyboard_held(),
        ensures
            final(self).wf(),
            granted ==> final(self).phase() is Grabbed && final(self).devices_held() == 2
                && act is DoNothing,
            !granted ==> final(self).phase() is Released && final(self).devices_held() == 0
                && act is ReleaseKeyboard,
            phase_rank(final(self).phase()) >= phase_rank(old(self).phase()),
    {
        if granted {
            self.pointer_held = true;
            self.phase = GrabPhase::Grabbed;
            GrabAction::DoNothing
        } else {
            self.keyboard_held = false;
            self.phase = GrabPhase::Released;
            GrabAction::ReleaseKeyboard
        }
    }

    /// Ends the capture on any exit path: both devices are ordered ungrabbed
    /// and the lifecycle moves to `Released`. Idempotent: calling it again
    /// finds nothing held and orders nothing.
    pub fn release(&mut self) -> (act: GrabAction)
        requires
            old(self).wf(),
        ensures
            final(self).wf(),
            final(self).phase() is Released,
            final(self).devices_held() == 0,
            act is ReleaseBoth <==> old(self).devices_held() > 0,
            act is DoNothing <==> old(self).devices_held() == 0,
            phase_rank(final(self).phase()) >= phase_rank(old(self).phase()),
    {
        let act = if self.keyboard_held || self.pointer_held {
            GrabAction::ReleaseBoth
        } else {
            GrabAction::DoNothing
        };
        self.keyboard_held = false;
        self.pointer_held = false;
        self.phase = GrabPhase::Released;
        act
    }
}

/// Picks the capture surface's visual: the position of the first visual id
/// equal to the screen's root visual, among the ids the display offers, or
/// nothing when the display offers no such visual.
pub fn find_visual_id(ids: &Vec<u32>, root_visual: u32) -> (r: Option<usize>)
    ensures
        r matches Some(i) ==> i < ids@.len() && ids@[i as int] == root_visual
            && (forall|j: int| 0 <= j < i ==> ids@[j] != root_visual),
        r is None ==> forall|j: int| 0 <= j < ids@.len() ==> ids@[j] != root_visual,
{
    let mut i: usize = 0;
    while i < ids.len()
        invariant
            i <= ids.len(),
            forall|j: int| 0 <= j < i ==> ids@[j] != root_visual,
        decreases ids.len() - i,
    {
        if ids[i] == root_visual {
            return Some(i);
        }
        i = i + 1;
    }
    None
}

} // verus!
