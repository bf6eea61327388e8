//! Who owns the pointer: the view, which hides and locks it and lets the
//! cameras take input, or the overlay, which leaves it free.

use vstd::prelude::*;

verus! {

/// The two states of pointer capture.
#[derive(Clone, Copy, Debug, PartialEq, Eq, Structural)]
pub enum CaptureState {
    /// The view owns the pointer: hidden, locked, cameras enabled.
    Captured,
    /// The pointer is visible and unlocked, cameras disabled.
    Free,
}

/// How the platform is to treat the pointer. On every change of capture,
/// to either state, the pointer is also moved to the middle of the window.
#[derive(Clone, Copy, Debug, PartialEq, Eq, Structural)]
pub struct PointerMode {
    pub visible: bool,
    pub locked: bool,
}

/// Whether the focus button and the exit key are down.
#[derive(Clone, Copy, Debug, PartialEq, Eq, Structural)]
pub struct CaptureButtons {
    pub focus_held: bool,
    pub exit_held: bool,
}

/// The capture events of one tick.
#[derive(Clone, Copy, Debug, PartialEq, Eq, Structural)]
pub struct CaptureInput {
    /// The focus button went down in this tick (held from before does not
    /// count).
    pub focus_pressed: bool,
    /// The exit key went down in this tick.
    pub exit_pressed: bool,
    /// The pointer is over an interactive area of the overlay.
    pub pointer_over_ui: bool,
}

impl CaptureInput {
    /// The state that the events of this tick call for, if any. A press of
    /// the exit key frees the pointer wherever it is. A press of the focus
    /// button captures it unless the pointer is over the overlay. Where both
    /// arrive in one tick the exit has the last word.
    pub open spec fn spec_decision(self) -> Option<CaptureState> {
        if self.exit_pressed {
            Some(CaptureState::Free)
        } else if self.focus_pressed && !self.pointer_over_ui {
            Some(CaptureState::Captured)
        } else {
            None
        }
    }

    /// The events of a tick in which the buttons are held as `now` says,
    /// after a tick in which they were held as `before` says: a button went
    /// down if it is held and was not.
    pub open spec fn spec_from_held(
        before: CaptureButtons,
        now: CaptureButtons,
        pointer_over_ui: bool,
    ) -> CaptureInput {
        CaptureInput {
            focus_pressed: now.focus_held && !before.focus_held,
            exit_pressed: now.exit_held && !before.exit_held,
            pointer_over_ui,
        }
    }

    /// Finds the capture events of a tick from what is held in it and what
    /// was held in the tick before.
    pub fn from_held(before: &CaptureButtons, now: &CaptureButtons, pointer_over_ui: bool) -> (r:
        CaptureInput)
        ensures
            r == CaptureInput::spec_from_held(*before, *now, pointer_over_ui),
    {
        CaptureInput {
            focus_pressed: now.focus_held && !before.focus_held,
            exit_pressed: now.exit_held && !before.exit_held,
            pointer_over_ui,
        }
    }

    /// Decides what the events of this tick call for.
    pub fn decision(&self) -> (r: Option<CaptureState>)
        ensures
            r == self.spec_decision(),
    {
        if self.exit_pressed {
            Some(CaptureState::Free)
        } else if self.focus_pressed && !self.pointer_over_ui {
            Some(CaptureState::Captured)
        } else {
            None
        }
    }
}

impl CaptureState {
    /// Whether cameras take input in this state.
    pub open spec fn enables(self) -> bool {
        self is Captured
    }

    /// How the pointer is treated in this state: hidden and locked while
    /// captured, visible and unlocked while free.
    pub open spec fn spec_pointer(self) -> PointerMode {
        PointerMode { visible: self is Free, locked: self is Captured }
    }

    /// The state after the events of one tick.
    pub open spec fn spec_step(self, input: CaptureInput) -> CaptureState {
        match input.spec_decision() {
            Some(state) => state,
            None => self,
        }
    }

    /// The state in which a session starts.
    pub fn initial() -> (r: CaptureState)
        ensures
            r == CaptureState::Captured,
    {
        CaptureState::Captured
    }

    /// Tells whether cameras take input in this state.
    pub fn enables_cameras(self) -> (r: bool)
        ensures
            r == self.enables(),
    {
        match self {
            CaptureState::Captured => true,
            CaptureState::Free => false,
        }
    }

    /// Tells how the platform is to treat the pointer in this state.
    pub fn pointer(self) -> (r: PointerMode)
        ensures
            r == self.spec_pointer(),
    {
        match self {
            CaptureState::Captured => PointerMode { visible: false, locked: true },
            CaptureState::Free => PointerMode { visible: true, locked: false },
        }
    }

    /// Moves to the state after the events of one tick.
    pub fn step(self, input: &CaptureInput) -> (r: CaptureState)
        ensures
            r == self.spec_step(*input),
    {
        match input.decision() {
            Some(state) => state,
            None => self,
        }
    }
}

} // verus!
