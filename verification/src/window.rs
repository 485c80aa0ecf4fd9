//! The visibility/focus state machine of the single managed window.
//!
//! The model tracks what the host environment's window handle would report:
//! whether the window still exists, whether it is drawn, and whether it holds
//! keyboard focus. Focus is settable only while the window is visible. Every
//! operation fails with `WindowUnavailable` once the window is destroyed,
//! which a caller treats as fatal for that invocation.
//!
//! Each transition returns the concrete action the host window must perform,
//! so that an unverified shell can mirror the model onto a real window.

use vstd::prelude::*;

verus! {

/// The single failure mode of window operations: the managed window no
/// longer exists.
#[derive(Clone, Copy, PartialEq, Eq, Structural, Debug)]
pub enum WindowError {
    WindowUnavailable,
}

/// What the host window must do to realise a transition.
#[derive(Clone, Copy, PartialEq, Eq, Structural, Debug)]
pub enum WindowAction {
    /// Hide the window.
    Hide,
    /// Show the window, then give it keyboard focus.
    ShowAndFocus,
}

/// The observable state of the managed window.
#[derive(Clone, Copy, PartialEq, Eq, Structural, Debug)]
pub struct WindowModel {
    /// Whether the window still exists.
    pub available: bool,
    /// Whether the window is drawn at all.
    pub visible: bool,
    /// Whether the window holds keyboard focus.
    pub focused: bool,
}

/// The state after one visibility toggle: a visible window is hidden, a
/// hidden window is shown and focused.
pub open spec fn toggle_spec(w: WindowModel) -> WindowModel {
    if w.visible {
        WindowModel { available: w.available, visible: false, focused: false }
    } else {
        WindowModel { available: w.available, visible: true, focused: true }
    }
}

/// The state after bringing the window to the front: shown and focused,
/// whatever it was before.
pub open spec fn bring_spec(w: WindowModel) -> WindowModel {
    WindowModel { available: w.available, visible: true, focused: true }
}

/// The state after `n` visibility toggles.
pub open spec fn iter_toggle(w: WindowModel, n: nat) -> WindowModel
    decreases n,
{
    if n == 0 {
        w
    } else {
        toggle_spec(iter_toggle(w, (n - 1) as nat))
    }
}

impl WindowModel {
    /// Well-formed: only a visible window can hold focus.
    pub open spec fn wf(self) -> bool {
        self.focused ==> self.visible
    }

    /// A live window in the visibility state the host environment
    /// established at creation, without keyboard focus.
    pub fn new(initially_visible: bool) -> (w: Self)
        ensures
            w.wf(),
            w.available,
            w.visible == initially_visible,
            !w.focused,
    {
        WindowModel { available: true, visible: initially_visible, focused: false }
    }

    /// Queries visibility; fails if the window no longer exists.
    pub fn is_visible(&self) -> (r: Result<bool, WindowError>)
        ensures
            self.available ==> r == Ok::<bool, WindowError>(self.visible),
            !self.available ==> r == Err::<bool, WindowError>(WindowError::WindowUnavailable),
    {
        if self.available {
            Ok(self.visible)
        } else {
            Err(WindowError::WindowUnavailable)
        }
    }

    /// If visible, hide; if hidden, show and then set input focus.
    pub fn toggle_visibility(&mut self) -> (r: Result<WindowAction, WindowError>)
        requires
            old(self).wf(),
        ensures
            final(self).wf(),
            !old(self).available ==> r == Err::<WindowAction, WindowError>(
                WindowError::WindowUnavailable,
            ) && *final(self) == *old(self),
            old(self).available ==> *final(self) == toggle_spec(*old(self)) && r == Ok::<
                WindowAction,
                WindowError,
            >(
                if old(self).visible {
                    WindowAction::Hide
                } else {
                    WindowAction::ShowAndFocus
                },
            ),
    {
        if !self.available {
            return Err(WindowError::WindowUnavailable);
        }
        if self.visible {
            self.visible = false;
            self.focused = false;
            Ok(WindowAction::Hide)
        } else {
            self.visible = true;
            self.focused = true;
            Ok(WindowAction::ShowAndFocus)
        }
    }

    /// Unconditionally shows and focuses the window. Idempotent on
    /// visibility: a window already visible stays visible, and focus is
    /// asserted either way.
    pub fn bring_to_front(&mut self) -> (r: Result<WindowAction, WindowError>)
        requires
            old(self).wf(),
        ensures
            final(self).wf(),
            !old(self).available ==> r == Err::<WindowAction, WindowError>(
                WindowError::WindowUnavailable,
            ) && *final(self) == *old(self),
            old(self).available ==> *final(self) == bring_spec(*old(self)) && r == Ok::<
                WindowAction,
                WindowError,
            >(WindowAction::ShowAndFocus),
    {
        if !self.available {
            return Err(WindowError::WindowUnavailable);
        }
        self.visible = true;
        self.focused = true;
        Ok(WindowAction::ShowAndFocus)
    }

    /// The host environment destroyed the window: every later operation
    /// fails.
    pub fn window_destroyed(&mut self)
        ensures
            final(self).wf(),
            !final(self).available,
            !final(self).visible,
            !final(self).focused,
    {
        self.available = false;
        self.visible = false;
        self.focused = false;
    }
}

/// Toggling is its own inverse. From a hidden, unfocused window one toggle
/// yields a visible, focused window; a second toggle returns exactly to the
/// hidden state; so the state cycles with period two.
pub proof fn lemma_toggle_period_two(w: WindowModel, n: nat)
    requires
        w.wf(),
        !w.visible,
    ensures
        toggle_spec(w).visible,
        toggle_spec(w).focused,
        toggle_spec(toggle_spec(w)) == w,
        iter_toggle(w, n) == if n % 2 == 0 {
            w
        } else {
            toggle_spec(w)
        },
    decreases n,
{
    if n == 1 {
        assert(iter_toggle(w, 1) == toggle_spec(iter_toggle(w, 0)));
        assert(iter_toggle(w, 0) == w);
    } else if n >= 2 {
        lemma_toggle_period_two(w, (n - 2) as nat);
        assert(n % 2 == (n - 2) % 2) by (nonlinear_arith);
        assert(iter_toggle(w, (n - 1) as nat) == toggle_spec(iter_toggle(w, (n - 2) as nat)));
        assert(iter_toggle(w, n) == toggle_spec(iter_toggle(w, (n - 1) as nat)));
    }
}

/// After any number of back-to-back toggles, visibility is the initial
/// visibility flipped once per toggle: it matches the toggle count modulo
/// two, with no transition lost or duplicated.
pub proof fn lemma_toggle_count_parity(w: WindowModel, n: nat)
    ensures
        iter_toggle(w, n).visible == if n % 2 == 0 {
            w.visible
        } else {
            !w.visible
        },
        iter_toggle(w, n).available == w.available,
    decreases n,
{
    if n > 0 {
        lemma_toggle_count_parity(w, (n - 1) as nat);
    }
}

/// Bringing an already-visible window to the front leaves visibility
/// unchanged but asserts focus, and doing it twice is the same as doing it
/// once.
pub proof fn lemma_bring_to_front_idempotent(w: WindowModel)
    ensures
        w.visible ==> bring_spec(w).visible == w.visible,
        bring_spec(w).visible,
        bring_spec(w).focused,
        bring_spec(bring_spec(w)) == bring_spec(w),
{
}

} // verus!
