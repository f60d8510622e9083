//! Window registry and lifecycle controller.
//!
//! The registry is the single owner of the two singleton windows, `main`
//! and `quick-capture`, and of their visibility state. Every mutation of
//! window state in the application flows through the transitions here; the
//! unverified shell only mirrors the resulting state onto the real OS
//! handles. `main` exists from process start and is hidden immediately;
//! `quick-capture` is built lazily on first request and is afterwards only
//! ever hidden, never destroyed.

use vstd::prelude::*;
use crate::text::str_eq;

verus! {

/// Visibility state of one live window.
#[derive(Clone, Copy, Debug, PartialEq, Eq, Structural)]
pub struct WindowState {
    pub visible: bool,
    pub focused: bool,
    pub minimized: bool,
}

/// The labels this controller manages.
#[derive(Clone, Copy, Debug, PartialEq, Eq, Structural)]
pub enum Label {
    Main,
    QuickCapture,
}

/// What `ensure_visible` decided.
#[derive(Clone, Copy, Debug, PartialEq, Eq, Structural)]
pub enum VisOutcome {
    /// The window existed: it is now visible, focused and unminimized, and
    /// the shell must mirror that onto the OS handle.
    Shown,
    /// `quick-capture` does not exist yet: the shell must construct it and
    /// report the result through `window_created`.
    NeedsBuild,
    /// The label names no managed window: reported, nothing changed.
    UnknownLabel,
}

/// A window the shell has just made visible and focused.
pub open spec fn shown_state() -> WindowState {
    (WindowState { visible: true, focused: true, minimized: false })
}

/// A hidden window keeps no focus; minimization is untouched.
pub open spec fn hidden_from(w: WindowState) -> WindowState {
    (WindowState { visible: false, focused: false, minimized: w.minimized })
}

/// A state the registry can actually reach: no hidden window holds focus.
pub open spec fn state_wf(w: WindowState) -> bool {
    !w.visible ==> !w.focused
}

pub open spec fn spec_label_of(s: Seq<char>) -> Option<Label> {
    if s == "main"@ {
        Some(Label::Main)
    } else if s == "quick-capture"@ {
        Some(Label::QuickCapture)
    } else {
        None
    }
}

/// Resolves a window label string to a managed label.
pub fn label_of(s: &str) -> (r: Option<Label>)
    ensures
        r == spec_label_of(s@),
{
    if str_eq(s, "main") {
        Some(Label::Main)
    } else if str_eq(s, "quick-capture") {
        Some(Label::QuickCapture)
    } else {
        None
    }
}

/// Sole owner of the singleton windows and their state.
#[derive(Clone, Copy, Debug)]
pub struct WindowRegistry {
    pub main: WindowState,
    pub quick_capture: Option<WindowState>,
}

impl WindowRegistry {
    pub open spec fn wf(self) -> bool {
        &&& state_wf(self.main)
        &&& match self.quick_capture {
            Some(w) => state_wf(w),
            None => true,
        }
    }

    /// The state of the window under a label, if it lives.
    pub open spec fn window_of(self, l: Label) -> Option<WindowState> {
        match l {
            Label::Main => Some(self.main),
            Label::QuickCapture => self.quick_capture,
        }
    }
}

/// Registry at process start: `main` live but hidden, `quick-capture`
/// not yet constructed.
pub open spec fn initial_registry() -> WindowRegistry {
    (WindowRegistry {
        main: WindowState { visible: false, focused: false, minimized: false },
        quick_capture: None,
    })
}

/// Transition of `ensure_visible`.
pub open spec fn spec_ensure_visible(reg: WindowRegistry, label: Seq<char>) -> (WindowRegistry, VisOutcome) {
    match spec_label_of(label) {
        None => (reg, VisOutcome::UnknownLabel),
        Some(Label::Main) => ((WindowRegistry { main: shown_state(), ..reg }), VisOutcome::Shown),
        Some(Label::QuickCapture) => match reg.quick_capture {
            Some(_) => ((WindowRegistry { quick_capture: Some(shown_state()), ..reg }), VisOutcome::Shown),
            None => (reg, VisOutcome::NeedsBuild),
        },
    }
}

/// Transition of `hide`.
pub open spec fn spec_hide(reg: WindowRegistry, label: Seq<char>) -> WindowRegistry {
    match spec_label_of(label) {
        None => reg,
        Some(Label::Main) => (WindowRegistry { main: hidden_from(reg.main), ..reg }),
        Some(Label::QuickCapture) => match reg.quick_capture {
            Some(w) => (WindowRegistry { quick_capture: Some(hidden_from(w)), ..reg }),
            None => reg,
        },
    }
}

/// Transition of `window_created`: a construction report only ever fills
/// an absent `quick-capture` slot; a live handle is never replaced.
pub open spec fn spec_window_created(reg: WindowRegistry, succeeded: bool) -> WindowRegistry {
    match reg.quick_capture {
        Some(_) => reg,
        None => if succeeded {
            (WindowRegistry { quick_capture: Some(shown_state()), ..reg })
        } else {
            reg
        },
    }
}

impl WindowRegistry {
    /// The registry as the process starts.
    pub fn new() -> (r: WindowRegistry)
        ensures
            r == initial_registry(),
            r.wf(),
    {
        WindowRegistry {
            main: WindowState { visible: false, focused: false, minimized: false },
            quick_capture: None,
        }
    }

    /// Brings the labelled window to the foreground: visible, focused,
    /// unminimized. An absent `quick-capture` is not built here: the shell
    /// is asked to construct it and to report back, so that no handle is
    /// registered before the construction is known to have succeeded. An
    /// unknown label is reported and changes nothing.
    pub fn ensure_visible(&mut self, label: &str) -> (r: VisOutcome)
        requires
            old(self).wf(),
        ensures
            (*final(self), r) == spec_ensure_visible(*old(self), label@),
            final(self).wf(),
    {
        match label_of(label) {
            None => VisOutcome::UnknownLabel,
            Some(Label::Main) => {
                self.main = WindowState { visible: true, focused: true, minimized: false };
                VisOutcome::Shown
            },
            Some(Label::QuickCapture) => {
                match self.quick_capture {
                    Some(_) => {
                        self.quick_capture = Some(
                            WindowState { visible: true, focused: true, minimized: false },
                        );
                        VisOutcome::Shown
                    },
                    None => VisOutcome::NeedsBuild,
                }
            },
        }
    }

    /// Hides the labelled window; a no-op on an absent window or an
    /// unknown label.
    pub fn hide_window(&mut self, label: &str)
        requires
            old(self).wf(),
        ensures
            *final(self) == spec_hide(*old(self), label@),
            final(self).wf(),
    {
        match label_of(label) {
            None => {},
            Some(Label::Main) => {
                self.main = WindowState {
                    visible: false,
                    focused: false,
                    minimized: self.main.minimized,
                };
            },
            Some(Label::QuickCapture) => {
                match &self.quick_capture {
                    Some(w) => {
                        let minimized = w.minimized;
                        self.quick_capture = Some(
                            WindowState { visible: false, focused: false, minimized },
                        );
                    },
                    None => {},
                }
            },
        }
    }

    /// A close request on a managed window becomes a hide, and the caller
    /// must suppress the underlying close: the process stays resident.
    pub fn request_close(&mut self, label: &str) -> (prevent_close: bool)
        requires
            old(self).wf(),
        ensures
            *final(self) == spec_hide(*old(self), label@),
            final(self).wf(),
            prevent_close,
    {
        self.hide_window(label);
        true
    }

    /// The shell reports the outcome of building `quick-capture`. On
    /// success the window is registered visible and focused; on failure
    /// the slot stays absent, so no partial handle exists. A report while
    /// a handle already lives is ignored.
    pub fn window_created(&mut self, succeeded: bool)
        requires
            old(self).wf(),
        ensures
            *final(self) == spec_window_created(*old(self), succeeded),
            final(self).wf(),
    {
        match self.quick_capture {
            Some(_) => {},
            None => {
                if succeeded {
                    self.quick_capture = Some(
                        WindowState { visible: true, focused: true, minimized: false },
                    );
                }
            },
        }
    }
}

/// Hiding an already-hidden (or absent) window leaves the registry
/// unchanged, and the operation reports no error.
pub proof fn lemma_hide_idempotent(reg: WindowRegistry, label: Seq<char>)
    requires
        reg.wf(),
        match spec_label_of(label) {
            Some(l) => match reg.window_of(l) {
                Some(w) => !w.visible,
                None => true,
            },
            None => true,
        },
    ensures
        spec_hide(reg, label) == reg,
{
}

/// A second `ensure_visible` on an already fully-shown window leaves the
/// registry unchanged, and the outcome is still a plain `Shown`.
pub proof fn lemma_ensure_visible_idempotent(reg: WindowRegistry, label: Seq<char>)
    requires
        reg.wf(),
        match spec_label_of(label) {
            Some(l) => reg.window_of(l) == Some(shown_state()),
            None => false,
        },
    ensures
        spec_ensure_visible(reg, label) == (reg, VisOutcome::Shown),
{
}

/// Singleton invariant: once a `quick-capture` handle lives, no
/// transition ever plans a second construction, and every transition
/// keeps the handle alive.
pub proof fn lemma_singleton_quick_capture(reg: WindowRegistry, label: Seq<char>, succeeded: bool)
    requires
        matches!(reg.quick_capture, Some(_)),
    ensures
        spec_ensure_visible(reg, label).1 != VisOutcome::NeedsBuild,
        matches!(spec_ensure_visible(reg, label).0.quick_capture, Some(_)),
        matches!(spec_hide(reg, label).quick_capture, Some(_)),
        spec_window_created(reg, succeeded) == reg,
{
}

} // verus!
