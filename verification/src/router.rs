//! Action router: the single mutation path into the window registry.
//!
//! Hotkeys, tray clicks and explicit commands all resolve to one logical
//! `Action`, and every action reaches the registry through `dispatch`.
//! Dispatch also owns the quit latch: once a quit has been dispatched, the
//! router is terminal and no later event reaches the registry.

use vstd::prelude::*;
use crate::windows::{VisOutcome, WindowRegistry, spec_ensure_visible};

verus! {

/// The logical actions both event sources resolve to.
#[derive(Clone, Copy, Debug, PartialEq, Eq, Structural)]
pub enum Action {
    /// Bring the main window to the foreground.
    ShowWindow,
    /// Bring the quick-capture window to the foreground, building it on
    /// first use.
    QuickCapture,
    /// Show the main window and signal navigation to the dashboard view.
    Dashboard,
    /// Show the main window and signal navigation to the settings view.
    Settings,
    /// Terminate the process with a success status.
    Quit,
}

/// Destination of a navigation signal the rendering layer consumes.
#[derive(Clone, Copy, Debug, PartialEq, Eq, Structural)]
pub enum NavTarget {
    Dashboard,
    Settings,
}

/// What the shell must do after one dispatch.
#[derive(Clone, Copy, Debug, PartialEq, Eq, Structural)]
pub struct DispatchResult {
    /// Window work decided by the registry, if the action touched a window.
    pub window: Option<VisOutcome>,
    /// Navigation signal to emit, only once the window is confirmed visible.
    pub navigate: Option<NavTarget>,
    /// The shell must exit the process with a success status.
    pub quit: bool,
}

/// The result of an event that must cause nothing.
pub open spec fn inert_dispatch() -> DispatchResult {
    (DispatchResult { window: None, navigate: None, quit: false })
}

/// Router state: the registry it owns, and whether a quit was dispatched.
#[derive(Clone, Copy, Debug)]
pub struct ActionRouter {
    pub windows: WindowRegistry,
    pub quitting: bool,
}

impl ActionRouter {
    pub open spec fn wf(self) -> bool {
        self.windows.wf()
    }
}

/// Transition of `dispatch`.
pub open spec fn spec_dispatch(r: ActionRouter, action: Action) -> (ActionRouter, DispatchResult) {
    if r.quitting {
        (r, inert_dispatch())
    } else {
        match action {
            Action::ShowWindow => {
                let (w, v) = spec_ensure_visible(r.windows, "main"@);
                ((ActionRouter { windows: w, ..r }),
                 (DispatchResult { window: Some(v), navigate: None, quit: false }))
            },
            Action::QuickCapture => {
                let (w, v) = spec_ensure_visible(r.windows, "quick-capture"@);
                ((ActionRouter { windows: w, ..r }),
                 (DispatchResult { window: Some(v), navigate: None, quit: false }))
            },
            Action::Dashboard => {
                let (w, v) = spec_ensure_visible(r.windows, "main"@);
                ((ActionRouter { windows: w, ..r }),
                 (DispatchResult { window: Some(v), navigate: Some(NavTarget::Dashboard), quit: false }))
            },
            Action::Settings => {
                let (w, v) = spec_ensure_visible(r.windows, "main"@);
                ((ActionRouter { windows: w, ..r }),
                 (DispatchResult { window: Some(v), navigate: Some(NavTarget::Settings), quit: false }))
            },
            Action::Quit => {
                ((ActionRouter { quitting: true, ..r }),
                 (DispatchResult { window: None, navigate: None, quit: true }))
            },
        }
    }
}

impl ActionRouter {
    /// A fresh router over a fresh registry.
    pub fn new() -> (r: ActionRouter)
        ensures
            r == (ActionRouter { windows: crate::windows::initial_registry(), quitting: false }),
            r.wf(),
    {
        ActionRouter { windows: WindowRegistry::new(), quitting: false }
    }

    /// Routes one logical action into the registry. After a quit has been
    /// dispatched the router is inert: nothing changes and no effect is
    /// produced. A navigation signal is only ever produced together with a
    /// confirmed-visible main window.
    pub fn dispatch(&mut self, action: Action) -> (r: DispatchResult)
        requires
            old(self).wf(),
        ensures
            (*final(self), r) == spec_dispatch(*old(self), action),
            final(self).wf(),
            r.navigate matches Some(_) ==> final(self).windows.main.visible,
    {
        if self.quitting {
            return DispatchResult { window: None, navigate: None, quit: false };
        }
        match action {
            Action::ShowWindow => {
                let v = self.windows.ensure_visible("main");
                DispatchResult { window: Some(v), navigate: None, quit: false }
            },
            Action::QuickCapture => {
                let v = self.windows.ensure_visible("quick-capture");
                DispatchResult { window: Some(v), navigate: None, quit: false }
            },
            Action::Dashboard => {
                let v = self.windows.ensure_visible("main");
                DispatchResult { window: Some(v), navigate: Some(NavTarget::Dashboard), quit: false }
            },
            Action::Settings => {
                let v = self.windows.ensure_visible("main");
                DispatchResult { window: Some(v), navigate: Some(NavTarget::Settings), quit: false }
            },
            Action::Quit => {
                self.quitting = true;
                DispatchResult { window: None, navigate: None, quit: true }
            },
        }
    }
}

/// Once a dispatch has asked for quit, every later dispatch changes
/// nothing and produces no effect: no event is routed after quit.
pub proof fn lemma_no_dispatch_after_quit(r: ActionRouter, first: Action, second: Action)
    ensures
        ({
            let (r1, d1) = spec_dispatch(r, first);
            d1.quit ==> spec_dispatch(r1, second) == (r1, inert_dispatch())
        }),
{
}

} // verus!
