//! Global hotkey dispatcher: binding table, phase machine, event routing.
//!
//! The OS hotkey subsystem assigns an opaque identifier to each registered
//! key combination. The table here is populated with exactly the
//! identifier the OS returned at registration — never with an assumed
//! registration order — and the long-running listener forwards each
//! key-press event through `handle_hotkey_event`, which is total: an
//! unknown identifier or a release event resolves to no action instead of
//! failing, so one stray event can never take the listener down.

use vstd::prelude::*;
use crate::router::Action;

verus! {

/// Lifecycle of the dispatcher.
#[derive(Clone, Copy, Debug, PartialEq, Eq, Structural)]
pub enum DispatcherPhase {
    /// No binding registered yet.
    Uninitialized,
    /// The default bindings are registered with the OS.
    Registered,
    /// The background listener is running.
    Listening,
    /// Registration failed: the feature is degraded, the process lives on.
    Error,
    /// The process is leaving; implicit at exit.
    ShuttingDown,
}

/// Owner of the binding table and the dispatcher phase.
pub struct HotkeyManager {
    /// Binding identifier, as returned by the OS, paired with its action.
    pub bindings: Vec<(u32, Action)>,
    pub phase: DispatcherPhase,
}

/// First binding whose identifier matches, scanning from position `i`.
pub open spec fn find_action_from(table: Seq<(u32, Action)>, id: u32, i: int) -> Option<Action>
    decreases table.len() - i,
{
    if i < 0 || i >= table.len() {
        None
    } else if table[i].0 == id {
        Some(table[i].1)
    } else {
        find_action_from(table, id, i + 1)
    }
}

/// The action a binding identifier resolves to, if any.
pub open spec fn spec_action_for(table: Seq<(u32, Action)>, id: u32) -> Option<Action> {
    find_action_from(table, id, 0)
}

/// Transition of `handle_hotkey_event`: only a press event, received
/// while the listener runs, with a registered identifier, dispatches.
pub open spec fn spec_handle_hotkey(
    table: Seq<(u32, Action)>,
    phase: DispatcherPhase,
    id: u32,
    pressed: bool,
) -> Option<Action> {
    if phase == DispatcherPhase::Listening && pressed {
        spec_action_for(table, id)
    } else {
        None
    }
}

impl HotkeyManager {
    pub fn new() -> (r: HotkeyManager)
        ensures
            r.bindings@ == Seq::<(u32, Action)>::empty(),
            r.phase == DispatcherPhase::Uninitialized,
    {
        HotkeyManager { bindings: Vec::new(), phase: DispatcherPhase::Uninitialized }
    }

    /// Looks a binding identifier up in the table.
    pub fn action_for(&self, id: u32) -> (r: Option<Action>)
        ensures
            r == spec_action_for(self.bindings@, id),
    {
        let mut i: usize = 0;
        while i < self.bindings.len()
            invariant
                i <= self.bindings@.len(),
                spec_action_for(self.bindings@, id) == find_action_from(self.bindings@, id, i as int),
            decreases self.bindings@.len() - i,
        {
            let (bid, action) = self.bindings[i];
            if bid == id {
                return Some(action);
            }
            i += 1;
        }
        None
    }

    /// Records the identifier the OS returned for a freshly registered
    /// binding. A duplicate identifier is refused, so one identifier
    /// always resolves to one action.
    pub fn record_binding(&mut self, id: u32, action: Action) -> (added: bool)
        ensures
            added == (spec_action_for(old(self).bindings@, id) is None),
            added ==> final(self).bindings@ == old(self).bindings@.push((id, action)),
            !added ==> final(self).bindings@ == old(self).bindings@,
            final(self).phase == old(self).phase,
    {
        match self.action_for(id) {
            Some(_) => false,
            None => {
                self.bindings.push((id, action));
                true
            },
        }
    }

    /// Binds the identifier the OS returned for the quick-capture key
    /// combination.
    pub fn register_quick_capture_hotkey(&mut self, id: u32) -> (added: bool)
        ensures
            added == (spec_action_for(old(self).bindings@, id) is None),
            added ==> final(self).bindings@ == old(self).bindings@.push((id, Action::QuickCapture)),
            !added ==> final(self).bindings@ == old(self).bindings@,
            final(self).phase == old(self).phase,
    {
        self.record_binding(id, Action::QuickCapture)
    }

    /// Binds the identifier the OS returned for the show-main-window key
    /// combination.
    pub fn register_show_window_hotkey(&mut self, id: u32) -> (added: bool)
        ensures
            added == (spec_action_for(old(self).bindings@, id) is None),
            added ==> final(self).bindings@ == old(self).bindings@.push((id, Action::ShowWindow)),
            !added ==> final(self).bindings@ == old(self).bindings@,
            final(self).phase == old(self).phase,
    {
        self.record_binding(id, Action::ShowWindow)
    }

    /// Records both default bindings from the identifiers the OS returned
    /// and marks the dispatcher registered.
    pub fn setup_hotkeys(&mut self, quick_capture_id: u32, show_window_id: u32)
        requires
            old(self).phase == DispatcherPhase::Uninitialized,
            old(self).bindings@ == Seq::<(u32, Action)>::empty(),
        ensures
            spec_action_for(final(self).bindings@, quick_capture_id) == Some(Action::QuickCapture),
            quick_capture_id != show_window_id ==> spec_action_for(
                final(self).bindings@,
                show_window_id,
            ) == Some(Action::ShowWindow),
            final(self).phase == DispatcherPhase::Registered,
    {
        let added_qc = self.register_quick_capture_hotkey(quick_capture_id);
        proof {
            if added_qc {
                lemma_registered_binding_found(
                    old(self).bindings@,
                    quick_capture_id,
                    Action::QuickCapture,
                );
            }
        }
        let ghost mid = self.bindings@;
        proof {
            assert(mid[0] == (quick_capture_id, Action::QuickCapture));
            if quick_capture_id != show_window_id {
                assert(find_action_from(mid, show_window_id, 1) is None);
                assert(find_action_from(mid, show_window_id, 0) is None);
            }
        }
        let added_sw = self.register_show_window_hotkey(show_window_id);
        proof {
            if added_sw {
                lemma_registered_binding_found(mid, show_window_id, Action::ShowWindow);
                lemma_push_preserves_other(mid, show_window_id, Action::ShowWindow, quick_capture_id);
            }
        }
        self.phase = DispatcherPhase::Registered;
    }

    /// The background listener has started.
    pub fn start_listening(&mut self)
        ensures
            old(self).phase == DispatcherPhase::Registered ==> final(self).phase
                == DispatcherPhase::Listening,
            old(self).phase != DispatcherPhase::Registered ==> final(self).phase
                == old(self).phase,
            final(self).bindings@ == old(self).bindings@,
    {
        if self.phase == DispatcherPhase::Registered {
            self.phase = DispatcherPhase::Listening;
        }
    }

    /// OS registration failed: the dispatcher is degraded, nothing else of
    /// the process is touched.
    pub fn registration_failed(&mut self)
        ensures
            final(self).phase == DispatcherPhase::Error,
            final(self).bindings@ == old(self).bindings@,
    {
        self.phase = DispatcherPhase::Error;
    }

    /// Routes one OS hotkey event. Release events are ignored; an
    /// identifier outside the table resolves to no action, never to a
    /// failure, so later events still dispatch.
    pub fn handle_hotkey_event(&self, id: u32, pressed: bool) -> (r: Option<Action>)
        ensures
            r == spec_handle_hotkey(self.bindings@, self.phase, id, pressed),
    {
        if pressed && self.phase == DispatcherPhase::Listening {
            self.action_for(id)
        } else {
            None
        }
    }
}

/// A binding registered under a fresh identifier is found again under
/// exactly that identifier: the table never relies on registration order.
pub proof fn lemma_registered_binding_found(table: Seq<(u32, Action)>, id: u32, action: Action)
    requires
        spec_action_for(table, id) is None,
    ensures
        spec_action_for(table.push((id, action)), id) == Some(action),
{
    lemma_find_from_push_match(table, id, action, 0);
}

/// Registering one binding never disturbs what another identifier
/// resolves to.
pub proof fn lemma_push_preserves_other(
    table: Seq<(u32, Action)>,
    id: u32,
    action: Action,
    other: u32,
)
    requires
        spec_action_for(table, other) is Some,
    ensures
        spec_action_for(table.push((id, action)), other) == spec_action_for(table, other),
{
    lemma_find_from_push_found(table, id, action, other, 0);
}

proof fn lemma_find_from_push_match(table: Seq<(u32, Action)>, id: u32, action: Action, i: int)
    requires
        0 <= i <= table.len(),
        find_action_from(table, id, i) is None,
    ensures
        find_action_from(table.push((id, action)), id, i) == Some(action),
    decreases table.len() - i,
{
    if i == table.len() {
        assert(table.push((id, action))[i] == (id, action));
    } else {
        lemma_find_from_push_match(table, id, action, i + 1);
    }
}

proof fn lemma_find_from_push_found(
    table: Seq<(u32, Action)>,
    id: u32,
    action: Action,
    other: u32,
    i: int,
)
    requires
        0 <= i <= table.len(),
        find_action_from(table, other, i) is Some,
    ensures
        find_action_from(table.push((id, action)), other, i) == find_action_from(table, other, i),
    decreases table.len() - i,
{
    if i < table.len() {
        if table[i].0 != other {
            lemma_find_from_push_found(table, id, action, other, i + 1);
        }
    }
}

/// Hotkey robustness: an event carrying an unregistered identifier
/// dispatches nothing — and since routing never fails, any later event
/// with a registered identifier still dispatches its action; release
/// events are dropped the same harmless way.
pub proof fn lemma_hotkey_robustness(
    table: Seq<(u32, Action)>,
    phase: DispatcherPhase,
    unknown: u32,
    pressed: bool,
    later: u32,
)
    requires
        spec_action_for(table, unknown) is None,
    ensures
        spec_handle_hotkey(table, phase, unknown, pressed) is None,
        spec_handle_hotkey(table, DispatcherPhase::Listening, later, true) == spec_action_for(
            table,
            later,
        ),
        spec_handle_hotkey(table, phase, later, false) is None,
{
}

} // verus!
