//! System tray router: a pure mapping from tray interactions to actions.
//!
//! Primary click and double click both resolve to showing the main window;
//! a right click yields nothing, since the OS renders the context menu
//! itself. A menu selection resolves its identifier through the fixed
//! table `show`, `capture`, `dashboard`, `settings`, `quit`; an unknown
//! identifier is reported and dropped.

use vstd::prelude::*;
use crate::router::Action;
use crate::text::str_eq;

verus! {

/// One interaction with the system tray, as the OS reports it.
#[derive(Clone, Debug)]
pub enum TrayInteraction {
    LeftClick,
    RightClick,
    DoubleClick,
    /// A menu entry was selected; the field is its identifier.
    MenuItemClick(String),
}

pub open spec fn spec_action_for_menu_id(id: Seq<char>) -> Option<Action> {
    if id == "show"@ {
        Some(Action::ShowWindow)
    } else if id == "capture"@ {
        Some(Action::QuickCapture)
    } else if id == "dashboard"@ {
        Some(Action::Dashboard)
    } else if id == "settings"@ {
        Some(Action::Settings)
    } else if id == "quit"@ {
        Some(Action::Quit)
    } else {
        None
    }
}

/// Transition of `handle_tray_event`.
pub open spec fn spec_tray_action(event: TrayInteraction) -> Option<Action> {
    match event {
        TrayInteraction::LeftClick => Some(Action::ShowWindow),
        TrayInteraction::DoubleClick => Some(Action::ShowWindow),
        TrayInteraction::RightClick => None,
        TrayInteraction::MenuItemClick(id) => spec_action_for_menu_id(id@),
    }
}

pub struct TrayManager;

impl TrayManager {
    /// Resolves a tray menu identifier through the fixed table; `None`
    /// exactly for identifiers outside it.
    pub fn handle_menu_item_click(menu_id: &str) -> (r: Option<Action>)
        ensures
            r == spec_action_for_menu_id(menu_id@),
    {
        if str_eq(menu_id, "show") {
            Some(Action::ShowWindow)
        } else if str_eq(menu_id, "capture") {
            Some(Action::QuickCapture)
        } else if str_eq(menu_id, "dashboard") {
            Some(Action::Dashboard)
        } else if str_eq(menu_id, "settings") {
            Some(Action::Settings)
        } else if str_eq(menu_id, "quit") {
            Some(Action::Quit)
        } else {
            None
        }
    }

    /// Routes one tray interaction to its logical action, or to none: a
    /// right click and an unknown menu identifier are dropped without
    /// effect or error.
    pub fn handle_tray_event(event: &TrayInteraction) -> (r: Option<Action>)
        ensures
            r == spec_tray_action(*event),
    {
        match event {
            TrayInteraction::LeftClick => Some(Action::ShowWindow),
            TrayInteraction::DoubleClick => Some(Action::ShowWindow),
            TrayInteraction::RightClick => None,
            TrayInteraction::MenuItemClick(id) => Self::handle_menu_item_click(id.as_str()),
        }
    }
}

} // verus!
