//! What the tray menu shows for a running state.

use vstd::prelude::*;

verus! {

/// The enabled items, the status line and the icon of the tray menu.
#[derive(Clone, Copy, Debug)]
pub struct MenuState {
    pub start_enabled: bool,
    pub stop_enabled: bool,
    pub status_title: &'static str,
    pub icon: &'static str,
}

/// The menu for a loop that runs or not: only the action that changes the
/// state is enabled, and the status line and the icon follow the state.
pub fn menu_state(running: bool) -> (r: MenuState)
    ensures
        r.start_enabled == !running,
        r.stop_enabled == running,
        r.status_title@ == (if running { "Status: Running \u{2713}"@ } else { "Status: Stopped"@ }),
        r.icon@ == (if running { "icon-active.png"@ } else { "icon.png"@ }),
{
    if running {
        MenuState {
            start_enabled: false,
            stop_enabled: true,
            status_title: "Status: Running \u{2713}",
            icon: "icon-active.png",
        }
    } else {
        MenuState { start_enabled: true, stop_enabled: false, status_title: "Status: Stopped", icon: "icon.png" }
    }
}

} // verus!
