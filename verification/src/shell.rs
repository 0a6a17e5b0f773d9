//! The desktop shell's few decisions: the tray menu, the launch-at-login
//! checkmark, and whether a launch starts hidden in the tray.
use crate::text::same_text;
use vstd::prelude::*;

verus! {

/// The argument a login-time launch passes: start hidden in the tray.
pub const MINIMIZED_ARG: &'static str = "--minimized";

/// What a tray menu item does.
#[derive(Debug, Clone, Copy, PartialEq, Eq, Structural)]
pub enum TrayAction {
    /// Bring the main window to the front.
    Show,
    /// Flip launch-at-login.
    ToggleAutostart,
    /// Exit the application.
    Quit,
    /// An item this shell does not know.
    Ignore,
}

/// The action of the tray menu item with this id.
pub open spec fn spec_tray_action(id: Seq<char>) -> TrayAction {
    if id == "show"@ {
        TrayAction::Show
    } else if id == "quit"@ {
        TrayAction::Quit
    } else if id == "autostart"@ {
        TrayAction::ToggleAutostart
    } else {
        TrayAction::Ignore
    }
}

/// Dispatch a tray menu event by its item id.
pub fn tray_action(id: &str) -> (r: TrayAction)
    ensures
        r == spec_tray_action(id@),
{
    if same_text(id, "show") {
        TrayAction::Show
    } else if same_text(id, "quit") {
        TrayAction::Quit
    } else if same_text(id, "autostart") {
        TrayAction::ToggleAutostart
    } else {
        TrayAction::Ignore
    }
}

/// The launch-at-login checkmark after a toggle: it follows the real state,
/// so it flips only when the operating system accepted the change.
pub fn autostart_checkmark(was_enabled: bool, toggled: bool) -> (r: bool)
    ensures
        r == if toggled {
            !was_enabled
        } else {
            was_enabled
        },
{
    if toggled {
        !was_enabled
    } else {
        was_enabled
    }
}

/// A launch with `--minimized` among its arguments begins hidden.
pub fn starts_minimized(args: &Vec<String>) -> (r: bool)
    ensures
        r == exists|i: int| 0 <= i < args@.len() && #[trigger] args@[i]@ == MINIMIZED_ARG@,
{
    let mut i: usize = 0;
    while i < args.len()
        invariant
            i <= args.len(),
            forall|j: int| 0 <= j < i ==> #[trigger] args@[j]@ != MINIMIZED_ARG@,
        decreases args.len() - i,
    {
        if same_text(args[i].as_str(), MINIMIZED_ARG) {
            return true;
        }
        i += 1;
    }
    false
}

} // verus!
