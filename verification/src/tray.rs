//! The tray bridge: how a menu click becomes a supervisor call. The
//! caller's event loop polls the menu-event source, matches the clicked
//! id against its two menu entries, and hands the result here; the
//! directive says which supervisor method to invoke and whether the loop
//! ends.

use vstd::prelude::*;

verus! {

/// A polled menu event, already matched against the two known entry ids.
#[derive(Clone, Copy, Debug, PartialEq, Eq, Structural)]
pub enum TrayEvent {
    /// The "Open" entry was clicked.
    OpenClicked,
    /// The "Exit" entry was clicked.
    QuitClicked,
    /// Any other event; ignored.
    Other,
}

/// What the event loop does for one polled event.
#[derive(Clone, Copy, Debug, PartialEq, Eq, Structural)]
pub struct TrayDirective {
    /// Invoke the supervisor's UI start (tolerating failure).
    pub start_ui: bool,
    /// Invoke the supervisor's stop of both children.
    pub stop_all: bool,
    /// Break out of the event loop after a brief settle delay.
    pub exit_loop: bool,
}

/// The directive for one event: "Open" starts or shows the UI, "Exit"
/// tears everything down and ends the loop, anything else does nothing.
pub open spec fn spec_tray_directive(e: TrayEvent) -> TrayDirective {
    match e {
        TrayEvent::OpenClicked => TrayDirective { start_ui: true, stop_all: false, exit_loop: false },
        TrayEvent::QuitClicked => TrayDirective { start_ui: false, stop_all: true, exit_loop: true },
        TrayEvent::Other => TrayDirective { start_ui: false, stop_all: false, exit_loop: false },
    }
}

/// Translate one polled menu event into the loop's next actions.
pub fn tray_directive(e: &TrayEvent) -> (d: TrayDirective)
    ensures
        d == spec_tray_directive(*e),
{
    match e {
        TrayEvent::OpenClicked => TrayDirective { start_ui: true, stop_all: false, exit_loop: false },
        TrayEvent::QuitClicked => TrayDirective { start_ui: false, stop_all: true, exit_loop: true },
        TrayEvent::Other => TrayDirective { start_ui: false, stop_all: false, exit_loop: false },
    }
}

} // verus!
