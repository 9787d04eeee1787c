//! What the tray icon tells the overlay.

use vstd::prelude::*;

verus! {

/// A request made through the tray menu.
#[derive(Clone, Copy, Debug, PartialEq, Eq, Structural)]
pub enum TrayMessage {
    /// End the program at once.
    Exit,
    /// Show the crosshair if it is hidden, hide it if it is shown.
    ToggleCrosshair,
}

} // verus!
