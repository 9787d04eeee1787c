//! What the tray icon shows: its title, its icon, and a menu whose entries
//! each send one message; and what is said where an entry cannot be set up or
//! its message cannot be sent.

use vstd::prelude::*;
use crate::message::TrayMessage;

verus! {

/// The text of the menu entry that sends `message`.
pub open spec fn label_text(message: TrayMessage) -> Seq<char> {
    match message {
        TrayMessage::ToggleCrosshair => "Toggle Crosshair"@,
        TrayMessage::Exit => "Exit"@,
    }
}

/// What is said where the menu entry that sends `message` cannot be added.
pub open spec fn add_failure_text(message: TrayMessage) -> Seq<char> {
    match message {
        TrayMessage::ToggleCrosshair => "Failed to add toggle menu item"@,
        TrayMessage::Exit => "Failed to add menu item"@,
    }
}

/// What is said, in front of the cause, where `message` cannot be sent.
pub open spec fn send_failure_text(message: TrayMessage) -> Seq<char> {
    match message {
        TrayMessage::ToggleCrosshair => "Tray: Failed to send toggle message"@,
        TrayMessage::Exit => "Tray: Failed to send exit message"@,
    }
}

/// The messages of the menu, from its first entry to its last.
pub open spec fn menu_messages() -> Seq<TrayMessage> {
    seq![TrayMessage::ToggleCrosshair, TrayMessage::Exit]
}

/// The title of the tray icon.
pub fn title() -> (text: &'static str)
    ensures
        text@ == "Crosshair Overlay"@,
{
    "Crosshair Overlay"
}

/// The name of the icon among the resources that are built into the program.
pub fn icon_resource() -> (name: &'static str)
    ensures
        name@ == "#101"@,
{
    "#101"
}

/// The text of the menu entry that sends `message`.
pub fn label(message: TrayMessage) -> (text: &'static str)
    ensures
        text@ == label_text(message),
{
    match message {
        TrayMessage::ToggleCrosshair => "Toggle Crosshair",
        TrayMessage::Exit => "Exit",
    }
}

/// What to say where the menu entry that sends `message` cannot be added.
pub fn add_failure(message: TrayMessage) -> (text: &'static str)
    ensures
        text@ == add_failure_text(message),
{
    match message {
        TrayMessage::ToggleCrosshair => "Failed to add toggle menu item",
        TrayMessage::Exit => "Failed to add menu item",
    }
}

/// What to say, in front of the cause, where `message` cannot be sent.
pub fn send_failure(message: TrayMessage) -> (text: &'static str)
    ensures
        text@ == send_failure_text(message),
{
    match message {
        TrayMessage::ToggleCrosshair => "Tray: Failed to send toggle message",
        TrayMessage::Exit => "Tray: Failed to send exit message",
    }
}

/// The menu: for each entry, from the first to the last, the message that it
/// sends when it is chosen.
pub fn menu() -> (entries: [TrayMessage; 2])
    ensures
        entries@ == menu_messages(),
{
    [TrayMessage::ToggleCrosshair, TrayMessage::Exit]
}

/// The menu offers every message once, no two entries read alike, and what
/// is said of a failure tells which entry it was.
pub proof fn lemma_menu_is_complete(message: TrayMessage, other: TrayMessage)
    ensures
        menu_messages().contains(message),
        menu_messages().no_duplicates(),
        message != other ==> label_text(message) != label_text(other),
        message != other ==> add_failure_text(message) != add_failure_text(other),
        message != other ==> send_failure_text(message) != send_failure_text(other),
{
    reveal_strlit("Toggle Crosshair");
    reveal_strlit("Exit");
    reveal_strlit("Failed to add toggle menu item");
    reveal_strlit("Failed to add menu item");
    reveal_strlit("Tray: Failed to send toggle message");
    reveal_strlit("Tray: Failed to send exit message");
    assert(menu_messages()[0] == TrayMessage::ToggleCrosshair);
    assert(menu_messages()[1] == TrayMessage::Exit);
    assert("Toggle Crosshair"@.len() != "Exit"@.len());
    assert("Failed to add toggle menu item"@.len() != "Failed to add menu item"@.len());
    assert("Tray: Failed to send toggle message"@.len() != "Tray: Failed to send exit message"@.len());
}

} // verus!
