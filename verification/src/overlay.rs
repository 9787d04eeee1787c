//! What the overlay does in one frame.
//!
//! A frame is handed the tray messages that are pending, in order of arrival,
//! and answers with the list of things to carry out, in order. It never waits
//! for a message: with nothing pending it paints the window as it stands. Nothing here
//! touches the window or the console: the caller performs the actions.

use vstd::prelude::*;
use crate::laws::lemma_leading_toggles;
use crate::message::TrayMessage;

verus! {

/// The status with which the process ends when the tray asks for the exit.
pub const EXIT_STATUS: i32 = 0;

/// One thing that a frame asks of its surroundings.
#[derive(Clone, Copy, Debug, PartialEq, Eq, Structural)]
pub enum Action {
    /// Let mouse input fall through the window to whatever lies beneath it.
    EnablePassthrough,
    /// Tell the console whether the crosshair is shown from now on.
    ReportVisibility(bool),
    /// Tell the console that the program leaves.
    ReportExit,
    /// Close the window.
    CloseWindow,
    /// End the process with this status.
    ExitProcess(i32),
    /// Cover the window with a fully transparent panel.
    PaintBackground,
    /// Draw the crosshair around the centre of the window.
    DrawCrosshair,
    /// Ask for the next frame.
    RequestRepaint,
}

/// What the overlay remembers between frames.
#[derive(Clone, Copy, Debug, PartialEq, Eq, Structural)]
pub struct CrosshairApp {
    /// Whether the window has been told to let the mouse through.
    pub has_enabled_passthrough: bool,
    /// Whether the crosshair is drawn.
    pub crosshair_visible: bool,
}

/// The number of toggles in front of the first exit request, or the number of
/// all messages where nobody asks for the exit.
pub open spec fn leading_toggles(inbox: Seq<TrayMessage>) -> nat
    decreases inbox.len(),
{
    if inbox.len() == 0 || inbox[0] == TrayMessage::Exit {
        0
    } else {
        1 + leading_toggles(inbox.drop_first())
    }
}

/// Whether a frame that is handed `inbox` ends the program.
pub open spec fn asks_exit(inbox: Seq<TrayMessage>) -> bool {
    leading_toggles(inbox) < inbox.len()
}

/// The visibility `visible` after `toggles` toggles.
pub open spec fn flipped(visible: bool, toggles: nat) -> bool {
    if toggles % 2 == 0 {
        visible
    } else {
        !visible
    }
}

/// The console reports of `toggles` toggles in a row, the first of them
/// applied to a crosshair whose visibility is `visible`.
pub open spec fn toggle_reports(visible: bool, toggles: nat) -> Seq<Action> {
    Seq::new(toggles, |i: int| Action::ReportVisibility(flipped(visible, (i + 1) as nat)))
}

/// How the program leaves.
pub open spec fn exit_actions() -> Seq<Action> {
    seq![Action::ReportExit, Action::CloseWindow, Action::ExitProcess(EXIT_STATUS)]
}

/// How a frame that goes on paints the window.
pub open spec fn paint_actions(visible: bool) -> Seq<Action> {
    if visible {
        seq![Action::PaintBackground, Action::DrawCrosshair, Action::RequestRepaint]
    } else {
        seq![Action::PaintBackground, Action::RequestRepaint]
    }
}

impl Action {
    /// The line that the action writes to the console, if it writes one.
    pub open spec fn console_text(self) -> Option<Seq<char>> {
        match self {
            Action::ReportExit => Some("Exit"@),
            Action::ReportVisibility(true) => Some("Crosshair visibility: true"@),
            Action::ReportVisibility(false) => Some("Crosshair visibility: false"@),
            _ => None,
        }
    }

    /// The line to print for this action; `None` for an action that prints nothing.
    pub fn console_line(&self) -> (line: Option<&'static str>)
        ensures
            match line {
                Some(text) => self.console_text() == Some(text@),
                None => self.console_text().is_none(),
            },
    {
        match self {
            Action::ReportExit => Some("Exit"),
            Action::ReportVisibility(true) => Some("Crosshair visibility: true"),
            Action::ReportVisibility(false) => Some("Crosshair visibility: false"),
            _ => None,
        }
    }
}

impl CrosshairApp {
    /// The overlay before its first frame: the mouse is not let through yet,
    /// and the crosshair is shown.
    pub open spec fn start() -> Self {
        CrosshairApp { has_enabled_passthrough: false, crosshair_visible: true }
    }

    /// The overlay after one tray message.
    pub open spec fn after_message(self, message: TrayMessage) -> Self {
        match message {
            TrayMessage::Exit => self,
            TrayMessage::ToggleCrosshair => CrosshairApp {
                has_enabled_passthrough: self.has_enabled_passthrough,
                crosshair_visible: !self.crosshair_visible,
            },
        }
    }

    /// What one tray message asks for.
    pub open spec fn message_actions(self, message: TrayMessage) -> Seq<Action> {
        match message {
            TrayMessage::Exit => exit_actions(),
            TrayMessage::ToggleCrosshair => seq![Action::ReportVisibility(!self.crosshair_visible)],
        }
    }

    /// The overlay after a frame that was handed `inbox`.
    pub open spec fn after_frame(self, inbox: Seq<TrayMessage>) -> Self {
        CrosshairApp {
            has_enabled_passthrough: true,
            crosshair_visible: flipped(self.crosshair_visible, leading_toggles(inbox)),
        }
    }

    /// How a frame begins: with the passthrough, unless an earlier frame has
    /// asked for it.
    pub open spec fn opening_actions(self) -> Seq<Action> {
        if self.has_enabled_passthrough {
            Seq::<Action>::empty()
        } else {
            seq![Action::EnablePassthrough]
        }
    }

    /// How a frame that was handed `inbox` ends: with the exit where the
    /// inbox asks for it, else with the painting of the window.
    pub open spec fn closing_actions(self, inbox: Seq<TrayMessage>) -> Seq<Action> {
        if asks_exit(inbox) {
            exit_actions()
        } else {
            paint_actions(flipped(self.crosshair_visible, leading_toggles(inbox)))
        }
    }

    /// What a frame that was handed `inbox` asks for, in order: first the
    /// passthrough, unless an earlier frame has asked for it; then one report
    /// for each toggle in front of the first exit request; then either the
    /// exit, or the painting of the window.
    pub open spec fn frame_actions(self, inbox: Seq<TrayMessage>) -> Seq<Action> {
        self.opening_actions() + toggle_reports(self.crosshair_visible, leading_toggles(inbox))
            + self.closing_actions(inbox)
    }

    /// The overlay as the program starts.
    pub fn new() -> (app: Self)
        ensures
            app == Self::start(),
    {
        CrosshairApp { has_enabled_passthrough: false, crosshair_visible: true }
    }

    /// Handles one tray message: appends to `actions` what it asks for, and
    /// says whether it ends the program.
    pub fn handle(&mut self, message: TrayMessage, actions: &mut Vec<Action>) -> (exits: bool)
        ensures
            exits == (message == TrayMessage::Exit),
            *final(self) == old(self).after_message(message),
            final(actions)@ == old(actions)@ + old(self).message_actions(message),
    {
        match message {
            TrayMessage::Exit => {
                actions.push(Action::ReportExit);
                actions.push(Action::CloseWindow);
                actions.push(Action::ExitProcess(EXIT_STATUS));
                true
            },
            TrayMessage::ToggleCrosshair => {
                self.crosshair_visible = !self.crosshair_visible;
                actions.push(Action::ReportVisibility(self.crosshair_visible));
                false
            },
        }
    }

    /// Appends to `actions` the painting of the window.
    pub fn paint(&self, actions: &mut Vec<Action>)
        ensures
            final(actions)@ == old(actions)@ + paint_actions(self.crosshair_visible),
    {
        actions.push(Action::PaintBackground);
        if self.crosshair_visible {
            actions.push(Action::DrawCrosshair);
        }
        actions.push(Action::RequestRepaint);
    }

    /// Runs one frame on the tray messages that are pending, oldest first.
    /// Where none is pending the frame leaves the crosshair as it is and
    /// paints the window.
    ///
    /// The messages are handled in order. An exit request ends the frame on
    /// the spot: what stands behind it in `inbox` is not handled, and the
    /// window is not painted again.
    pub fn update(&mut self, inbox: &[TrayMessage]) -> (actions: Vec<Action>)
        ensures
            *final(self) == old(self).after_frame(inbox@),
            actions@ == old(self).frame_actions(inbox@),
    {
        let ghost before = *self;
        let mut actions: Vec<Action> = Vec::new();
        if !self.has_enabled_passthrough {
            actions.push(Action::EnablePassthrough);
            self.has_enabled_passthrough = true;
        }
        let ghost opening = actions@;
        let mut handled: usize = 0;
        while handled < inbox.len()
            invariant
                before == *old(self),
                opening == before.opening_actions(),
                handled <= inbox@.len(),
                forall|j: int| 0 <= j < handled ==> inbox@[j] == TrayMessage::ToggleCrosshair,
                self.has_enabled_passthrough,
                self.crosshair_visible == flipped(before.crosshair_visible, handled as nat),
                actions@ == opening + toggle_reports(before.crosshair_visible, handled as nat),
            decreases inbox@.len() - handled,
        {
            let exits = self.handle(inbox[handled], &mut actions);
            if exits {
                proof {
                    lemma_leading_toggles(inbox@, handled as int);
                }
                return actions;
            }
            handled += 1;
        }
        proof {
            lemma_leading_toggles(inbox@, handled as int);
        }
        self.paint(&mut actions);
        actions
    }
}

} // verus!
