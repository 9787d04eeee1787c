//! What holds of every frame, whatever the overlay's state and whatever the
//! tray has sent.

use vstd::prelude::*;
use crate::message::TrayMessage;
use crate::overlay::{
    asks_exit, flipped, leading_toggles, paint_actions, toggle_reports, Action, CrosshairApp,
    EXIT_STATUS,
};

verus! {

/// `leading_toggles` finds the first exit request: nothing but toggles stands
/// in front of that place, an exit request stands at it unless it is the end
/// of the inbox, and it is the end exactly where the inbox holds no exit
/// request at all.
pub proof fn lemma_first_exit(inbox: Seq<TrayMessage>)
    ensures
        leading_toggles(inbox) <= inbox.len(),
        forall|j: int|
            0 <= j < leading_toggles(inbox) ==> inbox[j] == TrayMessage::ToggleCrosshair,
        asks_exit(inbox) ==> inbox[leading_toggles(inbox) as int] == TrayMessage::Exit,
        asks_exit(inbox) <==> inbox.contains(TrayMessage::Exit),
    decreases inbox.len(),
{
    if inbox.len() == 0 {
    } else if inbox[0] == TrayMessage::Exit {
        assert(inbox.contains(TrayMessage::Exit));
    } else {
        let rest = inbox.drop_first();
        lemma_first_exit(rest);
        assert forall|j: int| 0 <= j < leading_toggles(inbox) implies inbox[j]
            == TrayMessage::ToggleCrosshair by {
            if j > 0 {
                assert(rest[j - 1] == inbox[j]);
            }
        }
        if rest.contains(TrayMessage::Exit) {
            let i = choose|i: int| 0 <= i < rest.len() && rest[i] == TrayMessage::Exit;
            assert(inbox[i + 1] == TrayMessage::Exit);
        }
        if inbox.contains(TrayMessage::Exit) {
            let i = choose|i: int| 0 <= i < inbox.len() && inbox[i] == TrayMessage::Exit;
            assert(rest[i - 1] == TrayMessage::Exit);
        }
        if asks_exit(inbox) {
            assert(rest[leading_toggles(rest) as int] == inbox[leading_toggles(inbox) as int]);
        }
    }
}

/// `leading_toggles` is the place of the first exit request: the one index
/// with nothing but toggles in front of it that holds an exit request or is
/// the end of the inbox.
pub proof fn lemma_leading_toggles(inbox: Seq<TrayMessage>, n: int)
    requires
        0 <= n <= inbox.len(),
        forall|j: int| 0 <= j < n ==> inbox[j] == TrayMessage::ToggleCrosshair,
        n < inbox.len() ==> inbox[n] == TrayMessage::Exit,
    ensures
        leading_toggles(inbox) == n,
    decreases n,
{
    if n > 0 {
        let rest = inbox.drop_first();
        assert forall|j: int| 0 <= j < n - 1 implies rest[j] == TrayMessage::ToggleCrosshair by {
            assert(rest[j] == inbox[j + 1]);
        }
        assert(n - 1 < rest.len() ==> rest[n - 1] == inbox[n]);
        lemma_leading_toggles(rest, n - 1);
        assert(inbox[0] == TrayMessage::ToggleCrosshair);
    }
}

/// An exit request ends everything: the messages behind it change neither
/// the state that the frame leaves nor what the frame asks for.
pub proof fn lemma_nothing_after_exit(app: CrosshairApp, inbox: Seq<TrayMessage>, at: int)
    requires
        0 <= at < inbox.len(),
        inbox[at] == TrayMessage::Exit,
    ensures
        asks_exit(inbox),
        asks_exit(inbox.take(at + 1)),
        app.after_frame(inbox) == app.after_frame(inbox.take(at + 1)),
        app.frame_actions(inbox) == app.frame_actions(inbox.take(at + 1)),
{
    let cut = inbox.take(at + 1);
    lemma_first_exit(inbox);
    let n = leading_toggles(inbox) as int;
    assert(n <= at) by {
        if n > at {
            assert(inbox[at] == TrayMessage::ToggleCrosshair);
        }
    }
    assert forall|j: int| 0 <= j < n implies cut[j] == TrayMessage::ToggleCrosshair by {
        assert(cut[j] == inbox[j]);
    }
    assert(cut[n] == inbox[n]);
    lemma_leading_toggles(cut, n);
}

/// The three parts of a frame: every action that a frame asks for is the
/// passthrough, as the very first; or the report of a toggle; or, behind all
/// of these, one of the actions with which the frame ends.
pub proof fn lemma_frame_parts(app: CrosshairApp, inbox: Seq<TrayMessage>)
    ensures
        app.frame_actions(inbox).len() == app.opening_actions().len() + leading_toggles(inbox)
            + app.closing_actions(inbox).len(),
        forall|i: int|
            0 <= i < app.frame_actions(inbox).len() ==> {
                let action = #[trigger] app.frame_actions(inbox)[i];
                let front = app.opening_actions().len() + leading_toggles(inbox);
                ||| i == 0 && !app.has_enabled_passthrough && action == Action::EnablePassthrough
                ||| app.opening_actions().len() <= i < front && action is ReportVisibility
                ||| front <= i && action == app.closing_actions(inbox)[i - front]
            },
{
    let actions = app.frame_actions(inbox);
    let opening = app.opening_actions();
    let reports = toggle_reports(app.crosshair_visible, leading_toggles(inbox));
    let closing = app.closing_actions(inbox);
    assert forall|i: int| 0 <= i < actions.len() implies {
        let action = #[trigger] actions[i];
        let front = opening.len() + reports.len();
        ||| i == 0 && !app.has_enabled_passthrough && action == Action::EnablePassthrough
        ||| opening.len() <= i < front && action is ReportVisibility
        ||| front <= i && action == closing[i - front]
    } by {
        if i < opening.len() {
            assert(actions[i] == opening[i]);
        } else if i < opening.len() + reports.len() {
            assert(actions[i] == reports[i - opening.len()]);
        } else {
            assert(actions[i] == closing[i - opening.len() - reports.len()]);
        }
    }
}

/// A frame that finds nothing pending leaves the crosshair as it is, paints
/// the window, with the crosshair exactly where it is visible, and asks for
/// the next frame. Once the passthrough is asked for it does nothing else,
/// and leaves the overlay as it found it.
pub proof fn lemma_idle_frame(app: CrosshairApp)
    ensures
        !asks_exit(Seq::<TrayMessage>::empty()),
        app.after_frame(Seq::empty()).crosshair_visible == app.crosshair_visible,
        app.frame_actions(Seq::empty()) == app.opening_actions() + paint_actions(
            app.crosshair_visible,
        ),
        app.has_enabled_passthrough ==> app.after_frame(Seq::empty()) == app,
        app.has_enabled_passthrough ==> app.frame_actions(Seq::empty()) == paint_actions(
            app.crosshair_visible,
        ),
{
    let nothing = Seq::<TrayMessage>::empty();
    assert(toggle_reports(app.crosshair_visible, 0) =~= Seq::<Action>::empty());
    assert(app.frame_actions(nothing) =~= app.opening_actions() + paint_actions(
        app.crosshair_visible,
    ));
    if app.has_enabled_passthrough {
        assert(app.frame_actions(nothing) =~= paint_actions(app.crosshair_visible));
    }
}

/// A frame that is asked to exit asks for the exit last, with the status of
/// a clean end, and neither paints the window nor asks for another frame.
pub proof fn lemma_exit_ends_frame(app: CrosshairApp, inbox: Seq<TrayMessage>)
    requires
        inbox.contains(TrayMessage::Exit),
    ensures
        app.frame_actions(inbox).len() >= 3,
        app.frame_actions(inbox).last() == Action::ExitProcess(EXIT_STATUS),
        !app.frame_actions(inbox).contains(Action::PaintBackground),
        !app.frame_actions(inbox).contains(Action::DrawCrosshair),
        !app.frame_actions(inbox).contains(Action::RequestRepaint),
{
    lemma_first_exit(inbox);
    lemma_frame_parts(app, inbox);
}

/// A frame that nobody asks to exit paints the window and asks for the next
/// frame last; it draws the crosshair exactly where the crosshair is visible
/// once the messages are handled; and it does not end the program.
pub proof fn lemma_frame_without_exit(app: CrosshairApp, inbox: Seq<TrayMessage>)
    requires
        !inbox.contains(TrayMessage::Exit),
    ensures
        app.after_frame(inbox).crosshair_visible == flipped(app.crosshair_visible, inbox.len()),
        app.frame_actions(inbox).len() >= 2,
        app.frame_actions(inbox).last() == Action::RequestRepaint,
        app.frame_actions(inbox).contains(Action::PaintBackground),
        app.frame_actions(inbox).contains(Action::DrawCrosshair) <==> app.after_frame(
            inbox,
        ).crosshair_visible,
        !app.frame_actions(inbox).contains(Action::CloseWindow),
        !app.frame_actions(inbox).contains(Action::ExitProcess(EXIT_STATUS)),
{
    lemma_first_exit(inbox);
    lemma_frame_parts(app, inbox);
    let actions = app.frame_actions(inbox);
    let front = (app.opening_actions().len() + inbox.len()) as int;
    assert(actions[front] == Action::PaintBackground);
    if app.after_frame(inbox).crosshair_visible {
        assert(actions[front + 1] == Action::DrawCrosshair);
    }
}

/// The passthrough is asked for once: by the frame that finds it not asked
/// for yet, as the first thing it does. Every frame leaves it asked for.
pub proof fn lemma_passthrough_once(app: CrosshairApp, inbox: Seq<TrayMessage>)
    ensures
        app.after_frame(inbox).has_enabled_passthrough,
        app.frame_actions(inbox).contains(Action::EnablePassthrough)
            <==> !app.has_enabled_passthrough,
        !app.has_enabled_passthrough ==> app.frame_actions(inbox)[0] == Action::EnablePassthrough,
        forall|i: int|
            0 < i < app.frame_actions(inbox).len() ==> app.frame_actions(inbox)[i]
                != Action::EnablePassthrough,
{
    lemma_frame_parts(app, inbox);
    if !app.has_enabled_passthrough {
        assert(app.frame_actions(inbox)[0] == Action::EnablePassthrough);
    }
}

/// Toggling twice shows what was shown: an inbox of toggles alone leaves the
/// crosshair as it was where their number is even, and flips it where it is
/// odd.
pub proof fn lemma_toggles_cancel(app: CrosshairApp, inbox: Seq<TrayMessage>)
    requires
        !inbox.contains(TrayMessage::Exit),
    ensures
        inbox.len() % 2 == 0 ==> app.after_frame(inbox).crosshair_visible == app.crosshair_visible,
        inbox.len() % 2 == 1 ==> app.after_frame(inbox).crosshair_visible
            == !app.crosshair_visible,
{
    lemma_first_exit(inbox);
}

/// Messages may arrive in one frame or in two: as long as the first part asks
/// for no exit, the overlay ends in the same state, the program ends in the
/// same cases, and the second frame asks for what the one frame asks for
/// behind the reports of the first part.
pub proof fn lemma_frames_compose(
    app: CrosshairApp,
    first: Seq<TrayMessage>,
    second: Seq<TrayMessage>,
)
    requires
        !first.contains(TrayMessage::Exit),
    ensures
        asks_exit(first + second) == asks_exit(second),
        app.after_frame(first + second) == app.after_frame(first).after_frame(second),
        app.frame_actions(first + second) == app.frame_actions(first).take(
            app.frame_actions(first).len() - app.closing_actions(first).len(),
        ) + app.after_frame(first).frame_actions(second),
{
    let whole = first + second;
    lemma_first_exit(first);
    lemma_first_exit(second);
    let n1 = first.len() as int;
    let n2 = leading_toggles(second) as int;
    assert forall|j: int| 0 <= j < n1 + n2 implies whole[j] == TrayMessage::ToggleCrosshair by {
        if j < n1 {
            assert(whole[j] == first[j]);
        } else {
            assert(whole[j] == second[j - n1]);
        }
    }
    if n2 < second.len() {
        assert(whole[n1 + n2] == second[n2]);
    }
    lemma_leading_toggles(whole, n1 + n2);

    let visible = app.crosshair_visible;
    let middle = app.after_frame(first);
    let opening = app.opening_actions();
    let early = toggle_reports(visible, n1 as nat);
    let late = toggle_reports(middle.crosshair_visible, n2 as nat);
    let closing = middle.closing_actions(second);
    let kept = app.frame_actions(first).take(
        app.frame_actions(first).len() - app.closing_actions(first).len(),
    );
    lemma_reports_compose(visible, n1 as nat, n2 as nat);
    assert(kept == opening + early) by {
        assert(app.frame_actions(first) == opening + early + app.closing_actions(first));
        assert(kept =~= opening + early);
    }
    assert(middle.frame_actions(second) == late + closing) by {
        assert(middle.opening_actions() + late =~= late);
    }
    assert(app.frame_actions(whole) == opening + (early + late) + closing);
    assert(opening + (early + late) + closing =~= (opening + early) + (late + closing));
}

/// The reports of toggles in a row are those of the first few, and then
/// those of the rest, which start from the visibility that the first few
/// leave behind.
pub proof fn lemma_reports_compose(visible: bool, first: nat, second: nat)
    ensures
        flipped(visible, first + second) == flipped(flipped(visible, first), second),
        toggle_reports(visible, first + second) == toggle_reports(visible, first)
            + toggle_reports(flipped(visible, first), second),
{
    let whole = toggle_reports(visible, first + second);
    let parts = toggle_reports(visible, first) + toggle_reports(flipped(visible, first), second);
    assert forall|i: int| 0 <= i < whole.len() implies whole[i] == parts[i] by {
        if i >= first {
            assert(flipped(visible, (i + 1) as nat) == flipped(
                flipped(visible, first),
                (i - first + 1) as nat,
            ));
        }
    }
    assert(whole =~= parts);
}

/// A frame that is handed one message does what that message asks for, and
/// then paints the window unless the message was the exit request.
pub proof fn lemma_single_message(app: CrosshairApp, message: TrayMessage)
    requires
        app.has_enabled_passthrough,
    ensures
        app.after_frame(seq![message]) == app.after_message(message),
        app.frame_actions(seq![message]) == app.message_actions(message) + if message
            == TrayMessage::Exit {
            Seq::<Action>::empty()
        } else {
            paint_actions(app.after_message(message).crosshair_visible)
        },
{
    let inbox = seq![message];
    if message == TrayMessage::Exit {
        lemma_leading_toggles(inbox, 0);
        assert(app.frame_actions(inbox) =~= app.message_actions(message) + Seq::<Action>::empty());
    } else {
        lemma_leading_toggles(inbox, 1);
        assert(toggle_reports(app.crosshair_visible, 1) =~= app.message_actions(message));
        assert(app.frame_actions(inbox) =~= app.message_actions(message) + paint_actions(
            app.after_message(message).crosshair_visible,
        ));
    }
}

} // verus!
