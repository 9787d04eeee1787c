use crosshair_overlay::message::TrayMessage;
use crosshair_overlay::overlay::{Action, CrosshairApp, EXIT_STATUS};

const TOGGLE: TrayMessage = TrayMessage::ToggleCrosshair;
const EXIT: TrayMessage = TrayMessage::Exit;

fn running(visible: bool) -> CrosshairApp {
    CrosshairApp { has_enabled_passthrough: true, crosshair_visible: visible }
}

fn leave() -> Vec<Action> {
    vec![Action::ReportExit, Action::CloseWindow, Action::ExitProcess(0)]
}

#[test]
fn new_overlay_shows_crosshair_and_has_no_passthrough() {
    let app = CrosshairApp::new();
    assert!(!app.has_enabled_passthrough);
    assert!(app.crosshair_visible);
}

#[test]
fn exit_status_is_zero() {
    assert_eq!(EXIT_STATUS, 0);
}

#[test]
fn frame_with_nothing_pending_changes_nothing_and_paints() {
    for visible in [true, false] {
        let mut app = running(visible);
        for _ in 0..3 {
            let actions = app.update(&[]);
            assert_eq!(app, running(visible));
            assert_eq!(actions.contains(&Action::DrawCrosshair), visible);
            assert_eq!(actions.first(), Some(&Action::PaintBackground));
            assert_eq!(actions.last(), Some(&Action::RequestRepaint));
            assert_eq!(actions.len(), if visible { 3 } else { 2 });
        }
    }
}

#[test]
fn idle_frames_between_toggles_keep_the_crosshair() {
    let mut app = CrosshairApp::new();
    app.update(&[]);
    app.update(&[TOGGLE]);
    assert!(!app.crosshair_visible);
    app.update(&[]);
    app.update(&[]);
    assert!(!app.crosshair_visible);
    app.update(&[TOGGLE]);
    app.update(&[]);
    assert!(app.crosshair_visible);
}

#[test]
fn first_frame_enables_passthrough_then_paints() {
    let mut app = CrosshairApp::new();
    let actions = app.update(&[]);
    assert_eq!(
        actions,
        vec![
            Action::EnablePassthrough,
            Action::PaintBackground,
            Action::DrawCrosshair,
            Action::RequestRepaint,
        ]
    );
    assert_eq!(app, running(true));
}

#[test]
fn passthrough_is_enabled_once() {
    let mut app = CrosshairApp::new();
    let first = app.update(&[]);
    let second = app.update(&[]);
    let third = app.update(&[TOGGLE]);
    assert_eq!(first.iter().filter(|a| **a == Action::EnablePassthrough).count(), 1);
    assert!(!second.contains(&Action::EnablePassthrough));
    assert!(!third.contains(&Action::EnablePassthrough));
}

#[test]
fn first_frame_handles_what_it_is_handed() {
    let mut app = CrosshairApp::new();
    let actions = app.update(&[TOGGLE]);
    assert_eq!(
        actions,
        vec![
            Action::EnablePassthrough,
            Action::ReportVisibility(false),
            Action::PaintBackground,
            Action::RequestRepaint,
        ]
    );
    assert_eq!(app, running(false));
}

#[test]
fn first_frame_can_end_the_program() {
    let mut app = CrosshairApp::new();
    let actions = app.update(&[EXIT]);
    assert_eq!(
        actions,
        vec![
            Action::EnablePassthrough,
            Action::ReportExit,
            Action::CloseWindow,
            Action::ExitProcess(0),
        ]
    );
}

#[test]
fn frame_without_messages_paints_again() {
    let mut app = running(true);
    let actions = app.update(&[]);
    assert_eq!(
        actions,
        vec![Action::PaintBackground, Action::DrawCrosshair, Action::RequestRepaint]
    );
    assert_eq!(app, running(true));
}

#[test]
fn hidden_crosshair_is_not_drawn() {
    let mut app = running(false);
    let actions = app.update(&[]);
    assert_eq!(actions, vec![Action::PaintBackground, Action::RequestRepaint]);
    assert!(!actions.contains(&Action::DrawCrosshair));
    assert_eq!(app, running(false));
}

#[test]
fn toggle_hides_the_crosshair() {
    let mut app = running(true);
    let actions = app.update(&[TOGGLE]);
    assert_eq!(
        actions,
        vec![Action::ReportVisibility(false), Action::PaintBackground, Action::RequestRepaint]
    );
    assert!(!app.crosshair_visible);
    assert!(app.has_enabled_passthrough);
}

#[test]
fn toggle_shows_the_hidden_crosshair() {
    let mut app = running(false);
    let actions = app.update(&[TOGGLE]);
    assert_eq!(
        actions,
        vec![
            Action::ReportVisibility(true),
            Action::PaintBackground,
            Action::DrawCrosshair,
            Action::RequestRepaint,
        ]
    );
    assert!(app.crosshair_visible);
}

#[test]
fn two_toggles_in_two_frames_restore_the_crosshair() {
    let mut app = running(true);
    app.update(&[TOGGLE]);
    assert!(!app.crosshair_visible);
    app.update(&[TOGGLE]);
    assert!(app.crosshair_visible);
}

#[test]
fn two_toggles_in_one_frame_restore_the_crosshair() {
    let mut app = running(true);
    let actions = app.update(&[TOGGLE, TOGGLE]);
    assert_eq!(
        actions,
        vec![
            Action::ReportVisibility(false),
            Action::ReportVisibility(true),
            Action::PaintBackground,
            Action::DrawCrosshair,
            Action::RequestRepaint,
        ]
    );
    assert_eq!(app, running(true));
}

#[test]
fn three_toggles_flip_the_crosshair() {
    let mut app = running(true);
    let actions = app.update(&[TOGGLE, TOGGLE, TOGGLE]);
    assert_eq!(
        actions,
        vec![
            Action::ReportVisibility(false),
            Action::ReportVisibility(true),
            Action::ReportVisibility(false),
            Action::PaintBackground,
            Action::RequestRepaint,
        ]
    );
    assert_eq!(app, running(false));
}

#[test]
fn many_toggles_go_by_their_parity() {
    let even = vec![TOGGLE; 1000];
    let odd = vec![TOGGLE; 1001];
    let mut app = running(true);
    let actions = app.update(&even);
    assert!(app.crosshair_visible);
    assert_eq!(actions.len(), 1003);
    assert_eq!(actions[0], Action::ReportVisibility(false));
    assert_eq!(actions[999], Action::ReportVisibility(true));
    assert_eq!(actions[1000], Action::PaintBackground);
    let actions = app.update(&odd);
    assert!(!app.crosshair_visible);
    assert_eq!(actions.len(), 1003);
    assert_eq!(actions[1000], Action::ReportVisibility(false));
    assert_eq!(actions[1002], Action::RequestRepaint);
}

#[test]
fn exit_ends_the_frame_at_once() {
    let mut app = running(true);
    let actions = app.update(&[EXIT]);
    assert_eq!(actions, leave());
    assert_eq!(app, running(true));
}

#[test]
fn exit_ends_the_frame_whether_or_not_the_crosshair_shows() {
    let mut app = running(false);
    let actions = app.update(&[EXIT]);
    assert_eq!(actions, leave());
    assert_eq!(app, running(false));
}

#[test]
fn nothing_is_painted_after_an_exit() {
    let mut app = running(true);
    let actions = app.update(&[TOGGLE, TOGGLE, EXIT]);
    assert!(!actions.contains(&Action::PaintBackground));
    assert!(!actions.contains(&Action::DrawCrosshair));
    assert!(!actions.contains(&Action::RequestRepaint));
    assert_eq!(actions.last(), Some(&Action::ExitProcess(0)));
}

#[test]
fn toggles_before_an_exit_are_handled_and_reported() {
    let mut app = running(true);
    let actions = app.update(&[TOGGLE, EXIT]);
    assert_eq!(
        actions,
        vec![
            Action::ReportVisibility(false),
            Action::ReportExit,
            Action::CloseWindow,
            Action::ExitProcess(0),
        ]
    );
    assert_eq!(app, running(false));
}

#[test]
fn messages_behind_an_exit_are_not_handled() {
    let mut whole = running(true);
    let mut cut = running(true);
    let long = whole.update(&[TOGGLE, EXIT, TOGGLE, TOGGLE, EXIT, TOGGLE]);
    let short = cut.update(&[TOGGLE, EXIT]);
    assert_eq!(long, short);
    assert_eq!(whole, cut);
    assert_eq!(whole, running(false));
}

#[test]
fn exit_first_leaves_the_crosshair_alone() {
    let mut app = running(true);
    let actions = app.update(&[EXIT, TOGGLE]);
    assert_eq!(actions, leave());
    assert!(app.crosshair_visible);
}

#[test]
fn one_frame_or_two_end_in_the_same_state() {
    let first = [TOGGLE, TOGGLE, TOGGLE];
    let second = [TOGGLE, EXIT, TOGGLE];
    let joined = [TOGGLE, TOGGLE, TOGGLE, TOGGLE, EXIT, TOGGLE];

    let mut once = CrosshairApp::new();
    let all = once.update(&joined);

    let mut twice = CrosshairApp::new();
    let head = twice.update(&first);
    let tail = twice.update(&second);

    assert_eq!(once, twice);
    // the first of the two frames paints, with the crosshair hidden: two actions
    let mut expected = head[..head.len() - 2].to_vec();
    expected.extend_from_slice(&tail);
    assert_eq!(all, expected);
}

#[test]
fn handle_toggle_flips_and_reports() {
    let mut app = running(true);
    let mut actions = vec![Action::PaintBackground];
    let exits = app.handle(TOGGLE, &mut actions);
    assert!(!exits);
    assert_eq!(app, running(false));
    assert_eq!(actions, vec![Action::PaintBackground, Action::ReportVisibility(false)]);
    let exits = app.handle(TOGGLE, &mut actions);
    assert!(!exits);
    assert_eq!(app, running(true));
    assert_eq!(
        actions,
        vec![
            Action::PaintBackground,
            Action::ReportVisibility(false),
            Action::ReportVisibility(true),
        ]
    );
}

#[test]
fn handle_toggle_leaves_the_passthrough_as_it_is() {
    let mut app = CrosshairApp::new();
    let mut actions = Vec::new();
    app.handle(TOGGLE, &mut actions);
    assert!(!app.has_enabled_passthrough);
    assert!(!app.crosshair_visible);
}

#[test]
fn handle_exit_asks_for_the_exit() {
    let mut app = running(false);
    let mut actions = Vec::new();
    let exits = app.handle(EXIT, &mut actions);
    assert!(exits);
    assert_eq!(app, running(false));
    assert_eq!(actions, leave());
}

#[test]
fn paint_appends_the_crosshair_only_when_visible() {
    let mut actions = vec![Action::EnablePassthrough];
    running(true).paint(&mut actions);
    assert_eq!(
        actions,
        vec![
            Action::EnablePassthrough,
            Action::PaintBackground,
            Action::DrawCrosshair,
            Action::RequestRepaint,
        ]
    );
    let mut actions = Vec::new();
    running(false).paint(&mut actions);
    assert_eq!(actions, vec![Action::PaintBackground, Action::RequestRepaint]);
}

#[test]
fn one_message_in_a_frame_is_that_message_then_the_painting() {
    for visible in [true, false] {
        let mut by_frame = running(visible);
        let frame = by_frame.update(&[TOGGLE]);
        let mut by_step = running(visible);
        let mut steps = Vec::new();
        by_step.handle(TOGGLE, &mut steps);
        by_step.paint(&mut steps);
        assert_eq!(frame, steps);
        assert_eq!(by_frame, by_step);
    }
}

#[test]
fn console_lines_read_as_expected() {
    assert_eq!(Action::ReportExit.console_line(), Some("Exit"));
    assert_eq!(
        Action::ReportVisibility(true).console_line(),
        Some("Crosshair visibility: true")
    );
    assert_eq!(
        Action::ReportVisibility(false).console_line(),
        Some("Crosshair visibility: false")
    );
}

#[test]
fn console_line_matches_the_formatted_flag() {
    for visible in [true, false] {
        let line = Action::ReportVisibility(visible).console_line();
        assert_eq!(line, Some(format!("Crosshair visibility: {}", visible).as_str()));
    }
}

#[test]
fn other_actions_print_nothing() {
    for action in [
        Action::EnablePassthrough,
        Action::CloseWindow,
        Action::ExitProcess(0),
        Action::PaintBackground,
        Action::DrawCrosshair,
        Action::RequestRepaint,
    ] {
        assert_eq!(action.console_line(), None);
    }
}
