use gnome_mcp::{
    saved_report, screenshot_filename, Screenshot, ScreenshotError, ScreenshotEvent, ScreenshotParams,
    ScreenshotSession, ScreenshotStep,
};

fn run(interactive: Option<bool>, configured: bool, events: Vec<ScreenshotEvent>) -> (Vec<ScreenshotStep>, Result<String, ScreenshotError>) {
    let (mut session, first) = Screenshot.begin(ScreenshotParams { interactive }, configured);
    let mut steps = vec![first];
    for event in events {
        assert!(session.is_waiting_for(&event));
        let step = session.step(event);
        if let ScreenshotStep::Finish(outcome) = step {
            assert!(matches!(session, ScreenshotSession::Finished));
            return (steps, outcome);
        }
        steps.push(step);
    }
    panic!("the run did not finish");
}

#[test]
fn screenshot_tool_metadata() {
    assert_eq!(Screenshot::NAME, "take_screenshot");
    assert_eq!(
        Screenshot::DESCRIPTION,
        "Take a screenshot using the desktop portal, falling back to GNOME Shell"
    );
}

#[test]
fn interactive_choice_defaults_to_configuration() {
    let (_, step) = Screenshot.begin(ScreenshotParams { interactive: None }, true);
    assert!(matches!(step, ScreenshotStep::RequestPortal { interactive: true }));
    let (_, step) = Screenshot.begin(ScreenshotParams { interactive: None }, false);
    assert!(matches!(step, ScreenshotStep::RequestPortal { interactive: false }));
    let (_, step) = Screenshot.begin(ScreenshotParams { interactive: Some(false) }, true);
    assert!(matches!(step, ScreenshotStep::RequestPortal { interactive: false }));
    let (_, step) = Screenshot.begin(ScreenshotParams { interactive: Some(true) }, false);
    assert!(matches!(step, ScreenshotStep::RequestPortal { interactive: true }));
}

#[test]
fn filename_from_clock() {
    assert_eq!(screenshot_filename(1700000000), "/tmp/gnome-mcp-screenshot-1700000000.png");
    assert_eq!(screenshot_filename(0), "/tmp/gnome-mcp-screenshot-0.png");
}

#[test]
fn saved_reports() {
    assert_eq!(saved_report(false, "file:///a.png"), "Screenshot taken. File saved to: file:///a.png");
    assert_eq!(
        saved_report(true, "file:///a.png"),
        "Interactive screenshot completed. File saved to: file:///a.png"
    );
}

#[test]
fn portal_success_ends_the_run() {
    let (steps, outcome) = run(Some(false), true, vec![ScreenshotEvent::PortalSaved("file:///home/u/Screenshot.png".to_string())]);
    assert_eq!(steps.len(), 1);
    assert_eq!(outcome.unwrap(), "Screenshot taken. File saved to: file:///home/u/Screenshot.png");
    let (_, outcome) = run(Some(true), false, vec![ScreenshotEvent::PortalSaved("file:///x.png".to_string())]);
    assert_eq!(outcome.unwrap(), "Interactive screenshot completed. File saved to: file:///x.png");
}

#[test]
fn full_screen_fallback_reads_the_clock() {
    let (steps, outcome) = run(
        Some(false),
        false,
        vec![
            ScreenshotEvent::PortalFailed("Cancelled".to_string()),
            ScreenshotEvent::ShellConnected,
            ScreenshotEvent::ClockRead(1234),
            ScreenshotEvent::ShellReplied { success: true, location: "/tmp/gnome-mcp-screenshot-1234.png".to_string() },
        ],
    );
    assert!(matches!(steps[1], ScreenshotStep::ConnectShell));
    assert!(matches!(steps[2], ScreenshotStep::ReadClock));
    match &steps[3] {
        ScreenshotStep::CallScreenshot { filename } => {
            assert_eq!(filename, "/tmp/gnome-mcp-screenshot-1234.png")
        }
        other => panic!("unexpected {:?}", other),
    }
    assert_eq!(outcome.unwrap(), "Screenshot taken. File saved to: /tmp/gnome-mcp-screenshot-1234.png");
}

#[test]
fn interactive_fallback_calls_interactive_screenshot() {
    let (steps, outcome) = run(
        None,
        true,
        vec![
            ScreenshotEvent::PortalFailed("no portal".to_string()),
            ScreenshotEvent::ShellConnected,
            ScreenshotEvent::ShellReplied { success: true, location: "file:///tmp/area.png".to_string() },
        ],
    );
    assert!(matches!(steps[2], ScreenshotStep::CallInteractiveScreenshot));
    assert_eq!(outcome.unwrap(), "Interactive screenshot completed. File saved to: file:///tmp/area.png");
}

#[test]
fn declined_fallback_reports_both_failures() {
    let (_, outcome) = run(
        Some(false),
        true,
        vec![
            ScreenshotEvent::PortalFailed("Response(Cancelled)".to_string()),
            ScreenshotEvent::ShellConnected,
            ScreenshotEvent::ClockRead(5),
            ScreenshotEvent::ShellReplied { success: false, location: String::new() },
        ],
    );
    let err = outcome.unwrap_err();
    assert_eq!(err.portal, "Screenshot was cancelled or failed Response(Cancelled)");
    assert_eq!(err.shell, "GNOME Shell screenshot failed");
    assert_eq!(
        err.message(),
        "Portal screenshot failed: Screenshot was cancelled or failed Response(Cancelled); GNOME Shell fallback failed: GNOME Shell screenshot failed"
    );
    let (_, outcome) = run(
        Some(true),
        true,
        vec![
            ScreenshotEvent::PortalFailed("x".to_string()),
            ScreenshotEvent::ShellConnected,
            ScreenshotEvent::ShellReplied { success: false, location: String::new() },
        ],
    );
    assert_eq!(outcome.unwrap_err().shell, "GNOME Shell interactive screenshot failed");
}

#[test]
fn broken_fallback_reports_the_shell_error() {
    let (steps, outcome) = run(
        Some(false),
        true,
        vec![
            ScreenshotEvent::PortalFailed("e1".to_string()),
            ScreenshotEvent::ShellFailed("no session bus".to_string()),
        ],
    );
    assert_eq!(steps.len(), 2);
    assert_eq!(
        outcome.unwrap_err().message(),
        "Portal screenshot failed: Screenshot was cancelled or failed e1; GNOME Shell fallback failed: no session bus"
    );
    let (_, outcome) = run(
        Some(false),
        true,
        vec![
            ScreenshotEvent::PortalFailed("e1".to_string()),
            ScreenshotEvent::ShellConnected,
            ScreenshotEvent::ShellFailed("clock before epoch".to_string()),
        ],
    );
    assert_eq!(outcome.unwrap_err().shell, "clock before epoch");
}

#[test]
fn screenshot_session_waits_for_the_right_events() {
    let (session, _) = Screenshot.begin(ScreenshotParams { interactive: None }, false);
    assert!(session.is_waiting_for(&ScreenshotEvent::PortalFailed(String::new())));
    assert!(!session.is_waiting_for(&ScreenshotEvent::ShellConnected));
    assert!(!session.is_waiting_for(&ScreenshotEvent::ClockRead(1)));
}
