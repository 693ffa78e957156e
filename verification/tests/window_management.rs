use gnome_mcp::{
    eval_outcome, Action, Param, WindowCommand, WindowError, WindowEvent, WindowManagement,
    WindowManagementParams, WindowSession, WindowStep,
};

fn params(action: &str) -> WindowManagementParams {
    WindowManagementParams {
        action: action.to_string(),
        window_id: None,
        workspace: None,
        x: None,
        y: None,
        width: None,
        height: None,
        position: None,
    }
}

fn with_window(action: &str, id: &str) -> WindowManagementParams {
    let mut p = params(action);
    p.window_id = Some(id.to_string());
    p
}

fn missing_of(r: Result<WindowCommand, WindowError>) -> (Param, Action) {
    match r {
        Err(WindowError::MissingParam { param, action }) => (param, action),
        other => panic!("expected a missing parameter, got {:?}", other),
    }
}

fn run(params: WindowManagementParams, events: Vec<WindowEvent>) -> (Vec<WindowStep>, Result<String, WindowError>) {
    let (mut session, first) = WindowManagement.begin(params);
    let mut steps = vec![first];
    for event in events {
        assert!(session.is_waiting_for(&event));
        let step = session.step(event);
        if let WindowStep::Finish(outcome) = step {
            assert!(matches!(session, WindowSession::Finished));
            return (steps, outcome);
        }
        steps.push(step);
    }
    panic!("the run did not finish");
}

#[test]
fn tool_metadata() {
    assert_eq!(WindowManagement::NAME, "window_management");
    assert!(WindowManagement::DESCRIPTION.starts_with("Manage windows and workspaces via GNOME Shell"));
}

#[test]
fn list_needs_no_parameters() {
    assert!(matches!(params("list").into_command(), Ok(WindowCommand::List)));
}

#[test]
fn unknown_action_is_reported_with_the_available_ones() {
    let err = params("resize").into_command().unwrap_err();
    assert!(matches!(&err, WindowError::UnknownAction(a) if a == "resize"));
    assert_eq!(
        err.message(),
        "Unknown action: resize. Available: list, focus, close, minimize, maximize, switch_workspace, move_to_workspace, get_geometry, set_geometry, set_position, set_size, snap"
    );
}

#[test]
fn window_id_is_required_by_window_actions() {
    for (name, action) in [
        ("focus", Action::Focus),
        ("close", Action::Close),
        ("minimize", Action::Minimize),
        ("maximize", Action::Maximize),
        ("move_to_workspace", Action::MoveToWorkspace),
        ("get_geometry", Action::GetGeometry),
        ("set_geometry", Action::SetGeometry),
        ("set_position", Action::SetPosition),
        ("set_size", Action::SetSize),
        ("snap", Action::Snap),
    ] {
        let mut p = params(name);
        p.workspace = Some(1);
        p.x = Some(1);
        p.y = Some(1);
        p.width = Some(1);
        p.height = Some(1);
        p.position = Some("left".to_string());
        let err = p.into_command().unwrap_err();
        assert_eq!(err.message(), format!("window_id required for {name} action"));
        assert!(matches!(err, WindowError::MissingParam { param: Param::WindowId, action: a } if a == action));
    }
}

#[test]
fn switch_workspace_needs_the_workspace() {
    let err = params("switch_workspace").into_command().unwrap_err();
    assert_eq!(err.message(), "workspace required for switch_workspace action");
}

#[test]
fn parameters_are_checked_in_order() {
    let p = with_window("set_geometry", "1");
    assert_eq!(missing_of(p.into_command()), (Param::X, Action::SetGeometry));
    let mut p = with_window("set_geometry", "1");
    p.x = Some(0);
    assert_eq!(missing_of(p.into_command()), (Param::Y, Action::SetGeometry));
    p = with_window("set_geometry", "1");
    p.x = Some(0);
    p.y = Some(0);
    assert_eq!(missing_of(p.into_command()), (Param::Width, Action::SetGeometry));
    p = with_window("set_geometry", "1");
    p.x = Some(0);
    p.y = Some(0);
    p.width = Some(0);
    let err = p.into_command().unwrap_err();
    assert_eq!(err.message(), "height required for set_geometry action");

    let mut p = with_window("set_size", "1");
    p.height = Some(3);
    assert_eq!(missing_of(p.into_command()), (Param::Width, Action::SetSize));
    let mut p = with_window("set_position", "1");
    p.y = Some(3);
    assert_eq!(missing_of(p.into_command()), (Param::X, Action::SetPosition));
    let p = with_window("move_to_workspace", "1");
    assert_eq!(missing_of(p.into_command()), (Param::Workspace, Action::MoveToWorkspace));
    let p = with_window("snap", "1");
    assert_eq!(missing_of(p.into_command()), (Param::Position, Action::Snap));
    // window_id is checked before everything else
    let mut p = params("move_to_workspace");
    p.workspace = None;
    assert_eq!(missing_of(p.into_command()), (Param::WindowId, Action::MoveToWorkspace));
}

#[test]
fn numbers_outside_32_bits_are_refused() {
    let mut p = params("switch_workspace");
    p.workspace = Some(4294967296);
    let err = p.into_command().unwrap_err();
    assert!(matches!(err, WindowError::OutOfRange { param: Param::Workspace, value: 4294967296 }));
    assert_eq!(err.message(), "workspace out of range: 4294967296");
    let mut p = with_window("move_to_workspace", "4");
    p.workspace = Some(-2147483649);
    assert_eq!(p.into_command().unwrap_err().message(), "workspace out of range: -2147483649");
    let mut p = with_window("set_geometry", "7");
    p.x = Some(-1);
    p.y = Some(2147483648);
    p.width = Some(640);
    p.height = Some(480);
    assert_eq!(p.into_command().unwrap_err().message(), "y out of range: 2147483648");
    let mut p = with_window("set_size", "7");
    p.width = Some(i64::MIN);
    p.height = Some(1);
    assert_eq!(p.into_command().unwrap_err().message(), "width out of range: -9223372036854775808");
}

#[test]
fn numbers_at_the_32_bit_limits_are_kept() {
    let mut p = params("switch_workspace");
    p.workspace = Some(2147483647);
    assert!(matches!(p.into_command(), Ok(WindowCommand::SwitchWorkspace { workspace: 2147483647 })));
    let mut p = with_window("set_position", "7");
    p.x = Some(-2147483648);
    p.y = Some(0);
    match p.into_command() {
        Ok(WindowCommand::SetPosition { window_id, x, y }) => {
            assert_eq!(window_id, "7");
            assert_eq!((x, y), (-2147483648, 0));
        }
        other => panic!("unexpected {:?}", other),
    }
}

#[test]
fn texts_that_are_not_window_ids_are_refused() {
    for bad in ["0 || true", "", "012", "9007199254740992", "99999999999999999999", "12a", "-1", " 1", "1.5"] {
        let err = with_window("close", bad).into_command().unwrap_err();
        assert!(matches!(&err, WindowError::InvalidWindowId(id) if id == bad));
        assert_eq!(err.message(), format!("invalid window_id: {bad}"));
    }
    for good in ["0", "7", "1234567890123456", "9007199254740991"] {
        assert!(matches!(with_window("close", good).into_command(), Ok(WindowCommand::Close { .. })));
    }
}

#[test]
fn presence_is_checked_before_validity() {
    let mut p = with_window("set_position", "abc");
    p.y = Some(1);
    assert_eq!(p.into_command().unwrap_err().message(), "x required for set_position action");
    let p = with_window("set_size", "x");
    assert_eq!(p.into_command().unwrap_err().message(), "width required for set_size action");
    let p = with_window("snap", "x");
    assert_eq!(p.into_command().unwrap_err().message(), "position required for snap action");
    let mut p = with_window("set_size", "x");
    p.width = Some(1 << 40);
    p.height = Some(1);
    assert!(matches!(p.into_command(), Err(WindowError::InvalidWindowId(_))));
    let mut p = with_window("set_size", "4");
    p.width = Some(1 << 40);
    p.height = Some(1 << 41);
    assert_eq!(p.into_command().unwrap_err().message(), "width out of range: 1099511627776");
}

#[test]
fn snap_to_an_unknown_position_runs_no_script() {
    let mut p = with_window("snap", "3");
    p.position = Some("top".to_string());
    assert!(matches!(p.into_command(), Ok(WindowCommand::Snap { .. })));
    let mut p = with_window("snap", "3");
    p.position = Some("left'); global.x = 1; ('".to_string());
    let (steps, outcome) = run(p, vec![WindowEvent::Connected, WindowEvent::ShellVersionRead]);
    assert_eq!(steps.len(), 2);
    assert_eq!(outcome.unwrap(), "Window 3 invalid position: must be left or right");
    let c = WindowCommand::Snap { window_id: "3".to_string(), position: "top".to_string() };
    assert_eq!(c.unknown_snap_report().unwrap(), "Window 3 invalid position: must be left or right");
    let c = WindowCommand::Snap { window_id: "3".to_string(), position: "right".to_string() };
    assert!(c.unknown_snap_report().is_none());
}

#[test]
fn snap_to_a_known_position_runs_the_snap_script() {
    let mut p = with_window("snap", "3");
    p.position = Some("right".to_string());
    let (steps, outcome) = run(
        p,
        vec![
            WindowEvent::Connected,
            WindowEvent::ShellVersionRead,
            WindowEvent::EvalReplied { success: true, text: "snapped to right".to_string() },
        ],
    );
    assert!(matches!(&steps[2], WindowStep::Eval(_)));
    assert_eq!(outcome.unwrap(), "Window 3 snapped to right");
}

#[test]
fn complete_parameters_give_commands() {
    let mut p = with_window("snap", "12");
    p.position = Some("right".to_string());
    match p.into_command() {
        Ok(WindowCommand::Snap { window_id, position }) => {
            assert_eq!(window_id, "12");
            assert_eq!(position, "right");
        }
        other => panic!("unexpected {:?}", other),
    }
    let mut p = with_window("move_to_workspace", "3");
    p.workspace = Some(0);
    assert!(matches!(p.into_command(), Ok(WindowCommand::MoveToWorkspace { workspace: 0, .. })));
}

#[test]
fn error_messages() {
    assert_eq!(WindowError::Connection("no bus".to_string()).message(), "no bus");
    assert_eq!(
        WindowError::ShellUnreachable("timeout".to_string()).message(),
        "Cannot connect to GNOME Shell: timeout"
    );
    assert_eq!(
        WindowError::AccessDenied.message(),
        "Access denied. GNOME Shell unsafe mode must be enabled. Open Looking Glass (Alt+F2, type 'lg') and run: global.context.unsafe_mode = true"
    );
    assert_eq!(WindowError::EvalFailed("boom".to_string()).message(), "Shell eval failed: boom");
    assert_eq!(
        WindowError::ScriptFailed("TypeError".to_string()).message(),
        "Script execution failed: TypeError"
    );
    assert_eq!(WindowError::ReplyUnreadable("bad signature".to_string()).message(), "bad signature");
}

#[test]
fn eval_failures_are_classified() {
    let denied = WindowError::from_eval_failure(
        "org.freedesktop.DBus.Error.AccessDenied: Eval is not allowed".to_string(),
    );
    assert!(matches!(denied, WindowError::AccessDenied));
    let unauthorized = WindowError::from_eval_failure("caller is not authorized".to_string());
    assert!(matches!(unauthorized, WindowError::AccessDenied));
    let other = WindowError::from_eval_failure("timed out".to_string());
    assert!(matches!(&other, WindowError::EvalFailed(t) if t == "timed out"));
    assert_eq!(other.message(), "Shell eval failed: timed out");
}

#[test]
fn eval_replies() {
    assert_eq!(eval_outcome(true, "focused".to_string()).unwrap(), "focused");
    let err = eval_outcome(false, "ReferenceError: x".to_string()).unwrap_err();
    assert_eq!(err.message(), "Script execution failed: ReferenceError: x");
}

#[test]
fn reports_name_the_window() {
    let c = WindowCommand::Focus { window_id: "5".to_string() };
    assert_eq!(c.report("focused".to_string()).unwrap(), "Window 5 focused");
    let c = WindowCommand::Close { window_id: "5".to_string() };
    assert_eq!(c.report("window not found".to_string()).unwrap(), "Window 5 window not found");
    let c = WindowCommand::SwitchWorkspace { workspace: 2 };
    assert_eq!(c.report("switched to workspace 2".to_string()).unwrap(), "switched to workspace 2");
}

#[test]
fn geometry_reports() {
    let c = WindowCommand::GetGeometry { window_id: "9".to_string() };
    assert_eq!(c.report("window not found".to_string()).unwrap(), "Window 9 not found");
    assert_eq!(
        c.report("{\"x\":0,\"y\":0,\"width\":10,\"height\":20}".to_string()).unwrap(),
        "Window 9 geometry: {\"x\":0,\"y\":0,\"width\":10,\"height\":20}"
    );
}

#[test]
fn window_list_is_reindented() {
    let reply = "[{\"id\":1,\"title\":\"Terminal\"}]".to_string();
    assert_eq!(
        WindowCommand::List.report("[{\"id\":1}]".to_string()).unwrap(),
        "Windows:\n[\n  {\n    \"id\": 1\n  }\n]"
    );
    let report = WindowCommand::List.report(reply.clone()).unwrap();
    let value: serde_json::Value = serde_json::from_str(&reply).unwrap();
    assert_eq!(report, format!("Windows:\n{}", serde_json::to_string_pretty(&value).unwrap()));
    assert_eq!(report, "Windows:\n[\n  {\n    \"id\": 1,\n    \"title\": \"Terminal\"\n  }\n]");
}

#[test]
fn window_list_that_is_not_json_fails() {
    let err = WindowCommand::List.report("not json".to_string()).unwrap_err();
    assert!(matches!(err, WindowError::InvalidJson(_)));
    assert!(err.message().contains("line 1"));
}

#[test]
fn run_focus() {
    let (steps, outcome) = run(
        with_window("focus", "77"),
        vec![
            WindowEvent::Connected,
            WindowEvent::ShellVersionRead,
            WindowEvent::EvalReplied { success: true, text: "focused".to_string() },
        ],
    );
    assert!(matches!(steps[0], WindowStep::Connect));
    assert!(matches!(steps[1], WindowStep::ReadShellVersion));
    match &steps[2] {
        WindowStep::Eval(script) => {
            assert_eq!(*script, (WindowCommand::Focus { window_id: "77".to_string() }).script())
        }
        other => panic!("unexpected {:?}", other),
    }
    assert_eq!(outcome.unwrap(), "Window 77 focused");
}

#[test]
fn run_list() {
    let (steps, outcome) = run(
        params("list"),
        vec![
            WindowEvent::Connected,
            WindowEvent::ShellVersionRead,
            WindowEvent::EvalReplied { success: true, text: "[]".to_string() },
        ],
    );
    assert_eq!(steps.len(), 3);
    assert_eq!(outcome.unwrap(), "Windows:\n[]");
}

#[test]
fn run_stops_when_the_bus_is_unavailable() {
    let (steps, outcome) = run(params("list"), vec![WindowEvent::ConnectFailed("no session bus".to_string())]);
    assert_eq!(steps.len(), 1);
    assert_eq!(outcome.unwrap_err().message(), "no session bus");
}

#[test]
fn run_stops_when_the_shell_is_unreachable() {
    let (_, outcome) = run(
        params("bogus"),
        vec![WindowEvent::Connected, WindowEvent::ShellVersionFailed("ServiceUnknown".to_string())],
    );
    assert_eq!(outcome.unwrap_err().message(), "Cannot connect to GNOME Shell: ServiceUnknown");
}

#[test]
fn run_reports_bad_parameters_after_the_shell_answered() {
    let (steps, outcome) = run(
        params("focus"),
        vec![WindowEvent::Connected, WindowEvent::ShellVersionRead],
    );
    assert_eq!(steps.len(), 2);
    assert_eq!(outcome.unwrap_err().message(), "window_id required for focus action");
}

#[test]
fn run_reports_refused_eval() {
    let (_, outcome) = run(
        with_window("close", "1"),
        vec![
            WindowEvent::Connected,
            WindowEvent::ShellVersionRead,
            WindowEvent::EvalFailed("org.freedesktop.DBus.Error.AccessDenied".to_string()),
        ],
    );
    assert!(matches!(outcome, Err(WindowError::AccessDenied)));
}

#[test]
fn run_reports_failed_script_and_unreadable_reply() {
    let (_, outcome) = run(
        with_window("minimize", "1"),
        vec![
            WindowEvent::Connected,
            WindowEvent::ShellVersionRead,
            WindowEvent::EvalReplied { success: false, text: "oops".to_string() },
        ],
    );
    assert_eq!(outcome.unwrap_err().message(), "Script execution failed: oops");
    let (_, outcome) = run(
        with_window("minimize", "1"),
        vec![
            WindowEvent::Connected,
            WindowEvent::ShellVersionRead,
            WindowEvent::EvalReplyUnreadable("signature mismatch".to_string()),
        ],
    );
    assert_eq!(outcome.unwrap_err().message(), "signature mismatch");
}

#[test]
fn session_waits_for_the_right_events() {
    let (mut session, _) = WindowManagement.begin(params("list"));
    assert!(session.is_waiting_for(&WindowEvent::Connected));
    assert!(!session.is_waiting_for(&WindowEvent::ShellVersionRead));
    let _ = session.step(WindowEvent::Connected);
    assert!(session.is_waiting_for(&WindowEvent::ShellVersionFailed(String::new())));
    assert!(!session.is_waiting_for(&WindowEvent::EvalFailed(String::new())));
}
