use gnome_mcp::WindowCommand;

#[test]
fn list_windows_script_is_the_template() {
    let expected = r#"
        function isMaximized(w) {
            if (typeof w.get_maximized === 'function') {
                return Boolean(w.get_maximized());
            }

            return Boolean(w.maximized_horizontally && w.maximized_vertically);
        }

        let windows = global.get_window_actors()
            .map(w => w.get_meta_window())
            .filter(w => w.get_window_type() === Meta.WindowType.NORMAL && !w.is_skip_taskbar())
            .map(w => ({
                id: w.get_id(),
                title: w.get_title(),
                wm_class: w.get_wm_class(),
                workspace: w.get_workspace().index(),
                minimized: w.minimized,
                maximized: isMaximized(w),
                focused: w.has_focus()
            }));
        JSON.stringify(windows);
    "#;
    assert_eq!(WindowCommand::List.script(), expected);
}

#[test]
fn focus_window_script_is_the_template() {
    let window_id = "123";
    let expected = format!(
        r#"
        let windows = global.get_window_actors()
            .map(w => w.get_meta_window())
            .filter(w => w.get_id() === {window_id});
        if (windows.length > 0) {{
            let window = windows[0];
            window.activate(global.get_current_time());
            'focused';
        }} else {{
            'window not found';
        }}
    "#
    );
    assert_eq!((WindowCommand::Focus { window_id: "123".to_string() }).script(), expected);
}

#[test]
fn close_window_script_is_the_template() {
    let window_id = "77";
    let expected = format!(
        r#"
        let windows = global.get_window_actors()
            .map(w => w.get_meta_window())
            .filter(w => w.get_id() === {window_id});
        if (windows.length > 0) {{
            let window = windows[0];
            window.delete(global.get_current_time());
            'closed';
        }} else {{
            'window not found';
        }}
    "#
    );
    assert_eq!((WindowCommand::Close { window_id: "77".to_string() }).script(), expected);
}

#[test]
fn minimize_window_script_is_the_template() {
    let window_id = "5";
    let expected = format!(
        r#"
        let windows = global.get_window_actors()
            .map(w => w.get_meta_window())
            .filter(w => w.get_id() === {window_id});
        if (windows.length > 0) {{
            let window = windows[0];
            window.minimize();
            'minimized';
        }} else {{
            'window not found';
        }}
    "#
    );
    assert_eq!((WindowCommand::Minimize { window_id: "5".to_string() }).script(), expected);
}

#[test]
fn maximize_window_script_is_the_template() {
    let window_id = "9001";
    let expected = format!(
        r#"
        function isMaximized(w) {{
            if (typeof w.get_maximized === 'function') {{
                return Boolean(w.get_maximized());
            }}

            return Boolean(w.maximized_horizontally && w.maximized_vertically);
        }}

        let windows = global.get_window_actors()
            .map(w => w.get_meta_window())
            .filter(w => w.get_id() === {window_id});
        if (windows.length > 0) {{
            let window = windows[0];
            if (isMaximized(window)) {{
                window.unmaximize(Meta.MaximizeFlags.BOTH);
                'unmaximized';
            }} else {{
                window.maximize(Meta.MaximizeFlags.BOTH);
                'maximized';
            }}
        }} else {{
            'window not found';
        }}
    "#
    );
    assert_eq!((WindowCommand::Maximize { window_id: "9001".to_string() }).script(), expected);
}

#[test]
fn switch_workspace_script_is_the_template() {
    let workspace_index: i32 = -3;
    let expected = format!(
        r#"
        let workspaceManager = global.workspace_manager;
        let workspace = workspaceManager.get_workspace_by_index({workspace_index});
        if (workspace) {{
            workspace.activate(global.get_current_time());
            'switched to workspace {workspace_index}';
        }} else {{
            'workspace {workspace_index} not found';
        }}
    "#
    );
    assert_eq!((WindowCommand::SwitchWorkspace { workspace: -3 }).script(), expected);
}

#[test]
fn move_window_to_workspace_script_is_the_template() {
    let window_id = "42"; let workspace_index: i32 = 2;
    let expected = format!(
        r#"
        let windows = global.get_window_actors()
            .map(w => w.get_meta_window())
            .filter(w => w.get_id() === {window_id});
        if (windows.length > 0) {{
            let window = windows[0];
            let workspaceManager = global.workspace_manager;
            let targetWorkspace = workspaceManager.get_workspace_by_index({workspace_index});
            if (targetWorkspace) {{
                window.change_workspace(targetWorkspace);
                'moved to workspace {workspace_index}';
            }} else {{
                'workspace {workspace_index} not found';
            }}
        }} else {{
            'window not found';
        }}
    "#
    );
    assert_eq!((WindowCommand::MoveToWorkspace { window_id: "42".to_string(), workspace: 2 }).script(), expected);
}

#[test]
fn get_window_geometry_script_is_the_template() {
    let window_id = "8";
    let expected = format!(
        r#"
        let windows = global.get_window_actors()
            .map(w => w.get_meta_window())
            .filter(w => w.get_id() === {window_id});
        if (windows.length > 0) {{
            let window = windows[0];
            let rect = window.get_frame_rect();
            JSON.stringify({{
                x: rect.x,
                y: rect.y,
                width: rect.width,
                height: rect.height
            }});
        }} else {{
            'window not found';
        }}
    "#
    );
    assert_eq!((WindowCommand::GetGeometry { window_id: "8".to_string() }).script(), expected);
}

#[test]
fn set_window_geometry_script_is_the_template() {
    let window_id = "8"; let (x, y, width, height): (i32, i32, i32, i32) = (-10, 20, 800, 600);
    let expected = format!(
        r#"
        let windows = global.get_window_actors()
            .map(w => w.get_meta_window())
            .filter(w => w.get_id() === {window_id});
        if (windows.length > 0) {{
            let window = windows[0];
            window.unmaximize(Meta.MaximizeFlags.BOTH);
            window.move_resize_frame(false, {x}, {y}, {width}, {height});
            'geometry set';
        }} else {{
            'window not found';
        }}
    "#
    );
    assert_eq!((WindowCommand::SetGeometry { window_id: "8".to_string(), x: -10, y: 20, width: 800, height: 600 }).script(), expected);
}

#[test]
fn set_window_position_script_is_the_template() {
    let window_id = "8"; let (x, y): (i32, i32) = (0, 2147483647);
    let expected = format!(
        r#"
        let windows = global.get_window_actors()
            .map(w => w.get_meta_window())
            .filter(w => w.get_id() === {window_id});
        if (windows.length > 0) {{
            let window = windows[0];
            let rect = window.get_frame_rect();
            window.move_resize_frame(false, {x}, {y}, rect.width, rect.height);
            'position set';
        }} else {{
            'window not found';
        }}
    "#
    );
    assert_eq!((WindowCommand::SetPosition { window_id: "8".to_string(), x: 0, y: 2147483647 }).script(), expected);
}

#[test]
fn set_window_size_script_is_the_template() {
    let window_id = "8"; let (width, height): (i32, i32) = (1, -2147483648);
    let expected = format!(
        r#"
        let windows = global.get_window_actors()
            .map(w => w.get_meta_window())
            .filter(w => w.get_id() === {window_id});
        if (windows.length > 0) {{
            let window = windows[0];
            window.unmaximize(Meta.MaximizeFlags.BOTH);
            let rect = window.get_frame_rect();
            window.move_resize_frame(false, rect.x, rect.y, {width}, {height});
            'size set';
        }} else {{
            'window not found';
        }}
    "#
    );
    assert_eq!((WindowCommand::SetSize { window_id: "8".to_string(), width: 1, height: -2147483648 }).script(), expected);
}

#[test]
fn snap_window_script_is_the_template() {
    let window_id = "31"; let position = "left";
    let expected = format!(
        r#"
        let windows = global.get_window_actors()
            .map(w => w.get_meta_window())
            .filter(w => w.get_id() === {window_id});
        if (windows.length > 0) {{
            let window = windows[0];
            let monitor = window.get_monitor();
            let workArea = global.workspace_manager.get_active_workspace().get_work_area_for_monitor(monitor);

            window.unmaximize(Meta.MaximizeFlags.BOTH);

            let x, y, width, height;
            if ('{position}' === 'left') {{
                x = workArea.x;
                y = workArea.y;
                width = Math.floor(workArea.width / 2);
                height = workArea.height;
            }} else if ('{position}' === 'right') {{
                x = workArea.x + Math.floor(workArea.width / 2);
                y = workArea.y;
                width = Math.ceil(workArea.width / 2);
                height = workArea.height;
            }} else {{
                'invalid position: must be left or right';
            }}

            if (x !== undefined) {{
                window.move_resize_frame(false, x, y, width, height);
                'snapped to {position}';
            }} else {{
                'invalid position: must be left or right';
            }}
        }} else {{
            'window not found';
        }}
    "#
    );
    assert_eq!((WindowCommand::Snap { window_id: "31".to_string(), position: "left".to_string() }).script(), expected);
}
