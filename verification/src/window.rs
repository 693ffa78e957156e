//! Window management: which GNOME Shell script an action runs, and what the
//! caller is told about the outcome.

use vstd::prelude::*;

use crate::action::{Action, Param};
use crate::decimal::{i64_to_decimal, int_decimal};
use crate::json::{JsonParseError, json_parse_error_text, json_pretty_text, json_text_parses, parse_json_document};
use crate::scripts::{
    is_snap_position, is_window_id, window_id_is_valid,
    close_window_script, focus_window_script, get_window_geometry_script, list_windows_script,
    maximize_window_script, minimize_window_script, move_window_to_workspace_script,
    set_window_geometry_script, set_window_position_script, set_window_size_script,
    snap_window_script, spec_close_window_script, spec_focus_window_script,
    spec_get_window_geometry_script, spec_list_windows_script, spec_maximize_window_script,
    spec_minimize_window_script, spec_move_window_to_workspace_script,
    spec_set_window_geometry_script, spec_set_window_position_script, spec_set_window_size_script,
    spec_snap_window_script, spec_switch_workspace_script, switch_workspace_script,
};
use crate::text::{contains_text, lemma_contains_middle, str_contains, str_equals};

verus! {

/// The parameters of the window management tool. Numbers arrive as 64-bit
/// integers; the scripts take 32-bit integers, so a number outside that
/// range is refused.
#[derive(Debug)]
pub struct WindowManagementParams {
    /// The action to perform, by name.
    pub action: String,
    /// The id of the window that the action applies to, in decimal.
    pub window_id: Option<String>,
    /// A workspace index, counted from 0.
    pub workspace: Option<i64>,
    /// The left edge of the window frame.
    pub x: Option<i64>,
    /// The top edge of the window frame.
    pub y: Option<i64>,
    /// The width of the window frame.
    pub width: Option<i64>,
    /// The height of the window frame.
    pub height: Option<i64>,
    /// The half of the work area to snap to: `left` or `right`.
    pub position: Option<String>,
}

/// Why a window action failed.
#[derive(Debug)]
pub enum WindowError {
    /// The session bus or the GNOME Shell proxy could not be opened; the text
    /// is the bus library's description.
    Connection(String),
    /// The `ShellVersion` property could not be read.
    ShellUnreachable(String),
    /// The action needs a parameter that was not given.
    MissingParam { param: Param, action: Action },
    /// The action names no known action.
    UnknownAction(String),
    /// GNOME Shell refused to evaluate scripts.
    AccessDenied,
    /// The call to `Eval` failed for another reason.
    EvalFailed(String),
    /// The script ran and reported failure, with this text.
    ScriptFailed(String),
    /// The reply of `Eval` could not be read as a flag and a text.
    ReplyUnreadable(String),
    /// The window id is not a window id.
    InvalidWindowId(String),
    /// A number does not fit in 32 bits.
    OutOfRange { param: Param, value: i64 },
    /// The window list that the script produced is not JSON.
    InvalidJson(JsonParseError),
}

/// A window action with all the arguments it needs.
#[derive(Debug)]
pub enum WindowCommand {
    List,
    Focus { window_id: String },
    Close { window_id: String },
    Minimize { window_id: String },
    Maximize { window_id: String },
    SwitchWorkspace { workspace: i32 },
    MoveToWorkspace { window_id: String, workspace: i32 },
    GetGeometry { window_id: String },
    SetGeometry { window_id: String, x: i32, y: i32, width: i32, height: i32 },
    SetPosition { window_id: String, x: i32, y: i32 },
    SetSize { window_id: String, width: i32, height: i32 },
    Snap { window_id: String, position: String },
}

/// The error for a parameter that `action` needs and did not get.
pub open spec fn missing(param: Param, action: Action) -> WindowError {
    WindowError::MissingParam { param, action }
}

/// The list of action names that the unknown-action message offers.
pub open spec fn available_actions() -> Seq<char> {
    "list, focus, close, minimize, maximize, switch_workspace, move_to_workspace, get_geometry, set_geometry, set_position, set_size, snap"@
}

/// The message that explains how to let GNOME Shell evaluate scripts.
pub open spec fn access_denied_message() -> Seq<char> {
    "Access denied. GNOME Shell unsafe mode must be enabled. Open Looking Glass (Alt+F2, type 'lg') and run: global.context.unsafe_mode = true"@
}

impl WindowError {
    /// The text that reports this error.
    pub open spec fn spec_message(self) -> Seq<char> {
        match self {
            WindowError::Connection(text) => text@,
            WindowError::ShellUnreachable(text) => "Cannot connect to GNOME Shell: "@ + text@,
            WindowError::MissingParam { param, action } => param.spec_name() + " required for "@
                + action.spec_name() + " action"@,
            WindowError::UnknownAction(action) => "Unknown action: "@ + action@ + ". Available: "@
                + available_actions(),
            WindowError::AccessDenied => access_denied_message(),
            WindowError::EvalFailed(text) => "Shell eval failed: "@ + text@,
            WindowError::ScriptFailed(text) => "Script execution failed: "@ + text@,
            WindowError::ReplyUnreadable(text) => text@,
            WindowError::InvalidWindowId(id) => "invalid window_id: "@ + id@,
            WindowError::OutOfRange { param, value } => param.spec_name() + " out of range: "@
                + int_decimal(value as int),
            WindowError::InvalidJson(e) => json_parse_error_text(e@),
        }
    }

    /// The text that reports this error.
    pub fn message(&self) -> (r: String)
        ensures
            r@ == self.spec_message(),
    {
        match self {
            WindowError::Connection(text) => text.clone(),
            WindowError::ShellUnreachable(text) => {
                let mut s = String::from_str("Cannot connect to GNOME Shell: ");
                s.append(text.as_str());
                s
            },
            WindowError::MissingParam { param, action } => {
                let mut s = String::from_str(param.name());
                s.append(" required for ");
                s.append(action.name());
                s.append(" action");
                s
            },
            WindowError::UnknownAction(action) => {
                let mut s = String::from_str("Unknown action: ");
                s.append(action.as_str());
                s.append(". Available: ");
                s.append(
                    "list, focus, close, minimize, maximize, switch_workspace, move_to_workspace, get_geometry, set_geometry, set_position, set_size, snap",
                );
                s
            },
            WindowError::AccessDenied => String::from_str(
                "Access denied. GNOME Shell unsafe mode must be enabled. Open Looking Glass (Alt+F2, type 'lg') and run: global.context.unsafe_mode = true",
            ),
            WindowError::EvalFailed(text) => {
                let mut s = String::from_str("Shell eval failed: ");
                s.append(text.as_str());
                s
            },
            WindowError::ScriptFailed(text) => {
                let mut s = String::from_str("Script execution failed: ");
                s.append(text.as_str());
                s
            },
            WindowError::ReplyUnreadable(text) => text.clone(),
            WindowError::InvalidWindowId(id) => {
                let mut s = String::from_str("invalid window_id: ");
                s.append(id.as_str());
                s
            },
            WindowError::OutOfRange { param, value } => {
                let mut s = String::from_str(param.name());
                s.append(" out of range: ");
                let digits = i64_to_decimal(*value);
                s.append(digits.as_str());
                s
            },
            WindowError::InvalidJson(e) => e.message(),
        }
    }

    /// The error for a failed call of `Eval`, given the bus library's
    /// description of the failure: a refusal when the description mentions
    /// `AccessDenied` or `not authorized`, else a plain failure.
    pub open spec fn spec_from_eval_failure(text: String) -> WindowError {
        if contains_text(text@, "AccessDenied"@) || contains_text(text@, "not authorized"@) {
            WindowError::AccessDenied
        } else {
            WindowError::EvalFailed(text)
        }
    }

    /// Classifies a failed call of `Eval` by its description.
    pub fn from_eval_failure(text: String) -> (r: WindowError)
        ensures
            r == WindowError::spec_from_eval_failure(text),
    {
        if str_contains(text.as_str(), "AccessDenied") || str_contains(text.as_str(), "not authorized") {
            WindowError::AccessDenied
        } else {
            WindowError::EvalFailed(text)
        }
    }
}

/// What a reply of `Eval` comes to: the text itself when the script
/// succeeded, else a script failure that carries the text.
pub open spec fn spec_eval_outcome(success: bool, text: String) -> Result<String, WindowError> {
    if success {
        Ok(text)
    } else {
        Err(WindowError::ScriptFailed(text))
    }
}

/// Reads a reply of `Eval`: a success flag and a text.
pub fn eval_outcome(success: bool, text: String) -> (r: Result<String, WindowError>)
    ensures
        r == spec_eval_outcome(success, text),
{
    if success {
        Ok(text)
    } else {
        Err(WindowError::ScriptFailed(text))
    }
}

/// A window id as given: an error when it is not a window id.
pub open spec fn spec_valid_window_id(id: String) -> Result<String, WindowError> {
    if is_window_id(id@) {
        Ok(id)
    } else {
        Err(WindowError::InvalidWindowId(id))
    }
}

/// A number given for `param`, as a 32-bit integer: an error when it does not
/// fit in 32 bits.
pub open spec fn spec_fit(param: Param, n: i64) -> Result<i32, WindowError> {
    if i32::MIN <= n <= i32::MAX {
        Ok(n as i32)
    } else {
        Err(WindowError::OutOfRange { param, value: n })
    }
}

fn valid_window_id(id: String) -> (r: Result<String, WindowError>)
    ensures
        r == spec_valid_window_id(id),
{
    if window_id_is_valid(id.as_str()) {
        Ok(id)
    } else {
        Err(WindowError::InvalidWindowId(id))
    }
}

fn fit(param: Param, n: i64) -> (r: Result<i32, WindowError>)
    ensures
        r == spec_fit(param, n),
{
    if i32::MIN as i64 <= n && n <= i32::MAX as i64 {
        Ok(n as i32)
    } else {
        Err(WindowError::OutOfRange { param, value: n })
    }
}

impl WindowManagementParams {
    /// The command that these parameters ask for, or why they ask for none.
    /// The action is looked up first. Then the parameters it needs are
    /// checked to be present, in the order `window_id`, `workspace`, `x`,
    /// `y`, `width`, `height`, `position`; the first one missing is the
    /// error. Then, in the same order, the window id is checked to be a
    /// window id and each number to fit in 32 bits; the first that does not
    /// is the error. A snap position is taken as given.
    pub open spec fn spec_command(self) -> Result<WindowCommand, WindowError> {
        match Action::spec_parse(self.action@) {
            None => Err(WindowError::UnknownAction(self.action)),
            Some(a) => match a {
                Action::List => Ok(WindowCommand::List),
                Action::SwitchWorkspace => match self.workspace {
                    None => Err(missing(Param::Workspace, a)),
                    Some(n) => match spec_fit(Param::Workspace, n) {
                        Err(e) => Err(e),
                        Ok(ws) => Ok(WindowCommand::SwitchWorkspace { workspace: ws }),
                    },
                },
                Action::MoveToWorkspace => match (self.window_id, self.workspace) {
                    (None, _) => Err(missing(Param::WindowId, a)),
                    (Some(_), None) => Err(missing(Param::Workspace, a)),
                    (Some(id), Some(n)) => match spec_valid_window_id(id) {
                        Err(e) => Err(e),
                        Ok(id) => match spec_fit(Param::Workspace, n) {
                            Err(e) => Err(e),
                            Ok(ws) => Ok(WindowCommand::MoveToWorkspace { window_id: id, workspace: ws }),
                        },
                    },
                },
                Action::SetGeometry => match (self.window_id, self.x, self.y, self.width, self.height) {
                    (None, _, _, _, _) => Err(missing(Param::WindowId, a)),
                    (Some(_), None, _, _, _) => Err(missing(Param::X, a)),
                    (Some(_), Some(_), None, _, _) => Err(missing(Param::Y, a)),
                    (Some(_), Some(_), Some(_), None, _) => Err(missing(Param::Width, a)),
                    (Some(_), Some(_), Some(_), Some(_), None) => Err(missing(Param::Height, a)),
                    (Some(id), Some(x), Some(y), Some(w), Some(h)) => match spec_valid_window_id(id) {
                        Err(e) => Err(e),
                        Ok(id) => match spec_fit(Param::X, x) {
                            Err(e) => Err(e),
                            Ok(x) => match spec_fit(Param::Y, y) {
                                Err(e) => Err(e),
                                Ok(y) => match spec_fit(Param::Width, w) {
                                    Err(e) => Err(e),
                                    Ok(w) => match spec_fit(Param::Height, h) {
                                        Err(e) => Err(e),
                                        Ok(h) => Ok(WindowCommand::SetGeometry { window_id: id, x, y, width: w, height: h }),
                                    },
                                },
                            },
                        },
                    },
                },
                Action::SetPosition => match (self.window_id, self.x, self.y) {
                    (None, _, _) => Err(missing(Param::WindowId, a)),
                    (Some(_), None, _) => Err(missing(Param::X, a)),
                    (Some(_), Some(_), None) => Err(missing(Param::Y, a)),
                    (Some(id), Some(x), Some(y)) => match spec_valid_window_id(id) {
                        Err(e) => Err(e),
                        Ok(id) => match spec_fit(Param::X, x) {
                            Err(e) => Err(e),
                            Ok(x) => match spec_fit(Param::Y, y) {
                                Err(e) => Err(e),
                                Ok(y) => Ok(WindowCommand::SetPosition { window_id: id, x, y }),
                            },
                        },
                    },
                },
                Action::SetSize => match (self.window_id, self.width, self.height) {
                    (None, _, _) => Err(missing(Param::WindowId, a)),
                    (Some(_), None, _) => Err(missing(Param::Width, a)),
                    (Some(_), Some(_), None) => Err(missing(Param::Height, a)),
                    (Some(id), Some(w), Some(h)) => match spec_valid_window_id(id) {
                        Err(e) => Err(e),
                        Ok(id) => match spec_fit(Param::Width, w) {
                            Err(e) => Err(e),
                            Ok(w) => match spec_fit(Param::Height, h) {
                                Err(e) => Err(e),
                                Ok(h) => Ok(WindowCommand::SetSize { window_id: id, width: w, height: h }),
                            },
                        },
                    },
                },
                Action::Snap => match (self.window_id, self.position) {
                    (None, _) => Err(missing(Param::WindowId, a)),
                    (Some(_), None) => Err(missing(Param::Position, a)),
                    (Some(id), Some(p)) => match spec_valid_window_id(id) {
                        Err(e) => Err(e),
                        Ok(id) => Ok(WindowCommand::Snap { window_id: id, position: p }),
                    },
                },
                _ => match self.window_id {
                    None => Err(missing(Param::WindowId, a)),
                    Some(id) => match spec_valid_window_id(id) {
                        Err(e) => Err(e),
                        Ok(id) => Ok(match a {
                            Action::Focus => WindowCommand::Focus { window_id: id },
                            Action::Close => WindowCommand::Close { window_id: id },
                            Action::Minimize => WindowCommand::Minimize { window_id: id },
                            Action::Maximize => WindowCommand::Maximize { window_id: id },
                            _ => WindowCommand::GetGeometry { window_id: id },
                        }),
                    },
                },
            },
        }
    }

    /// Turns the parameters into the command they ask for.
    pub fn into_command(self) -> (r: Result<WindowCommand, WindowError>)
        ensures
            r == self.spec_command(),
            r matches Ok(command) ==> command.well_formed(),
    {
        let WindowManagementParams { action, window_id, workspace, x, y, width, height, position } =
            self;
        let a = match Action::parse(action.as_str()) {
            None => return Err(WindowError::UnknownAction(action)),
            Some(a) => a,
        };
        match a {
            Action::List => Ok(WindowCommand::List),
            Action::SwitchWorkspace => match workspace {
                None => Err(WindowError::MissingParam { param: Param::Workspace, action: a }),
                Some(n) => match fit(Param::Workspace, n) {
                    Err(e) => Err(e),
                    Ok(ws) => Ok(WindowCommand::SwitchWorkspace { workspace: ws }),
                },
            },
            Action::MoveToWorkspace => match (window_id, workspace) {
                (None, _) => Err(WindowError::MissingParam { param: Param::WindowId, action: a }),
                (Some(_), None) => Err(WindowError::MissingParam { param: Param::Workspace, action: a }),
                (Some(id), Some(n)) => {
                    let id = match valid_window_id(id) {
                        Err(e) => return Err(e),
                        Ok(id) => id,
                    };
                    let ws = match fit(Param::Workspace, n) {
                        Err(e) => return Err(e),
                        Ok(ws) => ws,
                    };
                    Ok(WindowCommand::MoveToWorkspace { window_id: id, workspace: ws })
                },
            },
            Action::SetGeometry => match (window_id, x, y, width, height) {
                (None, _, _, _, _) => Err(WindowError::MissingParam { param: Param::WindowId, action: a }),
                (Some(_), None, _, _, _) => Err(WindowError::MissingParam { param: Param::X, action: a }),
                (Some(_), Some(_), None, _, _) => Err(WindowError::MissingParam { param: Param::Y, action: a }),
                (Some(_), Some(_), Some(_), None, _) => Err(WindowError::MissingParam { param: Param::Width, action: a }),
                (Some(_), Some(_), Some(_), Some(_), None) => Err(WindowError::MissingParam { param: Param::Height, action: a }),
                (Some(id), Some(x), Some(y), Some(w), Some(h)) => {
                    let id = match valid_window_id(id) {
                        Err(e) => return Err(e),
                        Ok(id) => id,
                    };
                    let x = match fit(Param::X, x) {
                        Err(e) => return Err(e),
                        Ok(v) => v,
                    };
                    let y = match fit(Param::Y, y) {
                        Err(e) => return Err(e),
                        Ok(v) => v,
                    };
                    let w = match fit(Param::Width, w) {
                        Err(e) => return Err(e),
                        Ok(v) => v,
                    };
                    let h = match fit(Param::Height, h) {
                        Err(e) => return Err(e),
                        Ok(v) => v,
                    };
                    Ok(WindowCommand::SetGeometry { window_id: id, x, y, width: w, height: h })
                },
            },
            Action::SetPosition => match (window_id, x, y) {
                (None, _, _) => Err(WindowError::MissingParam { param: Param::WindowId, action: a }),
                (Some(_), None, _) => Err(WindowError::MissingParam { param: Param::X, action: a }),
                (Some(_), Some(_), None) => Err(WindowError::MissingParam { param: Param::Y, action: a }),
                (Some(id), Some(x), Some(y)) => {
                    let id = match valid_window_id(id) {
                        Err(e) => return Err(e),
                        Ok(id) => id,
                    };
                    let x = match fit(Param::X, x) {
                        Err(e) => return Err(e),
                        Ok(v) => v,
                    };
                    let y = match fit(Param::Y, y) {
                        Err(e) => return Err(e),
                        Ok(v) => v,
                    };
                    Ok(WindowCommand::SetPosition { window_id: id, x, y })
                },
            },
            Action::SetSize => match (window_id, width, height) {
                (None, _, _) => Err(WindowError::MissingParam { param: Param::WindowId, action: a }),
                (Some(_), None, _) => Err(WindowError::MissingParam { param: Param::Width, action: a }),
                (Some(_), Some(_), None) => Err(WindowError::MissingParam { param: Param::Height, action: a }),
                (Some(id), Some(w), Some(h)) => {
                    let id = match valid_window_id(id) {
                        Err(e) => return Err(e),
                        Ok(id) => id,
                    };
                    let w = match fit(Param::Width, w) {
                        Err(e) => return Err(e),
                        Ok(v) => v,
                    };
                    let h = match fit(Param::Height, h) {
                        Err(e) => return Err(e),
                        Ok(v) => v,
                    };
                    Ok(WindowCommand::SetSize { window_id: id, width: w, height: h })
                },
            },
            Action::Snap => match (window_id, position) {
                (None, _) => Err(WindowError::MissingParam { param: Param::WindowId, action: a }),
                (Some(_), None) => Err(WindowError::MissingParam { param: Param::Position, action: a }),
                (Some(id), Some(p)) => match valid_window_id(id) {
                    Err(e) => Err(e),
                    Ok(id) => Ok(WindowCommand::Snap { window_id: id, position: p }),
                },
            },
            _ => match window_id {
                None => Err(WindowError::MissingParam { param: Param::WindowId, action: a }),
                Some(id) => match valid_window_id(id) {
                    Err(e) => Err(e),
                    Ok(id) => Ok(match a {
                        Action::Focus => WindowCommand::Focus { window_id: id },
                        Action::Close => WindowCommand::Close { window_id: id },
                        Action::Minimize => WindowCommand::Minimize { window_id: id },
                        Action::Maximize => WindowCommand::Maximize { window_id: id },
                        _ => WindowCommand::GetGeometry { window_id: id },
                    }),
                },
            },
        }
    }
}

impl WindowCommand {
    /// The action that this command carries out.
    pub open spec fn action(self) -> Action {
        match self {
            WindowCommand::List => Action::List,
            WindowCommand::Focus { .. } => Action::Focus,
            WindowCommand::Close { .. } => Action::Close,
            WindowCommand::Minimize { .. } => Action::Minimize,
            WindowCommand::Maximize { .. } => Action::Maximize,
            WindowCommand::SwitchWorkspace { .. } => Action::SwitchWorkspace,
            WindowCommand::MoveToWorkspace { .. } => Action::MoveToWorkspace,
            WindowCommand::GetGeometry { .. } => Action::GetGeometry,
            WindowCommand::SetGeometry { .. } => Action::SetGeometry,
            WindowCommand::SetPosition { .. } => Action::SetPosition,
            WindowCommand::SetSize { .. } => Action::SetSize,
            WindowCommand::Snap { .. } => Action::Snap,
        }
    }

    /// The window id that the command carries, if it names a window.
    pub open spec fn window_id_of(self) -> Option<String> {
        match self {
            WindowCommand::List => None,
            WindowCommand::SwitchWorkspace { .. } => None,
            WindowCommand::Focus { window_id } => Some(window_id),
            WindowCommand::Close { window_id } => Some(window_id),
            WindowCommand::Minimize { window_id } => Some(window_id),
            WindowCommand::Maximize { window_id } => Some(window_id),
            WindowCommand::MoveToWorkspace { window_id, .. } => Some(window_id),
            WindowCommand::GetGeometry { window_id } => Some(window_id),
            WindowCommand::SetGeometry { window_id, .. } => Some(window_id),
            WindowCommand::SetPosition { window_id, .. } => Some(window_id),
            WindowCommand::SetSize { window_id, .. } => Some(window_id),
            WindowCommand::Snap { window_id, .. } => Some(window_id),
        }
    }

    /// Whether the command carries only a window id as its window id: what
    /// `into_command` ensures.
    pub open spec fn well_formed(self) -> bool {
        match self {
            WindowCommand::List => true,
            WindowCommand::SwitchWorkspace { .. } => true,
            WindowCommand::Focus { window_id } => is_window_id(window_id@),
            WindowCommand::Close { window_id } => is_window_id(window_id@),
            WindowCommand::Minimize { window_id } => is_window_id(window_id@),
            WindowCommand::Maximize { window_id } => is_window_id(window_id@),
            WindowCommand::MoveToWorkspace { window_id, .. } => is_window_id(window_id@),
            WindowCommand::GetGeometry { window_id } => is_window_id(window_id@),
            WindowCommand::SetGeometry { window_id, .. } => is_window_id(window_id@),
            WindowCommand::SetPosition { window_id, .. } => is_window_id(window_id@),
            WindowCommand::SetSize { window_id, .. } => is_window_id(window_id@),
            WindowCommand::Snap { window_id, .. } => is_window_id(window_id@),
        }
    }

    /// Whether the command snaps to a position that is neither `left` nor
    /// `right`. Such a request is answered at once, with the report the snap
    /// script gives for it, and no script runs.
    pub open spec fn is_unknown_snap(self) -> bool {
        self matches WindowCommand::Snap { position, .. } && !is_snap_position(position@)
    }

    /// The answer to a snap to an unknown position.
    pub open spec fn spec_unknown_snap_report(self) -> Seq<char> {
        match self {
            WindowCommand::Snap { window_id, .. } => "Window "@ + window_id@
                + " invalid position: must be left or right"@,
            _ => Seq::empty(),
        }
    }

    /// The answer to a snap to an unknown position, for such a command.
    pub fn unknown_snap_report(&self) -> (r: Option<String>)
        ensures
            r is Some <==> self.is_unknown_snap(),
            r matches Some(s) ==> s@ == self.spec_unknown_snap_report(),
    {
        match self {
            WindowCommand::Snap { window_id, position } => {
                if str_equals(position.as_str(), "left") || str_equals(position.as_str(), "right") {
                    None
                } else {
                    let mut s = String::from_str("Window ");
                    s.append(window_id.as_str());
                    s.append(" invalid position: must be left or right");
                    Some(s)
                }
            },
            _ => None,
        }
    }

    /// The GNOME Shell script that carries out this command.
    pub open spec fn spec_script(self) -> Seq<char> {
        match self {
            WindowCommand::List => spec_list_windows_script(),
            WindowCommand::Focus { window_id } => spec_focus_window_script(window_id@),
            WindowCommand::Close { window_id } => spec_close_window_script(window_id@),
            WindowCommand::Minimize { window_id } => spec_minimize_window_script(window_id@),
            WindowCommand::Maximize { window_id } => spec_maximize_window_script(window_id@),
            WindowCommand::SwitchWorkspace { workspace } => spec_switch_workspace_script(workspace),
            WindowCommand::MoveToWorkspace { window_id, workspace } =>
                spec_move_window_to_workspace_script(window_id@, workspace),
            WindowCommand::GetGeometry { window_id } => spec_get_window_geometry_script(window_id@),
            WindowCommand::SetGeometry { window_id, x, y, width, height } =>
                spec_set_window_geometry_script(window_id@, x, y, width, height),
            WindowCommand::SetPosition { window_id, x, y } =>
                spec_set_window_position_script(window_id@, x, y),
            WindowCommand::SetSize { window_id, width, height } =>
                spec_set_window_size_script(window_id@, width, height),
            WindowCommand::Snap { window_id, position } =>
                spec_snap_window_script(window_id@, position@),
        }
    }

    /// Builds the GNOME Shell script that carries out this command.
    pub fn script(&self) -> (r: String)
        requires
            self.well_formed(),
            !self.is_unknown_snap(),
        ensures
            r@ == self.spec_script(),
    {
        match self {
            WindowCommand::List => list_windows_script(),
            WindowCommand::Focus { window_id } => focus_window_script(window_id.as_str()),
            WindowCommand::Close { window_id } => close_window_script(window_id.as_str()),
            WindowCommand::Minimize { window_id } => minimize_window_script(window_id.as_str()),
            WindowCommand::Maximize { window_id } => maximize_window_script(window_id.as_str()),
            WindowCommand::SwitchWorkspace { workspace } => switch_workspace_script(*workspace),
            WindowCommand::MoveToWorkspace { window_id, workspace } =>
                move_window_to_workspace_script(window_id.as_str(), *workspace),
            WindowCommand::GetGeometry { window_id } => get_window_geometry_script(window_id.as_str()),
            WindowCommand::SetGeometry { window_id, x, y, width, height } =>
                set_window_geometry_script(window_id.as_str(), *x, *y, *width, *height),
            WindowCommand::SetPosition { window_id, x, y } =>
                set_window_position_script(window_id.as_str(), *x, *y),
            WindowCommand::SetSize { window_id, width, height } =>
                set_window_size_script(window_id.as_str(), *width, *height),
            WindowCommand::Snap { window_id, position } =>
                snap_window_script(window_id.as_str(), position.as_str()),
        }
    }

    /// The report of a successful script, for every command but `List`: the
    /// script's text after the window id, except that a geometry query that
    /// found no window says so, and a workspace switch reports the text alone.
    pub open spec fn spec_report(self, reply: Seq<char>) -> Seq<char> {
        match self {
            WindowCommand::List => reply,
            WindowCommand::SwitchWorkspace { .. } => reply,
            WindowCommand::GetGeometry { window_id } => if reply == "window not found"@ {
                "Window "@ + window_id@ + " not found"@
            } else {
                "Window "@ + window_id@ + " geometry: "@ + reply
            },
            WindowCommand::Focus { window_id } => "Window "@ + window_id@ + " "@ + reply,
            WindowCommand::Close { window_id } => "Window "@ + window_id@ + " "@ + reply,
            WindowCommand::Minimize { window_id } => "Window "@ + window_id@ + " "@ + reply,
            WindowCommand::Maximize { window_id } => "Window "@ + window_id@ + " "@ + reply,
            WindowCommand::MoveToWorkspace { window_id, .. } => "Window "@ + window_id@ + " "@
                + reply,
            WindowCommand::SetGeometry { window_id, .. } => "Window "@ + window_id@ + " "@ + reply,
            WindowCommand::SetPosition { window_id, .. } => "Window "@ + window_id@ + " "@ + reply,
            WindowCommand::SetSize { window_id, .. } => "Window "@ + window_id@ + " "@ + reply,
            WindowCommand::Snap { window_id, .. } => "Window "@ + window_id@ + " "@ + reply,
        }
    }

    /// What the caller is told after the script succeeded with `reply`. For
    /// the window list: success exactly when the reply is JSON, the report
    /// then being `Windows:` on a line of its own followed by the JSON
    /// re-indented, the error otherwise being the parser's. For every other
    /// command: success, with `spec_report`.
    pub open spec fn report_outcome(self, reply: String, r: Result<String, WindowError>) -> bool {
        match self {
            WindowCommand::List => {
                &&& (r is Ok <==> json_text_parses(reply@))
                &&& (r matches Ok(s) ==> s@ == "Windows:\n"@ + json_pretty_text(reply@))
                &&& (r matches Err(e) ==> e matches WindowError::InvalidJson(failure) && failure@ == reply@)
            },
            _ => r matches Ok(s) && s@ == self.spec_report(reply@),
        }
    }

    /// The report of a successful script.
    pub fn report(&self, reply: String) -> (r: Result<String, WindowError>)
        ensures
            self.report_outcome(reply, r),
    {
        match self {
            WindowCommand::List => match parse_json_document(reply.as_str()) {
                Err(failure) => Err(WindowError::InvalidJson(failure)),
                Ok(document) => {
                    let mut s = String::from_str("Windows:\n");
                    let pretty = document.to_pretty_text();
                    s.append(pretty.as_str());
                    Ok(s)
                },
            },
            WindowCommand::SwitchWorkspace { .. } => Ok(reply),
            WindowCommand::GetGeometry { window_id } => {
                let mut s = String::from_str("Window ");
                s.append(window_id.as_str());
                if str_equals(reply.as_str(), "window not found") {
                    s.append(" not found");
                } else {
                    s.append(" geometry: ");
                    s.append(reply.as_str());
                }
                Ok(s)
            },
            WindowCommand::Focus { window_id }
            | WindowCommand::Close { window_id }
            | WindowCommand::Minimize { window_id }
            | WindowCommand::Maximize { window_id }
            | WindowCommand::MoveToWorkspace { window_id, .. }
            | WindowCommand::SetGeometry { window_id, .. }
            | WindowCommand::SetPosition { window_id, .. }
            | WindowCommand::SetSize { window_id, .. }
            | WindowCommand::Snap { window_id, .. } => {
                let mut s = String::from_str("Window ");
                s.append(window_id.as_str());
                s.append(" ");
                s.append(reply.as_str());
                Ok(s)
            },
        }
    }
}

/// The unknown-action message offers every action, by name, in the order
/// of the tool's description, separated by commas.
pub proof fn lemma_available_actions_are_all_actions()
    ensures
        available_actions() == Action::List.spec_name() + ", "@
            + Action::Focus.spec_name() + ", "@
            + Action::Close.spec_name() + ", "@
            + Action::Minimize.spec_name() + ", "@
            + Action::Maximize.spec_name() + ", "@
            + Action::SwitchWorkspace.spec_name() + ", "@
            + Action::MoveToWorkspace.spec_name() + ", "@
            + Action::GetGeometry.spec_name() + ", "@
            + Action::SetGeometry.spec_name() + ", "@
            + Action::SetPosition.spec_name() + ", "@
            + Action::SetSize.spec_name() + ", "@
            + Action::Snap.spec_name(),
{
    reveal_strlit("list");
    reveal_strlit("focus");
    reveal_strlit("close");
    reveal_strlit("minimize");
    reveal_strlit("maximize");
    reveal_strlit("switch_workspace");
    reveal_strlit("move_to_workspace");
    reveal_strlit("get_geometry");
    reveal_strlit("set_geometry");
    reveal_strlit("set_position");
    reveal_strlit("set_size");
    reveal_strlit("snap");
    reveal_strlit(", ");
    reveal_strlit("list, focus, close, minimize, maximize, switch_workspace, move_to_workspace, get_geometry, set_geometry, set_position, set_size, snap");
    assert(available_actions() =~= Action::List.spec_name() + ", "@
            + Action::Focus.spec_name() + ", "@
            + Action::Close.spec_name() + ", "@
            + Action::Minimize.spec_name() + ", "@
            + Action::Maximize.spec_name() + ", "@
            + Action::SwitchWorkspace.spec_name() + ", "@
            + Action::MoveToWorkspace.spec_name() + ", "@
            + Action::GetGeometry.spec_name() + ", "@
            + Action::SetGeometry.spec_name() + ", "@
            + Action::SetPosition.spec_name() + ", "@
            + Action::SetSize.spec_name() + ", "@
            + Action::Snap.spec_name());
}

/// The command that parameters ask for carries out the action they name.
pub proof fn lemma_command_is_the_named_action(params: WindowManagementParams)
    ensures
        params.spec_command() matches Ok(command) ==> Action::spec_parse(params.action@) == Some(
            command.action(),
        ),
{
}

/// Each parameter lands in its own field of the command, unchanged: the
/// window id as given, each number as the same value (it fits in 32 bits),
/// the snap position as given.
pub proof fn lemma_command_carries_the_parameters(params: WindowManagementParams)
    ensures
        params.spec_command() matches Ok(command) ==> match command {
            WindowCommand::List => true,
            WindowCommand::SwitchWorkspace { workspace } => params.workspace == Some(workspace as i64),
            WindowCommand::Focus { window_id } => params.window_id == Some(window_id),
            WindowCommand::Close { window_id } => params.window_id == Some(window_id),
            WindowCommand::Minimize { window_id } => params.window_id == Some(window_id),
            WindowCommand::Maximize { window_id } => params.window_id == Some(window_id),
            WindowCommand::GetGeometry { window_id } => params.window_id == Some(window_id),
            WindowCommand::MoveToWorkspace { window_id, workspace } => params.window_id == Some(window_id)
                && params.workspace == Some(workspace as i64),
            WindowCommand::SetGeometry { window_id, x, y, width, height } => params.window_id == Some(window_id)
                && params.x == Some(x as i64) && params.y == Some(y as i64)
                && params.width == Some(width as i64) && params.height == Some(height as i64),
            WindowCommand::SetPosition { window_id, x, y } => params.window_id == Some(window_id)
                && params.x == Some(x as i64) && params.y == Some(y as i64),
            WindowCommand::SetSize { window_id, width, height } => params.window_id == Some(window_id)
                && params.width == Some(width as i64) && params.height == Some(height as i64),
            WindowCommand::Snap { window_id, position } => params.window_id == Some(window_id)
                && params.position == Some(position),
        },
{
}

/// Parameters that are all present and well formed are always accepted: an
/// action that names a window, with a window id, and numbers that fit in 32
/// bits, gives a command.
pub proof fn lemma_complete_parameters_give_a_command(params: WindowManagementParams)
    requires
        Action::spec_parse(params.action@) is Some,
        params.window_id matches Some(id) && is_window_id(id@),
        params.workspace matches Some(n) && i32::MIN <= n <= i32::MAX,
        params.x matches Some(n) && i32::MIN <= n <= i32::MAX,
        params.y matches Some(n) && i32::MIN <= n <= i32::MAX,
        params.width matches Some(n) && i32::MIN <= n <= i32::MAX,
        params.height matches Some(n) && i32::MIN <= n <= i32::MAX,
        params.position is Some,
    ensures
        params.spec_command() is Ok,
{
}

/// A successful script is reported with its reply unchanged: after the
/// window id for every command that names a window except a geometry query;
/// alone for a workspace switch; and a geometry query reports the geometry
/// after the window id, or that no window has the id.
pub proof fn lemma_report_keeps_the_reply(
    command: WindowCommand,
    reply: String,
    r: Result<String, WindowError>,
)
    requires
        command.report_outcome(reply, r),
        !(command is List),
    ensures
        r is Ok,
        command is SwitchWorkspace ==> ({
            &&& r matches Ok(s)
            &&& s@ == reply@
        }),
        command.window_id_of() is Some && !(command is GetGeometry) ==> ({
            &&& r matches Ok(s)
            &&& s@ == "Window "@ + (command.window_id_of()->0)@ + " "@ + reply@
        }),
        command is GetGeometry ==> ({
            &&& r matches Ok(s)
            &&& s@ == if reply@ == "window not found"@ {
                "Window "@ + (command.window_id_of()->0)@ + " not found"@
            } else {
                "Window "@ + (command.window_id_of()->0)@ + " geometry: "@ + reply@
            }
        }),
{
}

/// The window list is reported exactly when the script gave JSON: as a line
/// `Windows:` followed by that JSON re-indented; otherwise the parser's
/// failure on that very reply is the error.
pub proof fn lemma_window_list_report(reply: String, r: Result<String, WindowError>)
    requires
        WindowCommand::List.report_outcome(reply, r),
    ensures
        r is Ok <==> json_text_parses(reply@),
        r matches Ok(s) ==> s@ == "Windows:\n"@ + json_pretty_text(reply@),
        r matches Err(e) ==> e matches WindowError::InvalidJson(failure) && failure@ == reply@,
{
}

/// A failed call of `Eval` is a refusal exactly when its description names
/// `AccessDenied` or says `not authorized`; any other failure keeps the
/// description.
pub proof fn lemma_eval_failures(text: String)
    ensures
        (contains_text(text@, "AccessDenied"@) || contains_text(text@, "not authorized"@))
            ==> WindowError::spec_from_eval_failure(text) is AccessDenied,
        !(contains_text(text@, "AccessDenied"@) || contains_text(text@, "not authorized"@))
            ==> WindowError::spec_from_eval_failure(text) == WindowError::EvalFailed(text),
{
}

/// A reply of `Eval` keeps its text: as the result when the script
/// succeeded, in the script failure otherwise.
pub proof fn lemma_eval_reply_keeps_text(success: bool, text: String)
    ensures
        success ==> spec_eval_outcome(success, text) == Ok::<String, WindowError>(text),
        !success ==> spec_eval_outcome(success, text) == Err::<String, WindowError>(
            WindowError::ScriptFailed(text),
        ),
{
}

/// Every error message names what went wrong: a missing parameter and the
/// action that needs it, an unknown action's text, a bad window id, a number
/// out of range with its parameter and value, and the text of a failed call
/// or script, each whole.
pub proof fn lemma_messages_name_their_subject(error: WindowError)
    ensures
        error matches WindowError::MissingParam { param, action } ==> contains_text(
            error.spec_message(),
            param.spec_name(),
        ) && contains_text(error.spec_message(), action.spec_name()),
        error matches WindowError::UnknownAction(text) ==> contains_text(error.spec_message(), text@),
        error matches WindowError::InvalidWindowId(text) ==> contains_text(error.spec_message(), text@),
        error matches WindowError::OutOfRange { param, value } ==> contains_text(
            error.spec_message(),
            param.spec_name(),
        ) && contains_text(error.spec_message(), int_decimal(value as int)),
        error matches WindowError::EvalFailed(text) ==> contains_text(error.spec_message(), text@),
        error matches WindowError::ScriptFailed(text) ==> contains_text(error.spec_message(), text@),
        error matches WindowError::ShellUnreachable(text) ==> contains_text(error.spec_message(), text@),
{
    let empty = Seq::<char>::empty();
    match error {
        WindowError::MissingParam { param, action } => {
            let m = error.spec_message();
            lemma_contains_middle(empty, param.spec_name(), " required for "@ + action.spec_name() + " action"@);
            assert(m =~= empty + param.spec_name() + (" required for "@ + action.spec_name() + " action"@));
            lemma_contains_middle(param.spec_name() + " required for "@, action.spec_name(), " action"@);
        },
        WindowError::UnknownAction(text) => {
            lemma_contains_middle("Unknown action: "@, text@, ". Available: "@ + available_actions());
            assert(error.spec_message() =~= "Unknown action: "@ + text@ + (". Available: "@ + available_actions()));
        },
        WindowError::InvalidWindowId(text) => {
            lemma_contains_middle("invalid window_id: "@, text@, empty);
            assert(error.spec_message() =~= "invalid window_id: "@ + text@ + empty);
        },
        WindowError::OutOfRange { param, value } => {
            let m = error.spec_message();
            lemma_contains_middle(empty, param.spec_name(), " out of range: "@ + int_decimal(value as int));
            assert(m =~= empty + param.spec_name() + (" out of range: "@ + int_decimal(value as int)));
            lemma_contains_middle(param.spec_name() + " out of range: "@, int_decimal(value as int), empty);
            assert(m =~= param.spec_name() + " out of range: "@ + int_decimal(value as int) + empty);
        },
        WindowError::EvalFailed(text) => {
            lemma_contains_middle("Shell eval failed: "@, text@, empty);
            assert(error.spec_message() =~= "Shell eval failed: "@ + text@ + empty);
        },
        WindowError::ScriptFailed(text) => {
            lemma_contains_middle("Script execution failed: "@, text@, empty);
            assert(error.spec_message() =~= "Script execution failed: "@ + text@ + empty);
        },
        WindowError::ShellUnreachable(text) => {
            lemma_contains_middle("Cannot connect to GNOME Shell: "@, text@, empty);
            assert(error.spec_message() =~= "Cannot connect to GNOME Shell: "@ + text@ + empty);
        },
        _ => {},
    }
}

} // verus!
