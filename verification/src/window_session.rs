//! One run of the window management tool, as a sequence of steps.
//!
//! The caller performs each step on the session bus and reports back what
//! happened; the session decides the next step. A run opens the bus and the
//! GNOME Shell proxy, reads the shell version, runs one script, and finishes.

use vstd::prelude::*;

use crate::action::{Action, Param};
use crate::scripts::{is_snap_position, is_window_id};
use crate::window::{WindowCommand, WindowError, WindowManagementParams, eval_outcome, missing};

verus! {

/// The window management tool.
#[derive(Clone, Copy, Debug, Default)]
pub struct WindowManagement;

/// What the caller is to do next.
#[derive(Debug)]
pub enum WindowStep {
    /// Open a session bus connection and a proxy for `org.gnome.Shell` at
    /// `/org/gnome/Shell`.
    Connect,
    /// Read the proxy's `ShellVersion` property.
    ReadShellVersion,
    /// Call `Eval` with this script.
    Eval(String),
    /// The run is over, with this outcome.
    Finish(Result<String, WindowError>),
}

/// What happened when the caller performed a step.
#[derive(Debug)]
pub enum WindowEvent {
    /// The connection and the proxy are open.
    Connected,
    /// Opening them failed, as the bus library describes.
    ConnectFailed(String),
    /// The shell version was read.
    ShellVersionRead,
    /// Reading it failed, as the bus library describes.
    ShellVersionFailed(String),
    /// `Eval` replied with a success flag and a text.
    EvalReplied { success: bool, text: String },
    /// The call of `Eval` failed, as the bus library describes.
    EvalFailed(String),
    /// The reply of `Eval` was not a flag and a text.
    EvalReplyUnreadable(String),
}

/// Where a run stands.
#[derive(Debug)]
pub enum WindowSession {
    /// Waiting for the connection, holding the parameters.
    Connecting(WindowManagementParams),
    /// Waiting for the shell version, holding the parameters.
    ReadingShellVersion(WindowManagementParams),
    /// Waiting for the reply of `Eval` to this command's script.
    Evaluating(WindowCommand),
    /// The run is over.
    Finished,
}

impl WindowManagement {
    /// The name of the tool.
    pub const NAME: &'static str = "window_management";

    /// The description of the tool.
    pub const DESCRIPTION: &'static str = "Manage windows and workspaces via GNOME Shell (requires unsafe mode). Actions: list, focus, close, minimize, maximize, switch_workspace, move_to_workspace, get_geometry, set_geometry, set_position, set_size, snap. Note: Workspaces are 0-indexed (workspace 0 is the first workspace, workspace 1 is the second, etc.). You cannot move windows to or switch to workspaces that don't exist yet - GNOME may create workspaces dynamically or use a fixed number depending on user configuration.";

    /// Starts a run with the given parameters: its first step is to connect.
    pub fn begin(&self, params: WindowManagementParams) -> (r: (WindowSession, WindowStep))
        ensures
            r.0 == WindowSession::Connecting(params),
            r.1 is Connect,
    {
        (WindowSession::Connecting(params), WindowStep::Connect)
    }
}

impl WindowSession {
    /// Whether the run is waiting for this kind of event.
    pub open spec fn accepts(self, event: WindowEvent) -> bool {
        match self {
            WindowSession::Connecting(_) => event is Connected || event is ConnectFailed,
            WindowSession::ReadingShellVersion(_) => event is ShellVersionRead
                || event is ShellVersionFailed,
            WindowSession::Evaluating(_) => event is EvalReplied || event is EvalFailed
                || event is EvalReplyUnreadable,
            WindowSession::Finished => false,
        }
    }

    /// Whether the run is waiting for this kind of event.
    pub fn is_waiting_for(&self, event: &WindowEvent) -> (r: bool)
        ensures
            r == self.accepts(*event),
    {
        match self {
            WindowSession::Connecting(_) => matches!(event, WindowEvent::Connected | WindowEvent::ConnectFailed(_)),
            WindowSession::ReadingShellVersion(_) => matches!(event, WindowEvent::ShellVersionRead | WindowEvent::ShellVersionFailed(_)),
            WindowSession::Evaluating(_) => matches!(event, WindowEvent::EvalReplied { .. } | WindowEvent::EvalFailed(_) | WindowEvent::EvalReplyUnreadable(_)),
            WindowSession::Finished => false,
        }
    }

    /// How many steps at most remain before the run finishes.
    pub open spec fn remaining_steps(self) -> nat {
        match self {
            WindowSession::Connecting(_) => 3,
            WindowSession::ReadingShellVersion(_) => 2,
            WindowSession::Evaluating(_) => 1,
            WindowSession::Finished => 0,
        }
    }

    /// What handling `event` does: the state it leads to and the step it
    /// asks for. A failed connection or version read ends the run with that
    /// error; after the version is read, the parameters are turned into a
    /// command, whose script is evaluated, or whose error ends the run; the
    /// reply of the script decides the outcome.
    pub open spec fn step_outcome(self, event: WindowEvent, next: WindowSession, step: WindowStep) -> bool {
        match self {
            WindowSession::Connecting(params) => match event {
                WindowEvent::Connected => next == WindowSession::ReadingShellVersion(params)
                    && step is ReadShellVersion,
                WindowEvent::ConnectFailed(text) => next is Finished
                    && step == WindowStep::Finish(Err(WindowError::Connection(text))),
                _ => false,
            },
            WindowSession::ReadingShellVersion(params) => match event {
                WindowEvent::ShellVersionRead => match params.spec_command() {
                    Err(e) => next is Finished && step == WindowStep::Finish(Err(e)),
                    Ok(command) => if command.is_unknown_snap() {
                        &&& next is Finished
                        &&& step matches WindowStep::Finish(Ok(report))
                        &&& report@ == command.spec_unknown_snap_report()
                    } else {
                        &&& next == WindowSession::Evaluating(command)
                        &&& step matches WindowStep::Eval(script)
                        &&& script@ == command.spec_script()
                    },
                },
                WindowEvent::ShellVersionFailed(text) => next is Finished
                    && step == WindowStep::Finish(Err(WindowError::ShellUnreachable(text))),
                _ => false,
            },
            WindowSession::Evaluating(command) => match event {
                WindowEvent::EvalFailed(text) => next is Finished
                    && step == WindowStep::Finish(Err(WindowError::spec_from_eval_failure(text))),
                WindowEvent::EvalReplyUnreadable(text) => next is Finished
                    && step == WindowStep::Finish(Err(WindowError::ReplyUnreadable(text))),
                WindowEvent::EvalReplied { success, text } => {
                    &&& next is Finished
                    &&& step matches WindowStep::Finish(r)
                    &&& if success {
                        command.report_outcome(text, r)
                    } else {
                        r == Err::<String, WindowError>(WindowError::ScriptFailed(text))
                    }
                },
                _ => false,
            },
            WindowSession::Finished => false,
        }
    }

    /// Handles what happened at the last step and says what to do next.
    pub fn step(&mut self, event: WindowEvent) -> (step: WindowStep)
        requires
            old(self).accepts(event),
        ensures
            old(self).step_outcome(event, *final(self), step),
    {
        let mut state = WindowSession::Finished;
        core::mem::swap(&mut state, self);
        match state {
            WindowSession::Connecting(params) => match event {
                WindowEvent::Connected => {
                    *self = WindowSession::ReadingShellVersion(params);
                    WindowStep::ReadShellVersion
                },
                WindowEvent::ConnectFailed(text) => WindowStep::Finish(
                    Err(WindowError::Connection(text)),
                ),
                _ => vstd::pervasive::unreached(),
            },
            WindowSession::ReadingShellVersion(params) => match event {
                WindowEvent::ShellVersionRead => match params.into_command() {
                    Err(e) => WindowStep::Finish(Err(e)),
                    Ok(command) => match command.unknown_snap_report() {
                        Some(report) => WindowStep::Finish(Ok(report)),
                        None => {
                            let script = command.script();
                            *self = WindowSession::Evaluating(command);
                            WindowStep::Eval(script)
                        },
                    },
                },
                WindowEvent::ShellVersionFailed(text) => WindowStep::Finish(
                    Err(WindowError::ShellUnreachable(text)),
                ),
                _ => vstd::pervasive::unreached(),
            },
            WindowSession::Evaluating(command) => match event {
                WindowEvent::EvalFailed(text) => WindowStep::Finish(
                    Err(WindowError::from_eval_failure(text)),
                ),
                WindowEvent::EvalReplyUnreadable(text) => WindowStep::Finish(
                    Err(WindowError::ReplyUnreadable(text)),
                ),
                WindowEvent::EvalReplied { success, text } => match eval_outcome(success, text) {
                    Err(e) => WindowStep::Finish(Err(e)),
                    Ok(reply) => WindowStep::Finish(command.report(reply)),
                },
                _ => vstd::pervasive::unreached(),
            },
            WindowSession::Finished => vstd::pervasive::unreached(),
        }
    }
}

/// Every step brings a run closer to its end: the steps left strictly
/// decrease, and a step finishes the run exactly when the run is then over.
/// So a run asks for at most three steps on the bus before it finishes.
pub proof fn lemma_step_makes_progress(
    session: WindowSession,
    event: WindowEvent,
    next: WindowSession,
    step: WindowStep,
)
    requires
        session.step_outcome(event, next, step),
    ensures
        next.remaining_steps() < session.remaining_steps(),
        step is Finish <==> next is Finished,
{
}

/// A script is evaluated only once the shell version has been read, and it
/// is exactly the script of the command that the parameters ask for, a
/// command whose window id is a window id and which is no snap to an unknown
/// position.
pub proof fn lemma_eval_follows_version_read(
    session: WindowSession,
    event: WindowEvent,
    next: WindowSession,
    script: String,
)
    requires
        session.step_outcome(event, next, WindowStep::Eval(script)),
    ensures
        ({
            &&& session matches WindowSession::ReadingShellVersion(params)
            &&& event is ShellVersionRead
            &&& params.spec_command() matches Ok(command)
            &&& script@ == command.spec_script()
            &&& command.well_formed()
            &&& !command.is_unknown_snap()
        }),
{
}

/// Every action but `list` and `switch_workspace` needs `window_id`: without
/// it the parameters ask for no command, whatever else they hold, and the
/// error names `window_id` and the action.
pub proof fn lemma_window_id_required(params: WindowManagementParams, action: Action)
    requires
        Action::spec_parse(params.action@) == Some(action),
        action != Action::List,
        action != Action::SwitchWorkspace,
        params.window_id is None,
    ensures
        params.spec_command() == Err::<WindowCommand, WindowError>(missing(Param::WindowId, action)),
{
}

/// Whatever the parameters hold, a command they ask for carries only a
/// window id (decimal digits) as its window id: any other text is refused
/// before a script is built.
pub proof fn lemma_commands_are_well_formed(params: WindowManagementParams)
    ensures
        params.spec_command() matches Ok(command) ==> command.well_formed(),
{
}

/// A window id that is not the decimal digits of a window number is refused
/// with an error that carries it, by every action that takes a window, once
/// every parameter the action needs is present.
pub proof fn lemma_invalid_window_id_refused(params: WindowManagementParams, action: Action)
    requires
        Action::spec_parse(params.action@) == Some(action),
        action != Action::List,
        action != Action::SwitchWorkspace,
        params.window_id matches Some(id) && !is_window_id(id@),
        params.workspace is Some,
        params.x is Some,
        params.y is Some,
        params.width is Some,
        params.height is Some,
        params.position is Some,
    ensures
        params.spec_command() == Err::<WindowCommand, WindowError>(
            WindowError::InvalidWindowId(params.window_id->0),
        ),
{
}

/// A workspace index that does not fit in 32 bits names no workspace: it is
/// refused, never taken for another workspace.
pub proof fn lemma_workspace_out_of_range_refused(params: WindowManagementParams, action: Action)
    requires
        Action::spec_parse(params.action@) == Some(action),
        action == Action::SwitchWorkspace || action == Action::MoveToWorkspace,
        action == Action::MoveToWorkspace ==> (params.window_id matches Some(id) && is_window_id(id@)),
        params.workspace matches Some(n) && !(i32::MIN <= n <= i32::MAX),
    ensures
        params.spec_command() == Err::<WindowCommand, WindowError>(
            WindowError::OutOfRange { param: Param::Workspace, value: params.workspace->0 },
        ),
{
}

/// The run answers an unknown action with the unknown-action error, and only
/// an unknown action, once the shell has answered; no script runs for it.
pub proof fn lemma_unknown_action_ends_run(
    params: WindowManagementParams,
    next: WindowSession,
    step: WindowStep,
)
    requires
        WindowSession::ReadingShellVersion(params).step_outcome(WindowEvent::ShellVersionRead, next, step),
    ensures
        (step matches WindowStep::Finish(Err(WindowError::UnknownAction(text))) && text == params.action)
            <==> Action::spec_parse(params.action@) is None,
        Action::spec_parse(params.action@) is None ==> next is Finished,
{
}

/// A snap to a position other than `left` or `right` runs no script: the
/// run ends at once with the report that the snap script gives for it.
pub proof fn lemma_unknown_snap_runs_no_script(
    params: WindowManagementParams,
    next: WindowSession,
    step: WindowStep,
    window_id: String,
    position: String,
)
    requires
        WindowSession::ReadingShellVersion(params).step_outcome(WindowEvent::ShellVersionRead, next, step),
        params.spec_command() == Ok::<WindowCommand, WindowError>(
            WindowCommand::Snap { window_id, position },
        ),
        !is_snap_position(position@),
    ensures
        next is Finished,
        step matches WindowStep::Finish(Ok(report))
            && report@ == "Window "@ + window_id@ + " invalid position: must be left or right"@,
{
}

/// A failure on the bus before a script runs is reported in the bus
/// library's own words: as they are when the connection fails, and after
/// saying the shell could not be reached when its version cannot be read;
/// an unreadable reply of `Eval` is likewise reported in those words.
pub proof fn lemma_bus_failures_keep_their_description(
    session: WindowSession,
    event: WindowEvent,
    next: WindowSession,
    error: WindowError,
)
    requires
        session.step_outcome(event, next, WindowStep::Finish(Err(error))),
    ensures
        event matches WindowEvent::ConnectFailed(text) ==> error.spec_message() == text@,
        event matches WindowEvent::ShellVersionFailed(text) ==> error.spec_message()
            == "Cannot connect to GNOME Shell: "@ + text@,
        event matches WindowEvent::EvalReplyUnreadable(text) ==> error.spec_message() == text@,
        event matches WindowEvent::EvalReplied { success: false, text } ==> error.spec_message()
            == "Script execution failed: "@ + text@,
{
}

} // verus!
