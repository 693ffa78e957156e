//! One run of the screenshot tool, as a sequence of steps.
//!
//! The desktop portal is asked first. Only when it fails is GNOME Shell's
//! screenshot service asked instead, with the same choice between an
//! interactive and a full-screen shot. The caller performs each step and
//! reports back what happened; the session decides the next step.

use vstd::prelude::*;

use crate::decimal::{nat_decimal, u64_to_decimal};
use crate::text::{contains_text, lemma_contains_middle};

verus! {

/// The screenshot tool.
#[derive(Clone, Copy, Debug, Default)]
pub struct Screenshot;

/// The parameters of the screenshot tool.
#[derive(Clone, Copy, Debug)]
pub struct ScreenshotParams {
    /// Whether to show the dialog that lets the user pick an area; when not
    /// given, the configured default applies.
    pub interactive: Option<bool>,
}

/// Why no screenshot was taken: both the portal and the shell failed.
#[derive(Debug)]
pub struct ScreenshotError {
    /// What went wrong with the portal.
    pub portal: String,
    /// What went wrong with the shell.
    pub shell: String,
}

/// What the caller is to do next.
#[derive(Debug)]
pub enum ScreenshotStep {
    /// Ask the desktop portal for a screenshot, interactive or not.
    RequestPortal { interactive: bool },
    /// Open a session bus connection and a proxy for
    /// `org.gnome.Shell.Screenshot` at `/org/gnome/Shell/Screenshot`.
    ConnectShell,
    /// Read the system clock: whole seconds since the Unix epoch.
    ReadClock,
    /// Call `Screenshot(false, false, filename)`.
    CallScreenshot { filename: String },
    /// Call `InteractiveScreenshot()`.
    CallInteractiveScreenshot,
    /// The run is over, with this outcome.
    Finish(Result<String, ScreenshotError>),
}

/// What happened when the caller performed a step.
#[derive(Debug)]
pub enum ScreenshotEvent {
    /// The portal saved the screenshot at this URI.
    PortalSaved(String),
    /// The portal request failed or was cancelled, as described.
    PortalFailed(String),
    /// The connection and the proxy are open.
    ShellConnected,
    /// The clock reads this many seconds since the Unix epoch.
    ClockRead(u64),
    /// The shell replied with a success flag and where it saved the file.
    ShellReplied { success: bool, location: String },
    /// A step of the shell fallback failed (the bus, the clock, the call or
    /// its reply), as described.
    ShellFailed(String),
}

/// Where a run stands.
#[derive(Debug)]
pub enum ScreenshotSession {
    /// Waiting for the portal.
    AwaitingPortal { interactive: bool },
    /// The portal failed with `portal_error`; waiting for the shell
    /// connection.
    ConnectingShell { interactive: bool, portal_error: String },
    /// Waiting for the clock, which names the file of a full-screen shot.
    ReadingClock { portal_error: String },
    /// Waiting for the shell's reply.
    AwaitingShell { interactive: bool, portal_error: String },
    /// The run is over.
    Finished,
}

/// The report of a saved screenshot.
pub open spec fn saved_message(interactive: bool, location: Seq<char>) -> Seq<char> {
    if interactive {
        "Interactive screenshot completed. File saved to: "@ + location
    } else {
        "Screenshot taken. File saved to: "@ + location
    }
}

/// The words that lead in the description of a portal failure.
pub open spec fn portal_failure_lead_in() -> Seq<char> {
    "Screenshot was cancelled or failed "@
}

/// What is kept of a portal failure described by `text`.
pub open spec fn portal_failure(text: Seq<char>) -> Seq<char> {
    portal_failure_lead_in() + text
}

/// What is kept of a shell that answered that it failed.
pub open spec fn shell_declined(interactive: bool) -> Seq<char> {
    if interactive {
        "GNOME Shell interactive screenshot failed"@
    } else {
        "GNOME Shell screenshot failed"@
    }
}

/// The file that GNOME Shell is asked to save a full-screen shot to, named by
/// the time in seconds since the Unix epoch.
pub open spec fn spec_screenshot_filename(seconds: nat) -> Seq<char> {
    "/tmp/gnome-mcp-screenshot-"@ + nat_decimal(seconds) + ".png"@
}

/// The file that GNOME Shell is asked to save a full-screen shot to.
pub fn screenshot_filename(seconds: u64) -> (r: String)
    ensures
        r@ == spec_screenshot_filename(seconds as nat),
{
    let mut s = String::from_str("/tmp/gnome-mcp-screenshot-");
    let digits = u64_to_decimal(seconds);
    s.append(digits.as_str());
    s.append(".png");
    s
}

/// The report of a saved screenshot.
pub fn saved_report(interactive: bool, location: &str) -> (r: String)
    ensures
        r@ == saved_message(interactive, location@),
{
    let mut s = if interactive {
        String::from_str("Interactive screenshot completed. File saved to: ")
    } else {
        String::from_str("Screenshot taken. File saved to: ")
    };
    s.append(location);
    s
}

impl ScreenshotError {
    /// The text that reports the error.
    pub open spec fn spec_message(self) -> Seq<char> {
        "Portal screenshot failed: "@ + self.portal@ + "; GNOME Shell fallback failed: "@
            + self.shell@
    }

    /// The text that reports the error.
    pub fn message(&self) -> (r: String)
        ensures
            r@ == self.spec_message(),
    {
        let mut s = String::from_str("Portal screenshot failed: ");
        s.append(self.portal.as_str());
        s.append("; GNOME Shell fallback failed: ");
        s.append(self.shell.as_str());
        s
    }
}

impl Screenshot {
    /// The name of the tool.
    pub const NAME: &'static str = "take_screenshot";

    /// The description of the tool.
    pub const DESCRIPTION: &'static str =
        "Take a screenshot using the desktop portal, falling back to GNOME Shell";

    /// Starts a run: the shot is interactive when the parameters say so, or,
    /// when they do not say, when the configuration says so; the first step
    /// asks the portal.
    pub fn begin(&self, params: ScreenshotParams, configured_interactive: bool) -> (r: (
        ScreenshotSession,
        ScreenshotStep,
    ))
        ensures
            ({
                let interactive = match params.interactive {
                    Some(choice) => choice,
                    None => configured_interactive,
                };
                &&& r.0 == ScreenshotSession::AwaitingPortal { interactive }
                &&& r.1 == ScreenshotStep::RequestPortal { interactive }
            }),
    {
        let interactive = match params.interactive {
            Some(choice) => choice,
            None => configured_interactive,
        };
        (ScreenshotSession::AwaitingPortal { interactive }, ScreenshotStep::RequestPortal { interactive })
    }
}

impl ScreenshotSession {
    /// Whether the run is waiting for this kind of event.
    pub open spec fn accepts(self, event: ScreenshotEvent) -> bool {
        match self {
            ScreenshotSession::AwaitingPortal { .. } => event is PortalSaved || event is PortalFailed,
            ScreenshotSession::ConnectingShell { .. } => event is ShellConnected
                || event is ShellFailed,
            ScreenshotSession::ReadingClock { .. } => event is ClockRead || event is ShellFailed,
            ScreenshotSession::AwaitingShell { .. } => event is ShellReplied || event is ShellFailed,
            ScreenshotSession::Finished => false,
        }
    }

    /// Whether the run is waiting for this kind of event.
    pub fn is_waiting_for(&self, event: &ScreenshotEvent) -> (r: bool)
        ensures
            r == self.accepts(*event),
    {
        match self {
            ScreenshotSession::AwaitingPortal { .. } => matches!(event, ScreenshotEvent::PortalSaved(_) | ScreenshotEvent::PortalFailed(_)),
            ScreenshotSession::ConnectingShell { .. } => matches!(event, ScreenshotEvent::ShellConnected | ScreenshotEvent::ShellFailed(_)),
            ScreenshotSession::ReadingClock { .. } => matches!(event, ScreenshotEvent::ClockRead(_) | ScreenshotEvent::ShellFailed(_)),
            ScreenshotSession::AwaitingShell { .. } => matches!(event, ScreenshotEvent::ShellReplied { .. } | ScreenshotEvent::ShellFailed(_)),
            ScreenshotSession::Finished => false,
        }
    }

    /// Every portal failure that the state remembers starts with the lead-in
    /// of a portal failure.
    pub open spec fn remembers_portal_failure(self) -> bool {
        match self {
            ScreenshotSession::ConnectingShell { portal_error, .. } => portal_failure_lead_in().is_prefix_of(portal_error@),
            ScreenshotSession::ReadingClock { portal_error } => portal_failure_lead_in().is_prefix_of(portal_error@),
            ScreenshotSession::AwaitingShell { portal_error, .. } => portal_failure_lead_in().is_prefix_of(portal_error@),
            _ => true,
        }
    }

    /// Whether the run takes an interactive shot (a run that reads the clock
    /// takes a full-screen one).
    pub open spec fn is_interactive(self) -> bool {
        match self {
            ScreenshotSession::AwaitingPortal { interactive } => interactive,
            ScreenshotSession::ConnectingShell { interactive, .. } => interactive,
            ScreenshotSession::ReadingClock { .. } => false,
            ScreenshotSession::AwaitingShell { interactive, .. } => interactive,
            ScreenshotSession::Finished => false,
        }
    }

    /// How many steps at most remain before the run finishes.
    pub open spec fn remaining_steps(self) -> nat {
        match self {
            ScreenshotSession::AwaitingPortal { .. } => 4,
            ScreenshotSession::ConnectingShell { .. } => 3,
            ScreenshotSession::ReadingClock { .. } => 2,
            ScreenshotSession::AwaitingShell { .. } => 1,
            ScreenshotSession::Finished => 0,
        }
    }

    /// The outcome of a failure of the shell fallback, described by `shell`.
    pub open spec fn fallback_failed(portal_error: String, shell: String) -> ScreenshotStep {
        ScreenshotStep::Finish(Err(ScreenshotError { portal: portal_error, shell }))
    }

    /// What handling `event` does: the state it leads to and the step it
    /// asks for. A portal that saved the shot ends the run; a portal that
    /// failed leads to the shell: an interactive shot at once, a full-screen
    /// one after the clock names its file. Any failure of the shell ends the
    /// run with both failures.
    pub open spec fn step_outcome(
        self,
        event: ScreenshotEvent,
        next: ScreenshotSession,
        step: ScreenshotStep,
    ) -> bool {
        match self {
            ScreenshotSession::AwaitingPortal { interactive } => match event {
                ScreenshotEvent::PortalSaved(uri) => {
                    &&& next is Finished
                    &&& step matches ScreenshotStep::Finish(Ok(report))
                    &&& report@ == saved_message(interactive, uri@)
                },
                ScreenshotEvent::PortalFailed(text) => {
                    &&& next matches ScreenshotSession::ConnectingShell { interactive: i, portal_error }
                    &&& i == interactive
                    &&& portal_error@ == portal_failure(text@)
                    &&& step is ConnectShell
                },
                _ => false,
            },
            ScreenshotSession::ConnectingShell { interactive, portal_error } => match event {
                ScreenshotEvent::ShellConnected => if interactive {
                    &&& next == ScreenshotSession::AwaitingShell { interactive, portal_error }
                    &&& step is CallInteractiveScreenshot
                } else {
                    &&& next == ScreenshotSession::ReadingClock { portal_error }
                    &&& step is ReadClock
                },
                ScreenshotEvent::ShellFailed(text) => next is Finished && step
                    == Self::fallback_failed(portal_error, text),
                _ => false,
            },
            ScreenshotSession::ReadingClock { portal_error } => match event {
                ScreenshotEvent::ClockRead(seconds) => {
                    &&& next == ScreenshotSession::AwaitingShell { interactive: false, portal_error }
                    &&& step matches ScreenshotStep::CallScreenshot { filename }
                    &&& filename@ == spec_screenshot_filename(seconds as nat)
                },
                ScreenshotEvent::ShellFailed(text) => next is Finished && step
                    == Self::fallback_failed(portal_error, text),
                _ => false,
            },
            ScreenshotSession::AwaitingShell { interactive, portal_error } => match event {
                ScreenshotEvent::ShellReplied { success, location } => {
                    &&& next is Finished
                    &&& step matches ScreenshotStep::Finish(outcome)
                    &&& if success {
                        outcome matches Ok(report) && report@ == saved_message(interactive, location@)
                    } else {
                        outcome matches Err(e) && e.portal == portal_error
                            && e.shell@ == shell_declined(interactive)
                    }
                },
                ScreenshotEvent::ShellFailed(text) => next is Finished && step
                    == Self::fallback_failed(portal_error, text),
                _ => false,
            },
            ScreenshotSession::Finished => false,
        }
    }

    /// Handles what happened at the last step and says what to do next.
    pub fn step(&mut self, event: ScreenshotEvent) -> (step: ScreenshotStep)
        requires
            old(self).accepts(event),
        ensures
            old(self).step_outcome(event, *final(self), step),
    {
        let mut state = ScreenshotSession::Finished;
        core::mem::swap(&mut state, self);
        match state {
            ScreenshotSession::AwaitingPortal { interactive } => match event {
                ScreenshotEvent::PortalSaved(uri) => ScreenshotStep::Finish(
                    Ok(saved_report(interactive, uri.as_str())),
                ),
                ScreenshotEvent::PortalFailed(text) => {
                    let mut portal_error = String::from_str("Screenshot was cancelled or failed ");
                    portal_error.append(text.as_str());
                    *self = ScreenshotSession::ConnectingShell { interactive, portal_error };
                    ScreenshotStep::ConnectShell
                },
                _ => vstd::pervasive::unreached(),
            },
            ScreenshotSession::ConnectingShell { interactive, portal_error } => match event {
                ScreenshotEvent::ShellConnected => if interactive {
                    *self = ScreenshotSession::AwaitingShell { interactive, portal_error };
                    ScreenshotStep::CallInteractiveScreenshot
                } else {
                    *self = ScreenshotSession::ReadingClock { portal_error };
                    ScreenshotStep::ReadClock
                },
                ScreenshotEvent::ShellFailed(text) => ScreenshotStep::Finish(
                    Err(ScreenshotError { portal: portal_error, shell: text }),
                ),
                _ => vstd::pervasive::unreached(),
            },
            ScreenshotSession::ReadingClock { portal_error } => match event {
                ScreenshotEvent::ClockRead(seconds) => {
                    let filename = screenshot_filename(seconds);
                    *self = ScreenshotSession::AwaitingShell { interactive: false, portal_error };
                    ScreenshotStep::CallScreenshot { filename }
                },
                ScreenshotEvent::ShellFailed(text) => ScreenshotStep::Finish(
                    Err(ScreenshotError { portal: portal_error, shell: text }),
                ),
                _ => vstd::pervasive::unreached(),
            },
            ScreenshotSession::AwaitingShell { interactive, portal_error } => match event {
                ScreenshotEvent::ShellReplied { success, location } => if success {
                    ScreenshotStep::Finish(Ok(saved_report(interactive, location.as_str())))
                } else {
                    let shell = if interactive {
                        String::from_str("GNOME Shell interactive screenshot failed")
                    } else {
                        String::from_str("GNOME Shell screenshot failed")
                    };
                    ScreenshotStep::Finish(Err(ScreenshotError { portal: portal_error, shell }))
                },
                ScreenshotEvent::ShellFailed(text) => ScreenshotStep::Finish(
                    Err(ScreenshotError { portal: portal_error, shell: text }),
                ),
                _ => vstd::pervasive::unreached(),
            },
            ScreenshotSession::Finished => vstd::pervasive::unreached(),
        }
    }
}

/// Every step brings a run closer to its end: the steps left strictly
/// decrease, and a step finishes the run exactly when the run is then over.
pub proof fn lemma_screenshot_step_makes_progress(
    session: ScreenshotSession,
    event: ScreenshotEvent,
    next: ScreenshotSession,
    step: ScreenshotStep,
)
    requires
        session.step_outcome(event, next, step),
    ensures
        next.remaining_steps() < session.remaining_steps(),
        step is Finish <==> next is Finished,
{
}

/// GNOME Shell is contacted only after the portal failed, and the run keeps
/// the choice between an interactive and a full-screen shot.
pub proof fn lemma_shell_only_after_portal_failure(
    session: ScreenshotSession,
    event: ScreenshotEvent,
    next: ScreenshotSession,
    step: ScreenshotStep,
)
    requires
        session.step_outcome(event, next, step),
    ensures
        step is ConnectShell ==> session is AwaitingPortal && event is PortalFailed,
        event is PortalSaved ==> next is Finished,
        !(next is Finished) ==> next.is_interactive() == session.is_interactive(),
{
}

/// The shell is asked for the kind of shot that the run was started with:
/// `InteractiveScreenshot` for an interactive run, `Screenshot` otherwise.
pub proof fn lemma_shell_call_matches_choice(
    session: ScreenshotSession,
    event: ScreenshotEvent,
    next: ScreenshotSession,
    step: ScreenshotStep,
)
    requires
        session.step_outcome(event, next, step),
    ensures
        step is CallInteractiveScreenshot ==> session.is_interactive(),
        step is CallScreenshot ==> !session.is_interactive(),
{
}

/// A run that fails reports both failures, the portal's kept with the
/// portal's description behind a fixed lead-in: every state that remembers a
/// portal failure remembers it so, and so does every error the run ends with.
pub proof fn lemma_failure_reports_portal_error(
    session: ScreenshotSession,
    event: ScreenshotEvent,
    next: ScreenshotSession,
    step: ScreenshotStep,
)
    requires
        session.remembers_portal_failure(),
        session.step_outcome(event, next, step),
    ensures
        next.remembers_portal_failure(),
        step matches ScreenshotStep::Finish(Err(e)) ==> portal_failure_lead_in().is_prefix_of(e.portal@),
{
    if let ScreenshotEvent::PortalFailed(text) = event {
        if session is AwaitingPortal {
            let kept = portal_failure(text@);
            assert(kept.subrange(0, portal_failure_lead_in().len() as int) =~= portal_failure_lead_in());
        }
    }
}

/// The portal failure that a state waiting on the shell remembers.
pub open spec fn remembered_portal_failure(session: ScreenshotSession) -> String {
    match session {
        ScreenshotSession::ConnectingShell { portal_error, .. } => portal_error,
        ScreenshotSession::ReadingClock { portal_error } => portal_error,
        ScreenshotSession::AwaitingShell { portal_error, .. } => portal_error,
        _ => vstd::pervasive::arbitrary(),
    }
}

/// Once the portal has failed, any failure of the shell fallback (the
/// connection, the clock, the call or its reply) ends the run with an error
/// that holds the remembered portal failure and the shell's description of
/// its failure, unchanged.
pub proof fn lemma_shell_failure_ends_in_error(
    session: ScreenshotSession,
    text: String,
    next: ScreenshotSession,
    step: ScreenshotStep,
)
    requires
        session.step_outcome(ScreenshotEvent::ShellFailed(text), next, step),
    ensures
        next is Finished,
        step == (ScreenshotStep::Finish(
            Err(ScreenshotError { portal: remembered_portal_failure(session), shell: text }),
        )),
{
}

/// A shell that answers that it failed ends the run with an error that holds
/// the remembered portal failure and says which kind of shot the shell could
/// not take.
pub proof fn lemma_declined_shell_ends_in_error(
    session: ScreenshotSession,
    location: String,
    next: ScreenshotSession,
    step: ScreenshotStep,
)
    requires
        session.step_outcome(ScreenshotEvent::ShellReplied { success: false, location }, next, step),
    ensures
        next is Finished,
        step matches ScreenshotStep::Finish(Err(e)) && e.portal == remembered_portal_failure(session),
        step matches ScreenshotStep::Finish(Err(e)) && e.shell@ == (if session.is_interactive() {
            "GNOME Shell interactive screenshot failed"@
        } else {
            "GNOME Shell screenshot failed"@
        }),
{
}

/// A run ends well only when the portal or the shell saved the file, and the
/// report then says where: after the words for an interactive or a
/// full-screen shot comes the location that the portal or the shell gave.
pub proof fn lemma_success_reports_the_saved_file(
    session: ScreenshotSession,
    event: ScreenshotEvent,
    next: ScreenshotSession,
    report: String,
)
    requires
        session.step_outcome(event, next, ScreenshotStep::Finish(Ok(report))),
    ensures
        event is PortalSaved || event matches ScreenshotEvent::ShellReplied { success: true, .. },
        event matches ScreenshotEvent::PortalSaved(uri) ==> report@ == (if session.is_interactive() {
            "Interactive screenshot completed. File saved to: "@
        } else {
            "Screenshot taken. File saved to: "@
        }) + uri@,
        event matches ScreenshotEvent::ShellReplied { location, .. } ==> report@ == (
        if session.is_interactive() {
            "Interactive screenshot completed. File saved to: "@
        } else {
            "Screenshot taken. File saved to: "@
        }) + location@,
{
}

/// A full-screen shot is saved to a file named by the clock: the clock's
/// seconds, in decimal, between a fixed directory and prefix and `.png`.
pub proof fn lemma_filename_names_the_clock(
    session: ScreenshotSession,
    seconds: u64,
    next: ScreenshotSession,
    step: ScreenshotStep,
)
    requires
        session.step_outcome(ScreenshotEvent::ClockRead(seconds), next, step),
    ensures
        step matches ScreenshotStep::CallScreenshot { filename } && (filename@
            == "/tmp/gnome-mcp-screenshot-"@ + nat_decimal(seconds as nat) + ".png"@),
        next == (ScreenshotSession::AwaitingShell {
            interactive: false,
            portal_error: remembered_portal_failure(session),
        }),
{
}

/// A failed portal is remembered with its description kept whole, behind
/// the words that say the screenshot was cancelled or failed, and the run
/// turns to the shell with the same choice of shot.
pub proof fn lemma_portal_failure_is_remembered(
    interactive: bool,
    text: String,
    next: ScreenshotSession,
    step: ScreenshotStep,
)
    requires
        (ScreenshotSession::AwaitingPortal { interactive }).step_outcome(
            ScreenshotEvent::PortalFailed(text),
            next,
            step,
        ),
    ensures
        step is ConnectShell,
        next is ConnectingShell,
        next.is_interactive() == interactive,
        remembered_portal_failure(next)@ == "Screenshot was cancelled or failed "@ + text@,
{
}

/// The report of a failed run names both failures: it starts by saying the
/// portal failed and holds the portal's failure and the shell's, whole.
pub proof fn lemma_error_message_names_both_failures(error: ScreenshotError)
    ensures
        error.spec_message().subrange(0, 26) == "Portal screenshot failed: "@,
        contains_text(error.spec_message(), error.portal@),
        contains_text(error.spec_message(), error.shell@),
{
    reveal_strlit("Portal screenshot failed: ");
    let head = "Portal screenshot failed: "@;
    let middle = "; GNOME Shell fallback failed: "@;
    lemma_contains_middle(head, error.portal@, middle + error.shell@);
    assert(error.spec_message() =~= head + error.portal@ + (middle + error.shell@));
    lemma_contains_middle(head + error.portal@ + middle, error.shell@, Seq::empty());
    assert(error.spec_message() =~= head + error.portal@ + middle + error.shell@ + Seq::<char>::empty());
    assert(error.spec_message().subrange(0, 26) =~= head);
}

} // verus!
