//! Verified decision logic of two GNOME desktop tools: window management
//! through GNOME Shell scripts, and screenshots through the desktop portal
//! with a GNOME Shell fallback.
//!
//! Each tool run is a session: the caller performs the steps that the session
//! asks for (bus calls, portal requests, reading the clock) and hands back
//! what happened; the session decides what comes next and how the run ends.

pub mod action;
pub mod decimal;
pub mod json;
pub mod screenshot;
pub mod scripts;
pub mod text;
pub mod window;
pub mod window_session;

pub use action::{Action, Param};
pub use decimal::{i32_to_decimal, i64_to_decimal, u64_to_decimal};
pub use screenshot::{
    Screenshot, ScreenshotError, ScreenshotEvent, ScreenshotParams, ScreenshotSession,
    ScreenshotStep, saved_report, screenshot_filename,
};
pub use scripts::window_id_is_valid;
pub use text::{str_contains, str_equals};
pub use window::{WindowCommand, WindowError, WindowManagementParams, eval_outcome};
pub use window_session::{WindowEvent, WindowManagement, WindowSession, WindowStep};
