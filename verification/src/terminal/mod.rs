pub mod iterm2;
pub mod terminal_app;

use vstd::prelude::*;

use crate::shared::types::TerminalApp;

verus! {

/// Where to navigate: the tty of the session, the only reliable identity of a
/// terminal session.
#[derive(Clone, Debug)]
pub struct Target<'a> {
    pub tty: Option<&'a str>,
}

/// Why navigating to a session failed.
#[derive(Clone, Debug)]
pub enum NavErr {
    /// The host terminal is not one that navigation supports.
    UnsupportedHostApp,
    /// `osascript` failed, or could not be given a script.
    OsaScriptFailed { stderr: String },
    /// No session of that pid is known (it may just have ended).
    SessionNotFound,
    /// Another I/O error.
    Io { message: String },
}

/// The tty of a target, as characters.
pub open spec fn target_tty(target: &Target) -> Option<Seq<char>> {
    match target.tty {
        Some(t) => Some(t@),
        None => None,
    }
}

/// Whether `r` is what asking `host_app` to focus the session with tty `tty` yields:
/// the AppleScript to run for iTerm2 and Terminal.app, and `UnsupportedHostApp` for
/// the others.
pub open spec fn dispatch_result(host_app: TerminalApp, tty: Option<Seq<char>>, r: Result<String, NavErr>) -> bool {
    match host_app {
        TerminalApp::ITerm2 => iterm2::focus_result(tty, r),
        TerminalApp::Terminal => terminal_app::focus_result(tty, r),
        _ => r matches Err(NavErr::UnsupportedHostApp),
    }
}

/// Chooses how to focus the target for its host terminal: the AppleScript to hand to
/// `osascript`, or why navigation cannot be attempted.
pub fn dispatch(host_app: TerminalApp, target: &Target<'_>) -> (r: Result<String, NavErr>)
    ensures
        dispatch_result(host_app, target_tty(target), r),
{
    match host_app {
        TerminalApp::ITerm2 => iterm2::focus_session_script(target),
        TerminalApp::Terminal => terminal_app::focus_session_script(target),
        TerminalApp::IntelliJ | TerminalApp::Unknown => Err(NavErr::UnsupportedHostApp),
    }
}

/// The outcome of running a navigation script: success, or `OsaScriptFailed` with
/// what `osascript` wrote to its error output.
pub fn script_outcome(success: bool, stderr: String) -> (r: Result<(), NavErr>)
    ensures
        success ==> r is Ok,
        !success ==> (r matches Err(NavErr::OsaScriptFailed { stderr: e }) && e@ == stderr@),
{
    if success {
        Ok(())
    } else {
        Err(NavErr::OsaScriptFailed { stderr })
    }
}

} // verus!
