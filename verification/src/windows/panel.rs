use vstd::prelude::*;

use crate::shared::state::claude_sessions::ClaudeSessionStore;
use crate::shared::text::{concat, str_eq};
use crate::terminal::{dispatch, dispatch_result, NavErr, Target};

verus! {

broadcast use vstd::std_specs::hash::group_hash_axioms;

/// The command-line program that opens a project in an editor: `code` for `"vscode"`,
/// `idea` for `"idea"`.
pub open spec fn spec_editor_command(editor: Seq<char>) -> Option<Seq<char>> {
    if editor == "vscode"@ {
        Some("code"@)
    } else if editor == "idea"@ {
        Some("idea"@)
    } else {
        None
    }
}

/// The program that opens a project in `editor`; other editors are refused.
pub fn editor_command(editor: &str) -> (r: Result<&'static str, String>)
    ensures
        match spec_editor_command(editor@) {
            Some(c) => r matches Ok(x) && x@ == c,
            None => r matches Err(e) && e@ == "unsupported editor: "@ + editor@,
        },
{
    if str_eq(editor, "vscode") {
        Ok("code")
    } else if str_eq(editor, "idea") {
        Ok("idea")
    } else {
        Err(concat("unsupported editor: ", editor))
    }
}

/// The navigation target of a session's tty: none when it is empty.
pub open spec fn tty_target(tty: Seq<char>) -> Option<Seq<char>> {
    if tty.len() == 0 {
        None
    } else {
        Some(tty)
    }
}

/// How to navigate to the session of process `pid`: the AppleScript for its host
/// terminal, or why there is none (`SessionNotFound` when the store has no such
/// session).
pub fn navigation_script(store: &ClaudeSessionStore, pid: u32) -> (r: Result<String, NavErr>)
    ensures
        !store@.contains_key(pid) ==> r matches Err(NavErr::SessionNotFound),
        store@.contains_key(pid) ==> dispatch_result(
            store@[pid].host_app,
            tty_target(store@[pid].tty@),
            r,
        ),
{
    match store.get(pid) {
        None => Err(NavErr::SessionNotFound),
        Some(session) => {
            let tty = session.tty.as_str();
            let target = if tty.is_empty() {
                Target { tty: None }
            } else {
                Target { tty: Some(tty) }
            };
            dispatch(session.host_app, &target)
        },
    }
}

} // verus!
