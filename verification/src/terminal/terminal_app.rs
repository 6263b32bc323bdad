use vstd::prelude::*;

use crate::shared::text::{quote, replace_char_exec};
use crate::terminal::iterm2::applescript_escape;
use crate::terminal::{NavErr, Target};

verus! {

/// The focus script for Terminal.app up to the tty literal.
pub const TERMINAL_HEAD: &'static str = "\ntell application \"Terminal\"\n    activate\n    set targetTTY to ";

/// The focus script for Terminal.app after the tty literal.
pub const TERMINAL_TAIL: &'static str = "\n    set didSelect to false\n    repeat with w in windows\n        repeat with t in tabs of w\n            if tty of t is targetTTY then\n                set selected tab of w to t\n                set index of w to 1\n                set didSelect to true\n                exit repeat\n            end if\n        end repeat\n        if didSelect then exit repeat\n    end repeat\nend tell\n";

/// The error text when Terminal.app navigation has no tty to match.
pub const TERMINAL_TTY_REQUIRED: &'static str = "tty is required for Terminal.app navigation";

/// The AppleScript value for an optional string: `missing value`, or the quoted and
/// escaped literal.
pub open spec fn spec_applescript_string(s: Option<Seq<char>>) -> Seq<char> {
    match s {
        None => "missing value"@,
        Some(v) => seq!['"'] + applescript_escape(v) + seq!['"'],
    }
}

/// The AppleScript value for an optional string.
pub fn applescript_string(s: Option<&str>) -> (r: String)
    ensures
        r@ == spec_applescript_string(match s {
            Some(v) => Some(v@),
            None => None,
        }),
{
    match s {
        None => "missing value".to_owned(),
        Some(v) => {
            proof {
                reveal_strlit("\\\\");
                reveal_strlit("\\\"");
            }
            assert("\\\\"@ =~= seq!['\\', '\\']);
            assert("\\\""@ =~= seq!['\\', '"']);
            let a = replace_char_exec(v, '\\', "\\\\");
            let b = replace_char_exec(a.as_str(), '"', "\\\"");
            quote(b.as_str())
        },
    }
}

/// The Terminal.app script that focuses the tab whose tty is `tty`.
pub open spec fn spec_render_script(tty: Option<Seq<char>>) -> Seq<char> {
    TERMINAL_HEAD@ + spec_applescript_string(tty) + TERMINAL_TAIL@
}

/// The Terminal.app script that focuses the tab of the target's tty.
pub fn render_script(target: &Target<'_>) -> (r: String)
    ensures
        r@ == spec_render_script(match target.tty {
            Some(t) => Some(t@),
            None => None,
        }),
{
    let lit = applescript_string(target.tty);
    let mut r = String::new();
    r.append(TERMINAL_HEAD);
    r.append(lit.as_str());
    r.append(TERMINAL_TAIL);
    r
}

/// Whether `r` is what focusing the Terminal.app tab with tty `tty` yields: the script
/// when there is a tty, and `OsaScriptFailed` otherwise.
pub open spec fn focus_result(tty: Option<Seq<char>>, r: Result<String, NavErr>) -> bool {
    match tty {
        Some(t) => r matches Ok(s) && s@ == spec_render_script(Some(t)),
        None => r matches Err(NavErr::OsaScriptFailed { stderr }) && stderr@ == TERMINAL_TTY_REQUIRED@,
    }
}

/// The script that focuses the target's Terminal.app tab; tabs are matched by tty
/// alone, so a target without tty is refused.
pub fn focus_session_script(target: &Target<'_>) -> (r: Result<String, NavErr>)
    ensures
        focus_result(
            match target.tty {
                Some(t) => Some(t@),
                None => None,
            },
            r,
        ),
{
    match target.tty {
        Some(_) => Ok(render_script(target)),
        None => Err(NavErr::OsaScriptFailed { stderr: TERMINAL_TTY_REQUIRED.to_owned() }),
    }
}

} // verus!
