use vstd::prelude::*;

use crate::shared::text::{
    lemma_replace_char_concat, lemma_replace_char_single, quote, replace_char, replace_char_exec,
    str_eq,
};
use crate::terminal::{NavErr, Target};

verus! {

/// The focus script for iTerm2 up to the tty literal.
pub const ITERM2_HEAD: &'static str = "\non selectSession(theWindow, theTab, theSession)\n    tell application \"iTerm2\"\n        select theWindow\n        select theTab\n        select theSession\n    end tell\nend selectSession\n\ntell application \"iTerm2\"\n    activate\n    set targetTTY to ";

/// The focus script for iTerm2 after the tty literal.
pub const ITERM2_TAIL: &'static str = "\n    set didSelect to false\n\n    repeat with w in windows\n        repeat with t in tabs of w\n            repeat with s in sessions of t\n                set ttyMatches to false\n                try\n                    if tty of s is targetTTY then set ttyMatches to true\n                end try\n\n                if ttyMatches then\n                    my selectSession(w, t, s)\n                    set index of w to 1\n                    set didSelect to true\n                    exit repeat\n                end if\n            end repeat\n            if didSelect then exit repeat\n        end repeat\n        if didSelect then exit repeat\n    end repeat\nend tell\n";

/// Piece 0 of the script that opens a directory in a new tab or window.
pub const OPEN_PLAIN_0: &'static str = "\ntell application \"iTerm2\"\n    activate\n    if (count of windows) is 0 then\n        set newWin to (create window with default profile)\n        tell current session of newWin\n            write text \"cd ";

/// Piece 1 of the script that opens a directory in a new tab or window.
pub const OPEN_PLAIN_1: &'static str = "\"\n        end tell\n    else\n        tell current window\n            set newTab to (create tab with default profile)\n            tell current session of newTab\n                write text \"cd ";

/// Piece 2 of the script that opens a directory in a new tab or window.
pub const OPEN_PLAIN_2: &'static str = "\"\n            end tell\n        end tell\n    end if\nend tell\n";

/// Piece 0 of the script that opens a directory in a new tab or window and splits it.
pub const OPEN_SPLIT_0: &'static str = "\ntell application \"iTerm2\"\n    activate\n    if (count of windows) is 0 then\n        set newWin to (create window with default profile)\n        tell current session of newWin\n            write text \"cd ";

/// Piece 1 of the script that opens a directory in a new tab or window and splits it.
pub const OPEN_SPLIT_1: &'static str = "\"\n            set splitSess to (";

/// Piece 2 of the script that opens a directory in a new tab or window and splits it.
pub const OPEN_SPLIT_2: &'static str = " with default profile)\n            tell splitSess\n                write text \"cd ";

/// Piece 3 of the script that opens a directory in a new tab or window and splits it.
pub const OPEN_SPLIT_3: &'static str = "\"\n            end tell\n        end tell\n    else\n        tell current window\n            set newTab to (create tab with default profile)\n            tell current session of newTab\n                write text \"cd ";

/// Piece 4 of the script that opens a directory in a new tab or window and splits it.
pub const OPEN_SPLIT_4: &'static str = "\"\n                set splitSess to (";

/// Piece 5 of the script that opens a directory in a new tab or window and splits it.
pub const OPEN_SPLIT_5: &'static str = " with default profile)\n                tell splitSess\n                    write text \"cd ";

/// Piece 6 of the script that opens a directory in a new tab or window and splits it.
pub const OPEN_SPLIT_6: &'static str = "\"\n                end tell\n            end tell\n        end tell\n    end if\nend tell\n";

/// The error text when iTerm2 navigation has no tty to match.
pub const ITERM2_TTY_REQUIRED: &'static str = "tty is required for iTerm2 navigation";

/// `s` escaped for the inside of an AppleScript string literal: each `\` doubled,
/// each `"` preceded by `\`.
pub open spec fn applescript_escape(s: Seq<char>) -> Seq<char> {
    replace_char(replace_char(s, '\\', seq!['\\', '\\']), '"', seq!['\\', '"'])
}

/// The AppleScript string literal that denotes `s`.
pub open spec fn spec_applescript_string(s: Seq<char>) -> Seq<char> {
    seq!['"'] + applescript_escape(s) + seq!['"']
}

/// The AppleScript string literal that denotes `s` (quoted, with `\` and `"` escaped).
pub fn applescript_string(s: &str) -> (r: String)
    ensures
        r@ == spec_applescript_string(s@),
{
    proof {
        reveal_strlit("\\\\");
        reveal_strlit("\\\"");
    }
    assert("\\\\"@ =~= seq!['\\', '\\']);
    assert("\\\""@ =~= seq!['\\', '"']);
    let a = replace_char_exec(s, '\\', "\\\\");
    let b = replace_char_exec(a.as_str(), '"', "\\\"");
    quote(b.as_str())
}

/// The iTerm2 script that focuses the session whose tty is `tty`.
pub open spec fn spec_render_script(tty: Seq<char>) -> Seq<char> {
    ITERM2_HEAD@ + spec_applescript_string(tty) + ITERM2_TAIL@
}

/// The iTerm2 script that focuses the session of the target's tty.
pub fn render_script(target: &Target<'_>) -> (r: String)
    requires
        target.tty is Some,
    ensures
        r@ == spec_render_script(target.tty->0@),
{
    let tty = match target.tty {
        Some(t) => t,
        None => "",
    };
    let lit = applescript_string(tty);
    let mut r = String::new();
    r.append(ITERM2_HEAD);
    r.append(lit.as_str());
    r.append(ITERM2_TAIL);
    r
}

/// Whether `r` is what focusing the iTerm2 session with tty `tty` yields: the script
/// when there is a tty, and `OsaScriptFailed` otherwise.
pub open spec fn focus_result(tty: Option<Seq<char>>, r: Result<String, NavErr>) -> bool {
    match tty {
        Some(t) => r matches Ok(s) && s@ == spec_render_script(t),
        None => r matches Err(NavErr::OsaScriptFailed { stderr }) && stderr@ == ITERM2_TTY_REQUIRED@,
    }
}

/// The script that focuses the target's iTerm2 session; iTerm2 is matched by tty
/// alone, so a target without tty is refused.
pub fn focus_session_script(target: &Target<'_>) -> (r: Result<String, NavErr>)
    ensures
        focus_result(
            match target.tty {
                Some(t) => Some(t@),
                None => None,
            },
            r,
        ),
{
    match target.tty {
        Some(_) => Ok(render_script(target)),
        None => Err(NavErr::OsaScriptFailed { stderr: ITERM2_TTY_REQUIRED.to_owned() }),
    }
}

/// `dir` made safe for `write text "cd ..."`: spaces get a backslash for the shell,
/// then the result is escaped for an AppleScript string literal.
pub open spec fn spec_escape_dir(dir: Seq<char>) -> Seq<char> {
    applescript_escape(replace_char(dir, ' ', seq!['\\', ' ']))
}

/// `dir` made safe for `write text "cd ..."` (see `spec_escape_dir`).
pub fn escape_dir_for_applescript(dir: &str) -> (r: String)
    ensures
        r@ == spec_escape_dir(dir@),
{
    proof {
        reveal_strlit("\\ ");
        reveal_strlit("\\\\");
        reveal_strlit("\\\"");
    }
    assert("\\ "@ =~= seq!['\\', ' ']);
    assert("\\\\"@ =~= seq!['\\', '\\']);
    assert("\\\""@ =~= seq!['\\', '"']);
    let shell_safe = replace_char_exec(dir, ' ', "\\ ");
    let a = replace_char_exec(shell_safe.as_str(), '\\', "\\\\");
    replace_char_exec(a.as_str(), '"', "\\\"")
}

/// The iTerm2 split command for a configured direction: none for `"none"`,
/// `split vertically` for `"vertical"`, `split horizontally` for anything else.
pub open spec fn spec_split_command(direction: Seq<char>) -> Option<Seq<char>> {
    if direction == "none"@ {
        None
    } else if direction == "vertical"@ {
        Some("split vertically"@)
    } else {
        Some("split horizontally"@)
    }
}

/// The iTerm2 split command for a configured direction (see `spec_split_command`).
pub fn split_command(direction: &str) -> (r: Option<&'static str>)
    ensures
        match spec_split_command(direction@) {
            Some(c) => r matches Some(x) && x@ == c,
            None => r is None,
        },
{
    if str_eq(direction, "none") {
        None
    } else if str_eq(direction, "vertical") {
        Some("split vertically")
    } else {
        Some("split horizontally")
    }
}

/// The script that opens `dir` in iTerm2: a new tab of the current window, or a new
/// window when there is none, changing to `dir`; then, unless the direction is
/// `"none"`, a split of that session that changes to `dir` too.
pub open spec fn spec_open_directory_script(dir: Seq<char>, direction: Seq<char>) -> Seq<char> {
    let d = spec_escape_dir(dir);
    match spec_split_command(direction) {
        None => OPEN_PLAIN_0@ + d + OPEN_PLAIN_1@ + d + OPEN_PLAIN_2@,
        Some(cmd) => OPEN_SPLIT_0@ + d + OPEN_SPLIT_1@ + cmd + OPEN_SPLIT_2@ + d + OPEN_SPLIT_3@
            + d + OPEN_SPLIT_4@ + cmd + OPEN_SPLIT_5@ + d + OPEN_SPLIT_6@,
    }
}

/// The script that opens `dir` in iTerm2 with the configured split direction.
pub fn open_directory_script(dir: &str, split_direction: &str) -> (r: String)
    ensures
        r@ == spec_open_directory_script(dir@, split_direction@),
{
    let d = escape_dir_for_applescript(dir);
    let ds = d.as_str();
    let mut r = String::new();
    match split_command(split_direction) {
        None => {
            r.append(OPEN_PLAIN_0);
            r.append(ds);
            r.append(OPEN_PLAIN_1);
            r.append(ds);
            r.append(OPEN_PLAIN_2);
        },
        Some(cmd) => {
            r.append(OPEN_SPLIT_0);
            r.append(ds);
            r.append(OPEN_SPLIT_1);
            r.append(cmd);
            r.append(OPEN_SPLIT_2);
            r.append(ds);
            r.append(OPEN_SPLIT_3);
            r.append(ds);
            r.append(OPEN_SPLIT_4);
            r.append(cmd);
            r.append(OPEN_SPLIT_5);
            r.append(ds);
            r.append(OPEN_SPLIT_6);
        },
    }
    r
}

} // verus!

verus! {

/// The text that the inside of an AppleScript string literal stands for: `\n`, `\t`
/// and `\r` are line feed, tab and carriage return; `\` before any other character
/// stands for that character.
pub open spec fn applescript_unescape(s: Seq<char>) -> Seq<char>
    decreases s.len(),
{
    if s.len() == 0 {
        Seq::empty()
    } else if s[0] == '\\' && s.len() >= 2 {
        let c = if s[1] == 'n' {
            '\n'
        } else if s[1] == 't' {
            '\t'
        } else if s[1] == 'r' {
            '\r'
        } else {
            s[1]
        };
        seq![c] + applescript_unescape(s.skip(2))
    } else {
        seq![s[0]] + applescript_unescape(s.drop_first())
    }
}

/// How one character is escaped.
spec fn escape_one(c: char) -> Seq<char> {
    if c == '\\' {
        seq!['\\', '\\']
    } else if c == '"' {
        seq!['\\', '"']
    } else {
        seq![c]
    }
}

proof fn lemma_escape_one(c: char)
    ensures
        applescript_escape(seq![c]) == escape_one(c),
{
    let bs = seq!['\\', '\\'];
    let qt = seq!['\\', '"'];
    lemma_replace_char_single(c, '\\', bs);
    if c == '\\' {
        assert(bs =~= seq!['\\'] + seq!['\\']);
        lemma_replace_char_concat(seq!['\\'], seq!['\\'], '"', qt);
        lemma_replace_char_single('\\', '"', qt);
        assert(applescript_escape(seq![c]) =~= escape_one(c));
    } else {
        lemma_replace_char_single(c, '"', qt);
    }
}

proof fn lemma_escape_front(c: char, rest: Seq<char>)
    ensures
        applescript_escape(seq![c] + rest) == escape_one(c) + applescript_escape(rest),
{
    let bs = seq!['\\', '\\'];
    let qt = seq!['\\', '"'];
    lemma_replace_char_concat(seq![c], rest, '\\', bs);
    lemma_replace_char_concat(replace_char(seq![c], '\\', bs), replace_char(rest, '\\', bs), '"', qt);
    lemma_escape_one(c);
}

/// The inside of the literal that `applescript_string` builds stands for exactly the
/// original text: quoting loses and changes nothing.
pub proof fn lemma_applescript_literal_denotes(s: Seq<char>)
    ensures
        applescript_unescape(applescript_escape(s)) == s,
        spec_applescript_string(s) == seq!['"'] + applescript_escape(s) + seq!['"'],
    decreases s.len(),
{
    if s.len() > 0 {
        let c = s[0];
        let rest = s.drop_first();
        assert(s =~= seq![c] + rest);
        lemma_escape_front(c, rest);
        lemma_applescript_literal_denotes(rest);
        let t = applescript_escape(rest);
        let e = escape_one(c) + t;
        if c == '\\' || c == '"' {
            assert(e.skip(2) =~= t);
            assert(e[0] == '\\' && e[1] == c);
        } else {
            assert(e.drop_first() =~= t);
        }
        assert(applescript_unescape(e) =~= seq![c] + rest);
    } else {
        assert(applescript_escape(s) =~= Seq::<char>::empty());
    }
}

} // verus!
