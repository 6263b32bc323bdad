use vstd::prelude::*;

use crate::sessions::raw::RawSessionFile;
use crate::shared::text::{
    file_name, file_name_of, lemma_file_name_of_joined, lemma_file_name_of_plain, opt_view,
    parse_u32, parse_unsigned, str_eq, trim, trimmed,
};
use crate::shared::types::{ClaudeSessionInfo, ClaudeSessionStatus, TerminalApp};

verus! {

/// How many parent links the host lookup climbs at most.
pub const LOOKUP_MAX_ROUNDS: u32 = 8;

/// The value of one `ps -p <pid> -o <field>=` call: its output without surrounding
/// white space, or nothing when `ps` failed or printed nothing else.
pub open spec fn spec_ps_value(success: bool, stdout: Seq<char>) -> Option<Seq<char>> {
    if success && trimmed(stdout).len() > 0 {
        Some(trimmed(stdout))
    } else {
        None
    }
}

/// The value that a `ps` call printed (see `spec_ps_value`).
pub fn ps_value(success: bool, stdout: &str) -> (r: Option<String>)
    ensures
        match spec_ps_value(success, stdout@) {
            Some(v) => r matches Some(s) && s@ == v,
            None => r is None,
        },
{
    if !success {
        return None;
    }
    let s = trim(stdout);
    if s.as_str().is_empty() {
        None
    } else {
        Some(s)
    }
}

/// The terminal that a process name designates: iTerm (`iTerm`, `iTerm2`),
/// Terminal.app (`Terminal`) or IntelliJ's terminal (`idea`).
pub open spec fn spec_classify_name(name: Seq<char>) -> Option<TerminalApp> {
    if name == "iTerm"@ || name == "iTerm2"@ {
        Some(TerminalApp::ITerm2)
    } else if name == "Terminal"@ {
        Some(TerminalApp::Terminal)
    } else if name == "idea"@ {
        Some(TerminalApp::IntelliJ)
    } else {
        None
    }
}

/// The last path component of `comm`, or `comm` itself when it has none.
pub open spec fn command_basename(comm: Seq<char>) -> Seq<char> {
    match file_name_of(comm) {
        Some(n) => n,
        None => comm,
    }
}

/// The terminal designated by a process name as `ps -o comm=` prints it (a bare name or a path).
pub open spec fn spec_classify_terminal(comm: Seq<char>) -> Option<TerminalApp> {
    spec_classify_name(command_basename(comm))
}

/// The terminal that a bare process name designates.
pub fn classify_name(name: &str) -> (r: Option<TerminalApp>)
    ensures
        r == spec_classify_name(name@),
{
    if str_eq(name, "iTerm") || str_eq(name, "iTerm2") {
        Some(TerminalApp::ITerm2)
    } else if str_eq(name, "Terminal") {
        Some(TerminalApp::Terminal)
    } else if str_eq(name, "idea") {
        Some(TerminalApp::IntelliJ)
    } else {
        None
    }
}

/// The terminal that a process name (bare or a full path) designates.
pub fn classify_terminal(comm: &str) -> (r: Option<TerminalApp>)
    ensures
        r == spec_classify_terminal(comm@),
{
    match file_name(comm) {
        Some(base) => classify_name(base.as_str()),
        None => classify_name(comm),
    }
}

/// The session status for a raw status string; unknown values count as idle.
pub open spec fn spec_map_status(raw: Seq<char>) -> ClaudeSessionStatus {
    if raw == "busy"@ {
        ClaudeSessionStatus::Busy
    } else if raw == "waiting"@ {
        ClaudeSessionStatus::Waiting
    } else {
        ClaudeSessionStatus::Idle
    }
}

/// Maps a raw status string to a session status (`busy`, `waiting`, anything else idle).
pub fn map_status(raw: &str) -> (r: ClaudeSessionStatus)
    ensures
        r == spec_map_status(raw@),
{
    if str_eq(raw, "busy") {
        ClaudeSessionStatus::Busy
    } else if str_eq(raw, "waiting") {
        ClaudeSessionStatus::Waiting
    } else {
        ClaudeSessionStatus::Idle
    }
}

/// The state of the search for the terminal that hosts a process, which climbs the
/// chain of parent processes one `ps` call at a time.
#[derive(Clone, Copy, PartialEq, Eq, Debug, Structural)]
pub enum HostLookup {
    /// The parent pid of `pid` is wanted (`ps -p <pid> -o ppid=`); `round` links were climbed.
    AwaitParent { pid: u32, round: u32 },
    /// The command name of `ppid`, the parent of `pid`, is wanted (`ps -p <ppid> -o comm=`).
    AwaitCommand { pid: u32, ppid: u32, round: u32 },
    /// The search ended: the host terminal and its pid, or `Unknown` and 0.
    Done { app: TerminalApp, host_pid: u32 },
}

impl HostLookup {
    /// A state that the search can reach.
    pub open spec fn wf(self) -> bool {
        match self {
            HostLookup::AwaitParent { round, .. } => round < LOOKUP_MAX_ROUNDS,
            HostLookup::AwaitCommand { pid, ppid, round } => round < LOOKUP_MAX_ROUNDS && ppid
                != 0 && ppid != pid,
            HostLookup::Done { app, host_pid } => (app == TerminalApp::Unknown) == (host_pid
                == 0),
        }
    }

    /// An upper bound on the `ps` calls the search still makes.
    pub open spec fn calls_left(self) -> nat {
        match self {
            HostLookup::AwaitParent { round, .. } => (2 * (LOOKUP_MAX_ROUNDS - round)) as nat,
            HostLookup::AwaitCommand { round, .. } => (2 * (LOOKUP_MAX_ROUNDS - round)
                - 1) as nat,
            HostLookup::Done { .. } => 0,
        }
    }
}

/// The state after `reply`, the value of the `ps` call that `state` asks for.
pub open spec fn spec_lookup_step(state: HostLookup, reply: Option<Seq<char>>) -> HostLookup {
    let not_found = HostLookup::Done { app: TerminalApp::Unknown, host_pid: 0 };
    match state {
        HostLookup::AwaitParent { pid, round } => match reply {
            Some(text) => match parse_unsigned(text, u32::MAX as nat) {
                Some(ppid) => if ppid == 0 || ppid == pid {
                    not_found
                } else {
                    HostLookup::AwaitCommand { pid, ppid: ppid as u32, round }
                },
                None => not_found,
            },
            None => not_found,
        },
        HostLookup::AwaitCommand { pid, ppid, round } => {
            let found = match reply {
                Some(comm) => spec_classify_terminal(comm),
                None => None,
            };
            match found {
                Some(app) => HostLookup::Done { app, host_pid: ppid },
                None => if round + 1 < LOOKUP_MAX_ROUNDS {
                    HostLookup::AwaitParent { pid: ppid, round: (round + 1) as u32 }
                } else {
                    not_found
                },
            }
        },
        HostLookup::Done { .. } => state,
    }
}

/// Starts the search for the terminal hosting the agent process `claude_pid`.
pub fn lookup_host_start(claude_pid: u32) -> (s: HostLookup)
    ensures
        s == (HostLookup::AwaitParent { pid: claude_pid, round: 0 }),
        s.wf(),
{
    HostLookup::AwaitParent { pid: claude_pid, round: 0 }
}

/// Advances the search with `reply`, the value of the `ps` call that `state` asks for.
/// A parent that is missing, unparsable, 0 or the process itself ends the search with
/// `Unknown`; so does a chain of `LOOKUP_MAX_ROUNDS` parents without a known terminal.
pub fn lookup_host_step(state: HostLookup, reply: Option<&str>) -> (next: HostLookup)
    ensures
        next == spec_lookup_step(state, opt_view(reply)),
        state.wf() ==> next.wf(),
        state.wf() && !(state is Done) ==> next.calls_left() < state.calls_left(),
{
    let not_found = HostLookup::Done { app: TerminalApp::Unknown, host_pid: 0 };
    match state {
        HostLookup::AwaitParent { pid, round } => match reply {
            Some(text) => match parse_u32(text) {
                Some(ppid) => {
                    if ppid == 0 || ppid == pid {
                        not_found
                    } else {
                        HostLookup::AwaitCommand { pid, ppid, round }
                    }
                },
                None => not_found,
            },
            None => not_found,
        },
        HostLookup::AwaitCommand { pid, ppid, round } => {
            let found = match reply {
                Some(comm) => classify_terminal(comm),
                None => None,
            };
            match found {
                Some(app) => {
                    assert(app != TerminalApp::Unknown);
                    HostLookup::Done { app, host_pid: ppid }
                },
                None => {
                    if round < LOOKUP_MAX_ROUNDS - 1 {
                        HostLookup::AwaitParent { pid: ppid, round: round + 1 }
                    } else {
                        not_found
                    }
                },
            }
        },
        HostLookup::Done { .. } => state,
    }
}

/// The project name of a working directory: its last path component, or empty.
pub open spec fn spec_project_name(cwd: Seq<char>) -> Seq<char> {
    match file_name_of(cwd) {
        Some(n) => n,
        None => Seq::empty(),
    }
}

/// The project name of a working directory (its last path component, or empty).
pub fn project_name_of(cwd: &str) -> (r: String)
    ensures
        r@ == spec_project_name(cwd@),
{
    match file_name(cwd) {
        Some(n) => n,
        None => String::new(),
    }
}

/// Builds the session snapshot of a session file, given the host terminal found for
/// it and the value of `ps -o tty=` for the host (asked only when `host_pid > 0`).
pub fn enrich(raw: &RawSessionFile, host_app: TerminalApp, host_pid: u32, tty: Option<String>) -> (r:
    ClaudeSessionInfo)
    ensures
        r.pid == raw.pid,
        r.session_id@ == raw.session_id@,
        r.cwd@ == raw.cwd@,
        r.project_name@ == spec_project_name(raw.cwd@),
        r.status == spec_map_status(raw.status@),
        r.started_at == raw.started_at,
        r.updated_at == raw.updated_at,
        r.host_app == host_app,
        r.host_pid == host_pid,
        r.tty@ == (if host_pid > 0 && tty is Some {
            tty->0@
        } else {
            Seq::empty()
        }),
{
    let project_name = project_name_of(raw.cwd.as_str());
    let tty = if host_pid > 0 {
        match tty {
            Some(t) => t,
            None => String::new(),
        }
    } else {
        String::new()
    };
    ClaudeSessionInfo {
        pid: raw.pid,
        session_id: raw.session_id.clone(),
        cwd: raw.cwd.clone(),
        project_name,
        status: map_status(raw.status.as_str()),
        started_at: raw.started_at,
        updated_at: raw.updated_at,
        host_app,
        host_pid,
        tty,
    }
}

} // verus!

verus! {

/// A raw status maps to a base status only: never `GitPending` or `Dead`.
pub proof fn lemma_map_status_is_base(raw: Seq<char>)
    ensures
        spec_map_status(raw) == ClaudeSessionStatus::Busy || spec_map_status(raw)
            == ClaudeSessionStatus::Waiting || spec_map_status(raw) == ClaudeSessionStatus::Idle,
{
}

/// One step of the search keeps it well formed and brings it closer to its end.
pub proof fn lemma_lookup_step_progress(state: HostLookup, reply: Option<Seq<char>>)
    requires
        state.wf(),
    ensures
        spec_lookup_step(state, reply).wf(),
        !(state is Done) ==> spec_lookup_step(state, reply).calls_left() < state.calls_left(),
        state is Done ==> spec_lookup_step(state, reply) == state,
{
    match state {
        HostLookup::AwaitCommand { pid, ppid, round } => {
            let found = match reply {
                Some(comm) => spec_classify_terminal(comm),
                None => None,
            };
            if let Some(app) = found {
                assert(app != TerminalApp::Unknown);
            }
        },
        _ => {},
    }
}

/// The state after feeding the search the `ps` values `replies`, one per step.
pub open spec fn run_lookup(state: HostLookup, replies: Seq<Option<Seq<char>>>) -> HostLookup
    decreases replies.len(),
{
    if replies.len() == 0 {
        state
    } else {
        run_lookup(spec_lookup_step(state, replies[0]), replies.drop_first())
    }
}

proof fn lemma_run_lookup_ends(state: HostLookup, replies: Seq<Option<Seq<char>>>)
    requires
        state.wf(),
        replies.len() >= state.calls_left(),
    ensures
        run_lookup(state, replies) is Done,
        run_lookup(state, replies).wf(),
    decreases replies.len(),
{
    lemma_lookup_step_progress_calls(state);
    if replies.len() > 0 {
        lemma_lookup_step_progress(state, replies[0]);
        lemma_run_lookup_ends(spec_lookup_step(state, replies[0]), replies.drop_first());
    }
}

proof fn lemma_lookup_step_progress_calls(state: HostLookup)
    requires
        state.wf(),
    ensures
        state.calls_left() == 0 ==> state is Done,
{
}

/// Whatever `ps` answers, the search for the host terminal ends after at most
/// `2 * LOOKUP_MAX_ROUNDS` calls, with a known terminal and its nonzero pid or with
/// `Unknown` and 0.
pub proof fn lemma_lookup_ends(claude_pid: u32, replies: Seq<Option<Seq<char>>>)
    requires
        replies.len() >= 2 * LOOKUP_MAX_ROUNDS,
    ensures
        run_lookup(HostLookup::AwaitParent { pid: claude_pid, round: 0 }, replies) matches HostLookup::Done { app, host_pid }
            && (app == TerminalApp::Unknown) == (host_pid == 0),
{
    lemma_run_lookup_ends(HostLookup::AwaitParent { pid: claude_pid, round: 0 }, replies);
}

} // verus!

verus! {

/// Exactly four process names designate a terminal: `iTerm` and `iTerm2` are iTerm2,
/// `Terminal` is Terminal.app and `idea` is IntelliJ's terminal. Every other name (a
/// shell, `login`, another terminal emulator) designates none, and no name designates
/// `Unknown`.
pub proof fn lemma_terminal_names(name: Seq<char>)
    ensures
        spec_classify_name(name) == Some(TerminalApp::ITerm2) <==> (name == "iTerm"@ || name
            == "iTerm2"@),
        spec_classify_name(name) == Some(TerminalApp::Terminal) <==> name == "Terminal"@,
        spec_classify_name(name) == Some(TerminalApp::IntelliJ) <==> name == "idea"@,
        spec_classify_name(name) != Some(TerminalApp::Unknown),
        !(name == "iTerm"@ || name == "iTerm2"@ || name == "Terminal"@ || name == "idea"@)
            ==> spec_classify_name(name) is None,
{
    reveal_strlit("iTerm");
    reveal_strlit("iTerm2");
    reveal_strlit("Terminal");
    reveal_strlit("idea");
    assert("iTerm"@.len() == 5 && "iTerm2"@.len() == 6 && "Terminal"@.len() == 8 && "idea"@.len()
        == 4);
}

/// What the search does with the command name of a parent: a parent whose command
/// (its last path component) is `iTerm`, `iTerm2`, `Terminal` or `idea` ends the search
/// at that terminal and that parent's pid. Any other parent (such as `login` or a
/// shell), or a parent whose name could not be read, makes the search climb one link
/// to the parent's own parent while rounds remain, and end with `Unknown` and pid 0
/// after the last round.
pub proof fn lemma_command_step(pid: u32, ppid: u32, round: u32, reply: Option<Seq<char>>)
    ensures
        ({
            let next = spec_lookup_step(HostLookup::AwaitCommand { pid, ppid, round }, reply);
            let climb = if round + 1 < LOOKUP_MAX_ROUNDS {
                HostLookup::AwaitParent { pid: ppid, round: (round + 1) as u32 }
            } else {
                HostLookup::Done { app: TerminalApp::Unknown, host_pid: 0 }
            };
            &&& reply is None ==> next == climb
            &&& reply matches Some(c) ==> {
                let b = command_basename(c);
                &&& (b == "iTerm"@ || b == "iTerm2"@) ==> next == (HostLookup::Done {
                    app: TerminalApp::ITerm2,
                    host_pid: ppid,
                })
                &&& b == "Terminal"@ ==> next == (HostLookup::Done {
                    app: TerminalApp::Terminal,
                    host_pid: ppid,
                })
                &&& b == "idea"@ ==> next == (HostLookup::Done {
                    app: TerminalApp::IntelliJ,
                    host_pid: ppid,
                })
                &&& !(b == "iTerm"@ || b == "iTerm2"@ || b == "Terminal"@ || b == "idea"@)
                    ==> next == climb
            }
        }),
{
    if let Some(c) = reply {
        lemma_terminal_names(command_basename(c));
    }
}

/// A bare process name designates the terminal that the name does, and so does a
/// full path ending in that name: `login` or `/usr/bin/login` designates no terminal,
/// `/Applications/iTerm.app/Contents/MacOS/iTerm2` designates iTerm2.
pub proof fn lemma_classify_terminal_paths(dir: Seq<char>, name: Seq<char>)
    requires
        forall|i: int| 0 <= i < name.len() ==> name[i] != '/',
    ensures
        spec_classify_terminal(name) == spec_classify_name(name),
        name.len() > 0 && name != seq!['.'] && name != seq!['.', '.'] ==> spec_classify_terminal(
            dir + seq!['/'] + name,
        ) == spec_classify_name(name),
{
    lemma_file_name_of_plain(name);
    if name.len() > 0 && name != seq!['.'] && name != seq!['.', '.'] {
        lemma_file_name_of_joined(dir, name);
    }
}

} // verus!
