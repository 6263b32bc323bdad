use vstd::prelude::*;

verus! {

/// The payload broadcast after a configuration value was written: the key and its
/// new value (configuration values are stored as plain strings).
pub struct ConfigChangedPayload {
    pub key: String,
    pub value: String,
}

/// The status of an agent session. `Busy`, `Waiting` and `Idle` come from the
/// session file; `GitPending` (idle with uncommitted changes in its directory) and
/// `Dead` (process gone, file left behind) are derived locally.
#[derive(Clone, Copy, PartialEq, Eq, Debug, Structural)]
pub enum ClaudeSessionStatus {
    Busy,
    Waiting,
    Idle,
    GitPending,
    Dead,
}

/// The terminal application that hosts a session.
#[derive(Clone, Copy, PartialEq, Eq, Debug, Structural)]
pub enum TerminalApp {
    ITerm2,
    Terminal,
    IntelliJ,
    /// A host that navigation does not support.
    Unknown,
}

/// A yes/no configuration value, stored as `"Y"` or `"N"`.
#[derive(Clone, Copy, PartialEq, Eq, Debug, Structural)]
pub enum YesNo {
    Yes,
    No,
}

impl YesNo {
    /// The stored form of the value.
    pub open spec fn spec_as_str(self) -> Seq<char> {
        match self {
            YesNo::Yes => seq!['Y'],
            YesNo::No => seq!['N'],
        }
    }

    /// The stored form of the value: `"Y"` or `"N"`.
    pub fn as_str(self) -> (r: &'static str)
        ensures
            r@ == self.spec_as_str(),
    {
        match self {
            YesNo::Yes => {
                proof {
                    reveal_strlit("Y");
                }
                "Y"
            },
            YesNo::No => {
                proof {
                    reveal_strlit("N");
                }
                "N"
            },
        }
    }
}

/// A snapshot of one agent session, as shown in the session lists.
#[derive(Clone, Debug)]
pub struct ClaudeSessionInfo {
    /// The agent process id (also the session file's name).
    pub pid: u32,
    pub session_id: String,
    /// The session's working directory.
    pub cwd: String,
    /// The last component of `cwd`, or empty.
    pub project_name: String,
    pub status: ClaudeSessionStatus,
    /// Start time, in milliseconds.
    pub started_at: i64,
    /// Time of the last status change, in milliseconds.
    pub updated_at: i64,
    pub host_app: TerminalApp,
    /// Process id of the host terminal, 0 when unknown.
    pub host_pid: u32,
    /// The host terminal's tty device, empty when unknown.
    pub tty: String,
}

/// A project sub-directory of a repository.
#[derive(Clone, Debug)]
pub struct RepoSubDir {
    /// Path relative to the repository directory.
    pub sub_dir: String,
    pub sub_dir_description: String,
}

/// A local repository record.
#[derive(Clone, Debug)]
pub struct Repository {
    pub id: i32,
    pub name: String,
    pub dir: String,
    pub description: String,
    pub sub_dir_list: Vec<RepoSubDir>,
    /// `origin`'s URL, empty when there is none.
    pub remote_url: String,
    /// The current branch, empty on a detached HEAD or without commits.
    pub branch: String,
    /// Time of the last commit in milliseconds, 0 without commits.
    pub last_commit_at: i64,
    pub last_commit_message: String,
    /// Time of the last refresh, in milliseconds.
    pub updated_at: i64,
}

/// A user table of the application database and its row count (-1 when it cannot be counted).
#[derive(Clone, Debug)]
pub struct AppDbTableInfo {
    pub name: String,
    pub row_count: i32,
}

} // verus!
