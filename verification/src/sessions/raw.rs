use vstd::prelude::*;

verus! {

/// The fields of a session file (`<pid>.json` in the sessions directory) that the app reads.
#[derive(Clone, Debug)]
pub struct RawSessionFile {
    /// The agent process id (also the file's stem).
    pub pid: u32,
    pub session_id: String,
    /// The working directory.
    pub cwd: String,
    /// Start time, in milliseconds.
    pub started_at: i64,
    /// The raw status, such as `"busy"`, `"waiting"` or `"idle"`.
    pub status: String,
    /// Time of the last status change, in milliseconds.
    pub updated_at: i64,
}

} // verus!
