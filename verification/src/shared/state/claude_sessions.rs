use std::collections::HashMap;
use std::sync::Mutex;

use vstd::prelude::*;

use crate::shared::types::ClaudeSessionInfo;

verus! {

broadcast use vstd::std_specs::hash::group_hash_axioms;

#[verifier::external_type_specification]
#[verifier::external_body]
#[verifier::reject_recursive_types(T)]
pub struct ExMutex<T: ?Sized>(Mutex<T>);

/// `Mutex::new(())`: a fresh unlocked lock guarding nothing.
#[verifier::external_body]
fn new_unit_lock() -> Mutex<()> {
    Mutex::new(())
}

/// Serializes rescans: the watcher, the poller and commands each take it for a whole
/// read-check-write round.
pub struct RescanLock(pub Mutex<()>);

impl RescanLock {
    /// A free lock.
    pub fn new() -> Self {
        RescanLock(new_unit_lock())
    }
}

/// The current session snapshot, keyed by process id. Every rescan replaces it whole,
/// so sessions that ended disappear at once.
pub struct ClaudeSessionStore(pub HashMap<u32, ClaudeSessionInfo>);

impl View for ClaudeSessionStore {
    type V = Map<u32, ClaudeSessionInfo>;

    open spec fn view(&self) -> Map<u32, ClaudeSessionInfo> {
        self.0@
    }
}

/// The sessions of `s` keyed by pid; of several with one pid, the last one counts.
pub open spec fn sessions_by_pid(s: Seq<ClaudeSessionInfo>) -> Map<u32, ClaudeSessionInfo>
    decreases s.len(),
{
    if s.len() == 0 {
        Map::empty()
    } else {
        sessions_by_pid(s.drop_last()).insert(s.last().pid, s.last())
    }
}

impl ClaudeSessionStore {
    /// An empty store.
    pub fn new() -> (r: Self)
        ensures
            r@ == Map::<u32, ClaudeSessionInfo>::empty(),
    {
        ClaudeSessionStore(HashMap::new())
    }

    /// The session of process `pid`, if the store holds one.
    pub fn get(&self, pid: u32) -> (r: Option<&ClaudeSessionInfo>)
        ensures
            match r {
                Some(s) => self@.contains_key(pid) && *s == self@[pid],
                None => !self@.contains_key(pid),
            },
    {
        self.0.get(&pid)
    }
}

/// Replaces the whole content of `store` with `sessions`, keyed by pid.
pub fn write_claude_sessions(store: &mut ClaudeSessionStore, sessions: Vec<ClaudeSessionInfo>)
    ensures
        final(store)@ == sessions_by_pid(sessions@),
{
    store.0.clear();
    let ghost all = sessions@;
    for s in it: sessions.into_iter()
        invariant
            it.seq() == all,
            store@ == sessions_by_pid(all.take(it.index() as int)),
    {
        let ghost i = it.index();
        assert(all.take(i + 1).drop_last() =~= all.take(i as int));
        let pid = s.pid;
        store.0.insert(pid, s);
    }
    assert(all.take(all.len() as int) =~= all);
}

} // verus!

verus! {

/// Reading the store after a write: a pid is present exactly when some written
/// session has it, and then the store holds the last such session. A pid that no
/// written session has (a session that ended) is gone, whatever the store held before.
pub proof fn lemma_read_after_write(sessions: Seq<ClaudeSessionInfo>, pid: u32)
    ensures
        sessions_by_pid(sessions).contains_key(pid) <==> exists|i: int|
            0 <= i < sessions.len() && #[trigger] sessions[i].pid == pid,
        sessions_by_pid(sessions).contains_key(pid) ==> exists|i: int|
            0 <= i < sessions.len() && #[trigger] sessions[i].pid == pid
                && sessions_by_pid(sessions)[pid] == sessions[i]
                && forall|j: int| i < j < sessions.len() ==> sessions[j].pid != pid,
    decreases sessions.len(),
{
    if sessions.len() > 0 {
        let d = sessions.drop_last();
        lemma_read_after_write(d, pid);
        let n = sessions.len() - 1;
        if sessions.last().pid == pid {
            assert(sessions[n].pid == pid);
        } else {
            if exists|i: int| 0 <= i < sessions.len() && #[trigger] sessions[i].pid == pid {
                let i = choose|i: int| 0 <= i < sessions.len() && #[trigger] sessions[i].pid == pid;
                assert(d[i].pid == pid);
            }
            if sessions_by_pid(d).contains_key(pid) {
                let i = choose|i: int|
                    0 <= i < d.len() && #[trigger] d[i].pid == pid && sessions_by_pid(d)[pid]
                        == d[i] && forall|j: int| i < j < d.len() ==> d[j].pid != pid;
                assert(sessions[i].pid == pid);
                assert forall|j: int| i < j < sessions.len() implies sessions[j].pid != pid by {
                    if j < n {
                        assert(d[j].pid != pid);
                    }
                }
            }
        }
    }
}

} // verus!
