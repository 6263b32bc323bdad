use vstd::prelude::*;

use crate::shared::state::claude_sessions::{lemma_read_after_write, sessions_by_pid, ClaudeSessionStore};
use crate::shared::types::{ClaudeSessionInfo, ClaudeSessionStatus, TerminalApp};

verus! {

broadcast use vstd::std_specs::hash::group_hash_axioms;

/// Whether a status is an idle baseline: `Idle` or `GitPending`.
pub open spec fn is_idle_base(status: Option<ClaudeSessionStatus>) -> bool {
    status == Some(ClaudeSessionStatus::Idle) || status == Some(ClaudeSessionStatus::GitPending)
}

/// Whether the working tree must be asked for uncommitted changes: only for an idle
/// session, and then when forced, when it is new, or when it just became idle.
pub open spec fn spec_needs_git(
    cur: ClaudeSessionStatus,
    prev: Option<ClaudeSessionStatus>,
    force_git: bool,
) -> bool {
    cur == ClaudeSessionStatus::Idle && (force_git || prev is None || !is_idle_base(prev))
}

/// The final status of a session whose base status is `cur`, whose previous status
/// was `prev`, where `dirty` tells whether its working tree has uncommitted changes
/// (consulted only when `spec_needs_git` holds).
pub open spec fn spec_finalize(
    cur: ClaudeSessionStatus,
    prev: Option<ClaudeSessionStatus>,
    force_git: bool,
    dirty: bool,
) -> ClaudeSessionStatus {
    if cur != ClaudeSessionStatus::Idle {
        cur
    } else if spec_needs_git(cur, prev, force_git) {
        if dirty {
            ClaudeSessionStatus::GitPending
        } else {
            ClaudeSessionStatus::Idle
        }
    } else {
        prev->0
    }
}

/// The status of an optional session.
pub open spec fn status_of(s: Option<&ClaudeSessionInfo>) -> Option<ClaudeSessionStatus> {
    match s {
        Some(p) => Some(p.status),
        None => None,
    }
}

/// The previous status of process `pid` in a store.
pub open spec fn prev_status(prev: Map<u32, ClaudeSessionInfo>, pid: u32) -> Option<
    ClaudeSessionStatus,
> {
    if prev.contains_key(pid) {
        Some(prev[pid].status)
    } else {
        None
    }
}

/// Whether the working tree of `cur` must be checked for uncommitted changes.
pub fn needs_git_check(cur: &ClaudeSessionInfo, prev: Option<&ClaudeSessionInfo>, force_git: bool) -> (r:
    bool)
    ensures
        r == spec_needs_git(cur.status, status_of(prev), force_git),
{
    if cur.status != ClaudeSessionStatus::Idle {
        return false;
    }
    let was_idle_base = match prev {
        Some(p) => p.status == ClaudeSessionStatus::Idle || p.status
            == ClaudeSessionStatus::GitPending,
        None => false,
    };
    force_git || prev.is_none() || !was_idle_base
}

/// The final status of `cur`: busy and waiting sessions keep theirs; an idle one
/// becomes `GitPending` or `Idle` by `dirty` when its tree must be checked, and
/// otherwise keeps its previous idle-baseline status.
pub fn finalize_status(
    cur: &ClaudeSessionInfo,
    prev: Option<&ClaudeSessionInfo>,
    force_git: bool,
    dirty: bool,
) -> (r: ClaudeSessionStatus)
    ensures
        r == spec_finalize(cur.status, status_of(prev), force_git, dirty),
{
    if cur.status != ClaudeSessionStatus::Idle {
        return cur.status;
    }
    if needs_git_check(cur, prev, force_git) {
        if dirty {
            ClaudeSessionStatus::GitPending
        } else {
            ClaudeSessionStatus::Idle
        }
    } else {
        match prev {
            Some(p) => p.status,
            None => ClaudeSessionStatus::Idle,
        }
    }
}

/// The sessions of `s` whose host terminal is known, in order.
pub open spec fn known_hosts(s: Seq<ClaudeSessionInfo>) -> Seq<ClaudeSessionInfo>
    decreases s.len(),
{
    if s.len() == 0 {
        Seq::empty()
    } else if s.last().host_app != TerminalApp::Unknown {
        known_hosts(s.drop_last()).push(s.last())
    } else {
        known_hosts(s.drop_last())
    }
}

/// Drops the sessions whose host terminal is unknown (nothing could navigate to them).
pub fn keep_known_hosts(sessions: Vec<ClaudeSessionInfo>) -> (r: Vec<ClaudeSessionInfo>)
    ensures
        r@ == known_hosts(sessions@),
{
    let ghost all = sessions@;
    let mut r: Vec<ClaudeSessionInfo> = Vec::new();
    for s in it: sessions.into_iter()
        invariant
            it.seq() == all,
            r@ == known_hosts(all.take(it.index() as int)),
    {
        let ghost i = it.index();
        assert(all.take(i + 1).drop_last() =~= all.take(i as int));
        if s.host_app != TerminalApp::Unknown {
            r.push(s);
        }
    }
    assert(all.take(all.len() as int) =~= all);
    r
}

/// For each session, whether its working tree must be checked, given the previous snapshot.
pub fn git_checks_needed(sessions: &Vec<ClaudeSessionInfo>, prev: &ClaudeSessionStore, force_git: bool) -> (r:
    Vec<bool>)
    ensures
        r.len() == sessions.len(),
        forall|i: int|
            0 <= i < sessions.len() ==> r[i] == spec_needs_git(
                #[trigger] sessions[i].status,
                prev_status(prev@, sessions[i].pid),
                force_git,
            ),
{
    let mut r: Vec<bool> = Vec::new();
    let mut i: usize = 0;
    while i < sessions.len()
        invariant
            i <= sessions.len(),
            r.len() == i,
            forall|j: int|
                0 <= j < i ==> r[j] == spec_needs_git(
                    #[trigger] sessions[j].status,
                    prev_status(prev@, sessions[j].pid),
                    force_git,
                ),
        decreases sessions.len() - i,
    {
        let s = &sessions[i];
        let p = prev.get(s.pid);
        r.push(needs_git_check(s, p, force_git));
        i = i + 1;
    }
    r
}

/// `s` with its status replaced by `status`.
pub open spec fn with_status(s: ClaudeSessionInfo, status: ClaudeSessionStatus) -> ClaudeSessionInfo {
    ClaudeSessionInfo { status, ..s }
}

/// Gives each session its final status, given the previous snapshot and, for each,
/// whether its working tree has uncommitted changes (read only where a check is needed).
pub fn finalize_sessions(
    sessions: Vec<ClaudeSessionInfo>,
    prev: &ClaudeSessionStore,
    force_git: bool,
    dirty: &Vec<bool>,
) -> (r: Vec<ClaudeSessionInfo>)
    requires
        dirty.len() == sessions.len(),
    ensures
        r.len() == sessions.len(),
        forall|i: int|
            0 <= i < sessions.len() ==> #[trigger] r[i] == with_status(
                sessions[i],
                spec_finalize(
                    sessions[i].status,
                    prev_status(prev@, sessions[i].pid),
                    force_git,
                    dirty[i],
                ),
            ),
{
    let ghost all = sessions@;
    let mut r: Vec<ClaudeSessionInfo> = Vec::new();
    let mut k: usize = 0;
    for s in it: sessions.into_iter()
        invariant
            it.seq() == all,
            all.len() == dirty.len(),
            k == it.index(),
            r.len() == k,
            forall|i: int|
                0 <= i < k ==> #[trigger] r[i] == with_status(
                    all[i],
                    spec_finalize(all[i].status, prev_status(prev@, all[i].pid), force_git, dirty[i]),
                ),
    {
        let status = finalize_status(&s, prev.get(s.pid), force_git, dirty[k]);
        r.push(ClaudeSessionInfo { status, ..s });
        k = k + 1;
    }
    r
}

} // verus!

verus! {

/// A busy or waiting session (or any not idle) keeps its status, and its working
/// tree is never checked.
pub proof fn lemma_non_idle_status_kept(
    cur: ClaudeSessionStatus,
    prev: Option<ClaudeSessionStatus>,
    force_git: bool,
    dirty: bool,
)
    requires
        cur != ClaudeSessionStatus::Idle,
    ensures
        !spec_needs_git(cur, prev, force_git),
        spec_finalize(cur, prev, force_git, dirty) == cur,
{
}

/// Without forcing, an idle session whose previous status was an idle baseline
/// reuses that status and is not checked again.
pub proof fn lemma_idle_baseline_reused(prev: ClaudeSessionStatus, dirty: bool)
    requires
        is_idle_base(Some(prev)),
    ensures
        !spec_needs_git(ClaudeSessionStatus::Idle, Some(prev), false),
        spec_finalize(ClaudeSessionStatus::Idle, Some(prev), false, dirty) == prev,
{
}

/// A forced rescan recomputes every idle session from its working tree, whatever it was.
pub proof fn lemma_forced_rescan_recomputes(prev: Option<ClaudeSessionStatus>, dirty: bool)
    ensures
        spec_needs_git(ClaudeSessionStatus::Idle, prev, true),
        spec_finalize(ClaudeSessionStatus::Idle, prev, true, dirty) == if dirty {
            ClaudeSessionStatus::GitPending
        } else {
            ClaudeSessionStatus::Idle
        },
{
}

/// The state of the working tree matters only when it must be checked, so not
/// checking it cannot change the outcome.
pub proof fn lemma_unchecked_tree_irrelevant(
    cur: ClaudeSessionStatus,
    prev: Option<ClaudeSessionStatus>,
    force_git: bool,
)
    requires
        !spec_needs_git(cur, prev, force_git),
    ensures
        spec_finalize(cur, prev, force_git, true) == spec_finalize(cur, prev, force_git, false),
{
}

/// An idle session ends idle or `GitPending`: its status stays an idle baseline.
pub proof fn lemma_idle_stays_idle_base(
    prev: Option<ClaudeSessionStatus>,
    force_git: bool,
    dirty: bool,
)
    ensures
        is_idle_base(Some(spec_finalize(ClaudeSessionStatus::Idle, prev, force_git, dirty))),
{
}

/// No session with an unknown host survives the filter, and every one with a known
/// host does, in order.
pub proof fn lemma_known_hosts(s: Seq<ClaudeSessionInfo>)
    ensures
        forall|i: int|
            0 <= i < known_hosts(s).len() ==> #[trigger] known_hosts(s)[i].host_app
                != TerminalApp::Unknown,
        known_hosts(s).len() <= s.len(),
    decreases s.len(),
{
    if s.len() > 0 {
        lemma_known_hosts(s.drop_last());
    }
}

} // verus!

verus! {

/// A store written from sessions that all have a known host holds only sessions with
/// a known host: orphaned sessions never reach the lists.
pub proof fn lemma_store_holds_known_hosts(written: Seq<ClaudeSessionInfo>, pid: u32)
    requires
        forall|i: int| 0 <= i < written.len() ==> #[trigger] written[i].host_app != TerminalApp::Unknown,
        sessions_by_pid(written).contains_key(pid),
    ensures
        sessions_by_pid(written)[pid].host_app != TerminalApp::Unknown,
{
    lemma_read_after_write(written, pid);
}

} // verus!

verus! {

/// Which idle sessions have their working tree checked, and what they become. A forced
/// rescan checks every idle session; otherwise a new session and one that was busy,
/// waiting or dead before are checked, and one that was already idle or `GitPending`
/// keeps that status unchecked. A checked session becomes `GitPending` exactly when its
/// tree has uncommitted changes, and `Idle` otherwise.
pub proof fn lemma_idle_check_rule(prev: Option<ClaudeSessionStatus>, force_git: bool, dirty: bool)
    ensures
        ({
            let checked = force_git || prev is None || prev == Some(ClaudeSessionStatus::Busy)
                || prev == Some(ClaudeSessionStatus::Waiting) || prev == Some(
                ClaudeSessionStatus::Dead,
            );
            &&& spec_needs_git(ClaudeSessionStatus::Idle, prev, force_git) == checked
            &&& checked ==> spec_finalize(ClaudeSessionStatus::Idle, prev, force_git, dirty) == (
            if dirty {
                ClaudeSessionStatus::GitPending
            } else {
                ClaudeSessionStatus::Idle
            })
            &&& !checked ==> (prev == Some(ClaudeSessionStatus::Idle) || prev == Some(
                ClaudeSessionStatus::GitPending)) && Some(
                spec_finalize(ClaudeSessionStatus::Idle, prev, force_git, dirty),
            ) == prev
        }),
{
}

/// Only sessions whose host is `Unknown` are dropped: the result is exactly the
/// sessions with a known host (iTerm2, Terminal.app or IntelliJ), in their order.
pub proof fn lemma_known_hosts_is_filter(s: Seq<ClaudeSessionInfo>)
    ensures
        known_hosts(s) == s.filter(|x: ClaudeSessionInfo| x.host_app != TerminalApp::Unknown),
    decreases s.len(),
{
    reveal_with_fuel(Seq::filter, 1);
    if s.len() > 0 {
        lemma_known_hosts_is_filter(s.drop_last());
    }
}

/// Every session with a known host, IntelliJ's included, is kept.
pub proof fn lemma_known_host_kept(s: Seq<ClaudeSessionInfo>, i: int)
    requires
        0 <= i < s.len(),
        s[i].host_app != TerminalApp::Unknown,
    ensures
        known_hosts(s).contains(s[i]),
{
    lemma_known_hosts_is_filter(s);
    s.lemma_filter_contains(|x: ClaudeSessionInfo| x.host_app != TerminalApp::Unknown, i);
}

} // verus!
