use vstd::prelude::*;

use crate::shared::text::str_eq;
use crate::shared::types::{ClaudeSessionInfo, ClaudeSessionStatus};

verus! {

/// The sessions of `s` keyed by session id; of several with one id, the last one counts.
pub open spec fn sessions_by_id(s: Seq<ClaudeSessionInfo>) -> Map<Seq<char>, ClaudeSessionInfo>
    decreases s.len(),
{
    if s.len() == 0 {
        Map::empty()
    } else {
        sessions_by_id(s.drop_last()).insert(s.last().session_id@, s.last())
    }
}

/// No two entries of `s` share a session id.
pub open spec fn ids_unique(s: Seq<ClaudeSessionInfo>) -> bool {
    forall|i: int, j: int|
        0 <= i < s.len() && 0 <= j < s.len() && i != j ==> s[i].session_id@ != s[j].session_id@
}

/// A session snapshot keyed by session id, held as a list with one entry per id.
pub struct SessionStore {
    entries: Vec<ClaudeSessionInfo>,
}

impl View for SessionStore {
    type V = Map<Seq<char>, ClaudeSessionInfo>;

    open spec fn view(&self) -> Map<Seq<char>, ClaudeSessionInfo> {
        sessions_by_id(self.entries())
    }
}

proof fn lemma_sessions_by_id_update(s: Seq<ClaudeSessionInfo>, j: int, x: ClaudeSessionInfo)
    requires
        ids_unique(s),
        0 <= j < s.len(),
        s[j].session_id@ == x.session_id@,
    ensures
        sessions_by_id(s.update(j, x)) == sessions_by_id(s).insert(x.session_id@, x),
        ids_unique(s.update(j, x)),
    decreases s.len(),
{
    let u = s.update(j, x);
    assert(ids_unique(u)) by {
        assert forall|a: int, b: int|
            0 <= a < u.len() && 0 <= b < u.len() && a != b implies u[a].session_id@
            != u[b].session_id@ by {
            if a != j && b != j {
                assert(s[a].session_id@ != s[b].session_id@);
            } else if a == j {
                assert(s[j].session_id@ != s[b].session_id@);
            } else {
                assert(s[a].session_id@ != s[j].session_id@);
            }
        }
    }
    if j == s.len() - 1 {
        assert(u.drop_last() =~= s.drop_last());
        assert(sessions_by_id(u) =~= sessions_by_id(s).insert(x.session_id@, x));
    } else {
        let d = s.drop_last();
        assert(ids_unique(d));
        lemma_sessions_by_id_update(d, j, x);
        assert(u.drop_last() =~= d.update(j, x));
        assert(s.last().session_id@ != x.session_id@) by {
            assert(s[s.len() - 1].session_id@ != s[j].session_id@);
        }
        assert(sessions_by_id(u) =~= sessions_by_id(s).insert(x.session_id@, x));
    }
}

/// A session id is in the store exactly when some written session has it.
pub proof fn lemma_sessions_by_id_keys(s: Seq<ClaudeSessionInfo>, k: Seq<char>)
    ensures
        sessions_by_id(s).contains_key(k) <==> exists|i: int|
            0 <= i < s.len() && #[trigger] s[i].session_id@ == k,
    decreases s.len(),
{
    if s.len() > 0 {
        lemma_sessions_by_id_keys(s.drop_last(), k);
        if sessions_by_id(s).contains_key(k) && s.last().session_id@ != k {
            let i = choose|i: int| 0 <= i < s.len() - 1 && #[trigger] s.drop_last()[i].session_id@ == k;
            assert(s[i].session_id@ == k);
        }
        if exists|i: int| 0 <= i < s.len() && #[trigger] s[i].session_id@ == k {
            let i = choose|i: int| 0 <= i < s.len() && #[trigger] s[i].session_id@ == k;
            if i < s.len() - 1 {
                assert(s.drop_last()[i].session_id@ == k);
            }
        }
    }
}

proof fn lemma_sessions_by_id_value(s: Seq<ClaudeSessionInfo>, i: int)
    requires
        ids_unique(s),
        0 <= i < s.len(),
    ensures
        sessions_by_id(s).contains_key(s[i].session_id@),
        sessions_by_id(s)[s[i].session_id@] == s[i],
    decreases s.len(),
{
    let d = s.drop_last();
    assert(ids_unique(d));
    if i < s.len() - 1 {
        lemma_sessions_by_id_value(d, i);
        assert(s[s.len() - 1].session_id@ != s[i].session_id@);
        assert(d[i] == s[i]);
    }
}

impl SessionStore {
    /// An empty store.
    pub fn new() -> (r: Self)
        ensures
            r@ == Map::<Seq<char>, ClaudeSessionInfo>::empty(),
            r.wf(),
    {
        SessionStore { entries: Vec::new() }
    }

    /// The store holds each session id once.
    pub open spec fn wf(&self) -> bool {
        ids_unique(self.entries())
    }

    /// Every store holds each session id once.
    #[verifier::type_invariant]
    spec fn ids_are_unique(self) -> bool {
        ids_unique(self.entries@)
    }

    /// The stored sessions, one per session id.
    pub closed spec fn entries(&self) -> Seq<ClaudeSessionInfo> {
        self.entries@
    }

    /// The stored session with session id `id`, if any.
    pub fn get(&self, id: &str) -> (r: Option<&ClaudeSessionInfo>)
        ensures
            match r {
                Some(s) => self@.contains_key(id@) && *s == self@[id@],
                None => !self@.contains_key(id@),
            },
    {
        proof {
            use_type_invariant(self);
        }
        let ghost e = self.entries();
        let mut i: usize = 0;
        while i < self.entries.len()
            invariant
                e == self.entries@,
                ids_unique(e),
                i <= e.len(),
                forall|k: int| 0 <= k < i ==> e[k].session_id@ != id@,
            decreases e.len() - i,
        {
            if str_eq(self.entries[i].session_id.as_str(), id) {
                proof {
                    lemma_sessions_by_id_value(e, i as int);
                }
                return Some(&self.entries[i]);
            }
            i = i + 1;
        }
        proof {
            lemma_sessions_by_id_keys(e, id@);
        }
        None
    }

    /// The stored sessions, one per session id.
    pub fn sessions(&self) -> (r: &Vec<ClaudeSessionInfo>)
        ensures
            r@ == self.entries(),
    {
        &self.entries
    }
}

/// Replaces the whole content of `store` with `sessions`, keyed by session id.
pub fn write_sessions(store: &mut SessionStore, sessions: Vec<ClaudeSessionInfo>)
    ensures
        final(store)@ == sessions_by_id(sessions@),
        final(store).wf(),
        ids_unique(sessions@) ==> final(store).entries() == sessions@,
{
    let mut entries: Vec<ClaudeSessionInfo> = Vec::new();
    let ghost all = sessions@;
    for s in it: sessions.into_iter()
        invariant
            it.seq() == all,
            ids_unique(entries@),
            sessions_by_id(entries@) == sessions_by_id(all.take(it.index() as int)),
            ids_unique(all.take(it.index() as int)) ==> entries@ == all.take(it.index() as int),
    {
        let ghost i = it.index();
        assert(all.take(i + 1).drop_last() =~= all.take(i as int));
        proof {
            if ids_unique(all.take(i + 1)) {
                let t = all.take(i + 1);
                assert forall|a: int, b: int|
                    0 <= a < i && 0 <= b < i && a != b implies all.take(i as int)[a].session_id@
                    != all.take(i as int)[b].session_id@ by {
                    assert(t[a] == all.take(i as int)[a]);
                    assert(t[b] == all.take(i as int)[b]);
                }
            }
        }
        let mut j: usize = 0;
        while j < entries.len() && entries[j].session_id != s.session_id
            invariant
                j <= entries.len(),
                forall|k: int| 0 <= k < j ==> entries@[k].session_id@ != s.session_id@,
            decreases entries.len() - j,
        {
            j = j + 1;
        }
        if j < entries.len() {
            proof {
                lemma_sessions_by_id_update(entries@, j as int, s);
                if ids_unique(all.take(i + 1)) {
                    let t = all.take(i + 1);
                    assert(t[j as int] == entries@[j as int]);
                    assert(t[i as int] == s);
                }
            }
            entries.set(j, s);
        } else {
            proof {
                assert(entries@.push(s).drop_last() =~= entries@);
                assert(ids_unique(entries@.push(s))) by {
                    let p = entries@.push(s);
                    assert forall|a: int, b: int|
                        0 <= a < p.len() && 0 <= b < p.len() && a != b implies p[a].session_id@
                        != p[b].session_id@ by {
                        if a < entries@.len() && b < entries@.len() {
                            assert(entries@[a].session_id@ != entries@[b].session_id@);
                        }
                    }
                }
            }
            entries.push(s);
            proof {
                if ids_unique(all.take(i + 1)) {
                    assert(entries@ =~= all.take(i + 1));
                }
            }
        }
        proof {
            if !ids_unique(all.take(i as int)) {
                assert(!ids_unique(all.take(i + 1))) by {
                    let t = all.take(i as int);
                    let u = all.take(i + 1);
                    if ids_unique(u) {
                        assert forall|a: int, b: int|
                            0 <= a < t.len() && 0 <= b < t.len() && a != b implies t[a].session_id@
                            != t[b].session_id@ by {
                            assert(u[a] == t[a]);
                            assert(u[b] == t[b]);
                        }
                    }
                }
            }
        }
    }
    assert(all.take(all.len() as int) =~= all);
    store.entries = entries;
}

/// Whether a status counts as active: `Busy` or `Waiting`.
pub open spec fn is_active(status: ClaudeSessionStatus) -> bool {
    status == ClaudeSessionStatus::Busy || status == ClaudeSessionStatus::Waiting
}

/// How many sessions of `s` are active.
pub open spec fn active_count(s: Seq<ClaudeSessionInfo>) -> nat
    decreases s.len(),
{
    if s.len() == 0 {
        0
    } else {
        active_count(s.drop_last()) + if is_active(s.last().status) {
            1nat
        } else {
            0nat
        }
    }
}

/// How many stored sessions are active (`Busy` or `Waiting`).
pub fn active_session_count(store: &SessionStore) -> (r: usize)
    ensures
        r == active_count(store.entries()),
{
    let v = store.sessions();
    let mut n: usize = 0;
    let mut i: usize = 0;
    while i < v.len()
        invariant
            i <= v.len(),
            n == active_count(v@.take(i as int)),
            n <= i,
        decreases v.len() - i,
    {
        assert(v@.take(i + 1).drop_last() =~= v@.take(i as int));
        if v[i].status == ClaudeSessionStatus::Busy || v[i].status == ClaudeSessionStatus::Waiting {
            n = n + 1;
        }
        i = i + 1;
    }
    assert(v@.take(v.len() as int) =~= v@);
    n
}

} // verus!

verus! {

/// The active count is the number of sessions whose status is `Busy` or `Waiting`;
/// idle, `GitPending` and dead sessions are not counted.
pub proof fn lemma_active_count_is_busy_or_waiting(s: Seq<ClaudeSessionInfo>)
    ensures
        active_count(s) == s.filter(
            |x: ClaudeSessionInfo|
                x.status == ClaudeSessionStatus::Busy || x.status == ClaudeSessionStatus::Waiting,
        ).len(),
    decreases s.len(),
{
    reveal_with_fuel(Seq::filter, 1);
    if s.len() > 0 {
        lemma_active_count_is_busy_or_waiting(s.drop_last());
    }
}

/// A snapshot with no busy or waiting session has no active session, and adding one
/// busy or waiting session adds one.
pub proof fn lemma_active_count_steps(s: Seq<ClaudeSessionInfo>, x: ClaudeSessionInfo)
    ensures
        (forall|i: int|
            0 <= i < s.len() ==> #[trigger] s[i].status != ClaudeSessionStatus::Busy && s[i].status
                != ClaudeSessionStatus::Waiting) ==> active_count(s) == 0,
        active_count(s.push(x)) == active_count(s) + (if x.status == ClaudeSessionStatus::Busy
            || x.status == ClaudeSessionStatus::Waiting {
            1nat
        } else {
            0nat
        }),
    decreases s.len(),
{
    assert(s.push(x).drop_last() =~= s);
    if s.len() > 0 {
        lemma_active_count_steps(s.drop_last(), x);
        if forall|i: int|
            0 <= i < s.len() ==> #[trigger] s[i].status != ClaudeSessionStatus::Busy && s[i].status
                != ClaudeSessionStatus::Waiting {
            let d = s.drop_last();
            assert forall|i: int| 0 <= i < d.len() implies #[trigger] d[i].status
                != ClaudeSessionStatus::Busy && d[i].status != ClaudeSessionStatus::Waiting by {
                assert(d[i] == s[i]);
            }
            assert(s.last() == s[s.len() - 1]);
        }
    }
}

} // verus!
