use vstd::prelude::*;

use crate::shared::text::{
    char_vec, concat, i32_to_decimal, parse_i64, parse_signed, signed_decimal, str_eq,
    string_from_chars, trim, trimmed,
};

verus! {

/// The error when a repository is given an empty name.
pub const NAME_REQUIRED: &'static str = "name-required";

/// The error when a repository is given an empty directory.
pub const DIR_REQUIRED: &'static str = "dir-required";

/// The error when a directory is not an absolute path of an existing git work tree.
pub const NOT_A_GIT_REPO: &'static str = "not-a-git-repo";

/// The error when another repository record already has the directory.
pub const DIR_EXISTS: &'static str = "dir-exists";

/// What git tells of a repository. Fields that git could not give are empty or 0.
#[derive(Clone, Debug)]
pub struct RepoInfo {
    pub remote_url: String,
    pub branch: String,
    /// Time of the last commit, in milliseconds.
    pub last_commit_at: i64,
    pub last_commit_message: String,
}

/// The value of a git call: its output without surrounding white space, or nothing
/// when git failed.
pub fn git_output_value(success: bool, stdout: &str) -> (r: Option<String>)
    ensures
        success ==> (r matches Some(s) && s@ == trimmed(stdout@)),
        !success ==> r is None,
{
    if success {
        Some(trim(stdout))
    } else {
        None
    }
}

/// `s` split at its first line break: the text before it, and the text after it when
/// there is one (what `s.splitn(2, '\n')` yields).
pub open spec fn split_first_line(s: Seq<char>) -> (Seq<char>, Option<Seq<char>>)
    decreases s.len(),
{
    if s.len() == 0 {
        (s, None)
    } else if s[0] == '\n' {
        (Seq::empty(), Some(s.drop_first()))
    } else {
        let (head, rest) = split_first_line(s.drop_first());
        (seq![s[0]] + head, rest)
    }
}

proof fn lemma_split_first_line(s: Seq<char>, i: int)
    requires
        0 <= i <= s.len(),
        forall|j: int| 0 <= j < i ==> s[j] != '\n',
        i == s.len() || s[i] == '\n',
    ensures
        split_first_line(s) == (s.take(i), if i < s.len() {
            Some(s.skip(i + 1))
        } else {
            None
        }),
    decreases i,
{
    if i == 0 {
        assert(s.take(0) =~= Seq::<char>::empty());
        if s.len() > 0 {
            assert(s.drop_first() =~= s.skip(1));
        }
    } else {
        lemma_split_first_line(s.drop_first(), i - 1);
        assert(seq![s[0]] + s.drop_first().take(i - 1) =~= s.take(i));
        if i < s.len() {
            assert(s.drop_first().skip(i) =~= s.skip(i + 1));
        }
    }
}

/// Splits `s` at its first line break.
pub fn split_first_line_exec(s: &str) -> (r: (String, Option<String>))
    ensures
        r.0@ == split_first_line(s@).0,
        match split_first_line(s@).1 {
            Some(rest) => r.1 matches Some(x) && x@ == rest,
            None => r.1 is None,
        },
{
    let v = char_vec(s);
    let mut i: usize = 0;
    while i < v.len() && v[i] != '\n'
        invariant
            v@ == s@,
            i <= v.len(),
            forall|j: int| 0 <= j < i ==> v@[j] != '\n',
        decreases v.len() - i,
    {
        i = i + 1;
    }
    proof {
        lemma_split_first_line(s@, i as int);
    }
    let head = string_from_chars(&v, 0, i);
    if i < v.len() {
        assert(v@.subrange(i + 1, v.len() as int) =~= s@.skip(i + 1));
        (head, Some(string_from_chars(&v, i + 1, v.len())))
    } else {
        (head, None)
    }
}

/// The commit time, in seconds, that the output of `git log -1 --format=%ct%n%s`
/// gives: its first line read as a number, or 0 when it is not one.
pub open spec fn spec_commit_seconds(log: Seq<char>) -> int {
    match parse_signed(trimmed(split_first_line(log).0), i64::MIN as int, i64::MAX as int) {
        Some(v) => v,
        None => 0,
    }
}

/// The commit message in that output: the text after its first line break, or empty.
pub open spec fn spec_commit_message(log: Seq<char>) -> Seq<char> {
    match split_first_line(log).1 {
        Some(m) => m,
        None => Seq::empty(),
    }
}

/// The commit time in seconds read from the output of `git log` (see `spec_commit_seconds`).
pub fn commit_seconds(log: &str) -> (r: i64)
    ensures
        r == spec_commit_seconds(log@),
{
    let (head, _) = split_first_line_exec(log);
    let t = trim(head.as_str());
    match parse_i64(t.as_str()) {
        Some(v) => v,
        None => 0,
    }
}

/// The value of an optional git output, or empty.
pub open spec fn or_empty(s: Option<Seq<char>>) -> Seq<char> {
    match s {
        Some(x) => x,
        None => Seq::empty(),
    }
}

pub open spec fn opt_string_view(s: Option<String>) -> Option<Seq<char>> {
    match s {
        Some(x) => Some(x@),
        None => None,
    }
}

/// The repository information from three git outputs: `git remote get-url origin`,
/// `git rev-parse --abbrev-ref HEAD` and `git log -1 --format=%ct%n%s` (each absent
/// when git failed). A detached HEAD (`HEAD`) gives an empty branch; the commit time
/// is converted to milliseconds.
pub fn repo_info_from_git(remote: Option<String>, branch: Option<String>, log: Option<String>) -> (r:
    RepoInfo)
    requires
        log matches Some(l) ==> i64::MIN <= spec_commit_seconds(l@) * 1000 <= i64::MAX,
    ensures
        r.remote_url@ == or_empty(opt_string_view(remote)),
        r.branch@ == (if or_empty(opt_string_view(branch)) == "HEAD"@ {
            Seq::empty()
        } else {
            or_empty(opt_string_view(branch))
        }),
        r.last_commit_at == (match log {
            Some(l) => spec_commit_seconds(l@) * 1000,
            None => 0,
        }),
        r.last_commit_message@ == (match log {
            Some(l) => spec_commit_message(l@),
            None => Seq::empty(),
        }),
{
    let remote_url = match remote {
        Some(u) => u,
        None => String::new(),
    };
    let branch_raw = match branch {
        Some(b) => b,
        None => String::new(),
    };
    let branch = if str_eq(branch_raw.as_str(), "HEAD") {
        String::new()
    } else {
        branch_raw
    };
    let (last_commit_at, last_commit_message) = match log {
        Some(l) => {
            let secs = commit_seconds(l.as_str());
            let (_, rest) = split_first_line_exec(l.as_str());
            let msg = match rest {
                Some(m) => m,
                None => String::new(),
            };
            (secs * 1000, msg)
        },
        None => (0, String::new()),
    };
    RepoInfo { remote_url, branch, last_commit_at, last_commit_message }
}

/// The name and directory of a repository form, trimmed; an empty one is refused with
/// `NAME_REQUIRED` or `DIR_REQUIRED` (the name is checked first).
pub fn validate_repo_input(name: &str, dir: &str) -> (r: Result<(String, String), String>)
    ensures
        trimmed(name@).len() == 0 ==> (r matches Err(e) && e@ == NAME_REQUIRED@),
        trimmed(name@).len() > 0 && trimmed(dir@).len() == 0 ==> (r matches Err(e) && e@
            == DIR_REQUIRED@),
        trimmed(name@).len() > 0 && trimmed(dir@).len() > 0 ==> (r matches Ok((n, d)) && n@
            == trimmed(name@) && d@ == trimmed(dir@)),
{
    let n = trim(name);
    let d = trim(dir);
    if n.as_str().is_empty() {
        return Err(NAME_REQUIRED.to_owned());
    }
    if d.as_str().is_empty() {
        return Err(DIR_REQUIRED.to_owned());
    }
    Ok((n, d))
}

/// The error for a repository id that no record has.
pub fn repository_not_found(id: i32) -> (r: String)
    ensures
        r@ == "repository not found: "@ + signed_decimal(id as int),
{
    let n = i32_to_decimal(id);
    concat("repository not found: ", n.as_str())
}

} // verus!
