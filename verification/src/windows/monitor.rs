use vstd::prelude::*;

use crate::shared::text::{concat, starts_with, str_eq, strip_prefix};

verus! {

/// `dirs::home_dir`, as a string: the user's home directory, if it can be found. The
/// result depends on the environment, so nothing is promised of it.
#[verifier::external_body]
fn home_dir() -> Option<String> {
    match dirs::home_dir() {
        Some(p) => Some(p.to_string_lossy().to_string()),
        None => None,
    }
}

/// `cwd` written relative to the home directory `home`: `~` for the home directory
/// itself, `~` followed by the rest when `cwd` lies inside `home` (it begins with `home`
/// and a `/`), none otherwise. A sibling such as `/Users/foobar` beside `/Users/foo`
/// is not inside it.
pub open spec fn spec_home_relative(cwd: Seq<char>, home: Seq<char>) -> Option<Seq<char>> {
    if cwd == home {
        Some(seq!['~'])
    } else if (home + seq!['/']).is_prefix_of(cwd) {
        Some(seq!['~'] + cwd.skip(home.len() as int))
    } else {
        None
    }
}

/// `cwd` lies inside `home` exactly when it begins with `home` and the next character
/// is a `/`.
proof fn lemma_inside_home(cwd: Seq<char>, home: Seq<char>)
    ensures
        (home + seq!['/']).is_prefix_of(cwd) <==> (home.is_prefix_of(cwd) && cwd.len() > home.len()
            && cwd.skip(home.len() as int)[0] == '/'),
{
    let p = home + seq!['/'];
    if p.is_prefix_of(cwd) {
        assert(cwd.subrange(0, p.len() as int)[home.len() as int] == '/');
        assert(home =~= cwd.subrange(0, home.len() as int)) by {
            assert forall|i: int| 0 <= i < home.len() implies home[i] == cwd[i] by {
                assert(p[i] == home[i]);
                assert(cwd.subrange(0, p.len() as int)[i] == cwd[i]);
            }
        }
    }
    if home.is_prefix_of(cwd) && cwd.len() > home.len() && cwd.skip(home.len() as int)[0] == '/' {
        assert(p =~= cwd.subrange(0, p.len() as int)) by {
            assert forall|i: int| 0 <= i < p.len() implies p[i] == cwd[i] by {
                if i < home.len() {
                    assert(cwd.subrange(0, home.len() as int)[i] == cwd[i]);
                }
            }
        }
    }
}

/// `cwd` written relative to the home directory `home` (see `spec_home_relative`).
pub fn home_relative_to(cwd: &str, home: &str) -> (r: Option<String>)
    ensures
        match spec_home_relative(cwd@, home@) {
            Some(x) => r matches Some(s) && s@ == x,
            None => r is None,
        },
{
    if str_eq(cwd, home) {
        proof {
            reveal_strlit("~");
        }
        return Some("~".to_owned());
    }
    match strip_prefix(cwd, home) {
        Some(rest) => {
            proof {
                reveal_strlit("~");
                reveal_strlit("/");
                lemma_inside_home(cwd@, home@);
            }
            if starts_with(rest.as_str(), "/") {
                assert(rest@.subrange(0, 1)[0] == rest@[0]);
                Some(concat("~", rest.as_str()))
            } else {
                assert(rest@.len() >= 1 ==> seq!['/'] =~= rest@.subrange(0, 1) || rest@[0] != '/');
                None
            }
        },
        None => {
            proof {
                lemma_inside_home(cwd@, home@);
            }
            None
        },
    }
}

/// `cwd` written relative to the user's home directory, when it lies in it.
pub fn home_relative_cwd(cwd: &str) -> (r: Option<String>)
    ensures
        r matches Some(s) ==> exists|home: Seq<char>| spec_home_relative(cwd@, home) == Some(s@),
{
    match home_dir() {
        Some(home) => {
            let r = home_relative_to(cwd, home.as_str());
            assert(r matches Some(s) ==> spec_home_relative(cwd@, home@) == Some(s@));
            r
        },
        None => None,
    }
}

} // verus!

verus! {

/// A home-relative path expands back to the original: the home directory followed by
/// what comes after the `~`.
pub proof fn lemma_home_relative_expands(cwd: Seq<char>, home: Seq<char>)
    ensures
        spec_home_relative(cwd, home) matches Some(r) ==> r.len() > 0 && r[0] == '~' && home
            + r.drop_first() == cwd,
{
    if cwd == home {
        assert(seq!['~'].drop_first() =~= Seq::<char>::empty());
        assert(home + Seq::<char>::empty() =~= cwd);
    } else if (home + seq!['/']).is_prefix_of(cwd) {
        lemma_inside_home(cwd, home);
        assert(home =~= cwd.subrange(0, home.len() as int));
        let r = seq!['~'] + cwd.skip(home.len() as int);
        assert(r.drop_first() =~= cwd.skip(home.len() as int));
        assert(home + cwd.skip(home.len() as int) =~= cwd);
    }
}

} // verus!
