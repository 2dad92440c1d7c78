//! Mapping a dotted application identifier to the repository whose releases
//! describe that application.

use vstd::prelude::*;

verus! {

/// One entry of the alias table: releases of a repository named `repo` are
/// always looked up under `owner`, whatever owner the client reported.
#[derive(Clone, Debug, PartialEq, Eq)]
pub struct RepoAlias {
    pub repo: String,
    pub owner: String,
}

/// An (owner, repository) pair on the release feed.
#[derive(Clone, Debug, PartialEq, Eq)]
pub struct RepoId {
    pub owner: String,
    pub repo: String,
}

/// Why an application identifier names no repository.
#[derive(Clone, Copy, Debug, PartialEq, Eq)]
pub enum ResolutionError {
    /// The identifier is not two non-empty segments joined by a single `.`.
    MalformedIdentity,
}

/// Position `i` of `s` holds the only `.` of `s`, with text on both sides.
pub open spec fn dot_splits(s: Seq<char>, i: int) -> bool {
    &&& 0 < i < s.len() - 1
    &&& s[i] == '.'
    &&& forall|j: int| 0 <= j < s.len() && j != i ==> s[j] != '.'
}

/// `s` is two non-empty segments joined by a single `.`.
pub open spec fn well_formed_id(s: Seq<char>) -> bool {
    exists|i: int| dot_splits(s, i)
}

/// Position of the separator of a well-formed identifier.
pub open spec fn dot_index(s: Seq<char>) -> int {
    choose|i: int| dot_splits(s, i)
}

/// The segment before the separator.
pub open spec fn owner_part(s: Seq<char>) -> Seq<char> {
    s.subrange(0, dot_index(s))
}

/// The segment after the separator.
pub open spec fn repo_part(s: Seq<char>) -> Seq<char> {
    s.subrange(dot_index(s) + 1, s.len() as int)
}

/// The owner that the first entry of `aliases` for `repo` imposes, if any.
pub open spec fn alias_owner(aliases: Seq<RepoAlias>, repo: Seq<char>) -> Option<Seq<char>>
    decreases aliases.len(),
{
    if aliases.len() == 0 {
        None
    } else if aliases[0].repo@ == repo {
        Some(aliases[0].owner@)
    } else {
        alias_owner(aliases.drop_first(), repo)
    }
}

/// The owner under which releases of `repo` are looked up when the client
/// reported `owner`.
pub open spec fn effective_owner(
    aliases: Seq<RepoAlias>,
    owner: Seq<char>,
    repo: Seq<char>,
) -> Seq<char> {
    match alias_owner(aliases, repo) {
        Some(o) => o,
        None => owner,
    }
}

/// The repository that identifier `s` names, if it is well formed.
pub open spec fn repo_of(aliases: Seq<RepoAlias>, s: Seq<char>) -> Option<(Seq<char>, Seq<char>)> {
    if well_formed_id(s) {
        Some((effective_owner(aliases, owner_part(s), repo_part(s)), repo_part(s)))
    } else {
        None
    }
}

/// The owner that `aliases` imposes on repository `repo`, if any.
fn find_alias(aliases: &Vec<RepoAlias>, repo: &String) -> (r: Option<String>)
    ensures
        match r {
            Some(o) => alias_owner(aliases@, repo@) == Some(o@),
            None => alias_owner(aliases@, repo@) is None,
        },
{
    let mut i: usize = 0;
    assert(aliases@.skip(0) =~= aliases@);
    while i < aliases.len()
        invariant
            i <= aliases@.len(),
            alias_owner(aliases@, repo@) == alias_owner(aliases@.skip(i as int), repo@),
        decreases aliases.len() - i,
    {
        assert(aliases@.skip(i as int)[0] == aliases@[i as int]);
        if aliases[i].repo == *repo {
            return Some(aliases[i].owner.clone());
        }
        assert(aliases@.skip(i as int).drop_first() =~= aliases@.skip(i + 1));
        i = i + 1;
    }
    None
}

/// Splits `app_id` into owner and repository at its single `.`, then applies
/// the alias table to the owner.
pub fn resolve_repository(app_id: &str, aliases: &Vec<RepoAlias>) -> (r: Result<
    RepoId,
    ResolutionError,
>)
    ensures
        match r {
            Ok(id) => repo_of(aliases@, app_id@) == Some((id.owner@, id.repo@)),
            Err(e) => repo_of(aliases@, app_id@) is None && e == ResolutionError::MalformedIdentity,
        },
{
    let ghost s = app_id@;
    let n = app_id.unicode_len();
    let mut dot: Option<usize> = None;
    let mut i: usize = 0;
    while i < n
        invariant
            s == app_id@,
            n == s.len(),
            i <= n,
            match dot {
                None => forall|j: int| 0 <= j < i ==> s[j] != '.',
                Some(d) => d < i && s[d as int] == '.' && forall|j: int|
                    0 <= j < i && j != d ==> s[j] != '.',
            },
        decreases n - i,
    {
        if app_id.get_char(i) == '.' {
            match dot {
                Some(d) => {
                    assert forall|k: int| !dot_splits(s, k) by {
                        if k != d {
                            assert(s[d as int] == '.');
                        } else {
                            assert(s[i as int] == '.');
                        }
                    }
                    return Err(ResolutionError::MalformedIdentity);
                },
                None => {
                    dot = Some(i);
                },
            }
        }
        i = i + 1;
    }
    match dot {
        None => {
            assert forall|k: int| !dot_splits(s, k) by {}
            Err(ResolutionError::MalformedIdentity)
        },
        Some(d) => {
            if d == 0 || d + 1 == n {
                assert forall|k: int| !dot_splits(s, k) by {
                    if k != d && 0 <= k < s.len() {
                        assert(s[d as int] == '.');
                    }
                }
                return Err(ResolutionError::MalformedIdentity);
            }
            assert(dot_splits(s, d as int));
            let ghost k = dot_index(s);
            assert(k == d) by {
                if k != d {
                    assert(s[d as int] == '.');
                }
            }
            let owner_given = app_id.substring_char(0, d);
            let repo = String::from_str(app_id.substring_char(d + 1, n));
            let owner = match find_alias(aliases, &repo) {
                Some(o) => o,
                None => String::from_str(owner_given),
            };
            Ok(RepoId { owner, repo })
        },
    }
}

} // verus!
