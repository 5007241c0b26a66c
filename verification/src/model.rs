use vstd::prelude::*;

use crate::errors::ExpandUserError;

verus! {

/// Index just past the first component of a path: the position of the
/// first separator, or the length of the path when it has none.
pub open spec fn first_comp_end(s: Seq<char>) -> int
    decreases s.len(),
{
    if s.len() == 0 {
        0
    } else if s[0] == '/' {
        0
    } else {
        1 + first_comp_end(s.drop_first())
    }
}

/// Everything from the first separator on (empty when there is none).
pub open spec fn rest_after_first(s: Seq<char>) -> Seq<char> {
    s.subrange(first_comp_end(s), s.len() as int)
}

/// The candidate username: the first component with its leading tilde
/// stripped.
pub open spec fn tilde_name(s: Seq<char>) -> Seq<char> {
    s.subrange(1, first_comp_end(s))
}

/// The username that short-circuits to a fixed prefix.
pub open spec fn root_name() -> Seq<char> {
    seq!['r', 'o', 'o', 't']
}

/// The fixed home-directory prefix of the root user.
pub open spec fn root_home() -> Seq<char> {
    seq!['/', 'r', 'o', 'o', 't']
}

/// The first component is exactly `~`: a current-user request.
pub open spec fn is_current_user_req(s: Seq<char>) -> bool {
    s.len() > 0 && s[0] == '~' && first_comp_end(s) == 1
}

/// The first component is `~` followed by a username.
pub open spec fn is_named_user_req(s: Seq<char>) -> bool {
    s.len() > 0 && s[0] == '~' && first_comp_end(s) >= 2
}

/// Whether a candidate username holds an embedded NUL, which the
/// user-database lookup's C-string encoding cannot carry.
pub open spec fn contains_nul(s: Seq<char>) -> bool {
    exists|j: int| 0 <= j < s.len() && s[j] == '\0'
}

/// The expanded path: the resolved prefix followed by the remainder of
/// the input after its first component. A remainder that is a lone
/// separator (as in a bare `~/`) adds nothing.
pub open spec fn joined(prefix: Seq<char>, rest: Seq<char>) -> Seq<char> {
    if rest =~= seq!['/'] {
        prefix
    } else {
        prefix + rest
    }
}

/// The view of an optional borrowed path or home directory.
pub open spec fn opt_chars(s: Option<&str>) -> Option<Seq<char>> {
    match s {
        Some(t) => Some(t@),
        None => None,
    }
}

/// What resolving a bare `~` must produce, given the outcome of the
/// current-user home lookup.
pub open spec fn current_resolution(
    home: Option<Seq<char>>,
    rest: Seq<char>,
    r: Result<String, ExpandUserError>,
) -> bool {
    match home {
        Some(h) => r matches Ok(p) && p@ == joined(h, rest),
        None => r matches Err(e) && e is CurrentUserHomeNotFound,
    }
}

/// What resolving `~name` must produce, given the outcome of the
/// user-database lookup: `None` is an absent record, `Some(None)` a
/// record without a home directory, `Some(Some(h))` a record whose home
/// directory is `h`. A name the lookup encoding cannot carry fails before
/// any lookup outcome is consulted.
pub open spec fn named_resolution(
    name: Seq<char>,
    rec: Option<Option<Seq<char>>>,
    rest: Seq<char>,
    r: Result<String, ExpandUserError>,
) -> bool {
    if contains_nul(name) {
        r matches Err(ExpandUserError::InvalidTildeExpression { expr }) && expr@ == name
    } else {
        match rec {
            None => r matches Err(ExpandUserError::UserNotFound { user }) && user@ == name,
            Some(None) => r matches Err(ExpandUserError::UserHomeNotFound { user }) && user@
                == name,
            Some(Some(h)) => r matches Ok(p) && p@ == joined(h, rest),
        }
    }
}

/// The whole contract of tilde expansion, for a given outcome of the
/// current-user home lookup. The named-user branch is quantified over the
/// directory-service outcome, which only the system decides; every other
/// branch pins the result exactly.
pub open spec fn expansion_with_home(
    s: Seq<char>,
    home: Option<Seq<char>>,
    r: Result<String, ExpandUserError>,
) -> bool {
    if s.len() == 0 {
        r matches Ok(p) && p@ =~= Seq::<char>::empty()
    } else if s[0] != '~' {
        r matches Ok(p) && p@ == s
    } else if is_current_user_req(s) {
        current_resolution(home, rest_after_first(s), r)
    } else if tilde_name(s) =~= root_name() {
        r matches Ok(p) && p@ == joined(root_home(), rest_after_first(s))
    } else {
        exists|rec: Option<Option<Seq<char>>>|
            named_resolution(tilde_name(s), rec, rest_after_first(s), r)
    }
}

/// Where the first component ends: no separator stands before it, and one
/// stands right at it unless the path has none at all. A component that
/// does not open with a separator is at least one character long.
pub proof fn lemma_first_comp_end_bounds(s: Seq<char>)
    ensures
        0 <= first_comp_end(s) <= s.len(),
        forall|j: int| 0 <= j < first_comp_end(s) ==> s[j] != '/',
        first_comp_end(s) < s.len() ==> s[first_comp_end(s)] == '/',
        s.len() > 0 && s[0] != '/' ==> first_comp_end(s) >= 1,
    decreases s.len(),
{
    if s.len() == 0 {
    } else if s[0] == '/' {
    } else {
        lemma_first_comp_end_bounds(s.drop_first());
        assert forall|j: int| 0 <= j < first_comp_end(s) implies s[j] != '/' by {
            if j > 0 {
                assert(s.drop_first()[j - 1] != '/');
            }
        }
    }
}

/// The index just past the first component is the only one with no
/// separator before it and a separator (or the path's end) at it.
pub proof fn lemma_first_comp_end_unique(s: Seq<char>, i: int)
    requires
        0 <= i <= s.len(),
        forall|j: int| 0 <= j < i ==> s[j] != '/',
        i < s.len() ==> s[i] == '/',
    ensures
        first_comp_end(s) == i,
{
    lemma_first_comp_end_bounds(s);
    let f = first_comp_end(s);
    if f < i {
        assert(s[f] != '/');
        assert(false);
    }
    if f > i {
        assert(s[i] != '/');
        assert(false);
    }
}

/// Law: whatever the resolved prefix, the remainder of the input after
/// its first component reappears unchanged at the end of the expanded
/// path, and the prefix opens it; a remainder that is a lone separator
/// vanishes.
pub proof fn lemma_remainder_preserved(prefix: Seq<char>, rest: Seq<char>)
    ensures
        rest =~= seq!['/'] ==> joined(prefix, rest) == prefix,
        !(rest =~= seq!['/']) ==> joined(prefix, rest) =~= prefix + rest,
        !(rest =~= seq!['/']) ==> joined(prefix, rest).subrange(0, prefix.len() as int)
            =~= prefix,
        !(rest =~= seq!['/']) ==> joined(prefix, rest).subrange(
            prefix.len() as int,
            joined(prefix, rest).len() as int,
        ) =~= rest,
{
}

/// Law: a path whose first component carries no tilde expands to itself,
/// whatever the lookups would have answered.
pub proof fn lemma_identity_preserved(
    s: Seq<char>,
    home: Option<Seq<char>>,
    r: Result<String, ExpandUserError>,
)
    requires
        expansion_with_home(s, home, r),
        s.len() > 0,
        s[0] != '~',
    ensures
        r matches Ok(p) && p@ == s,
{
}

} // verus!
