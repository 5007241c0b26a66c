use vstd::prelude::*;
use vstd::string::StrSliceExecFns;
use vstd::string::StringExecFns;

use crate::errors::ExpandUserError;
use crate::lookup::{UserRecord, os_current_home, os_lookup_user, rec_view};
use crate::model::{
    contains_nul, current_resolution, expansion_with_home, first_comp_end, is_current_user_req,
    is_named_user_req, joined, lemma_first_comp_end_bounds, lemma_first_comp_end_unique,
    named_resolution, opt_chars, rest_after_first, root_home, root_name, tilde_name,
};

verus! {

/// Position just past the first component of `path`: the first separator,
/// or the end.
fn first_sep_index(path: &str) -> (i: usize)
    ensures
        i == first_comp_end(path@),
{
    let n: usize = path.unicode_len();
    let mut i: usize = 0;
    while i < n && path.get_char(i) != '/'
        invariant
            0 <= i <= n,
            n == path@.len(),
            forall|j: int| 0 <= j < i ==> path@[j] != '/',
        decreases n - i,
    {
        i = i + 1;
    }
    proof {
        lemma_first_comp_end_unique(path@, i as int);
    }
    i
}

/// Whether `name` holds an embedded NUL character.
fn has_nul(name: &str) -> (b: bool)
    ensures
        b == contains_nul(name@),
{
    let n: usize = name.unicode_len();
    let mut i: usize = 0;
    while i < n
        invariant
            0 <= i <= n,
            n == name@.len(),
            forall|j: int| 0 <= j < i ==> name@[j] != '\0',
        decreases n - i,
    {
        if name.get_char(i) == '\0' {
            proof {
                assert(contains_nul(name@)) by {
                    assert(name@[i as int] == '\0');
                }
            }
            return true;
        }
        i = i + 1;
    }
    false
}

/// Whether the candidate username is exactly the root user's.
fn is_root(name: &str) -> (b: bool)
    ensures
        b == (name@ =~= root_name()),
{
    let n: usize = name.unicode_len();
    if n != 4 {
        return false;
    }
    name.get_char(0) == 'r' && name.get_char(1) == 'o' && name.get_char(2) == 'o'
        && name.get_char(3) == 't'
}

/// Joins a resolved prefix with the remainder of the input after its
/// first component.
fn join_prefix(prefix: &str, rest: &str) -> (p: String)
    ensures
        p@ == joined(prefix@, rest@),
{
    let rn: usize = rest.unicode_len();
    if rn == 1 && rest.get_char(0) == '/' {
        proof {
            assert(rest@ =~= seq!['/']);
        }
        prefix.to_owned()
    } else {
        let mut p = prefix.to_owned();
        p.append(rest);
        p
    }
}

/// Resolves a bare `~` from the outcome of the current-user home lookup:
/// the home directory becomes the new prefix; an absent home is the
/// CurrentUserHomeNotFound error.
pub fn resolve_current(home: Option<&str>, rest: &str) -> (r: Result<String, ExpandUserError>)
    ensures
        current_resolution(opt_chars(home), rest@, r),
{
    match home {
        Some(h) => Ok(join_prefix(h, rest)),
        None => Err(ExpandUserError::CurrentUserHomeNotFound),
    }
}

/// Resolves `~name` from the outcome of the user-database lookup, in the
/// order the expansion demands: a name the lookup encoding cannot carry
/// fails first, then an absent record, then a record without a home
/// directory; otherwise the record's home directory becomes the prefix.
pub fn resolve_named(name: &str, record: Option<UserRecord>, rest: &str) -> (r: Result<
    String,
    ExpandUserError,
>)
    ensures
        named_resolution(name@, rec_view(record), rest@, r),
{
    if has_nul(name) {
        return Err(ExpandUserError::InvalidTildeExpression { expr: name.to_owned() });
    }
    match record {
        None => Err(ExpandUserError::UserNotFound { user: name.to_owned() }),
        Some(rec) => match rec.home {
            None => Err(ExpandUserError::UserHomeNotFound { user: name.to_owned() }),
            Some(h) => Ok(join_prefix(h.as_str(), rest)),
        },
    }
}

/// Expands a leading tilde in `path`, taking the current user's home
/// directory as an argument rather than from the environment; named
/// users are still resolved against the system's user database.
pub fn expand_user_with_home(path: &str, current_home: Option<&str>) -> (r: Result<
    String,
    ExpandUserError,
>)
    ensures
        expansion_with_home(path@, opt_chars(current_home), r),
{
    let n: usize = path.unicode_len();
    if n == 0 {
        return Ok(String::new());
    }
    if path.get_char(0) != '~' {
        return Ok(path.to_owned());
    }
    let i: usize = first_sep_index(path);
    proof {
        lemma_first_comp_end_bounds(path@);
    }
    let rest = path.substring_char(i, n);
    proof {
        assert(rest@ == rest_after_first(path@));
    }
    if i == 1 {
        return resolve_current(current_home, rest);
    }
    let name = path.substring_char(1, i);
    proof {
        assert(name@ == tilde_name(path@));
    }
    if is_root(name) {
        proof {
            reveal_strlit("/root");
            assert("/root"@ =~= root_home());
        }
        return Ok(join_prefix("/root", rest));
    }
    let r = if has_nul(name) {
        resolve_named(name, None, rest)
    } else {
        resolve_named(name, os_lookup_user(name), rest)
    };
    proof {
        assert(exists|rec: Option<Option<Seq<char>>>|
            named_resolution(tilde_name(path@), rec, rest_after_first(path@), r));
    }
    r
}

/// Expands a leading tilde in `path` against the live environment: the
/// current user's home directory and the system user database.
pub fn expand_user(path: &str) -> (r: Result<String, ExpandUserError>)
    ensures
        exists|home: Option<Seq<char>>| expansion_with_home(path@, home, r),
        path@.len() == 0 ==> (r matches Ok(p) && p@ =~= Seq::<char>::empty()),
        path@.len() > 0 && path@[0] != '~' ==> (r matches Ok(p) && p@ == path@),
        is_named_user_req(path@) && tilde_name(path@) =~= root_name() ==> (r matches Ok(p) && p@
            == joined(root_home(), rest_after_first(path@))),
{
    let home = os_current_home();
    let home_ref = match &home {
        Some(h) => Some(h.as_str()),
        None => None,
    };
    let r = expand_user_with_home(path, home_ref);
    proof {
        assert(expansion_with_home(path@, opt_chars(home_ref), r));
        if is_named_user_req(path@) {
            lemma_first_comp_end_bounds(path@);
            assert(!is_current_user_req(path@));
        }
    }
    r
}

/// Tilde expansion as a capability of path-like values.
pub trait ExpandUser {
    /// The path's characters, as the expansion reads them.
    spec fn path_chars(&self) -> Seq<char>;

    /// Expands a leading tilde against the live environment.
    fn expand_user(&self) -> (r: Result<String, ExpandUserError>)
        ensures
            exists|home: Option<Seq<char>>| expansion_with_home(self.path_chars(), home, r),
    ;
}

impl ExpandUser for String {
    open spec fn path_chars(&self) -> Seq<char> {
        self@
    }

    fn expand_user(&self) -> (r: Result<String, ExpandUserError>) {
        let s = self.as_str();
        let r = expand_user(s);
        proof {
            let h = choose|home: Option<Seq<char>>| expansion_with_home(s@, home, r);
            assert(expansion_with_home(self.path_chars(), h, r));
        }
        r
    }
}

} // verus!
