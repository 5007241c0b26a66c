use vstd::prelude::*;

use crate::model::contains_nul;
use uzers::os::unix::UserExt;

verus! {

/// A user-database record, as far as this library reads one: the
/// optional home-directory field.
pub struct UserRecord {
    pub home: Option<String>,
}

impl View for UserRecord {
    type V = Option<Seq<char>>;

    open spec fn view(&self) -> Option<Seq<char>> {
        match self.home {
            Some(h) => Some(h@),
            None => None,
        }
    }
}

/// The lookup outcome as a spec value: `None` is an absent record,
/// `Some` the record's view.
pub open spec fn rec_view(rec: Option<UserRecord>) -> Option<Option<Seq<char>>> {
    match rec {
        Some(r) => Some(r@),
        None => None,
    }
}

/// Relies on dirs_sys::home_dir: the current process's home directory,
/// when the environment or the user database yields one. What comes back
/// depends on the process environment, so nothing is claimed of the
/// value; the callers state what they do with every outcome.
#[verifier::external_body]
pub(crate) fn os_current_home() -> Option<String> {
    dirs_sys::home_dir().map(|p| p.to_string_lossy().into_owned())
}

/// Relies on uzers::get_user_by_name, a safe wrapper around the system's
/// getpwnam_r: `Some` exactly when the user database has a record for the
/// name. uzers fills the record's home directory from the database's
/// pw_dir field for every record it hands back, so `home` is set here;
/// `UserRecord` still allows an absent field, as the database itself
/// does. Which users exist is the system's to decide, so nothing is
/// claimed of the value; the callers state what they do with every
/// outcome.
#[verifier::external_body]
pub(crate) fn os_lookup_user(name: &str) -> Option<UserRecord>
    requires
        !contains_nul(name@),
{
    uzers::get_user_by_name(name).map(
        |u| UserRecord { home: Some(u.home_dir().to_string_lossy().into_owned()) },
    )
}

} // verus!
