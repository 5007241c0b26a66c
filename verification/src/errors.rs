use vstd::prelude::*;

verus! {

/// An error from expanding a tilde expression.
#[derive(Debug, Clone, PartialEq, Eq)]
pub enum ExpandUserError {
    /// A bare `~` was asked for, but the current user's home directory
    /// could not be determined.
    CurrentUserHomeNotFound,
    /// The user database has no record for the named user.
    UserNotFound { user: String },
    /// The user database has a record for the named user, but no home
    /// directory in it.
    UserHomeNotFound { user: String },
    /// The name after the tilde cannot be encoded for the user-database
    /// lookup (it holds an embedded NUL).
    InvalidTildeExpression { expr: String },
}

impl ExpandUserError {
    /// Builds the error for a username the user database has no record of.
    pub fn user_not_found(user: &str) -> (e: Self)
        ensures
            e matches ExpandUserError::UserNotFound { user: u } && u@ == user@,
    {
        ExpandUserError::UserNotFound { user: user.to_owned() }
    }
}

} // verus!
