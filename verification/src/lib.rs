//! Expands a leading tilde expression (`~`, `~user`, `~root`) in a path to
//! the corresponding user's home directory.
//!
//! Only the first component of a path is ever inspected: everything after
//! it is carried into the result unchanged, and a path whose first
//! component carries no tilde comes back identical.

pub mod errors;
pub mod expand;
pub mod lookup;
pub mod model;

pub use errors::ExpandUserError;
pub use expand::ExpandUser;
pub use expand::expand_user;
pub use expand::expand_user_with_home;
pub use expand::resolve_current;
pub use expand::resolve_named;
pub use lookup::UserRecord;
