use std::path::Path;
use tilde_expand::ExpandUser;
use tilde_expand::ExpandUserError;
use tilde_expand::UserRecord;
use tilde_expand::expand_user;
use tilde_expand::expand_user_with_home;
use tilde_expand::resolve_current;
use tilde_expand::resolve_named;

const HOME: &str = "/Users/kinbote";

#[test]
fn test_expand_user_from_str() {
    assert_eq!(expand_user_with_home("", Some(HOME)).unwrap(), "");
    assert_eq!(expand_user_with_home("/", Some(HOME)).unwrap(), "/");

    assert_eq!(expand_user_with_home("~", Some(HOME)).unwrap(), "/Users/kinbote");
    assert_eq!(expand_user_with_home("~/", Some(HOME)).unwrap(), "/Users/kinbote");
    assert_eq!(
        expand_user_with_home("~/.config/prog/config.json", Some(HOME)).unwrap(),
        "/Users/kinbote/.config/prog/config.json"
    );
}

#[test]
fn test_expand_user_from_path() {
    assert_eq!(
        expand_user_with_home(Path::new("").to_str().unwrap(), Some(HOME)).unwrap(),
        ""
    );
    assert_eq!(
        expand_user_with_home(Path::new("/").to_str().unwrap(), Some(HOME)).unwrap(),
        "/"
    );

    assert_eq!(
        expand_user_with_home(Path::new("~").to_str().unwrap(), Some(HOME)).unwrap(),
        "/Users/kinbote"
    );
    assert_eq!(
        expand_user_with_home(Path::new("~/").to_str().unwrap(), Some(HOME)).unwrap(),
        "/Users/kinbote"
    );
    assert_eq!(
        expand_user_with_home(Path::new("~/.config/prog/config.json").to_str().unwrap(), Some(HOME))
            .unwrap(),
        "/Users/kinbote/.config/prog/config.json"
    );
}

#[test]
fn test_root_expansion() {
    assert_eq!(expand_user("~root").unwrap(), "/root");
    assert_eq!(expand_user("~root/.bashrc").unwrap(), "/root/.bashrc");
}

#[test]
fn test_error_cases() {
    assert!(expand_user("~nonexistentuser").is_err());

    assert!(expand_user("~:invalid").is_err());
}

#[test]
fn test_edge_cases() {
    // Multiple tilde expressions
    assert_eq!(
        expand_user_with_home("~/foo/~root/bar", Some(HOME)).unwrap(),
        "/Users/kinbote/foo/~root/bar"
    );

    // Tilde not at start
    assert_eq!(expand_user_with_home("/foo/~/bar", Some(HOME)).unwrap(), "/foo/~/bar");

    // Empty string as username
    assert_eq!(expand_user_with_home("~", Some(HOME)).unwrap(), "/Users/kinbote");
    assert_eq!(expand_user_with_home("~/", Some(HOME)).unwrap(), "/Users/kinbote");
}

#[test]
fn test_unicode_handling() {
    assert_eq!(
        expand_user_with_home("~/документы", Some(HOME)).unwrap(),
        "/Users/kinbote/документы"
    );
}

#[test]
fn test_long_paths() {
    let long_suffix = "a".repeat(1000);
    let long_path = format!("~/{}", long_suffix);
    let expected = format!("/Users/kinbote/{}", long_suffix);
    assert_eq!(expand_user_with_home(&long_path, Some(HOME)).unwrap(), expected);
}

#[test]
fn test_relative_and_absolute_paths() {
    // Relative path
    assert_eq!(
        expand_user_with_home("~/documents", Some(HOME)).unwrap(),
        "/Users/kinbote/documents"
    );

    // Absolute path
    assert_eq!(expand_user_with_home("/absolute/path", Some(HOME)).unwrap(), "/absolute/path");
}

#[test]
fn test_current_user_home_not_found() {
    assert_eq!(
        expand_user_with_home("~", None),
        Err(ExpandUserError::CurrentUserHomeNotFound)
    );
    assert_eq!(
        expand_user_with_home("~/anything", None),
        Err(ExpandUserError::CurrentUserHomeNotFound)
    );
    // The root shortcut never consults the current user's home.
    assert_eq!(expand_user_with_home("~root/x", None).unwrap(), "/root/x");
}

#[test]
fn test_embedded_nul_is_invalid_expression() {
    assert_eq!(
        expand_user_with_home("~ab\0c/x", Some(HOME)),
        Err(ExpandUserError::InvalidTildeExpression { expr: "ab\0c".to_string() })
    );
    // The encoding check comes before any lookup outcome is consulted.
    let rec = Some(UserRecord { home: Some("/home/abc".to_string()) });
    assert_eq!(
        resolve_named("ab\0c", rec, "/x"),
        Err(ExpandUserError::InvalidTildeExpression { expr: "ab\0c".to_string() })
    );
}

#[test]
fn test_resolve_named_outcomes() {
    assert_eq!(
        resolve_named("alice", None, "/x"),
        Err(ExpandUserError::UserNotFound { user: "alice".to_string() })
    );
    assert_eq!(
        resolve_named("alice", Some(UserRecord { home: None }), "/x"),
        Err(ExpandUserError::UserHomeNotFound { user: "alice".to_string() })
    );
    assert_eq!(
        resolve_named("alice", Some(UserRecord { home: Some("/home/alice".to_string()) }), "/x")
            .unwrap(),
        "/home/alice/x"
    );
    assert_eq!(
        resolve_named("alice", Some(UserRecord { home: Some("/home/alice".to_string()) }), "/")
            .unwrap(),
        "/home/alice"
    );
    assert_eq!(
        resolve_named("alice", Some(UserRecord { home: Some("/home/alice".to_string()) }), "")
            .unwrap(),
        "/home/alice"
    );
}

#[test]
fn test_resolve_current_outcomes() {
    assert_eq!(resolve_current(Some("/h"), "/a").unwrap(), "/h/a");
    assert_eq!(resolve_current(Some("/h"), "").unwrap(), "/h");
    assert_eq!(resolve_current(Some("/h"), "/").unwrap(), "/h");
    assert_eq!(resolve_current(None, "/a"), Err(ExpandUserError::CurrentUserHomeNotFound));
}

#[test]
fn test_user_not_found_constructor() {
    assert_eq!(
        ExpandUserError::user_not_found("kinbote"),
        ExpandUserError::UserNotFound { user: "kinbote".to_string() }
    );
}

#[test]
fn test_expand_user_trait_on_string() {
    // Paths without a leading tilde never consult the environment.
    assert_eq!("".to_string().expand_user().unwrap(), "");
    assert_eq!("/absolute/path".to_string().expand_user().unwrap(), "/absolute/path");
    assert_eq!("~root/x".to_string().expand_user().unwrap(), "/root/x");
}

#[test]
fn test_real_user_database_root() {
    // Looking a user up for real: "root" spelled so that it misses the
    // shortcut would go to the database, but the shortcut must answer
    // without it; an unknown user must come back as UserNotFound.
    assert_eq!(
        expand_user("~nonexistentuser"),
        Err(ExpandUserError::UserNotFound { user: "nonexistentuser".to_string() })
    );
}
