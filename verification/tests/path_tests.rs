use ftp_server::path::{ErrorClass, PathError, PathHandler};
use std::path::{Component, Path, PathBuf};

/// Stands for a disk without links on which every path exists: the
/// canonical form of a path is the path with `.` and `..` resolved.
fn on_disk(path: &str) -> Result<String, String> {
    let mut out = PathBuf::new();
    for part in Path::new(path).components() {
        match part {
            Component::ParentDir => {
                out.pop();
            }
            Component::CurDir => {}
            other => out.push(other.as_os_str()),
        }
    }
    Ok(out.to_str().unwrap().to_string())
}

fn to_server_path(root: &str, path: &str, expected: &str) {
    let handler = PathHandler::new(root);
    let joined = handler.join_client_path(path);
    let server_path = handler.to_server_path(on_disk(&joined)).unwrap();
    assert_eq!(server_path, expected);
}

fn cd(root: &str, path: &str, expected: &str) {
    let mut handler = PathHandler::new(root);
    change(&mut handler, path).unwrap();
    assert_eq!(handler.pwd(), expected);
}

fn change(handler: &mut PathHandler, path: &str) -> Result<(), PathError> {
    let joined = handler.join_client_path(path);
    handler.cd(on_disk(&joined))
}

#[test]
fn test_to_server_path() {
    to_server_path("/var/ftp", "/dir1/doc.txt", "/var/ftp/dir1/doc.txt");
    to_server_path("/var/ftp", "/dir1", "/var/ftp/dir1");
    to_server_path("/var/ftp", "dir1/doc.txt", "/var/ftp/dir1/doc.txt");
    to_server_path("/var/ftp", "dir1", "/var/ftp/dir1");
}

#[test]
fn test_cd() {
    cd("/var/ftp", "dir1/doc.txt", "/var/ftp/dir1/doc.txt");
    cd("/var/ftp", "dir1", "/var/ftp/dir1");
    cd("/var/ftp", "/dir1/doc.txt", "/var/ftp/dir1/doc.txt");
    cd("/var/ftp", "/dir1", "/var/ftp/dir1");
    let mut handler = PathHandler::new("/var/ftp");
    change(&mut handler, "dir1").unwrap();
    assert_eq!(handler.pwd(), "/var/ftp/dir1");
    change(&mut handler, "..").unwrap();
    assert_eq!(handler.pwd(), "/var/ftp");
    change(&mut handler, "/dir1").unwrap();
    assert_eq!(handler.pwd(), "/var/ftp/dir1");
    assert!(change(&mut handler, "../..").is_err());
    assert_eq!(handler.pwd(), "/var/ftp/dir1");
}

#[test]
fn new_handler_stands_at_its_root() {
    let handler = PathHandler::new("/var/ftp");
    assert_eq!(handler.pwd(), "/var/ftp");
    assert_eq!(handler.get_pwd(), "/");
}

#[test]
fn join_puts_one_slash_between() {
    let handler = PathHandler::new("/var/ftp");
    assert_eq!(handler.non_canonicalized_path("a/b").unwrap(), "/var/ftp/a/b");
    assert_eq!(handler.non_canonicalized_path("/a").unwrap(), "/var/ftp/a");
    assert_eq!(handler.non_canonicalized_path("").unwrap(), "/var/ftp");
    assert_eq!(handler.non_canonicalized_path("/").unwrap(), "/var/ftp");
    let slashed = PathHandler::new("/var/ftp/");
    assert_eq!(slashed.non_canonicalized_path("a").unwrap(), "/var/ftp/a");
}

#[test]
fn relative_paths_join_the_working_directory() {
    let mut handler = PathHandler::new("/var/ftp");
    handler.cd(Ok(String::from("/var/ftp/dir1"))).unwrap();
    assert_eq!(handler.non_canonicalized_path("x").unwrap(), "/var/ftp/dir1/x");
    assert_eq!(handler.non_canonicalized_path("/x").unwrap(), "/var/ftp/dir1/x");
}

#[test]
fn doubled_slash_joins_the_root() {
    let mut handler = PathHandler::new("/var/ftp");
    handler.cd(Ok(String::from("/var/ftp/dir1"))).unwrap();
    assert_eq!(handler.non_canonicalized_path("//x").unwrap(), "/var/ftp/x");
    assert_eq!(handler.non_canonicalized_path("////x/y").unwrap(), "/var/ftp/x/y");
}

#[test]
fn lookup_of_a_climbing_path_is_invalid_input() {
    let handler = PathHandler::new("/var/ftp");
    let refused = handler.non_canonicalized_path("../x").unwrap_err();
    assert_eq!(refused, PathError::Traversal);
    assert_eq!(refused.class(), ErrorClass::InvalidInput);
    assert_eq!(
        handler.non_canonicalized_path("a/../../x").unwrap_err(),
        PathError::Traversal
    );
    assert_eq!(
        handler.non_canonicalized_path("../../../etc").unwrap_err(),
        PathError::Traversal
    );
}

#[test]
fn climbing_inside_the_root_is_allowed() {
    let handler = PathHandler::new("/var/ftp");
    assert_eq!(
        handler.non_canonicalized_path("a/../b/./c").unwrap(),
        "/var/ftp/a/../b/./c"
    );
    assert_eq!(handler.non_canonicalized_path("a/..").unwrap(), "/var/ftp/a/..");
    assert_eq!(handler.non_canonicalized_path("...").unwrap(), "/var/ftp/...");
    assert_eq!(handler.non_canonicalized_path("..x").unwrap(), "/var/ftp/..x");
}

#[test]
fn joined_path_is_handed_on_whether_or_not_it_climbs() {
    let handler = PathHandler::new("/var/ftp");
    assert_eq!(handler.join_client_path(".."), "/var/ftp/..");
    assert_eq!(handler.join_client_path("../ftp/dir1"), "/var/ftp/../ftp/dir1");
    assert_eq!(handler.join_client_path("a"), "/var/ftp/a");
    assert_eq!(handler.join_client_path("//a"), "/var/ftp/a");
    assert_eq!(handler.join_client_path(""), "/var/ftp");
}

#[test]
fn climbing_out_of_the_root_is_permission_denied() {
    let mut handler = PathHandler::new("/var/ftp");
    let out = handler.to_server_path(on_disk(&handler.join_client_path("..")));
    assert_eq!(out, Err(PathError::OutsideRoot));
    assert_eq!(out.unwrap_err().class(), ErrorClass::PermissionDenied);
    let out = change(&mut handler, "..");
    assert_eq!(out, Err(PathError::OutsideRoot));
    assert_eq!(handler.pwd(), "/var/ftp");
    let out = change(&mut handler, "../../../etc");
    assert_eq!(out.unwrap_err().class(), ErrorClass::PermissionDenied);
    assert_eq!(handler.pwd(), "/var/ftp");
}

#[test]
fn climbing_out_and_back_in_is_accepted() {
    let mut handler = PathHandler::new("/var/ftp");
    change(&mut handler, "../ftp/dir1").unwrap();
    assert_eq!(handler.pwd(), "/var/ftp/dir1");
    let fresh = PathHandler::new("/var/ftp");
    assert_eq!(
        fresh.to_server_path(Ok(String::from("/var/ftp/dir1"))),
        Ok(String::from("/var/ftp/dir1"))
    );
}

#[test]
fn canonical_path_outside_root_is_permission_denied() {
    let mut handler = PathHandler::new("/var/ftp");
    let out = handler.cd(Ok(String::from("/etc")));
    assert_eq!(out, Err(PathError::OutsideRoot));
    assert_eq!(out.unwrap_err().class(), ErrorClass::PermissionDenied);
    assert_eq!(handler.pwd(), "/var/ftp");
    let out = handler.to_server_path(Ok(String::from("/var/ftpx")));
    assert_eq!(out, Err(PathError::OutsideRoot));
}

#[test]
fn canonical_path_must_be_absolute() {
    let mut handler = PathHandler::new("/var/ftp");
    let out = handler.cd(Ok(String::from("var/ftp/dir1")));
    assert_eq!(out, Err(PathError::NotAbsolute));
    assert_eq!(out.unwrap_err().class(), ErrorClass::InvalidInput);
    assert_eq!(handler.pwd(), "/var/ftp");
}

#[test]
fn filesystem_error_is_handed_on() {
    let mut handler = PathHandler::new("/var/ftp");
    let out = handler.cd(Err(String::from("No such file or directory")));
    assert_eq!(
        out,
        Err(PathError::Filesystem(String::from("No such file or directory")))
    );
    assert_eq!(out.unwrap_err().class(), ErrorClass::Filesystem);
    assert_eq!(handler.pwd(), "/var/ftp");
}

#[test]
fn error_messages() {
    assert_eq!(PathError::Traversal.message(), "Path leads above the root directory");
    assert_eq!(PathError::NotAbsolute.message(), "Path must be absolute");
    assert_eq!(
        PathError::OutsideRoot.message(),
        "Path is outside of the root directory"
    );
    assert_eq!(PathError::Filesystem(String::from("gone")).message(), "gone");
}

#[test]
fn within_root_goes_by_whole_components() {
    let handler = PathHandler::new("/var/ftp");
    assert!(handler.is_within_root("/var/ftp"));
    assert!(handler.is_within_root("/var/ftp/dir1"));
    assert!(handler.is_within_root("/var/ftp/"));
    assert!(!handler.is_within_root("/var/ftpx"));
    assert!(!handler.is_within_root("/var"));
    assert!(!handler.is_within_root("/etc"));
    assert!(!handler.is_within_root(""));
    let slashed = PathHandler::new("/");
    assert!(slashed.is_within_root("/etc"));
    let empty = PathHandler::new("");
    assert!(empty.is_within_root("anything"));
}

#[test]
fn client_path_drops_the_root() {
    let handler = PathHandler::new("/var/ftp");
    assert_eq!(handler.to_client_path("/var/ftp/dir1/doc.txt"), "/dir1/doc.txt");
    assert_eq!(handler.to_client_path("/var/ftp"), "");
    assert_eq!(handler.to_client_path("/var/ftpx/a"), "/var/ftpx/a");
    assert_eq!(handler.to_client_path("/etc"), "/etc");
}

#[test]
fn shown_directory_follows_cd() {
    let mut handler = PathHandler::new("/var/ftp");
    change(&mut handler, "sub").unwrap();
    assert_eq!(handler.get_pwd(), "/sub");
    change(&mut handler, "..").unwrap();
    assert_eq!(handler.get_pwd(), "/");
}

#[test]
fn containment_over_a_run_of_changes() {
    let mut handler = PathHandler::new("/var/ftp");
    let answers = [
        Ok(String::from("/var/ftp/a")),
        Ok(String::from("/var")),
        Ok(String::from("/var/ftp/a/b")),
        Ok(String::from("/var")),
        Ok(String::from("/")),
        Err(String::from("missing")),
        Ok(String::from("/var/ftp/a")),
        Ok(String::from("/var/ftp-other")),
    ];
    for answer in answers {
        let _ = handler.cd(answer);
        let cwd = handler.pwd();
        assert!(handler.is_within_root(&cwd));
        assert!(cwd == "/var/ftp" || cwd.starts_with("/var/ftp/"));
    }
    assert_eq!(handler.pwd(), "/var/ftp/a");
}

#[test]
fn shown_directory_resolves_back_from_the_root() {
    let mut handler = PathHandler::new("/var/ftp");
    change(&mut handler, "dir1/deep").unwrap();
    let shown = handler.get_pwd();
    assert_eq!(shown, "/dir1/deep");
    let fresh = PathHandler::new("/var/ftp");
    assert_eq!(fresh.non_canonicalized_path(&shown).unwrap(), handler.pwd());
    let at_root = PathHandler::new("/var/ftp");
    assert_eq!(
        at_root.non_canonicalized_path(&at_root.get_pwd()).unwrap(),
        at_root.pwd()
    );
}

#[test]
fn disk_gives_the_canonical_form() {
    let mut handler = PathHandler::new("/");
    assert_eq!(handler.to_server_path_on_disk("./.").unwrap(), "/");
    handler.cd_on_disk(".").unwrap();
    assert_eq!(handler.pwd(), "/");
}

#[test]
fn disk_refuses_what_does_not_exist() {
    let mut handler = PathHandler::new("/");
    let out = handler.cd_on_disk("no-such-directory-4f1c/below");
    assert!(matches!(out, Err(PathError::Filesystem(_))));
    assert_eq!(handler.pwd(), "/");
    assert_eq!(handler.to_server_path_on_disk("..").unwrap(), "/");
    assert_eq!(
        handler.non_canonicalized_path("..").unwrap_err(),
        PathError::Traversal
    );
}
