use ftp_server::message::Reply;
use ftp_server::session::{Action, Event, Listener, Session, Step, Transfer};

type Machine = Session<u32, u32>;

fn reply_of(step: Step<u32, u32>) -> Reply {
    match step {
        Step::Reply(reply) => reply,
        other => panic!("expected a reply, got {:?}", other),
    }
}

fn action_of(step: Step<u32, u32>) -> Action<u32, u32> {
    match step {
        Step::Perform(action) => action,
        other => panic!("expected an action, got {:?}", other),
    }
}

fn says(step: Step<u32, u32>, code: &str, text: &str) {
    let reply = reply_of(step);
    assert_eq!(reply.code, code);
    assert_eq!(reply.text, text);
}

fn logged_in(root: &str) -> Machine {
    let mut session = Machine::new(root);
    says(session.process("USER a\r\n"), "331", "user name ok. need password.");
    says(session.process("PASS b\r\n"), "230", "logged in.");
    session
}

fn listener(handle: u32, port: u16) -> Listener<u32> {
    Listener { handle, h1: 127, h2: 0, h3: 0, h4: 1, port }
}

/// Sends `line`, expects the session to ask for the canonical form of
/// `joined`, and answers with `answer`.
fn resolve(
    session: &mut Machine,
    line: &str,
    joined: &str,
    answer: Result<&str, &str>,
) -> Step<u32, u32> {
    let asked = action_of(session.process(line));
    assert_eq!(asked, Action::Canonicalize { path: String::from(joined) });
    assert!(!session.is_idle());
    session.resume(Event::Canonical(
        answer.map(String::from).map_err(String::from),
    ))
}

fn passive(session: &mut Machine, handle: u32, port: u16) -> Reply {
    assert_eq!(action_of(session.process("PASV\r\n")), Action::Bind);
    reply_of(session.resume(Event::Bound(Ok(listener(handle, port)))))
}

#[test]
fn greeting_and_failure_replies() {
    assert_eq!(Machine::greeting().render(), "220 Service ready for new user\r\n");
    assert_eq!(Machine::failure().render(), "451 Connection aborted\r\n");
}

#[test]
fn new_session_is_empty() {
    let session = Machine::new("/srv/ftp");
    assert!(!session.is_logged());
    assert!(!session.has_pending_data());
    assert!(!session.has_rename_source());
    assert!(session.is_idle());
    assert_eq!(session.path_handler().pwd(), "/srv/ftp");
}

#[test]
fn login_then_walk_the_tree() {
    let mut session = Machine::new("/srv/ftp");
    says(session.process("USER a\r\n"), "331", "user name ok. need password.");
    says(session.process("PASS b\r\n"), "230", "logged in.");
    says(session.process("PWD\r\n"), "257", "/");
    let made = action_of(session.process("MKD sub\r\n"));
    assert_eq!(made, Action::MakeDir { path: String::from("/srv/ftp/sub") });
    says(session.resume(Event::Done(Ok(()))), "257", "directory created");
    let step = resolve(&mut session, "CWD sub\r\n", "/srv/ftp/sub", Ok("/srv/ftp/sub"));
    says(step, "250", "Changed directory to /sub");
    says(session.process("PWD\r\n"), "257", "/sub");
    let step = resolve(&mut session, "CWD ..\r\n", "/srv/ftp/sub/..", Ok("/srv/ftp"));
    says(step, "250", "Changed directory to /");
    says(session.process("PWD\r\n"), "257", "/");
}

#[test]
fn store_then_retrieve_over_passive_connections() {
    let mut session = logged_in("/srv/ftp");
    let reply = passive(&mut session, 1, 2000);
    assert_eq!(reply.code, "227");
    assert_eq!(reply.text, "Entering Passive Mode (127,0,0,1,7,208)");
    assert!(session.has_pending_data());

    let accept = action_of(session.process("STOR f.txt\r\n"));
    assert_eq!(accept, Action::Accept { listener: 1 });
    assert!(!session.has_pending_data());
    match action_of(session.resume(Event::Accepted(Ok(11)))) {
        Action::Transfer { ready, kind, path, socket } => {
            assert_eq!(ready.render(), "150 Opening Data Connection\r\n");
            assert_eq!(kind, Transfer::Store);
            assert_eq!(path, "/srv/ftp/f.txt");
            assert_eq!(socket, 11);
        }
        other => panic!("expected a transfer, got {:?}", other),
    }
    says(session.resume(Event::Done(Ok(()))), "226", "Transfer complete");

    assert_eq!(passive(&mut session, 2, 2001).code, "227");
    let asked = action_of(session.process("RETR f.txt\r\n"));
    assert_eq!(asked, Action::Canonicalize { path: String::from("/srv/ftp/f.txt") });
    let probe = action_of(session.resume(Event::Canonical(Ok(String::from("/srv/ftp/f.txt")))));
    assert_eq!(probe, Action::IsFile { path: String::from("/srv/ftp/f.txt") });
    let accept = action_of(session.resume(Event::Flag(true)));
    assert_eq!(accept, Action::Accept { listener: 2 });
    match action_of(session.resume(Event::Accepted(Ok(12)))) {
        Action::Transfer { ready, kind, path, socket } => {
            assert_eq!(ready.code, "150");
            assert_eq!(kind, Transfer::Retrieve);
            assert_eq!(path, "/srv/ftp/f.txt");
            assert_eq!(socket, 12);
        }
        other => panic!("expected a transfer, got {:?}", other),
    }
    says(session.resume(Event::Done(Ok(()))), "226", "Transfer complete");
    assert!(session.is_idle());
}

#[test]
fn escaping_cwd_is_refused_and_changes_nothing() {
    let mut session = logged_in("/srv/ftp");
    let step = resolve(&mut session, "CWD sub\r\n", "/srv/ftp/sub", Ok("/srv/ftp/sub"));
    says(step, "250", "Changed directory to /sub");
    let step = resolve(
        &mut session,
        "CWD ../../../etc\r\n",
        "/srv/ftp/sub/../../../etc",
        Ok("/etc"),
    );
    says(step, "550", "Path is outside of the root directory");
    assert_eq!(session.path_handler().pwd(), "/srv/ftp/sub");
    says(session.process("PWD\r\n"), "257", "/sub");
}

#[test]
fn cwd_through_a_link_out_of_the_root_is_refused() {
    let mut session = logged_in("/srv/ftp");
    let step = resolve(&mut session, "CWD link\r\n", "/srv/ftp/link", Ok("/etc"));
    says(step, "550", "Path is outside of the root directory");
    let step = resolve(&mut session, "CWD rel\r\n", "/srv/ftp/rel", Ok("srv/ftp/rel"));
    says(step, "550", "Path must be absolute");
    let step = resolve(
        &mut session,
        "CWD gone\r\n",
        "/srv/ftp/gone",
        Err("No such file or directory (os error 2)"),
    );
    says(step, "550", "No such file or directory (os error 2)");
    says(session.process("PWD\r\n"), "257", "/");
}

#[test]
fn cwd_needs_a_path() {
    let mut session = logged_in("/srv/ftp");
    says(session.process("CWD\r\n"), "550", "No path given");
    says(session.process("CWD \r\n"), "550", "No path given");
}

#[test]
fn pwd_twice_gives_the_same_reply() {
    let mut session = logged_in("/srv/ftp");
    let step = resolve(&mut session, "CWD a\r\n", "/srv/ftp/a", Ok("/srv/ftp/a"));
    says(step, "250", "Changed directory to /a");
    let first = reply_of(session.process("PWD\r\n"));
    let second = reply_of(session.process("XPWD\r\n"));
    assert_eq!(first, second);
    assert_eq!(first.render(), "257 /a\r\n");
}

#[test]
fn pwd_needs_no_login() {
    let mut session = Machine::new("/srv/ftp");
    says(session.process("PWD\r\n"), "257", "/");
}

#[test]
fn commands_that_need_a_login_reply_530() {
    let lines = [
        "CWD a", "PASV", "PORT 127,0,0,1,7,208", "TYPE A", "LIST", "NLST", "RETR a", "STOR a",
        "DELE a", "RMD a", "MKD a", "RNFR a", "RNTO a",
    ];
    for line in lines {
        let mut session = Machine::new("/srv/ftp");
        says(session.process(line), "530", "Not logged in");
        assert!(session.is_idle());
        assert!(!session.has_pending_data());
        assert!(!session.has_rename_source());
    }
}

#[test]
fn commands_without_state() {
    let mut session = Machine::new("/srv/ftp");
    says(session.process("ACCT x\r\n"), "500", "Unsupported command");
    says(session.process("NOOP\r\n"), "200", "NOOP");
    says(session.process("SYST\r\n"), "502", "CommandNotImplemented");
    says(session.process("STRU F\r\n"), "200", "Structure set to File.");
    says(session.process("STRU R\r\n"), "504", "not supported");
    says(session.process("STRU P\r\n"), "504", "not supported");
    says(session.process("STRU f\r\n"), "501", "SyntaxErrorParameters");
    says(session.process("OPTS UTF8 ON\r\n"), "200", "UTF8 mode enabled");
    says(session.process("OPTS utf8 on\r\n"), "501", "Unsupported OPTS command");
    assert!(!session.is_logged());
}

#[test]
fn pass_logs_in_without_user() {
    let mut session = Machine::new("/srv/ftp");
    says(session.process("PASS x\r\n"), "230", "logged in.");
    assert!(session.is_logged());
}

#[test]
fn type_takes_a_and_i_in_any_case() {
    let mut session = logged_in("/srv/ftp");
    says(session.process("TYPE A\r\n"), "200", "Switching to ASCII mode");
    says(session.process("TYPE i\r\n"), "200", "Switching to Binary mode");
    says(session.process("TYPE E\r\n"), "550", "Unsupported type");
    says(session.process("TYPE\r\n"), "550", "Unsupported type");
}

#[test]
fn quit_closes_the_session() {
    let mut session = Machine::new("/srv/ftp");
    match session.process("quit\r\n") {
        Step::Close(reply) => assert_eq!(reply.render(), "221 Connection shutting down\r\n"),
        other => panic!("expected the end, got {:?}", other),
    }
}

#[test]
fn later_of_pasv_and_port_is_the_pending_mode() {
    let mut session = logged_in("/srv/ftp");
    assert_eq!(passive(&mut session, 1, 2000).code, "227");
    let connect = action_of(session.process("PORT 127,0,0,1,7,209\r\n"));
    assert_eq!(connect, Action::Connect { host: String::from("127.0.0.1"), port: 2001 });
    says(session.resume(Event::Connected(Ok(21))), "200", "PORT command successful");
    match action_of(session.process("STOR a\r\n")) {
        Action::Transfer { socket, kind, .. } => {
            assert_eq!(socket, 21);
            assert_eq!(kind, Transfer::Store);
        }
        other => panic!("expected a transfer, got {:?}", other),
    }
    says(session.resume(Event::Done(Ok(()))), "226", "Transfer complete");

    let connect = action_of(session.process("PORT 127,0,0,1,7,209\r\n"));
    assert_eq!(connect, Action::Connect { host: String::from("127.0.0.1"), port: 2001 });
    says(session.resume(Event::Connected(Ok(22))), "200", "PORT command successful");
    assert_eq!(passive(&mut session, 2, 2002).code, "227");
    assert_eq!(action_of(session.process("STOR a\r\n")), Action::Accept { listener: 2 });
}

#[test]
fn second_transfer_finds_no_data_connection() {
    let mut session = logged_in("/srv/ftp");
    assert_eq!(passive(&mut session, 1, 2000).code, "227");
    assert_eq!(action_of(session.process("STOR a\r\n")), Action::Accept { listener: 1 });
    assert!(matches!(
        session.resume(Event::Accepted(Ok(5))),
        Step::Perform(Action::Transfer { .. })
    ));
    says(session.resume(Event::Done(Ok(()))), "226", "Transfer complete");
    says(session.process("STOR b\r\n"), "425", "Failed to open data connection");
    let step = resolve(&mut session, "NLST\r\n", "/srv/ftp", Ok("/srv/ftp"));
    says(step, "425", "Failed to open data connection");
}

#[test]
fn transfer_without_pasv_or_port_replies_425() {
    let mut session = logged_in("/srv/ftp");
    says(session.process("STOR a\r\n"), "425", "Failed to open data connection");
    let step = resolve(&mut session, "LIST\r\n", "/srv/ftp", Ok("/srv/ftp"));
    says(step, "425", "Failed to open data connection");
}

#[test]
fn listings_resolve_then_transfer() {
    let mut session = logged_in("/srv/ftp");
    assert_eq!(passive(&mut session, 1, 2000).code, "227");
    let step = resolve(&mut session, "NLST docs\r\n", "/srv/ftp/docs", Ok("/srv/ftp/docs"));
    assert_eq!(action_of(step), Action::Accept { listener: 1 });
    match action_of(session.resume(Event::Accepted(Ok(3)))) {
        Action::Transfer { kind, path, .. } => {
            assert_eq!(kind, Transfer::Names);
            assert_eq!(path, "/srv/ftp/docs");
        }
        other => panic!("expected a transfer, got {:?}", other),
    }
    says(session.resume(Event::Done(Ok(()))), "226", "Transfer complete");
    let connect = action_of(session.process("PORT 10,0,0,2,4,1\r\n"));
    assert_eq!(connect, Action::Connect { host: String::from("10.0.0.2"), port: 1025 });
    says(session.resume(Event::Connected(Ok(4))), "200", "PORT command successful");
    let step = resolve(&mut session, "LIST\r\n", "/srv/ftp", Ok("/srv/ftp"));
    match action_of(step) {
        Action::Transfer { kind, path, socket, .. } => {
            assert_eq!(kind, Transfer::List);
            assert_eq!(path, "/srv/ftp");
            assert_eq!(socket, 4);
        }
        other => panic!("expected a transfer, got {:?}", other),
    }
}

#[test]
fn failed_transfer_still_completes_then_aborts() {
    let mut session = logged_in("/srv/ftp");
    let _ = session.process("PORT 127,0,0,1,7,209\r\n");
    let _ = session.resume(Event::Connected(Ok(21)));
    let _ = session.process("STOR a\r\n");
    match session.resume(Event::Done(Err(String::from("disk full")))) {
        Step::Abort { complete, failure } => {
            assert_eq!(complete.render(), "226 Transfer complete\r\n");
            assert_eq!(failure.render(), "451 Connection aborted\r\n");
        }
        other => panic!("expected an abort, got {:?}", other),
    }
}

#[test]
fn data_connection_failures_reply_425() {
    let mut session = logged_in("/srv/ftp");
    assert_eq!(action_of(session.process("PASV\r\n")), Action::Bind);
    says(
        session.resume(Event::Bound(Err(String::from("address in use")))),
        "425",
        "address in use",
    );
    assert!(!session.has_pending_data());
    let _ = session.process("PORT 127,0,0,1,7,209\r\n");
    says(
        session.resume(Event::Connected(Err(String::from("connection refused")))),
        "425",
        "connection refused",
    );
    assert!(!session.has_pending_data());
    assert_eq!(passive(&mut session, 1, 2000).code, "227");
    let _ = session.process("STOR a\r\n");
    says(
        session.resume(Event::Accepted(Err(String::from("timed out")))),
        "425",
        "timed out",
    );
    assert!(!session.has_pending_data());
}

#[test]
fn malformed_port_is_a_syntax_error() {
    let mut session = logged_in("/srv/ftp");
    says(session.process("PORT 127,0,0,1,7\r\n"), "501", "Invalid PORT command");
    says(session.process("PORT\r\n"), "501", "Invalid PORT command");
    assert!(!session.has_pending_data());
    assert!(session.is_idle());
}

#[test]
fn retr_needs_a_regular_file() {
    let mut session = logged_in("/srv/ftp");
    let step = resolve(&mut session, "RETR docs\r\n", "/srv/ftp/docs", Ok("/srv/ftp/docs"));
    assert_eq!(action_of(step), Action::IsFile { path: String::from("/srv/ftp/docs") });
    says(session.resume(Event::Flag(false)), "550", "Not a file");
    let step = resolve(&mut session, "RETR gone\r\n", "/srv/ftp/gone", Err("not found"));
    says(step, "550", "not found");
}

#[test]
fn dele_removes_a_file() {
    let mut session = logged_in("/srv/ftp");
    let step = resolve(&mut session, "DELE a.txt\r\n", "/srv/ftp/a.txt", Ok("/srv/ftp/a.txt"));
    assert_eq!(action_of(step), Action::RemoveFile { path: String::from("/srv/ftp/a.txt") });
    says(session.resume(Event::Done(Ok(()))), "250", "deleted");
    let step = resolve(&mut session, "DELE d\r\n", "/srv/ftp/d", Ok("/srv/ftp/d"));
    assert_eq!(action_of(step), Action::RemoveFile { path: String::from("/srv/ftp/d") });
    says(
        session.resume(Event::Done(Err(String::from("Is a directory")))),
        "550",
        "Is a directory",
    );
}

#[test]
fn rmd_needs_a_directory() {
    let mut session = logged_in("/srv/ftp");
    let step = resolve(&mut session, "RMD d\r\n", "/srv/ftp/d", Ok("/srv/ftp/d"));
    assert_eq!(action_of(step), Action::IsDir { path: String::from("/srv/ftp/d") });
    let step = session.resume(Event::Flag(true));
    assert_eq!(action_of(step), Action::RemoveDir { path: String::from("/srv/ftp/d") });
    says(session.resume(Event::Done(Ok(()))), "250", "deleted");
    let step = resolve(&mut session, "RMD f\r\n", "/srv/ftp/f", Ok("/srv/ftp/f"));
    assert_eq!(action_of(step), Action::IsDir { path: String::from("/srv/ftp/f") });
    says(session.resume(Event::Flag(false)), "550", "Not a directory");
}

#[test]
fn mkd_reports_the_filesystem_error() {
    let mut session = logged_in("/srv/ftp");
    let step = session.process("MKD d\r\n");
    assert_eq!(action_of(step), Action::MakeDir { path: String::from("/srv/ftp/d") });
    says(session.resume(Event::Done(Err(String::from("File exists")))), "550", "File exists");
    says(
        session.process("MKD ../d\r\n"),
        "550",
        "Path leads above the root directory",
    );
}

#[test]
fn rnto_without_rnfr_replies_503() {
    let mut session = logged_in("/srv/ftp");
    says(session.process("RNTO b\r\n"), "503", "Please specify target file first");
}

#[test]
fn rename_takes_rnfr_then_rnto() {
    let mut session = logged_in("/srv/ftp");
    let step = resolve(&mut session, "RNFR a.txt\r\n", "/srv/ftp/a.txt", Ok("/srv/ftp/a.txt"));
    says(step, "350", "Enter target name");
    assert!(session.has_rename_source());
    let inspect = action_of(session.process("RNTO b.txt\r\n"));
    assert_eq!(
        inspect,
        Action::Inspect {
            from: String::from("/srv/ftp/a.txt"),
            to: String::from("/srv/ftp/b.txt"),
        }
    );
    assert!(!session.has_rename_source());
    let rename = action_of(session.resume(Event::Kinds { from_is_dir: false, to_is_dir: false }));
    assert_eq!(
        rename,
        Action::Rename {
            from: String::from("/srv/ftp/a.txt"),
            to: String::from("/srv/ftp/b.txt"),
        }
    );
    says(session.resume(Event::Done(Ok(()))), "250", "Ok");
    says(session.process("RNTO c.txt\r\n"), "503", "Please specify target file first");
}

#[test]
fn file_renamed_onto_a_directory_keeps_its_name() {
    let mut session = logged_in("/srv/ftp");
    let step = resolve(&mut session, "RNFR a.txt\r\n", "/srv/ftp/a.txt", Ok("/srv/ftp/a.txt"));
    says(step, "350", "Enter target name");
    let _ = session.process("RNTO docs\r\n");
    let rename = action_of(session.resume(Event::Kinds { from_is_dir: false, to_is_dir: true }));
    assert_eq!(
        rename,
        Action::Rename {
            from: String::from("/srv/ftp/a.txt"),
            to: String::from("/srv/ftp/docs/a.txt"),
        }
    );
    says(
        session.resume(Event::Done(Err(String::from("Permission denied")))),
        "550",
        "Permission denied",
    );
}

#[test]
fn rnfr_of_what_is_absent_records_nothing() {
    let mut session = logged_in("/srv/ftp");
    let step = resolve(&mut session, "RNFR gone\r\n", "/srv/ftp/gone", Err("No such file"));
    says(step, "550", "No such file");
    assert!(!session.has_rename_source());
    says(session.process("RNTO b\r\n"), "503", "Please specify target file first");
}

#[test]
fn refused_rnto_clears_the_source() {
    let mut session = logged_in("/srv/ftp");
    let step = resolve(&mut session, "RNFR a\r\n", "/srv/ftp/a", Ok("/srv/ftp/a"));
    says(step, "350", "Enter target name");
    says(
        session.process("RNTO ../b\r\n"),
        "550",
        "Path leads above the root directory",
    );
    assert!(!session.has_rename_source());
    says(session.process("RNTO b\r\n"), "503", "Please specify target file first");
}

#[test]
fn wrong_event_ends_the_session() {
    let mut session = logged_in("/srv/ftp");
    match session.resume(Event::Flag(true)) {
        Step::Close(reply) => assert_eq!(reply.render(), "451 Connection aborted\r\n"),
        other => panic!("expected the end, got {:?}", other),
    }
    assert_eq!(action_of(session.process("PASV\r\n")), Action::Bind);
    assert!(matches!(session.resume(Event::Done(Ok(()))), Step::Close(_)));
    assert!(session.is_idle());
}

#[test]
fn canonicalize_on_disk_answers_the_session() {
    let mut session = logged_in("/");
    let asked = action_of(session.process("CWD .\r\n"));
    assert_eq!(asked, Action::Canonicalize { path: String::from("/.") });
    says(session.resume_from_disk(), "250", "Changed directory to /");
    let asked = action_of(session.process("CWD no-such-directory-4f1c\r\n"));
    assert_eq!(
        asked,
        Action::Canonicalize { path: String::from("/no-such-directory-4f1c") }
    );
    let reply = reply_of(session.resume_from_disk());
    assert_eq!(reply.code, "550");
    assert_eq!(session.path_handler().pwd(), "/");
    match session.resume_from_disk() {
        Step::Close(reply) => assert_eq!(reply.code, "451"),
        other => panic!("expected the end, got {:?}", other),
    }
}

#[test]
fn cwd_out_and_back_into_the_root_is_accepted() {
    let mut session = logged_in("/srv/ftp");
    let step = resolve(
        &mut session,
        "CWD ../ftp/sub\r\n",
        "/srv/ftp/../ftp/sub",
        Ok("/srv/ftp/sub"),
    );
    says(step, "250", "Changed directory to /sub");
    let step = resolve(&mut session, "CWD ..\r\n", "/srv/ftp/sub/..", Ok("/srv/ftp"));
    says(step, "250", "Changed directory to /");
    let step = resolve(&mut session, "CWD ..\r\n", "/srv/ftp/..", Ok("/srv"));
    says(step, "550", "Path is outside of the root directory");
    assert_eq!(session.path_handler().pwd(), "/srv/ftp");
}

#[test]
fn commands_on_what_exists_go_by_the_canonical_path() {
    let mut session = logged_in("/srv/ftp");
    let step = resolve(&mut session, "DELE ../x\r\n", "/srv/ftp/../x", Ok("/srv/x"));
    says(step, "550", "Path is outside of the root directory");
    let step = resolve(&mut session, "RNFR ../ftp/a\r\n", "/srv/ftp/../ftp/a", Ok("/srv/ftp/a"));
    says(step, "350", "Enter target name");
    says(
        session.process("STOR ../x\r\n"),
        "550",
        "Path leads above the root directory",
    );
}
