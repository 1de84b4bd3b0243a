//! The session: one control connection's state and the decisions it takes.
//!
//! The session owns no socket. `process` takes a command line and `resume`
//! takes the outcome of work done outside; each returns the next `Step`: a
//! reply to send, or an `Action` for the caller to perform and report back.

use vstd::prelude::*;
use vstd::string::StringExecFns;
use crate::address::{
    field_value, format_passive, host_of, parse_port, passive_text, port_of, split,
};
use crate::command::{
    args_text, is_word, parse_command, parse_type, representation_named, uppercased, verb_named,
    verb_text, Representation, Verb,
};
use crate::listing::{rename_target, rename_target_path};
use crate::message::{
    Reply, ACTION_ABORTED_LOCAL_ERROR, ACTION_NOT_TAKEN, CLOSING_DATA_CONNECTION,
    COMMANDS_BAD_SEQUENCE, COMMAND_NOT_IMPLEMENTED, COMMAND_NOT_IMPLEMENTED_FOR_PARAMETER,
    COMMAND_OK, ENTERING_PASSIVE_MODE, ERROR_OPENING_DATA_CONNECTION,
    FILE_ACTION_COMPLETED, FILE_ACTION_NEEDS_FURTHER_INFO,
    FILE_STATUS_OK_OPENING_DATA_CONNECTION, NOT_LOGGED_IN, PATHNAME_CREATED,
    SERVICE_CLOSING_CONTROL_CONNECTION, SERVICE_READY_FOR_NEW_USER,
    SYNTAX_ERROR_PARAMETERS, SYNTAX_ERROR_UNRECOGNIZED_COMMAND, USER_LOGGED_IN, USER_NAME_OK,
};
use crate::path::{
    canonicalize, checked_path, is_absolute, joined_path, shown_path, stays_below, within,
    PathError, PathHandler,
};

verus! {

/// The data connection that the next transfer will use: none, a listener
/// that the client will connect to, or a socket already connected to the
/// client. `L` and `S` are the caller's listener and socket.
#[derive(Debug, PartialEq, Eq)]
pub enum PendingData<L, S> {
    Idle,
    Listening(L),
    Connected(S),
}

/// What a transfer moves over the data connection.
#[derive(Debug, Clone, Copy, PartialEq, Eq, Structural)]
pub enum Transfer {
    /// The name listing of a directory.
    Names,
    /// The long listing of a directory.
    List,
    /// A file, to the client.
    Retrieve,
    /// A file, from the client.
    Store,
}

/// A listener that was opened for passive mode, and where it listens.
#[derive(Debug, PartialEq, Eq)]
pub struct Listener<L> {
    pub handle: L,
    pub h1: u8,
    pub h2: u8,
    pub h3: u8,
    pub h4: u8,
    pub port: u16,
}

/// Work that the session asks of its caller. Each is answered by the
/// `Event` named with it.
#[derive(Debug, PartialEq, Eq)]
pub enum Action<L, S> {
    /// Ask the filesystem for the canonical form of `path`: `Canonical`.
    Canonicalize { path: String },
    /// Is `path` a regular file: `Flag`.
    IsFile { path: String },
    /// Is `path` a directory: `Flag`.
    IsDir { path: String },
    /// Are `from` and `to` directories: `Kinds`.
    Inspect { from: String, to: String },
    /// Remove the file `path`: `Done`.
    RemoveFile { path: String },
    /// Remove the directory `path` and all below it: `Done`.
    RemoveDir { path: String },
    /// Create the directory `path`: `Done`.
    MakeDir { path: String },
    /// Rename `from` to `to`: `Done`.
    Rename { from: String, to: String },
    /// Open a listener on the control connection's local address, on a port
    /// that the system picks: `Bound`.
    Bind,
    /// Connect to `host` at `port`: `Connected`.
    Connect { host: String, port: u16 },
    /// Accept one connection from `listener`: `Accepted`.
    Accept { listener: L },
    /// Send `ready`, then move `kind` for `path` over `socket` and close
    /// it: `Done`.
    Transfer { ready: Reply, kind: Transfer, path: String, socket: S },
}

/// The outcome of an `Action`. An error carries the system's message.
#[derive(Debug, PartialEq, Eq)]
pub enum Event<L, S> {
    Canonical(Result<String, String>),
    Flag(bool),
    Kinds { from_is_dir: bool, to_is_dir: bool },
    Done(Result<(), String>),
    Bound(Result<Listener<L>, String>),
    Connected(Result<S, String>),
    Accepted(Result<S, String>),
}

/// What the caller does next.
#[derive(Debug, PartialEq, Eq)]
pub enum Step<L, S> {
    /// Send the reply; the command is done.
    Reply(Reply),
    /// Send the reply and end the session.
    Close(Reply),
    /// Perform the action and call `resume` with its outcome.
    Perform(Action<L, S>),
    /// Send `complete`, then `failure` as far as the connection allows, and
    /// end the session.
    Abort { complete: Reply, failure: Reply },
}

/// What the session is waiting for.
#[derive(Debug, PartialEq, Eq)]
pub enum Stage {
    /// A command line.
    Idle,
    /// The canonical form of `path`, for `verb`.
    Resolving { verb: Verb, path: String },
    /// Whether `path` is what `verb` needs.
    Probing { verb: Verb, path: String },
    /// What the two ends of a rename are.
    Inspecting { from: String, to: String },
    /// The outcome of the filesystem work of `verb`.
    Finishing { verb: Verb },
    /// The listener of passive mode.
    Binding,
    /// The connection of active mode.
    Connecting,
    /// The client's connection to the listener.
    Accepting { kind: Transfer, path: String },
    /// The end of a transfer.
    Transferring,
}

impl<L, S> Step<L, S> {
    /// The step is the reply with this code and text.
    pub open spec fn replies(self, code: &str, text: Seq<char>) -> bool {
        self matches Step::Reply(r) && r.says(code, text)
    }
}

/// One control connection's state.
pub struct Session<L, S> {
    logged: bool,
    path_handler: PathHandler,
    data: PendingData<L, S>,
    rename_from_path: Option<String>,
    stage: Stage,
}

impl<L, S> Session<L, S> {
    /// Whether the client has logged in.
    pub closed spec fn logged(&self) -> bool {
        self.logged
    }

    /// The root directory.
    pub closed spec fn root(&self) -> Seq<char> {
        self.path_handler.root()
    }

    /// The working directory, as a server path.
    pub closed spec fn cwd(&self) -> Seq<char> {
        self.path_handler.cwd()
    }

    /// The data connection waiting for the next transfer.
    pub closed spec fn data(&self) -> PendingData<L, S> {
        self.data
    }

    /// The source of a rename that was begun.
    pub closed spec fn renaming(&self) -> Option<Seq<char>> {
        match self.rename_from_path {
            Some(p) => Some(p@),
            None => None,
        }
    }

    /// What the session is waiting for.
    pub closed spec fn stage(&self) -> Stage {
        self.stage
    }

    /// The working directory is within the root.
    pub open spec fn wf(&self) -> bool {
        within(self.root(), self.cwd())
    }

    /// `post` differs from `pre` at most in what it is waiting for.
    pub open spec fn unchanged(pre: Self, post: Self) -> bool {
        &&& post.logged() == pre.logged()
        &&& post.root() == pre.root()
        &&& post.cwd() == pre.cwd()
        &&& post.data() == pre.data()
        &&& post.renaming() == pre.renaming()
    }

    /// The command ended with this reply and changed nothing.
    pub open spec fn answered(
        pre: Self,
        post: Self,
        step: Step<L, S>,
        code: &str,
        text: Seq<char>,
    ) -> bool {
        &&& step.replies(code, text)
        &&& post.stage() is Idle
        &&& Self::unchanged(pre, post)
    }

    /// A session at `root`: not logged in, with no data connection and no
    /// rename begun, waiting for a command.
    pub fn new(root: &str) -> (out: Self)
        ensures
            !out.logged(),
            out.root() == root@,
            out.cwd() == root@,
            out.data() is Idle,
            out.renaming() is None,
            out.stage() is Idle,
            out.wf(),
    {
        Session {
            logged: false,
            path_handler: PathHandler::new(root),
            data: PendingData::Idle,
            rename_from_path: None,
            stage: Stage::Idle,
        }
    }

    /// The reply that opens a session.
    pub fn greeting() -> (out: Reply)
        ensures
            out.says(SERVICE_READY_FOR_NEW_USER, "Service ready for new user"@),
    {
        Reply::new(SERVICE_READY_FOR_NEW_USER, "Service ready for new user")
    }

    /// The reply that is tried last when the control connection fails.
    pub fn failure() -> (out: Reply)
        ensures
            out.says(ACTION_ABORTED_LOCAL_ERROR, "Connection aborted"@),
    {
        Reply::new(ACTION_ABORTED_LOCAL_ERROR, "Connection aborted")
    }

    /// Whether the client has logged in.
    pub fn is_logged(&self) -> (b: bool)
        ensures
            b == self.logged(),
    {
        self.logged
    }

    /// The session's paths.
    pub fn path_handler(&self) -> (out: &PathHandler)
        ensures
            out.root() == self.root(),
            out.cwd() == self.cwd(),
    {
        &self.path_handler
    }

    /// Whether a data connection waits for the next transfer.
    pub fn has_pending_data(&self) -> (b: bool)
        ensures
            b == !(self.data() is Idle),
    {
        match &self.data {
            PendingData::Idle => false,
            _ => true,
        }
    }

    /// Whether a rename was begun.
    pub fn has_rename_source(&self) -> (b: bool)
        ensures
            b == self.renaming() is Some,
    {
        self.rename_from_path.is_some()
    }

    /// Whether the session waits for a command line.
    pub fn is_idle(&self) -> (b: bool)
        ensures
            b == self.stage() is Idle,
    {
        match &self.stage {
            Stage::Idle => true,
            _ => false,
        }
    }

    spec fn paths(&self) -> PathHandler {
        self.path_handler
    }

    /// A command that needs a login: without one it ends with 530 and
    /// changes nothing; with one, `inner` holds.
    pub open spec fn guarded(pre: Self, post: Self, step: Step<L, S>, inner: bool) -> bool {
        if pre.logged() {
            inner
        } else {
            Self::answered(pre, post, step, NOT_LOGGED_IN, "Not logged in"@)
        }
    }

    /// The session gave up on a caller that answered with the wrong event.
    pub open spec fn faulted(pre: Self, post: Self, step: Step<L, S>) -> bool {
        &&& (step matches Step::Close(r) && r.says(
            ACTION_ABORTED_LOCAL_ERROR,
            "Connection aborted"@,
        ))
        &&& post.stage() is Idle
        &&& Self::unchanged(pre, post)
    }

    /// The command asks for the canonical form of the path that `arg` is
    /// joined to, whether or not its components climb: what the filesystem
    /// answers decides.
    pub open spec fn asks_canonical(
        pre: Self,
        post: Self,
        step: Step<L, S>,
        verb: Verb,
        arg: Seq<char>,
    ) -> bool {
        let joined = joined_path(pre.root(), pre.cwd(), arg);
        &&& (step matches Step::Perform(Action::Canonicalize { path }) && path@ == joined)
        &&& (post.stage() matches Stage::Resolving { verb: v, path: p } && v == verb && p@
            == joined)
        &&& Self::unchanged(pre, post)
    }

    /// The command takes the waiting data connection, which leaves none
    /// waiting: without one it ends with 425; a connected socket starts the
    /// transfer of `kind` for `path`; a listener is to accept first.
    pub open spec fn opens_data(
        pre: Self,
        post: Self,
        step: Step<L, S>,
        kind: Transfer,
        path: Seq<char>,
    ) -> bool {
        &&& post.logged() == pre.logged()
        &&& post.root() == pre.root()
        &&& post.cwd() == pre.cwd()
        &&& post.renaming() == pre.renaming()
        &&& post.data() is Idle
        &&& match pre.data() {
            PendingData::Idle => {
                &&& step.replies(ERROR_OPENING_DATA_CONNECTION, "Failed to open data connection"@)
                &&& post.stage() is Idle
            },
            PendingData::Connected(s) => {
                &&& Self::starts_transfer(step, kind, path, s)
                &&& post.stage() is Transferring
            },
            PendingData::Listening(l) => {
                &&& (step matches Step::Perform(Action::Accept { listener }) && listener == l)
                &&& (post.stage() matches Stage::Accepting { kind: k, path: p } && k == kind
                    && p@ == path)
            },
        }
    }

    /// The step hands `socket` to the transfer of `kind` for `path`, after
    /// the reply 150.
    pub open spec fn starts_transfer(
        step: Step<L, S>,
        kind: Transfer,
        path: Seq<char>,
        socket: S,
    ) -> bool {
        step matches Step::Perform(Action::Transfer { ready, kind: k, path: p, socket: s })
            && ready.says(FILE_STATUS_OK_OPENING_DATA_CONNECTION, "Opening Data Connection"@) && k
            == kind && p@ == path && s == socket
    }

    /// The command hands the caller work on the filesystem for `verb`.
    pub open spec fn works(pre: Self, post: Self, verb: Verb) -> bool {
        &&& (post.stage() matches Stage::Finishing { verb: v } && v == verb)
        &&& Self::unchanged(pre, post)
    }

    /// The command asks whether `path` is what `verb` needs.
    pub open spec fn probes(pre: Self, post: Self, verb: Verb, path: Seq<char>) -> bool {
        &&& (post.stage() matches Stage::Probing { verb: v, path: p } && v == verb && p@ == path)
        &&& Self::unchanged(pre, post)
    }

    /// What each command does when its line arrives.
    pub open spec fn dispatched(
        pre: Self,
        post: Self,
        step: Step<L, S>,
        verb: Verb,
        args: Seq<char>,
    ) -> bool {
        let joined = joined_path(pre.root(), pre.cwd(), args);
        let refused = Self::answered(
            pre,
            post,
            step,
            ACTION_NOT_TAKEN,
            PathError::Traversal.text(),
        );
        match verb {
            Verb::User => Self::answered(
                pre,
                post,
                step,
                USER_NAME_OK,
                "user name ok. need password."@,
            ),
            Verb::Pass => {
                &&& step.replies(USER_LOGGED_IN, "logged in."@)
                &&& post.logged()
                &&& post.stage() is Idle
                &&& post.root() == pre.root()
                &&& post.cwd() == pre.cwd()
                &&& post.data() == pre.data()
                &&& post.renaming() == pre.renaming()
            },
            Verb::Acct => Self::answered(
                pre,
                post,
                step,
                SYNTAX_ERROR_UNRECOGNIZED_COMMAND,
                "Unsupported command"@,
            ),
            Verb::Cwd => Self::guarded(
                pre,
                post,
                step,
                if args.len() == 0 {
                    Self::answered(pre, post, step, ACTION_NOT_TAKEN, "No path given"@)
                } else {
                    Self::asks_canonical(pre, post, step, Verb::Cwd, args)
                },
            ),
            Verb::Pwd => Self::answered(
                pre,
                post,
                step,
                PATHNAME_CREATED,
                shown_path(pre.root(), pre.cwd()),
            ),
            Verb::Nlst | Verb::List | Verb::Retr | Verb::Dele | Verb::Rmd | Verb::Rnfr =>
            Self::guarded(
                pre,
                post,
                step,
                Self::asks_canonical(pre, post, step, verb, args),
            ),
            Verb::Pasv => Self::guarded(
                pre,
                post,
                step,
                ({
                    &&& step == Step::<L, S>::Perform(Action::Bind)
                    &&& post.stage() is Binding
                    &&& Self::unchanged(pre, post)
                }),
            ),
            Verb::Type => Self::guarded(
                pre,
                post,
                step,
                match representation_named(uppercased(args)) {
                    Some(Representation::Ascii) => Self::answered(
                        pre,
                        post,
                        step,
                        COMMAND_OK,
                        "Switching to ASCII mode"@,
                    ),
                    Some(Representation::Binary) => Self::answered(
                        pre,
                        post,
                        step,
                        COMMAND_OK,
                        "Switching to Binary mode"@,
                    ),
                    None => Self::answered(
                        pre,
                        post,
                        step,
                        ACTION_NOT_TAKEN,
                        "Unsupported type"@,
                    ),
                },
            ),
            Verb::Stor => Self::guarded(
                pre,
                post,
                step,
                if stays_below(pre.root(), joined) {
                    Self::opens_data(pre, post, step, Transfer::Store, joined)
                } else {
                    refused
                },
            ),
            Verb::Stru => if args == "F"@ {
                Self::answered(pre, post, step, COMMAND_OK, "Structure set to File."@)
            } else if args == "R"@ || args == "P"@ {
                Self::answered(
                    pre,
                    post,
                    step,
                    COMMAND_NOT_IMPLEMENTED_FOR_PARAMETER,
                    "not supported"@,
                )
            } else {
                Self::answered(pre, post, step, SYNTAX_ERROR_PARAMETERS, "SyntaxErrorParameters"@)
            },
            Verb::Mkd => Self::guarded(
                pre,
                post,
                step,
                if stays_below(pre.root(), joined) {
                    &&& (step matches Step::Perform(Action::MakeDir { path }) && path@ == joined)
                    &&& Self::works(pre, post, Verb::Mkd)
                } else {
                    refused
                },
            ),
            Verb::Rnto => Self::guarded(
                pre,
                post,
                step,
                ({
                    &&& post.logged() == pre.logged()
                    &&& post.root() == pre.root()
                    &&& post.cwd() == pre.cwd()
                    &&& post.data() == pre.data()
                    &&& post.renaming() is None
                    &&& match pre.renaming() {
                        None => {
                            &&& step.replies(
                                COMMANDS_BAD_SEQUENCE,
                                "Please specify target file first"@,
                            )
                            &&& post.stage() is Idle
                        },
                        Some(source) => if stays_below(pre.root(), joined) {
                            &&& (step matches Step::Perform(Action::Inspect { from, to })
                                && from@ == source && to@ == joined)
                            &&& (post.stage() matches Stage::Inspecting { from, to } && from@
                                == source && to@ == joined)
                        } else {
                            &&& step.replies(ACTION_NOT_TAKEN, PathError::Traversal.text())
                            &&& post.stage() is Idle
                        },
                    }
                }),
            ),
            Verb::Opts => if args == "UTF8 ON"@ {
                Self::answered(pre, post, step, COMMAND_OK, "UTF8 mode enabled"@)
            } else {
                Self::answered(
                    pre,
                    post,
                    step,
                    SYNTAX_ERROR_PARAMETERS,
                    "Unsupported OPTS command"@,
                )
            },
            Verb::Port => Self::guarded(
                pre,
                post,
                step,
                ({
                    let fields = split(args, ',');
                    if fields.len() != 6 {
                        Self::answered(
                            pre,
                            post,
                            step,
                            SYNTAX_ERROR_PARAMETERS,
                            "Invalid PORT command"@,
                        )
                    } else {
                        &&& (step matches Step::Perform(Action::Connect { host, port }) && host@
                            == host_of(fields) && port == port_of(
                            field_value(fields[4]),
                            field_value(fields[5]),
                        ))
                        &&& post.stage() is Connecting
                        &&& Self::unchanged(pre, post)
                    }
                }),
            ),
            Verb::Noop => Self::answered(pre, post, step, COMMAND_OK, "NOOP"@),
            Verb::Quit => {
                &&& (step matches Step::Close(r) && r.says(
                    SERVICE_CLOSING_CONTROL_CONNECTION,
                    "Connection shutting down"@,
                ))
                &&& post.stage() is Idle
                &&& Self::unchanged(pre, post)
            },
            Verb::Unknown => Self::answered(
                pre,
                post,
                step,
                COMMAND_NOT_IMPLEMENTED,
                "CommandNotImplemented"@,
            ),
        }
    }

    /// What the canonical form of a path leads to: an answer that
    /// `checked_path` refuses ends the command with 550 and the error's
    /// text; an accepted path is entered by CWD, recorded by RNFR and worked
    /// on by the others.
    pub open spec fn resolved(
        pre: Self,
        post: Self,
        step: Step<L, S>,
        verb: Verb,
        answer: Result<String, String>,
    ) -> bool {
        match checked_path(pre.root(), answer) {
            Err(e) => Self::answered(pre, post, step, ACTION_NOT_TAKEN, e.text()),
            Ok(p) => match verb {
                Verb::Cwd => {
                    &&& step.replies(
                        FILE_ACTION_COMPLETED,
                        "Changed directory to "@ + shown_path(pre.root(), p@),
                    )
                    &&& post.cwd() == p@
                    &&& post.root() == pre.root()
                    &&& post.logged() == pre.logged()
                    &&& post.data() == pre.data()
                    &&& post.renaming() == pre.renaming()
                    &&& post.stage() is Idle
                },
                Verb::Nlst => Self::opens_data(pre, post, step, Transfer::Names, p@),
                Verb::List => Self::opens_data(pre, post, step, Transfer::List, p@),
                Verb::Retr => {
                    &&& (step matches Step::Perform(Action::IsFile { path }) && path@ == p@)
                    &&& Self::probes(pre, post, Verb::Retr, p@)
                },
                Verb::Rmd => {
                    &&& (step matches Step::Perform(Action::IsDir { path }) && path@ == p@)
                    &&& Self::probes(pre, post, Verb::Rmd, p@)
                },
                Verb::Dele => {
                    &&& (step matches Step::Perform(Action::RemoveFile { path }) && path@ == p@)
                    &&& Self::works(pre, post, Verb::Dele)
                },
                Verb::Rnfr => {
                    &&& step.replies(FILE_ACTION_NEEDS_FURTHER_INFO, "Enter target name"@)
                    &&& post.renaming() == Some(p@)
                    &&& post.cwd() == pre.cwd()
                    &&& post.root() == pre.root()
                    &&& post.logged() == pre.logged()
                    &&& post.data() == pre.data()
                    &&& post.stage() is Idle
                },
                _ => Self::faulted(pre, post, step),
            },
        }
    }

    /// What the answer to a probe leads to: RETR needs a regular file and
    /// RMD a directory.
    pub open spec fn probed(
        pre: Self,
        post: Self,
        step: Step<L, S>,
        verb: Verb,
        path: Seq<char>,
        found: bool,
    ) -> bool {
        match verb {
            Verb::Retr => if found {
                Self::opens_data(pre, post, step, Transfer::Retrieve, path)
            } else {
                Self::answered(pre, post, step, ACTION_NOT_TAKEN, "Not a file"@)
            },
            Verb::Rmd => if found {
                &&& (step matches Step::Perform(Action::RemoveDir { path: p }) && p@ == path)
                &&& Self::works(pre, post, Verb::Rmd)
            } else {
                Self::answered(pre, post, step, ACTION_NOT_TAKEN, "Not a directory"@)
            },
            _ => Self::faulted(pre, post, step),
        }
    }

    /// The reply that ends the filesystem work of `verb`: the error's text
    /// with 550, or the verb's own success.
    pub open spec fn finished(
        pre: Self,
        post: Self,
        step: Step<L, S>,
        verb: Verb,
        outcome: Result<(), String>,
    ) -> bool {
        match outcome {
            Err(text) => Self::answered(pre, post, step, ACTION_NOT_TAKEN, text@),
            Ok(_) => match verb {
                Verb::Dele | Verb::Rmd => Self::answered(
                    pre,
                    post,
                    step,
                    FILE_ACTION_COMPLETED,
                    "deleted"@,
                ),
                Verb::Mkd => Self::answered(
                    pre,
                    post,
                    step,
                    PATHNAME_CREATED,
                    "directory created"@,
                ),
                Verb::Rnto => Self::answered(pre, post, step, FILE_ACTION_COMPLETED, "Ok"@),
                _ => Self::faulted(pre, post, step),
            },
        }
    }

    /// The data connection becomes `data`, whatever waited before, and the
    /// command ends with this reply.
    pub open spec fn armed(
        pre: Self,
        post: Self,
        step: Step<L, S>,
        data: PendingData<L, S>,
        code: &str,
        text: Seq<char>,
    ) -> bool {
        &&& step.replies(code, text)
        &&& post.data() == data
        &&& post.stage() is Idle
        &&& post.logged() == pre.logged()
        &&& post.root() == pre.root()
        &&& post.cwd() == pre.cwd()
        &&& post.renaming() == pre.renaming()
    }

    /// What `resume` does with each event, by what the session was waiting
    /// for. An event that does not answer what was asked ends the session.
    pub open spec fn resumed(pre: Self, event: Event<L, S>, post: Self, step: Step<L, S>) -> bool {
        match (pre.stage(), event) {
            (Stage::Resolving { verb, path }, Event::Canonical(answer)) => Self::resolved(
                pre,
                post,
                step,
                verb,
                answer,
            ),
            (Stage::Probing { verb, path }, Event::Flag(found)) => Self::probed(
                pre,
                post,
                step,
                verb,
                path@,
                found,
            ),
            (Stage::Inspecting { from, to }, Event::Kinds { from_is_dir, to_is_dir }) => {
                &&& (step matches Step::Perform(Action::Rename { from: f, to: t }) && f@ == from@
                    && t@ == rename_target_path(from@, to@, from_is_dir, to_is_dir))
                &&& Self::works(pre, post, Verb::Rnto)
            },
            (Stage::Finishing { verb }, Event::Done(outcome)) => Self::finished(
                pre,
                post,
                step,
                verb,
                outcome,
            ),
            (Stage::Binding, Event::Bound(outcome)) => match outcome {
                Ok(l) => Self::armed(
                    pre,
                    post,
                    step,
                    PendingData::Listening(l.handle),
                    ENTERING_PASSIVE_MODE,
                    passive_text(l.h1, l.h2, l.h3, l.h4, l.port),
                ),
                Err(text) => Self::answered(
                    pre,
                    post,
                    step,
                    ERROR_OPENING_DATA_CONNECTION,
                    text@,
                ),
            },
            (Stage::Connecting, Event::Connected(outcome)) => match outcome {
                Ok(socket) => Self::armed(
                    pre,
                    post,
                    step,
                    PendingData::Connected(socket),
                    COMMAND_OK,
                    "PORT command successful"@,
                ),
                Err(text) => Self::answered(
                    pre,
                    post,
                    step,
                    ERROR_OPENING_DATA_CONNECTION,
                    text@,
                ),
            },
            (Stage::Accepting { kind, path }, Event::Accepted(outcome)) => match outcome {
                Ok(socket) => {
                    &&& Self::starts_transfer(step, kind, path@, socket)
                    &&& post.stage() is Transferring
                    &&& Self::unchanged(pre, post)
                },
                Err(text) => Self::answered(
                    pre,
                    post,
                    step,
                    ERROR_OPENING_DATA_CONNECTION,
                    text@,
                ),
            },
            (Stage::Transferring, Event::Done(outcome)) => match outcome {
                Ok(_) => Self::answered(
                    pre,
                    post,
                    step,
                    CLOSING_DATA_CONNECTION,
                    "Transfer complete"@,
                ),
                Err(_) => {
                    &&& (step matches Step::Abort { complete, failure } && complete.says(
                        CLOSING_DATA_CONNECTION,
                        "Transfer complete"@,
                    ) && failure.says(ACTION_ABORTED_LOCAL_ERROR, "Connection aborted"@))
                    &&& post.stage() is Idle
                    &&& Self::unchanged(pre, post)
                },
            },
            _ => Self::faulted(pre, post, step),
        }
    }

    fn reply(&mut self, code: &'static str, text: &str) -> (out: Step<L, S>)
        ensures
            Self::answered(*old(self), *final(self), out, code, text@),
    {
        self.stage = Stage::Idle;
        Step::Reply(Reply::new(code, text))
    }

    /// The guard of every command that needs a login: without one the
    /// command ends here with 530.
    fn not_logged(&mut self) -> (out: Option<Step<L, S>>)
        ensures
            out is Some <==> !old(self).logged(),
            out matches Some(step) ==> Self::answered(
                *old(self),
                *final(self),
                step,
                NOT_LOGGED_IN,
                "Not logged in"@,
            ),
            out is None ==> *final(self) == *old(self),
    {
        if self.logged {
            None
        } else {
            Some(self.reply(NOT_LOGGED_IN, "Not logged in"))
        }
    }
    fn take_data(&mut self) -> (out: PendingData<L, S>)
        ensures
            out == old(self).data(),
            final(self).data() is Idle,
            final(self).logged() == old(self).logged(),
            final(self).paths() == old(self).paths(),
            final(self).renaming() == old(self).renaming(),
            final(self).stage() == old(self).stage(),
    {
        let mut taken = PendingData::Idle;
        core::mem::swap(&mut self.data, &mut taken);
        taken
    }

    fn take_stage(&mut self) -> (out: Stage)
        ensures
            out == old(self).stage(),
            final(self).stage() is Idle,
            final(self).logged() == old(self).logged(),
            final(self).paths() == old(self).paths(),
            final(self).data() == old(self).data(),
            final(self).renaming() == old(self).renaming(),
    {
        let mut taken = Stage::Idle;
        core::mem::swap(&mut self.stage, &mut taken);
        taken
    }

    /// The step that starts a transfer over `socket`.
    fn transfer(kind: Transfer, path: String, socket: S) -> (out: Step<L, S>)
        ensures
            Self::starts_transfer(out, kind, path@, socket),
    {
        let ready = Reply::new(FILE_STATUS_OK_OPENING_DATA_CONNECTION, "Opening Data Connection");
        Step::Perform(Action::Transfer { ready, kind, path, socket })
    }

    /// Takes the waiting data connection for a transfer.
    fn open_data(&mut self, kind: Transfer, path: String) -> (out: Step<L, S>)
        ensures
            Self::opens_data(*old(self), *final(self), out, kind, path@),
    {
        match self.take_data() {
            PendingData::Connected(socket) => {
                self.stage = Stage::Transferring;
                Self::transfer(kind, path, socket)
            },
            PendingData::Listening(listener) => {
                self.stage = Stage::Accepting { kind, path };
                Step::Perform(Action::Accept { listener })
            },
            PendingData::Idle => self.reply(
                ERROR_OPENING_DATA_CONNECTION,
                "Failed to open data connection",
            ),
        }
    }

    /// Begins a command on something that exists: asks for the canonical
    /// form of what `args` names.
    fn resolve(&mut self, verb: Verb, args: &str) -> (out: Step<L, S>)
        ensures
            Self::asks_canonical(*old(self), *final(self), out, verb, args@),
    {
        let path = self.path_handler.join_client_path(args);
        self.stage = Stage::Resolving { verb, path: path.clone() };
        Step::Perform(Action::Canonicalize { path })
    }

    fn user(&mut self, _args: &str) -> (out: Step<L, S>)
        ensures
            Self::dispatched(*old(self), *final(self), out, Verb::User, _args@),
    {
        self.reply(USER_NAME_OK, "user name ok. need password.")
    }

    fn pass(&mut self, _args: &str) -> (out: Step<L, S>)
        ensures
            Self::dispatched(*old(self), *final(self), out, Verb::Pass, _args@),
    {
        self.logged = true;
        self.reply(USER_LOGGED_IN, "logged in.")
    }

    fn acct(&mut self, _args: &str) -> (out: Step<L, S>)
        ensures
            Self::dispatched(*old(self), *final(self), out, Verb::Acct, _args@),
    {
        self.reply(SYNTAX_ERROR_UNRECOGNIZED_COMMAND, "Unsupported command")
    }

    fn cwd_command(&mut self, args: &str) -> (out: Step<L, S>)
        ensures
            Self::dispatched(*old(self), *final(self), out, Verb::Cwd, args@),
    {
        if let Some(step) = self.not_logged() {
            return step;
        }
        if args.unicode_len() == 0 {
            return self.reply(ACTION_NOT_TAKEN, "No path given");
        }
        self.resolve(Verb::Cwd, args)
    }

    fn pwd(&mut self, _args: &str) -> (out: Step<L, S>)
        ensures
            Self::dispatched(*old(self), *final(self), out, Verb::Pwd, _args@),
    {
        let pwd = self.path_handler.get_pwd();
        self.reply(PATHNAME_CREATED, pwd.as_str())
    }

    fn pasv(&mut self, _args: &str) -> (out: Step<L, S>)
        ensures
            Self::dispatched(*old(self), *final(self), out, Verb::Pasv, _args@),
    {
        if let Some(step) = self.not_logged() {
            return step;
        }
        self.stage = Stage::Binding;
        Step::Perform(Action::Bind)
    }

    /// NLST, LIST, RETR, DELE, RMD and RNFR all begin by resolving what
    /// their argument names.
    fn on_existing(&mut self, verb: Verb, args: &str) -> (out: Step<L, S>)
        requires
            verb == Verb::Nlst || verb == Verb::List || verb == Verb::Retr || verb == Verb::Dele
                || verb == Verb::Rmd || verb == Verb::Rnfr,
        ensures
            Self::dispatched(*old(self), *final(self), out, verb, args@),
    {
        if let Some(step) = self.not_logged() {
            return step;
        }
        self.resolve(verb, args)
    }

    fn set_type(&mut self, args: &str) -> (out: Step<L, S>)
        ensures
            Self::dispatched(*old(self), *final(self), out, Verb::Type, args@),
    {
        if let Some(step) = self.not_logged() {
            return step;
        }
        match parse_type(args) {
            Some(Representation::Ascii) => self.reply(COMMAND_OK, "Switching to ASCII mode"),
            Some(Representation::Binary) => self.reply(COMMAND_OK, "Switching to Binary mode"),
            None => self.reply(ACTION_NOT_TAKEN, "Unsupported type"),
        }
    }

    fn stor(&mut self, args: &str) -> (out: Step<L, S>)
        ensures
            Self::dispatched(*old(self), *final(self), out, Verb::Stor, args@),
    {
        if let Some(step) = self.not_logged() {
            return step;
        }
        match self.path_handler.non_canonicalized_path(args) {
            Ok(path) => self.open_data(Transfer::Store, path),
            Err(e) => self.reply(ACTION_NOT_TAKEN, e.message().as_str()),
        }
    }

    fn stru(&mut self, args: &str) -> (out: Step<L, S>)
        ensures
            Self::dispatched(*old(self), *final(self), out, Verb::Stru, args@),
    {
        if is_word(args, "F") {
            self.reply(COMMAND_OK, "Structure set to File.")
        } else if is_word(args, "R") || is_word(args, "P") {
            self.reply(COMMAND_NOT_IMPLEMENTED_FOR_PARAMETER, "not supported")
        } else {
            self.reply(SYNTAX_ERROR_PARAMETERS, "SyntaxErrorParameters")
        }
    }

    fn mkd(&mut self, args: &str) -> (out: Step<L, S>)
        ensures
            Self::dispatched(*old(self), *final(self), out, Verb::Mkd, args@),
    {
        if let Some(step) = self.not_logged() {
            return step;
        }
        match self.path_handler.non_canonicalized_path(args) {
            Ok(path) => {
                self.stage = Stage::Finishing { verb: Verb::Mkd };
                Step::Perform(Action::MakeDir { path })
            },
            Err(e) => self.reply(ACTION_NOT_TAKEN, e.message().as_str()),
        }
    }

    fn rnto(&mut self, args: &str) -> (out: Step<L, S>)
        ensures
            Self::dispatched(*old(self), *final(self), out, Verb::Rnto, args@),
    {
        if let Some(step) = self.not_logged() {
            return step;
        }
        let from = match self.rename_from_path.take() {
            Some(path) => path,
            None => {
                return self.reply(COMMANDS_BAD_SEQUENCE, "Please specify target file first");
            },
        };
        match self.path_handler.non_canonicalized_path(args) {
            Ok(to) => {
                self.stage = Stage::Inspecting { from: from.clone(), to: to.clone() };
                Step::Perform(Action::Inspect { from, to })
            },
            Err(e) => self.reply(ACTION_NOT_TAKEN, e.message().as_str()),
        }
    }

    fn opts(&mut self, args: &str) -> (out: Step<L, S>)
        ensures
            Self::dispatched(*old(self), *final(self), out, Verb::Opts, args@),
    {
        if is_word(args, "UTF8 ON") {
            self.reply(COMMAND_OK, "UTF8 mode enabled")
        } else {
            self.reply(SYNTAX_ERROR_PARAMETERS, "Unsupported OPTS command")
        }
    }

    fn port(&mut self, args: &str) -> (out: Step<L, S>)
        ensures
            Self::dispatched(*old(self), *final(self), out, Verb::Port, args@),
    {
        if let Some(step) = self.not_logged() {
            return step;
        }
        match parse_port(args) {
            Some(target) => {
                self.stage = Stage::Connecting;
                Step::Perform(Action::Connect { host: target.host, port: target.port })
            },
            None => self.reply(SYNTAX_ERROR_PARAMETERS, "Invalid PORT command"),
        }
    }

    fn quit(&mut self) -> (out: Step<L, S>)
        ensures
            Self::dispatched(*old(self), *final(self), out, Verb::Quit, Seq::empty()),
    {
        self.stage = Stage::Idle;
        Step::Close(Reply::new(SERVICE_CLOSING_CONTROL_CONNECTION, "Connection shutting down"))
    }

    /// Begins the command `verb` with the argument `args`.
    pub fn dispatch(&mut self, verb: Verb, args: &str) -> (out: Step<L, S>)
        ensures
            Self::dispatched(*old(self), *final(self), out, verb, args@),
            final(self).root() == old(self).root(),
            old(self).wf() ==> final(self).wf(),
    {
        match verb {
            Verb::User => self.user(args),
            Verb::Pass => self.pass(args),
            Verb::Acct => self.acct(args),
            Verb::Cwd => self.cwd_command(args),
            Verb::Pwd => self.pwd(args),
            Verb::Nlst => self.on_existing(Verb::Nlst, args),
            Verb::List => self.on_existing(Verb::List, args),
            Verb::Pasv => self.pasv(args),
            Verb::Retr => self.on_existing(Verb::Retr, args),
            Verb::Type => self.set_type(args),
            Verb::Stor => self.stor(args),
            Verb::Stru => self.stru(args),
            Verb::Dele => self.on_existing(Verb::Dele, args),
            Verb::Rmd => self.on_existing(Verb::Rmd, args),
            Verb::Mkd => self.mkd(args),
            Verb::Rnfr => self.on_existing(Verb::Rnfr, args),
            Verb::Rnto => self.rnto(args),
            Verb::Opts => self.opts(args),
            Verb::Port => self.port(args),
            Verb::Noop => self.reply(COMMAND_OK, "NOOP"),
            Verb::Quit => self.quit(),
            Verb::Unknown => self.reply(COMMAND_NOT_IMPLEMENTED, "CommandNotImplemented"),
        }
    }

    /// Takes one command line: the line is taken apart as `parse_command`
    /// does and the command begun as `dispatch` does.
    pub fn process(&mut self, line: &str) -> (out: Step<L, S>)
        ensures
            Self::dispatched(
                *old(self),
                *final(self),
                out,
                verb_named(uppercased(verb_text(line@))),
                args_text(line@),
            ),
            final(self).root() == old(self).root(),
            old(self).wf() ==> final(self).wf(),
    {
        let command = parse_command(line);
        self.dispatch(command.verb, command.args.as_str())
    }
    fn fault(&mut self) -> (out: Step<L, S>)
        ensures
            Self::faulted(*old(self), *final(self), out),
    {
        self.stage = Stage::Idle;
        Step::Close(Self::failure())
    }

    fn on_canonical(&mut self, verb: Verb, answer: Result<String, String>) -> (out: Step<L, S>)
        ensures
            Self::resolved(*old(self), *final(self), out, verb, answer),
            final(self).root() == old(self).root(),
            old(self).wf() ==> final(self).wf(),
    {
        if let Verb::Cwd = verb {
            return match self.path_handler.cd(answer) {
                Ok(()) => {
                    let text = "Changed directory to ".to_owned().concat(
                        self.path_handler.get_pwd().as_str(),
                    );
                    self.reply(FILE_ACTION_COMPLETED, text.as_str())
                },
                Err(e) => self.reply(ACTION_NOT_TAKEN, e.message().as_str()),
            };
        }
        let path = match self.path_handler.to_server_path(answer) {
            Ok(path) => path,
            Err(e) => {
                return self.reply(ACTION_NOT_TAKEN, e.message().as_str());
            },
        };
        match verb {
            Verb::Nlst => self.open_data(Transfer::Names, path),
            Verb::List => self.open_data(Transfer::List, path),
            Verb::Retr => {
                self.stage = Stage::Probing { verb: Verb::Retr, path: path.clone() };
                Step::Perform(Action::IsFile { path })
            },
            Verb::Rmd => {
                self.stage = Stage::Probing { verb: Verb::Rmd, path: path.clone() };
                Step::Perform(Action::IsDir { path })
            },
            Verb::Dele => {
                self.stage = Stage::Finishing { verb: Verb::Dele };
                Step::Perform(Action::RemoveFile { path })
            },
            Verb::Rnfr => {
                self.rename_from_path = Some(path);
                self.stage = Stage::Idle;
                Step::Reply(Reply::new(FILE_ACTION_NEEDS_FURTHER_INFO, "Enter target name"))
            },
            _ => self.fault(),
        }
    }

    fn on_flag(&mut self, verb: Verb, path: String, found: bool) -> (out: Step<L, S>)
        ensures
            Self::probed(*old(self), *final(self), out, verb, path@, found),
    {
        match verb {
            Verb::Retr => if found {
                self.open_data(Transfer::Retrieve, path)
            } else {
                self.reply(ACTION_NOT_TAKEN, "Not a file")
            },
            Verb::Rmd => if found {
                self.stage = Stage::Finishing { verb: Verb::Rmd };
                Step::Perform(Action::RemoveDir { path })
            } else {
                self.reply(ACTION_NOT_TAKEN, "Not a directory")
            },
            _ => self.fault(),
        }
    }

    fn on_done(&mut self, verb: Verb, outcome: Result<(), String>) -> (out: Step<L, S>)
        ensures
            Self::finished(*old(self), *final(self), out, verb, outcome),
    {
        match outcome {
            Err(text) => self.reply(ACTION_NOT_TAKEN, text.as_str()),
            Ok(()) => match verb {
                Verb::Dele => self.reply(FILE_ACTION_COMPLETED, "deleted"),
                Verb::Rmd => self.reply(FILE_ACTION_COMPLETED, "deleted"),
                Verb::Mkd => self.reply(PATHNAME_CREATED, "directory created"),
                Verb::Rnto => self.reply(FILE_ACTION_COMPLETED, "Ok"),
                _ => self.fault(),
            },
        }
    }

    /// Makes `data` the waiting data connection, in place of any other.
    fn arm(&mut self, data: PendingData<L, S>, code: &'static str, text: &str) -> (out: Step<L, S>)
        ensures
            Self::armed(*old(self), *final(self), out, data, code, text@),
    {
        self.data = data;
        self.stage = Stage::Idle;
        Step::Reply(Reply::new(code, text))
    }

    /// Goes on after the caller has performed the action of the last step:
    /// `event` is its outcome.
    pub fn resume(&mut self, event: Event<L, S>) -> (out: Step<L, S>)
        ensures
            Self::resumed(*old(self), event, *final(self), out),
            final(self).root() == old(self).root(),
            old(self).wf() ==> final(self).wf(),
    {
        let stage = self.take_stage();
        match stage {
            Stage::Resolving { verb, path: _ } => match event {
                Event::Canonical(answer) => self.on_canonical(verb, answer),
                _ => self.fault(),
            },
            Stage::Probing { verb, path } => match event {
                Event::Flag(found) => self.on_flag(verb, path, found),
                _ => self.fault(),
            },
            Stage::Inspecting { from, to } => match event {
                Event::Kinds { from_is_dir, to_is_dir } => {
                    let target = rename_target(from.as_str(), to.as_str(), from_is_dir, to_is_dir);
                    self.stage = Stage::Finishing { verb: Verb::Rnto };
                    Step::Perform(Action::Rename { from, to: target })
                },
                _ => self.fault(),
            },
            Stage::Finishing { verb } => match event {
                Event::Done(outcome) => self.on_done(verb, outcome),
                _ => self.fault(),
            },
            Stage::Binding => match event {
                Event::Bound(Ok(l)) => {
                    let text = format_passive(l.h1, l.h2, l.h3, l.h4, l.port);
                    self.arm(PendingData::Listening(l.handle), ENTERING_PASSIVE_MODE, text.as_str())
                },
                Event::Bound(Err(text)) => self.reply(
                    ERROR_OPENING_DATA_CONNECTION,
                    text.as_str(),
                ),
                _ => self.fault(),
            },
            Stage::Connecting => match event {
                Event::Connected(Ok(socket)) => self.arm(
                    PendingData::Connected(socket),
                    COMMAND_OK,
                    "PORT command successful",
                ),
                Event::Connected(Err(text)) => self.reply(
                    ERROR_OPENING_DATA_CONNECTION,
                    text.as_str(),
                ),
                _ => self.fault(),
            },
            Stage::Accepting { kind, path } => match event {
                Event::Accepted(Ok(socket)) => {
                    self.stage = Stage::Transferring;
                    Self::transfer(kind, path, socket)
                },
                Event::Accepted(Err(text)) => self.reply(
                    ERROR_OPENING_DATA_CONNECTION,
                    text.as_str(),
                ),
                _ => self.fault(),
            },
            Stage::Transferring => match event {
                Event::Done(Ok(())) => self.reply(CLOSING_DATA_CONNECTION, "Transfer complete"),
                Event::Done(Err(_)) => {
                    self.stage = Stage::Idle;
                    Step::Abort {
                        complete: Reply::new(CLOSING_DATA_CONNECTION, "Transfer complete"),
                        failure: Self::failure(),
                    }
                },
                _ => self.fault(),
            },
            Stage::Idle => self.fault(),
        }
    }
    /// Performs the `Action::Canonicalize` that the session is waiting for
    /// on this machine's filesystem, for the path that the session asked
    /// for, and goes on with the answer as `resume` does with some
    /// `Event::Canonical`. A session that waits for anything else gives up
    /// as on a wrong event.
    pub fn resume_from_disk(&mut self) -> (out: Step<L, S>)
        ensures
            old(self).stage() is Resolving ==> exists|answer: Result<String, String>|
                Self::resumed(*old(self), Event::Canonical(answer), *final(self), out),
            !(old(self).stage() is Resolving) ==> Self::faulted(*old(self), *final(self), out),
            final(self).root() == old(self).root(),
            old(self).wf() ==> final(self).wf(),
    {
        let answer = match &self.stage {
            Stage::Resolving { verb: _, path } => canonicalize(path.as_str()),
            _ => {
                return self.fault();
            },
        };
        let ghost given = answer;
        let out = self.resume(Event::Canonical(answer));
        assert(Self::resumed(*old(self), Event::Canonical(given), *self, out));
        out
    }

    /// Asking for the working directory twice in a row gives the same
    /// reply twice.
    pub proof fn lemma_pwd_repeats(
        s0: Self,
        s1: Self,
        s2: Self,
        first: Step<L, S>,
        second: Step<L, S>,
        args1: Seq<char>,
        args2: Seq<char>,
    )
        requires
            Self::dispatched(s0, s1, first, Verb::Pwd, args1),
            Self::dispatched(s1, s2, second, Verb::Pwd, args2),
        ensures
            first matches Step::Reply(r1) && second matches Step::Reply(r2) && r1.line()
                == r2.line(),
            Self::unchanged(s0, s2),
    {
        let r1 = first->Reply_0;
        let r2 = second->Reply_0;
        assert(r1.line() =~= r2.line());
    }

    /// A data connection serves one transfer: once a transfer has taken
    /// what was waiting, the next one finds nothing and ends with 425.
    pub proof fn lemma_data_serves_once(
        s0: Self,
        s1: Self,
        s2: Self,
        first: Step<L, S>,
        second: Step<L, S>,
        kind1: Transfer,
        path1: Seq<char>,
        kind2: Transfer,
        path2: Seq<char>,
    )
        requires
            Self::opens_data(s0, s1, first, kind1, path1),
            Self::opens_data(s1, s2, second, kind2, path2),
        ensures
            s1.data() is Idle,
            second.replies(ERROR_OPENING_DATA_CONNECTION, "Failed to open data connection"@),
            s2.data() is Idle,
    {
    }

    /// PORT after PASV: once the listener of PASV waits and a following
    /// PORT has connected its socket, that socket is the one data
    /// connection that waits.
    pub proof fn lemma_port_replaces_pasv(
        s0: Self,
        s1: Self,
        s2: Self,
        s3: Self,
        steps: (Step<L, S>, Step<L, S>, Step<L, S>),
        listener: Listener<L>,
        args: Seq<char>,
        socket: S,
    )
        requires
            s0.logged(),
            s0.stage() is Binding,
            split(args, ',').len() == 6,
            Self::resumed(s0, Event::Bound(Ok(listener)), s1, steps.0),
            Self::dispatched(s1, s2, steps.1, Verb::Port, args),
            Self::resumed(s2, Event::Connected(Ok(socket)), s3, steps.2),
        ensures
            s1.data() == PendingData::<L, S>::Listening(listener.handle),
            s2.data() == s1.data(),
            s3.data() == PendingData::<L, S>::Connected(socket),
    {
    }

    /// PASV after PORT: once the socket of PORT waits and a following PASV
    /// has opened its listener, that listener is the one data connection
    /// that waits.
    pub proof fn lemma_pasv_replaces_port(
        s0: Self,
        s1: Self,
        s2: Self,
        s3: Self,
        steps: (Step<L, S>, Step<L, S>, Step<L, S>),
        socket: S,
        args: Seq<char>,
        listener: Listener<L>,
    )
        requires
            s0.logged(),
            s0.stage() is Connecting,
            Self::resumed(s0, Event::Connected(Ok(socket)), s1, steps.0),
            Self::dispatched(s1, s2, steps.1, Verb::Pasv, args),
            Self::resumed(s2, Event::Bound(Ok(listener)), s3, steps.2),
        ensures
            s1.data() == PendingData::<L, S>::Connected(socket),
            s2.data() == s1.data(),
            s3.data() == PendingData::<L, S>::Listening(listener.handle),
    {
    }

    /// A rename has two phases: RNTO from a client that is logged in ends
    /// with 503 where no RNFR has recorded a source, and every RNTO leaves
    /// none recorded, so that the next RNTO ends with 503 again.
    pub proof fn lemma_rename_two_phase(
        s0: Self,
        s1: Self,
        s2: Self,
        first: Step<L, S>,
        second: Step<L, S>,
        args1: Seq<char>,
        args2: Seq<char>,
    )
        requires
            s0.logged(),
            Self::dispatched(s0, s1, first, Verb::Rnto, args1),
            Self::dispatched(s1, s2, second, Verb::Rnto, args2),
        ensures
            s0.renaming() is None ==> first.replies(
                COMMANDS_BAD_SEQUENCE,
                "Please specify target file first"@,
            ),
            s1.renaming() is None,
            second.replies(COMMANDS_BAD_SEQUENCE, "Please specify target file first"@),
    {
    }

    /// RNTO works on the source that RNFR recorded: the rename that is
    /// asked for after the two ends were inspected starts at that source.
    pub proof fn lemma_rename_uses_source(
        s0: Self,
        s1: Self,
        s2: Self,
        first: Step<L, S>,
        second: Step<L, S>,
        args: Seq<char>,
        from_is_dir: bool,
        to_is_dir: bool,
    )
        requires
            s0.logged(),
            s0.renaming() is Some,
            stays_below(s0.root(), joined_path(s0.root(), s0.cwd(), args)),
            Self::dispatched(s0, s1, first, Verb::Rnto, args),
            Self::resumed(s1, Event::Kinds { from_is_dir, to_is_dir }, s2, second),
        ensures
            second matches Step::Perform(Action::Rename { from, to }) && from@
                == s0.renaming()->0 && to@ == rename_target_path(
                s0.renaming()->0,
                joined_path(s0.root(), s0.cwd(), args),
                from_is_dir,
                to_is_dir,
            ),
    {
    }
    /// USER asks for the password and changes nothing; PASS after it logs
    /// the client in and changes nothing else.
    pub proof fn lemma_user_then_pass(
        s0: Self,
        s1: Self,
        s2: Self,
        first: Step<L, S>,
        second: Step<L, S>,
        args1: Seq<char>,
        args2: Seq<char>,
    )
        requires
            Self::dispatched(s0, s1, first, Verb::User, args1),
            Self::dispatched(s1, s2, second, Verb::Pass, args2),
        ensures
            first.replies(USER_NAME_OK, "user name ok. need password."@),
            Self::unchanged(s0, s1),
            second.replies(USER_LOGGED_IN, "logged in."@),
            s2.logged(),
            s2.root() == s0.root() && s2.cwd() == s0.cwd() && s2.data() == s0.data()
                && s2.renaming() == s0.renaming(),
    {
    }

    /// PASV from a client that is logged in asks for a listener, and once
    /// the listener is open it is the one data connection that waits,
    /// whatever waited before; the reply is 227 with the listener's address.
    pub proof fn lemma_pasv_arms(
        s0: Self,
        s1: Self,
        s2: Self,
        first: Step<L, S>,
        second: Step<L, S>,
        args: Seq<char>,
        listener: Listener<L>,
    )
        requires
            s0.logged(),
            Self::dispatched(s0, s1, first, Verb::Pasv, args),
            Self::resumed(s1, Event::Bound(Ok(listener)), s2, second),
        ensures
            first == Step::<L, S>::Perform(Action::Bind),
            s1.data() == s0.data(),
            second.replies(
                ENTERING_PASSIVE_MODE,
                passive_text(listener.h1, listener.h2, listener.h3, listener.h4, listener.port),
            ),
            s2.data() == PendingData::<L, S>::Listening(listener.handle),
            s2.stage() is Idle,
            s2.logged() && s2.cwd() == s0.cwd() && s2.renaming() == s0.renaming(),
    {
    }

    /// CWD from a client that is logged in asks for the canonical form of
    /// the joined path. An answer that is absolute and within the root is
    /// entered with 250, and PWD then shows it; any other answer ends with
    /// 550 and leaves the working directory where it was.
    pub proof fn lemma_cwd_goes_by_the_answer(
        s0: Self,
        s1: Self,
        s2: Self,
        first: Step<L, S>,
        second: Step<L, S>,
        arg: Seq<char>,
        answer: Result<String, String>,
    )
        requires
            s0.logged(),
            arg.len() > 0,
            Self::dispatched(s0, s1, first, Verb::Cwd, arg),
            Self::resumed(s1, Event::Canonical(answer), s2, second),
        ensures
            first matches Step::Perform(Action::Canonicalize { path }) && path@ == joined_path(
                s0.root(),
                s0.cwd(),
                arg,
            ),
            s2.root() == s0.root(),
            s2.stage() is Idle,
            match checked_path(s0.root(), answer) {
                Ok(canonical) => {
                    &&& second.replies(
                        FILE_ACTION_COMPLETED,
                        "Changed directory to "@ + shown_path(s0.root(), canonical@),
                    )
                    &&& s2.cwd() == canonical@
                    &&& s2.wf()
                },
                Err(e) => {
                    &&& second.replies(ACTION_NOT_TAKEN, e.text())
                    &&& s2.cwd() == s0.cwd()
                },
            },
    {
    }

    /// RNFR from a client that is logged in records the canonical path of
    /// what exists within the root and replies 350; any other answer ends
    /// with 550 and records nothing new.
    pub proof fn lemma_rnfr_records(
        s0: Self,
        s1: Self,
        s2: Self,
        first: Step<L, S>,
        second: Step<L, S>,
        arg: Seq<char>,
        answer: Result<String, String>,
    )
        requires
            s0.logged(),
            Self::dispatched(s0, s1, first, Verb::Rnfr, arg),
            Self::resumed(s1, Event::Canonical(answer), s2, second),
        ensures
            match checked_path(s0.root(), answer) {
                Ok(canonical) => {
                    &&& second.replies(FILE_ACTION_NEEDS_FURTHER_INFO, "Enter target name"@)
                    &&& s2.renaming() == Some(canonical@)
                },
                Err(e) => {
                    &&& second.replies(ACTION_NOT_TAKEN, e.text())
                    &&& s2.renaming() == s0.renaming()
                },
            },
            s2.cwd() == s0.cwd(),
            s2.stage() is Idle,
    {
    }

    /// The bracket of STOR: with a listener waiting and a path that does
    /// not climb above the root, STOR has the listener accept, starts the
    /// transfer for the joined path after 150, and ends with 226; no data
    /// connection waits afterwards.
    pub proof fn lemma_stor_bracket(
        s0: Self,
        s1: Self,
        s2: Self,
        s3: Self,
        first: Step<L, S>,
        second: Step<L, S>,
        third: Step<L, S>,
        args: Seq<char>,
        listener: L,
        socket: S,
    )
        requires
            s0.logged(),
            s0.data() == PendingData::<L, S>::Listening(listener),
            stays_below(s0.root(), joined_path(s0.root(), s0.cwd(), args)),
            Self::dispatched(s0, s1, first, Verb::Stor, args),
            Self::resumed(s1, Event::Accepted(Ok(socket)), s2, second),
            Self::resumed(s2, Event::Done(Ok(())), s3, third),
        ensures
            first matches Step::Perform(Action::Accept { listener: l }) && l == listener,
            s1.data() is Idle,
            Self::starts_transfer(
                second,
                Transfer::Store,
                joined_path(s0.root(), s0.cwd(), args),
                socket,
            ),
            third.replies(CLOSING_DATA_CONNECTION, "Transfer complete"@),
            s3.data() is Idle,
            s3.stage() is Idle,
            s3.cwd() == s0.cwd(),
    {
    }

    /// The bracket of RETR: what exists within the root and is a regular
    /// file is sent over the waiting connection, here a connected socket,
    /// after 150, and the command ends with 226; no data connection waits
    /// afterwards.
    pub proof fn lemma_retr_bracket(
        s0: Self,
        s1: Self,
        s2: Self,
        s3: Self,
        s4: Self,
        first: Step<L, S>,
        second: Step<L, S>,
        third: Step<L, S>,
        fourth: Step<L, S>,
        args: Seq<char>,
        canonical: String,
        socket: S,
    )
        requires
            s0.logged(),
            s0.data() == PendingData::<L, S>::Connected(socket),
            is_absolute(canonical@),
            within(s0.root(), canonical@),
            Self::dispatched(s0, s1, first, Verb::Retr, args),
            Self::resumed(s1, Event::Canonical(Ok(canonical)), s2, second),
            Self::resumed(s2, Event::Flag(true), s3, third),
            Self::resumed(s3, Event::Done(Ok(())), s4, fourth),
        ensures
            first matches Step::Perform(Action::Canonicalize { path }) && path@ == joined_path(
                s0.root(),
                s0.cwd(),
                args,
            ),
            second matches Step::Perform(Action::IsFile { path }) && path@ == canonical@,
            Self::starts_transfer(third, Transfer::Retrieve, canonical@, socket),
            fourth.replies(CLOSING_DATA_CONNECTION, "Transfer complete"@),
            s4.data() is Idle,
            s4.stage() is Idle,
    {
    }
}

} // verus!
