//! The seam to tmux: which `tmux` command performs an operation, and what its
//! completion means.

use crate::process::{Completion, CompletionView, Invocation, InvocationView};
use crate::murus::session::{listed, Session, SessionView};
use crate::text::{decimal, decimal_text, lines, lines_of};
use vstd::prelude::*;
use vstd::string::StringExecFns;

pub mod session;

verus! {

/// Why an operation on tmux failed.
#[derive(Debug, PartialEq, Eq)]
pub enum Error {
    /// The caller does not run inside tmux.
    NotInTmux,
    /// The `tmux` program could not be started, or waiting for it failed.
    CommandFailed(String),
    /// tmux complained when asked for an option.
    OptionNotFound(String),
    /// tmux failed to source a file or to run a script.
    SourceFile { stdout: String, stderr: String },
}

/// Model of an [`Error`].
pub enum ErrorView {
    NotInTmux,
    CommandFailed(Seq<char>),
    OptionNotFound(Seq<char>),
    SourceFile { stdout: Seq<char>, stderr: Seq<char> },
}

impl View for Error {
    type V = ErrorView;

    open spec fn view(&self) -> ErrorView {
        match self {
            Error::NotInTmux => ErrorView::NotInTmux,
            Error::CommandFailed(reason) => ErrorView::CommandFailed(reason@),
            Error::OptionNotFound(complaint) => ErrorView::OptionNotFound(complaint@),
            Error::SourceFile { stdout, stderr } => ErrorView::SourceFile {
                stdout: stdout@,
                stderr: stderr@,
            },
        }
    }
}

impl DeepView for Error {
    type V = ErrorView;

    open spec fn deep_view(&self) -> ErrorView {
        self@
    }
}

impl ErrorView {
    /// The error as one text for the user.
    pub open spec fn text(self) -> Seq<char> {
        match self {
            ErrorView::NotInTmux => "We are currently not in a tmux instance"@,
            ErrorView::CommandFailed(reason) => "Command failed "@ + reason,
            ErrorView::OptionNotFound(complaint) => "Option not found "@ + complaint,
            ErrorView::SourceFile { stdout, stderr } => "Failed sourcing file. stdout:\n"@ + stdout
                + "\n\nstderr:\n"@ + stderr,
        }
    }
}

impl Clone for Error {
    fn clone(&self) -> (r: Self)
        ensures
            r@ == self@,
    {
        match self {
            Error::NotInTmux => Error::NotInTmux,
            Error::CommandFailed(reason) => Error::CommandFailed(reason.clone()),
            Error::OptionNotFound(complaint) => Error::OptionNotFound(complaint.clone()),
            Error::SourceFile { stdout, stderr } => Error::SourceFile {
                stdout: stdout.clone(),
                stderr: stderr.clone(),
            },
        }
    }
}

impl Error {
    /// The error as one text for the user.
    pub fn to_string(&self) -> (r: String)
        ensures
            r@ == self@.text(),
    {
        match self {
            Error::NotInTmux => String::from_str("We are currently not in a tmux instance"),
            Error::CommandFailed(reason) => String::from_str("Command failed ").concat(
                reason.as_str(),
            ),
            Error::OptionNotFound(complaint) => String::from_str("Option not found ").concat(
                complaint.as_str(),
            ),
            Error::SourceFile { stdout, stderr } => {
                let mut out = String::from_str("Failed sourcing file. stdout:\n");
                out.append(stdout.as_str());
                out.append("\n\nstderr:\n");
                out.append(stderr.as_str());
                out
            },
        }
    }
}

/// The scope in which tmux looks an option up.
#[derive(Debug, Clone, Copy, PartialEq, Eq, Hash)]
pub enum OptionScope {
    Session,
    Pane,
    Window,
    Server,
    Global,
}

impl OptionScope {
    /// The flag that selects the scope on tmux's command line, as a model;
    /// the session scope is tmux's own default and takes none.
    pub open spec fn flag(self) -> Option<Seq<char>> {
        match self {
            OptionScope::Session => None,
            OptionScope::Pane => Some("-p"@),
            OptionScope::Window => Some("-w"@),
            OptionScope::Server => Some("-s"@),
            OptionScope::Global => Some("-g"@),
        }
    }

    /// The flag that selects the scope on tmux's command line.
    pub fn to_arg(self) -> (r: Option<&'static str>)
        ensures
            match r {
                Some(flag) => self.flag() == Some(flag@),
                None => self.flag() is None,
            },
    {
        match self {
            OptionScope::Session => None,
            OptionScope::Pane => Some("-p"),
            OptionScope::Window => Some("-w"),
            OptionScope::Server => Some("-s"),
            OptionScope::Global => Some("-g"),
        }
    }
}

impl Default for OptionScope {
    fn default() -> (scope: OptionScope)
        ensures
            scope == OptionScope::Session,
    {
        OptionScope::Session
    }
}

/// The `tmux` invocation with arguments `args`.
pub open spec fn tmux_invocation(args: Seq<Seq<char>>, capture: bool) -> InvocationView {
    InvocationView { program: "tmux"@, args: args, working_dir: None, capture: capture }
}

/// The arguments that select `scope`: its flag, or none.
pub open spec fn scope_args(scope: OptionScope) -> Seq<Seq<char>> {
    match scope.flag() {
        Some(flag) => seq![flag],
        None => Seq::empty(),
    }
}

/// Arguments that print the value of `option` alone, without its name.
pub open spec fn get_option_args(option: Seq<char>, scope: OptionScope) -> Seq<Seq<char>> {
    seq!["show"@, "-v"@] + scope_args(scope) + seq![option]
}

/// Arguments that set `option` to `value`.
pub open spec fn set_option_args(option: Seq<char>, value: Seq<char>, scope: OptionScope) -> Seq<
    Seq<char>,
> {
    seq!["set"@] + scope_args(scope) + seq![option, value]
}

/// Arguments that source the file at `path`.
pub open spec fn source_args(path: Seq<char>) -> Seq<Seq<char>> {
    seq!["source-file"@, path]
}

/// Arguments that run the script at `path` in the background.
pub open spec fn run_shell_args(path: Seq<char>) -> Seq<Seq<char>> {
    seq!["run-shell"@, "-b"@, path]
}

/// Arguments that list the sessions.
pub open spec fn list_sessions_args() -> Seq<Seq<char>> {
    seq!["list-sessions"@]
}

/// Arguments that switch the client to the session `name`.
pub open spec fn switch_session_args(name: Seq<char>) -> Seq<Seq<char>> {
    seq!["switch-client"@, "-t"@, name]
}

/// Arguments that show `message` in the status line.
pub open spec fn display_args(message: Seq<char>) -> Seq<Seq<char>> {
    seq!["display-message"@, message]
}

/// Arguments that show `message` in the status line for `duration_ms`
/// milliseconds.
pub open spec fn display_for_args(message: Seq<char>, duration_ms: u32) -> Seq<Seq<char>> {
    seq!["display-message"@, "-d"@, decimal_text(duration_ms as nat), message]
}

/// What the completion of a command means whose exit status is not looked
/// at: it fails only where the program could not be run.
pub open spec fn spawn_outcome(reply: CompletionView) -> Result<(), ErrorView> {
    match reply {
        CompletionView::NotSpawned { reason } => Err(ErrorView::CommandFailed(reason)),
        CompletionView::Exited { .. } => Ok(()),
    }
}

/// What the completion of a sourcing or script command means: a status
/// other than zero fails with both outputs.
pub open spec fn load_outcome(reply: CompletionView) -> Result<(), ErrorView> {
    match reply {
        CompletionView::NotSpawned { reason } => Err(ErrorView::CommandFailed(reason)),
        CompletionView::Exited { success, stdout, stderr } => if success {
            Ok(())
        } else {
            Err(ErrorView::SourceFile { stdout: stdout, stderr: stderr })
        },
    }
}

/// What the completion of an option query means: anything on standard error
/// says that the option was not found, otherwise standard output is the
/// value, as printed.
pub open spec fn option_outcome(reply: CompletionView) -> Result<Seq<char>, ErrorView> {
    match reply {
        CompletionView::NotSpawned { reason } => Err(ErrorView::CommandFailed(reason)),
        CompletionView::Exited { stdout, stderr, .. } => if stderr.len() > 0 {
            Err(ErrorView::OptionNotFound(stderr))
        } else {
            Ok(stdout)
        },
    }
}

/// Whether every line of a printed list of sessions describes a session.
pub open spec fn sessions_listed(printed: Seq<char>) -> bool {
    forall|i: int|
        0 <= i < lines_of(printed).len() ==> listed(#[trigger] lines_of(printed)[i]) is Some
}

/// The sessions that a printed list describes, one to a line.
pub open spec fn sessions_of(printed: Seq<char>) -> Seq<SessionView> {
    lines_of(printed).map_values(|line: Seq<char>| listed(line)->0)
}

/// Whether the completion of a listing can be read: where the program ran,
/// every line of its standard output describes a session.
pub open spec fn lists_sessions(reply: CompletionView) -> bool {
    reply matches CompletionView::Exited { stdout, .. } ==> sessions_listed(stdout)
}

/// What the completion of a listing means: the sessions on standard output,
/// whatever the exit status.
pub open spec fn sessions_outcome(reply: CompletionView) -> Result<Seq<SessionView>, ErrorView> {
    match reply {
        CompletionView::NotSpawned { reason } => Err(ErrorView::CommandFailed(reason)),
        CompletionView::Exited { stdout, .. } => Ok(sessions_of(stdout)),
    }
}

/// Model of a `Result<Vec<Session>, Error>`.
pub open spec fn sessions_view(r: Result<Vec<Session>, Error>) -> Result<
    Seq<SessionView>,
    ErrorView,
> {
    match r {
        Ok(sessions) => Ok(sessions.deep_view()),
        Err(e) => Err(e@),
    }
}

/// Model of a `Result<(), Error>`.
pub open spec fn done_view(r: Result<(), Error>) -> Result<(), ErrorView> {
    match r {
        Ok(()) => Ok(()),
        Err(e) => Err(e@),
    }
}

/// Model of a `Result<String, Error>`.
pub open spec fn value_view(r: Result<String, Error>) -> Result<Seq<char>, ErrorView> {
    match r {
        Ok(s) => Ok(s@),
        Err(e) => Err(e@),
    }
}

/// Reads a completion as [`spawn_outcome`] has it.
fn spawned(reply: &Completion) -> (r: Result<(), Error>)
    ensures
        done_view(r) == spawn_outcome(reply@),
{
    match reply {
        Completion::NotSpawned { reason } => Err(Error::CommandFailed(reason.clone())),
        Completion::Exited { .. } => Ok(()),
    }
}

/// Reads a completion as [`load_outcome`] has it.
fn loaded(reply: &Completion) -> (r: Result<(), Error>)
    ensures
        done_view(r) == load_outcome(reply@),
{
    match reply {
        Completion::NotSpawned { reason } => Err(Error::CommandFailed(reason.clone())),
        Completion::Exited { success, stdout, stderr } => if *success {
            Ok(())
        } else {
            Err(Error::SourceFile { stdout: stdout.clone(), stderr: stderr.clone() })
        },
    }
}

/// Decides [`sessions_listed`].
fn all_listed(printed: &str) -> (r: bool)
    ensures
        r == sessions_listed(printed@),
{
    let all = lines(printed);
    let mut at: usize = 0;
    while at < all.len()
        invariant
            at <= all.len(),
            all.deep_view() == lines_of(printed@),
            forall|i: int| 0 <= i < at ==> listed(#[trigger] lines_of(printed@)[i]) is Some,
        decreases all.len() - at,
    {
        assert(all.deep_view()[at as int] == all@[at as int]@);
        if Session::parse(all[at].as_str()).is_none() {
            assert(listed(lines_of(printed@)[at as int]) is None);
            return false;
        }
        at += 1;
    }
    true
}

/// The `tmux` invocation with arguments `args`.
fn tmux_command(args: Vec<String>, capture: bool) -> (inv: Invocation)
    ensures
        inv@ == tmux_invocation(args.deep_view(), capture),
{
    Invocation { program: String::from_str("tmux"), args: args, working_dir: None, capture: capture }
}

/// Pushes the flag of `scope` onto `args`, if it has one.
fn push_scope(args: &mut Vec<String>, scope: OptionScope)
    ensures
        final(args).deep_view() == old(args).deep_view() + scope_args(scope),
{
    match scope.to_arg() {
        Some(flag) => {
            args.push(String::from_str(flag));
            assert(args.deep_view() =~= old(args).deep_view() + scope_args(scope));
        },
        None => {
            assert(args.deep_view() =~= old(args).deep_view() + scope_args(scope));
        },
    }
}

/// A handle on the tmux that the caller runs in.
#[derive(Debug, Clone, Copy, PartialEq, Eq)]
pub struct Tmux {}

impl Tmux {
    /// The handle, where the caller runs inside tmux. `session` is the value
    /// of the environment variable `TMUX`, which tmux sets for what runs in
    /// it.
    pub fn try_new(session: Option<&str>) -> (r: Result<Tmux, Error>)
        ensures
            session is Some ==> r is Ok,
            session is None ==> r == Err::<Tmux, Error>(Error::NotInTmux),
    {
        match session {
            Some(_) => Ok(Tmux {  }),
            None => Err(Error::NotInTmux),
        }
    }

    /// The invocation that prints the value of `option` in `scope`.
    pub fn get_option_command(&self, option: &str, scope: OptionScope) -> (inv: Invocation)
        ensures
            inv@ == tmux_invocation(get_option_args(option@, scope), true),
    {
        let mut args: Vec<String> = Vec::new();
        args.push(String::from_str("show"));
        args.push(String::from_str("-v"));
        assert(args.deep_view() =~= seq!["show"@, "-v"@]);
        push_scope(&mut args, scope);
        let ghost front = args.deep_view();
        args.push(String::from_str(option));
        assert(args.deep_view() =~= front + seq![option@]);
        tmux_command(args, true)
    }

    /// Reads the completion of an option query.
    pub fn get_option(&self, reply: &Completion) -> (r: Result<String, Error>)
        ensures
            value_view(r) == option_outcome(reply@),
    {
        match reply {
            Completion::NotSpawned { reason } => Err(Error::CommandFailed(reason.clone())),
            Completion::Exited { stdout, stderr, .. } => if stderr.as_str().unicode_len() > 0 {
                Err(Error::OptionNotFound(stderr.clone()))
            } else {
                Ok(stdout.clone())
            },
        }
    }

    /// The invocation that sets `option` to `value` in `scope`.
    pub fn set_option_command(&self, option: &str, value: &str, scope: OptionScope) -> (inv:
        Invocation)
        ensures
            inv@ == tmux_invocation(set_option_args(option@, value@, scope), false),
    {
        let mut args: Vec<String> = Vec::new();
        args.push(String::from_str("set"));
        assert(args.deep_view() =~= seq!["set"@]);
        push_scope(&mut args, scope);
        let ghost front = args.deep_view();
        args.push(String::from_str(option));
        args.push(String::from_str(value));
        assert(args.deep_view() =~= front + seq![option@, value@]);
        tmux_command(args, false)
    }

    /// Reads the completion of setting an option.
    pub fn set_option(&self, reply: &Completion) -> (r: Result<(), Error>)
        ensures
            done_view(r) == spawn_outcome(reply@),
    {
        spawned(reply)
    }

    /// The invocation that sources the file at `path`.
    pub fn source_tmux_command(&self, path: &str) -> (inv: Invocation)
        ensures
            inv@ == tmux_invocation(source_args(path@), true),
    {
        let mut args: Vec<String> = Vec::new();
        args.push(String::from_str("source-file"));
        args.push(String::from_str(path));
        assert(args.deep_view() =~= source_args(path@));
        tmux_command(args, true)
    }

    /// Reads the completion of sourcing a file.
    pub fn source_tmux(&self, reply: &Completion) -> (r: Result<(), Error>)
        ensures
            done_view(r) == load_outcome(reply@),
    {
        loaded(reply)
    }

    /// The invocation that runs the script at `path` in the background.
    pub fn run_shell_command(&self, path: &str) -> (inv: Invocation)
        ensures
            inv@ == tmux_invocation(run_shell_args(path@), true),
    {
        let mut args: Vec<String> = Vec::new();
        args.push(String::from_str("run-shell"));
        args.push(String::from_str("-b"));
        args.push(String::from_str(path));
        assert(args.deep_view() =~= run_shell_args(path@));
        tmux_command(args, true)
    }

    /// Reads the completion of running a script.
    pub fn run_shell(&self, reply: &Completion) -> (r: Result<(), Error>)
        ensures
            done_view(r) == load_outcome(reply@),
    {
        loaded(reply)
    }

    /// The invocation that lists the sessions.
    pub fn list_sessions_command(&self) -> (inv: Invocation)
        ensures
            inv@ == tmux_invocation(list_sessions_args(), true),
    {
        let mut args: Vec<String> = Vec::new();
        args.push(String::from_str("list-sessions"));
        assert(args.deep_view() =~= list_sessions_args());
        tmux_command(args, true)
    }

    /// Whether the completion of a listing can be read by
    /// [`Tmux::list_sessions`].
    pub fn can_list_sessions(&self, reply: &Completion) -> (r: bool)
        ensures
            r == lists_sessions(reply@),
    {
        match reply {
            Completion::NotSpawned { .. } => true,
            Completion::Exited { stdout, .. } => all_listed(stdout.as_str()),
        }
    }

    /// Reads the completion of a listing.
    pub fn list_sessions(&self, reply: &Completion) -> (r: Result<Vec<Session>, Error>)
        requires
            lists_sessions(reply@),
        ensures
            sessions_view(r) == sessions_outcome(reply@),
    {
        match reply {
            Completion::NotSpawned { reason } => Err(Error::CommandFailed(reason.clone())),
            Completion::Exited { stdout, .. } => {
                let all = lines(stdout.as_str());
                let mut sessions: Vec<Session> = Vec::new();
                let mut at: usize = 0;
                while at < all.len()
                    invariant
                        at <= all.len(),
                        all.deep_view() == lines_of(stdout@),
                        sessions_listed(stdout@),
                        sessions@.len() == at,
                        forall|i: int|
                            0 <= i < at ==> Some((#[trigger] sessions@[i])@) == listed(
                                lines_of(stdout@)[i],
                            ),
                    decreases all.len() - at,
                {
                    assert(all.deep_view()[at as int] == all@[at as int]@);
                    assert(listed(lines_of(stdout@)[at as int]) is Some);
                    sessions.push(Session::from(all[at].as_str()));
                    at += 1;
                }
                assert(sessions.deep_view() =~= sessions_of(stdout@));
                Ok(sessions)
            },
        }
    }

    /// The invocation that switches the client to the session `name`.
    pub fn switch_session_command(&self, name: &str) -> (inv: Invocation)
        ensures
            inv@ == tmux_invocation(switch_session_args(name@), false),
    {
        let mut args: Vec<String> = Vec::new();
        args.push(String::from_str("switch-client"));
        args.push(String::from_str("-t"));
        args.push(String::from_str(name));
        assert(args.deep_view() =~= switch_session_args(name@));
        tmux_command(args, false)
    }

    /// Reads the completion of switching the session.
    pub fn switch_session(&self, reply: &Completion) -> (r: Result<(), Error>)
        ensures
            done_view(r) == spawn_outcome(reply@),
    {
        spawned(reply)
    }

    /// The invocation that shows `message` in the status line, for as long
    /// as tmux shows messages by default.
    pub fn display_message_command(&self, message: &str) -> (inv: Invocation)
        ensures
            inv@ == tmux_invocation(display_args(message@), false),
    {
        let mut args: Vec<String> = Vec::new();
        args.push(String::from_str("display-message"));
        args.push(String::from_str(message));
        assert(args.deep_view() =~= display_args(message@));
        tmux_command(args, false)
    }

    /// Reads the completion of showing a message.
    pub fn display_message(&self, reply: &Completion) -> (r: Result<(), Error>)
        ensures
            done_view(r) == spawn_outcome(reply@),
    {
        spawned(reply)
    }

    /// The invocation that shows `message` in the status line for
    /// `duration_ms` milliseconds.
    pub fn display_message_with_duration_command(&self, message: &str, duration_ms: u32) -> (inv:
        Invocation)
        ensures
            inv@ == tmux_invocation(display_for_args(message@, duration_ms), false),
    {
        let mut args: Vec<String> = Vec::new();
        args.push(String::from_str("display-message"));
        args.push(String::from_str("-d"));
        args.push(decimal(duration_ms as u64));
        args.push(String::from_str(message));
        assert(args.deep_view() =~= display_for_args(message@, duration_ms));
        tmux_command(args, false)
    }

    /// Reads the completion of showing a message for a given time.
    pub fn display_message_with_duration(&self, reply: &Completion) -> (r: Result<(), Error>)
        ensures
            done_view(r) == spawn_outcome(reply@),
    {
        spawned(reply)
    }
}

} // verus!
