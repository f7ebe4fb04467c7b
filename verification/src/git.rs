//! The version-control client: which `git` command performs an operation, and
//! what its completion means.

use crate::process::{Completion, CompletionView, Invocation, InvocationView};
use crate::text::{bare, strip_prefix, theorem_trimmed_is_bare, trim, trimmed};
use vstd::prelude::*;
use vstd::string::StringExecFns;

verus! {

/// Why a version-control operation failed.
#[derive(Debug, PartialEq, Eq)]
pub enum GitError {
    /// The shallow clone of `url` failed.
    CloneFailed { url: String, message: String },
    /// Fetching the remote's tags and branches failed.
    FetchFailed { message: String },
    /// Switching the working tree to `reference` failed.
    CheckoutFailed { reference: String, message: String },
    /// The remote's default branch could not be read.
    DefaultBranchUnavailable { message: String },
}

/// Model of a [`GitError`].
pub enum GitErrorView {
    CloneFailed { url: Seq<char>, message: Seq<char> },
    FetchFailed { message: Seq<char> },
    CheckoutFailed { reference: Seq<char>, message: Seq<char> },
    DefaultBranchUnavailable { message: Seq<char> },
}

impl View for GitError {
    type V = GitErrorView;

    open spec fn view(&self) -> GitErrorView {
        match self {
            GitError::CloneFailed { url, message } => GitErrorView::CloneFailed {
                url: url@,
                message: message@,
            },
            GitError::FetchFailed { message } => GitErrorView::FetchFailed { message: message@ },
            GitError::CheckoutFailed { reference, message } => GitErrorView::CheckoutFailed {
                reference: reference@,
                message: message@,
            },
            GitError::DefaultBranchUnavailable { message } => GitErrorView::DefaultBranchUnavailable {
                message: message@,
            },
        }
    }
}

impl DeepView for GitError {
    type V = GitErrorView;

    open spec fn deep_view(&self) -> GitErrorView {
        self@
    }
}

impl GitErrorView {
    /// The git command line that failed, without the program's name.
    pub open spec fn command(self) -> Seq<char> {
        match self {
            GitErrorView::CloneFailed { url, .. } => "clone "@ + url,
            GitErrorView::FetchFailed { .. } => "fetch --all --tags"@,
            GitErrorView::CheckoutFailed { reference, .. } => "checkout "@ + reference,
            GitErrorView::DefaultBranchUnavailable { .. } => "rev-parse --abbrev-ref origin/HEAD"@,
        }
    }

    /// What the failed command reported.
    pub open spec fn message(self) -> Seq<char> {
        match self {
            GitErrorView::CloneFailed { message, .. } => message,
            GitErrorView::FetchFailed { message } => message,
            GitErrorView::CheckoutFailed { message, .. } => message,
            GitErrorView::DefaultBranchUnavailable { message } => message,
        }
    }

    /// The error as one text for the user.
    pub open spec fn text(self) -> Seq<char> {
        "Git command '"@ + self.command() + "' failed:\n"@ + self.message()
    }
}

impl Clone for GitError {
    fn clone(&self) -> (r: Self)
        ensures
            r@ == self@,
    {
        match self {
            GitError::CloneFailed { url, message } => GitError::CloneFailed {
                url: url.clone(),
                message: message.clone(),
            },
            GitError::FetchFailed { message } => GitError::FetchFailed { message: message.clone() },
            GitError::CheckoutFailed { reference, message } => GitError::CheckoutFailed {
                reference: reference.clone(),
                message: message.clone(),
            },
            GitError::DefaultBranchUnavailable { message } => GitError::DefaultBranchUnavailable {
                message: message.clone(),
            },
        }
    }
}

impl GitError {
    /// The git command line that failed, without the program's name.
    pub fn command(&self) -> (r: String)
        ensures
            r@ == self@.command(),
    {
        match self {
            GitError::CloneFailed { url, .. } => String::from_str("clone ").concat(url.as_str()),
            GitError::FetchFailed { .. } => String::from_str("fetch --all --tags"),
            GitError::CheckoutFailed { reference, .. } => String::from_str("checkout ").concat(
                reference.as_str(),
            ),
            GitError::DefaultBranchUnavailable { .. } => String::from_str(
                "rev-parse --abbrev-ref origin/HEAD",
            ),
        }
    }

    /// What the failed command reported.
    pub fn message(&self) -> (r: &str)
        ensures
            r@ == self@.message(),
    {
        match self {
            GitError::CloneFailed { message, .. } => message.as_str(),
            GitError::FetchFailed { message } => message.as_str(),
            GitError::CheckoutFailed { message, .. } => message.as_str(),
            GitError::DefaultBranchUnavailable { message } => message.as_str(),
        }
    }

    /// The error as one text for the user.
    pub fn to_string(&self) -> (r: String)
        ensures
            r@ == self@.text(),
    {
        let mut out = String::from_str("Git command '");
        let command = self.command();
        out.append(command.as_str());
        out.append("' failed:\n");
        out.append(self.message());
        out
    }
}

/// The `git` invocation with arguments `args`, run in `repo` if there is one.
pub open spec fn git_invocation(repo: Option<Seq<char>>, args: Seq<Seq<char>>) -> InvocationView {
    InvocationView { program: "git"@, args: args, working_dir: repo, capture: true }
}

/// Arguments of a shallow clone of `url` into `dest`.
pub open spec fn clone_args(url: Seq<char>, dest: Seq<char>) -> Seq<Seq<char>> {
    seq!["clone"@, "--depth"@, "1"@, url, dest]
}

/// Arguments that fetch all remote tags and branches without checking any out.
pub open spec fn fetch_args() -> Seq<Seq<char>> {
    seq!["fetch"@, "--all"@, "--tags"@]
}

/// Arguments that switch the working tree to `version`, trimmed of
/// surrounding white space.
pub open spec fn checkout_args(version: Seq<char>) -> Seq<Seq<char>> {
    seq!["checkout"@, trimmed(version)]
}

/// Arguments that print what the remote's `HEAD` points to.
pub open spec fn default_branch_args() -> Seq<Seq<char>> {
    seq!["rev-parse"@, "--abbrev-ref"@, "origin/HEAD"@]
}

/// What a clone's completion means: success on exit status zero, otherwise
/// `CloneFailed` with the program's standard error, or with the reason it
/// could not be started.
pub open spec fn clone_outcome(url: Seq<char>, reply: CompletionView) -> Result<(), GitErrorView> {
    if reply.succeeded() {
        Ok(())
    } else {
        Err(GitErrorView::CloneFailed { url: url, message: reply.complaint() })
    }
}

/// What a fetch's completion means.
pub open spec fn fetch_outcome(reply: CompletionView) -> Result<(), GitErrorView> {
    if reply.succeeded() {
        Ok(())
    } else {
        Err(GitErrorView::FetchFailed { message: reply.complaint() })
    }
}

/// What a checkout's completion means. The error names the reference as it
/// was asked for.
pub open spec fn checkout_outcome(version: Seq<char>, reply: CompletionView) -> Result<
    (),
    GitErrorView,
> {
    if reply.succeeded() {
        Ok(())
    } else {
        Err(GitErrorView::CheckoutFailed { reference: version, message: reply.complaint() })
    }
}

/// The branch that a line such as `origin/main` names: what follows the
/// remote's name, trimmed of surrounding white space. A line that does not
/// begin with the remote's name names no branch, and the result is empty.
pub open spec fn branch_name(printed: Seq<char>) -> Seq<char> {
    let line = trimmed(printed);
    if "origin/"@.is_prefix_of(line) {
        trimmed(line.skip("origin/"@.len() as int))
    } else {
        Seq::empty()
    }
}

/// Whether the completion of the default-branch query names a branch: the
/// query exited with status zero, and what it printed is the remote's name
/// and a name after it.
pub open spec fn names_branch(reply: CompletionView) -> bool {
    reply matches CompletionView::Exited { success: true, stdout, .. } && branch_name(stdout).len()
        > 0
}

/// What the completion of the default-branch query means: the branch it
/// names, and a failure in every other case, also where the query exited
/// with status zero and named none.
pub open spec fn default_branch_outcome(reply: CompletionView) -> Result<Seq<char>, GitErrorView> {
    if names_branch(reply) {
        Ok(branch_name(reply->stdout))
    } else {
        Err(GitErrorView::DefaultBranchUnavailable { message: reply.complaint() })
    }
}

/// A default branch that was found has a name: it is not empty and has no
/// white space at either end.
pub proof fn theorem_default_branch_has_a_name(reply: CompletionView)
    ensures
        default_branch_outcome(reply) matches Ok(branch) ==> branch.len() > 0 && bare(branch),
        default_branch_outcome(reply) is Ok <==> names_branch(reply),
        !reply.succeeded() ==> default_branch_outcome(reply) is Err,
{
    if names_branch(reply) {
        let line = trimmed(reply->stdout);
        theorem_trimmed_is_bare(line.skip("origin/"@.len() as int));
    }
}

/// Model of a `Result<(), GitError>`.
pub open spec fn done_view(r: Result<(), GitError>) -> Result<(), GitErrorView> {
    match r {
        Ok(()) => Ok(()),
        Err(e) => Err(e@),
    }
}

/// Model of a `Result<String, GitError>`.
pub open spec fn name_view(r: Result<String, GitError>) -> Result<Seq<char>, GitErrorView> {
    match r {
        Ok(s) => Ok(s@),
        Err(e) => Err(e@),
    }
}

/// The version-control client, bound to a working directory or to none.
pub struct Git {
    repo_path: Option<String>,
}

impl View for Git {
    type V = Option<Seq<char>>;

    /// The working directory that the client is bound to.
    closed spec fn view(&self) -> Option<Seq<char>> {
        self.repo_path.deep_view()
    }
}

impl Git {
    /// A client bound to no working directory, for a clone into a fresh
    /// target.
    pub fn new() -> (git: Git)
        ensures
            git@ == None::<Seq<char>>,
    {
        Git { repo_path: None }
    }

    /// A client bound to the repository at `path`.
    pub fn in_repo(path: &str) -> (git: Git)
        ensures
            git@ == Some(path@),
    {
        Git { repo_path: Some(String::from_str(path)) }
    }

    /// The `git` invocation with arguments `args`, in the bound directory.
    pub fn command(&self, args: Vec<String>) -> (inv: Invocation)
        ensures
            inv@ == git_invocation(self@, args.deep_view()),
    {
        let working_dir = match &self.repo_path {
            Some(path) => Some(path.clone()),
            None => None,
        };
        Invocation { program: String::from_str("git"), args: args, working_dir: working_dir, capture: true }
    }

    /// The invocation that clones `url` into `dest`, one commit deep.
    pub fn clone_command(&self, url: &str, dest: &str) -> (inv: Invocation)
        ensures
            inv@ == git_invocation(self@, clone_args(url@, dest@)),
    {
        let mut args: Vec<String> = Vec::new();
        args.push(String::from_str("clone"));
        args.push(String::from_str("--depth"));
        args.push(String::from_str("1"));
        args.push(String::from_str(url));
        args.push(String::from_str(dest));
        assert(args.deep_view() =~= clone_args(url@, dest@));
        self.command(args)
    }

    /// The invocation that fetches all remote tags and branches.
    pub fn fetch_command(&self) -> (inv: Invocation)
        ensures
            inv@ == git_invocation(self@, fetch_args()),
    {
        let mut args: Vec<String> = Vec::new();
        args.push(String::from_str("fetch"));
        args.push(String::from_str("--all"));
        args.push(String::from_str("--tags"));
        assert(args.deep_view() =~= fetch_args());
        self.command(args)
    }

    /// The invocation that switches the working tree to `version`, which is
    /// trimmed of surrounding white space first.
    pub fn checkout_command(&self, version: &str) -> (inv: Invocation)
        ensures
            inv@ == git_invocation(self@, checkout_args(version@)),
    {
        let mut args: Vec<String> = Vec::new();
        args.push(String::from_str("checkout"));
        args.push(String::from_str(trim(version)));
        assert(args.deep_view() =~= checkout_args(version@));
        self.command(args)
    }

    /// The invocation that asks what the remote's `HEAD` points to.
    pub fn default_branch_command(&self) -> (inv: Invocation)
        ensures
            inv@ == git_invocation(self@, default_branch_args()),
    {
        let mut args: Vec<String> = Vec::new();
        args.push(String::from_str("rev-parse"));
        args.push(String::from_str("--abbrev-ref"));
        args.push(String::from_str("origin/HEAD"));
        assert(args.deep_view() =~= default_branch_args());
        self.command(args)
    }

    /// Reads the completion of a shallow clone of `url`.
    pub fn clone_shallow(url: &str, reply: &Completion) -> (r: Result<(), GitError>)
        ensures
            done_view(r) == clone_outcome(url@, reply@),
    {
        if reply.succeeded() {
            Ok(())
        } else {
            Err(GitError::CloneFailed { url: String::from_str(url), message: reply.complaint() })
        }
    }

    /// Reads the completion of a fetch of all tags.
    pub fn fetch_tags(reply: &Completion) -> (r: Result<(), GitError>)
        ensures
            done_view(r) == fetch_outcome(reply@),
    {
        if reply.succeeded() {
            Ok(())
        } else {
            Err(GitError::FetchFailed { message: reply.complaint() })
        }
    }

    /// Reads the completion of a checkout of `version`.
    pub fn checkout(version: &str, reply: &Completion) -> (r: Result<(), GitError>)
        ensures
            done_view(r) == checkout_outcome(version@, reply@),
    {
        if reply.succeeded() {
            Ok(())
        } else {
            Err(
                GitError::CheckoutFailed {
                    reference: String::from_str(version),
                    message: reply.complaint(),
                },
            )
        }
    }

    /// Reads the completion of the default-branch query: the branch's name
    /// without the remote's name in front. A query that names no branch has
    /// failed, whatever its exit status.
    pub fn get_default_branch(reply: &Completion) -> (r: Result<String, GitError>)
        ensures
            name_view(r) == default_branch_outcome(reply@),
            r matches Ok(branch) ==> branch@.len() > 0 && bare(branch@),
    {
        proof {
            theorem_default_branch_has_a_name(reply@);
        }
        match reply {
            Completion::Exited { success: true, stdout, .. } => {
                let line = trim(stdout.as_str());
                match strip_prefix(line, "origin/") {
                    Some(rest) => {
                        let branch = trim(rest);
                        if branch.unicode_len() > 0 {
                            return Ok(String::from_str(branch));
                        }
                    },
                    None => {},
                }
            },
            _ => {},
        }
        Err(GitError::DefaultBranchUnavailable { message: reply.complaint() })
    }
}

impl Default for Git {
    fn default() -> (git: Git)
        ensures
            git@ == None::<Seq<char>>,
    {
        Git::new()
    }
}

} // verus!
