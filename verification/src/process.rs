//! Commands to be run by the caller, and what came of them.
//!
//! The library never starts a process. It describes one as an [`Invocation`],
//! and reads what happened from a [`Completion`] that the caller hands back.

use vstd::prelude::*;
use vstd::string::StringExecFns;

verus! {

/// One command line: the program, its arguments and where to run it.
#[derive(Debug, PartialEq, Eq)]
pub struct Invocation {
    /// Name of the program to start.
    pub program: String,
    /// Arguments, in order.
    pub args: Vec<String>,
    /// Directory to run in; `None` keeps the caller's.
    pub working_dir: Option<String>,
    /// Whether the caller collects what the program prints, or lets it
    /// through to its own output.
    pub capture: bool,
}

/// Model of an [`Invocation`].
pub struct InvocationView {
    pub program: Seq<char>,
    pub args: Seq<Seq<char>>,
    pub working_dir: Option<Seq<char>>,
    pub capture: bool,
}

impl View for Invocation {
    type V = InvocationView;

    open spec fn view(&self) -> InvocationView {
        InvocationView {
            program: self.program@,
            args: self.args.deep_view(),
            working_dir: self.working_dir.deep_view(),
            capture: self.capture,
        }
    }
}

impl DeepView for Invocation {
    type V = InvocationView;

    open spec fn deep_view(&self) -> InvocationView {
        self@
    }
}

impl Clone for Invocation {
    fn clone(&self) -> (r: Self)
        ensures
            r@ == self@,
    {
        let mut args: Vec<String> = Vec::new();
        let mut at: usize = 0;
        while at < self.args.len()
            invariant
                at <= self.args.len(),
                args@.len() == at,
                forall|i: int| 0 <= i < at ==> (#[trigger] args@[i])@ == self.args@[i]@,
            decreases self.args.len() - at,
        {
            args.push(self.args[at].clone());
            at += 1;
        }
        assert(args.deep_view() =~= self.args.deep_view());
        let working_dir = match &self.working_dir {
            Some(dir) => Some(dir.clone()),
            None => None,
        };
        Invocation {
            program: self.program.clone(),
            args: args,
            working_dir: working_dir,
            capture: self.capture,
        }
    }
}

/// `args` in one text, with a blank before each.
pub open spec fn spaced(args: Seq<Seq<char>>) -> Seq<char>
    decreases args.len(),
{
    if args.len() == 0 {
        Seq::empty()
    } else {
        spaced(args.drop_last()) + " "@ + args.last()
    }
}

impl InvocationView {
    /// The command line as one text: the program, then each argument after a
    /// blank.
    pub open spec fn text(self) -> Seq<char> {
        self.program + spaced(self.args)
    }
}

impl Invocation {
    /// The command line as one text, for a log.
    pub fn to_string(&self) -> (r: String)
        ensures
            r@ == self@.text(),
    {
        let mut out = self.program.clone();
        let mut at: usize = 0;
        let ghost args = self.args.deep_view();
        proof {
            assert(args.take(0) =~= Seq::<Seq<char>>::empty());
            assert(out@ =~= self.program@ + spaced(args.take(0)));
        }
        while at < self.args.len()
            invariant
                at <= self.args.len(),
                args == self.args.deep_view(),
                out@ == self.program@ + spaced(args.take(at as int)),
            decreases self.args.len() - at,
        {
            let ghost before = out@;
            out.append(" ");
            out.append(self.args[at].as_str());
            proof {
                let longer = args.take(at + 1);
                assert(longer.drop_last() =~= args.take(at as int));
                assert(longer.last() == self.args@[at as int]@);
                assert(out@ =~= self.program@ + spaced(longer));
            }
            at += 1;
        }
        assert(args.take(at as int) =~= args);
        out
    }
}

/// How an invocation ended.
#[derive(Debug, PartialEq, Eq)]
pub enum Completion {
    /// The program ran and exited.
    Exited {
        /// Whether it exited with status zero.
        success: bool,
        /// What it wrote to standard output, as text.
        stdout: String,
        /// What it wrote to standard error, as text.
        stderr: String,
    },
    /// The program could not be started, or waiting for it failed.
    NotSpawned {
        /// The operating system's account of why.
        reason: String,
    },
}

/// Model of a [`Completion`].
pub enum CompletionView {
    Exited { success: bool, stdout: Seq<char>, stderr: Seq<char> },
    NotSpawned { reason: Seq<char> },
}

impl View for Completion {
    type V = CompletionView;

    open spec fn view(&self) -> CompletionView {
        match self {
            Completion::Exited { success, stdout, stderr } => CompletionView::Exited {
                success: *success,
                stdout: stdout@,
                stderr: stderr@,
            },
            Completion::NotSpawned { reason } => CompletionView::NotSpawned { reason: reason@ },
        }
    }
}

impl DeepView for Completion {
    type V = CompletionView;

    open spec fn deep_view(&self) -> CompletionView {
        self@
    }
}

impl Clone for Completion {
    fn clone(&self) -> (r: Self)
        ensures
            r@ == self@,
    {
        match self {
            Completion::Exited { success, stdout, stderr } => Completion::Exited {
                success: *success,
                stdout: stdout.clone(),
                stderr: stderr.clone(),
            },
            Completion::NotSpawned { reason } => Completion::NotSpawned { reason: reason.clone() },
        }
    }
}

impl CompletionView {
    /// Whether the program ran and exited with status zero.
    pub open spec fn succeeded(self) -> bool {
        self matches CompletionView::Exited { success, .. } && success
    }

    /// The text that explains a failure: standard error of a program that
    /// ran, or the reason it could not be started.
    pub open spec fn complaint(self) -> Seq<char> {
        match self {
            CompletionView::Exited { stderr, .. } => stderr,
            CompletionView::NotSpawned { reason } => reason,
        }
    }
}

impl Completion {
    /// Whether the program ran and exited with status zero.
    pub fn succeeded(&self) -> (r: bool)
        ensures
            r == self@.succeeded(),
    {
        match self {
            Completion::Exited { success, .. } => *success,
            Completion::NotSpawned { .. } => false,
        }
    }

    /// The text that explains a failure: standard error of a program that
    /// ran, or the reason it could not be started.
    pub fn complaint(&self) -> (r: String)
        ensures
            r@ == self@.complaint(),
    {
        match self {
            Completion::Exited { stderr, .. } => stderr.clone(),
            Completion::NotSpawned { reason } => reason.clone(),
        }
    }
}

} // verus!
