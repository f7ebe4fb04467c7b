//! Installing the declared plugins.
//!
//! Each declared plugin is one job, and a job is worked off on its own: what
//! becomes of one plugin is decided from that plugin's declaration, its
//! directory and the completions of its own commands, and from nothing else.
//! Jobs may therefore run side by side, in any order.
//!
//! [`InstallJob::step`] decides one job; [`InstallPass`] keeps the books for
//! all of them and says when the pass is over.

use crate::git::{clone_args, git_invocation, names_branch, GitError, GitErrorView};
use crate::plugin::{
    installation, resolution, InstallError, InstallErrorView, InstallStep, PluginSpec,
    PluginSpecFile, PluginSpecView, StepView, Version, VersionStep, VersionView,
};
use crate::process::{Completion, CompletionView, Invocation, InvocationView};
use crate::report::{ReportLine, ReportLineView, Stream};
use crate::text::{join_path, joined};
use vstd::prelude::*;
use vstd::slice::slice_subrange;
use vstd::string::StringExecFns;

verus! {

/// What became of one plugin in the install pass.
#[derive(Debug, PartialEq, Eq)]
pub enum InstallOutcome {
    /// The plugin's directory was there already, and its version is in place.
    AlreadyInstalled,
    /// The plugin was cloned and brought to this version.
    Installed(Version),
    /// Cloning the plugin, or bringing it to its version, failed.
    Failed(GitError),
}

/// Model of an [`InstallOutcome`].
pub enum InstallOutcomeView {
    AlreadyInstalled,
    Installed(VersionView),
    Failed(GitErrorView),
}

impl View for InstallOutcome {
    type V = InstallOutcomeView;

    open spec fn view(&self) -> InstallOutcomeView {
        match self {
            InstallOutcome::AlreadyInstalled => InstallOutcomeView::AlreadyInstalled,
            InstallOutcome::Installed(version) => InstallOutcomeView::Installed(version@),
            InstallOutcome::Failed(error) => InstallOutcomeView::Failed(error@),
        }
    }
}

impl DeepView for InstallOutcome {
    type V = InstallOutcomeView;

    open spec fn deep_view(&self) -> InstallOutcomeView {
        self@
    }
}

impl Clone for InstallOutcome {
    fn clone(&self) -> (r: Self)
        ensures
            r@ == self@,
    {
        match self {
            InstallOutcome::AlreadyInstalled => InstallOutcome::AlreadyInstalled,
            InstallOutcome::Installed(version) => InstallOutcome::Installed(version.clone()),
            InstallOutcome::Failed(error) => InstallOutcome::Failed(error.clone()),
        }
    }
}

impl InstallOutcomeView {
    /// The line of the report for the plugin `name`: outcomes that are no
    /// failure go to the standard stream, failures to the error stream.
    pub open spec fn line(self, name: Seq<char>) -> ReportLineView {
        match self {
            InstallOutcomeView::AlreadyInstalled => ReportLineView {
                stream: Stream::Standard,
                text: "  [OK] "@ + name + " (already installed)"@,
            },
            InstallOutcomeView::Installed(version) => ReportLineView {
                stream: Stream::Standard,
                text: "  [OK] "@ + name + " ("@ + version.text() + ")"@,
            },
            InstallOutcomeView::Failed(error) => ReportLineView {
                stream: Stream::Error,
                text: "  [ERROR] "@ + name + " - Failed to install: "@ + InstallErrorView::Git(
                    error,
                ).text(),
            },
        }
    }
}

impl InstallOutcome {
    /// The line of the report for the plugin `name`.
    pub fn report(&self, name: &str) -> (line: ReportLine)
        ensures
            line@ == self@.line(name@),
    {
        match self {
            InstallOutcome::AlreadyInstalled => {
                let mut text = String::from_str("  [OK] ");
                text.append(name);
                text.append(" (already installed)");
                ReportLine { stream: Stream::Standard, text: text }
            },
            InstallOutcome::Installed(version) => {
                let shown = version.to_string();
                let mut text = String::from_str("  [OK] ");
                text.append(name);
                text.append(" (");
                text.append(shown.as_str());
                text.append(")");
                ReportLine { stream: Stream::Standard, text: text }
            },
            InstallOutcome::Failed(error) => {
                let inner = error.to_string();
                let mut text = String::from_str("  [ERROR] ");
                text.append(name);
                text.append(" - Failed to install: ");
                text.append("Git operation failed: ");
                text.append(inner.as_str());
                assert(text@ =~= self@.line(name@).text);
                ReportLine { stream: Stream::Error, text: text }
            },
        }
    }
}

/// The next move of [`InstallJob::step`].
#[derive(Debug, PartialEq, Eq)]
pub enum PipelineStep {
    /// Run this command and come back with its completion.
    Run(Invocation),
    /// The job is over, with this outcome.
    Done(InstallOutcome),
}

impl View for PipelineStep {
    type V = StepView<InstallOutcomeView>;

    open spec fn view(&self) -> StepView<InstallOutcomeView> {
        match self {
            PipelineStep::Run(inv) => StepView::Run(inv@),
            PipelineStep::Done(outcome) => StepView::Done(outcome@),
        }
    }
}

/// The outcome of a job once its version step says `step`: a version in
/// place means `Installed` after a fresh clone and `AlreadyInstalled` where
/// the directory was present.
pub open spec fn settled(
    present: bool,
    step: StepView<Result<VersionView, InstallErrorView>>,
) -> StepView<InstallOutcomeView> {
    match step {
        StepView::Run(inv) => StepView::Run(inv),
        StepView::Done(Ok(version)) => StepView::Done(
            if present {
                InstallOutcomeView::AlreadyInstalled
            } else {
                InstallOutcomeView::Installed(version)
            },
        ),
        StepView::Done(Err(InstallErrorView::Git(error))) => StepView::Done(
            InstallOutcomeView::Failed(error),
        ),
        StepView::Done(Err(InstallErrorView::AlreadyInstalled)) => StepView::Done(
            InstallOutcomeView::AlreadyInstalled,
        ),
    }
}

/// One plugin's way through the install pass, as a function of what is
/// known so far: whether its directory is present, and the completions of
/// the commands run for it.
///
/// The plugin is installed first. Whether that cloned it or found it
/// present, its version is chosen next; only a failed clone ends the job
/// before that.
pub open spec fn pipeline(
    spec: PluginSpecView,
    dest: Seq<char>,
    present: bool,
    replies: Seq<CompletionView>,
) -> StepView<InstallOutcomeView> {
    match installation(spec, dest, present, replies) {
        StepView::Run(inv) => StepView::Run(inv),
        StepView::Done(Err(InstallErrorView::Git(error))) => StepView::Done(
            InstallOutcomeView::Failed(error),
        ),
        StepView::Done(Err(InstallErrorView::AlreadyInstalled)) => settled(
            true,
            resolution(spec, dest, replies),
        ),
        StepView::Done(Ok(())) => settled(false, resolution(spec, dest, replies.skip(1))),
    }
}

/// Decides [`settled`].
fn settle(present: bool, step: VersionStep) -> (out: PipelineStep)
    ensures
        out@ == settled(present, step@),
{
    match step {
        VersionStep::Run(inv) => PipelineStep::Run(inv),
        VersionStep::Done(Ok(version)) => if present {
            PipelineStep::Done(InstallOutcome::AlreadyInstalled)
        } else {
            PipelineStep::Done(InstallOutcome::Installed(version))
        },
        VersionStep::Done(Err(InstallError::Git(error))) => PipelineStep::Done(
            InstallOutcome::Failed(error),
        ),
        VersionStep::Done(Err(InstallError::AlreadyInstalled)) => PipelineStep::Done(
            InstallOutcome::AlreadyInstalled,
        ),
    }
}

/// One plugin to install: its name, its declaration, and its directory.
#[derive(Debug, PartialEq, Eq)]
pub struct InstallJob {
    pub name: String,
    pub spec: PluginSpec,
    pub destination: String,
}

/// Model of an [`InstallJob`].
pub struct InstallJobView {
    pub name: Seq<char>,
    pub spec: PluginSpecView,
    pub destination: Seq<char>,
}

impl View for InstallJob {
    type V = InstallJobView;

    open spec fn view(&self) -> InstallJobView {
        InstallJobView { name: self.name@, spec: self.spec@, destination: self.destination@ }
    }
}

impl DeepView for InstallJob {
    type V = InstallJobView;

    open spec fn deep_view(&self) -> InstallJobView {
        self@
    }
}

/// The job for the plugin declared as `entry`, under the plugins root
/// `root`: the plugin's directory is named after it.
pub open spec fn install_job(root: Seq<char>, entry: (Seq<char>, PluginSpecView)) -> InstallJobView {
    InstallJobView { name: entry.0, spec: entry.1, destination: joined(root, entry.0) }
}

/// The names of the plugins that `jobs` install, in order.
pub open spec fn job_names(jobs: Seq<InstallJobView>) -> Seq<Seq<char>> {
    jobs.map_values(|job: InstallJobView| job.name)
}

/// One job for each declared plugin, under the plugin's name. A file that
/// declares nothing gives no job, and a file in which no name occurs twice
/// gives no two jobs for one plugin.
pub fn install_plugins(root: &str, file: &PluginSpecFile) -> (jobs: Vec<InstallJob>)
    ensures
        jobs.deep_view() == file.entries().map_values(
            |entry: (Seq<char>, PluginSpecView)| install_job(root@, entry),
        ),
        jobs@.len() == file.entries().len(),
        job_names(jobs.deep_view()) == file.names(),
        file.wf() ==> job_names(jobs.deep_view()).no_duplicates(),
{
    let mut jobs: Vec<InstallJob> = Vec::new();
    let mut at: usize = 0;
    while at < file.len()
        invariant
            at <= file.entries().len(),
            jobs@.len() == at,
            forall|i: int|
                0 <= i < at ==> (#[trigger] jobs@[i])@ == install_job(root@, file.entries()[i]),
        decreases file.entries().len() - at,
    {
        let name = file.name_at(at);
        jobs.push(
            InstallJob {
                name: String::from_str(name),
                spec: file.spec_at(at).clone(),
                destination: join_path(root, name),
            },
        );
        at += 1;
    }
    assert(jobs.deep_view() =~= file.entries().map_values(
        |entry: (Seq<char>, PluginSpecView)| install_job(root@, entry),
    ));
    assert(job_names(jobs.deep_view()) =~= file.names());
    jobs
}

impl InstallJob {
    /// The next move for this plugin.
    ///
    /// `present` says whether the plugin's directory existed when the job
    /// began; `replies` holds, in order, the completions of the commands that
    /// earlier moves asked for.
    pub fn step(&self, present: bool, replies: &[Completion]) -> (out: PipelineStep)
        ensures
            out@ == pipeline(self.spec@, self.destination@, present, replies.deep_view()),
    {
        let dest = self.destination.as_str();
        match self.spec.try_install(dest, present, replies) {
            InstallStep::Run(inv) => PipelineStep::Run(inv),
            InstallStep::Done(Err(InstallError::Git(error))) => PipelineStep::Done(
                InstallOutcome::Failed(error),
            ),
            InstallStep::Done(Err(InstallError::AlreadyInstalled)) => settle(
                true,
                self.spec.choose_version(dest, replies),
            ),
            InstallStep::Done(Ok(())) => {
                let rest = slice_subrange(replies, 1, replies.len());
                assert(rest.deep_view() =~= replies.deep_view().skip(1));
                settle(false, self.spec.choose_version(dest, rest))
            },
        }
    }
}

/// Installing is idempotent. On a clean root the first move is the clone,
/// and a job that began without its directory never ends as
/// `AlreadyInstalled`. Where the directory is present no clone is ever asked
/// for: every command of the job runs inside that directory, and the job
/// never ends as `Installed`. So where all goes well, the run that finds no
/// directory ends as `Installed` and the run after it as `AlreadyInstalled`.
pub proof fn theorem_install_is_idempotent(
    spec: PluginSpecView,
    dest: Seq<char>,
    replies: Seq<CompletionView>,
)
    ensures
        pipeline(spec, dest, false, Seq::empty()) == StepView::<InstallOutcomeView>::Run(
            git_invocation(None, clone_args(spec.url(), dest)),
        ),
        pipeline(spec, dest, false, replies) matches StepView::Done(outcome) ==> !(outcome
            is AlreadyInstalled),
        pipeline(spec, dest, true, replies) matches StepView::Run(inv) ==> inv.working_dir == Some(
            dest,
        ) && inv != git_invocation(None, clone_args(spec.url(), dest)),
        pipeline(spec, dest, true, replies) matches StepView::Done(outcome) ==> !(outcome
            is Installed),
        went_well(spec, false, replies) ==> (pipeline(
            spec,
            dest,
            false,
            replies,
        ) matches StepView::Done(outcome) ==> outcome is Installed),
        went_well(spec, true, replies) ==> (pipeline(
            spec,
            dest,
            true,
            replies,
        ) matches StepView::Done(outcome) ==> outcome is AlreadyInstalled),
{
    theorem_failure_is_the_plugins_own(spec, dest, false, replies);
    theorem_failure_is_the_plugins_own(spec, dest, true, replies);
}

/// A job is over after four commands at most.
pub proof fn theorem_job_concludes(
    spec: PluginSpecView,
    dest: Seq<char>,
    present: bool,
    replies: Seq<CompletionView>,
)
    ensures
        replies.len() >= 4 ==> pipeline(spec, dest, present, replies) is Done,
{
}

/// The place among a job's replies of the answer to the default-branch
/// query, where the job makes that query: after the fetch, which follows
/// the clone where the directory was not present.
pub open spec fn branch_reply_at(present: bool) -> int {
    if present {
        1
    } else {
        2
    }
}

/// Whether all went well for a job so far: each of its commands exited with
/// status zero, and the default-branch query, where the job made it and has
/// its answer, named a branch.
pub open spec fn went_well(spec: PluginSpecView, present: bool, replies: Seq<CompletionView>) -> bool {
    &&& forall|i: int| 0 <= i < replies.len() ==> (#[trigger] replies[i]).succeeded()
    &&& spec.declared_version() is None && replies.len() > branch_reply_at(present)
        ==> names_branch(replies[branch_reply_at(present)])
}

/// A plugin fails on its own account only: a job that ends as `Failed` has
/// seen one of its own commands fail, or has asked for the default branch
/// and was named none. A job for which all went well does not end as
/// `Failed`.
pub proof fn theorem_failure_is_the_plugins_own(
    spec: PluginSpecView,
    dest: Seq<char>,
    present: bool,
    replies: Seq<CompletionView>,
)
    ensures
        pipeline(spec, dest, present, replies) matches StepView::Done(
            InstallOutcomeView::Failed(_),
        ) ==> (exists|i: int| 0 <= i < replies.len() && !(#[trigger] replies[i]).succeeded()) || (
        spec.declared_version() is None && replies.len() > branch_reply_at(present)
            && !names_branch(replies[branch_reply_at(present)])),
        went_well(spec, present, replies) ==> !(pipeline(
            spec,
            dest,
            present,
            replies,
        ) matches StepView::Done(InstallOutcomeView::Failed(_))),
{
    if pipeline(spec, dest, present, replies) matches StepView::Done(
        InstallOutcomeView::Failed(_),
    ) {
        let shift: int = if present {
            0
        } else {
            1
        };
        let rest = replies.skip(shift);
        assert(replies.len() > 0);
        if !present && !replies[0].succeeded() {
        } else {
            assert(replies.len() > shift);
            assert(forall|i: int| 0 <= i < rest.len() ==> rest[i] == replies[i + shift]);
            if !rest[0].succeeded() {
                assert(!replies[shift].succeeded());
            } else if spec.declared_version() is Some {
                assert(rest.skip(1)[0] == replies[1 + shift]);
                assert(!replies[1 + shift].succeeded());
            } else if !names_branch(rest[1]) {
                assert(rest[1] == replies[branch_reply_at(present)]);
            } else {
                assert(rest.skip(2)[0] == replies[2 + shift]);
                assert(!replies[2 + shift].succeeded());
            }
        }
    }
}

/// What a job of the install pass needs next.
#[derive(Debug, PartialEq, Eq)]
pub enum JobMove {
    /// Find out whether the directory at this path exists.
    Probe(String),
    /// Run this command.
    Run(Invocation),
    /// Nothing: the job is over, with this outcome.
    Done(InstallOutcome),
}

/// Model of a [`JobMove`].
pub enum JobMoveView {
    Probe(Seq<char>),
    Run(InvocationView),
    Done(InstallOutcomeView),
}

impl View for JobMove {
    type V = JobMoveView;

    open spec fn view(&self) -> JobMoveView {
        match self {
            JobMove::Probe(path) => JobMoveView::Probe(path@),
            JobMove::Run(inv) => JobMoveView::Run(inv@),
            JobMove::Done(outcome) => JobMoveView::Done(outcome@),
        }
    }
}

/// The install pass over all declared plugins: what is known of every job.
///
/// The pass only records and decides. Its caller carries out the moves, as
/// many at a time as it likes and in any order, and reports each result
/// back with the number of the job it belongs to.
#[derive(Debug)]
pub struct InstallPass {
    jobs: Vec<InstallJob>,
    probes: Vec<Option<bool>>,
    replies: Vec<Vec<Completion>>,
}

/// Model of an [`InstallPass`]: for each job, whether its directory was
/// found present, if that is known yet, and the completions of its commands
/// so far.
pub struct InstallPassView {
    pub jobs: Seq<InstallJobView>,
    pub probes: Seq<Option<bool>>,
    pub replies: Seq<Seq<CompletionView>>,
}

impl InstallPassView {
    /// Whether the pass holds one record for each job.
    pub open spec fn wf(self) -> bool {
        self.probes.len() == self.jobs.len() && self.replies.len() == self.jobs.len()
    }

    /// What the job `job` needs next: the probe of its directory first, then
    /// whatever its pipeline says.
    pub open spec fn job_move(self, job: int) -> JobMoveView {
        match self.probes[job] {
            None => JobMoveView::Probe(self.jobs[job].destination),
            Some(present) => match pipeline(
                self.jobs[job].spec,
                self.jobs[job].destination,
                present,
                self.replies[job],
            ) {
                StepView::Run(inv) => JobMoveView::Run(inv),
                StepView::Done(outcome) => JobMoveView::Done(outcome),
            },
        }
    }

    /// Whether the pass is over: every job is. Only then is every plugin's
    /// directory in its final state.
    pub open spec fn over(self) -> bool {
        forall|job: int| 0 <= job < self.jobs.len() ==> #[trigger] self.job_move(job) is Done
    }

    /// The pass once the probe of the job `job` has said `present`. A job
    /// that is not waiting for its probe takes no notice.
    pub open spec fn after_probe(self, job: int, present: bool) -> InstallPassView {
        if self.probes[job] is None {
            InstallPassView { probes: self.probes.update(job, Some(present)), ..self }
        } else {
            self
        }
    }

    /// The pass once a command of the job `job` has completed with `reply`.
    /// A job that is not waiting for a command takes no notice.
    pub open spec fn after_completion(self, job: int, reply: CompletionView) -> InstallPassView {
        if self.job_move(job) is Run {
            InstallPassView {
                replies: self.replies.update(job, self.replies[job].push(reply)),
                ..self
            }
        } else {
            self
        }
    }
}

impl View for InstallPass {
    type V = InstallPassView;

    closed spec fn view(&self) -> InstallPassView {
        InstallPassView {
            jobs: self.jobs.deep_view(),
            probes: self.probes@,
            replies: self.replies.deep_view(),
        }
    }
}

impl InstallPass {
    /// The invariant of the type: one record for each job.
    pub open spec fn wf(&self) -> bool {
        self@.wf()
    }

    /// The pass for the plugins that `file` declares, under the plugins root
    /// `root`, with nothing known yet: one job for each declared name, and
    /// no two for one name where the file holds each name once. A file that
    /// declares nothing gives a pass that is over before it began.
    pub fn new(root: &str, file: &PluginSpecFile) -> (pass: InstallPass)
        ensures
            pass.wf(),
            pass@.jobs == file.entries().map_values(
                |entry: (Seq<char>, PluginSpecView)| install_job(root@, entry),
            ),
            job_names(pass@.jobs) == file.names(),
            file.wf() ==> job_names(pass@.jobs).no_duplicates(),
            forall|job: int| 0 <= job < pass@.jobs.len() ==> pass@.probes[job] is None,
            forall|job: int| 0 <= job < pass@.jobs.len() ==> pass@.replies[job].len() == 0,
            file.entries().len() == 0 ==> pass@.over(),
    {
        let jobs = install_plugins(root, file);
        let mut probes: Vec<Option<bool>> = Vec::new();
        let mut replies: Vec<Vec<Completion>> = Vec::new();
        let mut at: usize = 0;
        while at < jobs.len()
            invariant
                at <= jobs.len(),
                probes@.len() == at,
                replies@.len() == at,
                forall|job: int| 0 <= job < at ==> probes@[job] is None,
                forall|job: int| 0 <= job < at ==> (#[trigger] replies@[job])@.len() == 0,
            decreases jobs.len() - at,
        {
            probes.push(None);
            replies.push(Vec::new());
            at += 1;
        }
        InstallPass { jobs: jobs, probes: probes, replies: replies }
    }

    /// The number of jobs.
    pub fn len(&self) -> (n: usize)
        ensures
            n == self@.jobs.len(),
    {
        self.jobs.len()
    }

    /// The name of the plugin that the job `job` installs.
    pub fn name(&self, job: usize) -> (name: &str)
        requires
            job < self@.jobs.len(),
        ensures
            name@ == self@.jobs[job as int].name,
    {
        self.jobs[job].name.as_str()
    }

    /// What the job `job` needs next.
    pub fn next(&self, job: usize) -> (r: JobMove)
        requires
            self.wf(),
            job < self@.jobs.len(),
        ensures
            r@ == self@.job_move(job as int),
    {
        match self.probes[job] {
            None => JobMove::Probe(self.jobs[job].destination.clone()),
            Some(present) => match self.jobs[job].step(present, self.replies[job].as_slice()) {
                PipelineStep::Run(inv) => JobMove::Run(inv),
                PipelineStep::Done(outcome) => JobMove::Done(outcome),
            },
        }
    }

    /// Records what the probe of the job `job` found.
    pub fn probed(&mut self, job: usize, present: bool)
        requires
            old(self).wf(),
            job < old(self)@.jobs.len(),
        ensures
            final(self).wf(),
            final(self)@ == old(self)@.after_probe(job as int, present),
    {
        if self.probes[job].is_none() {
            self.probes[job] = Some(present);
        }
    }

    /// Records the completion of a command of the job `job`.
    pub fn completed(&mut self, job: usize, reply: Completion)
        requires
            old(self).wf(),
            job < old(self)@.jobs.len(),
        ensures
            final(self).wf(),
            final(self)@ == old(self)@.after_completion(job as int, reply@),
    {
        let waiting = match self.next(job) {
            JobMove::Run(_) => true,
            _ => false,
        };
        if waiting {
            let ghost before = self.replies.deep_view();
            let ghost stored = self.replies@;
            self.replies[job].push(reply);
            proof {
                assert(self.replies@.len() == stored.len());
                assert(self.replies@[job as int]@ == stored[job as int]@.push(reply));
                assert(forall|i: int|
                    0 <= i < stored.len() && i != job ==> self.replies@[i] == stored[i]);
                assert(self.replies@[job as int].deep_view() =~= before[job as int].push(reply@));
                assert(self.replies.deep_view() =~= before.update(
                    job as int,
                    before[job as int].push(reply@),
                ));
            }
        }
    }

    /// Whether the pass is over.
    pub fn is_over(&self) -> (r: bool)
        requires
            self.wf(),
        ensures
            r == self@.over(),
    {
        let mut job: usize = 0;
        while job < self.jobs.len()
            invariant
                self.wf(),
                job <= self@.jobs.len(),
                forall|done: int| 0 <= done < job ==> #[trigger] self@.job_move(done) is Done,
            decreases self@.jobs.len() - job,
        {
            match self.next(job) {
                JobMove::Done(_) => {},
                _ => {
                    return false;
                },
            }
            job += 1;
        }
        true
    }
}

/// What is recorded for one job leaves every other job as it was.
pub proof fn theorem_records_are_local(
    pass: InstallPassView,
    job: int,
    present: bool,
    reply: CompletionView,
    other: int,
)
    requires
        pass.wf(),
        0 <= job < pass.jobs.len(),
        0 <= other < pass.jobs.len(),
        other != job,
    ensures
        pass.after_probe(job, present).job_move(other) == pass.job_move(other),
        pass.after_completion(job, reply).job_move(other) == pass.job_move(other),
{
}

/// The order in which the results of two different jobs arrive makes no
/// difference to the pass, be they probes or completions.
pub proof fn theorem_arrival_order_is_immaterial(
    pass: InstallPassView,
    one: int,
    found: bool,
    first: CompletionView,
    two: int,
    present: bool,
    second: CompletionView,
)
    requires
        pass.wf(),
        0 <= one < pass.jobs.len(),
        0 <= two < pass.jobs.len(),
        one != two,
    ensures
        pass.after_completion(one, first).after_completion(two, second) == pass.after_completion(
            two,
            second,
        ).after_completion(one, first),
        pass.after_probe(one, found).after_probe(two, present) == pass.after_probe(
            two,
            present,
        ).after_probe(one, found),
        pass.after_probe(one, found).after_completion(two, second) == pass.after_completion(
            two,
            second,
        ).after_probe(one, found),
{
    assert(pass.after_completion(one, first).job_move(two) == pass.job_move(two));
    assert(pass.after_completion(two, second).job_move(one) == pass.job_move(one));
    assert(pass.after_probe(one, found).job_move(two) == pass.job_move(two));
    assert(pass.after_completion(one, first).after_completion(two, second).replies
        =~= pass.after_completion(two, second).after_completion(one, first).replies);
    assert(pass.after_probe(one, found).after_probe(two, present).probes =~= pass.after_probe(
        two,
        present,
    ).after_probe(one, found).probes);
}

/// A job that is over stays over, with the outcome it has: nothing that
/// arrives later is taken into account.
pub proof fn theorem_outcomes_are_final(
    pass: InstallPassView,
    job: int,
    present: bool,
    reply: CompletionView,
)
    requires
        pass.wf(),
        0 <= job < pass.jobs.len(),
        pass.job_move(job) is Done,
    ensures
        pass.after_probe(job, present) == pass,
        pass.after_completion(job, reply) == pass,
{
}

/// In a pass, a job ends as `Failed` only on its own account: one of its
/// own commands failed, or its query for the default branch was named none.
/// Where all went well for it, it ends as `Installed` or as
/// `AlreadyInstalled`, however many other jobs fail.
pub proof fn theorem_a_job_fails_on_its_own_account(pass: InstallPassView, job: int)
    requires
        pass.wf(),
        0 <= job < pass.jobs.len(),
    ensures
        pass.probes[job] matches Some(present) ==> {
            let spec = pass.jobs[job].spec;
            let replies = pass.replies[job];
            &&& pass.job_move(job) matches JobMoveView::Done(InstallOutcomeView::Failed(_)) ==> (
            exists|i: int| 0 <= i < replies.len() && !(#[trigger] replies[i]).succeeded()) || (
            spec.declared_version() is None && replies.len() > branch_reply_at(present)
                && !names_branch(replies[branch_reply_at(present)]))
            &&& went_well(spec, present, replies) ==> !(pass.job_move(job) matches JobMoveView::Done(
                InstallOutcomeView::Failed(_),
            ))
        },
        pass.probes[job] is None ==> pass.job_move(job) is Probe,
{
    match pass.probes[job] {
        Some(present) => {
            theorem_failure_is_the_plugins_own(
                pass.jobs[job].spec,
                pass.jobs[job].destination,
                present,
                pass.replies[job],
            );
        },
        None => {},
    }
}

} // verus!
