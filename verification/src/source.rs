//! Loading the installed plugins into tmux.
//!
//! A plugin either ships one entry script, `plux.tmux`, which is sourced and
//! is then the plugin's only load action, or it is loaded by running every
//! `*.tmux` file in its directory.
//!
//! [`source_actions`] plans the loading of one plugin; [`SourcePass`] keeps
//! the books for all of them and says when the pass is over.

use crate::murus::{
    done_view, load_outcome, run_shell_args, source_args, tmux_invocation, Error, Tmux,
};
use crate::plugin::PluginSpecFile;
use crate::process::{Completion, CompletionView, Invocation, InvocationView};
use crate::report::{ReportLine, ReportLineView, Stream};
use crate::text::{ends_with, join_path, joined, str_eq};
use vstd::prelude::*;
use vstd::string::StringExecFns;

verus! {

/// One way of loading a file of a plugin into tmux.
#[derive(Debug, PartialEq, Eq)]
pub enum SourceAction {
    /// Source the file at this path.
    SourceFile(String),
    /// Run the script at this path in the background.
    RunScript(String),
}

/// Model of a [`SourceAction`].
pub enum SourceActionView {
    SourceFile(Seq<char>),
    RunScript(Seq<char>),
}

impl View for SourceAction {
    type V = SourceActionView;

    open spec fn view(&self) -> SourceActionView {
        match self {
            SourceAction::SourceFile(path) => SourceActionView::SourceFile(path@),
            SourceAction::RunScript(path) => SourceActionView::RunScript(path@),
        }
    }
}

impl DeepView for SourceAction {
    type V = SourceActionView;

    open spec fn deep_view(&self) -> SourceActionView {
        self@
    }
}

impl Clone for SourceAction {
    fn clone(&self) -> (r: Self)
        ensures
            r@ == self@,
    {
        match self {
            SourceAction::SourceFile(path) => SourceAction::SourceFile(path.clone()),
            SourceAction::RunScript(path) => SourceAction::RunScript(path.clone()),
        }
    }
}

impl SourceActionView {
    /// The tmux invocation that performs the action.
    pub open spec fn invocation(self) -> InvocationView {
        match self {
            SourceActionView::SourceFile(path) => tmux_invocation(source_args(path), true),
            SourceActionView::RunScript(path) => tmux_invocation(run_shell_args(path), true),
        }
    }
}

/// The name of the entry script that takes precedence.
pub open spec fn entry_script() -> Seq<char> {
    "plux.tmux"@
}

/// Whether a file of this name is a script to run: its extension is `tmux`,
/// so the name ends in `.tmux` and has something before the dot.
pub open spec fn is_script(name: Seq<char>) -> bool {
    ".tmux"@.is_suffix_of(name) && name.len() > ".tmux"@.len()
}

/// The script to run for the entry `name` of the directory `dir`.
pub open spec fn script_action(dir: Seq<char>, name: Seq<char>) -> SourceActionView {
    SourceActionView::RunScript(joined(dir, name))
}

/// The load actions for a plugin whose directory `dir` holds `entries`.
///
/// With an entry named exactly `plux.tmux`, that file is sourced and nothing
/// else happens. Without one, every entry with the extension `tmux` is run,
/// each on its own, in the order of the listing.
pub open spec fn load_plan(dir: Seq<char>, entries: Seq<Seq<char>>) -> Seq<SourceActionView> {
    if entries.contains(entry_script()) {
        seq![SourceActionView::SourceFile(joined(dir, entry_script()))]
    } else {
        run_plan(dir, entries)
    }
}

/// One script action for each of `entries` with the extension `tmux`, in
/// the order of the listing.
pub open spec fn run_plan(dir: Seq<char>, entries: Seq<Seq<char>>) -> Seq<SourceActionView> {
    entries.filter(|name: Seq<char>| is_script(name)).map_values(
        |name: Seq<char>| script_action(dir, name),
    )
}

/// How [`run_plan`] grows with one more entry.
proof fn lemma_run_plan_push(dir: Seq<char>, entries: Seq<Seq<char>>, name: Seq<char>)
    ensures
        run_plan(dir, entries.push(name)) == if is_script(name) {
            run_plan(dir, entries).push(script_action(dir, name))
        } else {
            run_plan(dir, entries)
        },
{
    reveal(Seq::filter);
    let longer = entries.push(name);
    assert(longer.drop_last() =~= entries);
    assert(longer.last() == name);
    if is_script(name) {
        assert(run_plan(dir, longer) =~= run_plan(dir, entries).push(script_action(dir, name)));
    }
}

/// What is reported of a load action that completed with `reply`: nothing
/// where it went well, otherwise the failure, on the error stream.
pub open spec fn failure_line(reply: CompletionView) -> Option<ReportLineView> {
    match load_outcome(reply) {
        Ok(()) => None,
        Err(error) => Some(ReportLineView { stream: Stream::Error, text: error.text() }),
    }
}

/// Decides [`is_script`].
pub fn has_script_extension(name: &str) -> (r: bool)
    ensures
        r == is_script(name@),
{
    ends_with(name, ".tmux") && name.unicode_len() > ".tmux".unicode_len()
}

/// Whether one of `entries` is named exactly `plux.tmux`.
pub fn has_entry_script(entries: &[String]) -> (r: bool)
    ensures
        r == entries.deep_view().contains(entry_script()),
{
    let mut at: usize = 0;
    while at < entries.len()
        invariant
            at <= entries.len(),
            forall|k: int| 0 <= k < at ==> entries.deep_view()[k] != entry_script(),
        decreases entries.len() - at,
    {
        if str_eq(entries[at].as_str(), "plux.tmux") {
            assert(entries.deep_view()[at as int] == entry_script());
            return true;
        }
        at += 1;
    }
    false
}

/// The load actions for a plugin whose directory `directory` holds the
/// entries named `entries`.
pub fn source_actions(directory: &str, entries: &[String]) -> (actions: Vec<SourceAction>)
    ensures
        actions.deep_view() == load_plan(directory@, entries.deep_view()),
{
    let mut actions: Vec<SourceAction> = Vec::new();
    if has_entry_script(entries) {
        actions.push(SourceAction::SourceFile(join_path(directory, "plux.tmux")));
        assert(actions.deep_view() =~= load_plan(directory@, entries.deep_view()));
        return actions;
    }
    let ghost names = entries.deep_view();
    let mut at: usize = 0;
    proof {
        reveal(Seq::filter);
        assert(names.take(0) =~= Seq::<Seq<char>>::empty());
        assert(actions.deep_view() =~= run_plan(directory@, names.take(0)));
    }
    while at < entries.len()
        invariant
            at <= entries.len(),
            names == entries.deep_view(),
            actions.deep_view() == run_plan(directory@, names.take(at as int)),
        decreases entries.len() - at,
    {
        let name = entries[at].as_str();
        proof {
            assert(names.take(at + 1) =~= names.take(at as int).push(name@));
            lemma_run_plan_push(directory@, names.take(at as int), name@);
        }
        if has_script_extension(name) {
            let ghost before = actions.deep_view();
            actions.push(SourceAction::RunScript(join_path(directory, name)));
            assert(actions.deep_view() =~= before.push(script_action(directory@, name@)));
        }
        at += 1;
    }
    assert(names.take(at as int) =~= names);
    actions
}

impl SourceAction {
    /// The tmux invocation that performs the action.
    pub fn command(&self, tmux: &Tmux) -> (inv: Invocation)
        ensures
            inv@ == self@.invocation(),
    {
        match self {
            SourceAction::SourceFile(path) => tmux.source_tmux_command(path.as_str()),
            SourceAction::RunScript(path) => tmux.run_shell_command(path.as_str()),
        }
    }

    /// The line to report for the completion of the action's invocation:
    /// none where it went well, otherwise the failure, for the error stream.
    pub fn report(&self, tmux: &Tmux, reply: &Completion) -> (line: Option<ReportLine>)
        ensures
            line.deep_view() == failure_line(reply@),
    {
        match self.finish(tmux, reply) {
            Ok(()) => None,
            Err(error) => Some(ReportLine { stream: Stream::Error, text: error.to_string() }),
        }
    }

    /// Reads the completion of the action's invocation. What it says bears
    /// on this action alone.
    pub fn finish(&self, tmux: &Tmux, reply: &Completion) -> (r: Result<(), Error>)
        ensures
            done_view(r) == load_outcome(reply@),
    {
        match self {
            SourceAction::SourceFile(_) => tmux.source_tmux(reply),
            SourceAction::RunScript(_) => tmux.run_shell(reply),
        }
    }
}

/// A plugin to load: its name and its directory.
#[derive(Debug, PartialEq, Eq)]
pub struct SourceJob {
    pub name: String,
    pub directory: String,
}

/// Model of a [`SourceJob`].
pub struct SourceJobView {
    pub name: Seq<char>,
    pub directory: Seq<char>,
}

impl View for SourceJob {
    type V = SourceJobView;

    open spec fn view(&self) -> SourceJobView {
        SourceJobView { name: self.name@, directory: self.directory@ }
    }
}

impl DeepView for SourceJob {
    type V = SourceJobView;

    open spec fn deep_view(&self) -> SourceJobView {
        self@
    }
}

/// The job that loads the plugin `name` under the plugins root `root`.
pub open spec fn source_job(root: Seq<char>, name: Seq<char>) -> SourceJobView {
    SourceJobView { name: name, directory: joined(root, name) }
}

/// What is reported where a plugin's directory could not be listed.
pub open spec fn unreadable_line(directory: Seq<char>, reason: Seq<char>) -> ReportLineView {
    ReportLineView {
        stream: Stream::Error,
        text: "Could not read plugin directory at "@ + directory + ": "@ + reason,
    }
}

/// The names of the plugins that `jobs` load, in order.
pub open spec fn job_names(jobs: Seq<SourceJobView>) -> Seq<Seq<char>> {
    jobs.map_values(|job: SourceJobView| job.name)
}

/// One job for each declared plugin, under the plugin's name, and for
/// nothing else: a directory under the root that no declaration names is
/// never loaded. A file in which no name occurs twice gives no two jobs for
/// one plugin.
pub fn source_plugins(root: &str, file: &PluginSpecFile) -> (jobs: Vec<SourceJob>)
    ensures
        jobs@.len() == file.names().len(),
        forall|i: int|
            0 <= i < jobs@.len() ==> (#[trigger] jobs@[i])@ == source_job(root@, file.names()[i]),
        job_names(jobs.deep_view()) == file.names(),
        file.wf() ==> job_names(jobs.deep_view()).no_duplicates(),
{
    let mut jobs: Vec<SourceJob> = Vec::new();
    let mut at: usize = 0;
    while at < file.len()
        invariant
            at <= file.entries().len(),
            jobs@.len() == at,
            forall|i: int| 0 <= i < at ==> (#[trigger] jobs@[i])@ == source_job(root@, file.names()[i]),
        decreases file.entries().len() - at,
    {
        let name = file.name_at(at);
        jobs.push(SourceJob { name: String::from_str(name), directory: join_path(root, name) });
        at += 1;
    }
    assert(job_names(jobs.deep_view()) =~= file.names());
    jobs
}

impl SourceJob {
    /// The load actions for the plugin, given the names of the entries of
    /// its directory.
    pub fn actions(&self, entries: &[String]) -> (actions: Vec<SourceAction>)
        ensures
            actions.deep_view() == load_plan(self.directory@, entries.deep_view()),
    {
        source_actions(self.directory.as_str(), entries)
    }

    /// The line to report where the plugin's directory could not be listed,
    /// for the reason given. Nothing is loaded for the plugin then.
    pub fn unreadable(&self, reason: &str) -> (line: ReportLine)
        ensures
            line@ == unreadable_line(self.directory@, reason@),
    {
        let mut text = String::from_str("Could not read plugin directory at ");
        text.append(self.directory.as_str());
        text.append(": ");
        text.append(reason);
        ReportLine { stream: Stream::Error, text: text }
    }
}

/// Where an entry script is present, the plan is to source it and to do
/// nothing else: one action, and no script is run.
pub proof fn theorem_entry_script_alone(dir: Seq<char>, entries: Seq<Seq<char>>)
    requires
        entries.contains(entry_script()),
    ensures
        load_plan(dir, entries) == seq![SourceActionView::SourceFile(joined(dir, entry_script()))],
        load_plan(dir, entries).len() == 1,
        forall|i: int| 0 <= i < load_plan(dir, entries).len() ==> !(load_plan(dir, entries)[i] is RunScript),
{
}

/// Without an entry script nothing is sourced, and every script among the
/// entries is run: the plan holds one action for each, in the order of the
/// listing, whatever becomes of the others.
pub proof fn theorem_every_script_runs(dir: Seq<char>, entries: Seq<Seq<char>>)
    requires
        !entries.contains(entry_script()),
    ensures
        load_plan(dir, entries).len() == entries.filter(|name: Seq<char>| is_script(name)).len(),
        forall|i: int|
            0 <= i < load_plan(dir, entries).len() ==> #[trigger] load_plan(dir, entries)[i]
                == script_action(dir, entries.filter(|name: Seq<char>| is_script(name))[i]),
        forall|k: int|
            0 <= k < entries.len() && is_script(entries[k]) ==> load_plan(dir, entries).contains(
                script_action(dir, #[trigger] entries[k]),
            ),
{
    broadcast use vstd::seq_lib::group_filter_ensures;

    let wanted = |name: Seq<char>| is_script(name);
    let scripts = entries.filter(wanted);
    assert forall|k: int| 0 <= k < entries.len() && is_script(entries[k]) implies load_plan(
        dir,
        entries,
    ).contains(script_action(dir, #[trigger] entries[k])) by {
        assert(wanted(entries[k]));
        entries.lemma_filter_contains(wanted, k);
        assert(scripts.contains(entries[k]));
        let at = scripts.index_of(entries[k]);
        assert(load_plan(dir, entries)[at] == script_action(dir, entries[k]));
    }
}

/// The source pass over all declared plugins: what is known of every job.
///
/// The pass only records and decides. Its caller lists the directories and
/// runs the commands, as many at a time as it likes and in any order, and
/// reports each result back with the numbers of the job and of the action
/// it belongs to.
#[derive(Debug)]
pub struct SourcePass {
    jobs: Vec<SourceJob>,
    plans: Vec<Option<Vec<SourceAction>>>,
    settled: Vec<Vec<bool>>,
}

/// Model of a [`SourcePass`]: for each job its load actions, once its
/// directory was listed, and for each action whether its command has
/// completed.
pub struct SourcePassView {
    pub jobs: Seq<SourceJobView>,
    pub plans: Seq<Option<Seq<SourceActionView>>>,
    pub settled: Seq<Seq<bool>>,
}

impl SourcePassView {
    /// Whether the pass holds one record for each job, and for each job one
    /// mark for each of its actions.
    pub open spec fn wf(self) -> bool {
        &&& self.plans.len() == self.jobs.len()
        &&& self.settled.len() == self.jobs.len()
        &&& forall|job: int|
            0 <= job < self.jobs.len() ==> (#[trigger] self.settled[job]).len() == match self.plans[job] {
                Some(plan) => plan.len(),
                None => 0,
            }
    }

    /// Whether the job `job` still waits for the listing of its directory.
    pub open spec fn unlisted(self, job: int) -> bool {
        self.plans[job] is None
    }

    /// Whether the action `action` of the job `job` still waits for the
    /// completion of its command.
    pub open spec fn pending(self, job: int, action: int) -> bool {
        &&& self.plans[job] is Some
        &&& 0 <= action < self.settled[job].len()
        &&& !self.settled[job][action]
    }

    /// Whether the job `job` is over: its directory was listed, and each of
    /// its commands has completed.
    pub open spec fn job_over(self, job: int) -> bool {
        &&& !self.unlisted(job)
        &&& forall|action: int|
            0 <= action < self.settled[job].len() ==> !self.pending(job, action)
    }

    /// Whether the pass is over: every job is.
    pub open spec fn over(self) -> bool {
        forall|job: int| 0 <= job < self.jobs.len() ==> #[trigger] self.job_over(job)
    }

    /// The pass once the directory of the job `job` was listed with the
    /// entries `entries`: the job has its plan, and all of it is pending. A
    /// job that was listed before takes no notice.
    pub open spec fn after_listing(self, job: int, entries: Seq<Seq<char>>) -> SourcePassView {
        if self.unlisted(job) {
            let plan = load_plan(self.jobs[job].directory, entries);
            SourcePassView {
                plans: self.plans.update(job, Some(plan)),
                settled: self.settled.update(job, Seq::new(plan.len(), |action: int| false)),
                ..self
            }
        } else {
            self
        }
    }

    /// The pass once the directory of the job `job` could not be listed:
    /// there is nothing to do for the job.
    pub open spec fn after_no_listing(self, job: int) -> SourcePassView {
        if self.unlisted(job) {
            SourcePassView {
                plans: self.plans.update(job, Some(Seq::empty())),
                settled: self.settled.update(job, Seq::empty()),
                ..self
            }
        } else {
            self
        }
    }

    /// The pass once the command of the action `action` of the job `job`
    /// has completed. An action that is not pending takes no notice.
    pub open spec fn after_completion(self, job: int, action: int) -> SourcePassView {
        if self.pending(job, action) {
            SourcePassView {
                settled: self.settled.update(job, self.settled[job].update(action, true)),
                ..self
            }
        } else {
            self
        }
    }
}

/// The commands of a plan, one for each action, in order.
pub open spec fn plan_invocations(plan: Seq<SourceActionView>) -> Seq<InvocationView> {
    plan.map_values(|action: SourceActionView| action.invocation())
}

/// Model of the plans of a pass.
pub open spec fn plans_view(plans: Seq<Option<Vec<SourceAction>>>) -> Seq<
    Option<Seq<SourceActionView>>,
> {
    plans.map_values(|plan: Option<Vec<SourceAction>>| plan.deep_view())
}

/// Model of the marks of a pass.
pub open spec fn marks_view(settled: Seq<Vec<bool>>) -> Seq<Seq<bool>> {
    settled.map_values(|marks: Vec<bool>| marks@)
}

impl View for SourcePass {
    type V = SourcePassView;

    closed spec fn view(&self) -> SourcePassView {
        SourcePassView {
            jobs: self.jobs.deep_view(),
            plans: plans_view(self.plans@),
            settled: marks_view(self.settled@),
        }
    }
}

impl SourcePass {
    /// The invariant of the type.
    pub open spec fn wf(&self) -> bool {
        self@.wf()
    }

    /// The pass for the plugins that `file` declares, under the plugins root
    /// `root`, with no directory listed yet: one job for each declared name,
    /// and no two for one name where the file holds each name once. A file
    /// that declares nothing gives a pass that is over before it began.
    pub fn new(root: &str, file: &PluginSpecFile) -> (pass: SourcePass)
        ensures
            pass.wf(),
            pass@.jobs.len() == file.names().len(),
            forall|job: int|
                0 <= job < pass@.jobs.len() ==> #[trigger] pass@.jobs[job] == source_job(
                    root@,
                    file.names()[job],
                ),
            job_names(pass@.jobs) == file.names(),
            file.wf() ==> job_names(pass@.jobs).no_duplicates(),
            forall|job: int| 0 <= job < pass@.jobs.len() ==> #[trigger] pass@.unlisted(job),
            file.names().len() == 0 ==> pass@.over(),
    {
        let jobs = source_plugins(root, file);
        let mut plans: Vec<Option<Vec<SourceAction>>> = Vec::new();
        let mut settled: Vec<Vec<bool>> = Vec::new();
        let mut at: usize = 0;
        while at < jobs.len()
            invariant
                at <= jobs.len(),
                plans@.len() == at,
                settled@.len() == at,
                forall|job: int| 0 <= job < at ==> plans@[job] is None,
                forall|job: int| 0 <= job < at ==> (#[trigger] settled@[job])@.len() == 0,
            decreases jobs.len() - at,
        {
            plans.push(None);
            settled.push(Vec::new());
            at += 1;
        }
        SourcePass { jobs: jobs, plans: plans, settled: settled }
    }

    /// The number of jobs.
    pub fn len(&self) -> (n: usize)
        ensures
            n == self@.jobs.len(),
    {
        self.jobs.len()
    }

    /// The directory that is to be listed for the job `job`.
    pub fn directory(&self, job: usize) -> (path: &str)
        requires
            job < self@.jobs.len(),
        ensures
            path@ == self@.jobs[job as int].directory,
    {
        self.jobs[job].directory.as_str()
    }

    /// Records the entries of the directory of the job `job`, and hands out
    /// the commands to run for it: one for each load action, all at once, so
    /// that none waits for another.
    pub fn listed(&mut self, job: usize, entries: &[String], tmux: &Tmux) -> (commands: Vec<
        Invocation,
    >)
        requires
            old(self).wf(),
            job < old(self)@.jobs.len(),
        ensures
            final(self).wf(),
            final(self)@ == old(self)@.after_listing(job as int, entries.deep_view()),
            commands.deep_view() == if old(self)@.unlisted(job as int) {
                plan_invocations(load_plan(old(self)@.jobs[job as int].directory, entries.deep_view()))
            } else {
                Seq::empty()
            },
    {
        let mut commands: Vec<Invocation> = Vec::new();
        if self.plans[job].is_some() {
            assert(commands.deep_view() =~= Seq::<InvocationView>::empty());
            return commands;
        }
        let actions = self.jobs[job].actions(entries);
        let mut marks: Vec<bool> = Vec::new();
        let mut at: usize = 0;
        while at < actions.len()
            invariant
                at <= actions.len(),
                marks@.len() == at,
                commands@.len() == at,
                forall|i: int| 0 <= i < at ==> !marks@[i],
                forall|i: int|
                    0 <= i < at ==> (#[trigger] commands@[i])@ == actions@[i]@.invocation(),
            decreases actions.len() - at,
        {
            commands.push(actions[at].command(tmux));
            marks.push(false);
            at += 1;
        }
        let ghost plan = actions.deep_view();
        let ghost plans_before = plans_view(self.plans@);
        let ghost marks_before = marks_view(self.settled@);
        self.plans[job] = Some(actions);
        self.settled[job] = marks;
        proof {
            assert(plans_view(self.plans@) =~= plans_before.update(job as int, Some(plan)));
            assert(marks@ =~= Seq::new(plan.len(), |action: int| false));
            assert(marks_view(self.settled@) =~= marks_before.update(job as int, marks@));
            assert(commands.deep_view() =~= plan_invocations(plan));
        }
        commands
    }

    /// Records that the directory of the job `job` could not be listed, for
    /// the reason given, and hands out the line to report.
    pub fn unreadable(&mut self, job: usize, reason: &str) -> (line: ReportLine)
        requires
            old(self).wf(),
            job < old(self)@.jobs.len(),
        ensures
            final(self).wf(),
            final(self)@ == old(self)@.after_no_listing(job as int),
            line@ == unreadable_line(old(self)@.jobs[job as int].directory, reason@),
    {
        let line = self.jobs[job].unreadable(reason);
        if self.plans[job].is_none() {
            let ghost plans_before = plans_view(self.plans@);
            let ghost marks_before = marks_view(self.settled@);
            let nothing: Vec<SourceAction> = Vec::new();
            assert(nothing.deep_view() =~= Seq::<SourceActionView>::empty());
            self.plans[job] = Some(nothing);
            self.settled[job] = Vec::new();
            proof {
                assert(plans_view(self.plans@) =~= plans_before.update(
                    job as int,
                    Some(Seq::<SourceActionView>::empty()),
                ));
                assert(marks_view(self.settled@) =~= marks_before.update(
                    job as int,
                    Seq::<bool>::empty(),
                ));
            }
        }
        line
    }

    /// Records the completion of the command of the action `action` of the
    /// job `job`, and hands out the line to report, if the command failed.
    /// What it says bears on this action alone.
    pub fn completed(&mut self, job: usize, action: usize, reply: &Completion, tmux: &Tmux) -> (line:
        Option<ReportLine>)
        requires
            old(self).wf(),
            job < old(self)@.jobs.len(),
        ensures
            final(self).wf(),
            final(self)@ == old(self)@.after_completion(job as int, action as int),
            line.deep_view() == if old(self)@.pending(job as int, action as int) {
                failure_line(reply@)
            } else {
                None
            },
    {
        if action >= self.settled[job].len() || self.settled[job][action] {
            return None;
        }
        let line = match &self.plans[job] {
            Some(plan) => plan[action].report(tmux, reply),
            None => {
                return None;
            },
        };
        let ghost marks_before = marks_view(self.settled@);
        let ghost stored = self.settled@;
        self.settled[job][action] = true;
        proof {
            assert(self.settled@.len() == stored.len());
            assert(self.settled@[job as int]@ == stored[job as int]@.update(action as int, true));
            assert(forall|i: int|
                0 <= i < stored.len() && i != job ==> self.settled@[i] == stored[i]);
            assert(marks_view(self.settled@) =~= marks_before.update(
                job as int,
                marks_before[job as int].update(action as int, true),
            ));
        }
        line
    }

    /// Whether the pass is over.
    pub fn is_over(&self) -> (r: bool)
        requires
            self.wf(),
        ensures
            r == self@.over(),
    {
        let mut job: usize = 0;
        while job < self.jobs.len()
            invariant
                self.wf(),
                job <= self@.jobs.len(),
                forall|done: int| 0 <= done < job ==> #[trigger] self@.job_over(done),
            decreases self@.jobs.len() - job,
        {
            if !self.job_is_over(job) {
                return false;
            }
            job += 1;
        }
        true
    }

    /// Whether the job `job` is over.
    fn job_is_over(&self, job: usize) -> (r: bool)
        requires
            self.wf(),
            job < self@.jobs.len(),
        ensures
            r == self@.job_over(job as int),
    {
        if self.plans[job].is_none() {
            return false;
        }
        let mut action: usize = 0;
        while action < self.settled[job].len()
            invariant
                self.wf(),
                job < self@.jobs.len(),
                action <= self@.settled[job as int].len(),
                self@.settled[job as int].len() == self.settled@[job as int]@.len(),
                !self@.unlisted(job as int),
                forall|a: int| 0 <= a < action ==> !self@.pending(job as int, a),
            decreases self@.settled[job as int].len() - action,
        {
            if !self.settled[job][action] {
                assert(self@.pending(job as int, action as int));
                return false;
            }
            action += 1;
        }
        true
    }
}

/// With an entry script among the entries a listing hands out one command,
/// which sources that script, and runs no script.
pub proof fn theorem_listing_sources_the_entry_script_alone(
    pass: SourcePassView,
    job: int,
    entries: Seq<Seq<char>>,
)
    requires
        pass.wf(),
        0 <= job < pass.jobs.len(),
        pass.unlisted(job),
        entries.contains(entry_script()),
    ensures
        pass.after_listing(job, entries).plans[job] == Some(
            seq![SourceActionView::SourceFile(joined(pass.jobs[job].directory, entry_script()))],
        ),
        plan_invocations(load_plan(pass.jobs[job].directory, entries)) == seq![
            tmux_invocation(source_args(joined(pass.jobs[job].directory, entry_script())), true),
        ],
{
    let plan = load_plan(pass.jobs[job].directory, entries);
    assert(plan_invocations(plan) =~= seq![
        tmux_invocation(source_args(joined(pass.jobs[job].directory, entry_script())), true),
    ]);
}

/// What becomes of one command leaves every other command as it was: the
/// other actions of the same job stay pending or settled, the plans stay
/// what they are, and so does every other job.
pub proof fn theorem_completions_are_local(
    pass: SourcePassView,
    job: int,
    action: int,
    other_job: int,
    other_action: int,
)
    requires
        pass.wf(),
        0 <= job < pass.jobs.len(),
        0 <= other_job < pass.jobs.len(),
        other_job != job || other_action != action,
    ensures
        pass.after_completion(job, action).plans == pass.plans,
        pass.after_completion(job, action).pending(other_job, other_action) == pass.pending(
            other_job,
            other_action,
        ),
{
}

} // verus!
