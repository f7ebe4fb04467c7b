//! Plugin specifications, and the two steps that bring one plugin to its
//! declared state: installing it and choosing its version.
//!
//! Both steps are decided from the replies received so far. A step either
//! names the next command to run or is done; the caller runs the command,
//! appends its completion to the replies and asks again.

use crate::git::{
    branch_name, checkout_args, checkout_outcome, clone_args, clone_outcome, default_branch_args,
    default_branch_outcome, fetch_args, fetch_outcome, git_invocation, names_branch,
    theorem_default_branch_has_a_name, Git, GitError, GitErrorView,
};
use crate::process::{Completion, CompletionView, Invocation, InvocationView};
use crate::text::{bare, str_eq, trim, trimmed};
use vstd::prelude::*;
use vstd::string::StringExecFns;

verus! {

/// Default location of the directory that holds the installed plugins.
pub const DEFAULT_PLUGINS_PATH: &'static str = "$HOME/.config/tmux/plux/";

/// Default location of the file that declares the plugins.
pub const DEFAULT_SPEC_PATH: &'static str = "$HOME/.config/tmux/plux.toml";

/// A version that a plugin is pinned to.
#[derive(Debug, PartialEq, Eq, Hash)]
pub enum Version {
    /// A git tag.
    Tag(String),
    /// A git commit hash.
    Commit(String),
    /// A git branch; its latest commit is used.
    Branch(String),
}

/// Model of a [`Version`].
pub enum VersionView {
    Tag(Seq<char>),
    Commit(Seq<char>),
    Branch(Seq<char>),
}

impl View for Version {
    type V = VersionView;

    open spec fn view(&self) -> VersionView {
        match self {
            Version::Tag(tag) => VersionView::Tag(tag@),
            Version::Commit(hash) => VersionView::Commit(hash@),
            Version::Branch(branch) => VersionView::Branch(branch@),
        }
    }
}

impl DeepView for Version {
    type V = VersionView;

    open spec fn deep_view(&self) -> VersionView {
        self@
    }
}

impl VersionView {
    /// The git reference that the version names.
    pub open spec fn reference(self) -> Seq<char> {
        match self {
            VersionView::Tag(tag) => tag,
            VersionView::Commit(hash) => hash,
            VersionView::Branch(branch) => branch,
        }
    }

    /// The word for the kind of version.
    pub open spec fn kind(self) -> Seq<char> {
        match self {
            VersionView::Tag(_) => "tag"@,
            VersionView::Commit(_) => "commit"@,
            VersionView::Branch(_) => "branch"@,
        }
    }

    /// The version as shown to the user: its kind, then the trimmed
    /// reference in single quotes.
    pub open spec fn text(self) -> Seq<char> {
        self.kind() + " '"@ + trimmed(self.reference()) + "'"@
    }
}

impl Clone for Version {
    fn clone(&self) -> (r: Self)
        ensures
            r@ == self@,
    {
        match self {
            Version::Tag(tag) => Version::Tag(tag.clone()),
            Version::Commit(hash) => Version::Commit(hash.clone()),
            Version::Branch(branch) => Version::Branch(branch.clone()),
        }
    }
}

impl Version {
    /// The git reference that the version names.
    pub fn reference(&self) -> (r: &str)
        ensures
            r@ == self@.reference(),
    {
        match self {
            Version::Tag(tag) => tag.as_str(),
            Version::Commit(hash) => hash.as_str(),
            Version::Branch(branch) => branch.as_str(),
        }
    }

    /// The version as shown to the user, such as `tag 'v1.0.0'`.
    pub fn to_string(&self) -> (r: String)
        ensures
            r@ == self@.text(),
    {
        let mut out = match self {
            Version::Tag(_) => String::from_str("tag"),
            Version::Commit(_) => String::from_str("commit"),
            Version::Branch(_) => String::from_str("branch"),
        };
        out.append(" '");
        out.append(trim(self.reference()));
        out.append("'");
        out
    }
}

/// A plugin declared with its URL and, optionally, a version.
#[derive(Debug, PartialEq, Eq, Hash)]
pub struct FullPluginSpec {
    /// URL of the git repository that hosts the plugin.
    pub url: String,
    /// The version to pin the plugin to, if any.
    pub tag_or_commit: Option<Version>,
}

/// Model of a [`FullPluginSpec`].
pub struct FullPluginSpecView {
    pub url: Seq<char>,
    pub tag_or_commit: Option<VersionView>,
}

impl View for FullPluginSpec {
    type V = FullPluginSpecView;

    open spec fn view(&self) -> FullPluginSpecView {
        FullPluginSpecView {
            url: self.url@,
            tag_or_commit: self.tag_or_commit.deep_view(),
        }
    }
}

impl DeepView for FullPluginSpec {
    type V = FullPluginSpecView;

    open spec fn deep_view(&self) -> FullPluginSpecView {
        self@
    }
}

impl Clone for FullPluginSpec {
    fn clone(&self) -> (r: Self)
        ensures
            r@ == self@,
    {
        let version = match &self.tag_or_commit {
            Some(v) => Some(v.clone()),
            None => None,
        };
        FullPluginSpec { url: self.url.clone(), tag_or_commit: version }
    }
}

/// The declaration of one plugin: its URL alone, or the full form.
#[derive(Debug, PartialEq, Eq, Hash)]
pub enum PluginSpec {
    Url(String),
    Full(FullPluginSpec),
}

/// Model of a [`PluginSpec`].
pub enum PluginSpecView {
    Url(Seq<char>),
    Full(FullPluginSpecView),
}

impl View for PluginSpec {
    type V = PluginSpecView;

    open spec fn view(&self) -> PluginSpecView {
        match self {
            PluginSpec::Url(url) => PluginSpecView::Url(url@),
            PluginSpec::Full(full) => PluginSpecView::Full(full@),
        }
    }
}

impl DeepView for PluginSpec {
    type V = PluginSpecView;

    open spec fn deep_view(&self) -> PluginSpecView {
        self@
    }
}

impl PluginSpecView {
    /// The URL of the plugin's repository, whatever the form of the
    /// declaration.
    pub open spec fn url(self) -> Seq<char> {
        match self {
            PluginSpecView::Url(url) => url,
            PluginSpecView::Full(full) => full.url,
        }
    }

    /// The version that the declaration pins the plugin to, if any.
    pub open spec fn declared_version(self) -> Option<VersionView> {
        match self {
            PluginSpecView::Url(_) => None,
            PluginSpecView::Full(full) => full.tag_or_commit,
        }
    }
}

impl Clone for PluginSpec {
    fn clone(&self) -> (r: Self)
        ensures
            r@ == self@,
    {
        match self {
            PluginSpec::Url(url) => PluginSpec::Url(url.clone()),
            PluginSpec::Full(full) => PluginSpec::Full(full.clone()),
        }
    }
}

/// Why a plugin was not installed, or not brought to its version.
#[derive(Debug, PartialEq, Eq)]
pub enum InstallError {
    /// The plugin's directory exists already; nothing was cloned.
    AlreadyInstalled,
    /// A version-control operation failed.
    Git(GitError),
}

/// Model of an [`InstallError`].
pub enum InstallErrorView {
    AlreadyInstalled,
    Git(GitErrorView),
}

impl View for InstallError {
    type V = InstallErrorView;

    open spec fn view(&self) -> InstallErrorView {
        match self {
            InstallError::AlreadyInstalled => InstallErrorView::AlreadyInstalled,
            InstallError::Git(error) => InstallErrorView::Git(error@),
        }
    }
}

impl DeepView for InstallError {
    type V = InstallErrorView;

    open spec fn deep_view(&self) -> InstallErrorView {
        self@
    }
}

impl Clone for InstallError {
    fn clone(&self) -> (r: Self)
        ensures
            r@ == self@,
    {
        match self {
            InstallError::AlreadyInstalled => InstallError::AlreadyInstalled,
            InstallError::Git(error) => InstallError::Git(error.clone()),
        }
    }
}

impl InstallErrorView {
    /// The error as one text for the user.
    pub open spec fn text(self) -> Seq<char> {
        match self {
            InstallErrorView::AlreadyInstalled => "Plugin is already installed."@,
            InstallErrorView::Git(error) => "Git operation failed: "@ + error.text(),
        }
    }
}

impl From<GitError> for InstallError {
    fn from(error: GitError) -> (r: InstallError) {
        InstallError::Git(error)
    }
}

impl vstd::std_specs::convert::FromSpecImpl<GitError> for InstallError {
    open spec fn obeys_from_spec() -> bool {
        true
    }

    open spec fn from_spec(error: GitError) -> InstallError {
        InstallError::Git(error)
    }
}

impl InstallError {
    /// The error as one text for the user.
    pub fn to_string(&self) -> (r: String)
        ensures
            r@ == self@.text(),
    {
        match self {
            InstallError::AlreadyInstalled => String::from_str("Plugin is already installed."),
            InstallError::Git(error) => {
                let inner = error.to_string();
                String::from_str("Git operation failed: ").concat(inner.as_str())
            },
        }
    }
}

/// What to do next in a step, as a model: run a command, or stop with `T`.
pub enum StepView<T> {
    Run(InvocationView),
    Done(T),
}

/// The next move of [`PluginSpec::try_install`].
#[derive(Debug, PartialEq, Eq)]
pub enum InstallStep {
    /// Run this command and come back with its completion.
    Run(Invocation),
    /// The step is over.
    Done(Result<(), InstallError>),
}

impl View for InstallStep {
    type V = StepView<Result<(), InstallErrorView>>;

    open spec fn view(&self) -> StepView<Result<(), InstallErrorView>> {
        match self {
            InstallStep::Run(inv) => StepView::Run(inv@),
            InstallStep::Done(Ok(())) => StepView::Done(Ok(())),
            InstallStep::Done(Err(error)) => StepView::Done(Err(error@)),
        }
    }
}

/// The next move of [`PluginSpec::choose_version`].
#[derive(Debug, PartialEq, Eq)]
pub enum VersionStep {
    /// Run this command and come back with its completion.
    Run(Invocation),
    /// The step is over: the version now in place, or why there is none.
    Done(Result<Version, InstallError>),
}

impl View for VersionStep {
    type V = StepView<Result<VersionView, InstallErrorView>>;

    open spec fn view(&self) -> StepView<Result<VersionView, InstallErrorView>> {
        match self {
            VersionStep::Run(inv) => StepView::Run(inv@),
            VersionStep::Done(Ok(version)) => StepView::Done(Ok(version@)),
            VersionStep::Done(Err(error)) => StepView::Done(Err(error@)),
        }
    }
}

/// Installing a plugin, as a function of what is known so far.
///
/// A destination that is present already ends the step at once, with no
/// command: the existing checkout is never cloned over. Otherwise the
/// repository is cloned one commit deep into the destination, and the clone's
/// completion decides.
pub open spec fn installation(
    spec: PluginSpecView,
    dest: Seq<char>,
    present: bool,
    replies: Seq<CompletionView>,
) -> StepView<Result<(), InstallErrorView>> {
    if present {
        StepView::Done(Err(InstallErrorView::AlreadyInstalled))
    } else if replies.len() == 0 {
        StepView::Run(git_invocation(None, clone_args(spec.url(), dest)))
    } else {
        match clone_outcome(spec.url(), replies[0]) {
            Ok(()) => StepView::Done(Ok(())),
            Err(error) => StepView::Done(Err(InstallErrorView::Git(error))),
        }
    }
}

/// The end of version resolution: check `target` out in `repo`, and report
/// it as the version in place once that has succeeded.
pub open spec fn checkout_step(
    repo: Option<Seq<char>>,
    target: VersionView,
    replies: Seq<CompletionView>,
) -> StepView<Result<VersionView, InstallErrorView>> {
    if replies.len() == 0 {
        StepView::Run(git_invocation(repo, checkout_args(target.reference())))
    } else {
        match checkout_outcome(target.reference(), replies[0]) {
            Ok(()) => StepView::Done(Ok(target)),
            Err(error) => StepView::Done(Err(InstallErrorView::Git(error))),
        }
    }
}

/// Choosing a plugin's version, as a function of the replies so far.
///
/// Tags and branches are fetched first. The target is the declared version,
/// or else the remote's default branch as it is at this moment, which takes
/// one more query. The target is then checked out.
pub open spec fn resolution(
    spec: PluginSpecView,
    dest: Seq<char>,
    replies: Seq<CompletionView>,
) -> StepView<Result<VersionView, InstallErrorView>> {
    let repo = Some(dest);
    if replies.len() == 0 {
        StepView::Run(git_invocation(repo, fetch_args()))
    } else {
        match fetch_outcome(replies[0]) {
            Err(error) => StepView::Done(Err(InstallErrorView::Git(error))),
            Ok(()) => match spec.declared_version() {
                Some(version) => checkout_step(repo, version, replies.skip(1)),
                None => if replies.len() == 1 {
                    StepView::Run(git_invocation(repo, default_branch_args()))
                } else {
                    match default_branch_outcome(replies[1]) {
                        Err(error) => StepView::Done(Err(InstallErrorView::Git(error))),
                        Ok(branch) => checkout_step(
                            repo,
                            VersionView::Branch(branch),
                            replies.skip(2),
                        ),
                    }
                },
            },
        }
    }
}

/// A declared version is what gets applied, whatever the remote's default
/// branch is: the remote is never asked for it, the only checkout is that of
/// the declared reference, trimmed, and once the fetch and that checkout
/// have succeeded the version in place is the declared one.
pub proof fn theorem_declared_version_is_applied(
    spec: PluginSpecView,
    dest: Seq<char>,
    replies: Seq<CompletionView>,
)
    requires
        spec.declared_version() is Some,
    ensures
        ({
            let version = spec.declared_version()->0;
            let step = resolution(spec, dest, replies);
            &&& step matches StepView::Run(inv) ==> inv == git_invocation(Some(dest), fetch_args())
                || inv == git_invocation(Some(dest), checkout_args(version.reference()))
            &&& step matches StepView::Run(inv) ==> inv != git_invocation(
                Some(dest),
                default_branch_args(),
            )
            &&& step matches StepView::Done(Ok(applied)) ==> applied == version
            &&& replies.len() >= 2 && replies[0].succeeded() && replies[1].succeeded() ==> step
                == StepView::<Result<VersionView, InstallErrorView>>::Done(Ok(version))
        }),
{
    let version = spec.declared_version()->0;
    assert(default_branch_args()[0] == "rev-parse"@);
    assert(fetch_args()[0] == "fetch"@);
    assert(checkout_args(version.reference())[0] == "checkout"@);
    assert(default_branch_args().len() == 3);
    assert(checkout_args(version.reference()).len() == 2);
    lemma_first_arguments_differ();
    if replies.len() >= 2 {
        assert(replies.skip(1)[0] == replies[1]);
    }
}

/// The first arguments of the fetch and of the default-branch query differ.
proof fn lemma_first_arguments_differ()
    ensures
        "fetch"@ != "rev-parse"@,
{
    reveal_strlit("fetch");
    reveal_strlit("rev-parse");
    assert("fetch"@.len() != "rev-parse"@.len());
}

/// A plugin declared without a version tracks the remote's default branch:
/// after the fetch the remote is asked for it, the branch it names is the
/// one that is checked out, and that branch is reported as the version in
/// place. Where the remote names no branch the step fails with
/// `DefaultBranchUnavailable` and nothing is checked out: the version in
/// place is never a branch without a name.
pub proof fn theorem_default_branch_is_tracked(
    spec: PluginSpecView,
    dest: Seq<char>,
    replies: Seq<CompletionView>,
)
    requires
        spec.declared_version() is None,
    ensures
        ({
            let step = resolution(spec, dest, replies);
            &&& replies.len() == 1 && replies[0].succeeded() ==> step == StepView::<
                Result<VersionView, InstallErrorView>,
            >::Run(git_invocation(Some(dest), default_branch_args()))
            &&& replies.len() >= 2 && replies[0].succeeded() && names_branch(replies[1]) ==> {
                let branch = branch_name(replies[1]->stdout);
                &&& branch.len() > 0 && bare(branch)
                &&& replies.len() == 2 ==> step == StepView::<
                    Result<VersionView, InstallErrorView>,
                >::Run(git_invocation(Some(dest), checkout_args(branch)))
                &&& replies.len() >= 3 && replies[2].succeeded() ==> step == StepView::<
                    Result<VersionView, InstallErrorView>,
                >::Done(Ok(VersionView::Branch(branch)))
                &&& step matches StepView::Done(Ok(applied)) ==> applied == VersionView::Branch(
                    branch,
                )
            }
            &&& replies.len() >= 2 && replies[0].succeeded() && !names_branch(replies[1]) ==> step
                == StepView::<Result<VersionView, InstallErrorView>>::Done(
                Err(
                    InstallErrorView::Git(
                        GitErrorView::DefaultBranchUnavailable { message: replies[1].complaint() },
                    ),
                ),
            )
            &&& step matches StepView::Done(Ok(applied)) ==> applied is Branch
                && applied.reference().len() > 0 && bare(applied.reference())
        }),
{
    if replies.len() >= 2 {
        theorem_default_branch_has_a_name(replies[1]);
    }
    if replies.len() >= 3 {
        assert(replies.skip(2)[0] == replies[2]);
    }
}

/// Decides [`checkout_step`] on the replies from position `from` on.
fn checkout_target(git: &Git, target: Version, replies: &[Completion], from: usize) -> (step:
    VersionStep)
    requires
        from <= replies@.len(),
    ensures
        step@ == checkout_step(git@, target@, replies.deep_view().skip(from as int)),
{
    if from == replies.len() {
        VersionStep::Run(git.checkout_command(target.reference()))
    } else {
        match Git::checkout(target.reference(), &replies[from]) {
            Ok(()) => VersionStep::Done(Ok(target)),
            Err(error) => VersionStep::Done(Err(InstallError::Git(error))),
        }
    }
}

/// The declaration that a table with these fields makes: the URL with the
/// one version that is given, or with none. A table that gives more than
/// one of tag, commit and branch declares nothing.
pub open spec fn table_spec(
    url: Seq<char>,
    tag: Option<Seq<char>>,
    commit: Option<Seq<char>>,
    branch: Option<Seq<char>>,
) -> Option<PluginSpecView> {
    match (tag, commit, branch) {
        (None, None, None) => Some(
            PluginSpecView::Full(FullPluginSpecView { url: url, tag_or_commit: None }),
        ),
        (Some(name), None, None) => Some(
            PluginSpecView::Full(
                FullPluginSpecView { url: url, tag_or_commit: Some(VersionView::Tag(name)) },
            ),
        ),
        (None, Some(hash), None) => Some(
            PluginSpecView::Full(
                FullPluginSpecView { url: url, tag_or_commit: Some(VersionView::Commit(hash)) },
            ),
        ),
        (None, None, Some(name)) => Some(
            PluginSpecView::Full(
                FullPluginSpecView { url: url, tag_or_commit: Some(VersionView::Branch(name)) },
            ),
        ),
        _ => None,
    }
}

impl PluginSpec {
    /// The declaration that a table with these fields makes, if it makes
    /// one: at most one of `tag`, `commit` and `branch` may be given.
    pub fn from_table(
        url: String,
        tag: Option<String>,
        commit: Option<String>,
        branch: Option<String>,
    ) -> (r: Option<PluginSpec>)
        ensures
            r.deep_view() == table_spec(
                url@,
                tag.deep_view(),
                commit.deep_view(),
                branch.deep_view(),
            ),
    {
        let version = match (tag, commit, branch) {
            (None, None, None) => None,
            (Some(name), None, None) => Some(Version::Tag(name)),
            (None, Some(hash), None) => Some(Version::Commit(hash)),
            (None, None, Some(name)) => Some(Version::Branch(name)),
            _ => {
                return None;
            },
        };
        Some(PluginSpec::Full(FullPluginSpec { url: url, tag_or_commit: version }))
    }

    /// The URL of the plugin's repository.
    pub fn url(&self) -> (r: &str)
        ensures
            r@ == self@.url(),
    {
        match self {
            PluginSpec::Url(url) => url.as_str(),
            PluginSpec::Full(full) => full.url.as_str(),
        }
    }

    /// The version that the declaration pins the plugin to, if any.
    pub fn declared_version(&self) -> (r: Option<&Version>)
        ensures
            match r {
                Some(version) => self@.declared_version() == Some(version@),
                None => self@.declared_version() is None,
            },
    {
        match self {
            PluginSpec::Url(_) => None,
            PluginSpec::Full(full) => match &full.tag_or_commit {
                Some(version) => Some(version),
                None => None,
            },
        }
    }

    /// The next move in installing the plugin at `destination_dir`.
    ///
    /// `present` says whether that directory exists; `replies` holds the
    /// completion of the clone once it was run.
    pub fn try_install(&self, destination_dir: &str, present: bool, replies: &[Completion]) -> (step:
        InstallStep)
        ensures
            step@ == installation(self@, destination_dir@, present, replies.deep_view()),
    {
        if present {
            return InstallStep::Done(Err(InstallError::AlreadyInstalled));
        }
        if replies.len() == 0 {
            let git = Git::new();
            return InstallStep::Run(git.clone_command(self.url(), destination_dir));
        }
        match Git::clone_shallow(self.url(), &replies[0]) {
            Ok(()) => InstallStep::Done(Ok(())),
            Err(error) => InstallStep::Done(Err(InstallError::Git(error))),
        }
    }

    /// The next move in bringing the plugin at `destination_dir` to its
    /// version, given the completions of the commands run for it so far.
    pub fn choose_version(&self, destination_dir: &str, replies: &[Completion]) -> (step:
        VersionStep)
        ensures
            step@ == resolution(self@, destination_dir@, replies.deep_view()),
    {
        let git = Git::in_repo(destination_dir);
        if replies.len() == 0 {
            return VersionStep::Run(git.fetch_command());
        }
        match Git::fetch_tags(&replies[0]) {
            Err(error) => {
                return VersionStep::Done(Err(InstallError::Git(error)));
            },
            Ok(()) => {},
        }
        match self.declared_version() {
            Some(version) => checkout_target(&git, version.clone(), replies, 1),
            None => {
                if replies.len() == 1 {
                    return VersionStep::Run(git.default_branch_command());
                }
                match Git::get_default_branch(&replies[1]) {
                    Err(error) => VersionStep::Done(Err(InstallError::Git(error))),
                    Ok(branch) => checkout_target(&git, Version::Branch(branch), replies, 2),
                }
            },
        }
    }
}

/// The declared plugins: a mapping from plugin name to its declaration.
///
/// A name is also the plugin's directory under the plugins root. No name
/// occurs twice; the order in which the plugins were declared carries no
/// meaning.
#[derive(Debug)]
pub struct PluginSpecFile {
    plugins: Vec<(String, PluginSpec)>,
}

/// The names of a sequence of named declarations, in order.
pub open spec fn entry_names(entries: Seq<(Seq<char>, PluginSpecView)>) -> Seq<Seq<char>> {
    entries.map_values(|entry: (Seq<char>, PluginSpecView)| entry.0)
}

/// The mapping that a sequence of named declarations stands for: each name
/// that occurs, with the declaration at its first occurrence.
pub open spec fn entries_map(entries: Seq<(Seq<char>, PluginSpecView)>) -> Map<
    Seq<char>,
    PluginSpecView,
> {
    Map::new(
        |name: Seq<char>| entry_names(entries).contains(name),
        |name: Seq<char>| entries[entry_names(entries).index_of_first(name).unwrap()].1,
    )
}

/// Whether `at` is the first place in `names` at which `name` stands.
pub open spec fn first_at(names: Seq<Seq<char>>, name: Seq<char>, at: int) -> bool {
    &&& 0 <= at < names.len()
    &&& names[at] == name
    &&& forall|k: int| 0 <= k < at ==> names[k] != name
}

/// The first place at which a name stands is where the mapping looks it up.
proof fn lemma_first_at(names: Seq<Seq<char>>, name: Seq<char>, at: int)
    requires
        first_at(names, name, at),
    ensures
        names.contains(name),
        names.index_of_first(name) == Some(at),
{
    names.index_of_first_ensures(name);
}

/// Where a name stands first does not change when another entry is added
/// at the end.
proof fn lemma_first_at_push(names: Seq<Seq<char>>, name: Seq<char>, added: Seq<char>)
    requires
        names.contains(name),
    ensures
        names.push(added).index_of_first(name) == names.index_of_first(name),
{
    names.index_of_first_ensures(name);
    let at = names.index_of_first(name).unwrap();
    assert(first_at(names.push(added), name, at));
    lemma_first_at(names.push(added), name, at);
}

impl View for PluginSpecFile {
    type V = Map<Seq<char>, PluginSpecView>;

    open spec fn view(&self) -> Map<Seq<char>, PluginSpecView> {
        entries_map(self.entries())
    }
}

impl Clone for PluginSpecFile {
    fn clone(&self) -> (r: Self)
        ensures
            r.entries() == self.entries(),
            r@ == self@,
    {
        let mut plugins: Vec<(String, PluginSpec)> = Vec::new();
        let mut at: usize = 0;
        while at < self.plugins.len()
            invariant
                at <= self.plugins.len(),
                plugins@.len() == at,
                forall|i: int|
                    0 <= i < at ==> (#[trigger] plugins@[i]).0@ == self.plugins@[i].0@
                        && plugins@[i].1@ == self.plugins@[i].1@,
            decreases self.plugins.len() - at,
        {
            plugins.push((self.plugins[at].0.clone(), self.plugins[at].1.clone()));
            at += 1;
        }
        let r = PluginSpecFile { plugins: plugins };
        assert(r.entries() =~= self.entries());
        r
    }
}

impl PluginSpecFile {
    /// The named declarations in the order in which they are stored.
    pub closed spec fn entries(&self) -> Seq<(Seq<char>, PluginSpecView)> {
        self.plugins@.map_values(|entry: (String, PluginSpec)| (entry.0@, entry.1@))
    }

    /// The declared names in the order in which they are stored.
    pub open spec fn names(&self) -> Seq<Seq<char>> {
        entry_names(self.entries())
    }

    /// Whether no name occurs twice. The empty file is so, and `insert` and
    /// `clone` keep a file so; whatever is built through them therefore is.
    /// What is planned from a file states its distinct jobs under this
    /// premise.
    pub open spec fn wf(&self) -> bool {
        self.names().no_duplicates()
    }

    /// A file that declares no plugin.
    pub fn new() -> (file: PluginSpecFile)
        ensures
            file.wf(),
            file.entries() == Seq::<(Seq<char>, PluginSpecView)>::empty(),
            file@ == Map::<Seq<char>, PluginSpecView>::empty(),
    {
        let file = PluginSpecFile { plugins: Vec::new() };
        assert(file.entries() =~= Seq::<(Seq<char>, PluginSpecView)>::empty());
        assert(file@ =~= Map::<Seq<char>, PluginSpecView>::empty());
        file
    }

    /// The number of declared plugins.
    pub fn len(&self) -> (n: usize)
        ensures
            n == self.entries().len(),
    {
        self.plugins.len()
    }

    /// Whether no plugin is declared.
    pub fn is_empty(&self) -> (r: bool)
        ensures
            r == (self.entries().len() == 0),
    {
        self.plugins.len() == 0
    }

    /// The name of the declaration stored at `at`.
    pub fn name_at(&self, at: usize) -> (name: &str)
        requires
            at < self.entries().len(),
        ensures
            name@ == self.entries()[at as int].0,
    {
        self.plugins[at].0.as_str()
    }

    /// The declaration stored at `at`.
    pub fn spec_at(&self, at: usize) -> (spec: &PluginSpec)
        requires
            at < self.entries().len(),
        ensures
            spec@ == self.entries()[at as int].1,
    {
        &self.plugins[at].1
    }

    /// The first place at which `name` is stored, if it is declared.
    fn position(&self, name: &str) -> (r: Option<usize>)
        ensures
            match r {
                Some(at) => first_at(self.names(), name@, at as int),
                None => !self.names().contains(name@),
            },
    {
        let mut at: usize = 0;
        while at < self.plugins.len()
            invariant
                at <= self.plugins.len(),
                forall|k: int| 0 <= k < at ==> self.names()[k] != name@,
            decreases self.plugins.len() - at,
        {
            if str_eq(self.plugins[at].0.as_str(), name) {
                return Some(at);
            }
            at += 1;
        }
        None
    }

    /// Whether a plugin of this name is declared.
    pub fn contains_key(&self, name: &str) -> (r: bool)
        ensures
            r == self.names().contains(name@),
            r == self@.dom().contains(name@),
    {
        match self.position(name) {
            Some(at) => {
                assert(self.names()[at as int] == name@);
                true
            },
            None => false,
        }
    }

    /// The declaration of the plugin of this name.
    pub fn get(&self, name: &str) -> (r: Option<&PluginSpec>)
        ensures
            match r {
                Some(spec) => self@.dom().contains(name@) && spec@ == self@[name@],
                None => !self@.dom().contains(name@),
            },
    {
        match self.position(name) {
            Some(at) => {
                proof {
                    lemma_first_at(self.names(), name@, at as int);
                }
                Some(&self.plugins[at].1)
            },
            None => None,
        }
    }

    /// Declares the plugin `name` as `spec`. A declaration that the name had
    /// before is replaced and handed back.
    pub fn insert(&mut self, name: String, spec: PluginSpec) -> (previous: Option<PluginSpec>)
        ensures
            old(self).wf() ==> final(self).wf(),
            final(self)@ == old(self)@.insert(name@, spec@),
            match previous {
                Some(earlier) => old(self)@.dom().contains(name@) && earlier@ == old(self)@[name@]
                    && final(self).names() == old(self).names(),
                None => !old(self)@.dom().contains(name@) && final(self).entries() == old(
                    self,
                ).entries().push((name@, spec@)),
            },
    {
        let ghost before = self.entries();
        let ghost names = entry_names(before);
        match self.position(name.as_str()) {
            Some(at) => {
                let mut entry = (name, spec);
                let slot = &mut self.plugins[at];
                std::mem::swap(slot, &mut entry);
                proof {
                    let after = self.entries();
                    assert(after =~= before.update(at as int, (name@, spec@)));
                    assert(entry_names(after) =~= names);
                    lemma_first_at(names, name@, at as int);
                    assert forall|key: Seq<char>| #[trigger]
                        entries_map(after).dom().contains(key) implies entries_map(after)[key]
                        == entries_map(before).insert(name@, spec@)[key] by {
                        names.index_of_first_ensures(key);
                        let found = names.index_of_first(key).unwrap();
                        if key != name@ {
                            assert(found != at);
                            assert(after[found] == before[found]);
                        }
                    }
                    assert(entries_map(after) =~= entries_map(before).insert(name@, spec@));
                }
                Some(entry.1)
            },
            None => {
                self.plugins.push((name, spec));
                proof {
                    let after = self.entries();
                    assert(after =~= before.push((name@, spec@)));
                    assert(entry_names(after) =~= names.push(name@));
                    assert(first_at(names.push(name@), name@, names.len() as int));
                    lemma_first_at(names.push(name@), name@, names.len() as int);
                    assert forall|key: Seq<char>|
                        entries_map(after).dom().contains(key) == entries_map(before).insert(
                            name@,
                            spec@,
                        ).dom().contains(key) by {
                        if names.contains(key) {
                            let found = names.index_of(key);
                            assert(names.push(name@)[found] == key);
                        }
                    }
                    assert forall|key: Seq<char>| #[trigger]
                        entries_map(after).dom().contains(key) implies entries_map(after)[key]
                        == entries_map(before).insert(name@, spec@)[key] by {
                        if key != name@ {
                            let found = names.push(name@).index_of(key);
                            assert(names[found] == key);
                            lemma_first_at_push(names, key, name@);
                            names.index_of_first_ensures(key);
                        }
                    }
                    assert(entries_map(after) =~= entries_map(before).insert(name@, spec@));
                }
                None
            },
        }
    }
}

} // verus!
