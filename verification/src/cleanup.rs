//! Removing what is installed and no longer declared.
//!
//! An orphan is a directory under the plugins root whose name no declaration
//! carries. The cleanup pass removes the orphans and nothing else.

use crate::plugin::PluginSpecFile;
use crate::report::{ReportLine, ReportLineView, Stream};
use crate::text::{join_path, joined};
use vstd::prelude::*;
use vstd::string::StringExecFns;

verus! {

/// What the caller found when it listed the plugins root.
#[derive(Debug, PartialEq, Eq)]
pub enum Listing {
    /// The root does not exist yet, as on a first run.
    Missing,
    /// The root exists and could not be read.
    Unreadable,
    /// The names of the directories that stand directly under the root.
    Directories(Vec<String>),
}

/// Model of a [`Listing`].
pub enum ListingView {
    Missing,
    Unreadable,
    Directories(Seq<Seq<char>>),
}

impl View for Listing {
    type V = ListingView;

    open spec fn view(&self) -> ListingView {
        match self {
            Listing::Missing => ListingView::Missing,
            Listing::Unreadable => ListingView::Unreadable,
            Listing::Directories(names) => ListingView::Directories(names.deep_view()),
        }
    }
}

/// One directory to remove, with all that is in it.
#[derive(Debug, PartialEq, Eq)]
pub struct Removal {
    /// The directory's name under the root.
    pub name: String,
    /// The directory's path.
    pub path: String,
}

/// Model of a [`Removal`].
pub struct RemovalView {
    pub name: Seq<char>,
    pub path: Seq<char>,
}

impl View for Removal {
    type V = RemovalView;

    open spec fn view(&self) -> RemovalView {
        RemovalView { name: self.name@, path: self.path@ }
    }
}

impl DeepView for Removal {
    type V = RemovalView;

    open spec fn deep_view(&self) -> RemovalView {
        self@
    }
}

impl RemovalView {
    /// The line to report once the removal was tried: `failure` is `None`
    /// where the directory is gone, and otherwise says why it is not.
    pub open spec fn line(self, failure: Option<Seq<char>>) -> ReportLineView {
        match failure {
            None => ReportLineView {
                stream: Stream::Standard,
                text: "  Removed orphaned plugin: "@ + self.name,
            },
            Some(reason) => ReportLineView {
                stream: Stream::Error,
                text: "  Failed to remove orphaned plugin '"@ + self.name + "': "@ + reason,
            },
        }
    }
}

/// What the cleanup pass is to do.
#[derive(Debug, PartialEq, Eq)]
pub struct Cleanup {
    /// The directories to remove. Each is removed on its own: that one
    /// cannot be removed does not keep the others.
    pub removals: Vec<Removal>,
    /// What to report of the listing itself, if anything.
    pub complaint: Option<ReportLine>,
}

/// Model of a [`Cleanup`].
pub struct CleanupView {
    pub removals: Seq<RemovalView>,
    pub complaint: Option<ReportLineView>,
}

impl View for Cleanup {
    type V = CleanupView;

    open spec fn view(&self) -> CleanupView {
        CleanupView {
            removals: self.removals.deep_view(),
            complaint: self.complaint.deep_view(),
        }
    }
}

/// The orphans among `directories`: those whose name is not in `declared`,
/// in the order of the listing.
pub open spec fn orphans(directories: Seq<Seq<char>>, declared: Set<Seq<char>>) -> Seq<Seq<char>> {
    directories.filter(|name: Seq<char>| !declared.contains(name))
}

/// The removal of the directory `name` under `root`.
pub open spec fn removal(root: Seq<char>, name: Seq<char>) -> RemovalView {
    RemovalView { name: name, path: joined(root, name) }
}

/// The removals of all orphans among `directories`.
pub open spec fn removals(
    root: Seq<char>,
    directories: Seq<Seq<char>>,
    declared: Set<Seq<char>>,
) -> Seq<RemovalView> {
    orphans(directories, declared).map_values(|name: Seq<char>| removal(root, name))
}

/// The cleanup for a plugins root `root` that was listed as `listing`, with
/// the plugins `declared`.
///
/// A root that is missing is cleaned by doing nothing; one that cannot be
/// read is reported, and nothing is removed.
pub open spec fn cleanup(root: Seq<char>, listing: ListingView, declared: Set<Seq<char>>) -> CleanupView {
    match listing {
        ListingView::Missing => CleanupView { removals: Seq::empty(), complaint: None },
        ListingView::Unreadable => CleanupView {
            removals: Seq::empty(),
            complaint: Some(
                ReportLineView {
                    stream: Stream::Error,
                    text: "Could not read plugins directory at "@ + root,
                },
            ),
        },
        ListingView::Directories(directories) => CleanupView {
            removals: removals(root, directories, declared),
            complaint: None,
        },
    }
}

/// How [`removals`] grows with one more directory.
proof fn lemma_removals_push(
    root: Seq<char>,
    directories: Seq<Seq<char>>,
    declared: Set<Seq<char>>,
    name: Seq<char>,
)
    ensures
        removals(root, directories.push(name), declared) == if declared.contains(name) {
            removals(root, directories, declared)
        } else {
            removals(root, directories, declared).push(removal(root, name))
        },
{
    reveal(Seq::filter);
    let longer = directories.push(name);
    assert(longer.drop_last() =~= directories);
    assert(longer.last() == name);
    if !declared.contains(name) {
        assert(removals(root, longer, declared) =~= removals(root, directories, declared).push(
            removal(root, name),
        ));
    }
}

/// The removals of the orphans among `directories`.
fn orphan_removals(root: &str, directories: &Vec<String>, file: &PluginSpecFile) -> (out: Vec<
    Removal,
>)
    ensures
        out.deep_view() == removals(root@, directories.deep_view(), file@.dom()),
{
    let mut out: Vec<Removal> = Vec::new();
    let ghost names = directories.deep_view();
    let mut at: usize = 0;
    proof {
        reveal(Seq::filter);
        assert(names.take(0) =~= Seq::<Seq<char>>::empty());
        assert(out.deep_view() =~= removals(root@, names.take(0), file@.dom()));
    }
    while at < directories.len()
        invariant
            at <= directories.len(),
            names == directories.deep_view(),
            out.deep_view() == removals(root@, names.take(at as int), file@.dom()),
        decreases directories.len() - at,
    {
        let name = directories[at].as_str();
        proof {
            assert(names.take(at + 1) =~= names.take(at as int).push(name@));
            lemma_removals_push(root@, names.take(at as int), file@.dom(), name@);
        }
        if !file.contains_key(name) {
            let ghost before = out.deep_view();
            out.push(Removal { name: String::from_str(name), path: join_path(root, name) });
            assert(out.deep_view() =~= before.push(removal(root@, name@)));
        }
        at += 1;
    }
    assert(names.take(at as int) =~= names);
    out
}

/// Plans the cleanup pass for the plugins root `root`, listed as `listing`.
pub fn remove_orphaned_plugins(root: &str, listing: &Listing, file: &PluginSpecFile) -> (plan:
    Cleanup)
    ensures
        plan@ == cleanup(root@, listing@, file@.dom()),
{
    match listing {
        Listing::Missing => {
            let plan = Cleanup { removals: Vec::new(), complaint: None };
            assert(plan.removals.deep_view() =~= Seq::<RemovalView>::empty());
            plan
        },
        Listing::Unreadable => {
            let text = String::from_str("Could not read plugins directory at ").concat(root);
            let plan = Cleanup {
                removals: Vec::new(),
                complaint: Some(ReportLine { stream: Stream::Error, text: text }),
            };
            assert(plan.removals.deep_view() =~= Seq::<RemovalView>::empty());
            plan
        },
        Listing::Directories(directories) => Cleanup {
            removals: orphan_removals(root, directories, file),
            complaint: None,
        },
    }
}

impl Removal {
    /// The line to report once the removal was tried: `failure` is `None`
    /// where the directory is gone, and otherwise says why it is not.
    pub fn report(&self, failure: Option<&str>) -> (line: ReportLine)
        ensures
            line@ == self@.line(
                match failure {
                    Some(reason) => Some(reason@),
                    None => None,
                },
            ),
    {
        match failure {
            None => ReportLine {
                stream: Stream::Standard,
                text: String::from_str("  Removed orphaned plugin: ").concat(self.name.as_str()),
            },
            Some(reason) => {
                let mut text = String::from_str("  Failed to remove orphaned plugin '");
                text.append(self.name.as_str());
                text.append("': ");
                text.append(reason);
                ReportLine { stream: Stream::Error, text: text }
            },
        }
    }
}

/// The cleanup removes exactly the orphans: a directory is removed if and
/// only if it was listed and no declaration carries its name. What is
/// declared is never removed, and each removal is of the directory of that
/// name under the root.
pub proof fn theorem_exactly_the_orphans_go(
    root: Seq<char>,
    directories: Seq<Seq<char>>,
    declared: Set<Seq<char>>,
)
    ensures
        forall|name: Seq<char>|
            #[trigger] orphans(directories, declared).contains(name) <==> directories.contains(
                name,
            ) && !declared.contains(name),
        removals(root, directories, declared).len() == orphans(directories, declared).len(),
        forall|i: int|
            0 <= i < removals(root, directories, declared).len() ==> {
                let gone = #[trigger] removals(root, directories, declared)[i];
                &&& gone == removal(root, orphans(directories, declared)[i])
                &&& directories.contains(gone.name)
                &&& !declared.contains(gone.name)
            },
{
    broadcast use vstd::seq_lib::group_filter_ensures;

    let keep = |name: Seq<char>| !declared.contains(name);
    let found = directories.filter(keep);
    assert forall|name: Seq<char>| #[trigger]
        found.contains(name) <==> directories.contains(name) && !declared.contains(name) by {
        if found.contains(name) {
            let at = found.index_of(name);
            directories.lemma_filter_pred(keep, at);
            directories.lemma_filter_contains_rev(keep, name);
        }
        if directories.contains(name) && !declared.contains(name) {
            let at = directories.index_of(name);
            directories.lemma_filter_contains(keep, at);
        }
    }
    assert forall|i: int| 0 <= i < removals(root, directories, declared).len() implies {
        let gone = #[trigger] removals(root, directories, declared)[i];
        &&& gone == removal(root, orphans(directories, declared)[i])
        &&& directories.contains(gone.name)
        &&& !declared.contains(gone.name)
    } by {
        assert(found.contains(found[i]));
    }
}

} // verus!
