//! The errors that end a run.

use crate::murus::{Error, ErrorView};
use crate::plugin::{InstallError, InstallErrorView};
use vstd::prelude::*;
use vstd::string::StringExecFns;

verus! {

/// Why a run ended before its work was done.
#[derive(Debug, PartialEq, Eq)]
pub enum PluxError {
    /// The program was not started inside tmux.
    NotInTmux,
    /// A directory could not be created.
    DirectoryCreation { path: String, source: String },
    /// The file that declares the plugins could not be read. `code` is the
    /// operating system's error number, where it gave one.
    ConfigRead { path: String, source: String, code: Option<i32> },
    /// The template for that file could not be written.
    ConfigWrite { path: String, source: String },
    /// That file is not what it has to be.
    ConfigParse { path: String, source: String },
    /// A path could not be expanded.
    PathExpansion(String),
    /// A plugin could not be installed.
    PluginInstall(InstallError),
    /// An operation on tmux failed.
    Tmux(Error),
}

/// Model of a [`PluxError`].
pub enum PluxErrorView {
    NotInTmux,
    DirectoryCreation { path: Seq<char>, source: Seq<char> },
    ConfigRead { path: Seq<char>, source: Seq<char>, code: Option<i32> },
    ConfigWrite { path: Seq<char>, source: Seq<char> },
    ConfigParse { path: Seq<char>, source: Seq<char> },
    PathExpansion(Seq<char>),
    PluginInstall(InstallErrorView),
    Tmux(ErrorView),
}

impl View for PluxError {
    type V = PluxErrorView;

    open spec fn view(&self) -> PluxErrorView {
        match self {
            PluxError::NotInTmux => PluxErrorView::NotInTmux,
            PluxError::DirectoryCreation { path, source } => PluxErrorView::DirectoryCreation {
                path: path@,
                source: source@,
            },
            PluxError::ConfigRead { path, source, code } => PluxErrorView::ConfigRead {
                path: path@,
                source: source@,
                code: *code,
            },
            PluxError::ConfigWrite { path, source } => PluxErrorView::ConfigWrite {
                path: path@,
                source: source@,
            },
            PluxError::ConfigParse { path, source } => PluxErrorView::ConfigParse {
                path: path@,
                source: source@,
            },
            PluxError::PathExpansion(reason) => PluxErrorView::PathExpansion(reason@),
            PluxError::PluginInstall(error) => PluxErrorView::PluginInstall(error@),
            PluxError::Tmux(error) => PluxErrorView::Tmux(error@),
        }
    }
}

impl DeepView for PluxError {
    type V = PluxErrorView;

    open spec fn deep_view(&self) -> PluxErrorView {
        self@
    }
}

/// A message about the file or directory at `path`: what could not be done,
/// where, and why.
pub open spec fn path_message(what: Seq<char>, path: Seq<char>, source: Seq<char>) -> Seq<char> {
    what + path + ": "@ + source
}

impl PluxErrorView {
    /// The error as one text for the user.
    pub open spec fn text(self) -> Seq<char> {
        match self {
            PluxErrorView::NotInTmux => "Plux must be called within a tmux session"@,
            PluxErrorView::DirectoryCreation { path, source } => path_message(
                "Could not create directory at "@,
                path,
                source,
            ),
            PluxErrorView::ConfigRead { path, source, .. } => path_message(
                "Could not read config at "@,
                path,
                source,
            ),
            PluxErrorView::ConfigWrite { path, source } => path_message(
                "Could not write config at "@,
                path,
                source,
            ),
            PluxErrorView::ConfigParse { path, source } => path_message(
                "Invalid TOML syntax in "@,
                path,
                source,
            ),
            PluxErrorView::PathExpansion(reason) => "Could not expand path: "@ + reason,
            PluxErrorView::PluginInstall(error) => "Plugin installation error: "@ + error.text(),
            PluxErrorView::Tmux(error) => "Tmux error: "@ + error.text(),
        }
    }

    /// The status that the program exits with: the operating system's error
    /// number where the file of declarations could not be read and a number
    /// other than zero was given, and 1 in every other case.
    pub open spec fn exit_code(self) -> i32 {
        match self {
            PluxErrorView::ConfigRead { code: Some(code), .. } => if code != 0 {
                code
            } else {
                1
            },
            _ => 1,
        }
    }

    /// What the user is told to do about the error, line by line.
    pub open spec fn advice(self) -> Seq<Seq<char>> {
        match self {
            PluxErrorView::NotInTmux => seq![
                "Plux must be run inside a tmux session."@,
                "Start tmux first with: tmux"@,
            ],
            PluxErrorView::ConfigParse { path, .. } => seq![
                "Troubleshooting:"@,
                "  1. Check TOML syntax is valid"@,
                "  2. Ensure [plugins] section exists"@,
                "  3. See example format in "@ + path,
            ],
            _ => Seq::empty(),
        }
    }
}

impl From<InstallError> for PluxError {
    fn from(error: InstallError) -> (r: PluxError) {
        PluxError::PluginInstall(error)
    }
}

impl vstd::std_specs::convert::FromSpecImpl<InstallError> for PluxError {
    open spec fn obeys_from_spec() -> bool {
        true
    }

    open spec fn from_spec(error: InstallError) -> PluxError {
        PluxError::PluginInstall(error)
    }
}

impl From<Error> for PluxError {
    fn from(error: Error) -> (r: PluxError) {
        PluxError::Tmux(error)
    }
}

impl vstd::std_specs::convert::FromSpecImpl<Error> for PluxError {
    open spec fn obeys_from_spec() -> bool {
        true
    }

    open spec fn from_spec(error: Error) -> PluxError {
        PluxError::Tmux(error)
    }
}

/// Builds a message as [`path_message`] has it.
fn about_path(what: &str, path: &str, source: &str) -> (r: String)
    ensures
        r@ == path_message(what@, path@, source@),
{
    let mut out = String::from_str(what);
    out.append(path);
    out.append(": ");
    out.append(source);
    out
}

impl PluxError {
    /// The error as one text for the user.
    pub fn to_string(&self) -> (r: String)
        ensures
            r@ == self@.text(),
    {
        match self {
            PluxError::NotInTmux => String::from_str("Plux must be called within a tmux session"),
            PluxError::DirectoryCreation { path, source } => about_path(
                "Could not create directory at ",
                path.as_str(),
                source.as_str(),
            ),
            PluxError::ConfigRead { path, source, .. } => about_path(
                "Could not read config at ",
                path.as_str(),
                source.as_str(),
            ),
            PluxError::ConfigWrite { path, source } => about_path(
                "Could not write config at ",
                path.as_str(),
                source.as_str(),
            ),
            PluxError::ConfigParse { path, source } => about_path(
                "Invalid TOML syntax in ",
                path.as_str(),
                source.as_str(),
            ),
            PluxError::PathExpansion(reason) => String::from_str("Could not expand path: ").concat(
                reason.as_str(),
            ),
            PluxError::PluginInstall(error) => {
                let inner = error.to_string();
                String::from_str("Plugin installation error: ").concat(inner.as_str())
            },
            PluxError::Tmux(error) => {
                let inner = error.to_string();
                String::from_str("Tmux error: ").concat(inner.as_str())
            },
        }
    }

    /// The status that the program exits with; never zero.
    pub fn exit_code(&self) -> (code: i32)
        ensures
            code == self@.exit_code(),
            code != 0,
    {
        match self {
            PluxError::ConfigRead { code: Some(code), .. } => if *code != 0 {
                *code
            } else {
                1
            },
            _ => 1,
        }
    }

    /// What the user is told to do about the error, line by line.
    pub fn advice(&self) -> (lines: Vec<String>)
        ensures
            lines.deep_view() == self@.advice(),
    {
        let mut lines: Vec<String> = Vec::new();
        match self {
            PluxError::NotInTmux => {
                lines.push(String::from_str("Plux must be run inside a tmux session."));
                lines.push(String::from_str("Start tmux first with: tmux"));
            },
            PluxError::ConfigParse { path, .. } => {
                lines.push(String::from_str("Troubleshooting:"));
                lines.push(String::from_str("  1. Check TOML syntax is valid"));
                lines.push(String::from_str("  2. Ensure [plugins] section exists"));
                lines.push(String::from_str("  3. See example format in ").concat(path.as_str()));
            },
            _ => {},
        }
        assert(lines.deep_view() =~= self@.advice());
        lines
    }
}

} // verus!
