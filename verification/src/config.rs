//! Where the declarations and the plugins live.

use crate::error::{PluxError, PluxErrorView};
use crate::murus::{get_option_args, option_outcome, tmux_invocation, OptionScope, Tmux};
use crate::plugin::{PluginSpecFile, DEFAULT_PLUGINS_PATH, DEFAULT_SPEC_PATH};
use crate::process::{Completion, CompletionView, Invocation};
use crate::text::{replace, replaced};
use vstd::prelude::*;
use vstd::string::StringExecFns;

verus! {

/// What is written to the file of declarations where there is none yet.
pub const DEFAULT_CONFIG_TEMPLATE: &'static str =
    "# Plux Plugin Configuration\n#\n# Add your tmux plugins here. Example:\n#\n# [plugins]\n# tmux-grimoire = \"https://github.com/navahas/tmux-grimoire\"\n# tmux-yank = \"https://github.com/tmux-plugins/tmux-yank\"\n# tmux-sensible = \"https://github.com/tmux-plugins/tmux-sensible\"\n#\n# You can also specify versions:\n# my-plugin = { url = \"https://github.com/user/plugin\", tag = \"v1.0.0\" }\n# my-plugin = { url = \"https://github.com/user/plugin\", branch = \"main\" }\n# my-plugin = { url = \"https://github.com/user/plugin\", commit = \"<hash>\" }\n\n[plugins]\n";

/// The global tmux option that names the file of declarations.
pub const SPEC_PATH_OPTION: &'static str = "@plux_toml_path";

/// The global tmux option that names the plugins root.
pub const PLUGINS_PATH_OPTION: &'static str = "@plux_plugins_path";

/// The configuration of one run.
#[derive(Debug)]
pub struct Config {
    /// Where the file of declarations is.
    pub spec_path: String,
    /// The plugins root: each plugin has the directory of its name in it.
    pub plugins_path: String,
    /// The declared plugins.
    pub spec: PluginSpecFile,
}

/// What the caller found where the file of declarations should be.
#[derive(Debug)]
pub enum SpecSource {
    /// The file was read, and declares these plugins.
    Declared(PluginSpecFile),
    /// The file was read and is not what it has to be.
    Malformed { reason: String },
    /// There is no such file.
    Absent,
    /// The file could not be read. `code` is the operating system's error
    /// number, where it gave one.
    Unreadable { reason: String, code: Option<i32> },
}

impl SpecSource {
    /// What is to be written where the file of declarations should be
    /// before the run goes on, as a model: the template where there is no
    /// file, and nothing otherwise.
    pub open spec fn to_write(self) -> Option<Seq<char>> {
        match self {
            SpecSource::Absent => Some(DEFAULT_CONFIG_TEMPLATE@),
            _ => None,
        }
    }

    /// What is to be written where the file of declarations should be
    /// before the run goes on: the template where there is no file, and
    /// nothing otherwise.
    pub fn template(&self) -> (r: Option<&'static str>)
        ensures
            match r {
                Some(text) => self.to_write() == Some(text@),
                None => self.to_write() is None,
            },
    {
        match self {
            SpecSource::Absent => Some(DEFAULT_CONFIG_TEMPLATE),
            _ => None,
        }
    }
}

/// What the user is told once the template was written to `path`.
pub open spec fn template_notice(path: Seq<char>) -> Seq<Seq<char>> {
    seq![
        "Created default config file at "@ + path,
        "Add your plugins to this file and reload tmux configuration."@,
    ]
}

/// What the user is told once the template was written to `path`.
pub fn created_notice(path: &str) -> (lines: Vec<String>)
    ensures
        lines.deep_view() == template_notice(path@),
{
    let mut lines: Vec<String> = Vec::new();
    lines.push(String::from_str("Created default config file at ").concat(path));
    lines.push(String::from_str("Add your plugins to this file and reload tmux configuration."));
    assert(lines.deep_view() =~= template_notice(path@));
    lines
}

/// `path` with `$HOME` and `~` replaced by the home directory `home`, in
/// this order.
pub open spec fn expanded(path: Seq<char>, home: Seq<char>) -> Seq<char> {
    replaced(replaced(path, "$HOME"@, home), "~"@, home)
}

/// The path that an option query and the default path `fallback` give: the
/// option's value as tmux printed it, and the default where the query
/// failed.
pub open spec fn chosen_path(reply: CompletionView, fallback: Seq<char>) -> Seq<char> {
    match option_outcome(reply) {
        Ok(value) => value,
        Err(_) => fallback,
    }
}

/// The path to use, expanded: it takes the home directory, and without one
/// there is no path, whether or not the path mentions it.
pub open spec fn resolved_path(
    reply: CompletionView,
    fallback: Seq<char>,
    home: Result<Seq<char>, Seq<char>>,
) -> Result<Seq<char>, PluxErrorView> {
    match home {
        Ok(dir) => Ok(expanded(chosen_path(reply, fallback), dir)),
        Err(reason) => Err(PluxErrorView::PathExpansion(reason)),
    }
}

/// Model of a `Result<String, PluxError>`.
pub open spec fn path_view(r: Result<String, PluxError>) -> Result<Seq<char>, PluxErrorView> {
    match r {
        Ok(path) => Ok(path@),
        Err(e) => Err(e@),
    }
}

/// Model of the home directory, or of why there is none.
pub open spec fn home_view(home: Result<String, String>) -> Result<Seq<char>, Seq<char>> {
    match home {
        Ok(dir) => Ok(dir@),
        Err(reason) => Err(reason@),
    }
}

/// Expands `$HOME` and `~` in `path`. `home` is the home directory, or the
/// reason why it is not known.
pub fn expand_path(path: &str, home: &Result<String, String>) -> (r: Result<String, PluxError>)
    ensures
        path_view(r) == match home_view(*home) {
            Ok(dir) => Ok(expanded(path@, dir)),
            Err(reason) => Err(PluxErrorView::PathExpansion(reason)),
        },
{
    match home {
        Err(reason) => Err(PluxError::PathExpansion(reason.clone())),
        Ok(dir) => {
            proof {
                reveal_strlit("$HOME");
                reveal_strlit("~");
            }
            let first = replace(path, "$HOME", dir.as_str());
            Ok(replace(first.as_str(), "~", dir.as_str()))
        },
    }
}

/// Resolves a path from the completion of the option query for it.
fn resolve(tmux: &Tmux, reply: &Completion, fallback: &str, home: &Result<String, String>) -> (r:
    Result<String, PluxError>)
    ensures
        path_view(r) == resolved_path(reply@, fallback@, home_view(*home)),
{
    match tmux.get_option(reply) {
        Ok(value) => expand_path(value.as_str(), home),
        Err(_) => expand_path(fallback, home),
    }
}

impl Config {
    /// The configuration of a run whose paths are known, given what was
    /// found of the file of declarations.
    ///
    /// Where the file is absent the run goes on with no plugin declared.
    /// A file that cannot be read, or that is malformed, ends the run.
    pub fn load(spec_path: String, plugins_path: String, source: SpecSource) -> (r: Result<
        Config,
        PluxError,
    >)
        ensures
            match source {
                SpecSource::Declared(file) => r matches Ok(config) && config.spec == file
                    && config.spec_path == spec_path && config.plugins_path == plugins_path,
                SpecSource::Absent => r matches Ok(config) && config.spec.wf()
                    && config.spec.entries().len() == 0 && config.spec_path == spec_path
                    && config.plugins_path == plugins_path,
                SpecSource::Malformed { reason } => r matches Err(error) && error@
                    == (PluxErrorView::ConfigParse { path: spec_path@, source: reason@ }),
                SpecSource::Unreadable { reason, code } => r matches Err(error) && error@
                    == (PluxErrorView::ConfigRead { path: spec_path@, source: reason@, code: code }),
            },
    {
        match source {
            SpecSource::Declared(file) => Ok(
                Config { spec_path: spec_path, plugins_path: plugins_path, spec: file },
            ),
            SpecSource::Absent => Ok(
                Config {
                    spec_path: spec_path,
                    plugins_path: plugins_path,
                    spec: PluginSpecFile::new(),
                },
            ),
            SpecSource::Malformed { reason } => Err(
                PluxError::ConfigParse { path: spec_path, source: reason },
            ),
            SpecSource::Unreadable { reason, code } => Err(
                PluxError::ConfigRead { path: spec_path, source: reason, code: code },
            ),
        }
    }

    /// The query for the option that names the file of declarations.
    pub fn spec_path_query(tmux: &Tmux) -> (inv: Invocation)
        ensures
            inv@ == tmux_invocation(get_option_args(SPEC_PATH_OPTION@, OptionScope::Global), true),
    {
        tmux.get_option_command(SPEC_PATH_OPTION, OptionScope::Global)
    }

    /// The query for the option that names the plugins root.
    pub fn plugins_path_query(tmux: &Tmux) -> (inv: Invocation)
        ensures
            inv@ == tmux_invocation(
                get_option_args(PLUGINS_PATH_OPTION@, OptionScope::Global),
                true,
            ),
    {
        tmux.get_option_command(PLUGINS_PATH_OPTION, OptionScope::Global)
    }

    /// The path of the file of declarations, from the completion of
    /// [`Config::spec_path_query`] or else the default.
    pub fn resolve_spec_path(tmux: &Tmux, reply: &Completion, home: &Result<String, String>) -> (r:
        Result<String, PluxError>)
        ensures
            path_view(r) == resolved_path(reply@, DEFAULT_SPEC_PATH@, home_view(*home)),
    {
        resolve(tmux, reply, DEFAULT_SPEC_PATH, home)
    }

    /// The path of the plugins root, from the completion of
    /// [`Config::plugins_path_query`] or else the default.
    pub fn resolve_plugins_path(tmux: &Tmux, reply: &Completion, home: &Result<String, String>) -> (r:
        Result<String, PluxError>)
        ensures
            path_view(r) == resolved_path(reply@, DEFAULT_PLUGINS_PATH@, home_view(*home)),
    {
        resolve(tmux, reply, DEFAULT_PLUGINS_PATH, home)
    }
}

} // verus!
