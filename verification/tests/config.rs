use plux::config::{
    created_notice, expand_path, Config, SpecSource, DEFAULT_CONFIG_TEMPLATE, PLUGINS_PATH_OPTION,
    SPEC_PATH_OPTION,
};
use plux::error::PluxError;
use plux::murus::{Error, Tmux};
use plux::plugin::{InstallError, PluginSpec, PluginSpecFile};
use plux::process::{Completion, Invocation};

fn exited(success: bool, stdout: &str, stderr: &str) -> Completion {
    Completion::Exited { success, stdout: stdout.to_string(), stderr: stderr.to_string() }
}

fn handle() -> Tmux {
    Tmux::try_new(Some("x")).unwrap()
}

fn home() -> Result<String, String> {
    Ok("/home/u".to_string())
}

#[test]
fn expand_path_replaces_home_and_tilde() {
    assert_eq!(expand_path("$HOME/.config/tmux/plux/", &home()), Ok("/home/u/.config/tmux/plux/".to_string()));
    assert_eq!(expand_path("~/.config/tmux/plux.toml", &home()), Ok("/home/u/.config/tmux/plux.toml".to_string()));
    assert_eq!(expand_path("/abs/path", &home()), Ok("/abs/path".to_string()));
    assert_eq!(expand_path("$HOME/~/x", &home()), Ok("/home/u//home/u/x".to_string()));
}

#[test]
fn expand_path_replaces_a_tilde_that_the_home_directory_brought() {
    let odd: Result<String, String> = Ok("/h~".to_string());
    assert_eq!(expand_path("$HOME/x", &odd), Ok("/h/h~/x".to_string()));
}

#[test]
fn expand_path_needs_the_home_directory() {
    let missing: Result<String, String> = Err("environment variable not found".to_string());
    assert_eq!(
        expand_path("/abs/path", &missing),
        Err(PluxError::PathExpansion("environment variable not found".to_string()))
    );
}

#[test]
fn path_queries_ask_for_the_global_options() {
    let expect = |option: &str| Invocation {
        program: "tmux".to_string(),
        args: vec!["show".to_string(), "-v".to_string(), "-g".to_string(), option.to_string()],
        working_dir: None,
        capture: true,
    };
    assert_eq!(Config::spec_path_query(&handle()), expect("@plux_toml_path"));
    assert_eq!(Config::plugins_path_query(&handle()), expect("@plux_plugins_path"));
    assert_eq!(SPEC_PATH_OPTION, "@plux_toml_path");
    assert_eq!(PLUGINS_PATH_OPTION, "@plux_plugins_path");
}

#[test]
fn paths_default_when_the_option_is_not_set() {
    let unset = exited(true, "", "invalid option: @plux_toml_path\n");
    assert_eq!(
        Config::resolve_spec_path(&handle(), &unset, &home()),
        Ok("/home/u/.config/tmux/plux.toml".to_string())
    );
    assert_eq!(
        Config::resolve_plugins_path(&handle(), &unset, &home()),
        Ok("/home/u/.config/tmux/plux/".to_string())
    );
    let gone = Completion::NotSpawned { reason: "no tmux".to_string() };
    assert_eq!(
        Config::resolve_spec_path(&handle(), &gone, &home()),
        Ok("/home/u/.config/tmux/plux.toml".to_string())
    );
}

#[test]
fn paths_follow_the_option_as_printed() {
    let set = exited(true, "~/dotfiles/plux.toml", "");
    assert_eq!(
        Config::resolve_spec_path(&handle(), &set, &home()),
        Ok("/home/u/dotfiles/plux.toml".to_string())
    );
    let with_line_feed = exited(true, "$HOME/p\n", "");
    assert_eq!(
        Config::resolve_plugins_path(&handle(), &with_line_feed, &home()),
        Ok("/home/u/p\n".to_string())
    );
}

#[test]
fn paths_need_the_home_directory() {
    let missing: Result<String, String> = Err("environment variable not found".to_string());
    assert_eq!(
        Config::resolve_spec_path(&handle(), &exited(true, "/abs", ""), &missing),
        Err(PluxError::PathExpansion("environment variable not found".to_string()))
    );
}

#[test]
fn load_keeps_the_declared_plugins() {
    let mut file = PluginSpecFile::new();
    file.insert("a".to_string(), PluginSpec::Url("u".to_string()));
    let config =
        Config::load("/s.toml".to_string(), "/p".to_string(), SpecSource::Declared(file)).unwrap();
    assert_eq!(config.spec_path, "/s.toml");
    assert_eq!(config.plugins_path, "/p");
    assert_eq!(config.spec.len(), 1);
    assert_eq!(config.spec.get("a"), Some(&PluginSpec::Url("u".to_string())));
}

#[test]
fn load_goes_on_with_no_plugin_where_the_file_is_absent() {
    let config = Config::load("/s.toml".to_string(), "/p".to_string(), SpecSource::Absent).unwrap();
    assert_eq!(config.spec_path, "/s.toml");
    assert_eq!(config.plugins_path, "/p");
    assert!(config.spec.is_empty());
}

#[test]
fn load_fails_on_a_malformed_file() {
    let error = Config::load(
        "/s.toml".to_string(),
        "/p".to_string(),
        SpecSource::Malformed { reason: "expected `=`".to_string() },
    )
    .unwrap_err();
    assert_eq!(
        error,
        PluxError::ConfigParse { path: "/s.toml".to_string(), source: "expected `=`".to_string() }
    );
    assert_eq!(error.exit_code(), 1);
}

#[test]
fn load_fails_on_an_unreadable_file() {
    let error = Config::load(
        "/s.toml".to_string(),
        "/p".to_string(),
        SpecSource::Unreadable { reason: "Permission denied".to_string(), code: Some(13) },
    )
    .unwrap_err();
    assert_eq!(
        error,
        PluxError::ConfigRead {
            path: "/s.toml".to_string(),
            source: "Permission denied".to_string(),
            code: Some(13),
        }
    );
    assert_eq!(error.exit_code(), 13);
}

#[test]
fn template_is_written_only_where_the_file_is_absent() {
    assert_eq!(SpecSource::Absent.template(), Some(DEFAULT_CONFIG_TEMPLATE));
    assert_eq!(SpecSource::Declared(PluginSpecFile::new()).template(), None);
    assert_eq!(SpecSource::Malformed { reason: "x".to_string() }.template(), None);
    assert_eq!(SpecSource::Unreadable { reason: "x".to_string(), code: None }.template(), None);
}

#[test]
fn created_notice_names_the_file() {
    assert_eq!(
        created_notice("/home/u/.config/tmux/plux.toml"),
        vec![
            "Created default config file at /home/u/.config/tmux/plux.toml",
            "Add your plugins to this file and reload tmux configuration.",
        ]
    );
}

#[test]
fn template_declares_an_empty_plugins_table() {
    assert!(DEFAULT_CONFIG_TEMPLATE.starts_with("# Plux Plugin Configuration\n"));
    assert!(DEFAULT_CONFIG_TEMPLATE.ends_with("\n[plugins]\n"));
    let table: toml::Table = DEFAULT_CONFIG_TEMPLATE.parse().unwrap();
    assert_eq!(table.len(), 1);
    assert!(table["plugins"].as_table().unwrap().is_empty());
}

#[test]
fn plux_error_texts() {
    assert_eq!(PluxError::NotInTmux.to_string(), "Plux must be called within a tmux session");
    assert_eq!(
        PluxError::DirectoryCreation { path: "/p".to_string(), source: "denied".to_string() }.to_string(),
        "Could not create directory at /p: denied"
    );
    assert_eq!(
        PluxError::ConfigRead { path: "/s".to_string(), source: "denied".to_string(), code: None }
            .to_string(),
        "Could not read config at /s: denied"
    );
    assert_eq!(
        PluxError::ConfigWrite { path: "/s".to_string(), source: "denied".to_string() }.to_string(),
        "Could not write config at /s: denied"
    );
    assert_eq!(
        PluxError::ConfigParse { path: "/s".to_string(), source: "bad".to_string() }.to_string(),
        "Invalid TOML syntax in /s: bad"
    );
    assert_eq!(
        PluxError::PathExpansion("environment variable not found".to_string()).to_string(),
        "Could not expand path: environment variable not found"
    );
    assert_eq!(
        PluxError::PluginInstall(InstallError::AlreadyInstalled).to_string(),
        "Plugin installation error: Plugin is already installed."
    );
    assert_eq!(
        PluxError::Tmux(Error::NotInTmux).to_string(),
        "Tmux error: We are currently not in a tmux instance"
    );
}

#[test]
fn plux_error_exit_codes() {
    assert_eq!(PluxError::NotInTmux.exit_code(), 1);
    assert_eq!(
        PluxError::ConfigParse { path: "/s".to_string(), source: "bad".to_string() }.exit_code(),
        1
    );
    assert_eq!(
        PluxError::ConfigRead { path: "/s".to_string(), source: "x".to_string(), code: Some(13) }
            .exit_code(),
        13
    );
    assert_eq!(
        PluxError::ConfigRead { path: "/s".to_string(), source: "x".to_string(), code: None }
            .exit_code(),
        1
    );
    assert_eq!(
        PluxError::ConfigRead { path: "/s".to_string(), source: "x".to_string(), code: Some(0) }
            .exit_code(),
        1
    );
    assert_eq!(PluxError::PathExpansion("x".to_string()).exit_code(), 1);
}

#[test]
fn plux_error_advice() {
    assert_eq!(
        PluxError::NotInTmux.advice(),
        vec!["Plux must be run inside a tmux session.", "Start tmux first with: tmux"]
    );
    assert_eq!(
        PluxError::ConfigParse { path: "/s.toml".to_string(), source: "bad".to_string() }.advice(),
        vec![
            "Troubleshooting:",
            "  1. Check TOML syntax is valid",
            "  2. Ensure [plugins] section exists",
            "  3. See example format in /s.toml",
        ]
    );
    assert_eq!(PluxError::PathExpansion("x".to_string()).advice(), Vec::<String>::new());
}

#[test]
fn plux_error_comes_from_the_errors_it_wraps() {
    assert_eq!(
        PluxError::from(InstallError::AlreadyInstalled),
        PluxError::PluginInstall(InstallError::AlreadyInstalled)
    );
    assert_eq!(PluxError::from(Error::NotInTmux), PluxError::Tmux(Error::NotInTmux));
}
