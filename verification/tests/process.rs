use plux::config::{Config, SpecSource};
use plux::install::{install_plugins, InstallOutcome};
use plux::git::GitError;
use plux::murus::session::{Session, State};
use plux::plugin::{InstallError, Version};
use plux::process::{Completion, Invocation};
use plux::report::{ReportLine, Stream};
use plux::run::{completion_message, Pass};
use plux::source::{source_plugins, SourceAction};

#[test]
fn completion_says_whether_the_program_succeeded() {
    let good = Completion::Exited { success: true, stdout: "o".to_string(), stderr: "e".to_string() };
    let bad = Completion::Exited { success: false, stdout: "o".to_string(), stderr: "e".to_string() };
    let gone = Completion::NotSpawned { reason: "r".to_string() };
    assert!(good.succeeded());
    assert!(!bad.succeeded());
    assert!(!gone.succeeded());
}

#[test]
fn completion_complaint_is_standard_error_or_the_reason() {
    let bad = Completion::Exited { success: false, stdout: "o".to_string(), stderr: "e".to_string() };
    let gone = Completion::NotSpawned { reason: "r".to_string() };
    assert_eq!(bad.complaint(), "e");
    assert_eq!(gone.complaint(), "r");
}

#[test]
fn invocation_reads_as_a_command_line() {
    let invocation = Invocation {
        program: "tmux".to_string(),
        args: vec!["run-shell".to_string(), "-b".to_string(), "/p/a.tmux".to_string()],
        working_dir: None,
        capture: true,
    };
    assert_eq!(invocation.to_string(), "tmux run-shell -b /p/a.tmux");
    let bare = Invocation {
        program: "git".to_string(),
        args: vec![],
        working_dir: Some("/r".to_string()),
        capture: true,
    };
    assert_eq!(bare.to_string(), "git");
}

#[test]
fn values_clone_to_equal_values() {
    let invocation = Invocation {
        program: "git".to_string(),
        args: vec!["clone".to_string(), "--depth".to_string(), "1".to_string()],
        working_dir: Some("/r".to_string()),
        capture: true,
    };
    assert_eq!(invocation.clone(), invocation);
    let bare = Invocation {
        program: "tmux".to_string(),
        args: vec![],
        working_dir: None,
        capture: false,
    };
    assert_eq!(bare.clone(), bare);
    let exited = Completion::Exited { success: true, stdout: "o".to_string(), stderr: "e".to_string() };
    assert_eq!(exited.clone(), exited);
    let gone = Completion::NotSpawned { reason: "r".to_string() };
    assert_eq!(gone.clone(), gone);
    let error = InstallError::Git(GitError::FetchFailed { message: "m".to_string() });
    assert_eq!(error.clone(), error);
    assert_eq!(InstallError::AlreadyInstalled.clone(), InstallError::AlreadyInstalled);
    let outcome = InstallOutcome::Installed(Version::Commit("abc".to_string()));
    assert_eq!(outcome.clone(), outcome);
    let failed = InstallOutcome::Failed(GitError::FetchFailed { message: "m".to_string() });
    assert_eq!(failed.clone(), failed);
    assert_eq!(InstallOutcome::AlreadyInstalled.clone(), InstallOutcome::AlreadyInstalled);
    let line = ReportLine { stream: Stream::Error, text: "t".to_string() };
    assert_eq!(line.clone(), line);
    let action = SourceAction::RunScript("/p/a.tmux".to_string());
    assert_eq!(action.clone(), action);
    let sourced = SourceAction::SourceFile("/p/plux.tmux".to_string());
    assert_eq!(sourced.clone(), sourced);
    let session = Session { name: "n".to_string(), windows: 3, state: State::Attached };
    assert_eq!(session.clone(), session);
}

#[test]
fn an_empty_spec_runs_through_with_nothing_to_do() {
    let config =
        Config::load("/s.toml".to_string(), "/plugins".to_string(), SpecSource::Absent).unwrap();
    let mut passes = Vec::new();
    let mut pass = Some(Pass::first());
    let mut install_jobs = 0;
    let mut source_jobs = 0;
    while let Some(current) = pass {
        passes.push(current);
        match current {
            Pass::Cleanup => {}
            Pass::Install => install_jobs += install_plugins(&config.plugins_path, &config.spec).len(),
            Pass::Source => source_jobs += source_plugins(&config.plugins_path, &config.spec).len(),
        }
        pass = current.next();
    }
    assert_eq!(passes, vec![Pass::Cleanup, Pass::Install, Pass::Source]);
    assert_eq!((install_jobs, source_jobs), (0, 0));
    assert_eq!(
        completion_message(config.spec.len()),
        "Plux completed! No plugins configured yet"
    );
}
