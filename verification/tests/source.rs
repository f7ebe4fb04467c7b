use plux::murus::{Error, Tmux};
use plux::plugin::{PluginSpec, PluginSpecFile};
use plux::process::{Completion, Invocation};
use plux::report::{ReportLine, Stream};
use plux::source::{
    has_entry_script, has_script_extension, source_actions, source_plugins, SourceAction, SourceJob,
    SourcePass,
};
use std::path::Path;

fn names(list: &[&str]) -> Vec<String> {
    list.iter().map(|name| name.to_string()).collect()
}

fn tmux(args: &[&str]) -> Invocation {
    Invocation {
        program: "tmux".to_string(),
        args: args.iter().map(|a| a.to_string()).collect(),
        working_dir: None,
        capture: true,
    }
}

fn handle() -> Tmux {
    Tmux::try_new(Some("/tmp/tmux-1000/default,1,0")).unwrap()
}

#[test]
fn entry_script_takes_precedence() {
    let actions = source_actions("/plugins/p", &names(&["other.tmux", "plux.tmux", "README.md"]));
    assert_eq!(actions, vec![SourceAction::SourceFile("/plugins/p/plux.tmux".to_string())]);
    let sourced = actions.iter().filter(|a| matches!(a, SourceAction::SourceFile(_))).count();
    let run = actions.iter().filter(|a| matches!(a, SourceAction::RunScript(_))).count();
    assert_eq!((sourced, run), (1, 0));
}

#[test]
fn every_script_runs_without_an_entry_script() {
    let actions = source_actions("/plugins/p", &names(&["a.tmux", "notes.txt", "b.tmux"]));
    assert_eq!(
        actions,
        vec![
            SourceAction::RunScript("/plugins/p/a.tmux".to_string()),
            SourceAction::RunScript("/plugins/p/b.tmux".to_string()),
        ]
    );
}

#[test]
fn a_failed_script_does_not_keep_the_next_from_running() {
    let handle = handle();
    let actions = source_actions("/plugins/p", &names(&["a.tmux", "b.tmux"]));
    let replies = [
        Completion::Exited { success: false, stdout: "o".to_string(), stderr: "e".to_string() },
        Completion::Exited { success: true, stdout: String::new(), stderr: String::new() },
    ];
    let mut ran: Vec<Invocation> = Vec::new();
    let mut lines: Vec<ReportLine> = Vec::new();
    for (action, reply) in actions.iter().zip(replies.iter()) {
        ran.push(action.command(&handle));
        if let Some(line) = action.report(&handle, reply) {
            lines.push(line);
        }
    }
    assert_eq!(
        ran,
        vec![
            tmux(&["run-shell", "-b", "/plugins/p/a.tmux"]),
            tmux(&["run-shell", "-b", "/plugins/p/b.tmux"]),
        ]
    );
    assert_eq!(
        lines,
        vec![ReportLine {
            stream: Stream::Error,
            text: "Failed sourcing file. stdout:\no\n\nstderr:\ne".to_string(),
        }]
    );
}

#[test]
fn nothing_to_load_gives_no_action() {
    assert_eq!(source_actions("/plugins/p", &names(&[])), Vec::<SourceAction>::new());
    assert_eq!(
        source_actions("/plugins/p", &names(&["README.md", ".tmux", "tmux", "x.tmux.bak"])),
        Vec::<SourceAction>::new()
    );
}

#[test]
fn entry_script_must_be_named_exactly() {
    assert!(has_entry_script(&names(&["a", "plux.tmux"])));
    assert!(!has_entry_script(&names(&["Plux.tmux", "plux.tmux.bak", "xplux.tmux"])));
    assert_eq!(
        source_actions("/d", &names(&["xplux.tmux"])),
        vec![SourceAction::RunScript("/d/xplux.tmux".to_string())]
    );
}

#[test]
fn script_extension_agrees_with_path_extension() {
    let samples = [
        "a.tmux", ".tmux", "tmux", "a.tmux.bak", "..tmux", ".hidden.tmux", "a.TMUX", "a.tmuxx",
        "atmux", "a.b.tmux", "", ".", "a.", " .tmux", "é.tmux",
    ];
    for name in samples {
        let expected = Path::new(name).extension().is_some_and(|ext| ext == "tmux");
        assert_eq!(has_script_extension(name), expected, "{:?}", name);
    }
}

#[test]
fn source_action_commands() {
    let handle = handle();
    assert_eq!(
        SourceAction::SourceFile("/p/plux.tmux".to_string()).command(&handle),
        tmux(&["source-file", "/p/plux.tmux"])
    );
    assert_eq!(
        SourceAction::RunScript("/p/a.tmux".to_string()).command(&handle),
        tmux(&["run-shell", "-b", "/p/a.tmux"])
    );
}

#[test]
fn source_action_finish_reads_the_completion() {
    let handle = handle();
    let action = SourceAction::SourceFile("/p/plux.tmux".to_string());
    let good = Completion::Exited { success: true, stdout: "o".to_string(), stderr: "e".to_string() };
    assert_eq!(action.finish(&handle, &good), Ok(()));
    assert_eq!(action.report(&handle, &good), None);
    let bad = Completion::Exited { success: false, stdout: "o".to_string(), stderr: "e".to_string() };
    assert_eq!(
        action.finish(&handle, &bad),
        Err(Error::SourceFile { stdout: "o".to_string(), stderr: "e".to_string() })
    );
    let gone = Completion::NotSpawned { reason: "no tmux".to_string() };
    assert_eq!(action.finish(&handle, &gone), Err(Error::CommandFailed("no tmux".to_string())));
    assert_eq!(
        action.report(&handle, &gone),
        Some(ReportLine { stream: Stream::Error, text: "Command failed no tmux".to_string() })
    );
}

#[test]
fn source_plugins_names_declared_plugins_only() {
    let mut file = PluginSpecFile::new();
    file.insert("a".to_string(), PluginSpec::Url("ua".to_string()));
    file.insert("b".to_string(), PluginSpec::Url("ub".to_string()));
    assert_eq!(
        source_plugins("/plugins", &file),
        vec![
            SourceJob { name: "a".to_string(), directory: "/plugins/a".to_string() },
            SourceJob { name: "b".to_string(), directory: "/plugins/b".to_string() },
        ]
    );
}

#[test]
fn source_jobs_carry_each_declared_name_once() {
    let mut file = PluginSpecFile::new();
    file.insert("a".to_string(), PluginSpec::Url("u1".to_string()));
    file.insert("b".to_string(), PluginSpec::Url("u2".to_string()));
    file.insert("a".to_string(), PluginSpec::Url("u3".to_string()));
    let names: Vec<String> =
        source_plugins("/plugins", &file).into_iter().map(|job| job.name).collect();
    assert_eq!(names, vec!["a", "b"]);
    assert_eq!(SourcePass::new("/plugins", &file).len(), 2);
}

#[test]
fn empty_spec_gives_no_source_job() {
    assert_eq!(source_plugins("/plugins", &PluginSpecFile::new()), Vec::<SourceJob>::new());
}

#[test]
fn source_job_plans_in_its_directory() {
    let job = SourceJob { name: "p".to_string(), directory: "/plugins/p".to_string() };
    assert_eq!(
        job.actions(&names(&["z.tmux"])),
        vec![SourceAction::RunScript("/plugins/p/z.tmux".to_string())]
    );
    assert_eq!(
        job.actions(&names(&["plux.tmux"])),
        vec![SourceAction::SourceFile("/plugins/p/plux.tmux".to_string())]
    );
}

#[test]
fn an_unreadable_directory_is_reported() {
    let job = SourceJob { name: "p".to_string(), directory: "/plugins/p".to_string() };
    assert_eq!(
        job.unreadable("No such file or directory (os error 2)"),
        ReportLine {
            stream: Stream::Error,
            text: "Could not read plugin directory at /plugins/p: No such file or directory (os error 2)"
                .to_string(),
        }
    );
}

fn two_plugins() -> PluginSpecFile {
    let mut file = PluginSpecFile::new();
    file.insert("a".to_string(), PluginSpec::Url("ua".to_string()));
    file.insert("b".to_string(), PluginSpec::Url("ub".to_string()));
    file
}

fn good() -> Completion {
    Completion::Exited { success: true, stdout: String::new(), stderr: String::new() }
}

fn bad() -> Completion {
    Completion::Exited { success: false, stdout: "o".to_string(), stderr: "e".to_string() }
}

#[test]
fn source_pass_is_over_at_once_for_an_empty_spec() {
    let pass = SourcePass::new("/plugins", &PluginSpecFile::new());
    assert_eq!(pass.len(), 0);
    assert!(pass.is_over());
}

#[test]
fn source_pass_lists_the_declared_directories() {
    let pass = SourcePass::new("/plugins", &two_plugins());
    assert_eq!(pass.len(), 2);
    assert!(!pass.is_over());
    assert_eq!(pass.directory(0), "/plugins/a");
    assert_eq!(pass.directory(1), "/plugins/b");
}

#[test]
fn source_pass_sources_the_entry_script_alone() {
    let handle = handle();
    let mut pass = SourcePass::new("/plugins", &two_plugins());
    let commands = pass.listed(0, &names(&["plux.tmux", "other.tmux"]), &handle);
    assert_eq!(commands, vec![tmux(&["source-file", "/plugins/a/plux.tmux"])]);
}

#[test]
fn source_pass_runs_every_script_whatever_becomes_of_the_others() {
    let handle = handle();
    let mut pass = SourcePass::new("/plugins", &two_plugins());
    let commands = pass.listed(0, &names(&["a.tmux", "b.tmux"]), &handle);
    assert_eq!(
        commands,
        vec![
            tmux(&["run-shell", "-b", "/plugins/a/a.tmux"]),
            tmux(&["run-shell", "-b", "/plugins/a/b.tmux"]),
        ]
    );
    assert_eq!(pass.listed(1, &names(&[]), &handle), Vec::<Invocation>::new());
    assert!(!pass.is_over());
    assert_eq!(
        pass.completed(0, 0, &bad(), &handle),
        Some(ReportLine {
            stream: Stream::Error,
            text: "Failed sourcing file. stdout:\no\n\nstderr:\ne".to_string(),
        })
    );
    assert!(!pass.is_over());
    assert_eq!(pass.completed(0, 1, &good(), &handle), None);
    assert!(pass.is_over());
}

#[test]
fn source_pass_takes_no_notice_of_what_it_does_not_wait_for() {
    let handle = handle();
    let mut pass = SourcePass::new("/plugins", &two_plugins());
    assert_eq!(pass.completed(0, 0, &bad(), &handle), None);
    let commands = pass.listed(0, &names(&["a.tmux"]), &handle);
    assert_eq!(commands.len(), 1);
    assert_eq!(pass.listed(0, &names(&["a.tmux", "b.tmux"]), &handle), Vec::<Invocation>::new());
    assert_eq!(pass.completed(0, 7, &bad(), &handle), None);
    assert!(pass.completed(0, 0, &bad(), &handle).is_some());
    assert_eq!(pass.completed(0, 0, &bad(), &handle), None);
}

#[test]
fn source_pass_reports_a_directory_that_cannot_be_listed() {
    let handle = handle();
    let mut pass = SourcePass::new("/plugins", &two_plugins());
    assert_eq!(
        pass.unreadable(1, "No such file or directory (os error 2)"),
        ReportLine {
            stream: Stream::Error,
            text: "Could not read plugin directory at /plugins/b: No such file or directory (os error 2)"
                .to_string(),
        }
    );
    assert!(!pass.is_over());
    assert_eq!(pass.listed(1, &names(&["plux.tmux"]), &handle), Vec::<Invocation>::new());
    assert_eq!(pass.listed(0, &names(&["README.md"]), &handle), Vec::<Invocation>::new());
    assert!(pass.is_over());
}
