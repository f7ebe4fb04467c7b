use plux::git::GitError;
use plux::install::{
    install_plugins, InstallJob, InstallOutcome, InstallPass, JobMove, PipelineStep,
};
use plux::plugin::{FullPluginSpec, PluginSpec, PluginSpecFile, Version};
use plux::process::{Completion, Invocation};
use plux::report::{ReportLine, Stream};
use std::collections::HashSet;

fn exited(success: bool, stdout: &str, stderr: &str) -> Completion {
    Completion::Exited { success, stdout: stdout.to_string(), stderr: stderr.to_string() }
}

fn ok() -> Completion {
    exited(true, "", "")
}

fn failed(stderr: &str) -> Completion {
    exited(false, "", stderr)
}

fn git(args: &[&str], dir: Option<&str>) -> Invocation {
    Invocation {
        program: "git".to_string(),
        args: args.iter().map(|a| a.to_string()).collect(),
        working_dir: dir.map(String::from),
        capture: true,
    }
}

fn bare(url: &str) -> PluginSpec {
    PluginSpec::Url(url.to_string())
}

fn tagged(url: &str, tag: &str) -> PluginSpec {
    PluginSpec::Full(FullPluginSpec {
        url: url.to_string(),
        tag_or_commit: Some(Version::Tag(tag.to_string())),
    })
}

fn job(name: &str, spec: PluginSpec) -> InstallJob {
    InstallJob { name: name.to_string(), spec, destination: format!("/plugins/{}", name) }
}

/// A stand-in for git and the disk: which directories exist, which URLs can
/// be cloned, and every command that was run.
struct World {
    directories: HashSet<String>,
    bad_urls: HashSet<String>,
    default_branch: String,
    log: Vec<Invocation>,
}

impl World {
    fn new() -> World {
        World {
            directories: HashSet::new(),
            bad_urls: HashSet::new(),
            default_branch: "main".to_string(),
            log: Vec::new(),
        }
    }

    fn run(&mut self, invocation: &Invocation) -> Completion {
        self.log.push(Invocation {
            program: invocation.program.clone(),
            args: invocation.args.clone(),
            working_dir: invocation.working_dir.clone(),
            capture: invocation.capture,
        });
        match invocation.args[0].as_str() {
            "clone" => {
                if self.bad_urls.contains(&invocation.args[3]) {
                    failed("fatal: repository not found")
                } else {
                    self.directories.insert(invocation.args[4].clone());
                    ok()
                }
            }
            "fetch" => ok(),
            "rev-parse" => exited(true, &format!("origin/{}\n", self.default_branch), ""),
            "checkout" => ok(),
            other => panic!("unexpected git command {}", other),
        }
    }

    fn install(&mut self, job: &InstallJob) -> InstallOutcome {
        let present = self.directories.contains(&job.destination);
        let mut replies: Vec<Completion> = Vec::new();
        loop {
            match job.step(present, &replies) {
                PipelineStep::Run(invocation) => {
                    let reply = self.run(&invocation);
                    replies.push(reply);
                }
                PipelineStep::Done(outcome) => return outcome,
            }
        }
    }

    fn clones(&self) -> usize {
        self.log.iter().filter(|inv| inv.args[0] == "clone").count()
    }
}

#[test]
fn install_is_idempotent() {
    let mut world = World::new();
    let yank = job("yank", bare("https://example.com/yank"));
    assert_eq!(world.install(&yank), InstallOutcome::Installed(Version::Branch("main".to_string())));
    assert_eq!(world.clones(), 1);
    assert_eq!(world.install(&yank), InstallOutcome::AlreadyInstalled);
    assert_eq!(world.clones(), 1);
}

#[test]
fn already_installed_plugins_still_go_through_version_resolution() {
    let mut world = World::new();
    world.directories.insert("/plugins/yank".to_string());
    let yank = job("yank", bare("https://example.com/yank"));
    assert_eq!(world.install(&yank), InstallOutcome::AlreadyInstalled);
    assert_eq!(
        world.log,
        vec![
            git(&["fetch", "--all", "--tags"], Some("/plugins/yank")),
            git(&["rev-parse", "--abbrev-ref", "origin/HEAD"], Some("/plugins/yank")),
            git(&["checkout", "main"], Some("/plugins/yank")),
        ]
    );
}

#[test]
fn version_fidelity_for_a_tag() {
    let mut world = World::new();
    world.default_branch = "develop".to_string();
    let pinned = job("p", tagged("https://example.com/p", "v1.0.0"));
    assert_eq!(world.install(&pinned), InstallOutcome::Installed(Version::Tag("v1.0.0".to_string())));
    assert_eq!(
        world.log,
        vec![
            git(&["clone", "--depth", "1", "https://example.com/p", "/plugins/p"], None),
            git(&["fetch", "--all", "--tags"], Some("/plugins/p")),
            git(&["checkout", "v1.0.0"], Some("/plugins/p")),
        ]
    );
}

#[test]
fn default_branch_is_tracked_without_a_version() {
    let mut world = World::new();
    world.default_branch = "trunk".to_string();
    let plain = job("p", bare("https://example.com/p"));
    assert_eq!(world.install(&plain), InstallOutcome::Installed(Version::Branch("trunk".to_string())));
    assert_eq!(
        world.log,
        vec![
            git(&["clone", "--depth", "1", "https://example.com/p", "/plugins/p"], None),
            git(&["fetch", "--all", "--tags"], Some("/plugins/p")),
            git(&["rev-parse", "--abbrev-ref", "origin/HEAD"], Some("/plugins/p")),
            git(&["checkout", "trunk"], Some("/plugins/p")),
        ]
    );
}

#[test]
fn one_invalid_url_fails_one_plugin_only() {
    let mut file = PluginSpecFile::new();
    file.insert("a".to_string(), bare("https://example.com/a"));
    file.insert("broken".to_string(), bare("not a url"));
    file.insert("c".to_string(), tagged("https://example.com/c", "v2"));
    file.insert("d".to_string(), bare("https://example.com/d"));
    let mut world = World::new();
    world.bad_urls.insert("not a url".to_string());
    let jobs = install_plugins("/plugins", &file);
    assert_eq!(jobs.len(), 4);
    let outcomes: Vec<(String, InstallOutcome)> =
        jobs.iter().map(|job| (job.name.clone(), world.install(job))).collect();
    let failures: Vec<&(String, InstallOutcome)> =
        outcomes.iter().filter(|(_, outcome)| matches!(outcome, InstallOutcome::Failed(_))).collect();
    assert_eq!(failures.len(), 1);
    assert_eq!(
        failures[0],
        &(
            "broken".to_string(),
            InstallOutcome::Failed(GitError::CloneFailed {
                url: "not a url".to_string(),
                message: "fatal: repository not found".to_string(),
            })
        )
    );
    let installed =
        outcomes.iter().filter(|(_, outcome)| matches!(outcome, InstallOutcome::Installed(_))).count();
    assert_eq!(installed, 3);
}

#[test]
fn a_failed_clone_ends_the_job_at_once() {
    let broken = job("b", bare("u"));
    assert_eq!(
        broken.step(false, &[failed("fatal: x")]),
        PipelineStep::Done(InstallOutcome::Failed(GitError::CloneFailed {
            url: "u".to_string(),
            message: "fatal: x".to_string(),
        }))
    );
    assert_eq!(
        broken.step(false, &[failed("fatal: x"), ok(), ok(), ok()]),
        PipelineStep::Done(InstallOutcome::Failed(GitError::CloneFailed {
            url: "u".to_string(),
            message: "fatal: x".to_string(),
        }))
    );
}

#[test]
fn a_failed_fetch_fails_the_job_after_the_clone() {
    let plain = job("p", bare("u"));
    assert_eq!(
        plain.step(false, &[ok(), failed("fatal: fetch")]),
        PipelineStep::Done(InstallOutcome::Failed(GitError::FetchFailed {
            message: "fatal: fetch".to_string(),
        }))
    );
    assert_eq!(
        plain.step(true, &[failed("fatal: fetch")]),
        PipelineStep::Done(InstallOutcome::Failed(GitError::FetchFailed {
            message: "fatal: fetch".to_string(),
        }))
    );
}

#[test]
fn a_failed_checkout_fails_the_job() {
    let pinned = job("p", tagged("u", "v9"));
    assert_eq!(
        pinned.step(false, &[ok(), ok(), failed("error: pathspec")]),
        PipelineStep::Done(InstallOutcome::Failed(GitError::CheckoutFailed {
            reference: "v9".to_string(),
            message: "error: pathspec".to_string(),
        }))
    );
}

#[test]
fn a_default_branch_without_a_name_fails_the_job() {
    let plain = job("p", bare("u"));
    let unavailable = PipelineStep::Done(InstallOutcome::Failed(
        GitError::DefaultBranchUnavailable { message: String::new() },
    ));
    assert_eq!(plain.step(false, &[ok(), ok(), exited(true, "", "")]), unavailable);
    assert_eq!(plain.step(true, &[ok(), exited(true, "main\n", "")]), unavailable);
    assert_eq!(plain.step(true, &[ok(), exited(true, "origin/\n", ""), ok()]), unavailable);
}

#[test]
fn jobs_carry_each_declared_name_once() {
    let mut file = PluginSpecFile::new();
    file.insert("a".to_string(), bare("u1"));
    file.insert("b".to_string(), bare("u2"));
    file.insert("a".to_string(), bare("u3"));
    let names: Vec<String> =
        install_plugins("/plugins", &file).into_iter().map(|job| job.name).collect();
    assert_eq!(names, vec!["a", "b"]);
    let pass = InstallPass::new("/plugins", &file);
    assert_eq!(pass.len(), 2);
    assert_eq!((pass.name(0), pass.name(1)), ("a", "b"));
}

#[test]
fn steps_follow_each_other() {
    let plain = job("p", bare("u"));
    assert_eq!(
        plain.step(false, &[]),
        PipelineStep::Run(git(&["clone", "--depth", "1", "u", "/plugins/p"], None))
    );
    assert_eq!(
        plain.step(false, &[ok()]),
        PipelineStep::Run(git(&["fetch", "--all", "--tags"], Some("/plugins/p")))
    );
    assert_eq!(
        plain.step(true, &[]),
        PipelineStep::Run(git(&["fetch", "--all", "--tags"], Some("/plugins/p")))
    );
    assert_eq!(
        plain.step(true, &[ok(), exited(true, "origin/main", ""), ok()]),
        PipelineStep::Done(InstallOutcome::AlreadyInstalled)
    );
}

#[test]
fn empty_spec_gives_no_install_job() {
    let file = PluginSpecFile::new();
    assert_eq!(install_plugins("/plugins", &file), Vec::<InstallJob>::new());
}

#[test]
fn install_plugins_gives_one_job_per_declaration() {
    let mut file = PluginSpecFile::new();
    file.insert("a".to_string(), bare("ua"));
    file.insert("b".to_string(), tagged("ub", "v1"));
    assert_eq!(
        install_plugins("/root/plux/", &file),
        vec![
            InstallJob {
                name: "a".to_string(),
                spec: bare("ua"),
                destination: "/root/plux/a".to_string(),
            },
            InstallJob {
                name: "b".to_string(),
                spec: tagged("ub", "v1"),
                destination: "/root/plux/b".to_string(),
            },
        ]
    );
}

#[test]
fn outcomes_are_reported_on_their_stream() {
    assert_eq!(
        InstallOutcome::AlreadyInstalled.report("yank"),
        ReportLine { stream: Stream::Standard, text: "  [OK] yank (already installed)".to_string() }
    );
    assert_eq!(
        InstallOutcome::Installed(Version::Tag("v1.0.0".to_string())).report("yank"),
        ReportLine { stream: Stream::Standard, text: "  [OK] yank (tag 'v1.0.0')".to_string() }
    );
    assert_eq!(
        InstallOutcome::Failed(GitError::CloneFailed {
            url: "u".to_string(),
            message: "fatal: x".to_string(),
        })
        .report("yank"),
        ReportLine {
            stream: Stream::Error,
            text: "  [ERROR] yank - Failed to install: Git operation failed: Git command 'clone u' failed:\nfatal: x"
                .to_string(),
        }
    );
}

fn declared() -> PluginSpecFile {
    let mut file = PluginSpecFile::new();
    file.insert("a".to_string(), bare("https://example.com/a"));
    file.insert("broken".to_string(), bare("not a url"));
    file.insert("c".to_string(), tagged("https://example.com/c", "v2"));
    file
}

/// Runs a pass to its end, always serving the job that `pick` chooses among
/// those that wait for something.
fn run_pass(world: &mut World, file: &PluginSpecFile, pick: fn(&[usize]) -> usize) -> Vec<(String, InstallOutcome)> {
    let mut pass = InstallPass::new("/plugins", file);
    let mut outcomes: Vec<(String, InstallOutcome)> = Vec::new();
    let mut reported = vec![false; pass.len()];
    loop {
        let mut waiting: Vec<usize> = Vec::new();
        for job in 0..pass.len() {
            match pass.next(job) {
                JobMove::Done(outcome) => {
                    if !reported[job] {
                        reported[job] = true;
                        outcomes.push((pass.name(job).to_string(), outcome));
                    }
                }
                _ => waiting.push(job),
            }
        }
        if waiting.is_empty() {
            assert!(pass.is_over());
            return outcomes;
        }
        assert!(!pass.is_over());
        let job = pick(&waiting);
        match pass.next(job) {
            JobMove::Probe(path) => {
                let present = world.directories.contains(&path);
                pass.probed(job, present);
            }
            JobMove::Run(invocation) => {
                let reply = world.run(&invocation);
                pass.completed(job, reply);
            }
            JobMove::Done(_) => unreachable!(),
        }
    }
}

fn first(waiting: &[usize]) -> usize {
    waiting[0]
}

fn last(waiting: &[usize]) -> usize {
    waiting[waiting.len() - 1]
}

#[test]
fn install_pass_gives_every_plugin_one_outcome() {
    let mut world = World::new();
    world.bad_urls.insert("not a url".to_string());
    let outcomes = run_pass(&mut world, &declared(), first);
    assert_eq!(
        outcomes,
        vec![
            ("a".to_string(), InstallOutcome::Installed(Version::Branch("main".to_string()))),
            (
                "broken".to_string(),
                InstallOutcome::Failed(GitError::CloneFailed {
                    url: "not a url".to_string(),
                    message: "fatal: repository not found".to_string(),
                })
            ),
            ("c".to_string(), InstallOutcome::Installed(Version::Tag("v2".to_string()))),
        ]
    );
}

#[test]
fn install_pass_outcomes_do_not_depend_on_the_order_of_arrival() {
    let mut one = World::new();
    one.bad_urls.insert("not a url".to_string());
    let mut forward = run_pass(&mut one, &declared(), first);
    let mut two = World::new();
    two.bad_urls.insert("not a url".to_string());
    let mut backward = run_pass(&mut two, &declared(), last);
    assert_eq!(backward[0].0, "c");
    forward.sort_by(|x, y| x.0.cmp(&y.0));
    backward.sort_by(|x, y| x.0.cmp(&y.0));
    assert_eq!(forward, backward);
}

#[test]
fn install_pass_is_over_at_once_for_an_empty_spec() {
    let pass = InstallPass::new("/plugins", &PluginSpecFile::new());
    assert_eq!(pass.len(), 0);
    assert!(pass.is_over());
}

#[test]
fn install_pass_begins_with_a_probe_of_every_directory() {
    let pass = InstallPass::new("/plugins", &declared());
    assert_eq!(pass.len(), 3);
    assert!(!pass.is_over());
    assert_eq!(pass.name(1), "broken");
    assert_eq!(pass.next(0), JobMove::Probe("/plugins/a".to_string()));
    assert_eq!(pass.next(1), JobMove::Probe("/plugins/broken".to_string()));
    assert_eq!(pass.next(2), JobMove::Probe("/plugins/c".to_string()));
}

#[test]
fn install_pass_takes_no_notice_of_what_it_does_not_wait_for() {
    let mut pass = InstallPass::new("/plugins", &declared());
    pass.completed(0, ok());
    assert_eq!(pass.next(0), JobMove::Probe("/plugins/a".to_string()));
    pass.probed(0, true);
    pass.probed(0, false);
    assert_eq!(
        pass.next(0),
        JobMove::Run(git(&["fetch", "--all", "--tags"], Some("/plugins/a")))
    );
    pass.completed(0, failed("fatal: fetch"));
    let over = JobMove::Done(InstallOutcome::Failed(GitError::FetchFailed {
        message: "fatal: fetch".to_string(),
    }));
    assert_eq!(pass.next(0), over);
    pass.completed(0, ok());
    pass.probed(0, false);
    assert_eq!(pass.next(0), over);
    assert_eq!(pass.next(1), JobMove::Probe("/plugins/broken".to_string()));
}
