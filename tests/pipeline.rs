use orbit::config::Site;
use orbit::deploy::{Action, Cause, Deployer, Error, Outcome, Step};
use orbit::layout::{FsOp, PathState};
use orbit::progress::{Log, Progress, Stage};
use orbit::retention::Entry;

const ID: &str = "0190b2a4-7c1e-7000-8000-000000000001";

fn site(commands: &[&str]) -> Site {
    Site {
        name: "blog".to_string(),
        path: "/srv/blog".to_string(),
        github_repo: "acme/blog".to_string(),
        commands: commands.iter().map(|c| c.to_string()).collect(),
    }
}

fn absent() -> PathState {
    PathState { exists: false, is_symlink: false }
}

fn present() -> PathState {
    PathState { exists: true, is_symlink: false }
}

fn deployer(commands: &[&str], git_ref: Option<&str>) -> Deployer {
    Deployer::new(site(commands), git_ref.map(|r| r.to_string()), "t0ken".to_string(), ID.to_string())
}

fn stages(events: &[Progress]) -> Vec<Stage> {
    events
        .iter()
        .filter_map(|e| match e {
            Progress::Stage(s) => Some(*s),
            _ => None,
        })
        .collect()
}

fn run_ok(d: &mut Deployer, lines: &[Log], events: &mut Vec<Progress>) -> Step {
    for l in lines {
        let step = d.advance(Outcome::Output(l.clone()));
        assert!(matches!(step.action, Action::Wait));
        events.extend(step.events);
    }
    let Step { events: emitted, action } = d.advance(Outcome::Exited(Some(0)));
    events.extend(emitted);
    Step { events: Vec::new(), action }
}

/// Drives a successful run of a site with no `.env` and the given dependency state.
fn drive(d: &mut Deployer, manifest: bool, vendor: bool, command_lines: &[Vec<Log>]) -> (Vec<Progress>, Vec<Action>) {
    let mut events = Vec::new();
    let mut actions = Vec::new();
    let step = d.start();
    events.extend(step.events);
    let step = d.advance(Outcome::Inspected(vec![absent(), absent()]));
    actions.push(step.action);
    let step = d.advance(Outcome::Applied);
    actions.push(step.action);
    let step = d.advance(Outcome::Fetched { status: 200, body: vec![1, 2, 3] });
    actions.push(step.action);
    let step = d.advance(Outcome::Applied);
    events.extend(step.events);
    actions.push(step.action);
    let step = d.advance(Outcome::Inspected(vec![absent(), absent()]));
    actions.push(step.action);
    let step = d.advance(Outcome::Applied);
    actions.push(step.action);
    let deps = PathState { exists: manifest, is_symlink: false };
    let vend = PathState { exists: vendor, is_symlink: false };
    let mut step = d.advance(Outcome::Inspected(vec![deps, vend]));
    events.extend(step.events);
    if manifest && !vendor {
        actions.push(step.action);
        step = run_ok(d, &[], &mut events);
    }
    for lines in command_lines {
        actions.push(step.action);
        step = run_ok(d, lines, &mut events);
    }
    actions.push(step.action);
    let step = run_ok(d, &[], &mut events);
    actions.push(step.action);
    let step = run_ok(d, &[], &mut events);
    actions.push(step.action);
    let step = d.advance(Outcome::Applied);
    events.extend(step.events);
    actions.push(step.action);
    let step = d.advance(Outcome::Listed(vec![]));
    actions.push(step.action);
    let step = d.advance(Outcome::Applied);
    actions.push(step.action);
    (events, actions)
}

#[test]
fn blog_scenario_with_one_command() {
    let mut d = deployer(&["echo hi"], None);
    let (events, actions) = drive(&mut d, false, false, &[vec![Log::Info("hi".to_string())]]);
    assert_eq!(
        events,
        vec![
            Progress::Stage(Stage::Starting),
            Progress::Stage(Stage::Downloaded),
            Progress::Log(Log::Info("hi".to_string())),
            Progress::Stage(Stage::Optimized),
            Progress::Stage(Stage::Migrated),
            Progress::Stage(Stage::Deployed),
        ]
    );
    let dir = format!("/srv/blog/deployments/{ID}");
    let echo = actions
        .iter()
        .find_map(|a| match a {
            Action::Run(c) if c.program == "echo" => Some(c),
            _ => None,
        })
        .expect("the custom command runs");
    assert_eq!(echo.args, vec!["hi".to_string()]);
    assert_eq!(echo.cwd, dir);
    let publish = actions
        .iter()
        .find_map(|a| match a {
            Action::Apply(ops) if matches!(ops.last(), Some(FsOp::Rename { .. })) => Some(ops),
            _ => None,
        })
        .expect("the run publishes");
    match &publish[..] {
        [FsOp::Symlink { target, link }, FsOp::Rename { from, to }] => {
            assert_eq!(target, &format!("deployments/{ID}"));
            assert_eq!(link, from);
            assert_eq!(to, "/srv/blog/current");
        },
        _ => panic!("unexpected publish operations"),
    }
    assert!(matches!(actions.last(), Some(Action::Finish(Ok(())))));
}

#[test]
fn deps_installed_only_when_manifest_and_no_vendor() {
    let mut d = deployer(&[], None);
    let (events, actions) = drive(&mut d, true, false, &[]);
    assert_eq!(
        stages(&events),
        vec![Stage::Starting, Stage::Downloaded, Stage::DepsInstalled, Stage::Optimized, Stage::Migrated, Stage::Deployed]
    );
    let composer = actions.iter().find_map(|a| match a {
        Action::Run(c) if c.program == "composer" => Some(c),
        _ => None,
    });
    let composer = composer.expect("the installer runs");
    assert_eq!(
        composer.args,
        vec!["install", "--no-dev", "--prefer-dist", "--no-interaction", "--optimize-autoloader"]
    );

    for (manifest, vendor) in [(false, false), (true, true), (false, true)] {
        let mut d = deployer(&[], None);
        let (events, actions) = drive(&mut d, manifest, vendor, &[]);
        assert_eq!(
            stages(&events),
            vec![Stage::Starting, Stage::Downloaded, Stage::Optimized, Stage::Migrated, Stage::Deployed]
        );
        assert!(!actions.iter().any(|a| matches!(a, Action::Run(c) if c.program == "composer")));
    }
}

#[test]
fn commands_run_in_order_with_quoting() {
    let mut d = deployer(&["npm run build", "sh -c 'echo \"a b\"'"], None);
    let (_, actions) = drive(&mut d, false, false, &[vec![], vec![]]);
    let runs: Vec<(String, Vec<String>)> = actions
        .iter()
        .filter_map(|a| match a {
            Action::Run(c) => Some((c.program.clone(), c.args.clone())),
            _ => None,
        })
        .collect();
    assert_eq!(runs[0], ("npm".to_string(), vec!["run".to_string(), "build".to_string()]));
    assert_eq!(runs[1], ("sh".to_string(), vec!["-c".to_string(), "echo \"a b\"".to_string()]));
    assert_eq!(runs[2], ("php".to_string(), vec!["artisan".to_string(), "optimize".to_string()]));
    assert_eq!(runs[3], ("php".to_string(), vec!["artisan".to_string(), "migrate".to_string(), "--force".to_string()]));
}

#[test]
fn download_404_fails_before_publish() {
    let mut d = deployer(&[], Some("v1.2"));
    let step = d.start();
    assert_eq!(step.events, vec![Progress::Stage(Stage::Starting)]);
    match step.action {
        Action::Inspect(p) => assert_eq!(p, vec!["/srv/blog/current", "/srv/blog/storage"]),
        _ => panic!("expected an inspection"),
    }
    let step = d.advance(Outcome::Inspected(vec![absent(), present()]));
    match step.action {
        Action::Apply(ops) => {
            assert_eq!(ops.len(), 1);
            assert!(matches!(&ops[0], FsOp::CreateDirAll(p) if p == &format!("/srv/blog/deployments/{ID}")));
        },
        _ => panic!("expected bootstrap operations"),
    }
    let step = d.advance(Outcome::Applied);
    match step.action {
        Action::Fetch { url, authorization } => {
            assert_eq!(url, "https://api.github.com/repos/acme/blog/tarball/v1.2");
            assert_eq!(authorization, "Bearer t0ken");
        },
        _ => panic!("expected a fetch"),
    }
    let step = d.advance(Outcome::Fetched { status: 404, body: vec![] });
    assert!(step.events.is_empty());
    match step.action {
        Action::Finish(Err(Error::Download(Cause::Status(404)))) => {},
        _ => panic!("expected a download failure"),
    }
}

#[test]
fn default_branch_url_has_empty_reference() {
    let mut d = deployer(&[], None);
    d.start();
    d.advance(Outcome::Inspected(vec![absent(), absent()]));
    match d.advance(Outcome::Applied).action {
        Action::Fetch { url, .. } => assert_eq!(url, "https://api.github.com/repos/acme/blog/tarball/"),
        _ => panic!("expected a fetch"),
    }
}

#[test]
fn failing_command_halts_the_run() {
    let mut d = deployer(&["false", "echo never"], None);
    d.start();
    d.advance(Outcome::Inspected(vec![absent(), absent()]));
    d.advance(Outcome::Applied);
    d.advance(Outcome::Fetched { status: 200, body: vec![] });
    d.advance(Outcome::Applied);
    d.advance(Outcome::Inspected(vec![absent(), absent()]));
    d.advance(Outcome::Applied);
    let step = d.advance(Outcome::Inspected(vec![absent(), absent()]));
    assert!(matches!(step.action, Action::Run(ref c) if c.program == "false"));
    let step = d.advance(Outcome::Exited(Some(1)));
    assert!(matches!(step.action, Action::Finish(Err(Error::RunCommands(Cause::Exit(Some(1)))))));
}

#[test]
fn unbalanced_quotes_fail_the_commands_stage() {
    let mut d = deployer(&["echo 'oops"], None);
    d.start();
    d.advance(Outcome::Inspected(vec![absent(), absent()]));
    d.advance(Outcome::Applied);
    d.advance(Outcome::Fetched { status: 200, body: vec![] });
    d.advance(Outcome::Applied);
    d.advance(Outcome::Inspected(vec![absent(), absent()]));
    d.advance(Outcome::Applied);
    let step = d.advance(Outcome::Inspected(vec![absent(), absent()]));
    match step.action {
        Action::Finish(Err(Error::RunCommands(Cause::BadCommand(c)))) => assert_eq!(c, "echo 'oops"),
        _ => panic!("expected a command failure"),
    }
}

#[test]
fn configure_links_env_and_storage() {
    let mut d = deployer(&[], None);
    d.start();
    d.advance(Outcome::Inspected(vec![absent(), absent()]));
    d.advance(Outcome::Applied);
    d.advance(Outcome::Fetched { status: 200, body: vec![] });
    let step = d.advance(Outcome::Applied);
    assert_eq!(step.events, vec![Progress::Stage(Stage::Downloaded)]);
    let dir = format!("/srv/blog/deployments/{ID}");
    match step.action {
        Action::Inspect(p) => assert_eq!(p, vec!["/srv/blog/.env".to_string(), format!("{dir}/storage")]),
        _ => panic!("expected an inspection"),
    }
    let step = d.advance(Outcome::Inspected(vec![present(), present()]));
    match step.action {
        Action::Apply(ops) => match &ops[..] {
            [FsOp::Symlink { target: t1, link: l1 }, FsOp::RemoveDirAll(r), FsOp::Symlink { target: t2, link: l2 }] => {
                assert_eq!(t1, "/srv/blog/.env");
                assert_eq!(l1, &format!("{dir}/.env"));
                assert_eq!(r, &format!("{dir}/storage"));
                assert_eq!(t2, "/srv/blog/storage");
                assert_eq!(l2, &format!("{dir}/storage"));
            },
            _ => panic!("unexpected configure operations"),
        },
        _ => panic!("expected configure operations"),
    }
}

#[test]
fn cleanup_retires_old_deployments() {
    let mut d = deployer(&[], None);
    let dir = format!("/srv/blog/deployments/{ID}");
    d.start();
    for o in [
        Outcome::Inspected(vec![absent(), absent()]),
        Outcome::Applied,
        Outcome::Fetched { status: 200, body: vec![] },
        Outcome::Applied,
        Outcome::Inspected(vec![absent(), absent()]),
        Outcome::Applied,
        Outcome::Inspected(vec![absent(), absent()]),
        Outcome::Exited(Some(0)),
        Outcome::Exited(Some(0)),
        Outcome::Applied,
    ] {
        d.advance(o);
    }
    let entry = |p: &str, m: u64| Entry { path: p.to_string(), modified: m, is_dir: true };
    let step = d.advance(Outcome::Listed(vec![
        entry("/srv/blog/deployments/a", 1),
        entry(&dir, 9),
        entry("/srv/blog/deployments/b", 2),
        entry("/srv/blog/deployments/c", 3),
        entry("/srv/blog/deployments/d", 4),
    ]));
    match step.action {
        Action::Apply(ops) => {
            let gone: Vec<&str> = ops
                .iter()
                .map(|o| match o {
                    FsOp::RemoveDirAll(p) => p.as_str(),
                    _ => panic!("only removals"),
                })
                .collect();
            assert_eq!(gone, vec!["/srv/blog/deployments/a", "/srv/blog/deployments/b"]);
        },
        _ => panic!("expected removals"),
    }
    let step = d.advance(Outcome::Failed("permission denied".to_string()));
    match step.action {
        Action::Finish(Err(Error::Cleanup(Cause::Io(m)))) => assert_eq!(m, "permission denied"),
        _ => panic!("expected a cleanup failure"),
    }
}

#[test]
fn fresh_identifiers_differ() {
    let a = Deployer::from_site(site(&[]), None, "t".to_string());
    let b = Deployer::from_site(site(&[]), None, "t".to_string());
    assert_eq!(a.deployment_id().len(), 36);
    assert_ne!(a.deployment_id(), b.deployment_id());
    assert_eq!(a.get_path(), format!("/srv/blog/deployments/{}", a.deployment_id()));
}
