use orbit::archive::place_entry;
use orbit::config::{find_site, Config, ConfigError, Rejection, DeployConfig, RootResponse, AppVersion, Site, SiteCollectionExt};
use orbit::layout::{bootstrap_ops, configure_ops, deployment_dir, publish_ops, removal_ops, FsOp, PathState};
use orbit::multiplex::{CommandLine, Multiplexer, Output};
use orbit::progress::Log;
use orbit::retention::{retired, Entry};

fn site(name: &str, repo: &str) -> Site {
    Site { name: name.to_string(), path: format!("/srv/{name}"), github_repo: repo.to_string(), commands: vec![] }
}

fn paths(ops: &[FsOp]) -> Vec<String> {
    ops.iter()
        .map(|o| match o {
            FsOp::CreateDirAll(p) => format!("mkdir {p}"),
            FsOp::RemoveDirAll(p) => format!("rm {p}"),
            FsOp::Symlink { target, link } => format!("ln {target} {link}"),
            FsOp::Rename { from, to } => format!("mv {from} {to}"),
        })
        .collect()
}

#[test]
fn archive_entries_lose_their_wrapper() {
    let p = place_entry("/d", "acme-blog-1a2b3c/app/Http/Kernel.php", false).unwrap();
    assert_eq!(p.file, "/d/app/Http/Kernel.php");
    assert_eq!(p.dir, "/d/app/Http");
    let p = place_entry("/d", "W/readme.md", false).unwrap();
    assert_eq!(p.file, "/d/readme.md");
    assert_eq!(p.dir, "/d");
    let p = place_entry("/d", "W/W/x", false).unwrap();
    assert_eq!(p.file, "/d/W/x");
}

#[test]
fn archive_skips_wrapper_and_directories() {
    assert!(place_entry("/d", "W/", false).is_none());
    assert!(place_entry("/d", "W", false).is_none());
    assert!(place_entry("/d", "W/app/", true).is_none());
    assert!(place_entry("/d", "W/app", true).is_none());
}

#[test]
fn bootstrap_provisions_storage_once() {
    let fresh = bootstrap_ops("/r", "id", PathState { exists: true, is_symlink: false }, false);
    assert_eq!(
        paths(&fresh),
        vec![
            "mkdir /r/deployments/id",
            "rm /r/current",
            "mkdir /r/storage/logs",
            "mkdir /r/storage/app/public",
            "mkdir /r/storage/framework/cache",
            "mkdir /r/storage/framework/views",
            "mkdir /r/storage/framework/sessions",
        ]
    );
    let again = bootstrap_ops("/r", "id", PathState { exists: true, is_symlink: true }, true);
    assert_eq!(paths(&again), vec!["mkdir /r/deployments/id"]);
}

#[test]
fn configure_without_env() {
    let ops = configure_ops("/r", "id", false, false);
    assert_eq!(paths(&ops), vec!["ln /r/storage /r/deployments/id/storage"]);
}

#[test]
fn publish_renames_a_fresh_link_over_current() {
    let ops = publish_ops("/r", "id");
    assert_eq!(paths(&ops), vec!["ln deployments/id /r/.current-id", "mv /r/.current-id /r/current"]);
    assert_eq!(deployment_dir("/r", "id"), "/r/deployments/id");
}

#[test]
fn removal_ops_follow_paths() {
    let ops = removal_ops(vec!["/a".to_string(), "/b".to_string()]);
    assert_eq!(paths(&ops), vec!["rm /a", "rm /b"]);
}

fn entry(p: &str, m: u64, is_dir: bool) -> Entry {
    Entry { path: p.to_string(), modified: m, is_dir }
}

#[test]
fn retention_keeps_two_most_recent_besides_active() {
    let es = vec![entry("d1", 10, true), entry("d2", 20, true), entry("d3", 30, true), entry("d4", 40, true), entry("d5", 50, true)];
    assert_eq!(retired(&es, "d5"), vec!["d1", "d2"]);
    assert_eq!(retired(&es, "d1"), vec!["d2", "d3"]);
}

#[test]
fn retention_keeps_an_old_active_deployment() {
    let es = vec![entry("old", 1, true), entry("a", 5, true), entry("b", 6, true), entry("c", 7, true)];
    assert_eq!(retired(&es, "old"), vec!["a"]);
}

#[test]
fn retention_with_few_entries_and_files() {
    let es = vec![entry("a", 1, true), entry("b", 2, true), entry("new", 3, true)];
    assert!(retired(&es, "new").is_empty());
    let es = vec![entry("f", 1, false), entry("a", 2, true), entry("b", 3, true), entry("c", 4, true), entry("new", 5, true)];
    assert_eq!(retired(&es, "new"), vec!["a"]);
    assert!(retired(&Vec::new(), "new").is_empty());
}

#[test]
fn retention_breaks_ties_by_listing_order() {
    let es = vec![entry("a", 7, true), entry("b", 7, true), entry("c", 7, true), entry("new", 1, true)];
    assert_eq!(retired(&es, "new"), vec!["a"]);
}

#[test]
fn multiplexer_interleaves_by_arrival() {
    let mut m = Multiplexer::new();
    let outs = vec![
        Output::Stdout("o1".to_string()),
        Output::Stderr("e1".to_string()),
        Output::Stdout("o2".to_string()),
        Output::StdoutClosed,
        Output::Stderr("e2".to_string()),
        Output::StderrClosed,
    ];
    let logs: Vec<Log> = outs.into_iter().filter_map(|o| m.on_output(o)).collect();
    assert_eq!(
        logs,
        vec![
            Log::Info("o1".to_string()),
            Log::Error("e1".to_string()),
            Log::Info("o2".to_string()),
            Log::Error("e2".to_string()),
        ]
    );
    assert!(m.drained());
    assert_eq!(m.finish(Some(0)), Ok(()));
    assert_eq!(m.finish(Some(2)), Err(Some(2)));
    assert_eq!(m.finish(None), Err(None));
}

#[test]
fn multiplexer_waits_for_both_streams() {
    let mut m = Multiplexer::new();
    assert_eq!(m.on_output(Output::StderrClosed), None);
    assert!(!m.drained());
    assert_eq!(m.on_output(Output::Stdout("still".to_string())), Some(Log::Info("still".to_string())));
    m.on_output(Output::StdoutClosed);
    assert!(m.drained());
}

#[test]
fn command_rendering() {
    let c = CommandLine { program: "php".to_string(), args: vec!["artisan".to_string(), "migrate".to_string()], cwd: "/d".to_string() };
    assert_eq!(c.render(), "$ php artisan migrate");
    let c = CommandLine { program: "ls".to_string(), args: vec![], cwd: "/d".to_string() };
    assert_eq!(c.render(), "$ ls");
}

#[test]
fn sites_are_found_by_slug() {
    let sites = vec![site("My Blog", "acme/blog"), site("Shop", "acme/shop"), site("my blog!", "acme/other")];
    let found = find_site(&sites, "my-blog").unwrap();
    assert_eq!(found.github_repo, "acme/blog");
    assert_eq!(sites.find("shop").unwrap().name, "Shop");
    assert!(sites.find("Shop").is_none());
    assert!(sites.find("nope").is_none());
}

#[test]
fn config_validation() {
    let ok = Config::new(1, "secret".to_string(), vec![site("a", "o/r")]).validate(true).unwrap();
    assert_eq!(ok.sites.len(), 1);
    assert_eq!(Config::new(2, "secret".to_string(), vec![]).check_version(), Err(ConfigError::UnsupportedVersion(2)));
    assert_eq!(Config::new(1, "secret".to_string(), vec![]).check_version(), Ok(()));
    assert_eq!(Config::new(2, "secret".to_string(), vec![]).validate(true).unwrap().version, 2);
    assert_eq!(Config::new(1, "secret".to_string(), vec![]).validate(false).unwrap_err(), ConfigError::MissingToken);
    assert_eq!(
        Config::new(1, "secret".to_string(), vec![site("a", "o/r"), site("b", "bad"), site("c", "worse")]).validate(true).unwrap_err(),
        ConfigError::InvalidRepo("b".to_string())
    );
}

#[test]
fn deploy_reference_and_root() {
    assert_eq!(DeployConfig { git_ref: Some(String::new()) }.reference(), None);
    assert_eq!(DeployConfig { git_ref: Some("main".to_string()) }.reference(), Some("main".to_string()));
    assert_eq!(DeployConfig { git_ref: None }.reference(), None);
    let r = RootResponse::new(AppVersion { semver: "1.0.0".to_string(), rev: None, compile_time: "now".to_string() });
    assert_eq!(r.docs_url, "/docs");
    assert_eq!(r.openapi_url, "/openapi.json");
    assert_eq!(r.version.semver, "1.0.0");
}

#[test]
fn site_deploy_starts_an_attempt() {
    let d = site("Blog", "acme/blog").deploy(Some("main".to_string()), "t".to_string());
    assert!(d.get_path().starts_with("/srv/Blog/deployments/"));
}

#[test]
fn deploy_requests_are_checked() {
    let c = Config::new(1, "secret".to_string(), vec![site("My Blog", "acme/blog")]);
    assert_eq!(c.accept_request("secret", "my-blog").unwrap().name, "My Blog");
    assert_eq!(c.accept_request("wrong", "my-blog").unwrap_err(), Rejection::Unauthorized);
    assert_eq!(c.accept_request("wrong", "nope").unwrap_err(), Rejection::Unauthorized);
    assert_eq!(c.accept_request("secret", "nope").unwrap_err(), Rejection::NotFound);
}
