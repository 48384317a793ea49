//! The deployment pipeline: one attempt at deploying a site, as a state
//! machine. A runner performs each action it asks for (inspecting paths,
//! applying filesystem operations, fetching the source archive, unpacking it,
//! running commands, listing old deployments) and reports the outcome; the
//! pipeline decides what comes next and which progress events to emit.

use vstd::prelude::*;

use crate::config::{Site, SiteView};
use crate::layout::{
    bootstrap_ops, bootstrap_plan, child, configure_ops, configure_plan, current_path,
    deployment_dir, deployment_path, deployments_path, env_path, join_path, ops_view,
    publish_ops, publish_plan, removal_ops, storage_path, FsOp, Op, PathState,
};
use crate::multiplex::CommandLine;
use crate::progress::{self, ErrorResponse, Log, Progress, Stage};
use crate::retention::{retired, retired_upto, Entry};
use crate::text::{join2, join3};

verus! {

/// The words of a shell command line, quoting respected, if it is well formed.
pub uninterp spec fn shell_words(s: Seq<char>) -> Option<Seq<Seq<char>>>;

/// Relies on `shlex::split`: splits a command line into words as a POSIX
/// shell does, or fails on unbalanced quoting; the result depends on the text alone.
#[verifier::external_body]
fn split_words(s: &str) -> (r: Option<Vec<String>>)
    ensures
        match r {
            Some(v) => shell_words(s@) == Some(v@.map_values(|w: String| w@)),
            None => shell_words(s@) is None,
        },
{
    shlex::split(s)
}

/// Whether `c` may appear in a hyphenated UUID.
pub open spec fn is_uuid_char(c: char) -> bool {
    c == '-' || ('0' <= c <= '9') || ('a' <= c <= 'f')
}

/// Relies on `uuid::Uuid::now_v7` and its hyphenated form: a fresh,
/// time-ordered identifier written as 36 lower-case hex digits and dashes.
#[verifier::external_body]
fn fresh_id() -> (r: String)
    ensures
        r@.len() == 36,
        forall|i: int| 0 <= i < 36 ==> is_uuid_char(#[trigger] r@[i]),
{
    uuid::Uuid::now_v7().hyphenated().to_string()
}

/// What went wrong beneath a failed stage.
#[derive(Clone, Debug, PartialEq, Eq)]
pub enum Cause {
    /// An I/O or transport failure, as the runner described it.
    Io(String),
    /// The source host answered with this non-success status.
    Status(u16),
    /// A command exited unsuccessfully; no code when a signal ended it.
    Exit(Option<i32>),
    /// A configured command could not be split into words.
    BadCommand(String),
    /// The runner reported an outcome that does not answer the action.
    Unexpected,
}

/// A failed deployment, tagged by the stage that failed.
#[derive(Clone, Debug, PartialEq, Eq)]
pub enum Error {
    Bootstrap(Cause),
    Download(Cause),
    Extraction(Cause),
    Configure(Cause),
    InstallDeps(Cause),
    RunCommands(Cause),
    Optimize(Cause),
    Migrate(Cause),
    Cleanup(Cause),
    Publish(Cause),
}

/// The kind a remote caller sees for a failure: its stage, without the cause.
pub open spec fn kind_of(e: Error) -> progress::Error {
    match e {
        Error::Bootstrap(_) => progress::Error::Bootstrap,
        Error::Download(_) => progress::Error::Download,
        Error::Extraction(_) => progress::Error::Extraction,
        Error::Configure(_) => progress::Error::Configure,
        Error::InstallDeps(_) => progress::Error::InstallDeps,
        Error::RunCommands(_) => progress::Error::RunCommands,
        Error::Optimize(_) => progress::Error::Optimize,
        Error::Migrate(_) => progress::Error::Migrate,
        Error::Cleanup(_) => progress::Error::Cleanup,
        Error::Publish(_) => progress::Error::Publish,
    }
}

/// The cause beneath a failure.
pub open spec fn cause_of(e: Error) -> Cause {
    match e {
        Error::Bootstrap(c) | Error::Download(c) | Error::Extraction(c) | Error::Configure(c)
        | Error::InstallDeps(c) | Error::RunCommands(c) | Error::Optimize(c) | Error::Migrate(c)
        | Error::Cleanup(c) | Error::Publish(c) => c,
    }
}

/// The failure of a given kind with a given cause.
pub open spec fn error_of(k: progress::Error, c: Cause) -> Error {
    match k {
        progress::Error::Bootstrap => Error::Bootstrap(c),
        progress::Error::Download => Error::Download(c),
        progress::Error::Extraction => Error::Extraction(c),
        progress::Error::Configure => Error::Configure(c),
        progress::Error::InstallDeps => Error::InstallDeps(c),
        progress::Error::RunCommands => Error::RunCommands(c),
        progress::Error::Optimize => Error::Optimize(c),
        progress::Error::Migrate => Error::Migrate(c),
        progress::Error::Cleanup => Error::Cleanup(c),
        progress::Error::Publish => Error::Publish(c),
    }
}

impl Error {
    /// The kind of this failure.
    pub fn kind(&self) -> (r: progress::Error)
        ensures
            r == kind_of(*self),
    {
        match self {
            Error::Bootstrap(_) => progress::Error::Bootstrap,
            Error::Download(_) => progress::Error::Download,
            Error::Extraction(_) => progress::Error::Extraction,
            Error::Configure(_) => progress::Error::Configure,
            Error::InstallDeps(_) => progress::Error::InstallDeps,
            Error::RunCommands(_) => progress::Error::RunCommands,
            Error::Optimize(_) => progress::Error::Optimize,
            Error::Migrate(_) => progress::Error::Migrate,
            Error::Cleanup(_) => progress::Error::Cleanup,
            Error::Publish(_) => progress::Error::Publish,
        }
    }

    /// The failure of kind `k` with cause `c`.
    pub fn new(k: progress::Error, c: Cause) -> (r: Error)
        ensures
            r == error_of(k, c),
    {
        match k {
            progress::Error::Bootstrap => Error::Bootstrap(c),
            progress::Error::Download => Error::Download(c),
            progress::Error::Extraction => Error::Extraction(c),
            progress::Error::Configure => Error::Configure(c),
            progress::Error::InstallDeps => Error::InstallDeps(c),
            progress::Error::RunCommands => Error::RunCommands(c),
            progress::Error::Optimize => Error::Optimize(c),
            progress::Error::Migrate => Error::Migrate(c),
            progress::Error::Cleanup => Error::Cleanup(c),
            progress::Error::Publish => Error::Publish(c),
        }
    }
}

impl From<Error> for progress::Error {
    fn from(value: Error) -> (r: progress::Error)
        ensures
            r == kind_of(value),
    {
        value.kind()
    }
}

impl vstd::std_specs::convert::FromSpecImpl<Error> for progress::Error {
    open spec fn obeys_from_spec() -> bool {
        true
    }

    open spec fn from_spec(v: Error) -> progress::Error {
        kind_of(v)
    }
}

impl From<Error> for ErrorResponse {
    fn from(value: Error) -> (r: ErrorResponse)
        ensures
            r.error == kind_of(value),
            r.message@ == progress::error_message(kind_of(value)),
    {
        ErrorResponse::from(value.kind())
    }
}

impl vstd::std_specs::convert::FromSpecImpl<Error> for ErrorResponse {
    // The message is text that a spec function cannot build: `from` states
    // what the response holds in its own `ensures` instead.
    open spec fn obeys_from_spec() -> bool {
        false
    }

    open spec fn from_spec(v: Error) -> ErrorResponse {
        arbitrary()
    }
}

/// Where a deployment attempt stands.
#[derive(Clone, Copy, Debug, PartialEq, Eq, Structural)]
pub enum Phase {
    /// Nothing has happened yet.
    Start,
    /// Waiting for the state of `current` and `storage`.
    InspectBootstrap,
    /// Waiting for the bootstrap operations.
    Bootstrapping,
    /// Waiting for the source archive.
    Downloading,
    /// Waiting for the archive to be unpacked.
    Extracting,
    /// Waiting for the state of the shared `.env` and the deployment's own `storage`.
    InspectConfigure,
    /// Waiting for the configure operations.
    Configuring,
    /// Waiting for the state of the dependency manifest and the installed dependencies.
    InspectDeps,
    /// Waiting for the dependency installer.
    Installing,
    /// Waiting for the configured command with this index.
    Running(usize),
    /// Waiting for the optimize command.
    Optimizing,
    /// Waiting for the migrate command.
    Migrating,
    /// Waiting for the publish operations.
    Publishing,
    /// Waiting for the listing of the deployments directory.
    Listing,
    /// Waiting for old deployments to be deleted.
    Retiring,
    /// The deployment succeeded.
    Done,
    /// A stage failed; nothing more runs.
    Failed,
}

/// What the pipeline asks its runner to do next.
#[derive(Debug)]
pub enum Action {
    /// Report the state of each path, in order.
    Inspect(Vec<String>),
    /// Perform the operations in order, stopping at the first failure.
    Apply(Vec<FsOp>),
    /// `GET` the URL with the given `Authorization` header; report status and body.
    Fetch { url: String, authorization: String },
    /// Unpack the gzip-compressed tar archive under `dest`, placing each
    /// entry as `crate::archive::place_entry` says.
    Extract { archive: Vec<u8>, dest: String },
    /// Spawn the command and report its outputs, then its exit.
    Run(CommandLine),
    /// Keep reporting the running command's outputs.
    Wait,
    /// List the entries of the directory with their modification times.
    List(String),
    /// The attempt is over.
    Finish(Result<(), Error>),
}

/// What the runner reports back.
#[derive(Debug)]
pub enum Outcome {
    /// The state of each inspected path, in order.
    Inspected(Vec<PathState>),
    /// The operations, or the extraction, succeeded.
    Applied,
    /// The source host answered.
    Fetched { status: u16, body: Vec<u8> },
    /// A log line of the running command, in arrival order.
    Output(Log),
    /// The running command ended, with its exit code if it had one.
    Exited(Option<i32>),
    /// The entries of the listed directory.
    Listed(Vec<Entry>),
    /// The action failed; the text says how.
    Failed(String),
}

/// The events to emit and the next action.
#[derive(Debug)]
pub struct Step {
    pub events: Vec<Progress>,
    pub action: Action,
}

/// The kind of failure of each phase.
pub open spec fn phase_kind(p: Phase) -> progress::Error {
    match p {
        Phase::Downloading => progress::Error::Download,
        Phase::Extracting => progress::Error::Extraction,
        Phase::InspectConfigure | Phase::Configuring => progress::Error::Configure,
        Phase::InspectDeps | Phase::Installing => progress::Error::InstallDeps,
        Phase::Running(_) => progress::Error::RunCommands,
        Phase::Optimizing => progress::Error::Optimize,
        Phase::Migrating => progress::Error::Migrate,
        Phase::Publishing => progress::Error::Publish,
        Phase::Listing | Phase::Retiring => progress::Error::Cleanup,
        _ => progress::Error::Bootstrap,
    }
}

/// The checkpoints of the dependency stage: `DepsInstalled` only when it ran.
pub open spec fn deps_stages(deps: bool) -> Seq<Stage> {
    if deps { seq![Stage::DepsInstalled] } else { seq![] }
}

/// The checkpoints a run has emitted by the time it reaches a phase.
pub open spec fn stages_before(p: Phase, deps: bool) -> Seq<Stage> {
    match p {
        Phase::Start => seq![],
        Phase::InspectBootstrap | Phase::Bootstrapping | Phase::Downloading | Phase::Extracting => seq![Stage::Starting],
        Phase::InspectConfigure | Phase::Configuring | Phase::InspectDeps | Phase::Installing =>
            seq![Stage::Starting, Stage::Downloaded],
        Phase::Running(_) | Phase::Optimizing => seq![Stage::Starting, Stage::Downloaded] + deps_stages(deps),
        Phase::Migrating => seq![Stage::Starting, Stage::Downloaded] + deps_stages(deps) + seq![Stage::Optimized],
        Phase::Publishing => seq![Stage::Starting, Stage::Downloaded] + deps_stages(deps)
            + seq![Stage::Optimized, Stage::Migrated],
        _ => seq![Stage::Starting, Stage::Downloaded] + deps_stages(deps)
            + seq![Stage::Optimized, Stage::Migrated, Stage::Deployed],
    }
}

/// The checkpoints among a sequence of events, in order.
pub open spec fn stages_of(evs: Seq<Progress>) -> Seq<Stage>
    decreases evs.len(),
{
    if evs.len() == 0 {
        seq![]
    } else {
        match evs.last() {
            Progress::Stage(s) => stages_of(evs.drop_last()).push(s),
            _ => stages_of(evs.drop_last()),
        }
    }
}

/// The URL of the source archive of `repo` (`owner/repo`) at `git_ref`, or at
/// the default branch when there is none.
pub open spec fn tarball_url(repo: Seq<char>, git_ref: Option<Seq<char>>) -> Seq<char> {
    "https://api.github.com/repos/"@ + repo + "/tarball/"@ + match git_ref {
        Some(r) => r,
        None => seq![],
    }
}

/// Whether a command line is `program args...` run in `cwd`.
pub open spec fn is_command(c: CommandLine, program: Seq<char>, args: Seq<Seq<char>>, cwd: Seq<char>) -> bool {
    c.program@ == program && c.args@.map_values(|a: String| a@) == args && c.cwd@ == cwd
}

/// The dependency installer: production mode, no prompts, optimized autoloader.
pub open spec fn install_args() -> Seq<Seq<char>> {
    seq!["install"@, "--no-dev"@, "--prefer-dist"@, "--no-interaction"@, "--optimize-autoloader"@]
}

pub open spec fn optimize_args() -> Seq<Seq<char>> {
    seq!["artisan"@, "optimize"@]
}

pub open spec fn migrate_args() -> Seq<Seq<char>> {
    seq!["artisan"@, "migrate"@, "--force"@]
}

/// The phase in which configured command `i` would run: the command itself if
/// there is one and it splits into words, a failure if it does not, the
/// optimize step once all have run.
pub open spec fn command_phase(d: DeployerView, i: int) -> Phase {
    if i < d.site.commands.len() {
        match shell_words(d.site.commands[i]) {
            Some(w) => if w.len() > 0 { Phase::Running(i as usize) } else { Phase::Failed },
            None => Phase::Failed,
        }
    } else {
        Phase::Optimizing
    }
}

/// Whether an outcome reports a successful command exit.
pub open spec fn exited_ok(o: Outcome) -> bool {
    o == Outcome::Exited(Some(0i32))
}

/// Whether an outcome reports the state of exactly two paths.
pub open spec fn inspected_two(o: Outcome) -> bool {
    o matches Outcome::Inspected(v) && v@.len() == 2
}

/// The phase that follows an outcome.
pub open spec fn next_phase(d: DeployerView, o: Outcome) -> Phase {
    match d.phase {
        Phase::InspectBootstrap => if inspected_two(o) { Phase::Bootstrapping } else { Phase::Failed },
        Phase::Bootstrapping => if o is Applied { Phase::Downloading } else { Phase::Failed },
        Phase::Downloading => if o matches Outcome::Fetched { status, .. } && 200 <= status < 300 {
            Phase::Extracting
        } else {
            Phase::Failed
        },
        Phase::Extracting => if o is Applied { Phase::InspectConfigure } else { Phase::Failed },
        Phase::InspectConfigure => if inspected_two(o) { Phase::Configuring } else { Phase::Failed },
        Phase::Configuring => if o is Applied { Phase::InspectDeps } else { Phase::Failed },
        Phase::InspectDeps => match o {
            Outcome::Inspected(v) => if v@.len() != 2 {
                Phase::Failed
            } else if v@[0].exists && !v@[1].exists {
                Phase::Installing
            } else {
                command_phase(d, 0)
            },
            _ => Phase::Failed,
        },
        Phase::Installing => if o is Output { d.phase } else if exited_ok(o) { command_phase(d, 0) } else { Phase::Failed },
        Phase::Running(i) => if o is Output { d.phase } else if exited_ok(o) { command_phase(d, i + 1) } else { Phase::Failed },
        Phase::Optimizing => if o is Output { d.phase } else if exited_ok(o) { Phase::Migrating } else { Phase::Failed },
        Phase::Migrating => if o is Output { d.phase } else if exited_ok(o) { Phase::Publishing } else { Phase::Failed },
        Phase::Publishing => if o is Applied { Phase::Listing } else { Phase::Failed },
        Phase::Listing => if o is Listed { Phase::Retiring } else { Phase::Failed },
        Phase::Retiring => if o is Applied { Phase::Done } else { Phase::Failed },
        _ => d.phase,
    }
}

/// Whether an outcome leads to a failure because a configured command does
/// not split into words.
pub open spec fn fails_on_command(d: DeployerView, o: Outcome) -> bool {
    next_phase(d, o) == Phase::Failed && match d.phase {
        Phase::InspectDeps => inspected_two(o) && command_phase(d, 0) == Phase::Failed,
        Phase::Installing => exited_ok(o),
        Phase::Running(_) => exited_ok(o),
        _ => false,
    }
}

/// The cause of the failure that an outcome brings, in a phase where it fails.
pub open spec fn is_cause_of(c: Cause, d: DeployerView, o: Outcome) -> bool {
    if fails_on_command(d, o) {
        let i = match d.phase {
            Phase::Running(i) => i + 1,
            _ => 0,
        };
        c matches Cause::BadCommand(s) && s@ == d.site.commands[i]
    } else {
        match o {
            Outcome::Failed(m) => c == Cause::Io(m),
            Outcome::Fetched { status, .. } => if d.phase == Phase::Downloading {
                c == Cause::Status(status)
            } else {
                c == Cause::Unexpected
            },
            Outcome::Exited(code) => if d.phase is Installing || d.phase is Running || d.phase is Optimizing
                || d.phase is Migrating {
                c == Cause::Exit(code)
            } else {
                c == Cause::Unexpected
            },
            _ => c == Cause::Unexpected,
        }
    }
}

/// The checkpoints and log lines that an outcome makes the attempt emit.
pub open spec fn events_of(d: DeployerView, o: Outcome) -> Seq<Progress> {
    match o {
        Outcome::Output(l) => if d.phase is Installing || d.phase is Running || d.phase is Optimizing
            || d.phase is Migrating {
            seq![Progress::Log(l)]
        } else {
            seq![]
        },
        Outcome::Applied => match d.phase {
            Phase::Extracting => seq![Progress::Stage(Stage::Downloaded)],
            Phase::Publishing => seq![Progress::Stage(Stage::Deployed)],
            _ => seq![],
        },
        Outcome::Exited(c) => if c == Some(0i32) {
            match d.phase {
                Phase::Installing => seq![Progress::Stage(Stage::DepsInstalled)],
                Phase::Optimizing => seq![Progress::Stage(Stage::Optimized)],
                Phase::Migrating => seq![Progress::Stage(Stage::Migrated)],
                _ => seq![],
            }
        } else {
            seq![]
        },
        _ => seq![],
    }
}

/// The paths of a list, as plain sequences.
pub open spec fn paths_view(v: Seq<String>) -> Seq<Seq<char>> {
    v.map_values(|p: String| p@)
}

/// Whether `a` is the action that the new phase `n` asks for, after outcome `o`
/// in attempt `d`.
pub open spec fn is_action_for(a: Action, d: DeployerView, o: Outcome, n: Phase) -> bool {
    let root = d.site.path;
    let dir = dir_of(d);
    match n {
        Phase::Bootstrapping => a matches Action::Apply(ops) && o matches Outcome::Inspected(v)
            && ops_view(ops@) == bootstrap_plan(root, d.deployment_id, v@[0], v@[1].exists),
        Phase::Downloading => a matches Action::Fetch { url, authorization }
            && url@ == tarball_url(d.site.github_repo, d.git_ref)
            && authorization@ == "Bearer "@ + d.github_token,
        Phase::Extracting => a matches Action::Extract { archive, dest }
            && o matches Outcome::Fetched { body, .. } && archive == body && dest@ == dir,
        Phase::InspectConfigure => a matches Action::Inspect(paths)
            && paths_view(paths@) == seq![env_path(root), child(dir, "storage"@)],
        Phase::Configuring => a matches Action::Apply(ops) && o matches Outcome::Inspected(v)
            && ops_view(ops@) == configure_plan(root, d.deployment_id, v@[0].exists, v@[1].exists),
        Phase::InspectDeps => a matches Action::Inspect(paths)
            && paths_view(paths@) == seq![child(dir, "composer.json"@), child(dir, "vendor"@)],
        Phase::Installing => if d.phase == n {
            a is Wait
        } else {
            a matches Action::Run(c) && is_command(c, "composer"@, install_args(), dir)
        },
        Phase::Running(i) => if d.phase == n {
            a is Wait
        } else {
            a matches Action::Run(c) && shell_words(d.site.commands[i as int]) matches Some(w)
                && is_command(c, w[0], w.drop_first(), dir)
        },
        Phase::Optimizing => if d.phase == n {
            a is Wait
        } else {
            a matches Action::Run(c) && is_command(c, "php"@, optimize_args(), dir)
        },
        Phase::Migrating => if d.phase == n {
            a is Wait
        } else {
            a matches Action::Run(c) && is_command(c, "php"@, migrate_args(), dir)
        },
        Phase::Publishing => a matches Action::Apply(ops) && ops_view(ops@) == publish_plan(root, d.deployment_id),
        Phase::Listing => a matches Action::List(p) && p@ == deployments_path(root),
        Phase::Retiring => a matches Action::Apply(ops) && o matches Outcome::Listed(es) && {
            let gone = retired_upto(es@, dir, es@.len() as int);
            &&& ops@.len() == gone.len()
            &&& forall|k: int| 0 <= k < ops@.len() ==> #[trigger] ops@[k]@ == Op::RemoveDirAll(es@[gone[k]].path@)
        },
        Phase::Done => a matches Action::Finish(r) && r is Ok,
        _ => a matches Action::Finish(r) && r matches Err(e) && kind_of(e) == (if fails_on_command(d, o) {
            progress::Error::RunCommands
        } else {
            phase_kind(d.phase)
        }) && is_cause_of(cause_of(e), d, o),
    }
}

/// A deployment attempt of a site.
pub struct Deployer {
    site: Site,
    deployment_id: String,
    github_token: String,
    git_ref: Option<String>,
    phase: Phase,
    deps_needed: bool,
    deps_report: Ghost<(bool, bool)>,
    stages: Ghost<Seq<Stage>>,
}

/// What a deployer holds, as plain values.
pub struct DeployerView {
    pub site: SiteView,
    pub deployment_id: Seq<char>,
    pub github_token: Seq<char>,
    pub git_ref: Option<Seq<char>>,
    pub phase: Phase,
    pub deps_needed: bool,
    /// Whether the dependency manifest and the installed dependencies existed,
    /// as reported when they were inspected.
    pub deps_report: (bool, bool),
    pub stages: Seq<Stage>,
}

impl View for Deployer {
    type V = DeployerView;

    closed spec fn view(&self) -> DeployerView {
        DeployerView {
            site: self.site@,
            deployment_id: self.deployment_id@,
            github_token: self.github_token@,
            git_ref: crate::text::opt_view(self.git_ref),
            phase: self.phase,
            deps_needed: self.deps_needed,
            deps_report: self.deps_report@,
            stages: self.stages@,
        }
    }
}

/// The deployment directory of an attempt.
pub open spec fn dir_of(d: DeployerView) -> Seq<char> {
    deployment_path(d.site.path, d.deployment_id)
}

/// Whether a phase comes after the dependency inspection.
pub open spec fn deps_inspected(p: Phase) -> bool {
    match p {
        Phase::Installing | Phase::Running(_) | Phase::Optimizing | Phase::Migrating | Phase::Publishing
        | Phase::Listing | Phase::Retiring | Phase::Done => true,
        _ => false,
    }
}

/// A deployer's view is well formed: the checkpoints it has emitted are those
/// of its phase, and it installs dependencies only when they are needed.
pub open spec fn is_consistent(d: DeployerView) -> bool {
    &&& d.phase != Phase::Failed ==> d.stages == stages_before(d.phase, d.deps_needed)
    &&& d.phase == Phase::Installing ==> d.deps_needed
    &&& deps_inspected(d.phase) ==> d.deps_needed == (d.deps_report.0 && !d.deps_report.1)
    &&& d.phase matches Phase::Running(i) ==> i < d.site.commands.len()
}

impl Deployer {
    /// The attempt's state is consistent with the checkpoints it has emitted.
    pub open spec fn wf(&self) -> bool {
        is_consistent(self@)
    }

    /// The attempt is over.
    pub open spec fn is_finished(&self) -> bool {
        self@.phase == Phase::Done || self@.phase == Phase::Failed
    }
}

proof fn lemma_stages_of_none()
    ensures
        stages_of(seq![]) == Seq::<Stage>::empty(),
{
}

proof fn lemma_stages_of_one(p: Progress)
    ensures
        stages_of(seq![p]) == match p {
            Progress::Stage(s) => seq![s],
            _ => Seq::<Stage>::empty(),
        },
{
    assert(seq![p].drop_last() =~= Seq::<Progress>::empty());
    assert(seq![p].last() == p);
    assert(stages_of(Seq::<Progress>::empty()) == Seq::<Stage>::empty());
    match p {
        Progress::Stage(s) => {
            assert(Seq::<Stage>::empty().push(s) =~= seq![s]);
        },
        _ => {},
    }
}

/// The command `program args...` in `cwd`, from literal words.
fn literal_command(program: &str, args: &[&str], cwd: &str) -> (r: CommandLine)
    ensures
        r.program@ == program@,
        r.args@.len() == args@.len(),
        forall|k: int| 0 <= k < args@.len() ==> #[trigger] r.args@[k]@ == args@[k]@,
        r.cwd@ == cwd@,
{
    let mut v: Vec<String> = Vec::new();
    let mut i: usize = 0;
    while i < args.len()
        invariant
            i <= args@.len(),
            v@.len() == i,
            forall|k: int| 0 <= k < i ==> #[trigger] v@[k]@ == args@[k]@,
        decreases args@.len() - i,
    {
        v.push(String::from_str(args[i]));
        i = i + 1;
    }
    CommandLine { program: String::from_str(program), args: v, cwd: String::from_str(cwd) }
}

/// The command whose first word is the program and the rest its arguments.
fn command_from_words(words: Vec<String>, cwd: String) -> (r: CommandLine)
    requires
        words@.len() > 0,
    ensures
        is_command(r, words@[0]@, words@.map_values(|w: String| w@).drop_first(), cwd@),
{
    let mut args: Vec<String> = Vec::new();
    let mut i: usize = 1;
    while i < words.len()
        invariant
            1 <= i <= words@.len(),
            args@.len() == i - 1,
            forall|k: int| 0 <= k < i - 1 ==> #[trigger] args@[k]@ == words@[k + 1]@,
        decreases words@.len() - i,
    {
        args.push(words[i].clone());
        i = i + 1;
    }
    let r = CommandLine { program: words[0].clone(), args, cwd };
    assert(r.args@.map_values(|a: String| a@) =~= words@.map_values(|w: String| w@).drop_first());
    r
}

impl Deployer {
    /// An attempt of `site` at `git_ref` (the default branch when absent),
    /// fetching with `github_token`, identified by `deployment_id`.
    pub fn new(site: Site, git_ref: Option<String>, github_token: String, deployment_id: String) -> (r: Deployer)
        ensures
            r.wf(),
            r@.phase == Phase::Start,
            r@.site == site@,
            r@.git_ref == crate::text::opt_view(git_ref),
            r@.github_token == github_token@,
            r@.deployment_id == deployment_id@,
            r@.stages == Seq::<Stage>::empty(),
    {
        Deployer {
            site,
            deployment_id,
            github_token,
            git_ref,
            phase: Phase::Start,
            deps_needed: false,
            deps_report: Ghost((false, false)),
            stages: Ghost(Seq::empty()),
        }
    }

    /// An attempt of `site` with a fresh time-ordered identifier.
    pub fn from_site(site: Site, git_ref: Option<String>, github_token: String) -> (r: Deployer)
        ensures
            r.wf(),
            r@.phase == Phase::Start,
            r@.site == site@,
            r@.git_ref == crate::text::opt_view(git_ref),
            r@.github_token == github_token@,
            r@.deployment_id.len() == 36,
            forall|i: int| 0 <= i < 36 ==> is_uuid_char(#[trigger] r@.deployment_id[i]),
            r@.stages == Seq::<Stage>::empty(),
    {
        let id = fresh_id();
        Deployer::new(site, git_ref, github_token, id)
    }

    /// The directory of this deployment: `<site>/deployments/<id>`.
    pub fn get_path(&self) -> (r: String)
        ensures
            r@ == dir_of(self@),
    {
        deployment_dir(self.site.path.as_str(), self.deployment_id.as_str())
    }

    /// The identifier of this deployment.
    pub fn deployment_id(&self) -> (r: &String)
        ensures
            r@ == self@.deployment_id,
    {
        &self.deployment_id
    }

    /// Starts the attempt: emits `Starting` and asks for the state of the
    /// site's `current` and `storage`.
    pub fn start(&mut self) -> (r: Step)
        requires
            old(self).wf(),
            old(self)@.phase == Phase::Start,
        ensures
            final(self).wf(),
            final(self)@ == (DeployerView { phase: Phase::InspectBootstrap, stages: old(self)@.stages.push(Stage::Starting), ..old(self)@ }),
            r.events@ == seq![Progress::Stage(Stage::Starting)],
            r.action matches Action::Inspect(paths)
                && paths_view(paths@) == seq![current_path(old(self)@.site.path), storage_path(old(self)@.site.path)],
    {
        let root = self.site.path.as_str();
        let mut paths: Vec<String> = Vec::new();
        paths.push(join_path(root, "current"));
        paths.push(join_path(root, "storage"));
        assert(paths_view(paths@) =~= seq![current_path(self@.site.path), storage_path(self@.site.path)]);
        self.phase = Phase::InspectBootstrap;
        self.stages = Ghost(self.stages@.push(Stage::Starting));
        let mut events: Vec<Progress> = Vec::new();
        events.push(Progress::Stage(Stage::Starting));
        Step { events, action: Action::Inspect(paths) }
    }
}

impl Deployer {
    /// Ends the attempt with a failure.
    fn fail(&mut self, e: Error) -> (r: Step)
        ensures
            final(self)@ == (DeployerView { phase: Phase::Failed, ..old(self)@ }),
            r.events@ == Seq::<Progress>::empty(),
            r.action == Action::Finish(Err(e)),
    {
        self.phase = Phase::Failed;
        Step { events: Vec::new(), action: Action::Finish(Err(e)) }
    }

    /// Moves on to configured command `i`, or to the optimize step after the last one.
    fn begin_command(&mut self, i: usize, events: Vec<Progress>) -> (r: Step)
        requires
            i <= old(self)@.site.commands.len(),
            old(self)@.phase != Phase::Running(i),
            old(self)@.phase != Phase::Optimizing,
        ensures
            final(self)@ == (DeployerView { phase: command_phase(old(self)@, i as int), ..old(self)@ }),
            r.events == events,
            command_phase(old(self)@, i as int) != Phase::Failed ==> is_action_for(
                r.action, old(self)@, Outcome::Applied, command_phase(old(self)@, i as int)),
            command_phase(old(self)@, i as int) == Phase::Failed ==> (r.action matches Action::Finish(res)
                && res matches Err(Error::RunCommands(Cause::BadCommand(c))) && c@ == old(self)@.site.commands[i as int]),
    {
        let dir = self.get_path();
        if i < self.site.commands.len() {
            match split_words(self.site.commands[i].as_str()) {
                Some(words) => {
                    if words.len() > 0 {
                        self.phase = Phase::Running(i);
                        return Step { events, action: Action::Run(command_from_words(words, dir)) };
                    }
                },
                None => {},
            }
            let c = self.site.commands[i].clone();
            self.phase = Phase::Failed;
            Step { events, action: Action::Finish(Err(Error::RunCommands(Cause::BadCommand(c)))) }
        } else {
            let c = literal_command("php", &["artisan", "optimize"], dir.as_str());
            assert(c.args@.map_values(|a: String| a@) =~= optimize_args());
            self.phase = Phase::Optimizing;
            Step { events, action: Action::Run(c) }
        }
    }
}

/// One event, as a list.
fn one_event(p: Progress) -> (r: Vec<Progress>)
    ensures
        r@ == seq![p],
{
    let mut v: Vec<Progress> = Vec::new();
    v.push(p);
    assert(v@ =~= seq![p]);
    v
}

impl Deployer {
    /// Takes the outcome of the last action and decides the events to emit and
    /// the next action. Stages run strictly in order; the first failure ends the
    /// attempt with an error tagged by its stage.
    pub fn advance(&mut self, o: Outcome) -> (r: Step)
        requires
            old(self).wf(),
            !old(self).is_finished(),
            old(self)@.phase != Phase::Start,
        ensures
            final(self).wf(),
            final(self)@.phase == next_phase(old(self)@, o),
            final(self)@.site == old(self)@.site,
            final(self)@.deployment_id == old(self)@.deployment_id,
            final(self)@.github_token == old(self)@.github_token,
            final(self)@.git_ref == old(self)@.git_ref,
            final(self)@.deps_needed == if old(self)@.phase == Phase::InspectDeps && inspected_two(o) {
                o matches Outcome::Inspected(v) && v@[0].exists && !v@[1].exists
            } else {
                old(self)@.deps_needed
            },
            final(self)@.deps_report == if old(self)@.phase == Phase::InspectDeps && inspected_two(o) {
                match o {
                    Outcome::Inspected(v) => (v@[0].exists, v@[1].exists),
                    _ => old(self)@.deps_report,
                }
            } else {
                old(self)@.deps_report
            },
            r.events@ == events_of(old(self)@, o),
            final(self)@.stages == old(self)@.stages + stages_of(r.events@),
            is_action_for(r.action, old(self)@, o, final(self)@.phase),
    {
        let ghost d = self@;
        let root = self.site.path.clone();
        let dir = self.get_path();
        proof {
            lemma_stages_of_none();
        }
        match self.phase {
            Phase::InspectBootstrap => match o {
                Outcome::Inspected(v) => {
                    if v.len() != 2 {
                        return self.fail(Error::Bootstrap(Cause::Unexpected));
                    }
                    let ops = bootstrap_ops(root.as_str(), self.deployment_id.as_str(), v[0], v[1].exists);
                    self.phase = Phase::Bootstrapping;
                    Step { events: Vec::new(), action: Action::Apply(ops) }
                },
                Outcome::Failed(m) => self.fail(Error::Bootstrap(Cause::Io(m))),
                _ => self.fail(Error::Bootstrap(Cause::Unexpected)),
            },
            Phase::Bootstrapping => match o {
                Outcome::Applied => {
                    let url = match &self.git_ref {
                        Some(r) => join3("https://api.github.com/repos/", self.site.github_repo.as_str(), "/tarball/").concat(r.as_str()),
                        None => join3("https://api.github.com/repos/", self.site.github_repo.as_str(), "/tarball/"),
                    };
                    let authorization = join2("Bearer ", self.github_token.as_str());
                    self.phase = Phase::Downloading;
                    Step { events: Vec::new(), action: Action::Fetch { url, authorization } }
                },
                Outcome::Failed(m) => self.fail(Error::Bootstrap(Cause::Io(m))),
                _ => self.fail(Error::Bootstrap(Cause::Unexpected)),
            },
            Phase::Downloading => match o {
                Outcome::Fetched { status, body } => {
                    if 200 <= status && status < 300 {
                        self.phase = Phase::Extracting;
                        Step { events: Vec::new(), action: Action::Extract { archive: body, dest: dir } }
                    } else {
                        self.fail(Error::Download(Cause::Status(status)))
                    }
                },
                Outcome::Failed(m) => self.fail(Error::Download(Cause::Io(m))),
                _ => self.fail(Error::Download(Cause::Unexpected)),
            },
            Phase::Extracting => match o {
                Outcome::Applied => {
                    let mut paths: Vec<String> = Vec::new();
                    paths.push(join_path(root.as_str(), ".env"));
                    paths.push(join_path(dir.as_str(), "storage"));
                    assert(paths_view(paths@) =~= seq![env_path(d.site.path), child(dir_of(d), "storage"@)]);
                    self.phase = Phase::InspectConfigure;
                    self.stages = Ghost(self.stages@.push(Stage::Downloaded));
                    assert(self.stages@ =~= stages_before(Phase::InspectConfigure, self.deps_needed));
                    proof {
                        lemma_stages_of_one(Progress::Stage(Stage::Downloaded));
                    }
                    Step { events: one_event(Progress::Stage(Stage::Downloaded)), action: Action::Inspect(paths) }
                },
                Outcome::Failed(m) => self.fail(Error::Extraction(Cause::Io(m))),
                _ => self.fail(Error::Extraction(Cause::Unexpected)),
            },
            Phase::InspectConfigure => match o {
                Outcome::Inspected(v) => {
                    if v.len() != 2 {
                        return self.fail(Error::Configure(Cause::Unexpected));
                    }
                    let ops = configure_ops(root.as_str(), self.deployment_id.as_str(), v[0].exists, v[1].exists);
                    self.phase = Phase::Configuring;
                    Step { events: Vec::new(), action: Action::Apply(ops) }
                },
                Outcome::Failed(m) => self.fail(Error::Configure(Cause::Io(m))),
                _ => self.fail(Error::Configure(Cause::Unexpected)),
            },
            Phase::Configuring => match o {
                Outcome::Applied => {
                    let mut paths: Vec<String> = Vec::new();
                    paths.push(join_path(dir.as_str(), "composer.json"));
                    paths.push(join_path(dir.as_str(), "vendor"));
                    assert(paths_view(paths@) =~= seq![child(dir_of(d), "composer.json"@), child(dir_of(d), "vendor"@)]);
                    self.phase = Phase::InspectDeps;
                    Step { events: Vec::new(), action: Action::Inspect(paths) }
                },
                Outcome::Failed(m) => self.fail(Error::Configure(Cause::Io(m))),
                _ => self.fail(Error::Configure(Cause::Unexpected)),
            },
            Phase::InspectDeps => match o {
                Outcome::Inspected(v) => {
                    if v.len() != 2 {
                        return self.fail(Error::InstallDeps(Cause::Unexpected));
                    }
                    self.deps_needed = v[0].exists && !v[1].exists;
                    self.deps_report = Ghost((v@[0].exists, v@[1].exists));
                    if self.deps_needed {
                        let c = literal_command(
                            "composer",
                            &["install", "--no-dev", "--prefer-dist", "--no-interaction", "--optimize-autoloader"],
                            dir.as_str(),
                        );
                        assert(c.args@.map_values(|a: String| a@) =~= install_args());
                        self.phase = Phase::Installing;
                        Step { events: Vec::new(), action: Action::Run(c) }
                    } else {
                        assert(stages_before(Phase::Optimizing, false) =~= stages_before(Phase::InspectDeps, false));
                        self.begin_command(0, Vec::new())
                    }
                },
                Outcome::Failed(m) => self.fail(Error::InstallDeps(Cause::Io(m))),
                _ => self.fail(Error::InstallDeps(Cause::Unexpected)),
            },
            Phase::Installing => match o {
                Outcome::Output(l) => {
                    proof {
                        lemma_stages_of_one(Progress::Log(l));
                    }
                    Step { events: one_event(Progress::Log(l)), action: Action::Wait }
                },
                Outcome::Exited(code) => {
                    if code == Some(0i32) {
                        self.stages = Ghost(self.stages@.push(Stage::DepsInstalled));
                        assert(self.stages@ =~= stages_before(Phase::Optimizing, true));
                        proof {
                            lemma_stages_of_one(Progress::Stage(Stage::DepsInstalled));
                        }
                        self.begin_command(0, one_event(Progress::Stage(Stage::DepsInstalled)))
                    } else {
                        self.fail(Error::InstallDeps(Cause::Exit(code)))
                    }
                },
                Outcome::Failed(m) => self.fail(Error::InstallDeps(Cause::Io(m))),
                _ => self.fail(Error::InstallDeps(Cause::Unexpected)),
            },
            Phase::Running(i) => match o {
                Outcome::Output(l) => {
                    proof {
                        lemma_stages_of_one(Progress::Log(l));
                    }
                    Step { events: one_event(Progress::Log(l)), action: Action::Wait }
                },
                Outcome::Exited(code) => {
                    if code == Some(0i32) {
                        let n = self.site.commands.len();
                        assert(i < n);
                        self.begin_command(i + 1, Vec::new())
                    } else {
                        self.fail(Error::RunCommands(Cause::Exit(code)))
                    }
                },
                Outcome::Failed(m) => self.fail(Error::RunCommands(Cause::Io(m))),
                _ => self.fail(Error::RunCommands(Cause::Unexpected)),
            },
            Phase::Optimizing => match o {
                Outcome::Output(l) => {
                    proof {
                        lemma_stages_of_one(Progress::Log(l));
                    }
                    Step { events: one_event(Progress::Log(l)), action: Action::Wait }
                },
                Outcome::Exited(code) => {
                    if code == Some(0i32) {
                        let c = literal_command("php", &["artisan", "migrate", "--force"], dir.as_str());
                        assert(c.args@.map_values(|a: String| a@) =~= migrate_args());
                        self.phase = Phase::Migrating;
                        self.stages = Ghost(self.stages@.push(Stage::Optimized));
                        assert(self.stages@ =~= stages_before(Phase::Migrating, self.deps_needed));
                        proof {
                            lemma_stages_of_one(Progress::Stage(Stage::Optimized));
                        }
                        Step { events: one_event(Progress::Stage(Stage::Optimized)), action: Action::Run(c) }
                    } else {
                        self.fail(Error::Optimize(Cause::Exit(code)))
                    }
                },
                Outcome::Failed(m) => self.fail(Error::Optimize(Cause::Io(m))),
                _ => self.fail(Error::Optimize(Cause::Unexpected)),
            },
            Phase::Migrating => match o {
                Outcome::Output(l) => {
                    proof {
                        lemma_stages_of_one(Progress::Log(l));
                    }
                    Step { events: one_event(Progress::Log(l)), action: Action::Wait }
                },
                Outcome::Exited(code) => {
                    if code == Some(0i32) {
                        let ops = publish_ops(root.as_str(), self.deployment_id.as_str());
                        self.phase = Phase::Publishing;
                        self.stages = Ghost(self.stages@.push(Stage::Migrated));
                        assert(self.stages@ =~= stages_before(Phase::Publishing, self.deps_needed));
                        proof {
                            lemma_stages_of_one(Progress::Stage(Stage::Migrated));
                        }
                        Step { events: one_event(Progress::Stage(Stage::Migrated)), action: Action::Apply(ops) }
                    } else {
                        self.fail(Error::Migrate(Cause::Exit(code)))
                    }
                },
                Outcome::Failed(m) => self.fail(Error::Migrate(Cause::Io(m))),
                _ => self.fail(Error::Migrate(Cause::Unexpected)),
            },
            Phase::Publishing => match o {
                Outcome::Applied => {
                    self.phase = Phase::Listing;
                    self.stages = Ghost(self.stages@.push(Stage::Deployed));
                    assert(self.stages@ =~= stages_before(Phase::Listing, self.deps_needed));
                    proof {
                        lemma_stages_of_one(Progress::Stage(Stage::Deployed));
                    }
                    Step {
                        events: one_event(Progress::Stage(Stage::Deployed)),
                        action: Action::List(join_path(root.as_str(), "deployments")),
                    }
                },
                Outcome::Failed(m) => self.fail(Error::Publish(Cause::Io(m))),
                _ => self.fail(Error::Publish(Cause::Unexpected)),
            },
            Phase::Listing => match o {
                Outcome::Listed(es) => {
                    let ops = removal_ops(retired(&es, dir.as_str()));
                    self.phase = Phase::Retiring;
                    Step { events: Vec::new(), action: Action::Apply(ops) }
                },
                Outcome::Failed(m) => self.fail(Error::Cleanup(Cause::Io(m))),
                _ => self.fail(Error::Cleanup(Cause::Unexpected)),
            },
            _ => match o {
                Outcome::Applied => {
                    self.phase = Phase::Done;
                    Step { events: Vec::new(), action: Action::Finish(Ok(())) }
                },
                Outcome::Failed(m) => self.fail(Error::Cleanup(Cause::Io(m))),
                _ => self.fail(Error::Cleanup(Cause::Unexpected)),
            },
        }
    }
}

/// Stage order: an attempt that succeeded has emitted exactly the checkpoints
/// `Starting`, `Downloaded`, then `DepsInstalled` if and only if the inspection
/// reported the dependency manifest present and no installed dependencies,
/// then `Optimized`, `Migrated`, `Deployed`, in that order.
pub proof fn lemma_stage_order(d: &Deployer)
    requires
        d.wf(),
        d@.phase == Phase::Done,
    ensures
        d@.stages == seq![Stage::Starting, Stage::Downloaded]
            + deps_stages(d@.deps_report.0 && !d@.deps_report.1)
            + seq![Stage::Optimized, Stage::Migrated, Stage::Deployed],
{
}

/// A failed download: an attempt waiting for its archive that receives a
/// non-success status has emitted only `Starting`, emits nothing more, and ends
/// with a download failure carrying that status; no later stage runs.
pub proof fn lemma_download_failure(d: &Deployer, o: Outcome, a: Action)
    requires
        d.wf(),
        d@.phase == Phase::Downloading,
        o matches Outcome::Fetched { status, .. } && !(200 <= status < 300),
        is_action_for(a, d@, o, next_phase(d@, o)),
    ensures
        d@.stages == seq![Stage::Starting],
        next_phase(d@, o) == Phase::Failed,
        events_of(d@, o) == Seq::<Progress>::empty(),
        a matches Action::Finish(r) && r matches Err(Error::Download(Cause::Status(s)))
            && o matches Outcome::Fetched { status, .. } && s == status,
{
}

} // verus!
