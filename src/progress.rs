//! The events a deployment reports while it runs, and the error kinds that
//! travel to a remote caller.

use vstd::prelude::*;

use crate::text::same_text;

verus! {

/// A line of subprocess output: standard output is `Info`, standard error is `Error`.
#[derive(Clone, Debug, PartialEq, Eq)]
pub enum Log {
    Info(String),
    Error(String),
}

/// A checkpoint of a deployment run, in the order in which a successful run reaches them.
#[derive(Clone, Copy, Debug, PartialEq, Eq, Structural)]
pub enum Stage {
    /// The deployment has been started.
    Starting,
    /// The source archive has been downloaded and unpacked.
    Downloaded,
    /// Dependencies have been installed.
    DepsInstalled,
    /// The deployment has been optimized.
    Optimized,
    /// The database has been migrated.
    Migrated,
    /// The deployment is now live.
    Deployed,
}

/// A progress update for a deployment.
#[derive(Clone, Debug, PartialEq, Eq)]
pub enum Progress {
    Log(Log),
    Stage(Stage),
}

impl From<Stage> for Progress {
    fn from(value: Stage) -> (r: Progress)
        ensures
            r == Progress::Stage(value),
    {
        Progress::Stage(value)
    }
}

impl vstd::std_specs::convert::FromSpecImpl<Stage> for Progress {
    open spec fn obeys_from_spec() -> bool {
        true
    }

    open spec fn from_spec(v: Stage) -> Progress {
        Progress::Stage(v)
    }
}

/// The wire name of a stage.
pub open spec fn stage_name(s: Stage) -> Seq<char> {
    match s {
        Stage::Starting => "starting"@,
        Stage::Downloaded => "downloaded"@,
        Stage::DepsInstalled => "deps_installed"@,
        Stage::Optimized => "optimized"@,
        Stage::Migrated => "migrated"@,
        Stage::Deployed => "deployed"@,
    }
}

/// The stage whose wire name is `n`, if any.
pub open spec fn stage_of_name(n: Seq<char>) -> Option<Stage> {
    if n == "starting"@ {
        Some(Stage::Starting)
    } else if n == "downloaded"@ {
        Some(Stage::Downloaded)
    } else if n == "deps_installed"@ {
        Some(Stage::DepsInstalled)
    } else if n == "optimized"@ {
        Some(Stage::Optimized)
    } else if n == "migrated"@ {
        Some(Stage::Migrated)
    } else if n == "deployed"@ {
        Some(Stage::Deployed)
    } else {
        None
    }
}

impl Stage {
    /// The wire name of this stage.
    pub fn name(&self) -> (r: String)
        ensures
            r@ == stage_name(*self),
    {
        match self {
            Stage::Starting => String::from_str("starting"),
            Stage::Downloaded => String::from_str("downloaded"),
            Stage::DepsInstalled => String::from_str("deps_installed"),
            Stage::Optimized => String::from_str("optimized"),
            Stage::Migrated => String::from_str("migrated"),
            Stage::Deployed => String::from_str("deployed"),
        }
    }

    /// The stage whose wire name is `n`, if any.
    pub fn from_name(n: &str) -> (r: Option<Stage>)
        ensures
            r == stage_of_name(n@),
    {
        if same_text(n, "starting") {
            proof { reveal_strlit("starting"); }
            Some(Stage::Starting)
        } else if same_text(n, "downloaded") {
            proof { reveal_strlit("downloaded"); }
            Some(Stage::Downloaded)
        } else if same_text(n, "deps_installed") {
            proof { reveal_strlit("deps_installed"); }
            Some(Stage::DepsInstalled)
        } else if same_text(n, "optimized") {
            proof { reveal_strlit("optimized"); }
            Some(Stage::Optimized)
        } else if same_text(n, "migrated") {
            proof { reveal_strlit("migrated"); }
            Some(Stage::Migrated)
        } else if same_text(n, "deployed") {
            proof { reveal_strlit("deployed"); }
            Some(Stage::Deployed)
        } else {
            None
        }
    }
}

/// A human description of a stage having been reached.
pub open spec fn stage_description(s: Stage) -> Seq<char> {
    match s {
        Stage::Starting => "Starting deployment"@,
        Stage::Downloaded => "Downloaded repository"@,
        Stage::DepsInstalled => "Installed dependencies"@,
        Stage::Optimized => "Optimized deployment"@,
        Stage::Migrated => "Migrated database"@,
        Stage::Deployed => "Deployed site"@,
    }
}

impl Stage {
    /// A human description of this stage having been reached.
    pub fn description(&self) -> (r: String)
        ensures
            r@ == stage_description(*self),
    {
        match self {
            Stage::Starting => String::from_str("Starting deployment"),
            Stage::Downloaded => String::from_str("Downloaded repository"),
            Stage::DepsInstalled => String::from_str("Installed dependencies"),
            Stage::Optimized => String::from_str("Optimized deployment"),
            Stage::Migrated => String::from_str("Migrated database"),
            Stage::Deployed => String::from_str("Deployed site"),
        }
    }
}

/// The kind of a failed deployment, as a remote caller sees it: which stage failed.
#[derive(Clone, Copy, Debug, PartialEq, Eq, Structural)]
pub enum Error {
    /// Failed to bootstrap the project.
    Bootstrap,
    /// Failed to clone the repository.
    Download,
    /// Failed to extract the repository contents.
    Extraction,
    /// Failed to configure the deployment.
    Configure,
    /// Failed to install dependencies.
    InstallDeps,
    /// Failed to run defined commands.
    RunCommands,
    /// Failed to optimize the deployment.
    Optimize,
    /// Failed to migrate the database.
    Migrate,
    /// Failed to cleanup old deployments.
    Cleanup,
    /// Failed to publish the new deployment.
    Publish,
}

/// The wire name of an error kind.
pub open spec fn error_name(e: Error) -> Seq<char> {
    match e {
        Error::Bootstrap => "bootstrap"@,
        Error::Download => "download"@,
        Error::Extraction => "extraction"@,
        Error::Configure => "configure"@,
        Error::InstallDeps => "install_deps"@,
        Error::RunCommands => "run_commands"@,
        Error::Optimize => "optimize"@,
        Error::Migrate => "migrate"@,
        Error::Cleanup => "cleanup"@,
        Error::Publish => "publish"@,
    }
}

/// The human message that goes with an error kind.
pub open spec fn error_message(e: Error) -> Seq<char> {
    match e {
        Error::Bootstrap => "Failed to bootstrap the project."@,
        Error::Download => "Failed to clone the repository."@,
        Error::Extraction => "Failed to extract the repository contents."@,
        Error::Configure => "Failed to configure the deployment."@,
        Error::InstallDeps => "Failed to install dependencies."@,
        Error::RunCommands => "Failed to run defined commands."@,
        Error::Optimize => "Failed to optimize the deployment."@,
        Error::Migrate => "Failed to migrate the database."@,
        Error::Cleanup => "Failed to cleanup old deployments."@,
        Error::Publish => "Failed to publish the new deployment."@,
    }
}

/// The error kind whose wire name is `n`, if any.
pub open spec fn error_of_name(n: Seq<char>) -> Option<Error> {
    if n == "bootstrap"@ {
        Some(Error::Bootstrap)
    } else if n == "download"@ {
        Some(Error::Download)
    } else if n == "extraction"@ {
        Some(Error::Extraction)
    } else if n == "configure"@ {
        Some(Error::Configure)
    } else if n == "install_deps"@ {
        Some(Error::InstallDeps)
    } else if n == "run_commands"@ {
        Some(Error::RunCommands)
    } else if n == "optimize"@ {
        Some(Error::Optimize)
    } else if n == "migrate"@ {
        Some(Error::Migrate)
    } else if n == "cleanup"@ {
        Some(Error::Cleanup)
    } else if n == "publish"@ {
        Some(Error::Publish)
    } else {
        None
    }
}

impl Error {
    /// The wire name of this kind.
    pub fn name(&self) -> (r: String)
        ensures
            r@ == error_name(*self),
    {
        match self {
            Error::Bootstrap => String::from_str("bootstrap"),
            Error::Download => String::from_str("download"),
            Error::Extraction => String::from_str("extraction"),
            Error::Configure => String::from_str("configure"),
            Error::InstallDeps => String::from_str("install_deps"),
            Error::RunCommands => String::from_str("run_commands"),
            Error::Optimize => String::from_str("optimize"),
            Error::Migrate => String::from_str("migrate"),
            Error::Cleanup => String::from_str("cleanup"),
            Error::Publish => String::from_str("publish"),
        }
    }

    /// The human message of this kind.
    pub fn message(&self) -> (r: String)
        ensures
            r@ == error_message(*self),
    {
        match self {
            Error::Bootstrap => String::from_str("Failed to bootstrap the project."),
            Error::Download => String::from_str("Failed to clone the repository."),
            Error::Extraction => String::from_str("Failed to extract the repository contents."),
            Error::Configure => String::from_str("Failed to configure the deployment."),
            Error::InstallDeps => String::from_str("Failed to install dependencies."),
            Error::RunCommands => String::from_str("Failed to run defined commands."),
            Error::Optimize => String::from_str("Failed to optimize the deployment."),
            Error::Migrate => String::from_str("Failed to migrate the database."),
            Error::Cleanup => String::from_str("Failed to cleanup old deployments."),
            Error::Publish => String::from_str("Failed to publish the new deployment."),
        }
    }

    /// The error kind whose wire name is `n`, if any.
    pub fn from_name(n: &str) -> (r: Option<Error>)
        ensures
            r == error_of_name(n@),
    {
        if same_text(n, "bootstrap") {
            proof { reveal_strlit("bootstrap"); }
            Some(Error::Bootstrap)
        } else if same_text(n, "download") {
            proof { reveal_strlit("download"); }
            Some(Error::Download)
        } else if same_text(n, "extraction") {
            proof { reveal_strlit("extraction"); }
            Some(Error::Extraction)
        } else if same_text(n, "configure") {
            proof { reveal_strlit("configure"); }
            Some(Error::Configure)
        } else if same_text(n, "install_deps") {
            proof { reveal_strlit("install_deps"); }
            Some(Error::InstallDeps)
        } else if same_text(n, "run_commands") {
            proof { reveal_strlit("run_commands"); }
            Some(Error::RunCommands)
        } else if same_text(n, "optimize") {
            proof { reveal_strlit("optimize"); }
            Some(Error::Optimize)
        } else if same_text(n, "migrate") {
            proof { reveal_strlit("migrate"); }
            Some(Error::Migrate)
        } else if same_text(n, "cleanup") {
            proof { reveal_strlit("cleanup"); }
            Some(Error::Cleanup)
        } else if same_text(n, "publish") {
            proof { reveal_strlit("publish"); }
            Some(Error::Publish)
        } else {
            None
        }
    }
}

/// What a remote caller receives when a deployment fails: the kind and its message.
#[derive(Clone, Debug, PartialEq, Eq)]
pub struct ErrorResponse {
    pub error: Error,
    pub message: String,
}

impl From<Error> for ErrorResponse {
    fn from(error: Error) -> (r: ErrorResponse)
        ensures
            r.error == error,
            r.message@ == error_message(error),
    {
        ErrorResponse { message: error.message(), error }
    }
}

impl vstd::std_specs::convert::FromSpecImpl<Error> for ErrorResponse {
    // The message is text that a spec function cannot build: `from` states
    // what the response holds in its own `ensures` instead.
    open spec fn obeys_from_spec() -> bool {
        false
    }

    open spec fn from_spec(v: Error) -> ErrorResponse {
        arbitrary()
    }
}

/// Each error kind's wire name reads back as that kind.
pub proof fn lemma_error_name_round_trip(k: Error)
    ensures
        error_of_name(error_name(k)) == Some(k),
{
    reveal_strlit("bootstrap");
    assert("bootstrap"@[0] == 'b');
    reveal_strlit("download");
    assert("download"@[0] == 'd');
    reveal_strlit("extraction");
    assert("extraction"@[0] == 'e');
    reveal_strlit("configure");
    assert("configure"@[0] == 'c');
    reveal_strlit("install_deps");
    assert("install_deps"@[0] == 'i');
    reveal_strlit("run_commands");
    assert("run_commands"@[0] == 'r');
    reveal_strlit("optimize");
    assert("optimize"@[0] == 'o');
    reveal_strlit("migrate");
    assert("migrate"@[0] == 'm');
    reveal_strlit("cleanup");
    assert("cleanup"@[0] == 'c');
    reveal_strlit("publish");
    assert("publish"@[0] == 'p');
    assert("configure"@[1] == 'o');
    assert("cleanup"@[1] == 'l');
}

/// Each stage's wire name reads back as that stage.
pub proof fn lemma_stage_name_round_trip(s: Stage)
    ensures
        stage_of_name(stage_name(s)) == Some(s),
{
    reveal_strlit("starting");
    reveal_strlit("downloaded");
    reveal_strlit("deps_installed");
    reveal_strlit("optimized");
    reveal_strlit("migrated");
    reveal_strlit("deployed");
    assert("downloaded"@[2] == 'w');
    assert("deps_installed"@[2] == 'p');
    assert("deployed"@[2] == 'p');
    assert("deps_installed"@[3] == 's');
    assert("deployed"@[3] == 'l');
    assert("migrated"@[0] == 'm');
    assert("optimized"@[0] == 'o');
    assert("starting"@[0] == 's');
    assert("downloaded"@[0] == 'd');
}

} // verus!
