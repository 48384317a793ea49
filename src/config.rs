//! The sites a server deploys, and the checks their configuration must pass.

use vstd::prelude::*;

use crate::deploy::{is_uuid_char, Deployer, Phase};
use crate::text::{find_char, has_char, opt_view, same_text};

verus! {

/// The slug of a name: lower-case ASCII letters and digits joined by single dashes.
pub uninterp spec fn slug_of(s: Seq<char>) -> Seq<char>;

/// Relies on `slug::slugify`, whose result depends on the characters alone.
#[verifier::external_body]
fn slugify(s: &str) -> (r: String)
    ensures
        r@ == slug_of(s@),
{
    slug::slugify(s)
}

/// A site: its display name, its root directory, its repository as `owner/repo`,
/// and the shell commands run after dependencies are installed.
#[derive(Debug)]
pub struct Site {
    pub name: String,
    pub path: String,
    pub github_repo: String,
    pub commands: Vec<String>,
}

/// What a site holds, as plain sequences.
pub struct SiteView {
    pub name: Seq<char>,
    pub path: Seq<char>,
    pub github_repo: Seq<char>,
    pub commands: Seq<Seq<char>>,
}

impl View for Site {
    type V = SiteView;

    open spec fn view(&self) -> SiteView {
        SiteView {
            name: self.name@,
            path: self.path@,
            github_repo: self.github_repo@,
            commands: self.commands@.map_values(|c: String| c@),
        }
    }
}

/// A copy of a list of strings.
pub fn copy_strings(v: &Vec<String>) -> (r: Vec<String>)
    ensures
        r@.map_values(|c: String| c@) == v@.map_values(|c: String| c@),
{
    let mut r: Vec<String> = Vec::new();
    let mut i: usize = 0;
    while i < v.len()
        invariant
            i <= v.len(),
            r@.len() == i,
            forall|k: int| 0 <= k < i ==> r@[k]@ == v@[k]@,
        decreases v.len() - i,
    {
        r.push(v[i].clone());
        i = i + 1;
    }
    assert(r@.map_values(|c: String| c@) =~= v@.map_values(|c: String| c@));
    r
}

impl Site {
    /// A copy of this site.
    pub fn duplicate(&self) -> (r: Site)
        ensures
            r@ == self@,
    {
        Site {
            name: self.name.clone(),
            path: self.path.clone(),
            github_repo: self.github_repo.clone(),
            commands: copy_strings(&self.commands),
        }
    }
}

/// Whether the site at `i` is the first one whose name has the slug `slug`.
pub open spec fn first_with_slug(sites: Seq<Site>, slug: Seq<char>, i: int) -> bool {
    &&& 0 <= i < sites.len()
    &&& slug_of(sites[i].name@) == slug
    &&& forall|k: int| 0 <= k < i ==> slug_of(#[trigger] sites[k].name@) != slug
}

/// Looks a site up by the slug of its name; the first match wins.
pub fn find_site(sites: &Vec<Site>, slug: &str) -> (r: Option<Site>)
    ensures
        match r {
            Some(s) => exists|i: int| first_with_slug(sites@, slug@, i) && s@ == sites@[i]@,
            None => forall|k: int| 0 <= k < sites@.len() ==> slug_of(#[trigger] sites@[k].name@) != slug@,
        },
{
    let mut i: usize = 0;
    while i < sites.len()
        invariant
            i <= sites.len(),
            forall|k: int| 0 <= k < i ==> slug_of(#[trigger] sites@[k].name@) != slug@,
        decreases sites.len() - i,
    {
        let s = slugify(sites[i].name.as_str());
        if same_text(s.as_str(), slug) {
            assert(first_with_slug(sites@, slug@, i as int));
            return Some(sites[i].duplicate());
        }
        i = i + 1;
    }
    None
}

/// Lookup of sites by slug.
pub trait SiteCollectionExt {
    /// The sites of the collection, in order.
    spec fn sites(&self) -> Seq<Site>;

    /// The first site whose name has the slug `slug`, if any.
    fn find(&self, slug: &str) -> (r: Option<Site>)
        ensures
            match r {
                Some(s) => exists|i: int| first_with_slug(self.sites(), slug@, i) && s@ == self.sites()[i]@,
                None => forall|k: int| 0 <= k < self.sites().len() ==> slug_of(#[trigger] self.sites()[k].name@) != slug@,
            },
    ;
}

impl SiteCollectionExt for Vec<Site> {
    open spec fn sites(&self) -> Seq<Site> {
        self@
    }

    fn find(&self, slug: &str) -> (r: Option<Site>) {
        let r = find_site(self, slug);
        assert(self.sites() == self@);
        r
    }
}

/// Why a configuration was refused.
#[derive(Clone, Debug, PartialEq, Eq)]
pub enum ConfigError {
    /// Only version 1 of the configuration format is known.
    UnsupportedVersion(u64),
    /// No credential for the source host was given.
    MissingToken,
    /// The repository of the named site is not of the form `owner/repo`.
    InvalidRepo(String),
}

/// The server's configuration: its format version, the credential that
/// callers must present, and its sites.
#[derive(Debug)]
pub struct Config {
    pub version: u64,
    pub token: String,
    pub sites: Vec<Site>,
}

/// Whether every site's repository is of the form `owner/repo`.
pub open spec fn repos_valid(sites: Seq<Site>) -> bool {
    forall|k: int| 0 <= k < sites.len() ==> has_char(#[trigger] sites[k].github_repo@, '/')
}

impl Config {
    /// A configuration as read from its file.
    pub fn new(version: u64, token: String, sites: Vec<Site>) -> (r: Config)
        ensures
            r.version == version,
            r.token == token,
            r.sites == sites,
    {
        Config { version, token, sites }
    }

    /// Checks the format version of a configuration as read from its file:
    /// only version 1 is known.
    pub fn check_version(&self) -> (r: Result<(), ConfigError>)
        ensures
            self.version == 1 ==> r is Ok,
            self.version != 1 ==> r == Err::<(), ConfigError>(ConfigError::UnsupportedVersion(self.version)),
    {
        if self.version != 1 {
            Err(ConfigError::UnsupportedVersion(self.version))
        } else {
            Ok(())
        }
    }

    /// Accepts the configuration if a credential is present and every
    /// repository is written `owner/repo`; the first failing check, in that
    /// order, is the error.
    pub fn validate(self, token_present: bool) -> (r: Result<Config, ConfigError>)
        ensures
            !token_present ==> r == Err::<Config, ConfigError>(ConfigError::MissingToken),
            token_present ==> match r {
                Ok(c) => repos_valid(self.sites@) && c == self,
                Err(ConfigError::InvalidRepo(name)) => exists|i: int|
                    0 <= i < self.sites@.len() && !has_char(self.sites@[i].github_repo@, '/')
                        && name@ == self.sites@[i].name@
                        && repos_valid(self.sites@.subrange(0, i)),
                Err(_) => false,
            },
    {
        if !token_present {
            return Err(ConfigError::MissingToken);
        }
        let mut i: usize = 0;
        while i < self.sites.len()
            invariant
                i <= self.sites.len(),
                token_present,
                repos_valid(self.sites@.subrange(0, i as int)),
            decreases self.sites.len() - i,
        {
            if find_char(self.sites[i].github_repo.as_str(), '/').is_none() {
                let name = self.sites[i].name.clone();
                return Err(ConfigError::InvalidRepo(name));
            }
            assert(self.sites@.subrange(0, i + 1) =~= self.sites@.subrange(0, i as int).push(self.sites@[i as int]));
            i = i + 1;
        }
        assert(self.sites@.subrange(0, self.sites@.len() as int) =~= self.sites@);
        Ok(self)
    }
}

impl Site {
    /// Starts a deployment attempt of this site at `git_ref` (the default
    /// branch when absent), fetching with `github_token`.
    pub fn deploy(self, git_ref: Option<String>, github_token: String) -> (r: Deployer)
        ensures
            r.wf(),
            r@.phase == Phase::Start,
            r@.site == self@,
            r@.git_ref == opt_view(git_ref),
            r@.github_token == github_token@,
            r@.deployment_id.len() == 36,
            forall|i: int| 0 <= i < 36 ==> is_uuid_char(#[trigger] r@.deployment_id[i]),
    {
        Deployer::from_site(self, git_ref, github_token)
    }
}

/// The query of a deploy request.
#[derive(Debug)]
pub struct DeployConfig {
    /// The git reference to deploy; the default branch when absent.
    pub git_ref: Option<String>,
}

impl DeployConfig {
    /// The reference to deploy: an empty one means the default branch.
    pub fn reference(self) -> (r: Option<String>)
        ensures
            match self.git_ref {
                Some(g) => if g@.len() == 0 { r is None } else { r == Some(g) },
                None => r is None,
            },
    {
        match self.git_ref {
            Some(g) => if g.as_str().unicode_len() == 0 { None } else { Some(g) },
            None => None,
        }
    }
}

/// The version of the running server.
#[derive(Debug)]
pub struct AppVersion {
    /// Current version of the application.
    pub semver: String,
    /// Commit hash of the current build, if known.
    pub rev: Option<String>,
    /// When the application was compiled.
    pub compile_time: String,
}

/// What the server's root answers.
#[derive(Debug)]
pub struct RootResponse {
    /// Relative URL of the API documentation.
    pub docs_url: String,
    /// Relative URL of the OpenAPI document.
    pub openapi_url: String,
    /// Application version.
    pub version: AppVersion,
}

impl RootResponse {
    /// The root answer for a server of the given version.
    pub fn new(version: AppVersion) -> (r: RootResponse)
        ensures
            r.docs_url@ == "/docs"@,
            r.openapi_url@ == "/openapi.json"@,
            r.version == version,
    {
        RootResponse {
            docs_url: String::from_str("/docs"),
            openapi_url: String::from_str("/openapi.json"),
            version,
        }
    }
}

/// Why a deploy request was turned away.
#[derive(Clone, Copy, Debug, PartialEq, Eq, Structural)]
pub enum Rejection {
    /// The bearer credential does not match the configured one.
    Unauthorized,
    /// No site has the requested slug.
    NotFound,
}

impl Config {
    /// Accepts a deploy request: the credential must match the configured one,
    /// then the slug must name a site, which is returned.
    pub fn accept_request(&self, credential: &str, slug: &str) -> (r: Result<Site, Rejection>)
        ensures
            credential@ != self.token@ ==> r == Err::<Site, Rejection>(Rejection::Unauthorized),
            credential@ == self.token@ ==> match r {
                Ok(s) => exists|i: int| first_with_slug(self.sites@, slug@, i) && s@ == self.sites@[i]@,
                Err(e) => e == Rejection::NotFound
                    && forall|k: int| 0 <= k < self.sites@.len() ==> slug_of(#[trigger] self.sites@[k].name@) != slug@,
            },
    {
        if !same_text(credential, self.token.as_str()) {
            return Err(Rejection::Unauthorized);
        }
        match find_site(&self.sites, slug) {
            Some(s) => Ok(s),
            None => Err(Rejection::NotFound),
        }
    }
}

} // verus!
