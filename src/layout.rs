//! The on-disk layout of a site and the filesystem operations that each stage
//! of a deployment performs on it.
//!
//! Under a site root `R`: `R/.env` (optional, shared), `R/storage` (shared),
//! `R/current` (a symlink to the live deployment) and `R/deployments/<id>`.

use vstd::prelude::*;

use crate::text::join3;

verus! {

/// `dir/name`.
pub open spec fn child(dir: Seq<char>, name: Seq<char>) -> Seq<char> {
    dir + "/"@ + name
}

pub open spec fn current_path(root: Seq<char>) -> Seq<char> {
    child(root, "current"@)
}

pub open spec fn storage_path(root: Seq<char>) -> Seq<char> {
    child(root, "storage"@)
}

pub open spec fn env_path(root: Seq<char>) -> Seq<char> {
    child(root, ".env"@)
}

pub open spec fn deployments_path(root: Seq<char>) -> Seq<char> {
    child(root, "deployments"@)
}

pub open spec fn deployment_path(root: Seq<char>, id: Seq<char>) -> Seq<char> {
    child(deployments_path(root), id)
}

/// Where `current` points for deployment `id`: a path relative to the root.
pub open spec fn link_target(id: Seq<char>) -> Seq<char> {
    "deployments/"@ + id
}

/// Where the new `current` link is made before it is renamed into place.
pub open spec fn staging_path(root: Seq<char>, id: Seq<char>) -> Seq<char> {
    child(root, ".current-"@ + id)
}

/// `dir/name`.
pub fn join_path(dir: &str, name: &str) -> (r: String)
    ensures
        r@ == child(dir@, name@),
{
    join3(dir, "/", name)
}

/// The directory of deployment `id` of the site at `root`.
pub fn deployment_dir(root: &str, id: &str) -> (r: String)
    ensures
        r@ == deployment_path(root@, id@),
{
    let d = join_path(root, "deployments");
    join_path(d.as_str(), id)
}

/// A filesystem operation, as a plain value.
#[derive(Debug)]
pub enum FsOp {
    /// Create the directory and all its missing ancestors.
    CreateDirAll(String),
    /// Remove the directory and everything under it.
    RemoveDirAll(String),
    /// Create the symlink `link` that points at `target`.
    Symlink { target: String, link: String },
    /// Rename `from` to `to`, replacing what `to` names.
    Rename { from: String, to: String },
}

/// What a filesystem operation does, over plain sequences.
pub enum Op {
    CreateDirAll(Seq<char>),
    RemoveDirAll(Seq<char>),
    Symlink { target: Seq<char>, link: Seq<char> },
    Rename { from: Seq<char>, to: Seq<char> },
}

impl View for FsOp {
    type V = Op;

    open spec fn view(&self) -> Op {
        match self {
            FsOp::CreateDirAll(p) => Op::CreateDirAll(p@),
            FsOp::RemoveDirAll(p) => Op::RemoveDirAll(p@),
            FsOp::Symlink { target, link } => Op::Symlink { target: target@, link: link@ },
            FsOp::Rename { from, to } => Op::Rename { from: from@, to: to@ },
        }
    }
}

/// The operations of a list, as plain values.
pub open spec fn ops_view(v: Seq<FsOp>) -> Seq<Op> {
    v.map_values(|o: FsOp| o@)
}

/// What is known of a path before a stage decides what to do.
#[derive(Clone, Copy, Debug, PartialEq, Eq, Structural)]
pub struct PathState {
    pub exists: bool,
    pub is_symlink: bool,
}

/// The shared storage skeleton of a site.
pub open spec fn storage_skeleton(root: Seq<char>) -> Seq<Op> {
    seq![
        Op::CreateDirAll(child(storage_path(root), "logs"@)),
        Op::CreateDirAll(child(storage_path(root), "app/public"@)),
        Op::CreateDirAll(child(storage_path(root), "framework/cache"@)),
        Op::CreateDirAll(child(storage_path(root), "framework/views"@)),
        Op::CreateDirAll(child(storage_path(root), "framework/sessions"@)),
    ]
}

/// Bootstrap: create the deployment directory; remove a `current` that is not
/// a symlink; provision the storage skeleton if the site has no storage yet.
pub open spec fn bootstrap_plan(root: Seq<char>, id: Seq<char>, current: PathState, storage_exists: bool) -> Seq<Op> {
    seq![Op::CreateDirAll(deployment_path(root, id))]
        + (if current.exists && !current.is_symlink { seq![Op::RemoveDirAll(current_path(root))] } else { seq![] })
        + (if !storage_exists { storage_skeleton(root) } else { seq![] })
}

/// Configure: link the shared `.env` if there is one; replace the deployment's
/// own `storage` by a link to the shared one.
pub open spec fn configure_plan(root: Seq<char>, id: Seq<char>, env_exists: bool, own_storage_exists: bool) -> Seq<Op> {
    let dep = deployment_path(root, id);
    (if env_exists { seq![Op::Symlink { target: env_path(root), link: child(dep, ".env"@) }] } else { seq![] })
        + (if own_storage_exists { seq![Op::RemoveDirAll(child(dep, "storage"@))] } else { seq![] })
        + seq![Op::Symlink { target: storage_path(root), link: child(dep, "storage"@) }]
}

/// Publish: make the new link beside `current`, then rename it over `current`.
pub open spec fn publish_plan(root: Seq<char>, id: Seq<char>) -> Seq<Op> {
    seq![
        Op::Symlink { target: link_target(id), link: staging_path(root, id) },
        Op::Rename { from: staging_path(root, id), to: current_path(root) },
    ]
}

fn create(root: &str, name: &str) -> (r: FsOp)
    ensures
        r@ == Op::CreateDirAll(child(root@, name@)),
{
    FsOp::CreateDirAll(join_path(root, name))
}

/// The operations of the bootstrap stage.
pub fn bootstrap_ops(root: &str, id: &str, current: PathState, storage_exists: bool) -> (r: Vec<FsOp>)
    ensures
        ops_view(r@) == bootstrap_plan(root@, id@, current, storage_exists),
{
    let mut r: Vec<FsOp> = Vec::new();
    r.push(FsOp::CreateDirAll(deployment_dir(root, id)));
    if current.exists && !current.is_symlink {
        r.push(FsOp::RemoveDirAll(join_path(root, "current")));
    }
    if !storage_exists {
        let storage = join_path(root, "storage");
        r.push(create(storage.as_str(), "logs"));
        r.push(create(storage.as_str(), "app/public"));
        r.push(create(storage.as_str(), "framework/cache"));
        r.push(create(storage.as_str(), "framework/views"));
        r.push(create(storage.as_str(), "framework/sessions"));
    }
    assert(ops_view(r@) =~= bootstrap_plan(root@, id@, current, storage_exists));
    r
}

/// The operations of the configure stage.
pub fn configure_ops(root: &str, id: &str, env_exists: bool, own_storage_exists: bool) -> (r: Vec<FsOp>)
    ensures
        ops_view(r@) == configure_plan(root@, id@, env_exists, own_storage_exists),
{
    let dep = deployment_dir(root, id);
    let mut r: Vec<FsOp> = Vec::new();
    if env_exists {
        r.push(FsOp::Symlink { target: join_path(root, ".env"), link: join_path(dep.as_str(), ".env") });
    }
    if own_storage_exists {
        r.push(FsOp::RemoveDirAll(join_path(dep.as_str(), "storage")));
    }
    r.push(FsOp::Symlink { target: join_path(root, "storage"), link: join_path(dep.as_str(), "storage") });
    assert(ops_view(r@) =~= configure_plan(root@, id@, env_exists, own_storage_exists));
    r
}

/// The operations of the publish stage.
pub fn publish_ops(root: &str, id: &str) -> (r: Vec<FsOp>)
    ensures
        ops_view(r@) == publish_plan(root@, id@),
{
    let staging = join_path(root, String::from_str(".current-").concat(id).as_str());
    let mut r: Vec<FsOp> = Vec::new();
    r.push(FsOp::Symlink { target: String::from_str("deployments/").concat(id), link: staging.clone() });
    r.push(FsOp::Rename { from: staging, to: join_path(root, "current") });
    assert(ops_view(r@) =~= publish_plan(root@, id@));
    r
}

/// The operations that delete the given deployment directories.
pub fn removal_ops(paths: Vec<String>) -> (r: Vec<FsOp>)
    ensures
        r@.len() == paths@.len(),
        forall|k: int| 0 <= k < r@.len() ==> #[trigger] r@[k]@ == Op::RemoveDirAll(paths@[k]@),
{
    let mut r: Vec<FsOp> = Vec::new();
    let mut i: usize = 0;
    while i < paths.len()
        invariant
            i <= paths.len(),
            r@.len() == i,
            forall|k: int| 0 <= k < i ==> #[trigger] r@[k]@ == Op::RemoveDirAll(paths@[k]@),
        decreases paths.len() - i,
    {
        r.push(FsOp::RemoveDirAll(paths[i].clone()));
        i = i + 1;
    }
    r
}

/// A filesystem entry, as far as the laws below need it.
pub enum Node {
    Dir,
    File,
    Link(Seq<char>),
}

/// Whether `p` is `dir` or lies under it.
pub open spec fn is_within(p: Seq<char>, dir: Seq<char>) -> bool {
    p == dir || (p.len() > dir.len() && p.subrange(0, dir.len() + 1int) == dir + "/"@)
}

/// The filesystem, as a map from paths to entries, after an operation; an
/// operation that fails leaves it unchanged.
pub open spec fn apply_op(fs: Map<Seq<char>, Node>, op: Op) -> Map<Seq<char>, Node> {
    match op {
        Op::CreateDirAll(p) => if fs.contains_key(p) { fs } else { fs.insert(p, Node::Dir) },
        Op::RemoveDirAll(p) => fs.restrict(fs.dom().filter(|k: Seq<char>| !is_within(k, p))),
        Op::Symlink { target, link } => if fs.contains_key(link) { fs } else { fs.insert(link, Node::Link(target)) },
        Op::Rename { from, to } => if fs.contains_key(from) { fs.remove(from).insert(to, fs[from]) } else { fs },
    }
}

/// The filesystem after the first `n` operations of `ops`.
pub open spec fn apply_ops(fs: Map<Seq<char>, Node>, ops: Seq<Op>, n: int) -> Map<Seq<char>, Node>
    decreases n,
{
    if n <= 0 || ops.len() == 0 {
        fs
    } else if n > ops.len() {
        apply_ops(fs, ops, ops.len() as int)
    } else {
        apply_op(apply_ops(fs, ops, n - 1), ops[n - 1])
    }
}

/// Publishing is atomic: whatever number of its operations has run, `current`
/// is either what it was or the link to the new deployment, never missing;
/// once all have run it is the new link.
pub proof fn lemma_publish_atomic(fs: Map<Seq<char>, Node>, root: Seq<char>, id: Seq<char>)
    requires
        !fs.contains_key(staging_path(root, id)),
    ensures
        forall|n: int| 0 <= n <= 2 ==> {
            let s = #[trigger] apply_ops(fs, publish_plan(root, id), n);
            s.get(current_path(root)) == fs.get(current_path(root))
                || s.get(current_path(root)) == Some(Node::Link(link_target(id)))
        },
        apply_ops(fs, publish_plan(root, id), 2).get(current_path(root)) == Some(Node::Link(link_target(id))),
{
    let cur = current_path(root);
    let stg = staging_path(root, id);
    assert(cur != stg) by {
        reveal_strlit("/");
        reveal_strlit("current");
        reveal_strlit(".current-");
        assert(cur[root.len() + 1int] == 'c');
        assert(stg[root.len() + 1int] == '.');
    }
    let plan = publish_plan(root, id);
    let s1 = apply_ops(fs, plan, 1);
    assert(apply_ops(fs, plan, 0) == fs);
    assert(s1 == apply_op(fs, plan[0]));
    assert(s1 == fs.insert(stg, Node::Link(link_target(id))));
    assert(s1.get(cur) == fs.get(cur));
    let s2 = apply_ops(fs, plan, 2);
    assert(s2 == apply_op(s1, plan[1]));
    assert(s2 == s1.remove(stg).insert(cur, Node::Link(link_target(id))));
}

} // verus!
