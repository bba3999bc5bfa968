//! Decisions of the page cache and of the download coordinator, and the
//! laws they keep over the files they manage.
//!
//! The program performs each decision: it probes the files, asks what to
//! do, and carries out the file operations in the order given here.
use vstd::prelude::*;

verus! {

/// How a result page is obtained.
#[derive(Clone, Copy, Debug, PartialEq, Eq, Structural)]
pub enum PagePlan {
    /// The page's cache file exists: read it, with no network call.
    ReadCache,
    /// Query the remote once and store the result before using it.
    Query,
}

pub open spec fn page_plan_spec(cached: bool) -> PagePlan {
    if cached { PagePlan::ReadCache } else { PagePlan::Query }
}

pub fn page_plan(cached: bool) -> (r: PagePlan)
    ensures
        r == page_plan_spec(cached),
{
    if cached { PagePlan::ReadCache } else { PagePlan::Query }
}

/// How an image is obtained, given what is on disk for its post.
#[derive(Clone, Copy, Debug, PartialEq, Eq, Structural)]
pub enum DownloadPlan {
    /// The artifact exists: use it.
    UseArtifact,
    /// Another process is downloading it: poll until its marker goes, then
    /// probe again.
    WaitForLock,
    /// Take the lock marker and fetch.
    Fetch,
}

pub open spec fn download_plan_spec(artifact: bool, lock: bool) -> DownloadPlan {
    if artifact {
        DownloadPlan::UseArtifact
    } else if lock {
        DownloadPlan::WaitForLock
    } else {
        DownloadPlan::Fetch
    }
}

pub fn download_plan(artifact_exists: bool, lock_exists: bool) -> (r: DownloadPlan)
    ensures
        r == download_plan_spec(artifact_exists, lock_exists),
{
    if artifact_exists {
        DownloadPlan::UseArtifact
    } else if lock_exists {
        DownloadPlan::WaitForLock
    } else {
        DownloadPlan::Fetch
    }
}

/// A prefetch never waits: it fetches only where neither the artifact nor a
/// lock marker is there.
pub open spec fn prefetch_fetch_spec(artifact: bool, lock: bool) -> bool {
    download_plan_spec(artifact, lock) == DownloadPlan::Fetch
}

pub fn prefetch_needed(artifact_exists: bool, lock_exists: bool) -> (r: bool)
    ensures
        r == prefetch_fetch_spec(artifact_exists, lock_exists),
        r == (!artifact_exists && !lock_exists),
{
    let plan = download_plan(artifact_exists, lock_exists);
    match plan {
        DownloadPlan::Fetch => true,
        _ => false,
    }
}

/// A file operation on one post's slot in the image directory.
#[derive(Clone, Copy, Debug, PartialEq, Eq, Structural)]
pub enum FileOp {
    /// Create the lock marker, failing if it exists.
    CreateLock,
    /// Put the fetched body at the artifact path whole (written aside, then
    /// renamed into place).
    WriteArtifact,
    /// Remove the lock marker.
    RemoveLock,
}

/// What is done after the fetch attempt, whatever its outcome: the body is
/// stored only if it was fetched, and the marker always goes.
pub open spec fn release_ops_spec(fetched: bool) -> Seq<FileOp> {
    if fetched {
        seq![FileOp::WriteArtifact, FileOp::RemoveLock]
    } else {
        seq![FileOp::RemoveLock]
    }
}

pub fn release_ops(fetched: bool) -> (r: Vec<FileOp>)
    ensures
        r@ == release_ops_spec(fetched),
{
    let mut ops: Vec<FileOp> = Vec::new();
    if fetched {
        ops.push(FileOp::WriteArtifact);
    }
    ops.push(FileOp::RemoveLock);
    proof {
        assert(ops@ =~= release_ops_spec(fetched));
    }
    ops
}

/// What is on disk for one post: its artifact and its lock marker.
pub struct Slot {
    pub artifact: bool,
    pub lock: bool,
}

pub open spec fn apply_op(s: Slot, op: FileOp) -> Slot {
    match op {
        FileOp::CreateLock => Slot { lock: true, ..s },
        FileOp::WriteArtifact => Slot { artifact: true, ..s },
        FileOp::RemoveLock => Slot { lock: false, ..s },
    }
}

pub open spec fn apply_ops(s: Slot, ops: Seq<FileOp>) -> Slot
    decreases ops.len(),
{
    if ops.len() == 0 {
        s
    } else {
        apply_ops(apply_op(s, ops[0]), ops.drop_first())
    }
}

/// One download-ensure on a slot that no other process touches meanwhile,
/// where a fetch would succeed or not as `fetch_ok` says: the slot after it,
/// and the number of fetches it made.
pub open spec fn ensure_run(s: Slot, fetch_ok: bool) -> (Slot, nat) {
    match download_plan_spec(s.artifact, s.lock) {
        DownloadPlan::Fetch => (
            apply_ops(s, seq![FileOp::CreateLock] + release_ops_spec(fetch_ok)),
            1,
        ),
        _ => (s, 0),
    }
}

proof fn lemma_release_run(s: Slot, fetch_ok: bool)
    ensures
        apply_ops(s, seq![FileOp::CreateLock] + release_ops_spec(fetch_ok)) == (Slot {
            artifact: s.artifact || fetch_ok,
            lock: false,
        }),
{
    let ops = seq![FileOp::CreateLock] + release_ops_spec(fetch_ok);
    reveal_with_fuel(apply_ops, 4);
    if fetch_ok {
        assert(ops =~= seq![FileOp::CreateLock, FileOp::WriteArtifact, FileOp::RemoveLock]);
        assert(ops.drop_first() =~= seq![FileOp::WriteArtifact, FileOp::RemoveLock]);
        assert(ops.drop_first().drop_first() =~= seq![FileOp::RemoveLock]);
        assert(ops.drop_first().drop_first().drop_first() =~= Seq::<FileOp>::empty());
    } else {
        assert(ops =~= seq![FileOp::CreateLock, FileOp::RemoveLock]);
        assert(ops.drop_first() =~= seq![FileOp::RemoveLock]);
        assert(ops.drop_first().drop_first() =~= Seq::<FileOp>::empty());
    }
}

/// Ensuring the same post twice fetches at most once: exactly once where
/// its image was missing, and the second call finds the artifact and leaves
/// everything as the first left it.
pub proof fn lemma_ensure_twice_fetches_once(s: Slot, second_ok: bool)
    requires
        !s.lock,
    ensures
        ({
            let (s1, n1) = ensure_run(s, true);
            let (s2, n2) = ensure_run(s1, second_ok);
            &&& n1 + n2 == (if s.artifact { 0nat } else { 1nat })
            &&& n2 == 0
            &&& s2 == s1
            &&& s1.artifact
        }),
{
    lemma_release_run(s, true);
}

/// After a successful download-ensure the artifact is there and no lock
/// marker is left.
pub proof fn lemma_no_lock_after_success(s: Slot)
    requires
        !s.lock,
    ensures
        !ensure_run(s, true).0.lock,
        ensure_run(s, true).0.artifact,
{
    lemma_release_run(s, true);
}

/// After a failed fetch no lock marker is left and no artifact stands at the
/// final path.
pub proof fn lemma_no_lock_after_failure(s: Slot)
    requires
        download_plan_spec(s.artifact, s.lock) == DownloadPlan::Fetch,
    ensures
        !ensure_run(s, false).0.lock,
        !ensure_run(s, false).0.artifact,
        ensure_run(s, false).1 == 1,
{
    lemma_release_run(s, false);
}

/// One page resolution against a cache of pages, where a query would return
/// `remote`: the cache after it, the content returned, and the number of
/// queries made.
pub open spec fn resolve_run<T>(cache: Map<nat, T>, page: nat, remote: T) -> (Map<nat, T>, T, nat) {
    match page_plan_spec(cache.contains_key(page)) {
        PagePlan::ReadCache => (cache, cache[page], 0),
        PagePlan::Query => (cache.insert(page, remote), remote, 1),
    }
}

/// Resolving the same page twice returns the same content and queries the
/// remote once at most: exactly once where the page was not cached.
pub proof fn lemma_resolve_twice_queries_once<T>(cache: Map<nat, T>, page: nat, first: T, second: T)
    ensures
        ({
            let (c1, v1, n1) = resolve_run(cache, page, first);
            let (c2, v2, n2) = resolve_run(c1, page, second);
            &&& v2 == v1
            &&& c2 == c1
            &&& n2 == 0
            &&& n1 + n2 == (if cache.contains_key(page) { 0nat } else { 1nat })
        }),
{
}

} // verus!
