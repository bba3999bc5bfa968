use konabg::coord::{download_plan, page_plan, prefetch_needed, release_ops, DownloadPlan, FileOp, PagePlan};

/// One post's slot on disk, driven by the library's decisions the way the
/// program drives the real files.
struct Slot {
    artifact: bool,
    lock: bool,
    fetches: u32,
}

impl Slot {
    fn apply(&mut self, op: FileOp) {
        match op {
            FileOp::CreateLock => self.lock = true,
            FileOp::WriteArtifact => self.artifact = true,
            FileOp::RemoveLock => self.lock = false,
        }
    }

    fn ensure(&mut self, fetch_ok: bool) -> bool {
        match download_plan(self.artifact, self.lock) {
            DownloadPlan::UseArtifact => true,
            DownloadPlan::WaitForLock => false,
            DownloadPlan::Fetch => {
                self.apply(FileOp::CreateLock);
                self.fetches += 1;
                for op in release_ops(fetch_ok) {
                    self.apply(op);
                }
                self.artifact
            }
        }
    }
}

#[test]
fn download_plan_checks_artifact_then_lock() {
    assert_eq!(download_plan(true, true), DownloadPlan::UseArtifact);
    assert_eq!(download_plan(true, false), DownloadPlan::UseArtifact);
    assert_eq!(download_plan(false, true), DownloadPlan::WaitForLock);
    assert_eq!(download_plan(false, false), DownloadPlan::Fetch);
}

#[test]
fn prefetch_skips_on_contention() {
    assert!(prefetch_needed(false, false));
    assert!(!prefetch_needed(false, true));
    assert!(!prefetch_needed(true, false));
    assert!(!prefetch_needed(true, true));
}

#[test]
fn release_always_removes_the_lock() {
    assert_eq!(release_ops(true), vec![FileOp::WriteArtifact, FileOp::RemoveLock]);
    assert_eq!(release_ops(false), vec![FileOp::RemoveLock]);
}

#[test]
fn ensuring_twice_fetches_once() {
    let mut s = Slot { artifact: false, lock: false, fetches: 0 };
    assert!(s.ensure(true));
    assert!(s.ensure(true));
    assert_eq!(s.fetches, 1);
    assert!(s.artifact);
    assert!(!s.lock);
}

#[test]
fn failed_fetch_leaves_no_lock_and_no_artifact() {
    let mut s = Slot { artifact: false, lock: false, fetches: 0 };
    assert!(!s.ensure(false));
    assert!(!s.lock);
    assert!(!s.artifact);
    assert!(s.ensure(true));
    assert_eq!(s.fetches, 2);
}

#[test]
fn page_is_queried_only_when_not_cached() {
    assert_eq!(page_plan(false), PagePlan::Query);
    assert_eq!(page_plan(true), PagePlan::ReadCache);
    let mut cached = [true, false];
    let mut queries = 0;
    for _ in 0..2 {
        if page_plan(cached[1]) == PagePlan::Query {
            queries += 1;
            cached[1] = true;
        }
    }
    assert_eq!(queries, 1);
    assert_eq!(page_plan(cached[0]), PagePlan::ReadCache);
}
