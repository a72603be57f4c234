//! Several builds in one process, sharing the one build lock. The lock is
//! modelled by the one thing that is asked of it: it lets a build take it
//! only while no build holds it.

use crate::config::ArgsView;
use crate::orchestrator::{action, initial, next, BuildEventView, BuildStateView};
use crate::runs::holds_lock;
use vstd::prelude::*;

verus! {

/// The builds of a process and the build that holds the lock, if one does.
pub struct Shared {
    pub holder: Option<int>,
    pub builds: Seq<BuildStateView>,
}

/// One report: which build's driver makes it, and what it reports.
pub struct Report {
    pub who: int,
    pub event: BuildEventView,
}

/// Every build at its beginning, the lock free.
pub open spec fn shared_initial(count: nat) -> Shared {
    Shared { holder: None, builds: Seq::new(count, |i: int| initial()) }
}

/// Whether a report can come about: it is made for one of the builds, and
/// where it tells that a build was granted the lock it asked for, the lock
/// was free.
pub open spec fn lock_permits(sh: Shared, configs: Seq<ArgsView>, r: Report) -> bool {
    &&& 0 <= r.who < sh.builds.len()
    &&& (action(configs[r.who], sh.builds[r.who]) is AcquireLock && r.event is LockAcquired)
        ==> sh.holder is None
}

/// The process after one report: the build that made it takes its step,
/// and the lock changes hands where the report says so.
pub open spec fn shared_next(sh: Shared, configs: Seq<ArgsView>, r: Report) -> Shared {
    let asked = action(configs[r.who], sh.builds[r.who]);
    Shared {
        holder: if asked is AcquireLock && r.event is LockAcquired {
            Some(r.who)
        } else if asked is ReleaseLock && r.event is LockReleased && sh.holder == Some(r.who) {
            None
        } else {
            sh.holder
        },
        builds: sh.builds.update(r.who, next(configs[r.who], sh.builds[r.who], r.event)),
    }
}

/// The process after the reports, taken in order.
pub open spec fn shared_run(configs: Seq<ArgsView>, reports: Seq<Report>) -> Shared
    decreases reports.len(),
{
    if reports.len() == 0 {
        shared_initial(configs.len())
    } else {
        shared_next(shared_run(configs, reports.drop_last()), configs, reports.last())
    }
}

/// Whether each report could come about where it was made.
pub open spec fn permitted(configs: Seq<ArgsView>, reports: Seq<Report>) -> bool
    decreases reports.len(),
{
    reports.len() > 0 ==> permitted(configs, reports.drop_last()) && lock_permits(
        shared_run(configs, reports.drop_last()),
        configs,
        reports.last(),
    )
}

/// Whether the lock's holder is the one build that is between taking the
/// lock and having given it back.
pub open spec fn exclusive(sh: Shared) -> bool {
    forall|i: int|
        0 <= i < sh.builds.len() ==> (holds_lock(#[trigger] sh.builds[i]) <==> sh.holder == Some(i))
}

/// Reports that the lock permits keep the lock with the one build that is
/// running the compiler or about to release.
pub proof fn lemma_lock_stays_exclusive(configs: Seq<ArgsView>, reports: Seq<Report>)
    requires
        permitted(configs, reports),
    ensures
        shared_run(configs, reports).builds.len() == configs.len(),
        exclusive(shared_run(configs, reports)),
    decreases reports.len(),
{
    if reports.len() > 0 {
        lemma_lock_stays_exclusive(configs, reports.drop_last());
        let before = shared_run(configs, reports.drop_last());
        let r = reports.last();
        let after = shared_run(configs, reports);
        assert forall|i: int| 0 <= i < after.builds.len() implies (holds_lock(
            #[trigger] after.builds[i],
        ) <==> after.holder == Some(i)) by {
            assert(holds_lock(before.builds[i]) <==> before.holder == Some(i));
            assert(holds_lock(before.builds[r.who]) <==> before.holder == Some(r.who));
        }
    }
}

/// Builds that share the lock never run the compiler at the same time,
/// whatever their configurations and however their steps interleave: of two
/// different builds at most one is between taking the lock and having given
/// it back, and only such a build asks for the compiler.
pub proof fn lemma_builds_never_overlap(
    configs: Seq<ArgsView>,
    reports: Seq<Report>,
    one: int,
    other: int,
)
    requires
        permitted(configs, reports),
        0 <= one < configs.len(),
        0 <= other < configs.len(),
        one != other,
    ensures
        !(holds_lock(shared_run(configs, reports).builds[one]) && holds_lock(
            shared_run(configs, reports).builds[other],
        )),
        !(action(configs[one], shared_run(configs, reports).builds[one]) is RunToolchain && action(
            configs[other],
            shared_run(configs, reports).builds[other],
        ) is RunToolchain),
{
    lemma_lock_stays_exclusive(configs, reports);
}

} // verus!
