//! Whole runs of the build machine: what holds of every sequence of events
//! that a driver may report, and of several builds that share one lock.

use crate::config::ArgsView;
use crate::error::{BuildErrorView, ErrorKind};
use crate::artifact::resolved;
use crate::layout::{artifact_pattern, output_root};
use crate::orchestrator::{
    action, initial, next, workspace_marker, BuildActionView, BuildEventView, BuildStateView,
};
use crate::text::occurs_in;
use vstd::prelude::*;

verus! {

/// The state reached from `s` after the events, taken in order.
pub open spec fn run_from(
    args: ArgsView,
    s: BuildStateView,
    events: Seq<BuildEventView>,
) -> BuildStateView
    decreases events.len(),
{
    if events.len() == 0 {
        s
    } else {
        next(args, run_from(args, s, events.drop_last()), events.last())
    }
}

/// The state of a build after the events, taken in order.
pub open spec fn run(args: ArgsView, events: Seq<BuildEventView>) -> BuildStateView {
    run_from(args, initial(), events)
}

/// The state of a build after the first `n` of the events.
pub open spec fn state_after(args: ArgsView, events: Seq<BuildEventView>, n: int) -> BuildStateView {
    run(args, events.take(n))
}

/// What the driver is asked to do after the first `n` of the events.
pub open spec fn asked_after(
    args: ArgsView,
    events: Seq<BuildEventView>,
    n: int,
) -> BuildActionView {
    action(args, state_after(args, events, n))
}

/// Whether a state is one in which the build holds the lock.
pub open spec fn holds_lock(s: BuildStateView) -> bool {
    s is Building || s is Releasing
}

/// Whether an event is an answer to an action.
pub open spec fn answers(asked: BuildActionView, e: BuildEventView) -> bool {
    match asked {
        BuildActionView::CheckDescriptor { .. } => e is DescriptorChecked,
        BuildActionView::ReadDescriptor { .. } => e is DescriptorRead || e is DescriptorUnreadable,
        BuildActionView::AcquireLock => e is LockAcquired || e is LockPoisoned,
        BuildActionView::ResetLock => e is LockReset,
        BuildActionView::RunToolchain { .. } => e is ToolchainExited || e is ToolchainNotStarted,
        BuildActionView::ReleaseLock => e is LockReleased,
        BuildActionView::MatchArtifacts { .. } => e is ArtifactsMatched,
        BuildActionView::MatchSources { .. } => e is SourcesMatched || e is SourcesUnlisted,
        BuildActionView::Stop => false,
    }
}

/// How far a build has come. The two states of taking the lock share a
/// stage: a poisoned lock sends the build from one to the other and back.
pub open spec fn stage(s: BuildStateView) -> nat {
    match s {
        BuildStateView::CheckingDescriptor => 0,
        BuildStateView::ReadingDescriptor => 1,
        BuildStateView::AcquiringLock => 2,
        BuildStateView::ResettingLock => 2,
        BuildStateView::Building => 3,
        BuildStateView::Releasing { .. } => 4,
        BuildStateView::FindingArtifact => 5,
        BuildStateView::ListingSources { .. } => 6,
        BuildStateView::Finished { .. } => 7,
    }
}

/// One more event is one more step.
pub proof fn lemma_state_after_next(args: ArgsView, events: Seq<BuildEventView>, n: int)
    requires
        0 <= n < events.len(),
    ensures
        state_after(args, events, n + 1) == next(args, state_after(args, events, n), events[n]),
{
    assert(events.take(n + 1).drop_last() =~= events.take(n));
}

/// A run of two parts is the run of the second part from where the first
/// one ends.
pub proof fn lemma_run_from_concat(
    args: ArgsView,
    s: BuildStateView,
    first: Seq<BuildEventView>,
    second: Seq<BuildEventView>,
)
    ensures
        run_from(args, s, first + second) == run_from(args, run_from(args, s, first), second),
    decreases second.len(),
{
    if second.len() > 0 {
        lemma_run_from_concat(args, s, first, second.drop_last());
        assert((first + second).drop_last() =~= first + second.drop_last());
    }
}

/// An event that does not answer what was asked changes nothing, and a
/// finished build stays as it is whatever is reported.
pub proof fn lemma_unasked_events_ignored(args: ArgsView, s: BuildStateView, e: BuildEventView)
    ensures
        !answers(action(args, s), e) ==> next(args, s, e) == s,
        s is Finished ==> next(args, s, e) == s,
{
}

/// A build never goes back a stage, and every answer but those around a
/// poisoned lock takes it forward.
pub proof fn lemma_stages_advance(args: ArgsView, s: BuildStateView, e: BuildEventView)
    ensures
        stage(next(args, s, e)) >= stage(s),
        answers(action(args, s), e) && !(s is AcquiringLock && e is LockPoisoned) && !(s
            is ResettingLock) ==> stage(next(args, s, e)) > stage(s),
{
}

/// Stages never fall along a run.
pub proof fn lemma_stage_monotone(args: ArgsView, events: Seq<BuildEventView>, i: int, j: int)
    requires
        0 <= i <= j <= events.len(),
    ensures
        stage(state_after(args, events, i)) <= stage(state_after(args, events, j)),
    decreases j - i,
{
    if i < j {
        lemma_stage_monotone(args, events, i, j - 1);
        lemma_state_after_next(args, events, j - 1);
        lemma_stages_advance(args, state_after(args, events, j - 1), events[j - 1]);
    }
}

/// The compiler is run at most once: after the driver has answered the
/// request to run it, no later state asks for it again.
pub proof fn lemma_single_build(args: ArgsView, events: Seq<BuildEventView>, i: int, j: int)
    requires
        0 <= i < j <= events.len(),
        asked_after(args, events, i) is RunToolchain,
        answers(asked_after(args, events, i), events[i]),
    ensures
        !(asked_after(args, events, j) is RunToolchain),
{
    lemma_state_after_next(args, events, i);
    lemma_stages_advance(args, state_after(args, events, i), events[i]);
    lemma_stage_monotone(args, events, i + 1, j);
}

proof fn lemma_undescribed_stays_unbuilt(args: ArgsView, events: Seq<BuildEventView>)
    requires
        forall|i: int|
            0 <= i < events.len() ==> events[i] != (BuildEventView::DescriptorChecked {
                is_file: true,
            }),
    ensures
        run(args, events) is CheckingDescriptor || (run(args, events) matches BuildStateView::Finished {
            outcome: Err(e),
        } && e == (BuildErrorView::MissingDescriptor { module_dir: args.module_dir })),
    decreases events.len(),
{
    if events.len() > 0 {
        lemma_undescribed_stays_unbuilt(args, events.drop_last());
    }
}

/// As long as the driver has not found a build descriptor, the compiler is
/// not asked for: the build is still waiting for the check or has failed
/// for want of a descriptor.
pub proof fn lemma_no_build_without_descriptor(args: ArgsView, events: Seq<BuildEventView>)
    requires
        forall|i: int|
            0 <= i < events.len() ==> events[i] != (BuildEventView::DescriptorChecked {
                is_file: true,
            }),
    ensures
        forall|n: int|
            0 <= n <= events.len() ==> !(#[trigger] asked_after(args, events, n) is RunToolchain),
        forall|n: int|
            0 <= n <= events.len() ==> #[trigger] state_after(args, events, n) is CheckingDescriptor
                || state_after(args, events, n) == (BuildStateView::Finished {
                outcome: Err(BuildErrorView::MissingDescriptor { module_dir: args.module_dir }),
            }),
{
    assert forall|n: int| 0 <= n <= events.len() implies !(#[trigger] asked_after(args, events, n)
        is RunToolchain) by {
        lemma_undescribed_stays_unbuilt(args, events.take(n));
    }
    assert forall|n: int| 0 <= n <= events.len() implies #[trigger] state_after(args, events, n)
        is CheckingDescriptor || state_after(args, events, n) == (BuildStateView::Finished {
        outcome: Err(BuildErrorView::MissingDescriptor { module_dir: args.module_dir }),
    }) by {
        lemma_undescribed_stays_unbuilt(args, events.take(n));
    }
}

/// A build whose driver reports first that the descriptor is missing has
/// failed from then on, with an error of configuration.
pub proof fn lemma_missing_descriptor_fails(args: ArgsView, events: Seq<BuildEventView>)
    requires
        events.len() > 0,
        events[0] == (BuildEventView::DescriptorChecked { is_file: false }),
    ensures
        run(args, events) == (BuildStateView::Finished {
            outcome: Err(BuildErrorView::MissingDescriptor { module_dir: args.module_dir }),
        }),
        (BuildErrorView::MissingDescriptor { module_dir: args.module_dir }).kind()
            == ErrorKind::Configuration,
    decreases events.len(),
{
    if events.len() > 1 {
        lemma_missing_descriptor_fails(args, events.drop_last());
    } else {
        assert(run_from(args, initial(), events.drop_last()) == initial());
    }
}

/// Whether every descriptor that the driver reports declares a workspace.
pub open spec fn only_workspaces_read(events: Seq<BuildEventView>) -> bool {
    forall|i: int|
        0 <= i < events.len() ==> ((#[trigger] events[i]) matches BuildEventView::DescriptorRead {
            contents,
        } ==> occurs_in(workspace_marker(), contents))
}

proof fn lemma_workspace_stays_unbuilt(args: ArgsView, events: Seq<BuildEventView>)
    requires
        only_workspaces_read(events),
    ensures
        stage(run(args, events)) < 2 || (run(args, events) matches BuildStateView::Finished {
            outcome: Err(e),
        } && e.kind() == ErrorKind::Configuration),
    decreases events.len(),
{
    if events.len() > 0 {
        let front = events.drop_last();
        assert forall|i: int| 0 <= i < front.len() implies ((#[trigger] front[i])
            matches BuildEventView::DescriptorRead { contents } ==> occurs_in(
            workspace_marker(),
            contents,
        )) by {}
        lemma_workspace_stays_unbuilt(args, front);
    }
}

/// As long as every build descriptor that the driver has read declares a
/// workspace, the lock is not asked for and the compiler is not run: the
/// build is still validating or has failed with an error of configuration.
pub proof fn lemma_no_build_of_workspace(args: ArgsView, events: Seq<BuildEventView>)
    requires
        only_workspaces_read(events),
    ensures
        forall|n: int|
            0 <= n <= events.len() ==> !(#[trigger] asked_after(args, events, n) is RunToolchain)
                && !(asked_after(args, events, n) is AcquireLock),
{
    assert forall|n: int| 0 <= n <= events.len() implies !(#[trigger] asked_after(args, events, n)
        is RunToolchain) && !(asked_after(args, events, n) is AcquireLock) by {
        let prefix = events.take(n);
        assert forall|i: int| 0 <= i < prefix.len() implies ((#[trigger] prefix[i])
            matches BuildEventView::DescriptorRead { contents } ==> occurs_in(
            workspace_marker(),
            contents,
        )) by {}
        lemma_workspace_stays_unbuilt(args, prefix);
    }
}

/// A build whose descriptor is found and declares a workspace has failed
/// from the moment it is read, before anything else is asked for.
pub proof fn lemma_workspace_fails(args: ArgsView, events: Seq<BuildEventView>)
    requires
        events.len() >= 2,
        events[0] == (BuildEventView::DescriptorChecked { is_file: true }),
        (events[1] matches BuildEventView::DescriptorRead { contents } && occurs_in(
            workspace_marker(),
            contents,
        )),
    ensures
        run(args, events) == (BuildStateView::Finished { outcome: Err(BuildErrorView::Workspace) }),
        asked_after(args, events, 0) is CheckDescriptor,
        asked_after(args, events, 1) is ReadDescriptor,
    decreases events.len(),
{
    lemma_state_after_next(args, events, 0);
    if events.len() > 2 {
        lemma_workspace_fails(args, events.drop_last());
    } else {
        lemma_state_after_next(args, events, 1);
    }
}

/// `rounds` times over: the lock is found poisoned, then reset.
pub open spec fn poisoned_rounds(rounds: nat) -> Seq<BuildEventView>
    decreases rounds,
{
    if rounds == 0 {
        Seq::empty()
    } else {
        poisoned_rounds((rounds - 1) as nat).push(BuildEventView::LockPoisoned).push(
            BuildEventView::LockReset,
        )
    }
}

/// From the state of waiting for the lock: any number of rounds of poison
/// and reset lead back to it, one more report of poison to the reset, and
/// the lock's grant to the build.
pub proof fn lemma_poisoned_rounds(args: ArgsView, rounds: nat)
    ensures
        run_from(args, BuildStateView::AcquiringLock, poisoned_rounds(rounds))
            == BuildStateView::AcquiringLock,
        run_from(
            args,
            BuildStateView::AcquiringLock,
            poisoned_rounds(rounds).push(BuildEventView::LockPoisoned),
        ) == BuildStateView::ResettingLock,
        run_from(
            args,
            BuildStateView::AcquiringLock,
            poisoned_rounds(rounds).push(BuildEventView::LockAcquired),
        ) == BuildStateView::Building,
    decreases rounds,
{
    let start = BuildStateView::AcquiringLock;
    if rounds > 0 {
        lemma_poisoned_rounds(args, (rounds - 1) as nat);
        let before = poisoned_rounds((rounds - 1) as nat);
        let half = before.push(BuildEventView::LockPoisoned);
        assert(poisoned_rounds(rounds).drop_last() =~= half);
    }
    let all = poisoned_rounds(rounds);
    assert(all.push(BuildEventView::LockPoisoned).drop_last() =~= all);
    assert(all.push(BuildEventView::LockAcquired).drop_last() =~= all);
}

/// A poisoned lock does not fail the build, however often it is found
/// poisoned: a build that is waiting for the lock asks for a reset each
/// time and tries again, and once the lock is granted it goes on to run the
/// compiler.
pub proof fn lemma_poisoned_lock_recovers(
    args: ArgsView,
    events: Seq<BuildEventView>,
    rounds: nat,
)
    requires
        run(args, events) is AcquiringLock,
    ensures
        run(args, events + poisoned_rounds(rounds)) is AcquiringLock,
        action(args, run(args, events + poisoned_rounds(rounds).push(BuildEventView::LockPoisoned)))
            is ResetLock,
        action(args, run(args, events + poisoned_rounds(rounds).push(BuildEventView::LockAcquired)))
            is RunToolchain,
{
    lemma_poisoned_rounds(args, rounds);
    lemma_run_from_concat(args, initial(), events, poisoned_rounds(rounds));
    lemma_run_from_concat(
        args,
        initial(),
        events,
        poisoned_rounds(rounds).push(BuildEventView::LockPoisoned),
    );
    lemma_run_from_concat(
        args,
        initial(),
        events,
        poisoned_rounds(rounds).push(BuildEventView::LockAcquired),
    );
}

/// Whether the driver holds the lock after the events: it does from the
/// moment it reports the lock acquired when asked to take it, until it
/// reports the lock released when asked to give it back.
pub open spec fn driver_holds_lock(args: ArgsView, events: Seq<BuildEventView>) -> bool
    decreases events.len(),
{
    if events.len() == 0 {
        false
    } else {
        let asked = action(args, run(args, events.drop_last()));
        if asked is AcquireLock && events.last() is LockAcquired {
            true
        } else if asked is ReleaseLock && events.last() is LockReleased {
            false
        } else {
            driver_holds_lock(args, events.drop_last())
        }
    }
}

/// The driver holds the lock exactly while the build is running the
/// compiler or waiting for the lock's release. So the compiler is asked
/// for only under the lock, and no build finishes with the lock held.
pub proof fn lemma_lock_spans_the_build(args: ArgsView, events: Seq<BuildEventView>)
    ensures
        driver_holds_lock(args, events) == holds_lock(run(args, events)),
        action(args, run(args, events)) is RunToolchain ==> driver_holds_lock(args, events),
        run(args, events) is Finished ==> !driver_holds_lock(args, events),
    decreases events.len(),
{
    if events.len() > 0 {
        lemma_lock_spans_the_build(args, events.drop_last());
    }
}

/// Listing the module's files cannot fail the build: whatever answers the
/// request, the build ends well, with the artifact found before.
pub proof fn lemma_listing_cannot_fail(args: ArgsView, artifact: Seq<char>, e: BuildEventView)
    requires
        answers(action(args, BuildStateView::ListingSources { artifact }), e),
    ensures
        (next(args, BuildStateView::ListingSources { artifact }, e) matches BuildStateView::Finished {
            outcome: Ok(output),
        } && output.artifact == artifact),
{
}

/// Whether the `at`-th event reports the success of the compiler that was
/// asked for.
pub open spec fn built_at(args: ArgsView, events: Seq<BuildEventView>, at: int) -> bool {
    &&& 0 <= at < events.len()
    &&& asked_after(args, events, at) is RunToolchain
    &&& events[at] matches BuildEventView::ToolchainExited { success, .. } && success
}

/// Whether the `at`-th event reports, for the artifact's pattern that was
/// asked for, matches of which `artifact` is the one regular file.
pub open spec fn found_at(
    args: ArgsView,
    events: Seq<BuildEventView>,
    at: int,
    artifact: Seq<char>,
) -> bool {
    &&& 0 <= at < events.len()
    &&& asked_after(args, events, at) is MatchArtifacts
    &&& events[at] matches BuildEventView::ArtifactsMatched { entries } && resolved(
        artifact_pattern(args.module_dir, args.env_vars, args.release),
        output_root(args.module_dir, args.env_vars),
        entries,
    ) == Ok::<Seq<char>, crate::error::BuildErrorView>(artifact)
}

/// Whether the compiler succeeded and `artifact` was found after it.
pub open spec fn built_and_found(
    args: ArgsView,
    events: Seq<BuildEventView>,
    artifact: Seq<char>,
) -> bool {
    exists|b: int, f: int|
        b < f && #[trigger] built_at(args, events, b) && #[trigger] found_at(
            args,
            events,
            f,
            artifact,
        )
}

/// What a state past the compiler's run owes to the events before it.
spec fn earned(args: ArgsView, events: Seq<BuildEventView>) -> bool {
    match run(args, events) {
        BuildStateView::Releasing { failure } => failure is None ==> exists|b: int|
            built_at(args, events, b),
        BuildStateView::FindingArtifact => exists|b: int| built_at(args, events, b),
        BuildStateView::ListingSources { artifact } => built_and_found(args, events, artifact),
        BuildStateView::Finished { outcome } => outcome matches Ok(output) ==> built_and_found(
            args,
            events,
            output.artifact,
        ),
        _ => true,
    }
}

proof fn lemma_earned(args: ArgsView, events: Seq<BuildEventView>)
    ensures
        earned(args, events),
    decreases events.len(),
{
    if events.len() > 0 {
        let front = events.drop_last();
        let last: int = front.len() as int;
        lemma_earned(args, front);
        assert forall|n: int| 0 <= n <= front.len() implies asked_after(args, front, n)
            == asked_after(args, events, n) by {
            assert(front.take(n) =~= events.take(n));
        }
        assert forall|b: int| built_at(args, front, b) implies built_at(args, events, b) by {}
        assert forall|f: int, artifact: Seq<char>|
            found_at(args, front, f, artifact) implies found_at(args, events, f, artifact) by {}
        let before = run(args, front);
        let after = run(args, events);
        match after {
            BuildStateView::Releasing { failure } => {
                if failure is None && before is Building {
                    assert(built_at(args, events, last));
                }
            },
            BuildStateView::ListingSources { artifact } => {
                if before is FindingArtifact {
                    assert(found_at(args, events, last, artifact));
                }
            },
            _ => {},
        }
    }
}

/// A build ends well only with an artifact that was earned: the compiler
/// was run and reported success, and after that the artifact's pattern was
/// matched and the artifact is the one regular file among its matches.
pub proof fn lemma_success_is_earned(args: ArgsView, events: Seq<BuildEventView>)
    requires
        (run(args, events) matches BuildStateView::Finished { outcome: Ok(_) }),
    ensures
        (run(args, events) matches BuildStateView::Finished { outcome: Ok(output) }
            && built_and_found(args, events, output.artifact)),
{
    lemma_earned(args, events);
}

} // verus!
