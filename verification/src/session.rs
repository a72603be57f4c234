//! A build in progress: its configuration and the state it has reached,
//! kept together so that nothing but the driver's reports moves the state.
//! What is proved of runs of the build machine holds of every value of
//! [`Build`], since each is the outcome of the run that its history records.

use crate::config::{Args, ArgsView};
use crate::error::BuildError;
use crate::orchestrator::{
    action, BuildAction, BuildEvent, BuildEventView, BuildOutput, BuildState, BuildStateView,
};
use crate::runs::{
    built_and_found, driver_holds_lock, lemma_lock_spans_the_build, lemma_success_is_earned, run,
};
use crate::views::result_view;
use vstd::prelude::*;

verus! {

/// One build, from its start to its outcome.
pub struct Build {
    args: Args,
    state: BuildState,
    events: Ghost<Seq<BuildEventView>>,
}

impl Build {
    /// The state is the one that the recorded reports lead to.
    #[verifier::type_invariant]
    spec fn reached_by_its_history(self) -> bool {
        self.state@ == run(self.args@, self.events@)
    }

    /// The configuration that is built.
    pub closed spec fn config(self) -> ArgsView {
        self.args@
    }

    /// What the driver has reported so far, in order.
    pub closed spec fn history(self) -> Seq<BuildEventView> {
        self.events@
    }

    /// The state that the reports have led to.
    pub open spec fn state(self) -> BuildStateView {
        run(self.config(), self.history())
    }

    /// Begins the build of a configuration.
    pub fn start(args: Args) -> (build: Build)
        ensures
            build.config() == args@,
            build.history() == Seq::<BuildEventView>::empty(),
    {
        Build { args, state: BuildState::start(), events: Ghost(Seq::empty()) }
    }

    /// The configuration that is built.
    pub fn args(&self) -> (args: &Args)
        ensures
            args@ == self.config(),
    {
        &self.args
    }

    /// What the driver is to do now. The compiler is asked for only while
    /// the driver holds the lock.
    pub fn action(&self) -> (todo: BuildAction)
        ensures
            todo@ == action(self.config(), self.state()),
            todo@ is RunToolchain ==> driver_holds_lock(self.config(), self.history()),
    {
        proof {
            use_type_invariant(self);
            lemma_lock_spans_the_build(self.args@, self.events@);
        }
        self.state.action(&self.args)
    }

    /// Takes in what the driver observed.
    pub fn advance(self, event: BuildEvent) -> (build: Build)
        ensures
            build.config() == self.config(),
            build.history() == self.history().push(event@),
    {
        proof {
            use_type_invariant(&self);
        }
        let ghost events = self.events@.push(event@);
        let Build { args, state, events: _ } = self;
        let state = state.advance(&args, event);
        proof {
            assert(events.drop_last() =~= self.events@);
        }
        Build { args, state, events: Ghost(events) }
    }

    /// The build's outcome, once it is finished. By then the driver has
    /// given the lock back, and an artifact is one that the compiler's
    /// success and the search after it have yielded.
    pub fn outcome(self) -> (res: Option<Result<BuildOutput, BuildError>>)
        ensures
            res is Some <==> self.state() is Finished,
            res matches Some(outcome) ==> self.state() == (BuildStateView::Finished {
                outcome: result_view(outcome),
            }),
            res is Some ==> !driver_holds_lock(self.config(), self.history()),
            res matches Some(Ok(output)) ==> built_and_found(
                self.config(),
                self.history(),
                output@.artifact,
            ),
    {
        proof {
            use_type_invariant(&self);
            lemma_lock_spans_the_build(self.args@, self.events@);
            if self.state@ matches BuildStateView::Finished { outcome: Ok(_) } {
                lemma_success_is_earned(self.args@, self.events@);
            }
        }
        self.state.outcome()
    }
}

} // verus!
