//! Cancellation of a call in progress from another task.
use crate::cancellation::state::{call_one, call_two, Raised, Registration};
use std::sync::Arc;
use std::task::Context;
use vstd::prelude::*;

pub use crate::cancellation::state::CancellationState;

pub mod state;

verus! {

// That one call came after another is said by handing on a value that only the
// first one gives.
impl CancellationState {
    /// The task that is polled with `cx` was registered, and a look at the
    /// request flag after that gave `requested`.
    pub closed spec fn was_seen_after_registering(
        &self,
        cx: &Context<'_>,
        requested: bool,
    ) -> bool {
        exists|registration: Registration<'_>|
            {
                &&& call_ensures(CancellationState::register, (self, cx), registration)
                &&& #[trigger] call_ensures(
                    Registration::look_again,
                    (registration,),
                    requested,
                )
            }
    }

    /// The request flag was raised, and the registered task was woken after
    /// that.
    pub closed spec fn was_woken_after_raising(&self) -> bool {
        exists|raised: Raised<'_>|
            {
                &&& call_ensures(CancellationState::raise, (self,), raised)
                &&& #[trigger] call_ensures(Raised::wake, (raised,), ())
            }
    }
}

/// That a look came after the registration, or a wake-up after the flag was
/// raised, is that what the first call gave was used up by the second.
proof fn law_order_is_handed_on(state: &CancellationState, cx: &Context<'_>, requested: bool)
    ensures
        state.was_seen_after_registering(cx, requested) ==> exists|registration: Registration<'_>|
            {
                &&& call_ensures(CancellationState::register, (state, cx), registration)
                &&& #[trigger] call_ensures(Registration::look_again, (registration,), requested)
            },
        state.was_woken_after_raising() ==> exists|raised: Raised<'_>|
            {
                &&& call_ensures(CancellationState::raise, (state,), raised)
                &&& #[trigger] call_ensures(Raised::wake, (raised,), ())
            },
{
}

/// What a poll does after each look, and what it reports: a request that is
/// seen is reported at once, the task is registered after the first look that
/// sees none, and only the second such look ends the poll.
pub proof fn law_poll_decisions(stage: PollStage)
    ensures
        stage.spec_step(true) == PollStep::Ready,
        stage is Check ==> stage.spec_step(false) == PollStep::Register,
        stage is Recheck ==> stage.spec_step(false) == PollStep::Pending,
        PollStep::Ready.spec_report() == Some(CancelPoll::Ready),
        PollStep::Register.spec_report() is None,
        PollStep::Pending.spec_report() == Some(CancelPoll::Pending),
{
}

/// Which look at the request flag a poll of a [`CancelSignal`] takes.
#[derive(Debug, Clone, Copy, PartialEq, Eq)]
pub enum PollStage {
    /// The look before the task is registered.
    Check,
    /// The look after the task has been registered, for a request that came in
    /// between.
    Recheck,
}

/// What a poll does after a look at the request flag.
#[derive(Debug, Clone, Copy, PartialEq, Eq)]
pub enum PollStep {
    /// Report that cancellation has been requested.
    Ready,
    /// Register the task, then look again.
    Register,
    /// Report that there is nothing to report.
    Pending,
}

impl PollStage {
    /// What a poll does after it saw the flag raised (`requested`) or not.
    pub open spec fn spec_step(self, requested: bool) -> PollStep {
        match self {
            PollStage::Check => if requested {
                PollStep::Ready
            } else {
                PollStep::Register
            },
            PollStage::Recheck => if requested {
                PollStep::Ready
            } else {
                PollStep::Pending
            },
        }
    }

    /// What a poll does after it saw the flag raised (`requested`) or not.
    pub fn step(self, requested: bool) -> (step: PollStep)
        ensures
            step == self.spec_step(requested),
    {
        if requested {
            return PollStep::Ready;
        }
        match self {
            PollStage::Check => PollStep::Register,
            PollStage::Recheck => PollStep::Pending,
        }
    }
}

/// What a poll of a [`CancelSignal`] reports.
#[derive(Debug, Clone, Copy, PartialEq, Eq)]
pub enum CancelPoll {
    /// Cancellation has been requested.
    Ready,
    /// Cancellation has not been requested; the task has been registered.
    Pending,
}

impl PollStep {
    /// What the poll reports with this step; nothing while it goes on.
    pub open spec fn spec_report(self) -> Option<CancelPoll> {
        match self {
            PollStep::Ready => Some(CancelPoll::Ready),
            PollStep::Register => None,
            PollStep::Pending => Some(CancelPoll::Pending),
        }
    }

    /// What the poll reports with this step; nothing while it goes on.
    pub fn report(self) -> (report: Option<CancelPoll>)
        ensures
            report == self.spec_report(),
    {
        match self {
            PollStep::Ready => Some(CancelPoll::Ready),
            PollStep::Register => None,
            PollStep::Pending => Some(CancelPoll::Pending),
        }
    }
}

/// Resolves once cancellation has been requested on the shared
/// [`CancellationState`], and registers the current task's waker so that a
/// pending read can be woken the instant [`CancellationToken::cancel`] is
/// called.
#[derive(Debug)]
pub struct CancelSignal(Arc<CancellationState>);

impl CancelSignal {
    /// The shared state that the signal watches.
    pub closed spec fn spec_state(self) -> Arc<CancellationState> {
        self.0
    }

    /// The signal of a shared state.
    pub fn new(state: Arc<CancellationState>) -> (signal: Self)
        ensures
            signal.spec_state() == state,
    {
        CancelSignal(state)
    }

    /// Look whether cancellation has been requested, and register the task if
    /// not.
    ///
    /// A report of a request comes from a look that saw one. A report that
    /// there is none comes from a look after the task had been registered,
    /// which closes the race with a request that comes in between. What follows
    /// from each look is up to [`PollStage::step`] and [`PollStep::report`].
    pub fn poll(&self, cx: &Context<'_>) -> (report: CancelPoll)
        ensures
            match report {
                CancelPoll::Ready => self.spec_state().was_seen(true),
                CancelPoll::Pending => {
                    &&& self.spec_state().was_registered(cx)
                    &&& self.spec_state().was_seen_after_registering(cx, false)
                },
            },
    {
        match PollStage::Check.step(self.0.is_requested()).report() {
            Some(report) => report,
            None => {
                let state: &CancellationState = &self.0;
                let registration: Registration<'_> = call_two(
                    CancellationState::register,
                    state,
                    cx,
                );
                let requested: bool = call_one(Registration::look_again, registration);
                PollStage::Recheck.step(requested).report().unwrap()
            },
        }
    }
}

/// A handle to cancel an in-flight query from another task.
///
/// A clone acts on the same state, so tokens can be shared across tasks
/// freely.
#[derive(Debug)]
pub struct CancellationToken {
    state: Arc<CancellationState>,
}

impl Clone for CancellationToken {
    fn clone(&self) -> (token: Self)
        ensures
            token.spec_state() == self.spec_state(),
    {
        CancellationToken { state: self.state.clone() }
    }
}

impl CancellationToken {
    /// The shared state that the token acts on.
    pub closed spec fn spec_state(self) -> Arc<CancellationState> {
        self.state
    }

    /// A token for a shared state.
    pub fn new(state: Arc<CancellationState>) -> (token: Self)
        ensures
            token.spec_state() == state,
    {
        CancellationToken { state }
    }

    /// Request cancellation of the current operation.
    ///
    /// This is a non-blocking call that raises the request flag and wakes the
    /// task driving the associated stream, in this order, so that the woken
    /// task finds the request.
    pub fn cancel(&self)
        ensures
            self.spec_state().was_set(true),
            self.spec_state().was_woken(),
            self.spec_state().was_woken_after_raising(),
    {
        let state: &CancellationState = &self.state;
        let raised: Raised<'_> = call_one(CancellationState::raise, state);
        call_one(Raised::wake, raised);
    }

    /// Whether cancellation has been requested.
    pub fn is_cancelled(&self) -> (cancelled: bool)
        ensures
            self.spec_state().was_seen(cancelled),
    {
        self.state.is_requested()
    }
}

/// Where a poll stands.
pub enum PollProgress {
    /// It is about to take a look at the request flag.
    Looking(PollStage),
    /// It is about to register the task.
    Registering,
    /// It has reported.
    Reported(CancelPoll),
}

/// How far a cancellation has come.
pub enum CancelProgress {
    /// It is about to raise the request flag.
    Raising,
    /// It is about to wake the registered task.
    Waking,
    /// It is through.
    Finished,
}

/// Tasks that act on the same state at the same time: one that polls the
/// signal, again and again, one that cancels, and one that takes requests back.
/// Each move happens as a whole. A poll moves in the order of
/// [`CancellationState::was_seen_after_registering`], and a cancellation in that
/// of [`CancellationState::was_woken_after_raising`].
pub struct Race {
    /// Whether the request flag is raised.
    pub requested: bool,
    /// Whether the polling task is registered.
    pub registered: bool,
    /// Whether the polling task has been woken since its poll began.
    pub woken: bool,
    /// Where the poll stands.
    pub poll: PollProgress,
    /// How far the cancellation has come.
    pub cancel: CancelProgress,
}

/// What happens next in a race.
pub enum Turn {
    /// The poll makes its next move.
    Poll,
    /// The polling task polls again, if its last poll is through.
    PollAgain,
    /// The cancellation makes its next move.
    Cancel,
    /// The cancelling task cancels again, if its last cancellation is through.
    CancelAgain,
    /// The request is taken back.
    Clear,
}

impl Race {
    /// The race after the poll has made its next move.
    pub open spec fn poll_moves(self) -> Race {
        match self.poll {
            PollProgress::Looking(stage) => match stage.spec_step(self.requested).spec_report() {
                Some(report) => Race { poll: PollProgress::Reported(report), ..self },
                None => Race { poll: PollProgress::Registering, ..self },
            },
            PollProgress::Registering => Race {
                registered: true,
                poll: PollProgress::Looking(PollStage::Recheck),
                ..self
            },
            PollProgress::Reported(_) => self,
        }
    }

    /// The race after the cancellation has made its next move. To wake the
    /// registered task also ends its registration.
    pub open spec fn cancel_moves(self) -> Race {
        match self.cancel {
            CancelProgress::Raising => Race {
                requested: true,
                cancel: CancelProgress::Waking,
                ..self
            },
            CancelProgress::Waking => Race {
                registered: false,
                woken: self.woken || self.registered,
                cancel: CancelProgress::Finished,
                ..self
            },
            CancelProgress::Finished => self,
        }
    }

    /// The race after one move.
    pub open spec fn after(self, turn: Turn) -> Race {
        match turn {
            Turn::Poll => self.poll_moves(),
            Turn::PollAgain => match self.poll {
                PollProgress::Reported(_) => Race {
                    woken: false,
                    poll: PollProgress::Looking(PollStage::Check),
                    ..self
                },
                _ => self,
            },
            Turn::Cancel => self.cancel_moves(),
            Turn::CancelAgain => match self.cancel {
                CancelProgress::Finished => Race { cancel: CancelProgress::Raising, ..self },
                _ => self,
            },
            Turn::Clear => Race { requested: false, ..self },
        }
    }

    /// The race after moves in the given order.
    pub open spec fn run(self, turns: Seq<Turn>) -> Race
        decreases turns.len(),
    {
        if turns.len() == 0 {
            self
        } else {
            self.run(turns.drop_last()).after(turns.last())
        }
    }

    /// What a move sets the request flag to, if it sets it.
    pub open spec fn sets_flag(self, turn: Turn) -> Option<bool> {
        match turn {
            Turn::Cancel => if self.cancel is Raising {
                Some(true)
            } else {
                None
            },
            Turn::Clear => Some(false),
            _ => None,
        }
    }

    /// What holds at every point of a race: a task that was told to wait, or
    /// is about to look for the second time, is registered or woken, and one
    /// that waits and was not woken has no complete cancellation against it.
    spec fn fair(self) -> bool {
        let waits = self.poll == PollProgress::Reported(CancelPoll::Pending);
        &&& waits || self.poll == PollProgress::Looking(PollStage::Recheck) ==> self.registered
            || self.woken
        &&& waits && !self.woken && self.requested ==> !(self.cancel is Finished)
    }
}

proof fn lemma_race_stays_fair(race: Race, turns: Seq<Turn>)
    requires
        race.fair(),
    ensures
        race.run(turns).fair(),
    decreases turns.len(),
{
    if turns.len() > 0 {
        lemma_race_stays_fair(race, turns.drop_last());
    }
}

/// No wake-up is lost: in whatever order the tasks make their moves, once a
/// cancellation is through and its request stands, a poll that reported that
/// there was nothing to report has been woken since.
pub proof fn law_no_wake_up_is_lost(race: Race, turns: Seq<Turn>)
    requires
        race.poll == PollProgress::Looking(PollStage::Check),
        race.cancel is Raising,
    ensures
        ({
            let end = race.run(turns);
            end.cancel is Finished && end.requested && end.poll == PollProgress::Reported(
                CancelPoll::Pending,
            ) ==> end.woken
        }),
{
    lemma_race_stays_fair(race, turns);
}

/// A report is what a look gave: a request is reported only where a look saw
/// the flag raised, and that there is none only where a look saw it lowered
/// after the task had been registered.
pub proof fn law_reports_come_from_looks(race: Race, turns: Seq<Turn>)
    requires
        race.poll == PollProgress::Looking(PollStage::Check),
    ensures
        race.run(turns).poll == PollProgress::Reported(CancelPoll::Ready) ==> exists|i: int|
            0 <= i < turns.len() && turns[i] is Poll && (#[trigger] race.run(
                turns.take(i),
            )).requested,
        race.run(turns).poll == PollProgress::Reported(CancelPoll::Pending) ==> exists|i: int|
            {
                &&& 0 <= i < turns.len() && turns[i] is Poll
                &&& !(#[trigger] race.run(turns.take(i))).requested
                &&& race.run(turns.take(i)).poll == PollProgress::Looking(PollStage::Recheck)
            },
    decreases turns.len(),
{
    if turns.len() > 0 {
        let last = turns.len() - 1;
        let rest = turns.drop_last();
        law_reports_come_from_looks(race, rest);
        assert(turns.take(last) =~= rest);
        assert forall|i: int| 0 <= i < last implies #[trigger] turns.take(i) == rest.take(i) by {
            assert(turns.take(i) =~= rest.take(i));
        }
        let before = race.run(rest);
        if before.poll == PollProgress::Reported(CancelPoll::Ready) && race.run(turns).poll
            == before.poll {
            let i = choose|i: int|
                0 <= i < rest.len() && rest[i] is Poll && (#[trigger] race.run(
                    rest.take(i),
                )).requested;
            assert(race.run(turns.take(i)).requested && turns[i] is Poll);
        }
        if before.poll == PollProgress::Reported(CancelPoll::Pending) && race.run(turns).poll
            == before.poll {
            let i = choose|i: int|
                {
                    &&& 0 <= i < rest.len() && rest[i] is Poll
                    &&& !(#[trigger] race.run(rest.take(i))).requested
                    &&& race.run(rest.take(i)).poll == PollProgress::Looking(PollStage::Recheck)
                };
            assert(!race.run(turns.take(i)).requested && turns[i] is Poll);
        }
    }
}

/// The request flag holds what was last put there: it is raised if and only if
/// the last of the moves that set it was that of a cancellation. Polls never
/// change it.
pub proof fn law_flag_is_the_last_word(race: Race, turns: Seq<Turn>, at: int, requested: bool)
    requires
        0 <= at < turns.len(),
        race.run(turns.take(at)).sets_flag(turns[at]) == Some(requested),
        forall|i: int|
            at < i < turns.len() ==> (#[trigger] race.run(turns.take(i))).sets_flag(turns[i])
                is None,
    ensures
        race.run(turns).requested == requested,
        requested <==> turns[at] is Cancel,
    decreases turns.len(),
{
    let last = turns.len() - 1;
    let rest = turns.drop_last();
    assert(turns.take(last) =~= rest);
    if at < last {
        assert(turns.take(at) =~= rest.take(at));
        assert forall|i: int| at < i < rest.len() implies (#[trigger] race.run(
            rest.take(i),
        )).sets_flag(rest[i]) is None by {
            assert(turns.take(i) =~= rest.take(i));
        }
        law_flag_is_the_last_word(race, rest, at, requested);
        assert(race.run(turns.take(last)).sets_flag(turns[last]) is None);
    }
}

/// A flag that no move sets stays as it is: in particular, no poll raises or
/// lowers it.
pub proof fn law_flag_changes_only_when_set(race: Race, turns: Seq<Turn>)
    requires
        forall|i: int|
            0 <= i < turns.len() ==> (#[trigger] race.run(turns.take(i))).sets_flag(turns[i])
                is None,
    ensures
        race.run(turns).requested == race.requested,
    decreases turns.len(),
{
    if turns.len() > 0 {
        let last = turns.len() - 1;
        let rest = turns.drop_last();
        assert(turns.take(last) =~= rest);
        assert forall|i: int| 0 <= i < rest.len() implies (#[trigger] race.run(
            rest.take(i),
        )).sets_flag(rest[i]) is None by {
            assert(turns.take(i) =~= rest.take(i));
        }
        law_flag_changes_only_when_set(race, rest);
        assert(race.run(turns.take(last)).sets_flag(turns[last]) is None);
    }
}

/// A request stands until it is taken back: as long as nobody does, every
/// further poll reports it at its first look.
pub proof fn law_request_stands_until_cleared(race: Race, turns: Seq<Turn>)
    requires
        race.requested,
        race.poll == PollProgress::Reported(CancelPoll::Ready) || race.poll
            == PollProgress::Looking(PollStage::Check),
        forall|i: int| 0 <= i < turns.len() ==> !(#[trigger] turns[i] is Clear),
    ensures
        race.run(turns).requested,
        race.run(turns).poll == PollProgress::Reported(CancelPoll::Ready) || race.run(turns).poll
            == PollProgress::Looking(PollStage::Check),
        race.run(turns).after(Turn::Poll).poll == PollProgress::Reported(CancelPoll::Ready),
    decreases turns.len(),
{
    if turns.len() > 0 {
        let rest = turns.drop_last();
        assert forall|i: int| 0 <= i < rest.len() implies !(#[trigger] rest[i] is Clear) by {
            assert(rest[i] == turns[i]);
        }
        assert(!(turns[turns.len() - 1] is Clear));
        law_request_stands_until_cleared(race, rest);
    }
}

/// The flag is raised before anyone is woken: as long as nobody takes the
/// request back, a task that has been woken finds it.
pub proof fn law_flag_is_raised_before_waking(race: Race, turns: Seq<Turn>)
    requires
        race.cancel is Raising,
        !race.woken,
        forall|i: int| 0 <= i < turns.len() ==> !(#[trigger] turns[i] is Clear),
    ensures
        race.run(turns).woken ==> race.run(turns).requested,
        !(race.run(turns).cancel is Raising) ==> race.run(turns).requested,
    decreases turns.len(),
{
    if turns.len() > 0 {
        let rest = turns.drop_last();
        assert forall|i: int| 0 <= i < rest.len() implies !(#[trigger] rest[i] is Clear) by {
            assert(rest[i] == turns[i]);
        }
        assert(!(turns[turns.len() - 1] is Clear));
        law_flag_is_raised_before_waking(race, rest);
    }
}

} // verus!
