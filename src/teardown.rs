use vstd::prelude::*;
use crate::store::TeardownOutcome;

verus! {

/// Phase of the background task that destroys a fixture's database.
#[derive(PartialEq, Eq, Structural, Clone, Copy, Debug)]
pub enum WatcherState {
    /// Waiting for the teardown request.
    Polling,
    /// The destroy call is in flight.
    Destroying,
    /// The destroy call returned and completion was announced.
    Done,
}

/// What the watcher does next.
#[derive(PartialEq, Eq, Structural, Clone, Copy, Debug)]
pub enum WatcherAction {
    /// Sleep one poll interval, then observe the request signal again.
    Sleep,
    /// Reconnect to the store and destroy the database.
    Destroy,
    /// Raise the completion signal and end.
    RaiseComplete,
}

/// Phase of the fixture's owner, whose release blocks until teardown is done.
#[derive(PartialEq, Eq, Structural, Clone, Copy, Debug)]
pub enum OwnerState {
    /// The fixture is in use.
    Live,
    /// Teardown was requested and the owner waits for its completion.
    Waiting,
    /// Teardown completed and the release returned.
    Released,
}

/// What the releasing owner does next.
#[derive(PartialEq, Eq, Structural, Clone, Copy, Debug)]
pub enum OwnerAction {
    /// Raise the teardown request signal.
    RaiseRequested,
    /// Block the thread one poll interval, then observe the completion signal again.
    Sleep,
    /// Return from the release.
    Return,
}

/// The watcher's answer to one observation of the request signal.
pub open spec fn watcher_poll_spec(requested: bool) -> (WatcherState, WatcherAction) {
    if requested {
        (WatcherState::Destroying, WatcherAction::Destroy)
    } else {
        (WatcherState::Polling, WatcherAction::Sleep)
    }
}

/// The owner's answer to one observation of the completion signal.
pub open spec fn owner_poll_spec(complete: bool) -> (OwnerState, OwnerAction) {
    if complete {
        (OwnerState::Released, OwnerAction::Return)
    } else {
        (OwnerState::Waiting, OwnerAction::Sleep)
    }
}

impl WatcherState {
    /// A watcher that has not yet seen a teardown request.
    pub fn new() -> (r: WatcherState)
        ensures
            r == WatcherState::Polling,
    {
        WatcherState::Polling
    }

    /// Decides on one observation of the request signal: destroy once it is
    /// raised, otherwise sleep and look again.
    pub fn poll(&mut self, requested_raised: bool) -> (a: WatcherAction)
        requires
            *old(self) == WatcherState::Polling,
        ensures
            (*final(self), a) == watcher_poll_spec(requested_raised),
    {
        if requested_raised {
            *self = WatcherState::Destroying;
            WatcherAction::Destroy
        } else {
            WatcherAction::Sleep
        }
    }

    /// Decides once the destroy call has returned: whatever its outcome,
    /// completion is announced.
    pub fn destroy_returned(&mut self, outcome: TeardownOutcome) -> (a: WatcherAction)
        requires
            *old(self) == WatcherState::Destroying,
        ensures
            *final(self) == WatcherState::Done,
            a == WatcherAction::RaiseComplete,
    {
        *self = WatcherState::Done;
        WatcherAction::RaiseComplete
    }
}

impl OwnerState {
    /// An owner holding a live fixture.
    pub fn new() -> (r: OwnerState)
        ensures
            r == OwnerState::Live,
    {
        OwnerState::Live
    }

    /// Begins the release: the teardown request is raised at once.
    pub fn release(&mut self) -> (a: OwnerAction)
        requires
            *old(self) == OwnerState::Live,
        ensures
            *final(self) == OwnerState::Waiting,
            a == OwnerAction::RaiseRequested,
    {
        *self = OwnerState::Waiting;
        OwnerAction::RaiseRequested
    }

    /// Decides on one observation of the completion signal: return once it
    /// is raised, otherwise block and look again.
    pub fn poll(&mut self, complete_raised: bool) -> (a: OwnerAction)
        requires
            *old(self) == OwnerState::Waiting,
        ensures
            (*final(self), a) == owner_poll_spec(complete_raised),
    {
        if complete_raised {
            *self = OwnerState::Released;
            OwnerAction::Return
        } else {
            OwnerAction::Sleep
        }
    }
}

/// The two parties of a fixture's teardown and the two signals between them,
/// with a count of the destroy calls made and of those that returned.
pub ghost struct Teardown {
    pub requested: bool,
    pub complete: bool,
    pub watcher: WatcherState,
    pub owner: OwnerState,
    pub destroy_calls: nat,
    pub destroy_returns: nat,
}

/// One move of one party.
#[derive(PartialEq, Eq, Structural, Clone, Copy, Debug)]
pub enum Move {
    /// The owner begins its release.
    OwnerRelease,
    /// The owner observes the completion signal.
    OwnerPoll,
    /// The watcher observes the request signal.
    WatcherPoll,
    /// The destroy call returns with the given outcome.
    DestroyReturned(TeardownOutcome),
}

/// The state right after a fixture was created.
pub open spec fn initial() -> Teardown {
    Teardown {
        requested: false,
        complete: false,
        watcher: WatcherState::Polling,
        owner: OwnerState::Live,
        destroy_calls: 0,
        destroy_returns: 0,
    }
}

/// Raising the request signal.
pub open spec fn raise_requested(s: Teardown) -> Teardown {
    Teardown { requested: true, ..s }
}

/// Whether a party can make the move: each method's own precondition.
pub open spec fn enabled(s: Teardown, m: Move) -> bool {
    match m {
        Move::OwnerRelease => s.owner == OwnerState::Live,
        Move::OwnerPoll => s.owner == OwnerState::Waiting,
        Move::WatcherPoll => s.watcher == WatcherState::Polling,
        Move::DestroyReturned(_) => s.watcher == WatcherState::Destroying,
    }
}

/// The state after a move, each party acting as its method decides.
pub open spec fn apply(s: Teardown, m: Move) -> Teardown {
    match m {
        Move::OwnerRelease => Teardown { owner: OwnerState::Waiting, ..raise_requested(s) },
        Move::OwnerPoll => Teardown { owner: owner_poll_spec(s.complete).0, ..s },
        Move::WatcherPoll => {
            let (w, a) = watcher_poll_spec(s.requested);
            Teardown {
                watcher: w,
                destroy_calls: if a == WatcherAction::Destroy {
                    s.destroy_calls + 1
                } else {
                    s.destroy_calls
                },
                ..s
            }
        },
        Move::DestroyReturned(_) => Teardown {
            watcher: WatcherState::Done,
            complete: true,
            destroy_returns: s.destroy_returns + 1,
            ..s
        },
    }
}

/// The order of the protocol: request, then one destroy call, then its
/// return, then completion, then the owner's return.
pub open spec fn ordered(s: Teardown) -> bool {
    &&& s.requested <==> s.owner != OwnerState::Live
    &&& s.destroy_calls == (if s.watcher == WatcherState::Polling { 0nat } else { 1nat })
    &&& s.destroy_returns == (if s.watcher == WatcherState::Done { 1nat } else { 0nat })
    &&& s.destroy_calls > 0 ==> s.requested
    &&& s.complete <==> s.destroy_returns > 0
    &&& s.owner == OwnerState::Released ==> s.complete
}

/// A new fixture starts in order.
pub proof fn lemma_initial_ordered()
    ensures
        ordered(initial()),
{
}

/// Every move keeps the order, in every interleaving of the two parties:
/// the destroy call is made only after the request was raised, at most once,
/// and the owner returns only after the destroy call has returned and
/// completion was raised.
pub proof fn lemma_move_keeps_order(s: Teardown, m: Move)
    requires
        ordered(s),
        enabled(s, m),
    ensures
        ordered(apply(s, m)),
        apply(s, m).destroy_calls > s.destroy_calls ==> s.requested,
        apply(s, m).owner == OwnerState::Released && s.owner != OwnerState::Released
            ==> s.destroy_returns == 1,
{
}

/// Raising the request signal twice is raising it once, and raising a
/// raised signal changes nothing.
pub proof fn lemma_raise_idempotent(s: Teardown)
    ensures
        raise_requested(raise_requested(s)) == raise_requested(s),
        s.requested ==> raise_requested(s) == s,
{
}

/// Whatever the destroy call returns, completion is raised, and an owner
/// that is waiting returns at its next observation.
pub proof fn lemma_completion_despite_failure(s: Teardown, outcome: TeardownOutcome)
    requires
        ordered(s),
        s.watcher == WatcherState::Destroying,
        s.owner == OwnerState::Waiting,
    ensures
        apply(s, Move::DestroyReturned(outcome)).complete,
        apply(apply(s, Move::DestroyReturned(outcome)), Move::OwnerPoll).owner
            == OwnerState::Released,
{
}

/// Releasing a fresh fixture at once, with no writes, calls destroy exactly
/// once and then returns, whatever the destroy call's outcome.
pub proof fn lemma_release_destroys_once(outcome: TeardownOutcome)
    ensures
        ({
            let s1 = apply(initial(), Move::OwnerRelease);
            let s2 = apply(s1, Move::WatcherPoll);
            let s3 = apply(s2, Move::DestroyReturned(outcome));
            let s4 = apply(s3, Move::OwnerPoll);
            &&& s2.destroy_calls == 1
            &&& s4.owner == OwnerState::Released
            &&& s4.destroy_calls == 1
            &&& s4.destroy_returns == 1
        }),
{
}

} // verus!
