use vstd::prelude::*;
use crate::status::LoggerStatus;

verus! {

/// Where the one-shot registration with the logging facade stands.
/// It leaves `Uninitialized` once, for `Initializing`, and leaves that once,
/// for `Initialized` or `Failed`; those two are final.
#[derive(Clone, Copy, Debug, PartialEq, Eq, Structural)]
pub enum RegistrationState {
    Uninitialized,
    Initializing,
    Initialized,
    Failed,
}

/// What a caller of setup is told to do next.
#[derive(Clone, Copy, Debug, PartialEq, Eq, Structural)]
pub enum SetupStep {
    /// This caller won the race: it must make the one registration call and
    /// report its outcome.
    Register,
    /// Another caller is registering: ask again later.
    Wait,
    /// Setup is over, with this status.
    Done(LoggerStatus),
}

/// One event of a run of setup calls: a caller asks to set up, or the caller
/// that was told to register reports whether the facade took the logger.
#[derive(Clone, Copy, Debug, PartialEq, Eq, Structural)]
pub enum SetupEvent {
    Attempt,
    Complete(bool),
}

impl RegistrationState {
    pub open spec fn is_final(self) -> bool {
        self is Initialized || self is Failed
    }

    /// The status that a finished setup reports.
    pub open spec fn final_status(self) -> LoggerStatus {
        if self is Initialized {
            LoggerStatus::OK
        } else {
            LoggerStatus::RegistrationFailure
        }
    }
}

/// The state after the registration call reports `registered`.
pub open spec fn state_after_registration(registered: bool) -> RegistrationState {
    if registered {
        RegistrationState::Initialized
    } else {
        RegistrationState::Failed
    }
}

/// What a setup attempt does in state `s`: the new state and the answer.
pub open spec fn attempt(s: RegistrationState) -> (RegistrationState, SetupStep) {
    match s {
        RegistrationState::Uninitialized => (RegistrationState::Initializing, SetupStep::Register),
        RegistrationState::Initializing => (RegistrationState::Initializing, SetupStep::Wait),
        _ => (s, SetupStep::Done(s.final_status())),
    }
}

/// Whether `e` may happen in state `s`: only a registering setup reports back.
pub open spec fn event_allowed(s: RegistrationState, e: SetupEvent) -> bool {
    e is Complete ==> s is Initializing
}

/// One event applied to state `s`: the new state and the answer given.
pub open spec fn step(s: RegistrationState, e: SetupEvent) -> (RegistrationState, SetupStep) {
    match e {
        SetupEvent::Attempt => attempt(s),
        SetupEvent::Complete(registered) => {
            let t = state_after_registration(registered);
            (t, SetupStep::Done(t.final_status()))
        },
    }
}

/// The state after the events `evs`, one after another, from `s`.
pub open spec fn run_state(s: RegistrationState, evs: Seq<SetupEvent>) -> RegistrationState
    decreases evs.len(),
{
    if evs.len() == 0 {
        s
    } else {
        step(run_state(s, evs.drop_last()), evs.last()).0
    }
}

/// The answer given to event `i` of `evs`, run from `s`.
pub open spec fn answer_at(s: RegistrationState, evs: Seq<SetupEvent>, i: int) -> SetupStep {
    step(run_state(s, evs.take(i)), evs[i]).1
}

/// Every event of `evs` is allowed in the state it meets.
pub open spec fn valid_run(s: RegistrationState, evs: Seq<SetupEvent>) -> bool {
    forall|i: int| 0 <= i < evs.len() ==> event_allowed(#[trigger] run_state(s, evs.take(i)), evs[i])
}

/// How many callers of `evs`, run from `s`, were told to register.
pub open spec fn registrations(s: RegistrationState, evs: Seq<SetupEvent>) -> nat
    decreases evs.len(),
{
    if evs.len() == 0 {
        0
    } else {
        let prev = evs.drop_last();
        registrations(s, prev) + if step(run_state(s, prev), evs.last()).1 is Register {
            1nat
        } else {
            0nat
        }
    }
}

/// Some event of `evs` is a setup attempt.
pub open spec fn has_attempt(evs: Seq<SetupEvent>) -> bool {
    exists|i: int| 0 <= i < evs.len() && #[trigger] evs[i] == SetupEvent::Attempt
}

impl RegistrationState {
    /// A setup attempt: takes the state from `Uninitialized` to
    /// `Initializing` and tells this caller to register; tells the caller to
    /// wait while another registers; reports the outcome once setup is over.
    pub fn setup_step(&mut self) -> (r: SetupStep)
        ensures
            (*final(self), r) == attempt(*old(self)),
            (*final(self), r) == step(*old(self), SetupEvent::Attempt),
    {
        match *self {
            RegistrationState::Uninitialized => {
                *self = RegistrationState::Initializing;
                SetupStep::Register
            },
            RegistrationState::Initializing => SetupStep::Wait,
            RegistrationState::Initialized => SetupStep::Done(LoggerStatus::OK),
            RegistrationState::Failed => SetupStep::Done(LoggerStatus::RegistrationFailure),
        }
    }

    /// Records the outcome of the registration call: `Initialized` where the
    /// facade took the logger, `Failed` for good where it did not.
    pub fn complete(&mut self, registered: bool) -> (r: LoggerStatus)
        requires
            *old(self) is Initializing,
        ensures
            *final(self) == state_after_registration(registered),
            r == final(self).final_status(),
            r == (if registered { LoggerStatus::OK } else { LoggerStatus::RegistrationFailure }),
            (*final(self), SetupStep::Done(r)) == step(*old(self), SetupEvent::Complete(registered)),
    {
        if registered {
            *self = RegistrationState::Initialized;
            LoggerStatus::OK
        } else {
            *self = RegistrationState::Failed;
            LoggerStatus::RegistrationFailure
        }
    }

    /// Whether setup has succeeded.
    pub fn is_setup(&self) -> (r: bool)
        ensures
            r == (*self is Initialized),
    {
        matches!(*self, RegistrationState::Initialized)
    }
}

/// One more call, made in the state a run has reached, extends that run: the
/// state, the answer and the count of registrations are those of `step`.
pub proof fn lemma_run_extends(s: RegistrationState, evs: Seq<SetupEvent>, e: SetupEvent)
    requires
        valid_run(s, evs),
        event_allowed(run_state(s, evs), e),
    ensures
        valid_run(s, evs.push(e)),
        run_state(s, evs.push(e)) == step(run_state(s, evs), e).0,
        answer_at(s, evs.push(e), evs.len() as int) == step(run_state(s, evs), e).1,
        registrations(s, evs.push(e)) == registrations(s, evs) + if step(run_state(s, evs), e).1 is Register {
            1nat
        } else {
            0nat
        },
{
    let ext = evs.push(e);
    assert(ext.drop_last() =~= evs);
    assert(ext.take(evs.len() as int) =~= evs);
    assert forall|i: int| 0 <= i < ext.len() implies event_allowed(
        #[trigger] run_state(s, ext.take(i)),
        ext[i],
    ) by {
        if i < evs.len() {
            assert(ext.take(i) =~= evs.take(i));
            assert(event_allowed(run_state(s, evs.take(i)), evs[i]));
        }
    }
}

/// A final state stays as it is, whatever further events are allowed.
pub proof fn lemma_final_state_stays(s: RegistrationState, evs: Seq<SetupEvent>)
    requires
        s.is_final(),
        valid_run(s, evs),
    ensures
        run_state(s, evs) == s,
        registrations(s, evs) == 0,
        forall|i: int| 0 <= i < evs.len() ==> #[trigger] answer_at(s, evs, i) == SetupStep::Done(
            s.final_status(),
        ),
    decreases evs.len(),
{
    if evs.len() > 0 {
        let prev = evs.drop_last();
        assert forall|i: int| 0 <= i < prev.len() implies event_allowed(
            #[trigger] run_state(s, prev.take(i)),
            prev[i],
        ) by {
            assert(prev.take(i) =~= evs.take(i));
            assert(event_allowed(run_state(s, evs.take(i)), evs[i]));
        }
        lemma_final_state_stays(s, prev);
        assert(evs.take(prev.len() as int) =~= prev);
        assert(event_allowed(run_state(s, evs.take(prev.len() as int)), evs[prev.len() as int]));
        assert forall|i: int| 0 <= i < evs.len() implies #[trigger] answer_at(s, evs, i)
            == SetupStep::Done(s.final_status()) by {
            if i < prev.len() {
                assert(prev.take(i) =~= evs.take(i));
                assert(answer_at(s, prev, i) == answer_at(s, evs, i));
            } else {
                assert(event_allowed(run_state(s, evs.take(i)), evs[i]));
            }
        }
    }
}

/// Whatever the interleaving of setup calls, at most one caller is ever told
/// to make the registration call; from a fresh state, exactly one is as soon
/// as anyone attempts setup, and none is when starting anywhere else.
pub proof fn lemma_single_registration(s: RegistrationState, evs: Seq<SetupEvent>)
    requires
        valid_run(s, evs),
    ensures
        registrations(s, evs) <= 1,
        s is Uninitialized && has_attempt(evs) ==> registrations(s, evs) == 1,
        !(s is Uninitialized) ==> registrations(s, evs) == 0,
        run_state(s, evs) is Uninitialized <==> (s is Uninitialized && !has_attempt(evs)),
        !(run_state(s, evs) is Uninitialized) ==> registrations(s, evs) == (if s is Uninitialized {
            1nat
        } else {
            0nat
        }),
    decreases evs.len(),
{
    if evs.len() > 0 {
        let prev = evs.drop_last();
        let last = evs.last();
        assert forall|i: int| 0 <= i < prev.len() implies event_allowed(
            #[trigger] run_state(s, prev.take(i)),
            prev[i],
        ) by {
            assert(prev.take(i) =~= evs.take(i));
            assert(event_allowed(run_state(s, evs.take(i)), evs[i]));
        }
        lemma_single_registration(s, prev);
        assert(evs.take(prev.len() as int) =~= prev);
        assert(event_allowed(run_state(s, evs.take(prev.len() as int)), evs[prev.len() as int]));
        if has_attempt(evs) && !has_attempt(prev) {
            assert(last == SetupEvent::Attempt);
        }
        if has_attempt(prev) {
            let j = choose|j: int| 0 <= j < prev.len() && #[trigger] prev[j] == SetupEvent::Attempt;
            assert(evs[j] == SetupEvent::Attempt);
        }
        if last == SetupEvent::Attempt {
            assert(evs[evs.len() - 1] == SetupEvent::Attempt);
        }
    }
}

/// Every caller that is given a status is given the one the run ends with:
/// no answer reflects a registration still under way, and the state it
/// reports never changes again.
pub proof fn lemma_status_matches_outcome(s: RegistrationState, evs: Seq<SetupEvent>, i: int)
    requires
        valid_run(s, evs),
        0 <= i < evs.len(),
        answer_at(s, evs, i) is Done,
    ensures
        run_state(s, evs).is_final(),
        answer_at(s, evs, i) == SetupStep::Done(run_state(s, evs).final_status()),
{
    let mid = run_state(s, evs.take(i + 1));
    let rest = evs.skip(i + 1);
    assert(evs.take(i + 1).drop_last() =~= evs.take(i));
    assert(evs.take(i + 1).last() == evs[i]);
    lemma_run_split(s, evs, i + 1);
    assert forall|k: int| 0 <= k < rest.len() implies event_allowed(
        #[trigger] run_state(mid, rest.take(k)),
        rest[k],
    ) by {
        lemma_run_split(s, evs.take(i + 1 + k), i + 1);
        assert(evs.take(i + 1 + k).take(i + 1) =~= evs.take(i + 1));
        assert(evs.take(i + 1 + k).skip(i + 1) =~= rest.take(k));
        assert(event_allowed(run_state(s, evs.take(i + 1 + k)), evs[i + 1 + k]));
    }
    lemma_final_state_stays(mid, rest);
}

/// Running `evs` is running its first `n` events and then the rest.
proof fn lemma_run_split(s: RegistrationState, evs: Seq<SetupEvent>, n: int)
    requires
        0 <= n <= evs.len(),
    ensures
        run_state(s, evs) == run_state(run_state(s, evs.take(n)), evs.skip(n)),
    decreases evs.len() - n,
{
    if n == evs.len() {
        assert(evs.take(n) =~= evs);
        assert(evs.skip(n).len() == 0);
    } else {
        let prev = evs.drop_last();
        lemma_run_split(s, prev, n);
        assert(prev.take(n) =~= evs.take(n));
        assert(evs.skip(n).drop_last() =~= prev.skip(n));
        assert(evs.skip(n).last() == evs.last());
    }
}

/// Once setup has succeeded, any number of further setup calls all report
/// success and none of them registers again.
pub proof fn lemma_setup_idempotent(n: nat)
    ensures
        ({
            let evs = Seq::new(n, |i: int| SetupEvent::Attempt);
            &&& run_state(RegistrationState::Initialized, evs) == RegistrationState::Initialized
            &&& registrations(RegistrationState::Initialized, evs) == 0
            &&& forall|i: int| 0 <= i < n ==> #[trigger] answer_at(
                RegistrationState::Initialized,
                evs,
                i,
            ) == SetupStep::Done(LoggerStatus::OK)
        }),
{
    let evs = Seq::new(n, |i: int| SetupEvent::Attempt);
    assert(valid_run(RegistrationState::Initialized, evs));
    lemma_final_state_stays(RegistrationState::Initialized, evs);
}

} // verus!
