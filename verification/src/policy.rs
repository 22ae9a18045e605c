//! When a target is probed: the settling phase after creation, with its
//! bounded retries, and the steady phase with its shared tick.
//!
//! The policy is a transition function. The program that owns the timers and
//! the connection reports each [`Event`] and performs the [`Action`] it gets
//! back; the policy itself neither waits nor sends.
//!
//! A settling attempt probes the primary address and, where that is silent
//! and a fallback is configured, the fallback. The first answer from either
//! ends settling. An attempt without answer leaves `Loading` on show and is
//! repeated after the interval, until the budget of attempts is used up and
//! the target is shown as `Unreachable`. At least one attempt is made,
//! whatever the budget says. By default a probe may take 3 seconds, 6
//! attempts are made 5 seconds apart, and the steady tick comes every 60
//! seconds.

use vstd::prelude::*;
use crate::state::{answered, has_answered, project, projection, Outcome, ProbeError, VisualState};

verus! {

/// Seconds a single probe may take, name resolution included.
pub const DEFAULT_PROBE_TIMEOUT_SECS: u64 = 3;

/// Seconds between two settling attempts.
pub const DEFAULT_SETTLE_INTERVAL_SECS: u32 = 5;

/// Settling attempts made before a silent target is given up on.
pub const DEFAULT_SETTLE_ATTEMPTS: u32 = 6;

/// Seconds between two ticks of the steady phase.
pub const DEFAULT_STEADY_PERIOD_SECS: u32 = 60;

/// The timing knobs of the monitor.
#[derive(Clone, Copy, Debug, PartialEq, Eq, Structural)]
pub struct PollPolicy {
    /// Seconds a single probe may take.
    pub probe_timeout_secs: u64,
    /// Seconds to wait after a settling attempt that found nothing.
    pub settle_interval_secs: u32,
    /// Settling attempts allowed. One attempt is made even where this is 0.
    pub settle_attempts: u32,
    /// Seconds between two ticks of the steady phase.
    pub steady_period_secs: u32,
}

impl PollPolicy {
    /// The number of settling attempts that are made at most: the configured
    /// number, and one where none is configured.
    pub open spec fn budget(self) -> int {
        if self.settle_attempts == 0 {
            1
        } else {
            self.settle_attempts as int
        }
    }

    /// The longest time, in seconds, that settling spends waiting: the
    /// attempts times the interval.
    pub open spec fn settle_bound(self) -> int {
        self.settle_attempts * self.settle_interval_secs
    }

    /// The number of settling attempts that are made at most.
    pub fn attempt_budget(&self) -> (attempts: u32)
        ensures
            attempts == self.budget(),
    {
        if self.settle_attempts == 0 {
            1
        } else {
            self.settle_attempts
        }
    }

    /// The longest time, in seconds, that settling spends waiting.
    pub fn settle_bound_secs(&self) -> (secs: u64)
        ensures
            secs == self.settle_bound(),
    {
        let attempts: u64 = self.settle_attempts as u64;
        let interval: u64 = self.settle_interval_secs as u64;
        assert(attempts * interval <= 0xffff_ffff * 0xffff_ffff) by (nonlinear_arith)
            requires
                attempts <= 0xffff_ffff,
                interval <= 0xffff_ffff,
        ;
        attempts * interval
    }
}

impl Default for PollPolicy {
    fn default() -> (policy: PollPolicy)
        ensures
            policy == (PollPolicy {
                probe_timeout_secs: DEFAULT_PROBE_TIMEOUT_SECS,
                settle_interval_secs: DEFAULT_SETTLE_INTERVAL_SECS,
                settle_attempts: DEFAULT_SETTLE_ATTEMPTS,
                steady_period_secs: DEFAULT_STEADY_PERIOD_SECS,
            }),
    {
        PollPolicy {
            probe_timeout_secs: DEFAULT_PROBE_TIMEOUT_SECS,
            settle_interval_secs: DEFAULT_SETTLE_INTERVAL_SECS,
            settle_attempts: DEFAULT_SETTLE_ATTEMPTS,
            steady_period_secs: DEFAULT_STEADY_PERIOD_SECS,
        }
    }
}

/// The phase a target is in.
#[derive(Clone, Copy, Debug, PartialEq, Eq, Structural)]
pub enum Stage {
    /// The target was created and has not given a first signal; `failed`
    /// attempts found nothing so far.
    Settling { failed: u32 },
    /// Settling is over; the target is probed once per tick.
    Steady,
}

/// The probe of a target that is under way, if any.
#[derive(Clone, Copy, Debug, PartialEq, Eq, Structural)]
pub enum Flight {
    /// No probe is under way.
    Idle,
    /// The primary address is being probed.
    Primary,
    /// The primary address was silent and the fallback is being probed.
    Fallback,
}

/// What the policy keeps for one target.
#[derive(Clone, Copy, Debug, PartialEq, Eq, Structural)]
pub struct Tracker {
    pub stage: Stage,
    pub flight: Flight,
    pub state: VisualState,
}

/// What happened to one target.
#[derive(Clone, Copy, Debug, PartialEq, Eq)]
pub enum Event {
    /// A settling attempt is due: the target was just created, or the wait
    /// after a failed attempt is over.
    SettleDue,
    /// The shared timer of the steady phase fired.
    Tick,
    /// The probe of the primary address ended.
    Primary(Outcome),
    /// The probe of the fallback address ended.
    Fallback(Outcome),
}

/// What the driver is to do next for one target.
#[derive(Clone, Copy, Debug, PartialEq, Eq, Structural)]
pub enum Action {
    /// Nothing, until the next event arrives by itself.
    Rest,
    /// Probe the primary address and report `Event::Primary`.
    ProbePrimary,
    /// Probe the fallback address and report `Event::Fallback`.
    ProbeFallback,
    /// Wait that many seconds and report `Event::SettleDue`.
    RetryAfter(u32),
}

impl Tracker {
    /// A target that was just created.
    pub open spec fn fresh() -> Tracker {
        Tracker {
            stage: Stage::Settling { failed: 0 },
            flight: Flight::Idle,
            state: VisualState::Loading,
        }
    }

    /// A target whose probe sequence has concluded with `state`.
    pub open spec fn settled(state: VisualState) -> Tracker {
        Tracker { stage: Stage::Steady, flight: Flight::Idle, state }
    }

    /// What holds of every tracker that the policy produces: `Loading` is
    /// shown exactly while the target settles, and the failed attempts stay
    /// under the budget.
    pub open spec fn wf(self, policy: PollPolicy) -> bool {
        &&& self.stage is Settling <==> self.state is Loading
        &&& self.stage matches Stage::Settling { failed } ==> failed < policy.budget()
    }

    /// The tracker of a target that was just created.
    pub fn new() -> (tracker: Tracker)
        ensures
            tracker == Tracker::fresh(),
    {
        Tracker {
            stage: Stage::Settling { failed: 0 },
            flight: Flight::Idle,
            state: VisualState::Loading,
        }
    }
}

/// The tracker and the action after a probe sequence found no answer: one
/// more settling attempt after the interval where the budget allows it,
/// and `Unreachable` where it does not or the target is steady.
pub open spec fn after_silence(tracker: Tracker, policy: PollPolicy) -> (Tracker, Action) {
    match tracker.stage {
        Stage::Settling { failed } => if failed + 1 < policy.budget() {
            (
                Tracker {
                    stage: Stage::Settling { failed: (failed + 1) as u32 },
                    flight: Flight::Idle,
                    state: VisualState::Loading,
                },
                Action::RetryAfter(policy.settle_interval_secs),
            )
        } else {
            (Tracker::settled(VisualState::Unreachable), Action::Rest)
        },
        Stage::Steady => (Tracker::settled(VisualState::Unreachable), Action::Rest),
    }
}

/// The transition of the policy for one target.
///
/// A probe sequence starts with the primary address: in the settling phase
/// when an attempt is due, in the steady phase on a tick, and in both only
/// while no probe is under way. An answer of the primary address ends the
/// sequence. Its silence sends the probe to the fallback where one is
/// configured. A sequence that found an answer ends settling and is shown;
/// one that found none is shown once the target is steady or the budget is
/// used up. An event that the tracker does not wait for changes nothing.
pub open spec fn step(tracker: Tracker, has_fallback: bool, policy: PollPolicy, event: Event) -> (
    Tracker,
    Action,
) {
    match event {
        Event::SettleDue => if tracker.stage is Settling && tracker.flight is Idle {
            (Tracker { flight: Flight::Primary, ..tracker }, Action::ProbePrimary)
        } else {
            (tracker, Action::Rest)
        },
        Event::Tick => if tracker.stage is Steady && tracker.flight is Idle {
            (Tracker { flight: Flight::Primary, ..tracker }, Action::ProbePrimary)
        } else {
            (tracker, Action::Rest)
        },
        Event::Primary(outcome) => if !(tracker.flight is Primary) {
            (tracker, Action::Rest)
        } else if answered(outcome) {
            (Tracker::settled(projection(outcome, None)), Action::Rest)
        } else if has_fallback {
            (Tracker { flight: Flight::Fallback, ..tracker }, Action::ProbeFallback)
        } else {
            after_silence(tracker, policy)
        },
        Event::Fallback(outcome) => if !(tracker.flight is Fallback) {
            (tracker, Action::Rest)
        } else if answered(outcome) {
            (
                Tracker::settled(projection(Err(ProbeError::Unreachable), Some(outcome))),
                Action::Rest,
            )
        } else {
            after_silence(tracker, policy)
        },
    }
}

fn silence(tracker: Tracker, policy: &PollPolicy) -> (next: (Tracker, Action))
    ensures
        next == after_silence(tracker, *policy),
{
    let given_up = Tracker {
        stage: Stage::Steady,
        flight: Flight::Idle,
        state: VisualState::Unreachable,
    };
    match tracker.stage {
        Stage::Settling { failed } => {
            if policy.settle_attempts >= 2 && failed < policy.settle_attempts - 1 {
                (
                    Tracker {
                        stage: Stage::Settling { failed: failed + 1 },
                        flight: Flight::Idle,
                        state: VisualState::Loading,
                    },
                    Action::RetryAfter(policy.settle_interval_secs),
                )
            } else {
                (given_up, Action::Rest)
            }
        },
        Stage::Steady => (given_up, Action::Rest),
    }
}

/// Takes one event for one target and says what the tracker becomes and
/// what to do next.
pub fn advance(tracker: Tracker, has_fallback: bool, policy: &PollPolicy, event: Event) -> (next: (
    Tracker,
    Action,
))
    ensures
        next == step(tracker, has_fallback, *policy, event),
{
    let idle = match tracker.flight {
        Flight::Idle => true,
        _ => false,
    };
    let settling = match tracker.stage {
        Stage::Settling { .. } => true,
        Stage::Steady => false,
    };
    match event {
        Event::SettleDue => {
            if settling && idle {
                (Tracker { flight: Flight::Primary, ..tracker }, Action::ProbePrimary)
            } else {
                (tracker, Action::Rest)
            }
        },
        Event::Tick => {
            if !settling && idle {
                (Tracker { flight: Flight::Primary, ..tracker }, Action::ProbePrimary)
            } else {
                (tracker, Action::Rest)
            }
        },
        Event::Primary(outcome) => {
            match tracker.flight {
                Flight::Primary => {
                    if has_answered(outcome) {
                        (
                            Tracker {
                                stage: Stage::Steady,
                                flight: Flight::Idle,
                                state: project(outcome, None),
                            },
                            Action::Rest,
                        )
                    } else if has_fallback {
                        (Tracker { flight: Flight::Fallback, ..tracker }, Action::ProbeFallback)
                    } else {
                        silence(tracker, policy)
                    }
                },
                _ => (tracker, Action::Rest),
            }
        },
        Event::Fallback(outcome) => {
            match tracker.flight {
                Flight::Fallback => {
                    if has_answered(outcome) {
                        (
                            Tracker {
                                stage: Stage::Steady,
                                flight: Flight::Idle,
                                state: project(Err(ProbeError::Unreachable), Some(outcome)),
                            },
                            Action::Rest,
                        )
                    } else {
                        silence(tracker, policy)
                    }
                },
                _ => (tracker, Action::Rest),
            }
        },
    }
}

/// A target that was just created is well formed.
pub proof fn lemma_fresh_is_well_formed(policy: PollPolicy)
    ensures
        Tracker::fresh().wf(policy),
{
}

/// No event leads out of the well-formed trackers: `Loading` is shown exactly
/// while the target settles, and settling never counts more failures than
/// the budget allows.
pub proof fn lemma_step_keeps_well_formed(
    tracker: Tracker,
    has_fallback: bool,
    policy: PollPolicy,
    event: Event,
)
    requires
        tracker.wf(policy),
    ensures
        step(tracker, has_fallback, policy, event).0.wf(policy),
{
}

/// At most one probe sequence is under way for a target. The primary address
/// is probed only when nothing is under way, the fallback only in place of
/// a primary probe that just ended in silence, and whenever the policy asks
/// for neither, nothing is left under way or the tracker is unchanged.
pub proof fn lemma_one_probe_at_a_time(
    tracker: Tracker,
    has_fallback: bool,
    policy: PollPolicy,
    event: Event,
)
    ensures
        ({
            let (next, action) = step(tracker, has_fallback, policy, event);
            &&& action is ProbePrimary ==> tracker.flight is Idle && next.flight is Primary
            &&& action is ProbeFallback ==> tracker.flight is Primary && next.flight is Fallback
                && has_fallback && event is Primary && !answered(event->Primary_0)
            &&& (action is Rest || action is RetryAfter) ==> next.flight is Idle || next == tracker
        }),
{
}

/// The fallback is never probed after the primary address answered.
pub proof fn lemma_answer_spares_fallback(
    tracker: Tracker,
    has_fallback: bool,
    policy: PollPolicy,
    outcome: Outcome,
)
    requires
        answered(outcome),
    ensures
        !(step(tracker, has_fallback, policy, Event::Primary(outcome)).1 is ProbeFallback),
        tracker.flight is Primary ==> step(tracker, has_fallback, policy, Event::Primary(outcome))
            == (Tracker::settled(projection(outcome, None)), Action::Rest),
{
}

/// A tick does not reach a target that still settles, nor one whose probe is
/// under way.
pub proof fn lemma_tick_waits(tracker: Tracker, has_fallback: bool, policy: PollPolicy)
    requires
        tracker.stage is Settling || !(tracker.flight is Idle),
    ensures
        step(tracker, has_fallback, policy, Event::Tick) == (tracker, Action::Rest),
{
}

/// Once a probe sequence has concluded, nothing but a tick sets off another.
pub proof fn lemma_settled_rests_until_tick(
    state: VisualState,
    has_fallback: bool,
    policy: PollPolicy,
    event: Event,
)
    requires
        !(event is Tick),
    ensures
        step(Tracker::settled(state), has_fallback, policy, event) == (
            Tracker::settled(state),
            Action::Rest,
        ),
{
}

/// Whenever an event ends a probe sequence for good, what is shown is the
/// projection of the outcomes of that sequence: of the primary outcome alone
/// where the fallback was not probed, and of a silent primary with the
/// fallback outcome where it was.
pub proof fn lemma_shown_is_the_projection(
    tracker: Tracker,
    has_fallback: bool,
    policy: PollPolicy,
    event: Event,
)
    ensures
        ({
            let next = step(tracker, has_fallback, policy, event).0;
            let ended = !(tracker.flight is Idle) && next == Tracker::settled(next.state);
            &&& ended && event is Primary && tracker.flight is Primary ==> next.state
                == projection(event->Primary_0, None)
            &&& ended && event is Fallback && tracker.flight is Fallback ==> forall|
                primary: Outcome,
            |
                !answered(primary) ==> next.state == #[trigger] projection(
                    primary,
                    Some(event->Fallback_0),
                )
        }),
{
}

/// What is shown after an event that ends a probe sequence does not depend
/// on what was shown before.
pub proof fn lemma_no_memory_of_shown_state(
    tracker: Tracker,
    shown_before: VisualState,
    has_fallback: bool,
    policy: PollPolicy,
    event: Event,
)
    requires
        !(tracker.flight is Idle),
        step(tracker, has_fallback, policy, event).0.flight is Idle,
    ensures
        step(Tracker { state: shown_before, ..tracker }, has_fallback, policy, event) == step(
            tracker,
            has_fallback,
            policy,
            event,
        ),
{
}

} // verus!
