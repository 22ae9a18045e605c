//! What holds of the policy beyond a single step: what a reply leads to,
//! how settling ends, and what it costs at most.

use vstd::prelude::*;
use crate::policy::{step, Action, Event, Flight, PollPolicy, Stage, Tracker};
use crate::probe::{reading, running_status, Reply};
use crate::state::{answered, projection, shown_for, Outcome, ProbeError, VisualState};

verus! {

/// The reply says that the service runs.
pub open spec fn reports_running(reply: Reply) -> bool {
    reply matches Reply::Payload(info) && info.status@ == running_status()
}

/// Any reply of the primary address but silence ends the probe sequence:
/// the fallback is not probed, and what is shown is `Online` where the reply
/// reports the service as running and `Degraded` otherwise, an unreadable
/// reply included.
pub proof fn lemma_primary_reply_is_shown(
    tracker: Tracker,
    has_fallback: bool,
    policy: PollPolicy,
    reply: Reply,
)
    requires
        tracker.flight is Primary,
        !(reply is Silent),
    ensures
        step(tracker, has_fallback, policy, Event::Primary(reading(reply))) == (
            Tracker::settled(shown_for(reports_running(reply), false)),
            Action::Rest,
        ),
{
}

/// Any reply of the fallback address but silence ends the probe sequence:
/// what is shown is `OnlineViaFallback` where the reply reports the service
/// as running and `DegradedViaFallback` otherwise.
pub proof fn lemma_fallback_reply_is_shown(
    tracker: Tracker,
    has_fallback: bool,
    policy: PollPolicy,
    reply: Reply,
)
    requires
        tracker.flight is Fallback,
        !(reply is Silent),
    ensures
        step(tracker, has_fallback, policy, Event::Fallback(reading(reply))) == (
            Tracker::settled(shown_for(reports_running(reply), true)),
            Action::Rest,
        ),
{
}

/// Silence at every address of a steady target is shown as `Unreachable`.
pub proof fn lemma_steady_silence_is_unreachable(
    tracker: Tracker,
    has_fallback: bool,
    policy: PollPolicy,
)
    requires
        tracker.stage is Steady,
    ensures
        tracker.flight is Primary && !has_fallback ==> step(
            tracker,
            has_fallback,
            policy,
            Event::Primary(reading(Reply::Silent)),
        ) == (Tracker::settled(VisualState::Unreachable), Action::Rest),
        tracker.flight is Fallback ==> step(
            tracker,
            has_fallback,
            policy,
            Event::Fallback(reading(Reply::Silent)),
        ) == (Tracker::settled(VisualState::Unreachable), Action::Rest),
{
}

/// The tracker after a sequence of events, taken in order.
pub open spec fn run(
    tracker: Tracker,
    has_fallback: bool,
    policy: PollPolicy,
    events: Seq<Event>,
) -> Tracker
    decreases events.len(),
{
    if events.len() == 0 {
        tracker
    } else {
        run(
            step(tracker, has_fallback, policy, events.first()).0,
            has_fallback,
            policy,
            events.drop_first(),
        )
    }
}

/// The number of times the primary address is probed for a target that
/// still settles, along a sequence of events.
pub open spec fn settle_probes(
    tracker: Tracker,
    has_fallback: bool,
    policy: PollPolicy,
    events: Seq<Event>,
) -> int
    decreases events.len(),
{
    if events.len() == 0 {
        0
    } else {
        let (next, action) = step(tracker, has_fallback, policy, events.first());
        (if tracker.stage is Settling && action is ProbePrimary {
            1int
        } else {
            0
        }) + settle_probes(next, has_fallback, policy, events.drop_first())
    }
}

/// The seconds of waiting that the policy asks for along a sequence of
/// events.
pub open spec fn settle_wait(
    tracker: Tracker,
    has_fallback: bool,
    policy: PollPolicy,
    events: Seq<Event>,
) -> int
    decreases events.len(),
{
    if events.len() == 0 {
        0
    } else {
        let (next, action) = step(tracker, has_fallback, policy, events.first());
        (match action {
            Action::RetryAfter(secs) => secs as int,
            _ => 0,
        }) + settle_wait(next, has_fallback, policy, events.drop_first())
    }
}

/// The settling attempts that a tracker may still start.
pub open spec fn attempts_left(tracker: Tracker, policy: PollPolicy) -> int {
    match tracker.stage {
        Stage::Settling { failed } => policy.budget() - failed - if tracker.flight is Idle {
            0int
        } else {
            1
        },
        Stage::Steady => 0,
    }
}

/// The waits between settling attempts that a tracker may still ask for.
pub open spec fn waits_left(tracker: Tracker, policy: PollPolicy) -> int {
    match tracker.stage {
        Stage::Settling { failed } => policy.budget() - failed - 1,
        Stage::Steady => 0,
    }
}

/// One settling attempt on a target that does not answer at any address.
pub open spec fn silent_round(has_fallback: bool) -> Seq<Event> {
    if has_fallback {
        seq![
            Event::SettleDue,
            Event::Primary(Err(ProbeError::Unreachable)),
            Event::Fallback(Err(ProbeError::Unreachable)),
        ]
    } else {
        seq![Event::SettleDue, Event::Primary(Err(ProbeError::Unreachable))]
    }
}

/// That many settling attempts in a row on a target that does not answer.
pub open spec fn silent_rounds(has_fallback: bool, rounds: nat) -> Seq<Event>
    decreases rounds,
{
    if rounds == 0 {
        Seq::empty()
    } else {
        silent_round(has_fallback) + silent_rounds(has_fallback, (rounds - 1) as nat)
    }
}

/// A tracker that settles, with nothing under way.
pub open spec fn settling(failed: int) -> Tracker {
    Tracker {
        stage: Stage::Settling { failed: failed as u32 },
        flight: Flight::Idle,
        state: VisualState::Loading,
    }
}

/// Running two sequences one after the other is running their
/// concatenation.
pub proof fn lemma_run_concat(
    tracker: Tracker,
    has_fallback: bool,
    policy: PollPolicy,
    first: Seq<Event>,
    second: Seq<Event>,
)
    ensures
        run(tracker, has_fallback, policy, first + second) == run(
            run(tracker, has_fallback, policy, first),
            has_fallback,
            policy,
            second,
        ),
    decreases first.len(),
{
    if first.len() == 0 {
        assert(first + second =~= second);
    } else {
        assert((first + second).drop_first() =~= first.drop_first() + second);
        lemma_run_concat(
            step(tracker, has_fallback, policy, first.first()).0,
            has_fallback,
            policy,
            first.drop_first(),
            second,
        );
    }
}

/// A run over two events is two steps.
proof fn lemma_run_pair(
    tracker: Tracker,
    has_fallback: bool,
    policy: PollPolicy,
    first: Event,
    second: Event,
)
    ensures
        run(tracker, has_fallback, policy, seq![first, second]) == step(
            step(tracker, has_fallback, policy, first).0,
            has_fallback,
            policy,
            second,
        ).0,
{
    reveal_with_fuel(run, 3);
    assert(seq![first, second].drop_first() =~= seq![second]);
    assert(seq![second].drop_first() =~= Seq::<Event>::empty());
}

/// A run over three events is three steps.
proof fn lemma_run_triple(
    tracker: Tracker,
    has_fallback: bool,
    policy: PollPolicy,
    first: Event,
    second: Event,
    third: Event,
)
    ensures
        run(tracker, has_fallback, policy, seq![first, second, third]) == step(
            step(step(tracker, has_fallback, policy, first).0, has_fallback, policy, second).0,
            has_fallback,
            policy,
            third,
        ).0,
{
    let after_first = step(tracker, has_fallback, policy, first).0;
    assert(seq![first, second, third].drop_first() =~= seq![second, third]);
    lemma_run_pair(after_first, has_fallback, policy, second, third);
}

/// Every tracker along a run from a well-formed one is well formed.
pub proof fn lemma_run_keeps_well_formed(
    tracker: Tracker,
    has_fallback: bool,
    policy: PollPolicy,
    events: Seq<Event>,
)
    requires
        tracker.wf(policy),
    ensures
        run(tracker, has_fallback, policy, events).wf(policy),
    decreases events.len(),
{
    if events.len() > 0 {
        lemma_run_keeps_well_formed(
            step(tracker, has_fallback, policy, events.first()).0,
            has_fallback,
            policy,
            events.drop_first(),
        );
    }
}

/// One silent attempt uses up one attempt of the budget: the target goes on
/// settling and shows `Loading` while attempts are left, and is given up as
/// `Unreachable` with the last one.
pub proof fn lemma_silent_round(failed: int, has_fallback: bool, policy: PollPolicy)
    requires
        0 <= failed < policy.budget(),
    ensures
        run(settling(failed), has_fallback, policy, silent_round(has_fallback)) == if failed + 1
            < policy.budget() {
            settling(failed + 1)
        } else {
            Tracker::settled(VisualState::Unreachable)
        },
{
    let silent = Err(ProbeError::Unreachable);
    if has_fallback {
        lemma_run_triple(
            settling(failed),
            has_fallback,
            policy,
            Event::SettleDue,
            Event::Primary(silent),
            Event::Fallback(silent),
        );
    } else {
        lemma_run_pair(
            settling(failed),
            has_fallback,
            policy,
            Event::SettleDue,
            Event::Primary(silent),
        );
    }
}

/// A target that never answers shows `Loading` through every attempt but
/// the last of the budget and `Unreachable` after the last, and is steady
/// from then on.
pub proof fn lemma_silent_target_is_given_up(
    failed: int,
    has_fallback: bool,
    policy: PollPolicy,
    rounds: nat,
)
    requires
        0 <= failed,
        failed + rounds <= policy.budget(),
    ensures
        run(settling(failed), has_fallback, policy, silent_rounds(has_fallback, rounds)) == if rounds
            > 0 && failed + rounds == policy.budget() {
            Tracker::settled(VisualState::Unreachable)
        } else {
            settling(failed + rounds)
        },
    decreases rounds,
{
    if rounds > 0 {
        let round = silent_round(has_fallback);
        let more = silent_rounds(has_fallback, (rounds - 1) as nat);
        lemma_run_concat(settling(failed), has_fallback, policy, round, more);
        lemma_silent_round(failed, has_fallback, policy);
        if failed + 1 < policy.budget() {
            lemma_silent_target_is_given_up(failed + 1, has_fallback, policy, (rounds - 1) as nat);
        } else {
            // The budget is used up with this round, and none follows.
            assert(more.len() == 0);
        }
    }
}

/// An answer of the primary address ends settling at once, whatever came
/// before within the budget: the answer is shown, and no further settling
/// attempt is made when one falls due.
pub proof fn lemma_answer_ends_settling(
    has_fallback: bool,
    policy: PollPolicy,
    rounds: nat,
    outcome: Outcome,
)
    requires
        rounds < policy.budget(),
        answered(outcome),
    ensures
        ({
            let events = silent_rounds(has_fallback, rounds) + seq![
                Event::SettleDue,
                Event::Primary(outcome),
            ];
            let end = run(Tracker::fresh(), has_fallback, policy, events);
            &&& end == Tracker::settled(projection(outcome, None))
            &&& step(end, has_fallback, policy, Event::SettleDue) == (end, Action::Rest)
        }),
{
    let silent = silent_rounds(has_fallback, rounds);
    let last = seq![Event::SettleDue, Event::Primary(outcome)];
    lemma_silent_target_is_given_up(0, has_fallback, policy, rounds);
    lemma_run_concat(Tracker::fresh(), has_fallback, policy, silent, last);
    lemma_run_pair(
        settling(rounds as int),
        has_fallback,
        policy,
        Event::SettleDue,
        Event::Primary(outcome),
    );
}

/// An answer of the fallback address ends settling as well: after any
/// number of silent attempts within the budget, the answer is shown as one
/// that came through the fallback, and no further settling attempt is made.
pub proof fn lemma_fallback_answer_ends_settling(
    policy: PollPolicy,
    rounds: nat,
    outcome: Outcome,
)
    requires
        rounds < policy.budget(),
        answered(outcome),
    ensures
        ({
            let events = silent_rounds(true, rounds) + seq![
                Event::SettleDue,
                Event::Primary(Err(ProbeError::Unreachable)),
                Event::Fallback(outcome),
            ];
            let end = run(Tracker::fresh(), true, policy, events);
            &&& end == Tracker::settled(projection(Err(ProbeError::Unreachable), Some(outcome)))
            &&& step(end, true, policy, Event::SettleDue) == (end, Action::Rest)
        }),
{
    let silent = silent_rounds(true, rounds);
    let last = seq![
        Event::SettleDue,
        Event::Primary(Err(ProbeError::Unreachable)),
        Event::Fallback(outcome),
    ];
    lemma_silent_target_is_given_up(0, true, policy, rounds);
    lemma_run_concat(Tracker::fresh(), true, policy, silent, last);
    lemma_run_triple(
        settling(rounds as int),
        true,
        policy,
        Event::SettleDue,
        Event::Primary(Err(ProbeError::Unreachable)),
        Event::Fallback(outcome),
    );
}

/// Whatever events arrive and in whatever order, a target that settles is
/// probed at its primary address no more often than attempts are left, and
/// is made to wait no longer than the waits that are left take.
pub proof fn lemma_settling_is_bounded(
    tracker: Tracker,
    has_fallback: bool,
    policy: PollPolicy,
    events: Seq<Event>,
)
    requires
        tracker.wf(policy),
    ensures
        settle_probes(tracker, has_fallback, policy, events) <= attempts_left(tracker, policy),
        settle_wait(tracker, has_fallback, policy, events) <= waits_left(tracker, policy)
            * policy.settle_interval_secs,
    decreases events.len(),
{
    let interval = policy.settle_interval_secs as int;
    if events.len() == 0 {
        assert(0 <= waits_left(tracker, policy) * interval) by (nonlinear_arith)
            requires
                0 <= waits_left(tracker, policy),
                0 <= interval,
        ;
    } else {
        let (next, action) = step(tracker, has_fallback, policy, events.first());
        lemma_settling_is_bounded(next, has_fallback, policy, events.drop_first());
        let before = waits_left(tracker, policy);
        let after = waits_left(next, policy);
        if action is RetryAfter {
            assert(after * interval + interval == before * interval) by (nonlinear_arith)
                requires
                    after == before - 1,
            ;
        } else {
            assert(after * interval <= before * interval) by (nonlinear_arith)
                requires
                    after <= before,
                    0 <= interval,
            ;
        }
    }
}

/// From its creation on, a target is probed at its primary address at most
/// as often as the budget says before it is steady, and the waits between
/// these attempts add up to no more than the settle bound.
pub proof fn lemma_settling_cost(has_fallback: bool, policy: PollPolicy, events: Seq<Event>)
    ensures
        settle_probes(Tracker::fresh(), has_fallback, policy, events) <= policy.budget(),
        settle_wait(Tracker::fresh(), has_fallback, policy, events) <= policy.settle_bound(),
{
    lemma_settling_is_bounded(Tracker::fresh(), has_fallback, policy, events);
    let interval = policy.settle_interval_secs as int;
    let attempts = policy.settle_attempts as int;
    assert((policy.budget() - 1) * interval <= attempts * interval) by (nonlinear_arith)
        requires
            policy.budget() - 1 <= attempts,
            0 <= interval,
    ;
}

} // verus!
