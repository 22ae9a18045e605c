//! The monitor: the fixed set of targets, the policy they share, and the
//! state that the renderer reads.

use vstd::prelude::*;
use crate::policy::{Action, Event, PollPolicy, Tracker};
use crate::state::VisualState;
use crate::target::{Target, TargetView};

verus! {

/// The set of targets under one policy.
pub struct Monitor {
    policy: PollPolicy,
    targets: Vec<Target>,
}

/// A monitor as contracts see it.
pub struct MonitorView {
    pub policy: PollPolicy,
    pub targets: Seq<TargetView>,
}

/// What the driver learns when it reports an event.
#[derive(Clone, Copy, Debug, PartialEq, Eq, Structural)]
pub struct Reaction {
    /// What to do next for the target.
    pub action: Action,
    /// The state to show from now on, where the event changed it.
    pub shown: Option<VisualState>,
}

impl View for Monitor {
    type V = MonitorView;

    closed spec fn view(&self) -> MonitorView {
        MonitorView {
            policy: self.policy,
            targets: Seq::new(self.targets.len() as nat, |i: int| self.targets[i]@),
        }
    }
}

impl MonitorView {
    /// The monitor after an event for the target at `index`. Only that
    /// target moves; an index that names no target changes nothing.
    pub open spec fn after(self, index: int, event: Event) -> MonitorView {
        if 0 <= index < self.targets.len() {
            MonitorView {
                targets: self.targets.update(index, self.targets[index].after(self.policy, event)),
                ..self
            }
        } else {
            self
        }
    }

    /// What the driver is told when the event reaches the target at `index`.
    pub open spec fn reacts(self, index: int, event: Event) -> Reaction {
        if 0 <= index < self.targets.len() {
            let before = self.targets[index].tracker.state;
            let after = self.targets[index].after(self.policy, event).tracker.state;
            Reaction {
                action: self.targets[index].asks(self.policy, event),
                shown: if after == before {
                    None
                } else {
                    Some(after)
                },
            }
        } else {
            Reaction { action: Action::Rest, shown: None }
        }
    }

    /// The target at `index` is steady and nothing is under way for it: the
    /// next tick probes it.
    pub open spec fn due(self, index: int) -> bool {
        &&& 0 <= index < self.targets.len()
        &&& self.targets[index].tracker.stage is Steady
        &&& self.targets[index].tracker.flight is Idle
    }

    /// Every target is in a state that the policy produces.
    pub open spec fn wf(self) -> bool {
        forall|i: int|
            0 <= i < self.targets.len() ==> (#[trigger] self.targets[i]).tracker.wf(self.policy)
    }

    /// The monitor after a tick: every target has taken it.
    pub open spec fn after_tick(self) -> MonitorView {
        MonitorView {
            targets: Seq::new(
                self.targets.len(),
                |i: int| self.targets[i].after(self.policy, Event::Tick),
            ),
            ..self
        }
    }
}

impl Monitor {
    /// Takes the targets under the policy, in the order given.
    pub fn start(targets: Vec<Target>, policy: PollPolicy) -> (monitor: Monitor)
        ensures
            monitor@.policy == policy,
            monitor@.targets.len() == targets.len(),
            forall|i: int| 0 <= i < targets.len() ==> monitor@.targets[i] == targets[i]@,
    {
        Monitor { policy, targets }
    }

    /// The policy that the targets share.
    pub fn policy(&self) -> (policy: PollPolicy)
        ensures
            policy == self@.policy,
    {
        self.policy
    }

    /// The number of targets.
    pub fn len(&self) -> (count: usize)
        ensures
            count == self@.targets.len(),
    {
        self.targets.len()
    }

    /// The target at `index`, where there is one.
    pub fn target(&self, index: usize) -> (target: Option<&Target>)
        ensures
            target is Some <==> index < self@.targets.len(),
            target matches Some(found) ==> found@ == self@.targets[index as int],
    {
        if index < self.targets.len() {
            Some(&self.targets[index])
        } else {
            None
        }
    }

    /// The state to show for the target at `index`, where there is one.
    pub fn current_state(&self, index: usize) -> (state: Option<VisualState>)
        ensures
            state == if index < self@.targets.len() {
                Some(self@.targets[index as int].tracker.state)
            } else {
                None::<VisualState>
            },
    {
        if index < self.targets.len() {
            Some(self.targets[index].state())
        } else {
            None
        }
    }

    /// Takes an event for the target at `index`. No other target is touched.
    /// The reaction carries the policy's action, and the new state where it
    /// differs from the one shown before.
    pub fn handle(&mut self, index: usize, event: Event) -> (reaction: Reaction)
        ensures
            final(self)@ == old(self)@.after(index as int, event),
            reaction == old(self)@.reacts(index as int, event),
    {
        if index >= self.targets.len() {
            return Reaction { action: Action::Rest, shown: None };
        }
        let before = self.targets[index].state();
        let policy = self.policy;
        let action = self.targets[index].handle(&policy, event);
        let after = self.targets[index].state();
        assert(self@.targets =~= old(self)@.after(index as int, event).targets);
        Reaction {
            action,
            shown: if after == before {
                None
            } else {
                Some(after)
            },
        }
    }

    /// Takes a tick of the shared timer. Every target that is steady with
    /// nothing under way starts a probe sequence; the others are left as
    /// they are. The result lists, in rising order, the targets whose
    /// primary address is to be probed now.
    pub fn tick(&mut self) -> (due: Vec<usize>)
        ensures
            final(self)@ == old(self)@.after_tick(),
            forall|k: int| 0 <= k < due.len() ==> old(self)@.due(#[trigger] due[k] as int),
            forall|i: int| old(self)@.due(i) ==> due@.contains(i as usize),
            forall|j: int, k: int| 0 <= j < k < due.len() ==> due[j] < due[k],
    {
        let mut due: Vec<usize> = Vec::new();
        let policy = self.policy;
        let count = self.targets.len();
        let mut index: usize = 0;
        while index < count
            invariant
                index <= count,
                count == old(self)@.targets.len(),
                self@.policy == old(self)@.policy,
                policy == self@.policy,
                self@.targets.len() == count,
                forall|i: int|
                    0 <= i < index ==> self@.targets[i] == old(self)@.targets[i].after(
                        policy,
                        Event::Tick,
                    ),
                forall|i: int| index <= i < count ==> self@.targets[i] == old(self)@.targets[i],
                forall|k: int| 0 <= k < due.len() ==> old(self)@.due(#[trigger] due[k] as int),
                forall|k: int| 0 <= k < due.len() ==> due[k] < index,
                forall|i: int| 0 <= i < index && old(self)@.due(i) ==> due@.contains(i as usize),
                forall|j: int, k: int| 0 <= j < k < due.len() ==> due[j] < due[k],
            decreases count - index,
        {
            let ghost before = self@;
            let ghost listed = due@;
            let action = self.targets[index].handle(&policy, Event::Tick);
            assert(self@.targets =~= before.targets.update(
                index as int,
                before.targets[index as int].after(policy, Event::Tick),
            ));
            match action {
                Action::ProbePrimary => {
                    due.push(index);
                    assert(due@[listed.len() as int] == index);
                    assert forall|i: int|
                        0 <= i < index + 1 && old(self)@.due(i) implies due@.contains(i as usize) by {
                        if i < index {
                            let k = choose|k: int| 0 <= k < listed.len() && listed[k] == i as usize;
                            assert(due@[k] == i as usize);
                        }
                    }
                },
                _ => {},
            }
            index = index + 1;
        }
        assert(self@.targets =~= old(self)@.after_tick().targets);
        due
    }
}

/// An event for one target leaves every other target as it was, and with it
/// the policy and the number of targets.
pub proof fn lemma_targets_do_not_interfere(
    monitor: MonitorView,
    index: int,
    event: Event,
    other: int,
)
    requires
        0 <= other < monitor.targets.len(),
        other != index,
    ensures
        monitor.after(index, event).targets[other] == monitor.targets[other],
        monitor.after(index, event).targets.len() == monitor.targets.len(),
        monitor.after(index, event).policy == monitor.policy,
{
}

/// What one target makes of an event does not depend on what happened to
/// another target before.
pub proof fn lemma_reaction_is_local(
    monitor: MonitorView,
    index: int,
    event: Event,
    other: int,
    earlier: Event,
)
    requires
        other != index,
    ensures
        monitor.after(other, earlier).reacts(index, event) == monitor.reacts(index, event),
{
}

/// Events for two different targets can be taken in either order.
pub proof fn lemma_events_commute(
    monitor: MonitorView,
    one: int,
    event: Event,
    other: int,
    other_event: Event,
)
    requires
        one != other,
    ensures
        monitor.after(one, event).after(other, other_event) == monitor.after(
            other,
            other_event,
        ).after(one, event),
{
    assert(monitor.after(one, event).after(other, other_event).targets =~= monitor.after(
        other,
        other_event,
    ).after(one, event).targets);
}

/// A monitor whose targets were all just created is well formed, and no
/// event and no tick leads out of the well-formed monitors: `Loading` is
/// shown for exactly the targets that still settle.
pub proof fn lemma_monitor_stays_well_formed(monitor: MonitorView, index: int, event: Event)
    ensures
        (forall|i: int|
            0 <= i < monitor.targets.len() ==> (#[trigger] monitor.targets[i]).tracker
                == Tracker::fresh()) ==> monitor.wf(),
        monitor.wf() ==> monitor.after(index, event).wf(),
        monitor.wf() ==> monitor.after_tick().wf(),
        monitor.wf() ==> forall|i: int|
            0 <= i < monitor.targets.len() ==> ((#[trigger] monitor.targets[i]).tracker.state
                is Loading <==> monitor.targets[i].tracker.stage is Settling),
{
    if monitor.wf() {
        assert forall|i: int| 0 <= i < monitor.targets.len() implies (#[trigger] monitor.after(
            index,
            event,
        ).targets[i]).tracker.wf(monitor.policy) by {
            assert(monitor.targets[i].tracker.wf(monitor.policy));
        }
        assert forall|i: int|
            0 <= i < monitor.targets.len() implies (#[trigger] monitor.after_tick().targets[i])
                .tracker.wf(monitor.policy) by {
            assert(monitor.targets[i].tracker.wf(monitor.policy));
        }
    }
}

/// No event changes an address: a target is probed where it was created to
/// be probed.
pub proof fn lemma_addresses_are_fixed(monitor: MonitorView, index: int, event: Event, any: int)
    requires
        0 <= any < monitor.targets.len(),
    ensures
        monitor.after(index, event).targets[any].primary == monitor.targets[any].primary,
        monitor.after(index, event).targets[any].fallback == monitor.targets[any].fallback,
        monitor.after_tick().targets[any].primary == monitor.targets[any].primary,
        monitor.after_tick().targets[any].fallback == monitor.targets[any].fallback,
{
}

/// A tick reaches exactly the targets that are due, and is to them what the
/// tick event is to each alone.
pub proof fn lemma_tick_reaches_the_due(monitor: MonitorView, index: int)
    requires
        0 <= index < monitor.targets.len(),
    ensures
        monitor.after_tick().targets[index] == monitor.after(index, Event::Tick).targets[index],
        monitor.due(index) <==> monitor.reacts(index, Event::Tick).action is ProbePrimary,
        !monitor.due(index) ==> monitor.after_tick().targets[index] == monitor.targets[index],
{
}

} // verus!
