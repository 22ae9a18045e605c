//! What a probe can report and what is shown for it.

use vstd::prelude::*;

verus! {

/// The state of a target as the renderer sees it.
#[derive(Clone, Copy, Debug, PartialEq, Eq, Structural)]
pub enum VisualState {
    /// No probe sequence has concluded yet.
    Loading,
    /// The primary address answered and the service runs.
    Online,
    /// The primary address answered, but the service does not run.
    Degraded,
    /// The primary address is silent; the fallback answered and the service runs.
    OnlineViaFallback,
    /// The primary address is silent; the fallback answered, but the service
    /// does not run.
    DegradedViaFallback,
    /// Neither address answered.
    Unreachable,
}

/// What one probe found. `service_running` carries meaning only where
/// `reachable` holds.
#[derive(Clone, Copy, Debug, PartialEq, Eq, Structural)]
pub struct ProbeResult {
    pub reachable: bool,
    pub service_running: bool,
}

/// Why a probe has no result.
#[derive(Clone, Copy, Debug, PartialEq, Eq, Structural)]
pub enum ProbeError {
    /// The request failed below the payload: refused, unresolved, timed out.
    Unreachable,
    /// The endpoint answered with a payload that cannot be read.
    InvalidResponse,
}

/// The outcome of one probe.
pub type Outcome = Result<ProbeResult, ProbeError>;

/// The endpoint answered, whatever it said. An unreadable payload is an
/// answer too.
pub open spec fn answered(outcome: Outcome) -> bool {
    match outcome {
        Ok(found) => found.reachable,
        Err(ProbeError::InvalidResponse) => true,
        Err(ProbeError::Unreachable) => false,
    }
}

/// The endpoint answered and reported the service as running.
pub open spec fn running(outcome: Outcome) -> bool {
    match outcome {
        Ok(found) => found.reachable && found.service_running,
        Err(_) => false,
    }
}

/// The state shown for an address that answered, at first hand or through
/// the fallback.
pub open spec fn shown_for(runs: bool, via_fallback: bool) -> VisualState {
    if via_fallback {
        if runs {
            VisualState::OnlineViaFallback
        } else {
            VisualState::DegradedViaFallback
        }
    } else {
        if runs {
            VisualState::Online
        } else {
            VisualState::Degraded
        }
    }
}

/// The state that a pair of outcomes stands for. The fallback counts only
/// where the primary address did not answer.
pub open spec fn projection(primary: Outcome, fallback: Option<Outcome>) -> VisualState {
    if answered(primary) {
        shown_for(running(primary), false)
    } else if fallback is Some && answered(fallback->0) {
        shown_for(running(fallback->0), true)
    } else {
        VisualState::Unreachable
    }
}

/// Whether the endpoint behind `outcome` answered.
pub fn has_answered(outcome: Outcome) -> (yes: bool)
    ensures
        yes == answered(outcome),
{
    match outcome {
        Ok(found) => found.reachable,
        Err(ProbeError::InvalidResponse) => true,
        Err(ProbeError::Unreachable) => false,
    }
}

/// Whether the endpoint behind `outcome` answered that the service runs.
pub fn is_running(outcome: Outcome) -> (yes: bool)
    ensures
        yes == running(outcome),
{
    match outcome {
        Ok(found) => found.reachable && found.service_running,
        Err(_) => false,
    }
}

/// Maps the latest outcomes of a target to the state to show. The result
/// depends on the two arguments alone.
pub fn project(primary: Outcome, fallback: Option<Outcome>) -> (state: VisualState)
    ensures
        state == projection(primary, fallback),
{
    if has_answered(primary) {
        if is_running(primary) {
            VisualState::Online
        } else {
            VisualState::Degraded
        }
    } else {
        match fallback {
            Some(second) => {
                if !has_answered(second) {
                    VisualState::Unreachable
                } else if is_running(second) {
                    VisualState::OnlineViaFallback
                } else {
                    VisualState::DegradedViaFallback
                }
            },
            None => VisualState::Unreachable,
        }
    }
}

/// A visual state is exactly one of the six variants.
pub proof fn lemma_exactly_one_variant(state: VisualState)
    ensures
        (if state is Loading { 1int } else { 0 })
            + (if state is Online { 1int } else { 0 })
            + (if state is Degraded { 1int } else { 0 })
            + (if state is OnlineViaFallback { 1int } else { 0 })
            + (if state is DegradedViaFallback { 1int } else { 0 })
            + (if state is Unreachable { 1int } else { 0 }) == 1,
{
}

/// Equal outcomes are shown alike: the projection has no memory.
pub proof fn lemma_projection_is_a_function(
    primary: Outcome,
    fallback: Option<Outcome>,
    primary_again: Outcome,
    fallback_again: Option<Outcome>,
)
    requires
        primary == primary_again,
        fallback == fallback_again,
    ensures
        projection(primary, fallback) == projection(primary_again, fallback_again),
{
}

/// Where the primary address answered, the fallback has no say.
pub proof fn lemma_fallback_ignored_when_primary_answers(
    primary: Outcome,
    fallback: Option<Outcome>,
    other_fallback: Option<Outcome>,
)
    requires
        answered(primary),
    ensures
        projection(primary, fallback) == projection(primary, other_fallback),
        projection(primary, fallback) == if running(primary) {
            VisualState::Online
        } else {
            VisualState::Degraded
        },
{
}

/// Each state is shown for exactly one situation, and `Loading` for none.
pub proof fn lemma_projection_cases(primary: Outcome, fallback: Option<Outcome>)
    ensures
        projection(primary, fallback) !is Loading,
        projection(primary, fallback) is Online <==> running(primary),
        projection(primary, fallback) is Degraded <==> answered(primary) && !running(primary),
        projection(primary, fallback) is OnlineViaFallback <==> !answered(primary)
            && fallback is Some && running(fallback->0),
        projection(primary, fallback) is DegradedViaFallback <==> !answered(primary)
            && fallback is Some && answered(fallback->0) && !running(fallback->0),
        projection(primary, fallback) is Unreachable <==> !answered(primary) && !(fallback is Some
            && answered(fallback->0)),
{
}

/// An unreadable payload from the primary address is shown as `Degraded`,
/// whatever the fallback would say.
pub proof fn lemma_unreadable_primary_is_degraded(fallback: Option<Outcome>)
    ensures
        projection(Err(ProbeError::InvalidResponse), fallback) == VisualState::Degraded,
{
}

} // verus!
