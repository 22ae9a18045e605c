//! How a state is drawn: the colours of the two indicators beside a name,
//! or the text and class of a single label.

use vstd::prelude::*;
use vstd::string::StringExecFns;
use crate::state::VisualState;

verus! {

/// The colour of an indicator.
#[derive(Clone, Copy, Debug, PartialEq, Eq, Structural)]
pub enum Colour {
    Grey,
    Green,
    Orange,
    Red,
}

/// The renderer's side of the monitor.
pub struct Ui;

/// The colour of the connection indicator: green where the primary address
/// answered, orange where only the fallback did, red where neither did, and
/// grey while nothing is known.
pub open spec fn connection_colour(state: VisualState) -> Colour {
    match state {
        VisualState::Loading => Colour::Grey,
        VisualState::Online | VisualState::Degraded => Colour::Green,
        VisualState::OnlineViaFallback | VisualState::DegradedViaFallback => Colour::Orange,
        VisualState::Unreachable => Colour::Red,
    }
}

/// The colour of the status indicator: green where the service runs, orange
/// where an answer said otherwise, red where there was no answer, and grey
/// while nothing is known.
pub open spec fn status_colour(state: VisualState) -> Colour {
    match state {
        VisualState::Loading => Colour::Grey,
        VisualState::Online | VisualState::OnlineViaFallback => Colour::Green,
        VisualState::Degraded | VisualState::DegradedViaFallback => Colour::Orange,
        VisualState::Unreachable => Colour::Red,
    }
}

/// The style class of a colour.
pub open spec fn class_of(colour: Colour) -> Seq<char> {
    match colour {
        Colour::Grey => "grey"@,
        Colour::Green => "green"@,
        Colour::Orange => "orange"@,
        Colour::Red => "red"@,
    }
}

/// The style class of a label that carries the state by itself.
pub open spec fn label_class_of(state: VisualState) -> Seq<char> {
    match state {
        VisualState::Loading => "hostname-loading"@,
        VisualState::Online | VisualState::OnlineViaFallback => "hostname-running"@,
        VisualState::Degraded | VisualState::DegradedViaFallback => "hostname-failed"@,
        VisualState::Unreachable => "hostname-unreachable"@,
    }
}

/// The text of a label that carries the state by itself: nothing while all
/// is well or nothing is known, the name where something is wrong, and the
/// name with a mark where the fallback stands in.
pub open spec fn label_text_of(name: Seq<char>, state: VisualState) -> Seq<char> {
    match state {
        VisualState::Loading | VisualState::Online => Seq::empty(),
        VisualState::Degraded | VisualState::Unreachable => name,
        VisualState::OnlineViaFallback | VisualState::DegradedViaFallback => name + "-LOCAL"@,
    }
}

impl Colour {
    /// The style class that draws the colour.
    pub fn css_class(self) -> (class: &'static str)
        ensures
            class@ == class_of(self),
    {
        match self {
            Colour::Grey => "grey",
            Colour::Green => "green",
            Colour::Orange => "orange",
            Colour::Red => "red",
        }
    }
}

impl Ui {
    /// The colour of the connection indicator for a state.
    pub fn connection(state: VisualState) -> (colour: Colour)
        ensures
            colour == connection_colour(state),
    {
        match state {
            VisualState::Loading => Colour::Grey,
            VisualState::Online | VisualState::Degraded => Colour::Green,
            VisualState::OnlineViaFallback | VisualState::DegradedViaFallback => Colour::Orange,
            VisualState::Unreachable => Colour::Red,
        }
    }

    /// The colour of the status indicator for a state.
    pub fn status(state: VisualState) -> (colour: Colour)
        ensures
            colour == status_colour(state),
    {
        match state {
            VisualState::Loading => Colour::Grey,
            VisualState::Online | VisualState::OnlineViaFallback => Colour::Green,
            VisualState::Degraded | VisualState::DegradedViaFallback => Colour::Orange,
            VisualState::Unreachable => Colour::Red,
        }
    }

    /// The style class of a single label for a state.
    pub fn label_class(state: VisualState) -> (class: &'static str)
        ensures
            class@ == label_class_of(state),
    {
        match state {
            VisualState::Loading => "hostname-loading",
            VisualState::Online | VisualState::OnlineViaFallback => "hostname-running",
            VisualState::Degraded | VisualState::DegradedViaFallback => "hostname-failed",
            VisualState::Unreachable => "hostname-unreachable",
        }
    }

    /// The text of a single label for a target of that name in that state.
    pub fn label_text(name: &str, state: VisualState) -> (text: String)
        ensures
            text@ == label_text_of(name@, state),
    {
        match state {
            VisualState::Loading | VisualState::Online => String::new(),
            VisualState::Degraded | VisualState::Unreachable => name.to_owned(),
            VisualState::OnlineViaFallback | VisualState::DegradedViaFallback => {
                let mut text = name.to_owned();
                text.append("-LOCAL");
                text
            },
        }
    }
}

/// The two indicators together tell every state from every other.
pub proof fn lemma_colours_tell_states_apart(one: VisualState, other: VisualState)
    requires
        connection_colour(one) == connection_colour(other),
        status_colour(one) == status_colour(other),
    ensures
        one == other,
{
}

} // verus!
