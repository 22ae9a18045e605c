//! The targets of the monitor and the input that names them.
//!
//! A target is written as `hostname` or as `hostname:fallback-address`. The
//! first colon ends the hostname; what follows it, colons included, is the
//! fallback address.

use vstd::prelude::*;
use vstd::std_specs::iter::IteratorSpec;
use vstd::string::StrSliceExecFns;
use crate::policy::{advance, step, Action, Event, PollPolicy, Tracker};
use crate::state::VisualState;

verus! {

/// What is wrong with the list of targets that the monitor was started with.
#[derive(Clone, Copy, Debug, PartialEq, Eq, Structural)]
pub enum ConfigError {
    /// The list names no target.
    NoTargets,
    /// The entry at this place of the list has no colon, and a fallback
    /// address is asked of every entry.
    MissingSeparator { entry: usize },
}

/// What the operator is told of a list without targets.
pub open spec fn no_targets_message() -> Seq<char> {
    "No arguments provided"@
}

/// What the operator is told of an entry without separator.
pub open spec fn missing_separator_message() -> Seq<char> {
    "Malformed input, should be hostname:ip"@
}

impl ConfigError {
    /// The line that tells the operator what is wrong.
    pub fn message(&self) -> (text: &'static str)
        ensures
            text@ == match *self {
                ConfigError::NoTargets => no_targets_message(),
                ConfigError::MissingSeparator { .. } => missing_separator_message(),
            },
    {
        match self {
            ConfigError::NoTargets => "No arguments provided",
            ConfigError::MissingSeparator { .. } => "Malformed input, should be hostname:ip",
        }
    }
}

/// One monitored endpoint: where it is probed and what is known of it.
pub struct Target {
    primary: String,
    fallback: Option<String>,
    tracker: Tracker,
}

/// A target as contracts see it.
pub struct TargetView {
    /// The hostname that is probed first and that names the target.
    pub primary: Seq<char>,
    /// The address that is probed where the primary one is silent.
    pub fallback: Option<Seq<char>>,
    /// The phase of the target, its probe under way, and the state shown.
    pub tracker: Tracker,
}

impl View for Target {
    type V = TargetView;

    closed spec fn view(&self) -> TargetView {
        TargetView {
            primary: self.primary@,
            fallback: match self.fallback {
                Some(address) => Some(address@),
                None => None,
            },
            tracker: self.tracker,
        }
    }
}

impl TargetView {
    /// The target after one event: its addresses stay, and its tracker moves
    /// as the policy says.
    pub open spec fn after(self, policy: PollPolicy, event: Event) -> TargetView {
        TargetView {
            tracker: step(self.tracker, self.fallback is Some, policy, event).0,
            ..self
        }
    }

    /// What the policy asks for when the event reaches the target.
    pub open spec fn asks(self, policy: PollPolicy, event: Event) -> Action {
        step(self.tracker, self.fallback is Some, policy, event).1
    }
}

/// `at` is the place of the first colon in `text`.
pub open spec fn splits_at(text: Seq<char>, at: int) -> bool {
    &&& 0 <= at < text.len()
    &&& text[at] == ':'
    &&& forall|i: int| 0 <= i < at ==> text[i] != ':'
}

/// The entry lacks the colon that is asked of it.
pub open spec fn malformed(text: Seq<char>, fallback_required: bool) -> bool {
    fallback_required && !text.contains(':')
}

/// The target that an entry names, just created, where there is one.
pub open spec fn parsed(text: Seq<char>, fallback_required: bool) -> Option<TargetView> {
    if text.contains(':') {
        let at = choose|at: int| splits_at(text, at);
        Some(
            TargetView {
                primary: text.subrange(0, at),
                fallback: Some(text.subrange(at + 1, text.len() as int)),
                tracker: Tracker::fresh(),
            },
        )
    } else if fallback_required {
        None
    } else {
        Some(TargetView { primary: text, fallback: None, tracker: Tracker::fresh() })
    }
}

/// A text has at most one first colon, and has one where it has a colon.
pub proof fn lemma_first_colon(text: Seq<char>, at: int)
    requires
        splits_at(text, at),
    ensures
        text.contains(':'),
        (choose|other: int| splits_at(text, other)) == at,
{
    assert(text[at] == ':');
    let other = choose|other: int| splits_at(text, other);
    assert(splits_at(text, other));
    if other < at {
        assert(text[other] != ':');
    }
    if at < other {
        assert(text[at] != ':');
    }
}

/// Finds the first colon of `text`, counting in characters.
pub fn find_separator(text: &str) -> (place: Option<usize>)
    ensures
        match place {
            Some(at) => splits_at(text@, at as int),
            None => !text@.contains(':'),
        },
{
    broadcast use vstd::string::group_string_axioms;

    let count = text.unicode_len();
    let mut chars = text.chars();
    let mut at: usize = 0;
    loop
        invariant
            at <= count,
            count == text@.len(),
            chars.obeys_prophetic_iter_laws(),
            chars.remaining() == text@.skip(at as int),
            forall|i: int| 0 <= i < at ==> text@[i] != ':',
        decreases count - at,
    {
        match chars.next() {
            Some(c) => {
                if c == ':' {
                    return Some(at);
                }
                at = at + 1;
            },
            None => {
                return None;
            },
        }
    }
}

impl Target {
    /// A target that was just created: it settles, nothing is under way, and
    /// `Loading` is shown.
    pub fn new(primary: String, fallback: Option<String>) -> (target: Target)
        ensures
            target@ == (TargetView {
                primary: primary@,
                fallback: match fallback {
                    Some(address) => Some(address@),
                    None => None,
                },
                tracker: Tracker::fresh(),
            }),
    {
        Target { primary, fallback, tracker: Tracker::new() }
    }

    /// Reads one entry of the input list. An entry without a colon names a
    /// target without fallback, and is refused where `fallback_required`.
    pub fn parse(input: &str, fallback_required: bool) -> (target: Option<Target>)
        ensures
            target is None <==> malformed(input@, fallback_required),
            match target {
                Some(found) => parsed(input@, fallback_required) == Some(found@),
                None => parsed(input@, fallback_required) is None,
            },
    {
        match find_separator(input) {
            Some(at) => {
                proof {
                    lemma_first_colon(input@, at as int);
                }
                let count = input.unicode_len();
                let primary = input.substring_char(0, at).to_owned();
                let fallback = input.substring_char(at + 1, count).to_owned();
                Some(Target::new(primary, Some(fallback)))
            },
            None => {
                if fallback_required {
                    None
                } else {
                    Some(Target::new(input.to_owned(), None))
                }
            },
        }
    }

    /// The hostname that is probed first.
    pub fn primary_address(&self) -> (address: &str)
        ensures
            address@ == self@.primary,
    {
        self.primary.as_str()
    }

    /// The address that is probed where the primary one is silent.
    pub fn fallback_address(&self) -> (address: Option<&str>)
        ensures
            match address {
                Some(found) => self@.fallback == Some(found@),
                None => self@.fallback is None,
            },
    {
        match &self.fallback {
            Some(address) => Some(address.as_str()),
            None => None,
        }
    }

    /// The name under which the target is shown: its hostname.
    pub fn display_name(&self) -> (name: &str)
        ensures
            name@ == self@.primary,
    {
        self.primary.as_str()
    }

    /// The state to show for the target.
    pub fn state(&self) -> (state: VisualState)
        ensures
            state == self@.tracker.state,
    {
        self.tracker.state
    }

    /// What the policy keeps for the target.
    pub fn tracker(&self) -> (tracker: Tracker)
        ensures
            tracker == self@.tracker,
    {
        self.tracker
    }

    /// Takes one event for the target. The addresses stay as they are; the
    /// tracker moves as the policy says, and the action is the policy's.
    pub fn handle(&mut self, policy: &PollPolicy, event: Event) -> (action: Action)
        ensures
            final(self)@ == old(self)@.after(*policy, event),
            action == old(self)@.asks(*policy, event),
    {
        let (tracker, action) = advance(self.tracker, self.fallback.is_some(), policy, event);
        self.tracker = tracker;
        action
    }
}

/// Reads the input list. The list must name a target, and where
/// `fallback_required` every entry must hold a colon; the first entry that
/// does not is reported.
pub fn parse_targets(inputs: &Vec<String>, fallback_required: bool) -> (targets: Result<
    Vec<Target>,
    ConfigError,
>)
    ensures
        match targets {
            Ok(found) => {
                &&& inputs.len() > 0
                &&& found.len() == inputs.len()
                &&& forall|i: int|
                    0 <= i < inputs.len() ==> parsed(#[trigger] inputs[i]@, fallback_required)
                        == Some(found[i]@)
            },
            Err(ConfigError::NoTargets) => inputs.len() == 0,
            Err(ConfigError::MissingSeparator { entry }) => {
                &&& entry < inputs.len()
                &&& malformed(inputs[entry as int]@, fallback_required)
                &&& forall|i: int|
                    0 <= i < entry ==> !malformed(#[trigger] inputs[i]@, fallback_required)
            },
        },
{
    if inputs.len() == 0 {
        return Err(ConfigError::NoTargets);
    }
    let mut found: Vec<Target> = Vec::new();
    let mut entry: usize = 0;
    while entry < inputs.len()
        invariant
            entry <= inputs.len(),
            found.len() == entry,
            forall|i: int|
                0 <= i < entry ==> parsed(#[trigger] inputs[i]@, fallback_required) == Some(
                    found[i]@,
                ),
            forall|i: int| 0 <= i < entry ==> !malformed(#[trigger] inputs[i]@, fallback_required),
        decreases inputs.len() - entry,
    {
        match Target::parse(inputs[entry].as_str(), fallback_required) {
            Some(target) => {
                found.push(target);
            },
            None => {
                return Err(ConfigError::MissingSeparator { entry });
            },
        }
        entry = entry + 1;
    }
    Ok(found)
}

} // verus!
