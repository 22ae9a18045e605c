use rbar::monitor::Monitor;
use rbar::policy::{Action, Event, PollPolicy};
use rbar::probe::{interpret, status_url, Info, Reply};
use rbar::state::VisualState;
use rbar::target::{parse_targets, ConfigError};

/// What a scripted endpoint does with one request.
#[derive(Clone, Copy)]
enum Scripted {
    Silent,
    Garbled,
    Status(&'static str),
}

/// A network that answers from a script and keeps a log of what was asked.
struct Net {
    script: Vec<(String, Vec<Scripted>)>,
    asked: Vec<String>,
}

impl Net {
    fn new() -> Net {
        Net { script: Vec::new(), asked: Vec::new() }
    }

    /// Lets the health endpoint of `address` give these replies in order;
    /// the last one is repeated.
    fn endpoint(mut self, address: &str, replies: &[Scripted]) -> Net {
        self.script.push((status_url(address), replies.to_vec()));
        self
    }

    fn get(&mut self, url: &str) -> Reply {
        self.asked.push(url.to_string());
        let scripted = match self.script.iter_mut().find(|(known, _)| known == url) {
            Some((_, replies)) if replies.len() > 1 => replies.remove(0),
            Some((_, replies)) => replies[0],
            None => Scripted::Silent,
        };
        match scripted {
            Scripted::Silent => Reply::Silent,
            Scripted::Garbled => Reply::Unreadable,
            Scripted::Status(status) => Reply::Payload(Info { status: status.to_string() }),
        }
    }
}

/// The driver of the monitor, with the waits written down rather than
/// slept.
struct Driver {
    monitor: Monitor,
    net: Net,
    waited: Vec<u32>,
    shown: Vec<(usize, VisualState)>,
}

impl Driver {
    fn new(entries: &[&str], fallback_required: bool, net: Net) -> Driver {
        let inputs: Vec<String> = entries.iter().map(|entry| entry.to_string()).collect();
        let targets = parse_targets(&inputs, fallback_required).unwrap();
        Driver {
            monitor: Monitor::start(targets, PollPolicy::default()),
            net,
            waited: Vec::new(),
            shown: Vec::new(),
        }
    }

    fn address(&self, index: usize, fallback: bool) -> String {
        let target = self.monitor.target(index).unwrap();
        if fallback {
            target.fallback_address().unwrap().to_string()
        } else {
            target.primary_address().to_string()
        }
    }

    fn report(&mut self, index: usize, event: Event) -> Action {
        let reaction = self.monitor.handle(index, event);
        if let Some(state) = reaction.shown {
            self.shown.push((index, state));
        }
        reaction.action
    }

    fn drive(&mut self, index: usize, mut action: Action) {
        loop {
            let event = match action {
                Action::Rest => return,
                Action::ProbePrimary => {
                    let url = status_url(&self.address(index, false));
                    Event::Primary(interpret(&self.net.get(&url)))
                }
                Action::ProbeFallback => {
                    let url = status_url(&self.address(index, true));
                    Event::Fallback(interpret(&self.net.get(&url)))
                }
                Action::RetryAfter(secs) => {
                    self.waited.push(secs);
                    Event::SettleDue
                }
            };
            action = self.report(index, event);
        }
    }

    fn settle(&mut self, index: usize) {
        let action = self.report(index, Event::SettleDue);
        self.drive(index, action);
    }

    fn tick(&mut self) {
        for index in self.monitor.tick() {
            self.drive(index, Action::ProbePrimary);
        }
    }

    fn state(&self, index: usize) -> VisualState {
        self.monitor.current_state(index).unwrap()
    }
}

#[test]
fn dead_primary_without_fallback_is_unreachable_after_the_settling_budget() {
    let mut driver = Driver::new(&["alpha"], false, Net::new());
    assert_eq!(driver.state(0), VisualState::Loading);
    driver.settle(0);
    assert_eq!(driver.net.asked, vec!["http://alpha:8114/status"; 6]);
    assert_eq!(driver.waited, vec![5; 5]);
    assert!(driver.waited.iter().sum::<u32>() <= 6 * 5);
    assert_eq!(driver.state(0), VisualState::Unreachable);
    assert_eq!(driver.shown, vec![(0, VisualState::Unreachable)]);

    // Nothing more happens until the tick.
    driver.settle(0);
    assert_eq!(driver.net.asked.len(), 6);
    driver.tick();
    assert_eq!(driver.net.asked.len(), 7);
    assert_eq!(driver.waited.len(), 5);
    assert_eq!(driver.state(0), VisualState::Unreachable);
}

#[test]
fn primary_that_answers_on_the_third_attempt_is_online() {
    let net = Net::new().endpoint(
        "alpha",
        &[Scripted::Silent, Scripted::Silent, Scripted::Status("running")],
    );
    let mut driver = Driver::new(&["alpha"], false, net);
    driver.settle(0);
    assert_eq!(driver.net.asked.len(), 3);
    assert_eq!(driver.waited, vec![5, 5]);
    assert_eq!(driver.shown, vec![(0, VisualState::Online)]);
    assert_eq!(driver.state(0), VisualState::Online);
    driver.settle(0);
    assert_eq!(driver.net.asked.len(), 3);
}

#[test]
fn running_fallback_of_a_dead_primary_is_online_via_fallback() {
    let net = Net::new().endpoint("10.0.0.1", &[Scripted::Status("running")]);
    let mut driver = Driver::new(&["alpha:10.0.0.1"], true, net);
    driver.settle(0);
    assert_eq!(driver.state(0), VisualState::OnlineViaFallback);
    assert_eq!(
        driver.net.asked,
        vec!["http://alpha:8114/status", "http://10.0.0.1:8114/status"]
    );
    assert!(driver.waited.is_empty());
}

#[test]
fn stopped_fallback_of_a_dead_primary_is_degraded_via_fallback() {
    let net = Net::new().endpoint("10.0.0.1", &[Scripted::Status("stopped")]);
    let mut driver = Driver::new(&["alpha:10.0.0.1"], true, net);
    driver.settle(0);
    assert_eq!(driver.state(0), VisualState::DegradedViaFallback);
}

#[test]
fn stopped_primary_is_degraded_and_the_fallback_is_never_asked() {
    let net = Net::new()
        .endpoint("alpha", &[Scripted::Status("stopped")])
        .endpoint("10.0.0.1", &[Scripted::Status("running")]);
    let mut driver = Driver::new(&["alpha:10.0.0.1"], true, net);
    driver.settle(0);
    driver.tick();
    driver.tick();
    assert_eq!(driver.state(0), VisualState::Degraded);
    assert_eq!(driver.net.asked, vec!["http://alpha:8114/status"; 3]);
}

#[test]
fn garbled_body_of_the_primary_is_degraded() {
    let net = Net::new()
        .endpoint("alpha", &[Scripted::Garbled])
        .endpoint("10.0.0.1", &[Scripted::Status("running")]);
    let mut driver = Driver::new(&["alpha:10.0.0.1"], true, net);
    driver.settle(0);
    assert_eq!(driver.state(0), VisualState::Degraded);
    assert_eq!(driver.net.asked, vec!["http://alpha:8114/status"]);
}

#[test]
fn dead_target_beside_a_live_one() {
    let net = Net::new().endpoint("beta", &[Scripted::Status("running")]);
    let mut driver = Driver::new(&["alpha", "beta"], false, net);
    driver.settle(1);
    assert_eq!(driver.state(1), VisualState::Online);
    driver.settle(0);
    assert_eq!(driver.state(0), VisualState::Unreachable);
    assert_eq!(driver.state(1), VisualState::Online);
    assert_eq!(driver.shown, vec![(1, VisualState::Online), (0, VisualState::Unreachable)]);
}

#[test]
fn steady_target_follows_its_endpoint() {
    let net = Net::new()
        .endpoint(
            "alpha",
            &[
                Scripted::Status("running"),
                Scripted::Status("stopped"),
                Scripted::Silent,
                Scripted::Silent,
                Scripted::Status("running"),
            ],
        )
        .endpoint("10.0.0.1", &[Scripted::Status("running"), Scripted::Silent]);
    let mut driver = Driver::new(&["alpha:10.0.0.1"], true, net);
    driver.settle(0);
    for _ in 0..4 {
        driver.tick();
    }
    let states: Vec<VisualState> = driver.shown.iter().map(|(_, state)| *state).collect();
    assert_eq!(
        states,
        vec![
            VisualState::Online,
            VisualState::Degraded,
            VisualState::OnlineViaFallback,
            VisualState::Unreachable,
            VisualState::Online,
        ]
    );
    assert!(driver.waited.is_empty());
}

#[test]
fn configuration_errors_have_their_message() {
    assert_eq!(ConfigError::NoTargets.message(), "No arguments provided");
    assert_eq!(
        ConfigError::MissingSeparator { entry: 3 }.message(),
        "Malformed input, should be hostname:ip"
    );
    let none: Vec<String> = Vec::new();
    assert_eq!(parse_targets(&none, true).err().unwrap().message(), "No arguments provided");
}
