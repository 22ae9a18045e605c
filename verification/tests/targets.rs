use rbar::policy::{Flight, Stage, Tracker};
use rbar::state::VisualState;
use rbar::target::{find_separator, parse_targets, ConfigError, Target};

fn list(entries: &[&str]) -> Vec<String> {
    entries.iter().map(|entry| entry.to_string()).collect()
}

#[test]
fn entry_with_fallback() {
    let target = Target::parse("alpha:10.0.0.1", true).unwrap();
    assert_eq!(target.primary_address(), "alpha");
    assert_eq!(target.fallback_address(), Some("10.0.0.1"));
    assert_eq!(target.display_name(), "alpha");
    assert_eq!(target.state(), VisualState::Loading);
}

#[test]
fn entry_without_fallback_where_none_is_asked() {
    let target = Target::parse("alpha", false).unwrap();
    assert_eq!(target.primary_address(), "alpha");
    assert_eq!(target.fallback_address(), None);
}

#[test]
fn entry_without_separator_is_refused_where_fallback_is_asked() {
    assert!(Target::parse("alpha", true).is_none());
    assert!(Target::parse("", true).is_none());
}

#[test]
fn entry_with_fallback_is_read_alike_with_or_without_the_demand() {
    let asked = Target::parse("alpha:beta", true).unwrap();
    let free = Target::parse("alpha:beta", false).unwrap();
    assert_eq!(asked.primary_address(), free.primary_address());
    assert_eq!(asked.fallback_address(), free.fallback_address());
}

#[test]
fn first_colon_ends_the_hostname() {
    let target = Target::parse("alpha:fe80::1", true).unwrap();
    assert_eq!(target.primary_address(), "alpha");
    assert_eq!(target.fallback_address(), Some("fe80::1"));
}

#[test]
fn empty_parts_are_kept() {
    let no_name = Target::parse(":10.0.0.1", true).unwrap();
    assert_eq!(no_name.primary_address(), "");
    assert_eq!(no_name.fallback_address(), Some("10.0.0.1"));
    let no_fallback = Target::parse("alpha:", true).unwrap();
    assert_eq!(no_fallback.primary_address(), "alpha");
    assert_eq!(no_fallback.fallback_address(), Some(""));
    let only_colon = Target::parse(":", true).unwrap();
    assert_eq!(only_colon.primary_address(), "");
    assert_eq!(only_colon.fallback_address(), Some(""));
    let empty = Target::parse("", false).unwrap();
    assert_eq!(empty.primary_address(), "");
    assert_eq!(empty.fallback_address(), None);
}

#[test]
fn characters_of_several_bytes_are_counted_as_one() {
    let target = Target::parse("höst→a:wörld", true).unwrap();
    assert_eq!(target.primary_address(), "höst→a");
    assert_eq!(target.fallback_address(), Some("wörld"));
    assert_eq!(find_separator("höst→a:wörld"), Some(6));
}

#[test]
fn separator_is_found_by_place() {
    assert_eq!(find_separator("alpha:beta"), Some(5));
    assert_eq!(find_separator(":x"), Some(0));
    assert_eq!(find_separator("a::b"), Some(1));
    assert_eq!(find_separator("alpha"), None);
    assert_eq!(find_separator(""), None);
}

#[test]
fn new_target_settles_and_shows_loading() {
    let target = Target::new("alpha".to_string(), Some("beta".to_string()));
    assert_eq!(target.primary_address(), "alpha");
    assert_eq!(target.fallback_address(), Some("beta"));
    assert_eq!(target.state(), VisualState::Loading);
    assert_eq!(
        target.tracker(),
        Tracker {
            stage: Stage::Settling { failed: 0 },
            flight: Flight::Idle,
            state: VisualState::Loading,
        }
    );
    assert_eq!(target.tracker(), Tracker::new());
}

#[test]
fn empty_list_is_a_configuration_error() {
    assert_eq!(parse_targets(&list(&[]), true).err(), Some(ConfigError::NoTargets));
    assert_eq!(parse_targets(&list(&[]), false).err(), Some(ConfigError::NoTargets));
}

#[test]
fn first_entry_without_separator_is_reported() {
    let inputs = list(&["alpha:1", "beta", "gamma:3", "delta"]);
    assert_eq!(
        parse_targets(&inputs, true).err(),
        Some(ConfigError::MissingSeparator { entry: 1 })
    );
    let inputs = list(&["alpha"]);
    assert_eq!(
        parse_targets(&inputs, true).err(),
        Some(ConfigError::MissingSeparator { entry: 0 })
    );
}

#[test]
fn list_is_read_in_order() {
    let inputs = list(&["alpha:1", "beta:2", "gamma:3"]);
    let targets = parse_targets(&inputs, true).unwrap();
    assert_eq!(targets.len(), 3);
    assert_eq!(targets[0].primary_address(), "alpha");
    assert_eq!(targets[0].fallback_address(), Some("1"));
    assert_eq!(targets[1].primary_address(), "beta");
    assert_eq!(targets[1].fallback_address(), Some("2"));
    assert_eq!(targets[2].primary_address(), "gamma");
    assert_eq!(targets[2].fallback_address(), Some("3"));
    for target in &targets {
        assert_eq!(target.state(), VisualState::Loading);
    }
}

#[test]
fn list_may_mix_forms_where_no_fallback_is_asked() {
    let inputs = list(&["alpha", "beta:2"]);
    let targets = parse_targets(&inputs, false).unwrap();
    assert_eq!(targets.len(), 2);
    assert_eq!(targets[0].fallback_address(), None);
    assert_eq!(targets[1].fallback_address(), Some("2"));
}

#[test]
fn duplicate_entries_give_duplicate_targets() {
    let inputs = list(&["alpha:1", "alpha:1"]);
    let targets = parse_targets(&inputs, true).unwrap();
    assert_eq!(targets.len(), 2);
    assert_eq!(targets[0].primary_address(), targets[1].primary_address());
}
