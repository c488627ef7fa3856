use session_signals::config::{
    Config, StateNotify, CURRENT_VERSION, DEFAULT_ALERT_COOLDOWN_SECS,
    DEFAULT_MAX_TRIGGERS, DEFAULT_OBSERVE_RETAIN_DAYS, DEFAULT_PORT, MAX_ALERT_TRIGGERS,
    MIN_ALERT_COOLDOWN_SECS, SOUNDS,
};
use session_signals::ignore::Matcher;

#[test]
fn zero_observe_retain_days_sanitizes_to_default() {
    let mut cfg = Config {
        observe_retain_days: 0,
        ..Config::default()
    };
    cfg = cfg.sanitized();
    assert_eq!(cfg.observe_retain_days, DEFAULT_OBSERVE_RETAIN_DAYS);
}

#[test]
fn propose_threshold_below_floor_is_clamped() {
    for (input, expected) in [(0, 3), (1, 3), (5, 5)] {
        let cfg = Config {
            propose_threshold: input,
            ..Config::default()
        }
        .sanitized();
        assert_eq!(cfg.propose_threshold, expected, "input {input}");
    }
}

#[test]
fn cooldown_secs_floor_applies_only_to_nonzero() {
    for (input, expected) in [
        (0, 0),
        (1, MIN_ALERT_COOLDOWN_SECS),
        (9, MIN_ALERT_COOLDOWN_SECS),
        (10, 10),
        (300, 300),
    ] {
        let cfg = Config {
            needs_you: StateNotify {
                cooldown_secs: input,
                ..StateNotify::default()
            },
            ..Config::default()
        }
        .sanitized();
        assert_eq!(cfg.needs_you.cooldown_secs, expected, "input {input}");
    }
}

#[test]
fn max_triggers_clamps_into_range() {
    for (input, expected) in [
        (0, 1),
        (1, 1),
        (3, 3),
        (MAX_ALERT_TRIGGERS, MAX_ALERT_TRIGGERS),
        (9_999, MAX_ALERT_TRIGGERS),
    ] {
        let cfg = Config {
            waiting_review: StateNotify {
                max_triggers: input,
                ..StateNotify::default()
            },
            ..Config::default()
        }
        .sanitized();
        assert_eq!(cfg.waiting_review.max_triggers, expected, "input {input}");
    }
}

#[test]
fn alert_defaults_are_uniform_across_states() {
    let cfg = Config::default();
    for pref in [
        &cfg.needs_you,
        &cfg.working,
        &cfg.ready,
        &cfg.waiting_review,
    ] {
        assert_eq!(pref.cooldown_secs, DEFAULT_ALERT_COOLDOWN_SECS);
        assert_eq!(pref.max_triggers, DEFAULT_MAX_TRIGGERS);
        assert!(!pref.cli_enabled);
    }
    // ...while the switch of each state stays its own.
    assert!(cfg.needs_you.enabled);
    assert!(!cfg.working.enabled);
}

#[test]
fn a_fresh_installation_hides_nothing() {
    let cfg = Config::default();
    assert!(cfg.ignore_rules.is_empty());
    assert!(cfg.never_hide.is_empty());
    assert!(cfg.markers.is_empty());
    assert!(cfg.observe_enabled);
    assert_eq!(cfg.theme, "classic");
    assert_eq!(cfg.ready.sound_name, "Glass");
    assert!(cfg.waiting_review.enabled);
    assert!(!cfg.waiting_review.sound);
}

#[test]
fn privileged_ports_fall_back() {
    for (input, expected) in [(0, DEFAULT_PORT), (1023, DEFAULT_PORT), (1024, 1024), (65535, 65535)] {
        let cfg = Config {
            port: input,
            ..Config::default()
        }
        .sanitized();
        assert_eq!(cfg.port, expected, "input {input}");
    }
}

#[test]
fn the_drop_window_is_never_shorter_than_the_stale_timeout() {
    for (stale, drop, stale_after, drop_after) in
        [(0, 0, 10, 10), (30, 20, 30, 30), (5, 60, 5, 60), (0, 60, 10, 60)]
    {
        let cfg = Config {
            stale_timeout_min: stale,
            idle_drop_min: drop,
            ..Config::default()
        }
        .sanitized();
        assert_eq!(cfg.stale_timeout_min, stale_after);
        assert_eq!(cfg.idle_drop_min, drop_after);
    }
}

#[test]
fn a_blank_theme_becomes_classic() {
    for (input, expected) in [
        ("", "classic"),
        (" \t\n", "classic"),
        ("\u{3000}", "classic"),
        ("dusk", "dusk"),
        (" dusk ", " dusk "),
    ] {
        let cfg = Config {
            theme: input.to_string(),
            ..Config::default()
        }
        .sanitized();
        assert_eq!(cfg.theme, expected);
    }
}

#[test]
fn sanitizing_stamps_the_version_and_keeps_rules() {
    let rules = vec![Matcher::CwdContains {
        value: "scratch".to_string(),
    }];
    let cfg = Config {
        version: 0,
        ignore_rules: rules.clone(),
        ..Config::default()
    }
    .sanitized();
    assert_eq!(cfg.version, CURRENT_VERSION);
    assert_eq!(cfg.ignore_rules, rules);
    let again = cfg.clone().sanitized();
    assert_eq!(again.port, cfg.port);
    assert_eq!(again.theme, cfg.theme);
    assert_eq!(again.idle_drop_min, cfg.idle_drop_min);
}

#[test]
fn the_sounds_are_six() {
    assert_eq!(
        SOUNDS,
        ["Ping", "Glass", "Submarine", "Funk", "Pop", "Hero"]
    );
}
