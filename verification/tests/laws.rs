use session_signals::alert::{AlertPolicies, AlertPolicy};
use session_signals::engine::Engine;
use session_signals::event::{is_blocking_tool, signal_of, HookEvent, Signal};
use session_signals::ignore::{IgnoreRules, Matcher};
use session_signals::session::{CapturedTerminal, Rollup, State};
use session_signals::time::{Duration, Instant};

fn engine() -> Engine {
    Engine::new(Duration::from_secs(600), Duration::from_secs(3600))
}

fn ev(name: &str, id: &str) -> HookEvent {
    HookEvent {
        hook_event_name: name.to_string(),
        session_id: id.to_string(),
        cwd: "/tmp/proj".to_string(),
        ..Default::default()
    }
}

fn sub(name: &str, id: &str) -> HookEvent {
    HookEvent {
        agent_id: Some("agent".to_string()),
        ..ev(name, id)
    }
}

fn notice(id: &str, kind: &str) -> HookEvent {
    HookEvent {
        notification_type: Some(kind.to_string()),
        ..ev("Notification", id)
    }
}

fn at(secs: u64) -> Instant {
    Instant {
        nanos: secs * 1_000_000_000,
    }
}

fn state(e: &Engine, id: &str) -> Option<State> {
    e.session(id).map(|s| s.state)
}

#[test]
fn events_ask_for_what_their_names_say() {
    let cases = [
        ("SessionStart", Signal::Start, Signal::Beat),
        ("UserPromptSubmit", Signal::Enter(State::Working), Signal::Beat),
        ("UserPromptExpansion", Signal::Enter(State::Working), Signal::Beat),
        ("PreCompact", Signal::Enter(State::Working), Signal::Beat),
        ("PreToolUse", Signal::Enter(State::Working), Signal::Beat),
        ("PostToolUse", Signal::Beat, Signal::Beat),
        ("PostToolUseFailure", Signal::Beat, Signal::Beat),
        ("PostToolBatch", Signal::Beat, Signal::Beat),
        ("Stop", Signal::Finish, Signal::Beat),
        ("StopFailure", Signal::Finish, Signal::Beat),
        ("PostCompact", Signal::Finish, Signal::Beat),
        ("SubagentStart", Signal::Spawn, Signal::Spawn),
        ("SubagentStop", Signal::Release, Signal::Release),
        ("BeaconTerminal", Signal::Terminal, Signal::Terminal),
        ("SessionEnd", Signal::End, Signal::End),
        ("Notification", Signal::Beat, Signal::Beat),
        ("SomethingNew", Signal::Nothing, Signal::Nothing),
    ];
    for (name, main, subagent) in cases {
        assert_eq!(signal_of(&ev(name, "a")), main, "{name}");
        assert_eq!(signal_of(&sub(name, "a")), subagent, "{name} of a subagent");
    }
    assert_eq!(signal_of(&ev("Stop", "")), Signal::Nothing);
    assert_eq!(signal_of(&ev("SessionEnd", "")), Signal::End);
    assert!(is_blocking_tool(&Some("ExitPlanMode".to_string())));
    assert!(!is_blocking_tool(&Some("exitplanmode".to_string())));
    assert!(!is_blocking_tool(&None));
}

#[test]
fn the_clock_runs() {
    let e = engine();
    let first = e.now();
    let mut later = e.now();
    while later.nanos == first.nanos {
        later = e.now();
    }
    assert!(later.nanos > first.nanos);
}

#[test]
fn an_event_leaves_other_sessions_alone() {
    let mut e = engine();
    e.apply_at(&ev("UserPromptSubmit", "a"), at(1));
    e.apply_at(&ev("SubagentStart", "a"), at(2));
    e.apply_at(&notice("b", "permission_prompt"), at(3));
    e.apply_at(&ev("SessionEnd", "b"), at(4));
    let a = e.session("a").unwrap();
    assert_eq!(a.state, State::Working);
    assert_eq!(a.subagent_count, 1);
    assert_eq!(a.last_seen, at(2));
}

#[test]
fn unknown_events_and_events_without_a_session_change_nothing() {
    let mut e = engine();
    e.apply_at(&ev("UserPromptSubmit", "a"), at(1));
    assert!(!e.apply_at(&ev("SomethingNew", "a"), at(9)).changed);
    assert!(!e.apply_at(&ev("UserPromptSubmit", ""), at(9)).changed);
    assert!(e.session("").is_none());
    assert_eq!(e.session("a").unwrap().last_seen, at(1));
}

#[test]
fn stragglers_are_dropped_for_half_a_minute() {
    let mut e = engine();
    e.apply_at(&ev("SessionStart", "a"), at(0));
    e.apply_at(&ev("SessionEnd", "a"), at(100));
    for name in ["PostToolUse", "SubagentStart", "SubagentStop"] {
        assert!(!e.apply_at(&sub(name, "a"), at(129)).changed, "{name}");
    }
    assert!(e.session("a").is_none());
    let out = e.apply_at(&sub("PostToolUse", "a"), at(130));
    assert!(out.changed);
    assert_eq!(state(&e, "a"), Some(State::Working));
    assert_eq!(out.transition.unwrap().from, None);
}

#[test]
fn a_session_is_greyed_and_then_dropped() {
    let mut e = engine();
    e.apply_at(&ev("UserPromptSubmit", "a"), at(0));
    e.apply_at(&ev("SubagentStart", "a"), at(0));
    assert!(!e.sweep_at(at(599)).changed);
    let out = e.sweep_at(at(600));
    assert!(out.changed);
    assert_eq!(
        out.went_stale,
        vec![("a".to_string(), "proj".to_string())]
    );
    assert_eq!(e.session("a").unwrap().subagent_count, 0);
    assert!(!e.sweep_at(at(600)).changed, "a second sweep settles nothing");
    assert!(!e.sweep_at(at(3599)).changed);
    assert!(e.sweep_at(at(3600)).changed);
    assert!(e.session("a").is_none());
}

#[test]
fn a_sweep_brings_a_session_back_once_the_timeout_is_longer() {
    let mut e = engine();
    e.apply_at(&ev("UserPromptSubmit", "a"), at(0));
    e.sweep_at(at(700));
    assert_eq!(e.rollup(), Rollup::Grey);
    e.set_stale_timeout(Duration::from_secs(900));
    assert!(e.sweep_at(at(800)).changed);
    assert_eq!(e.rollup(), Rollup::Orange);
}

#[test]
fn a_terminal_of_its_own_is_kept() {
    let mut e = engine();
    let told = HookEvent {
        terminal_pid: Some(1),
        terminal_tty: Some("/dev/ttys001".to_string()),
        ..ev("BeaconTerminal", "a")
    };
    e.apply_at(&told, at(0));
    assert_eq!(state(&e, "a"), Some(State::Ready));
    e.seed_capture(
        "a".to_string(),
        CapturedTerminal {
            pid: Some(2),
            app: None,
            tty: None,
        },
    );
    e.apply_at(&ev("UserPromptSubmit", "a"), at(1));
    assert_eq!(e.terminal_pid("a"), Some(1));
    let blank = HookEvent {
        terminal_tty: Some(String::new()),
        terminal_app: Some("kitty".to_string()),
        ..ev("BeaconTerminal", "a")
    };
    e.apply_at(&blank, at(2));
    assert_eq!(
        e.focus_target("a"),
        Some((
            1,
            Some("/dev/ttys001".to_string()),
            Some("kitty".to_string())
        ))
    );
    assert_eq!(state(&e, "a"), Some(State::Working));
}

#[test]
fn a_terminal_without_a_process_is_not_remembered() {
    let mut e = engine();
    e.seed_capture("a".to_string(), CapturedTerminal::default());
    e.apply_at(&ev("SessionStart", "a"), at(0));
    assert_eq!(e.focus_target("a"), None);
}

#[test]
fn a_deferred_finish_waits_for_the_last_subagent() {
    let mut e = engine();
    e.apply_at(&ev("UserPromptSubmit", "a"), at(0));
    e.apply_at(&sub("SubagentStart", "a"), at(1));
    e.set_review_flag_at("a", true, at(1));
    e.apply_at(&ev("StopFailure", "a"), at(2));
    assert!(e.session("a").unwrap().awaiting_subagents);
    let out = e.apply_at(&sub("SubagentStop", "a"), at(3));
    assert_eq!(out.transition.unwrap().to, State::WaitingReview);
    let s = e.session("a").unwrap();
    assert!(!s.awaiting_subagents);
    assert_eq!(s.sub_since, None);
}

#[test]
fn a_block_is_told_of_even_where_the_session_was_hidden() {
    let mut e = engine();
    e.set_ignore_rules(IgnoreRules::new(vec![Matcher::CwdContains {
        value: "PROJ".to_string(),
    }]));
    e.apply_at(&ev("UserPromptSubmit", "a"), at(0));
    assert!(e.is_hidden("a"));
    let out = e.apply_at(&notice("a", "elicitation_dialog"), at(1));
    assert!(out.transition.is_some());
    assert!(!e.is_hidden("a"));
    assert_eq!(e.rollup(), Rollup::Red);
    e.sweep_at(at(700));
    assert!(!e.is_hidden("a"), "a sweep keeps it shown");
}

#[test]
fn an_allowlist_shows_at_once_and_more_rules_hide_no_less() {
    let mut e = engine();
    let rule = Matcher::CwdContains {
        value: "proj".to_string(),
    };
    e.apply_at(&ev("UserPromptSubmit", "a"), at(0));
    assert_eq!(e.preview_hidden_by(rule.clone()).len(), 1);
    e.set_ignore_rules(IgnoreRules::new(vec![rule.clone()]));
    assert!(e.is_hidden("a"));
    assert!(e.preview_hidden_by(rule.clone()).is_empty());
    let other = Matcher::FirstPromptPrefix {
        value: "x".to_string(),
    };
    e.set_ignore_rules(IgnoreRules::new(vec![rule.clone()]).with(other));
    assert!(e.is_hidden("a"));
    e.set_never_hide(IgnoreRules::new(vec![rule]));
    assert!(!e.is_hidden("a"));
    assert_eq!(e.hidden_count(), 0);
}

#[test]
fn live_sessions_come_before_stale_ones_then_by_label() {
    let mut e = engine();
    for (id, cwd, secs) in [
        ("1", "/x/zeta", 0),
        ("2", "/x/alpha", 0),
        ("3", "/x/mid", 500),
        ("4", "/x/beta", 500),
    ] {
        let start = HookEvent {
            cwd: cwd.to_string(),
            ..ev("SessionStart", id)
        };
        e.apply_at(&start, at(secs));
    }
    e.sweep_at(at(700));
    let labels: Vec<String> = e.snapshot_at(at(700)).into_iter().map(|v| v.label).collect();
    assert_eq!(labels, vec!["beta", "mid", "alpha", "zeta"]);
    let v = &e.snapshot_at(at(702))[0];
    assert_eq!(v.seconds_in_state, 202);
}

#[test]
fn an_audit_is_ordered_by_label() {
    let mut e = engine();
    e.set_ignore_rules(IgnoreRules::new(vec![Matcher::CwdContains {
        value: "/bots/".to_string(),
    }]));
    for (id, cwd) in [("1", "/bots/b"), ("2", "/bots/a"), ("3", "/me/c")] {
        let start = HookEvent {
            cwd: cwd.to_string(),
            ..ev("SessionStart", id)
        };
        e.apply_at(&start, at(0));
    }
    let labels: Vec<String> = e
        .hidden_audit_at(at(1))
        .into_iter()
        .map(|h| h.session.label)
        .collect();
    assert_eq!(labels, vec!["a", "b"]);
    assert_eq!(e.snapshot_at(at(1)).len(), 1);
}

#[test]
fn alerts_keep_to_cooldown_and_budget() {
    let mut e = engine();
    e.apply_at(&notice("a", "permission_prompt"), at(0));
    let policies = AlertPolicies {
        needs_you: AlertPolicy {
            enabled: true,
            cooldown_secs: 100,
            max_triggers: 3,
        },
        ..Default::default()
    };
    let fired: Vec<u64> = (0..6)
        .map(|i| i * 99)
        .filter(|t| !e.due_alerts(&policies, at(*t)).is_empty())
        .collect();
    assert_eq!(fired, vec![198, 396]);
    let single = AlertPolicies {
        needs_you: AlertPolicy {
            max_triggers: 1,
            ..policies.needs_you
        },
        ..policies
    };
    let mut e = engine();
    e.apply_at(&notice("a", "permission_prompt"), at(0));
    assert!(e.due_alerts(&single, at(10_000)).is_empty());
}

#[test]
fn a_repeated_event_is_no_transition_and_keeps_the_stay() {
    let mut e = engine();
    assert!(e
        .apply_at(&ev("UserPromptSubmit", "a"), at(1))
        .transition
        .is_some());
    let out = e.apply_at(&ev("PreToolUse", "a"), at(5));
    assert!(out.changed);
    assert!(out.transition.is_none());
    assert_eq!(e.session("a").unwrap().state_since, at(1));
    assert_eq!(e.session("a").unwrap().last_seen, at(5));
}

#[test]
fn the_counters_have_room() {
    let mut e = engine();
    assert!(e.has_room(&ev("SubagentStart", "a")));
    e.apply_at(&ev("SubagentStart", "a"), at(0));
    assert!(e.has_room(&ev("SubagentStart", "a")));
    assert!(e.has_room(&notice("a", "permission_prompt")));
}

#[test]
fn two_snapshots_of_one_state_agree() {
    let mut e = engine();
    for id in ["c", "a", "b"] {
        e.apply_at(&ev("SessionStart", id), at(0));
    }
    let ids = |secs: u64| -> Vec<String> {
        e.snapshot_at(at(secs))
            .into_iter()
            .map(|v| v.session_id)
            .collect()
    };
    assert_eq!(ids(1), vec!["a", "b", "c"], "one label, so by id");
    assert_eq!(ids(1), ids(500));
}

#[test]
fn a_remembered_terminal_waits_for_its_session() {
    let mut e = engine();
    e.seed_capture(
        "a".to_string(),
        CapturedTerminal {
            pid: Some(9),
            app: None,
            tty: Some("/dev/ttys009".to_string()),
        },
    );
    assert_eq!(e.rollup(), Rollup::Grey);
    e.apply_at(&ev("SessionStart", "b"), at(0));
    e.apply_at(&notice("a", "idle_prompt"), at(0));
    assert_eq!(e.terminal_pid("a"), None);
    e.apply_at(&sub("SubagentStop", "a"), at(1));
    assert_eq!(
        e.focus_target("a"),
        Some((9, Some("/dev/ttys009".to_string()), None))
    );
}

#[test]
fn a_subagent_neither_moves_its_session_nor_restarts_the_stay() {
    let mut e = engine();
    e.apply_at(&notice("a", "permission_prompt"), at(0));
    e.apply_at(&sub("SubagentStart", "a"), at(1));
    e.apply_at(&ev("Stop", "a"), at(2));
    for name in ["SessionStart", "UserPromptSubmit", "PreToolUse", "Stop", "SubagentStop"] {
        let out = e.apply_at(&sub(name, "a"), at(3));
        assert!(out.transition.is_none(), "{name}");
        assert_eq!(state(&e, "a"), Some(State::NeedsYou), "{name}");
        assert_eq!(e.session("a").unwrap().state_since, at(0), "{name}");
    }
}

#[test]
fn a_first_prompt_once_known_is_never_due() {
    let mut e = engine();
    e.set_observe_enabled(true);
    e.apply_at(&ev("SessionStart", "a"), at(0));
    assert!(!e.set_first_prompt_at("b", Some("x".to_string()), at(0)));
    e.set_first_prompt_at("a", Some("hello".to_string()), at(0));
    e.set_first_prompt_at("a", None, at(1));
    e.apply_at(&ev("SessionStart", "a"), at(2));
    assert_eq!(e.session("a").unwrap().first_prompt.as_deref(), Some("hello"));
    assert!(!e.first_prompt_due_at("a", Duration::from_secs(0), at(9)));
}

#[test]
fn no_session_has_an_empty_id() {
    let mut e = engine();
    for name in [
        "UserPromptSubmit",
        "Stop",
        "SessionStart",
        "SessionEnd",
        "SubagentStop",
        "BeaconTerminal",
    ] {
        let out = e.apply(&ev(name, ""));
        assert!(out.transition.is_none());
    }
    e.apply(&notice("", "permission_prompt"));
    assert_eq!(state(&e, ""), None);
    assert!(e.snapshot().is_empty());
    assert_eq!(e.rollup(), Rollup::Grey);
}
