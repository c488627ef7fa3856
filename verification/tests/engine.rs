use session_signals::alert::{AlertPolicies, AlertPolicy};
use session_signals::engine::Engine;
use session_signals::event::HookEvent;
use session_signals::ignore::{IgnoreRules, Matcher};
use session_signals::label::{origin_from_cwd, Origin, Platform};
use session_signals::session::{CapturedTerminal, Rollup, State};
use session_signals::time::Duration;

#[test]
fn origin_flags_posix_cwd_as_remote_on_windows_only() {
    // On a Windows host a POSIX cwd can only be a bridged VM/WSL session.
    let host = Platform::Windows;
    assert_eq!(origin_from_cwd("/home/me/project", host), Origin::Remote);
    assert_eq!(origin_from_cwd("/mnt/c/code/project", host), Origin::Remote);
    assert_eq!(origin_from_cwd(r"C:\Users\me\project", host), Origin::Host);
    // On a POSIX host we can't distinguish by path, so we never guess.
    for host in [Platform::MacOs, Platform::Other] {
        assert_eq!(origin_from_cwd("/home/me/project", host), Origin::Host);
    }
}

fn ev(name: &str, sid: &str) -> HookEvent {
    HookEvent {
        hook_event_name: name.to_string(),
        session_id: sid.to_string(),
        cwd: "/tmp/proj".to_string(),
        ..Default::default()
    }
}

fn ev_cwd(name: &str, sid: &str, cwd: &str) -> HookEvent {
    HookEvent {
        cwd: cwd.to_string(),
        ..ev(name, sid)
    }
}

fn ignore_rules() -> IgnoreRules {
    IgnoreRules::new(vec![
        Matcher::CwdContains {
            value: "ecc-homunculus".to_string(),
        },
        Matcher::FirstPromptPrefix {
            value: "IMPORTANT: You are running in non-interactive".to_string(),
        },
    ])
}

fn sub_ev(name: &str, sid: &str) -> HookEvent {
    HookEvent {
        agent_id: Some("sub-1".to_string()),
        agent_type: Some("Explore".to_string()),
        ..ev(name, sid)
    }
}

fn tool_ev(name: &str, sid: &str, tool: &str) -> HookEvent {
    HookEvent {
        tool_name: Some(tool.to_string()),
        ..ev(name, sid)
    }
}

fn notif(sid: &str, ty: &str) -> HookEvent {
    HookEvent {
        hook_event_name: "Notification".to_string(),
        session_id: sid.to_string(),
        cwd: "/tmp/proj".to_string(),
        notification_type: Some(ty.to_string()),
        ..Default::default()
    }
}

fn needs_you_only(cooldown_secs: u64, max_triggers: u32) -> AlertPolicies {
    AlertPolicies {
        needs_you: AlertPolicy {
            enabled: true,
            cooldown_secs,
            max_triggers,
        },
        ..Default::default()
    }
}

#[test]
fn no_alert_without_policy_enabled() {
    let mut e = Engine::new(Duration::from_secs(600), Duration::from_secs(3600));
    e.apply(&ev("SessionStart", "a"));
    e.apply(&notif("a", "permission_prompt"));
    let now = e.now() + Duration::from_secs(3600);
    assert!(e.due_alerts(&AlertPolicies::default(), now).is_empty());
}

#[test]
fn no_recurrence_when_cooldown_is_zero() {
    let mut e = Engine::new(Duration::from_secs(600), Duration::from_secs(3600));
    e.apply(&ev("SessionStart", "a"));
    e.apply(&notif("a", "permission_prompt"));
    let policies = needs_you_only(0, 3);
    let now = e.now() + Duration::from_secs(3600);
    assert!(e.due_alerts(&policies, now).is_empty());
}

#[test]
fn first_recurrence_fires_only_after_cooldown_elapses() {
    let mut e = Engine::new(Duration::from_secs(600), Duration::from_secs(3600));
    e.apply(&ev("SessionStart", "a"));
    e.apply(&notif("a", "permission_prompt"));
    let state_since = e.now();
    let policies = needs_you_only(60, 3);

    assert!(e
        .due_alerts(&policies, state_since + Duration::from_secs(59))
        .is_empty());

    let due = e.due_alerts(&policies, state_since + Duration::from_secs(60));
    assert_eq!(due.len(), 1);
    assert_eq!(due[0].session_id, "a");
    assert_eq!(due[0].state, State::NeedsYou);
}

#[test]
fn recurrence_stops_at_the_max_triggers_budget() {
    let mut e = Engine::new(Duration::from_secs(600), Duration::from_secs(3600));
    e.apply(&ev("SessionStart", "a"));
    e.apply(&notif("a", "permission_prompt"));
    let state_since = e.now();
    let policies = needs_you_only(60, 3);

    let t1 = state_since + Duration::from_secs(60);
    assert_eq!(e.due_alerts(&policies, t1).len(), 1);
    let t2 = t1 + Duration::from_secs(60);
    assert_eq!(e.due_alerts(&policies, t2).len(), 1);
    let t3 = t2 + Duration::from_secs(6000);
    assert!(e.due_alerts(&policies, t3).is_empty());
}

#[test]
fn working_and_ready_never_recur_even_when_policy_enabled() {
    let mut e = Engine::new(Duration::from_secs(600), Duration::from_secs(3600));
    e.apply(&ev("SessionStart", "a"));
    e.apply(&ev("UserPromptSubmit", "a")); // -> Working
    let policies = AlertPolicies {
        working: AlertPolicy {
            enabled: true,
            cooldown_secs: 1,
            max_triggers: 5,
        },
        ready: AlertPolicy {
            enabled: true,
            cooldown_secs: 1,
            max_triggers: 5,
        },
        ..Default::default()
    };
    let now = e.now() + Duration::from_secs(3600);
    assert!(e.due_alerts(&policies, now).is_empty());
}

#[test]
fn stale_session_is_never_due() {
    let mut e = Engine::new(Duration::from_secs(600), Duration::from_secs(3600));
    e.apply(&ev("SessionStart", "a"));
    e.apply(&notif("a", "permission_prompt"));
    e.set_stale_timeout(Duration::from_secs(0));
    e.sweep();
    assert!(e.session("a").unwrap().stale);
    let policies = needs_you_only(1, 3);
    let now = e.now() + Duration::from_secs(3600);
    assert!(e.due_alerts(&policies, now).is_empty());
}

#[test]
fn hidden_session_is_never_due() {
    let mut e = Engine::new(Duration::from_secs(600), Duration::from_secs(3600));
    e.set_ignore_rules(ignore_rules());
    e.apply(&ev_cwd("SessionStart", "a", "/tmp/ecc-homunculus/proj"));
    e.set_review_flag("a", true);
    e.apply(&ev_cwd("Stop", "a", "/tmp/ecc-homunculus/proj"));
    assert!(e.is_hidden("a"));

    let policies = AlertPolicies {
        waiting_review: AlertPolicy {
            enabled: true,
            cooldown_secs: 1,
            max_triggers: 3,
        },
        ..Default::default()
    };
    let now = e.now() + Duration::from_secs(3600);
    assert!(e.due_alerts(&policies, now).is_empty());
}

#[test]
fn for_state_disables_recurrence_on_working_and_ready() {
    let on = AlertPolicy {
        enabled: true,
        cooldown_secs: 30,
        max_triggers: 5,
    };
    let all_on = AlertPolicies {
        needs_you: on,
        working: on,
        ready: on,
        waiting_review: on,
    };
    assert!(all_on.for_state(State::NeedsYou).enabled);
    assert!(all_on.for_state(State::WaitingReview).enabled);
    assert!(!all_on.for_state(State::Working).enabled);
    assert!(!all_on.for_state(State::Ready).enabled);
}

#[test]
fn clearing_the_review_flag_starts_a_fresh_episode() {
    let mut e = Engine::new(Duration::from_secs(600), Duration::from_secs(3600));
    e.apply(&ev("SessionStart", "a"));
    e.set_review_flag("a", true);
    e.apply(&ev("Stop", "a")); // -> WaitingReview
    let first_since = e.now();

    let policies = AlertPolicies {
        waiting_review: AlertPolicy {
            enabled: true,
            cooldown_secs: 60,
            max_triggers: 2,
        },
        ..Default::default()
    };
    assert_eq!(
        e.due_alerts(&policies, first_since + Duration::from_secs(60))
            .len(),
        1
    );
    assert!(e
        .due_alerts(&policies, first_since + Duration::from_secs(3600))
        .is_empty());

    e.set_review_flag("a", false);
    e.set_review_flag("a", true);
    e.apply(&ev("Stop", "a"));
    let second_since = e.now();
    assert_eq!(
        e.due_alerts(&policies, second_since + Duration::from_secs(60))
            .len(),
        1,
        "the new episode must get its own budget"
    );
}

#[test]
fn episode_resets_when_the_session_leaves_and_returns_to_the_state() {
    let mut e = Engine::new(Duration::from_secs(600), Duration::from_secs(3600));
    e.apply(&ev("SessionStart", "a"));
    e.apply(&notif("a", "permission_prompt"));
    let first_since = e.now();
    let policies = needs_you_only(60, 3);

    assert_eq!(
        e.due_alerts(&policies, first_since + Duration::from_secs(60))
            .len(),
        1
    );
    assert_eq!(e.session("a").unwrap().alert_count, 1);

    e.apply(&ev("UserPromptSubmit", "a")); // -> Working
    e.apply(&notif("a", "permission_prompt")); // -> NeedsYou again
    let second_since = e.now();
    {
        let s = e.session("a").unwrap();
        assert_ne!(
            s.alert_episode,
            Some(s.state_since),
            "the new stay must not be mistaken for the old episode"
        );
    }

    assert!(e
        .due_alerts(&policies, second_since + Duration::from_secs(59))
        .is_empty());
    assert_eq!(
        e.due_alerts(&policies, second_since + Duration::from_secs(60))
            .len(),
        1
    );
    assert_eq!(e.session("a").unwrap().alert_count, 1);
}

#[test]
fn lifecycle_transitions() {
    let mut e = Engine::new(Duration::from_secs(600), Duration::from_secs(3600));
    e.apply(&ev("SessionStart", "a"));
    assert_eq!(e.rollup(), Rollup::Green);
    e.apply(&ev("UserPromptSubmit", "a"));
    assert_eq!(e.rollup(), Rollup::Orange);
    e.apply(&notif("a", "permission_prompt"));
    assert_eq!(e.rollup(), Rollup::Red);
    e.apply(&ev("Stop", "a"));
    assert_eq!(e.rollup(), Rollup::Green);
    e.apply(&ev("SessionEnd", "a"));
    assert_eq!(e.rollup(), Rollup::Grey);
}

#[test]
fn straggler_heartbeat_after_session_end_does_not_resurrect() {
    let mut e = Engine::new(Duration::from_secs(600), Duration::from_secs(3600));
    e.apply(&ev("SessionStart", "a"));
    e.apply(&ev("SessionEnd", "a"));
    assert!(e.snapshot().is_empty());

    let out = e.apply(&sub_ev("PostToolUse", "a"));
    assert!(!out.changed, "straggler must not report a change");
    let out = e.apply(&sub_ev("SubagentStop", "a"));
    assert!(!out.changed);
    e.apply(&ev("PostToolBatch", "a"));
    assert!(e.snapshot().is_empty(), "no resurrection from heartbeats");

    e.apply(&ev("SessionStart", "a"));
    assert_eq!(e.snapshot().len(), 1);
    assert_eq!(e.rollup(), Rollup::Green);

    e.apply(&ev("UserPromptSubmit", "a"));
    e.apply(&sub_ev("PostToolUse", "a"));
    assert_eq!(e.rollup(), Rollup::Orange);
}

#[test]
fn prompt_after_session_end_recreates_session() {
    let mut e = Engine::new(Duration::from_secs(600), Duration::from_secs(3600));
    e.apply(&ev("SessionStart", "a"));
    e.apply(&ev("SessionEnd", "a"));
    e.apply(&ev("UserPromptSubmit", "a"));
    assert_eq!(e.rollup(), Rollup::Orange);
}

#[test]
fn rollup_priority_across_sessions() {
    let mut e = Engine::new(Duration::from_secs(600), Duration::from_secs(3600));
    e.apply(&ev("UserPromptSubmit", "a")); // working
    e.apply(&notif("b", "permission_prompt")); // needs you
    assert_eq!(e.rollup(), Rollup::Red);
    e.apply(&ev("Stop", "b")); // b now ready
    assert_eq!(e.rollup(), Rollup::Orange); // a still working
}

#[test]
fn ignored_notifications_do_not_change_state() {
    let mut e = Engine::new(Duration::from_secs(600), Duration::from_secs(3600));
    e.apply(&ev("UserPromptSubmit", "a"));
    assert_eq!(e.rollup(), Rollup::Orange);
    e.apply(&notif("a", "auth_success"));
    assert_eq!(e.rollup(), Rollup::Orange);
}

#[test]
fn transition_reported_once_then_suppressed() {
    let mut e = Engine::new(Duration::from_secs(600), Duration::from_secs(3600));
    let out = e.apply(&ev("UserPromptSubmit", "a"));
    let t = out.transition.expect("first transition");
    assert_eq!(t.from, None);
    assert_eq!(t.to, State::Working);

    let out = e.apply(&notif("a", "permission_prompt"));
    let t = out.transition.expect("transition into needs-you");
    assert_eq!(t.from, Some(State::Working));
    assert_eq!(t.to, State::NeedsYou);

    let out = e.apply(&notif("a", "permission_prompt"));
    assert!(out.transition.is_none(), "repeat must not re-notify");
}

#[test]
fn idle_prompt_does_not_turn_red() {
    let mut e = Engine::new(Duration::from_secs(600), Duration::from_secs(3600));
    e.apply(&ev("SessionStart", "a"));
    assert_eq!(e.rollup(), Rollup::Green);

    let out = e.apply(&notif("a", "idle_prompt"));
    assert!(
        out.transition.is_none(),
        "idle_prompt should not transition"
    );
    assert_eq!(e.rollup(), Rollup::Green, "idle session stays green");

    e.apply(&notif("a", "permission_prompt"));
    assert_eq!(e.rollup(), Rollup::Red);
    e.apply(&notif("a", "idle_prompt"));
    assert_eq!(e.rollup(), Rollup::Red, "idle must not clear a pending red");
}

#[test]
fn idle_prompt_does_not_postpone_or_clear_staleness() {
    let mut e = Engine::new(Duration::from_millis(0), Duration::from_secs(3600));
    e.apply(&ev("UserPromptSubmit", "a"));
    e.sweep();
    assert!(e.snapshot()[0].stale, "went stale immediately (0 timeout)");
    assert_eq!(e.rollup(), Rollup::Grey);

    let out = e.apply(&notif("a", "idle_prompt"));
    assert!(
        !out.changed,
        "idle_prompt must not report a change (no last_seen touch)"
    );
    assert!(
        e.snapshot()[0].stale,
        "idle_prompt must not un-stale the row"
    );
    assert_eq!(
        e.rollup(),
        Rollup::Grey,
        "still grey — not resurrected green"
    );
}

#[test]
fn heartbeat_keeps_state() {
    let mut e = Engine::new(Duration::from_secs(600), Duration::from_secs(3600));
    e.apply(&ev("UserPromptSubmit", "a"));
    e.apply(&ev("PostToolUse", "a"));
    assert_eq!(e.rollup(), Rollup::Orange);
}

#[test]
fn compaction_shows_working_then_ready() {
    let mut e = Engine::new(Duration::from_secs(600), Duration::from_secs(3600));
    e.apply(&ev("SessionStart", "a"));
    assert_eq!(e.rollup(), Rollup::Green);
    e.apply(&ev("PreCompact", "a"));
    assert_eq!(e.rollup(), Rollup::Orange);
    e.apply(&ev("PostCompact", "a"));
    assert_eq!(e.rollup(), Rollup::Green);
}

#[test]
fn pretooluse_starts_working() {
    let mut e = Engine::new(Duration::from_secs(600), Duration::from_secs(3600));
    let out = e.apply(&ev("PreToolUse", "a"));
    assert_eq!(e.rollup(), Rollup::Orange);
    let t = out.transition.expect("new session transitions");
    assert_eq!(t.from, None);
    assert_eq!(t.to, State::Working);
}

#[test]
fn stale_sweep_excludes_then_drops() {
    let mut e = Engine::new(Duration::from_millis(0), Duration::from_secs(3600));
    e.apply(&ev("SessionStart", "a"));
    assert_eq!(e.rollup(), Rollup::Green);
    let out = e.sweep();
    assert!(out.changed);
    assert_eq!(out.went_stale.len(), 1);
    assert_eq!(e.rollup(), Rollup::Grey);
    assert_eq!(e.snapshot().len(), 1);

    let mut e2 = Engine::new(Duration::from_millis(0), Duration::from_millis(0));
    e2.apply(&ev("SessionStart", "a"));
    e2.sweep();
    assert_eq!(e2.snapshot().len(), 0);
}

fn sub_count(e: &Engine, sid: &str) -> u32 {
    e.snapshot()
        .into_iter()
        .find(|v| v.session_id == sid)
        .map(|v| v.subagent_count)
        .unwrap_or(0)
}

fn state_of(e: &Engine, sid: &str) -> State {
    e.snapshot()
        .into_iter()
        .find(|v| v.session_id == sid)
        .map(|v| v.state)
        .expect("session present")
}

#[test]
fn subagent_count_rises_and_falls() {
    let mut e = Engine::new(Duration::from_secs(600), Duration::from_secs(3600));
    e.apply(&ev("UserPromptSubmit", "a"));
    assert_eq!(sub_count(&e, "a"), 0);
    e.apply(&ev("SubagentStart", "a"));
    e.apply(&ev("SubagentStart", "a"));
    assert_eq!(sub_count(&e, "a"), 2);
    assert_eq!(e.rollup(), Rollup::Orange);
    e.apply(&ev("SubagentStop", "a"));
    assert_eq!(sub_count(&e, "a"), 1);
    e.apply(&ev("SubagentStop", "a"));
    assert_eq!(sub_count(&e, "a"), 0);
}

#[test]
fn subagent_count_clamps_at_zero() {
    let mut e = Engine::new(Duration::from_secs(600), Duration::from_secs(3600));
    e.apply(&ev("SubagentStart", "a"));
    e.apply(&ev("SubagentStop", "a"));
    e.apply(&ev("SubagentStop", "a"));
    assert_eq!(sub_count(&e, "a"), 0);
    e.apply(&ev("SubagentStart", "a"));
    assert_eq!(sub_count(&e, "a"), 1);
}

#[test]
fn subagent_counts_are_per_session() {
    let mut e = Engine::new(Duration::from_secs(600), Duration::from_secs(3600));
    e.apply(&ev("SubagentStart", "a"));
    e.apply(&ev("SubagentStart", "b"));
    e.apply(&ev("SubagentStart", "a"));
    e.apply(&ev("SubagentStop", "b"));
    assert_eq!(sub_count(&e, "a"), 2);
    assert_eq!(sub_count(&e, "b"), 0);
}

#[test]
fn sub_since_anchors_only_while_busy() {
    let mut e = Engine::new(Duration::from_secs(600), Duration::from_secs(3600));
    e.apply(&ev("SubagentStart", "a"));
    let v = e
        .snapshot()
        .into_iter()
        .find(|v| v.session_id == "a")
        .unwrap();
    assert_eq!(v.subagent_count, 1);
    e.apply(&ev("SubagentStop", "a"));
    let v = e
        .snapshot()
        .into_iter()
        .find(|v| v.session_id == "a")
        .unwrap();
    assert_eq!(v.subagent_count, 0);
    assert_eq!(v.subagent_seconds, 0);
}

#[test]
fn beacon_terminal_records_pid_and_survives_state_changes() {
    let mut e = Engine::new(Duration::from_secs(600), Duration::from_secs(3600));
    let mut cap = ev("BeaconTerminal", "a");
    cap.terminal_pid = Some(4242);
    cap.terminal_app = Some("iTerm2".to_string());
    e.apply(&cap);
    assert_eq!(e.terminal_pid("a"), Some(4242));
    assert!(
        e.snapshot()
            .iter()
            .find(|v| v.session_id == "a")
            .unwrap()
            .can_focus
    );

    let out = e.apply(&notif("a", "permission_prompt"));
    assert_eq!(e.terminal_pid("a"), Some(4242), "pid survives state change");
    assert_eq!(out.transition.unwrap().terminal_pid, Some(4242));
}

#[test]
fn no_terminal_means_cannot_focus() {
    let mut e = Engine::new(Duration::from_secs(600), Duration::from_secs(3600));
    e.apply(&ev("SessionStart", "a"));
    assert_eq!(e.terminal_pid("a"), None);
    assert!(!e.snapshot()[0].can_focus, "no pid ⇒ no focus affordance");
}

#[test]
fn seeded_capture_rehydrates_on_next_event_but_never_conjures_a_row() {
    let mut e = Engine::new(Duration::from_secs(600), Duration::from_secs(3600));
    e.seed_capture(
        "a".to_string(),
        CapturedTerminal {
            pid: Some(7777),
            app: Some("Terminal".to_string()),
            tty: Some("/dev/ttys003".to_string()),
        },
    );
    assert!(e.snapshot().is_empty(), "seeding alone creates no session");
    assert_eq!(e.terminal_pid("a"), None);

    e.apply(&ev("PostToolUse", "a"));
    assert_eq!(
        e.terminal_pid("a"),
        Some(7777),
        "handle rehydrated on first event"
    );
    let v = e
        .snapshot()
        .into_iter()
        .find(|v| v.session_id == "a")
        .unwrap();
    assert!(
        v.can_focus,
        "rehydrated handle restores the focus affordance"
    );
    assert_eq!(
        e.focus_target("a"),
        Some((
            7777,
            Some("/dev/ttys003".to_string()),
            Some("Terminal".to_string())
        ))
    );
}

#[test]
fn session_end_forgets_seeded_capture() {
    let mut e = Engine::new(Duration::from_secs(600), Duration::from_secs(3600));
    e.seed_capture(
        "a".to_string(),
        CapturedTerminal {
            pid: Some(7777),
            app: None,
            tty: None,
        },
    );
    e.apply(&ev("SessionEnd", "a"));
    e.apply(&ev("PostToolUse", "a"));
    assert_eq!(e.terminal_pid("a"), None, "SessionEnd dropped the seed");
}

#[test]
fn subagent_tool_calls_do_not_clear_needs_you() {
    let mut e = Engine::new(Duration::from_secs(600), Duration::from_secs(3600));
    e.apply(&notif("a", "permission_prompt"));
    assert_eq!(e.rollup(), Rollup::Red);
    e.apply(&sub_ev("PreToolUse", "a"));
    e.apply(&sub_ev("PostToolUse", "a"));
    assert_eq!(e.rollup(), Rollup::Red, "subagent activity kept NeedsYou");
    assert_eq!(state_of(&e, "a"), State::NeedsYou);
}

#[test]
fn subagent_stop_does_not_clear_needs_you() {
    let mut e = Engine::new(Duration::from_secs(600), Duration::from_secs(3600));
    e.apply(&sub_ev("SubagentStart", "a"));
    e.apply(&notif("a", "permission_prompt"));
    assert_eq!(e.rollup(), Rollup::Red);
    e.apply(&sub_ev("SubagentStop", "a"));
    assert_eq!(
        state_of(&e, "a"),
        State::NeedsYou,
        "subagent stop left red intact"
    );
    assert_eq!(sub_count(&e, "a"), 0, "but the count still decremented");
}

#[test]
fn main_agent_pretooluse_clears_needs_you() {
    let mut e = Engine::new(Duration::from_secs(600), Duration::from_secs(3600));
    e.apply(&notif("a", "permission_prompt"));
    assert_eq!(e.rollup(), Rollup::Red);
    e.apply(&ev("PreToolUse", "a")); // main agent, no agent_id
    assert_eq!(
        state_of(&e, "a"),
        State::Working,
        "user-approved tool flips to Working"
    );
}

#[test]
fn subagent_permission_prompt_still_escalates() {
    let mut e = Engine::new(Duration::from_secs(600), Duration::from_secs(3600));
    e.apply(&ev("UserPromptSubmit", "a"));
    assert_eq!(e.rollup(), Rollup::Orange);
    let mut block = notif("a", "permission_prompt");
    block.agent_id = Some("sub-1".to_string());
    e.apply(&block);
    assert_eq!(
        state_of(&e, "a"),
        State::NeedsYou,
        "subagent block still needs the user"
    );
}

#[test]
fn ask_user_question_turns_red() {
    let mut e = Engine::new(Duration::from_secs(600), Duration::from_secs(3600));
    e.apply(&ev("UserPromptSubmit", "a"));
    assert_eq!(e.rollup(), Rollup::Orange);
    let out = e.apply(&tool_ev("PreToolUse", "a", "AskUserQuestion"));
    assert_eq!(state_of(&e, "a"), State::NeedsYou);
    assert_eq!(e.rollup(), Rollup::Red);
    let t = out.transition.expect("escalation is a transition");
    assert_eq!(t.from, Some(State::Working));
    assert_eq!(t.to, State::NeedsYou);
}

#[test]
fn exit_plan_mode_turns_red() {
    let mut e = Engine::new(Duration::from_secs(600), Duration::from_secs(3600));
    e.apply(&ev("UserPromptSubmit", "a"));
    e.apply(&tool_ev("PreToolUse", "a", "ExitPlanMode"));
    assert_eq!(state_of(&e, "a"), State::NeedsYou);
}

#[test]
fn answering_blocking_tool_resumes_working() {
    let mut e = Engine::new(Duration::from_secs(600), Duration::from_secs(3600));
    e.apply(&tool_ev("PreToolUse", "a", "AskUserQuestion"));
    assert_eq!(state_of(&e, "a"), State::NeedsYou);
    e.apply(&tool_ev("PostToolUse", "a", "AskUserQuestion"));
    assert_eq!(
        state_of(&e, "a"),
        State::Working,
        "answered question resumes Working"
    );
}

#[test]
fn ordinary_tool_still_only_working() {
    let mut e = Engine::new(Duration::from_secs(600), Duration::from_secs(3600));
    e.apply(&tool_ev("PreToolUse", "a", "Bash"));
    assert_eq!(state_of(&e, "a"), State::Working);
    e.apply(&tool_ev("PostToolUse", "a", "Bash"));
    assert_eq!(state_of(&e, "a"), State::Working);
    e.apply(&ev("PreToolUse", "b"));
    assert_eq!(state_of(&e, "b"), State::Working);
}

#[test]
fn subagent_blocking_tool_still_escalates() {
    let mut e = Engine::new(Duration::from_secs(600), Duration::from_secs(3600));
    e.apply(&ev("UserPromptSubmit", "a"));
    let mut block = tool_ev("PreToolUse", "a", "AskUserQuestion");
    block.agent_id = Some("sub-1".to_string());
    e.apply(&block);
    assert_eq!(state_of(&e, "a"), State::NeedsYou);
}

#[test]
fn subagent_post_blocking_tool_does_not_clear_needs_you() {
    let mut e = Engine::new(Duration::from_secs(600), Duration::from_secs(3600));
    e.apply(&notif("a", "permission_prompt"));
    assert_eq!(state_of(&e, "a"), State::NeedsYou);
    let mut sub_post = tool_ev("PostToolUse", "a", "AskUserQuestion");
    sub_post.agent_id = Some("sub-1".to_string());
    e.apply(&sub_post);
    assert_eq!(
        state_of(&e, "a"),
        State::NeedsYou,
        "subagent PostToolUse kept the parent red"
    );
}

#[test]
fn subagent_count_independent_of_main_state() {
    let mut e = Engine::new(Duration::from_secs(600), Duration::from_secs(3600));
    e.apply(&ev("UserPromptSubmit", "a")); // main → Working
    e.apply(&sub_ev("SubagentStart", "a"));
    e.apply(&sub_ev("SubagentStart", "a"));
    assert_eq!(state_of(&e, "a"), State::Working);
    assert_eq!(sub_count(&e, "a"), 2);
    e.apply(&sub_ev("SubagentStop", "a")); // a subagent ends mid-turn...
    assert_eq!(
        state_of(&e, "a"),
        State::Working,
        "...but the parent stays Working"
    );
    assert_eq!(sub_count(&e, "a"), 1);
}

#[test]
fn stale_sweep_clears_subagent_count() {
    let mut e = Engine::new(Duration::from_millis(0), Duration::from_secs(3600));
    e.apply(&ev("UserPromptSubmit", "a"));
    e.apply(&sub_ev("SubagentStart", "a"));
    assert_eq!(sub_count(&e, "a"), 1);
    e.sweep(); // stale_timeout is 0 → goes stale immediately
    assert!(e.snapshot()[0].stale);
    assert_eq!(sub_count(&e, "a"), 0, "stale row drops its agent count");
}

#[test]
fn descriptor_due_set_and_snapshot() {
    let retry = Duration::from_secs(5);
    let refresh = Duration::from_secs(45);
    let mut e = Engine::new(Duration::from_secs(600), Duration::from_secs(3600));
    assert!(!e.descriptor_due("a", retry, refresh));
    e.apply(&ev("SessionStart", "a"));
    assert!(e.descriptor_due("a", retry, refresh));
    assert!(e.set_descriptor("a", Some("Audit the repo".to_string())));
    assert!(
        !e.descriptor_due("a", retry, refresh),
        "just checked → not due"
    );
    let v = e
        .snapshot()
        .into_iter()
        .find(|v| v.session_id == "a")
        .unwrap();
    assert_eq!(v.descriptor.as_deref(), Some("Audit the repo"));
    assert!(!e.set_descriptor("a", Some("Audit the repo".to_string())));
    assert!(!e.set_descriptor("a", None));
    let v = e
        .snapshot()
        .into_iter()
        .find(|v| v.session_id == "a")
        .unwrap();
    assert_eq!(
        v.descriptor.as_deref(),
        Some("Audit the repo"),
        "None doesn't clear"
    );
}

#[test]
fn session_start_resets_subagents() {
    let mut e = Engine::new(Duration::from_secs(600), Duration::from_secs(3600));
    e.apply(&ev("SubagentStart", "a"));
    e.apply(&ev("SubagentStart", "a"));
    assert_eq!(sub_count(&e, "a"), 2);
    e.apply(&ev("SessionStart", "a"));
    assert_eq!(sub_count(&e, "a"), 0);
}

#[test]
fn idle_session_persists_until_drop_window() {
    let mut e = Engine::new(Duration::from_millis(0), Duration::from_secs(3600));
    e.apply(&ev("SessionStart", "a"));
    for _ in 0..3 {
        e.sweep();
    }
    assert_eq!(e.snapshot().len(), 1, "stale session stays visible");
    assert!(e.snapshot()[0].stale, "and is marked stale (grey)");
    assert_eq!(e.rollup(), Rollup::Grey);
}

#[test]
fn headless_cwd_session_is_hidden_from_widget_and_rollup() {
    let mut e = Engine::new(Duration::from_secs(600), Duration::from_secs(3600));
    e.set_ignore_rules(ignore_rules());
    e.apply(&ev_cwd(
        "UserPromptSubmit",
        "real",
        "/home/me/Codes/whatsapp",
    ));
    e.apply(&ev_cwd(
        "UserPromptSubmit",
        "bot",
        r"C:\Users\me\.local\share\ecc-homunculus\projects\b4807c9eabf7",
    ));
    let snap = e.snapshot();
    assert_eq!(snap.len(), 1);
    assert_eq!(snap[0].session_id, "real");
    assert_eq!(
        e.rollup(),
        Rollup::Orange,
        "bot's Working must not colour tray"
    );
    assert!(e.is_hidden("bot"));
    assert!(!e.is_hidden("real"));
    assert_eq!(e.hidden_count(), 1);
}

#[test]
fn sha_named_worktree_is_not_hidden() {
    let mut e = Engine::new(Duration::from_secs(600), Duration::from_secs(3600));
    e.set_ignore_rules(ignore_rules());
    e.apply(&ev_cwd("UserPromptSubmit", "wt", r"D:\tmp\b4807c9eabf7"));
    assert_eq!(e.snapshot().len(), 1, "SHA-named worktree stays visible");
    assert_eq!(e.rollup(), Rollup::Orange);
    assert!(!e.is_hidden("wt"));
}

#[test]
fn first_prompt_rule_hides_after_read() {
    let mut e = Engine::new(Duration::from_secs(600), Duration::from_secs(3600));
    e.set_ignore_rules(ignore_rules());
    e.apply(&ev_cwd("UserPromptSubmit", "p", "/home/me/work/project"));
    assert_eq!(e.snapshot().len(), 1, "visible until first prompt is read");
    assert!(e.first_prompt_due("p", Duration::from_secs(0)));
    let changed = e.set_first_prompt(
        "p",
        Some("IMPORTANT: You are running in non-interactive --print mode…".to_string()),
    );
    assert!(changed, "newly hidden → worth a refresh");
    assert!(e.snapshot().is_empty());
    assert!(
        !e.first_prompt_due("p", Duration::from_secs(0)),
        "prompt resolved → never due again"
    );
}

#[test]
fn first_prompt_due_requires_rules_or_observation() {
    let mut e = Engine::new(Duration::from_secs(600), Duration::from_secs(3600));
    e.apply(&ev_cwd("UserPromptSubmit", "p", "/home/me/work/project"));
    assert!(
        !e.first_prompt_due("p", Duration::from_secs(0)),
        "no rules, observation off → not due"
    );

    e.set_observe_enabled(true);
    assert!(
        e.first_prompt_due("p", Duration::from_secs(0)),
        "observation on → due even with zero rules"
    );

    e.set_ignore_rules(ignore_rules());
    e.apply(&ev_cwd(
        "UserPromptSubmit",
        "bot",
        "/x/.local/share/ecc-homunculus/projects/b4807c9eabf7",
    ));
    assert!(!e.first_prompt_due("bot", Duration::from_secs(0)));
}

#[test]
fn ordinary_first_prompt_stays_visible() {
    let mut e = Engine::new(Duration::from_secs(600), Duration::from_secs(3600));
    e.set_ignore_rules(ignore_rules());
    e.apply(&ev_cwd("UserPromptSubmit", "p", "/home/me/work/project"));
    let changed = e.set_first_prompt(
        "p",
        Some(
            "why does IMPORTANT: You are running in non-interactive show in logs?".to_string(),
        ),
    );
    assert!(!changed);
    assert_eq!(e.snapshot().len(), 1);
}

#[test]
fn first_prompt_not_due_when_cwd_already_hidden() {
    let mut e = Engine::new(Duration::from_secs(600), Duration::from_secs(3600));
    e.set_ignore_rules(ignore_rules());
    e.apply(&ev_cwd(
        "UserPromptSubmit",
        "bot",
        "/x/.local/share/ecc-homunculus/projects/b4807c9eabf7",
    ));
    assert!(e.is_hidden("bot"));
    assert!(
        !e.first_prompt_due("bot", Duration::from_secs(0)),
        "cwd already hid it → no read"
    );
}

#[test]
fn none_first_prompt_read_is_retried() {
    let mut e = Engine::new(Duration::from_secs(600), Duration::from_secs(3600));
    e.set_ignore_rules(ignore_rules());
    e.apply(&ev_cwd("SessionStart", "p", "/home/me/work/project"));

    assert!(e.first_prompt_due("p", Duration::from_secs(0)));
    assert!(
        !e.set_first_prompt("p", None),
        "no value → no visible change"
    );

    assert!(
        e.first_prompt_due("p", Duration::from_secs(0)),
        "a None read must stay retryable"
    );

    assert!(e.set_first_prompt(
        "p",
        Some("IMPORTANT: You are running in non-interactive --print mode".to_string())
    ));
    assert!(e.is_hidden("p"));
    assert!(!e.first_prompt_due("p", Duration::from_secs(0)));
}

#[test]
fn never_hide_outranks_ignore_rules() {
    let mut e = Engine::new(Duration::from_secs(600), Duration::from_secs(3600));
    e.set_ignore_rules(ignore_rules());
    e.set_never_hide(IgnoreRules::new(vec![
        Matcher::CwdContains {
            value: "ecc-homunculus".to_string(),
        },
    ]));
    e.apply(&ev_cwd(
        "UserPromptSubmit",
        "bot",
        "/x/.local/share/ecc-homunculus/projects/b4807c9eabf7",
    ));
    assert!(
        !e.is_hidden("bot"),
        "cwd allowlist outranks the cwd deny rule"
    );
    assert_eq!(e.hidden_count(), 0);

    let mut e2 = Engine::new(Duration::from_secs(600), Duration::from_secs(3600));
    e2.set_ignore_rules(ignore_rules());
    e2.set_never_hide(IgnoreRules::new(vec![
        Matcher::FirstPromptPrefix {
            value: "IMPORTANT: You are running in non-interactive".to_string(),
        },
    ]));
    e2.apply(&ev_cwd("UserPromptSubmit", "p", "/home/me/work/project"));
    e2.set_first_prompt(
        "p",
        Some("IMPORTANT: You are running in non-interactive --print mode".to_string()),
    );
    assert!(
        !e2.is_hidden("p"),
        "prompt allowlist outranks the prompt deny rule"
    );
    assert_eq!(e2.snapshot().len(), 1);
}

#[test]
fn hidden_session_that_blocks_is_revealed() {
    let mut e = Engine::new(Duration::from_secs(600), Duration::from_secs(3600));
    e.set_ignore_rules(ignore_rules());
    e.apply(&ev_cwd(
        "UserPromptSubmit",
        "bot",
        "/x/.local/share/ecc-homunculus/projects/b4807c9eabf7",
    ));
    assert!(e.is_hidden("bot"), "premise: hidden by the cwd rule");
    assert_eq!(e.reveal_count(), 0);

    let out = e.apply(&HookEvent {
        hook_event_name: "Notification".to_string(),
        session_id: "bot".to_string(),
        cwd: "/x/.local/share/ecc-homunculus/projects/b4807c9eabf7".to_string(),
        notification_type: Some("permission_prompt".to_string()),
        ..Default::default()
    });
    assert!(
        out.transition.is_some(),
        "a revealed session's transition fires too"
    );
    assert!(!e.is_hidden("bot"));
    assert_eq!(e.snapshot().len(), 1);
    assert_eq!(e.rollup(), Rollup::Red);
    assert_eq!(e.reveal_count(), 1);

    e.apply(&tool_ev("PostToolUse", "bot", "AskUserQuestion"));
    assert!(!e.is_hidden("bot"));
    e.apply(&ev_cwd(
        "Stop",
        "bot",
        "/x/.local/share/ecc-homunculus/projects/b4807c9eabf7",
    ));
    assert!(!e.is_hidden("bot"), "sticky through Stop");

    e.apply(&ev_cwd(
        "SessionStart",
        "bot",
        "/x/.local/share/ecc-homunculus/projects/b4807c9eabf7",
    ));
    assert!(e.is_hidden("bot"), "SessionStart clears the sticky reveal");
}

#[test]
fn reveal_count_stays_zero_when_never_blocked() {
    let mut e = Engine::new(Duration::from_secs(600), Duration::from_secs(3600));
    e.set_ignore_rules(ignore_rules());
    e.apply(&ev_cwd(
        "UserPromptSubmit",
        "bot",
        "/x/.local/share/ecc-homunculus/projects/b4807c9eabf7",
    ));
    e.apply(&ev_cwd(
        "Stop",
        "bot",
        "/x/.local/share/ecc-homunculus/projects/b4807c9eabf7",
    ));
    assert_eq!(e.reveal_count(), 0);
    assert!(e.is_hidden("bot"));
}

#[test]
fn session_blocked_before_classification_is_not_hidden() {
    let mut e = Engine::new(Duration::from_secs(600), Duration::from_secs(3600));
    e.set_ignore_rules(ignore_rules());
    e.apply(&ev("UserPromptSubmit", "bot"));
    e.apply(&notif("bot", "permission_prompt"));
    assert!(
        !e.is_hidden("bot"),
        "premise: visible before classification"
    );
    assert_eq!(e.reveal_count(), 0);

    let changed = e.set_first_prompt(
        "bot",
        Some("IMPORTANT: You are running in non-interactive --print mode".to_string()),
    );
    assert!(!changed, "hidden-ness did not change: it stayed visible");
    assert!(!e.is_hidden("bot"));
    assert_eq!(e.snapshot().len(), 1);
    assert_eq!(e.rollup(), Rollup::Red);
    assert_eq!(e.reveal_count(), 1);
}

#[test]
fn preview_lists_only_sessions_that_would_vanish() {
    let mut e = Engine::new(Duration::from_secs(600), Duration::from_secs(3600));
    e.set_ignore_rules(IgnoreRules::new(vec![
        Matcher::CwdContains {
            value: "already-hidden".to_string(),
        },
    ]));
    e.apply(&ev_cwd("SessionStart", "matching", "/tmp/proj-a"));
    e.apply(&ev_cwd("SessionStart", "already", "/tmp/already-hidden"));
    e.apply(&ev_cwd("SessionStart", "unrelated", "/tmp/proj-b"));

    let preview = e.preview_hidden_by(Matcher::CwdContains {
        value: "proj-a".to_string(),
    });
    assert_eq!(preview.len(), 1);
    assert_eq!(preview[0].session_id, "matching");
}

#[test]
fn preview_excludes_never_hide_and_revealed() {
    let mut e = Engine::new(Duration::from_secs(600), Duration::from_secs(3600));
    e.set_never_hide(IgnoreRules::new(vec![
        Matcher::CwdContains {
            value: "allowlisted".to_string(),
        },
    ]));
    e.apply(&ev_cwd(
        "SessionStart",
        "allowlisted",
        "/tmp/allowlisted-proj",
    ));

    e.set_ignore_rules(ignore_rules());
    e.apply(&ev_cwd(
        "UserPromptSubmit",
        "revealed",
        "/x/.local/share/ecc-homunculus/projects/deadbeef",
    ));
    e.apply(&HookEvent {
        hook_event_name: "Notification".to_string(),
        session_id: "revealed".to_string(),
        cwd: "/x/.local/share/ecc-homunculus/projects/deadbeef".to_string(),
        notification_type: Some("permission_prompt".to_string()),
        ..Default::default()
    });
    assert!(!e.is_hidden("revealed"), "revealed sticks visible");

    let preview = e.preview_hidden_by(Matcher::CwdContains {
        value: "proj".to_string(),
    });
    assert!(
        preview.iter().all(|v| v.session_id != "allowlisted"),
        "never_hide wins"
    );
    assert!(
        preview.iter().all(|v| v.session_id != "revealed"),
        "sticky reveal wins"
    );
}

#[test]
fn preview_does_not_mutate_engine_rules() {
    let mut e = Engine::new(Duration::from_secs(600), Duration::from_secs(3600));
    e.apply(&ev_cwd("SessionStart", "a", "/tmp/proj-a"));
    let before = e.hidden_count();
    let _ = e.preview_hidden_by(Matcher::CwdContains {
        value: "proj-a".to_string(),
    });
    assert_eq!(e.hidden_count(), before);
}

#[test]
fn audit_lists_every_hidden_session_with_its_rule() {
    let mut e = Engine::new(Duration::from_secs(600), Duration::from_secs(3600));
    e.set_ignore_rules(ignore_rules());
    e.apply(&ev_cwd(
        "UserPromptSubmit",
        "cwd-hidden",
        "/x/.local/share/ecc-homunculus/projects/b4807c9eabf7",
    ));
    e.apply(&ev_cwd(
        "UserPromptSubmit",
        "prompt-hidden",
        "/home/me/proj",
    ));
    e.set_first_prompt(
        "prompt-hidden",
        Some("IMPORTANT: You are running in non-interactive --print mode".to_string()),
    );
    e.apply(&ev_cwd("UserPromptSubmit", "visible", "/home/me/other"));

    let audit = e.hidden_audit();
    assert_eq!(audit.len(), 2, "only the two hidden sessions appear");
    let cwd_entry = audit
        .iter()
        .find(|h| h.session.session_id == "cwd-hidden")
        .expect("cwd-hidden session must appear in the audit");
    assert_eq!(
        cwd_entry.rule,
        Matcher::CwdContains {
            value: "ecc-homunculus".to_string()
        }
    );
    let prompt_entry = audit
        .iter()
        .find(|h| h.session.session_id == "prompt-hidden")
        .expect("prompt-hidden session must appear in the audit");
    assert_eq!(
        prompt_entry.rule,
        Matcher::FirstPromptPrefix {
            value: "IMPORTANT: You are running in non-interactive".to_string()
        }
    );
    assert!(audit.iter().all(|h| h.session.session_id != "visible"));
}

#[test]
fn audit_attributes_cwd_before_prompt_when_both_match() {
    let mut e = Engine::new(Duration::from_secs(600), Duration::from_secs(3600));
    e.set_ignore_rules(ignore_rules());
    e.apply(&ev_cwd(
        "UserPromptSubmit",
        "both",
        "/x/.local/share/ecc-homunculus/projects/deadbeef",
    ));
    e.set_first_prompt(
        "both",
        Some("IMPORTANT: You are running in non-interactive --print mode".to_string()),
    );
    let audit = e.hidden_audit();
    assert_eq!(audit.len(), 1);
    assert_eq!(
        audit[0].rule,
        Matcher::CwdContains {
            value: "ecc-homunculus".to_string()
        },
        "cwd rule reported even though the prompt rule also matches"
    );
}

#[test]
fn audit_excludes_never_hide_and_revealed() {
    let mut e = Engine::new(Duration::from_secs(600), Duration::from_secs(3600));
    e.set_never_hide(IgnoreRules::new(vec![
        Matcher::CwdContains {
            value: "allowlisted".to_string(),
        },
    ]));
    e.set_ignore_rules(ignore_rules());
    e.apply(&ev_cwd(
        "UserPromptSubmit",
        "allowlisted",
        "/x/.local/share/ecc-homunculus/projects/allowlisted",
    ));
    e.apply(&ev_cwd(
        "UserPromptSubmit",
        "revealed",
        "/x/.local/share/ecc-homunculus/projects/deadbeef",
    ));
    e.apply(&HookEvent {
        hook_event_name: "Notification".to_string(),
        session_id: "revealed".to_string(),
        cwd: "/x/.local/share/ecc-homunculus/projects/deadbeef".to_string(),
        notification_type: Some("permission_prompt".to_string()),
        ..Default::default()
    });
    assert!(!e.is_hidden("revealed"), "premise: revealed sticks visible");

    let audit = e.hidden_audit();
    assert!(audit.iter().all(|h| h.session.session_id != "allowlisted"));
    assert!(audit.iter().all(|h| h.session.session_id != "revealed"));
}

#[test]
fn audit_len_equals_hidden_count() {
    let mut e = Engine::new(Duration::from_secs(600), Duration::from_secs(3600));
    e.set_ignore_rules(ignore_rules());
    e.apply(&ev_cwd(
        "UserPromptSubmit",
        "bot1",
        "/x/.local/share/ecc-homunculus/projects/a",
    ));
    e.apply(&ev_cwd(
        "UserPromptSubmit",
        "bot2",
        "/x/.local/share/ecc-homunculus/projects/b",
    ));
    e.apply(&ev_cwd("UserPromptSubmit", "visible", "/home/me/proj"));
    assert_eq!(e.hidden_audit().len(), e.hidden_count());
}

#[test]
fn audit_is_empty_with_no_rules() {
    let mut e = Engine::new(Duration::from_secs(600), Duration::from_secs(3600));
    e.apply(&ev_cwd(
        "UserPromptSubmit",
        "bot",
        "/x/.local/share/ecc-homunculus/projects/a",
    ));
    assert!(e.hidden_audit().is_empty());
}

#[test]
fn ignore_rules_iter_yields_declaration_order() {
    let rules = ignore_rules();
    let kinds: Vec<&Matcher> = rules.iter().collect();
    assert_eq!(kinds.len(), 2);
    assert!(matches!(
        kinds[0],
        Matcher::CwdContains { .. }
    ));
    assert!(matches!(
        kinds[1],
        Matcher::FirstPromptPrefix { .. }
    ));
}

#[test]
fn no_rules_hide_nothing() {
    let mut e = Engine::new(Duration::from_secs(600), Duration::from_secs(3600));
    e.apply(&ev_cwd(
        "UserPromptSubmit",
        "bot",
        "/x/ecc-homunculus/projects/b4807c9eabf7",
    ));
    assert_eq!(e.snapshot().len(), 1);
    assert_eq!(e.rollup(), Rollup::Orange);
    assert!(!e.is_hidden("bot"));
}

#[test]
fn clearing_rules_reveals_a_hidden_session() {
    let mut e = Engine::new(Duration::from_secs(600), Duration::from_secs(3600));
    e.set_ignore_rules(ignore_rules());
    e.apply(&ev_cwd(
        "UserPromptSubmit",
        "bot",
        "/x/ecc-homunculus/projects/b4807c9eabf7",
    ));
    assert!(e.snapshot().is_empty());
    e.set_ignore_rules(IgnoreRules::default());
    assert_eq!(e.snapshot().len(), 1);
    assert_eq!(e.rollup(), Rollup::Orange);
}

#[test]
fn event_to_state_derivation_table() {
    let cases: &[(&str, State)] = &[
        ("SessionStart", State::Ready),
        ("UserPromptSubmit", State::Working),
        ("PreToolUse", State::Working),
        ("PreCompact", State::Working),
        ("PostCompact", State::Ready),
        ("Stop", State::Ready),
    ];
    for (name, want) in cases {
        let mut e = Engine::new(Duration::from_secs(600), Duration::from_secs(3600));
        e.apply(&ev(name, "a"));
        assert_eq!(
            state_of(&e, "a"),
            *want,
            "event {name} should derive {want:?}"
        );
    }
    for ty in ["permission_prompt", "elicitation_dialog"] {
        let mut e = Engine::new(Duration::from_secs(600), Duration::from_secs(3600));
        e.apply(&notif("a", ty));
        assert_eq!(state_of(&e, "a"), State::NeedsYou, "{ty} → NeedsYou");
    }
}

#[test]
fn rollup_full_priority_ordering() {
    let mut e = Engine::new(Duration::from_secs(600), Duration::from_secs(3600));
    assert_eq!(e.rollup(), Rollup::Grey, "no sessions → Grey");

    e.apply(&ev("SessionStart", "ready")); // Ready
    assert_eq!(e.rollup(), Rollup::Green);

    e.apply(&ev("UserPromptSubmit", "working")); // + Working
    assert_eq!(e.rollup(), Rollup::Orange, "Working outranks Ready");

    e.apply(&notif("needs", "permission_prompt")); // + NeedsYou
    assert_eq!(e.rollup(), Rollup::Red, "NeedsYou outranks all");

    e.apply(&ev("SessionEnd", "needs"));
    assert_eq!(e.rollup(), Rollup::Orange);
    e.apply(&ev("SessionEnd", "working"));
    assert_eq!(e.rollup(), Rollup::Green);
    e.apply(&ev("SessionEnd", "ready"));
    assert_eq!(e.rollup(), Rollup::Grey);
}

#[test]
fn rollup_excludes_stale_sessions() {
    let mut e = Engine::new(Duration::from_millis(0), Duration::from_secs(3600));
    e.apply(&notif("old", "permission_prompt")); // live → would be Red
    assert_eq!(e.rollup(), Rollup::Red);
    e.sweep(); // stale_timeout 0 → immediately stale
    assert!(e.snapshot()[0].stale, "swept stale");
    assert_eq!(e.rollup(), Rollup::Grey, "all-stale → Grey, not Red");
}

#[test]
fn stale_session_revives_on_next_event() {
    let mut e = Engine::new(Duration::from_millis(0), Duration::from_secs(3600));
    e.apply(&ev("UserPromptSubmit", "a"));
    e.sweep();
    assert!(e.snapshot()[0].stale, "went stale");
    assert_eq!(e.rollup(), Rollup::Grey);

    e.apply(&ev("PostToolUse", "a")); // heartbeat
    assert!(!e.snapshot()[0].stale, "event revived the row");
    assert_eq!(
        e.rollup(),
        Rollup::Orange,
        "back to its prior Working state"
    );
}

#[test]
fn sweep_on_empty_engine_is_noop() {
    let mut e = Engine::new(Duration::from_secs(600), Duration::from_secs(3600));
    let out = e.sweep();
    assert!(!out.changed, "nothing to sweep");
    assert!(out.went_stale.is_empty());
    assert_eq!(e.rollup(), Rollup::Grey);
}

#[test]
fn stop_with_live_subagents_stays_working() {
    let mut e = Engine::new(Duration::from_secs(600), Duration::from_secs(3600));
    e.apply(&ev("UserPromptSubmit", "a"));
    e.apply(&sub_ev("SubagentStart", "a"));
    e.apply(&sub_ev("SubagentStart", "a"));
    e.apply(&ev("Stop", "a"));
    assert_eq!(state_of(&e, "a"), State::Working, "deferred, not lost");
    assert_eq!(sub_count(&e, "a"), 2, "subagents still counted");
}

#[test]
fn last_subagent_stop_releases_the_deferred_green() {
    let mut e = Engine::new(Duration::from_secs(600), Duration::from_secs(3600));
    e.apply(&ev("UserPromptSubmit", "a"));
    e.apply(&sub_ev("SubagentStart", "a"));
    e.apply(&sub_ev("SubagentStart", "a"));
    e.apply(&ev("Stop", "a"));
    e.apply(&sub_ev("SubagentStop", "a"));
    assert_eq!(
        state_of(&e, "a"),
        State::Working,
        "one subagent still running"
    );
    e.apply(&sub_ev("SubagentStop", "a"));
    assert_eq!(
        state_of(&e, "a"),
        State::Ready,
        "last one releases the green"
    );
}

#[test]
fn blocked_session_with_subagents_stays_red() {
    let mut e = Engine::new(Duration::from_secs(600), Duration::from_secs(3600));
    e.apply(&notif("a", "permission_prompt"));
    e.apply(&sub_ev("SubagentStart", "a"));
    e.apply(&ev("Stop", "a"));
    assert_eq!(state_of(&e, "a"), State::NeedsYou, "block outranks Stop");
    e.apply(&sub_ev("SubagentStop", "a"));
    assert_eq!(
        state_of(&e, "a"),
        State::NeedsYou,
        "block outranks the deferred release too"
    );
}

#[test]
fn subagent_stop_without_owed_transition_does_not_recolor() {
    let mut e = Engine::new(Duration::from_secs(600), Duration::from_secs(3600));
    e.apply(&ev("UserPromptSubmit", "a"));
    e.apply(&sub_ev("SubagentStart", "a"));
    assert_eq!(state_of(&e, "a"), State::Working);
    e.apply(&sub_ev("SubagentStop", "a"));
    assert_eq!(
        state_of(&e, "a"),
        State::Working,
        "no transition was owed — state is unchanged, not recomputed"
    );
}

#[test]
fn flagged_session_finishes_into_waiting_review() {
    let mut e = Engine::new(Duration::from_secs(600), Duration::from_secs(3600));
    e.apply(&ev("SessionStart", "a"));
    e.set_review_flag("a", true);
    e.apply(&ev("Stop", "a"));
    assert_eq!(state_of(&e, "a"), State::WaitingReview);
}

#[test]
fn unflagged_session_still_finishes_ready() {
    let mut e = Engine::new(Duration::from_secs(600), Duration::from_secs(3600));
    e.apply(&ev("SessionStart", "a"));
    e.apply(&ev("Stop", "a"));
    assert_eq!(state_of(&e, "a"), State::Ready);
}

#[test]
fn flagged_session_with_subagents_defers_then_reviews() {
    let mut e = Engine::new(Duration::from_secs(600), Duration::from_secs(3600));
    e.apply(&ev("UserPromptSubmit", "a"));
    e.set_review_flag("a", true);
    e.apply(&sub_ev("SubagentStart", "a"));
    e.apply(&ev("Stop", "a"));
    assert_eq!(state_of(&e, "a"), State::Working, "deferred first");
    e.apply(&sub_ev("SubagentStop", "a"));
    assert_eq!(
        state_of(&e, "a"),
        State::WaitingReview,
        "resolves into the flagged terminal state, not plain Ready"
    );
}

#[test]
fn clearing_the_flag_restores_ready() {
    let mut e = Engine::new(Duration::from_secs(600), Duration::from_secs(3600));
    e.apply(&ev("SessionStart", "a"));
    e.set_review_flag("a", true);
    e.set_review_flag("a", false);
    e.apply(&ev("Stop", "a"));
    assert_eq!(state_of(&e, "a"), State::Ready);
}

#[test]
fn clearing_the_flag_on_an_already_finished_session_returns_to_ready_now() {
    let mut e = Engine::new(Duration::from_secs(600), Duration::from_secs(3600));
    e.apply(&ev("SessionStart", "a"));
    e.set_review_flag("a", true);
    e.apply(&ev("Stop", "a"));
    assert_eq!(state_of(&e, "a"), State::WaitingReview);

    e.set_review_flag("a", false);
    assert_eq!(
        state_of(&e, "a"),
        State::Ready,
        "clearing the flag must restore Ready instantly, with no further event needed"
    );
    assert_eq!(
        e.rollup(),
        Rollup::Green,
        "the tray must reflect it instantly too"
    );
}

#[test]
fn flagging_a_session_currently_at_ready_does_not_jump_state() {
    let mut e = Engine::new(Duration::from_secs(600), Duration::from_secs(3600));
    e.apply(&ev("SessionStart", "a"));
    assert_eq!(state_of(&e, "a"), State::Ready);
    e.set_review_flag("a", true);
    assert_eq!(
        state_of(&e, "a"),
        State::Ready,
        "flagging alone must not recolor an already-Ready row"
    );
    e.apply(&ev("Stop", "a"));
    assert_eq!(
        state_of(&e, "a"),
        State::WaitingReview,
        "but the next finish honors it"
    );
}

#[test]
fn rollup_prefers_needs_you_over_review() {
    let mut e = Engine::new(Duration::from_secs(600), Duration::from_secs(3600));
    e.apply(&notif("blocked", "permission_prompt"));
    e.apply(&ev("SessionStart", "reviewed"));
    e.set_review_flag("reviewed", true);
    e.apply(&ev("Stop", "reviewed"));
    assert_eq!(e.rollup(), Rollup::Red, "NeedsYou still outranks Review");
}

#[test]
fn rollup_prefers_review_over_working() {
    let mut e = Engine::new(Duration::from_secs(600), Duration::from_secs(3600));
    e.apply(&ev("UserPromptSubmit", "working"));
    e.apply(&ev("SessionStart", "reviewed"));
    e.set_review_flag("reviewed", true);
    e.apply(&ev("Stop", "reviewed"));
    assert_eq!(e.rollup(), Rollup::Review, "Review outranks Working");
}

#[test]
fn review_flag_clears_on_session_end() {
    let mut e = Engine::new(Duration::from_secs(600), Duration::from_secs(3600));
    e.apply(&ev("SessionStart", "a"));
    e.set_review_flag("a", true);
    e.apply(&ev("SessionEnd", "a"));
    e.apply(&ev("SessionStart", "a"));
    e.apply(&ev("Stop", "a"));
    assert_eq!(
        state_of(&e, "a"),
        State::Ready,
        "flag did not survive the restart"
    );
}

#[test]
fn unknown_notification_types_fail_open() {
    for ty in ["agent_completed", "agent_needs_input", "some_future_type"] {
        let mut e = Engine::new(Duration::from_secs(600), Duration::from_secs(3600));
        e.apply(&ev("UserPromptSubmit", "a"));
        let before = state_of(&e, "a");
        let out = e.apply(&notif("a", ty));
        assert_eq!(state_of(&e, "a"), before, "{ty} must not change state");
        assert!(out.changed, "{ty} still refreshes last_seen (heartbeat)");
    }
}

#[test]
fn unknown_notification_cannot_disturb_waiting_review() {
    let mut e = Engine::new(Duration::from_secs(600), Duration::from_secs(3600));
    e.apply(&ev("SessionStart", "a"));
    e.set_review_flag("a", true);
    e.apply(&ev("Stop", "a"));
    assert_eq!(state_of(&e, "a"), State::WaitingReview);
    e.apply(&notif("a", "agent_completed"));
    assert_eq!(state_of(&e, "a"), State::WaitingReview);
}

#[test]
fn unknown_notification_cannot_release_deferred_green() {
    let mut e = Engine::new(Duration::from_secs(600), Duration::from_secs(3600));
    e.apply(&ev("UserPromptSubmit", "a"));
    e.apply(&sub_ev("SubagentStart", "a"));
    e.apply(&ev("Stop", "a"));
    assert_eq!(state_of(&e, "a"), State::Working);
    e.apply(&notif("a", "agent_completed"));
    assert_eq!(
        state_of(&e, "a"),
        State::Working,
        "still deferred — only SubagentStop may release it"
    );
}
