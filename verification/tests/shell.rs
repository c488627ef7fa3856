use session_signals::config::{Config, StateNotify};
use session_signals::engine::Engine;
use session_signals::event::HookEvent;
use session_signals::ignore::{IgnoreRules, Matcher};
use session_signals::markers::MarkerRule;
use session_signals::session::{CapturedTerminal, Rollup, State};
use session_signals::shell::{
    add_opening_rule, alert_policies, config_change, configure, effects, effects_of,
    fire_stub, first_step, may_observe, next_step, reconfigure, same_rules, state_pref,
    suggestion_count_changed, sweep_tick, sweep_tick_at, wants_descriptor, wants_descriptor_at,
    update_captures, wants_first_prompt, wants_first_prompt_at, ConfigStep,
};
use session_signals::table::Table;
use session_signals::time::Duration;

fn engine() -> Engine {
    Engine::new(Duration::from_secs(600), Duration::from_secs(3600))
}

fn ev(name: &str) -> HookEvent {
    HookEvent {
        hook_event_name: name.to_string(),
        session_id: "a".to_string(),
        cwd: "/tmp/proj".to_string(),
        transcript_path: Some("/tmp/t.jsonl".to_string()),
        ..Default::default()
    }
}

fn block() -> HookEvent {
    HookEvent {
        notification_type: Some("permission_prompt".to_string()),
        ..ev("Notification")
    }
}

#[test]
fn suggestion_count_unchanged_is_not_reported_as_changed() {
    let mut last = 3;
    assert!(
        !suggestion_count_changed(&mut last, 3),
        "same count → no change"
    );
    assert_eq!(last, 3, "unchanged value is left untouched");
}

#[test]
fn suggestion_count_change_is_reported_and_stored() {
    let mut last = 0;
    assert!(suggestion_count_changed(&mut last, 2), "0 -> 2 is a change");
    assert_eq!(last, 2);
    assert!(
        !suggestion_count_changed(&mut last, 2),
        "calling again with the same count is a no-op"
    );
    assert!(
        suggestion_count_changed(&mut last, 0),
        "2 -> 0 (e.g. all proposals accepted/dismissed) is also a change"
    );
    assert_eq!(last, 0);
}

#[test]
fn accepting_a_suggestion_twice_adds_one_rule() {
    let mut rules = vec![Matcher::CwdContains {
        value: "x".to_string(),
    }];
    assert!(add_opening_rule(&mut rules, "x".to_string()));
    assert!(!add_opening_rule(&mut rules, "x".to_string()));
    assert_eq!(rules.len(), 2);
    assert_eq!(
        rules[1],
        Matcher::FirstPromptPrefix {
            value: "x".to_string()
        }
    );
}

#[test]
fn each_state_has_its_setting() {
    let cfg = Config::default();
    assert_eq!(state_pref(&cfg, State::NeedsYou).sound_name, "Ping");
    assert_eq!(state_pref(&cfg, State::Working).sound_name, "Pop");
    assert_eq!(state_pref(&cfg, State::Ready).sound_name, "Glass");
    assert!(state_pref(&cfg, State::WaitingReview).enabled);
    let policies = alert_policies(&cfg);
    assert!(policies.needs_you.enabled);
    assert!(!policies.working.enabled);
    assert_eq!(policies.ready.cooldown_secs, 120);
    assert_eq!(policies.waiting_review.max_triggers, 3);
}

#[test]
fn a_script_needs_both_switches() {
    for (enabled, cli, runs) in [
        (true, true, true),
        (true, false, false),
        (false, true, false),
        (false, false, false),
    ] {
        let cfg = Config {
            ready: StateNotify {
                enabled,
                cli_enabled: cli,
                ..StateNotify::default()
            },
            ..Config::default()
        };
        let inv = fire_stub(
            &cfg,
            State::Ready,
            "a",
            "proj",
            Some("main".to_string()),
            None,
        );
        assert_eq!(inv.is_some(), runs);
        if let Some(inv) = inv {
            assert_eq!(inv.session_id, "a");
            assert_eq!(inv.project, "proj");
            assert_eq!(inv.branch.as_deref(), Some("main"));
            assert_eq!(inv.descriptor, None);
        }
    }
}

#[test]
fn terminals_are_remembered_and_forgotten() {
    let mut captures: Table<CapturedTerminal> = Table::new();
    assert!(!update_captures(&mut captures, &ev("Stop")));
    assert!(!update_captures(&mut captures, &ev("BeaconTerminal")));
    assert!(!update_captures(&mut captures, &ev("SessionEnd")));
    let told = HookEvent {
        terminal_pid: Some(7),
        terminal_app: Some("iTerm2".to_string()),
        ..ev("BeaconTerminal")
    };
    assert!(update_captures(&mut captures, &told));
    let t = captures.get("a").unwrap();
    assert_eq!(t.pid, Some(7));
    assert_eq!(t.app.as_deref(), Some("iTerm2"));
    assert_eq!(t.tty, None);
    assert!(update_captures(&mut captures, &ev("SessionEnd")));
    assert!(captures.get("a").is_none());
}

#[test]
fn hidden_sessions_are_not_told_of() {
    let e = effects(true, false, false, true, true);
    assert!(e.refresh && e.refresh_proposals && !e.notify);
    let e = effects(false, true, false, true, false);
    assert!(e.refresh && !e.refresh_proposals && e.notify);
    let e = effects(false, false, true, false, false);
    assert!(e.refresh && e.refresh_proposals && !e.notify);
    let e = effects(false, false, false, false, false);
    assert!(!e.refresh && !e.refresh_proposals && !e.notify);
}

#[test]
fn descriptors_are_derived_on_prompts_and_in_their_time() {
    let mut e = engine();
    assert!(!wants_descriptor(&e, &ev("Stop")), "unknown session");
    assert!(wants_descriptor(&e, &ev("UserPromptSubmit")));
    e.apply(&ev("SessionStart"));
    assert!(wants_descriptor(&e, &ev("Stop")), "never tried");
    e.set_descriptor("a", None);
    let now = e.now();
    assert!(!wants_descriptor_at(&e, &ev("Stop"), now));
    assert!(wants_descriptor_at(
        &e,
        &ev("Stop"),
        now + Duration::from_secs(5)
    ));
    e.set_descriptor("a", Some("Tidy up".to_string()));
    let now = e.now();
    assert!(!wants_descriptor_at(
        &e,
        &ev("Stop"),
        now + Duration::from_secs(14)
    ));
    assert!(wants_descriptor_at(
        &e,
        &ev("Stop"),
        now + Duration::from_secs(15)
    ));
    let bare = HookEvent {
        transcript_path: None,
        ..ev("UserPromptSubmit")
    };
    assert!(!wants_descriptor(&e, &bare));
}

#[test]
fn first_prompts_are_read_in_their_time() {
    let mut e = engine();
    e.set_observe_enabled(true);
    e.apply(&ev("SessionStart"));
    assert!(wants_first_prompt(&e, &ev("SessionStart")));
    e.set_first_prompt("a", None);
    let now = e.now();
    assert!(!wants_first_prompt_at(&e, &ev("PostToolUse"), now));
    assert!(wants_first_prompt_at(&e, &ev("UserPromptSubmit"), now));
    assert!(wants_first_prompt_at(&e, &ev("Stop"), now));
    assert!(wants_first_prompt_at(
        &e,
        &ev("PostToolUse"),
        now + Duration::from_secs(5)
    ));
    e.set_first_prompt("a", Some("hello".to_string()));
    assert!(!wants_first_prompt(&e, &ev("Stop")));
}

#[test]
fn openings_are_counted_unless_something_speaks_against_it() {
    let cfg = Config {
        never_hide: vec![Matcher::FirstPromptPrefix {
            value: "please".to_string(),
        }],
        markers: vec![MarkerRule {
            prefix: "[me]".to_string(),
            human: true,
        }],
        ..Config::default()
    };
    assert!(may_observe(&cfg, "/tmp", "Do the thing", false));
    assert!(!may_observe(&cfg, "/tmp", "Do the thing", true));
    assert!(!may_observe(&cfg, "/tmp", "[me] do the thing", false));
    assert!(!may_observe(&cfg, "/tmp", "<command-name>", false));
    assert!(!may_observe(&cfg, "/tmp", "Please do", false));
    let off = Config {
        observe_enabled: false,
        ..cfg
    };
    assert!(!may_observe(&off, "/tmp", "Do the thing", false));
}

#[test]
fn settings_take_effect_in_the_engine() {
    let mut e = engine();
    e.apply(&ev("SessionStart"));
    let cfg = Config {
        ignore_rules: vec![Matcher::CwdContains {
            value: "proj".to_string(),
        }],
        stale_timeout_min: 1,
        idle_drop_min: 2,
        ..Config::default()
    };
    configure(&mut e, &cfg);
    assert!(e.is_hidden("a"));
    let now = e.now();
    let out = e.sweep_at(now + Duration::from_secs(60));
    assert_eq!(out.went_stale.len(), 1);
    let out = e.sweep_at(now + Duration::from_secs(120));
    assert!(out.changed);
    assert!(e.session("a").is_none());
}

#[test]
fn a_change_of_settings_puts_the_difference_in_force() {
    let mut e = engine();
    e.apply(&ev("SessionStart"));
    let old = Config::default();
    let rule = vec![Matcher::CwdContains {
        value: "proj".to_string(),
    }];
    let new = Config {
        ignore_rules: rule.clone(),
        ..Config::default()
    };
    assert!(reconfigure(&mut e, &old, &new));
    assert!(e.is_hidden("a"));
    let allowed = Config {
        never_hide: rule.clone(),
        ..new.clone()
    };
    assert!(reconfigure(&mut e, &new, &allowed));
    assert!(!e.is_hidden("a"));
    let observed = Config {
        observe_enabled: false,
        stale_timeout_min: 7,
        ..allowed.clone()
    };
    assert!(!reconfigure(&mut e, &allowed, &observed));
    assert!(same_rules(&rule, &rule.clone()));
    assert!(!same_rules(&rule, &vec![]));
}

fn walk(old: &Config, new: &Config, fails: Option<ConfigStep>, hooks: bool) -> Vec<ConfigStep> {
    let change = config_change(old, new);
    let mut step = first_step(change);
    let mut seen = vec![step];
    while step != ConfigStep::Done && step != ConfigStep::Fail {
        let ok = if step == ConfigStep::AskHooks || step == ConfigStep::AskHooksAgain {
            hooks
        } else {
            fails != Some(step)
        };
        step = next_step(change, step, ok);
        seen.push(step);
    }
    seen
}

#[test]
fn a_change_of_settings_takes_its_steps() {
    let old = Config::default();
    let same = Config::default();
    assert_eq!(
        walk(&old, &same, None, true),
        vec![
            ConfigStep::Save,
            ConfigStep::Engine,
            ConfigStep::Publish,
            ConfigStep::Done
        ]
    );
    let moved = Config {
        port: 5000,
        launch_on_login: true,
        ..Config::default()
    };
    assert_eq!(
        walk(&old, &moved, None, true),
        vec![
            ConfigStep::Bind,
            ConfigStep::Autostart,
            ConfigStep::AskHooks,
            ConfigStep::Reinstall,
            ConfigStep::Save,
            ConfigStep::Swap,
            ConfigStep::Engine,
            ConfigStep::Publish,
            ConfigStep::Done
        ]
    );
    let login_only = Config {
        launch_on_login: true,
        ..Config::default()
    };
    assert_eq!(
        walk(&old, &login_only, None, true),
        vec![
            ConfigStep::Autostart,
            ConfigStep::Save,
            ConfigStep::Engine,
            ConfigStep::Publish,
            ConfigStep::Done
        ]
    );
}

#[test]
fn a_failed_change_of_settings_is_undone() {
    let old = Config::default();
    let moved = Config {
        port: 5000,
        launch_on_login: true,
        ..Config::default()
    };
    assert_eq!(
        walk(&old, &moved, Some(ConfigStep::Bind), true),
        vec![ConfigStep::Bind, ConfigStep::Fail]
    );
    assert_eq!(
        walk(&old, &moved, Some(ConfigStep::Autostart), true),
        vec![
            ConfigStep::Bind,
            ConfigStep::Autostart,
            ConfigStep::Unbind,
            ConfigStep::Fail
        ]
    );
    assert_eq!(
        walk(&old, &moved, Some(ConfigStep::Reinstall), true),
        vec![
            ConfigStep::Bind,
            ConfigStep::Autostart,
            ConfigStep::AskHooks,
            ConfigStep::Reinstall,
            ConfigStep::RestoreHooks,
            ConfigStep::RestoreAutostart,
            ConfigStep::Unbind,
            ConfigStep::Fail
        ]
    );
    assert_eq!(
        walk(&old, &moved, Some(ConfigStep::Save), true),
        vec![
            ConfigStep::Bind,
            ConfigStep::Autostart,
            ConfigStep::AskHooks,
            ConfigStep::Reinstall,
            ConfigStep::Save,
            ConfigStep::RestoreSettings,
            ConfigStep::AskHooksAgain,
            ConfigStep::RestoreHooks,
            ConfigStep::RestoreAutostart,
            ConfigStep::Unbind,
            ConfigStep::Fail
        ]
    );
    let port_only = Config {
        port: 5000,
        ..Config::default()
    };
    assert_eq!(
        walk(&old, &port_only, Some(ConfigStep::Save), false),
        vec![
            ConfigStep::Bind,
            ConfigStep::AskHooks,
            ConfigStep::Save,
            ConfigStep::RestoreSettings,
            ConfigStep::AskHooksAgain,
            ConfigStep::Unbind,
            ConfigStep::Fail
        ]
    );
    let same = Config::default();
    assert_eq!(
        walk(&old, &same, Some(ConfigStep::Save), true),
        vec![
            ConfigStep::Save,
            ConfigStep::RestoreSettings,
            ConfigStep::Fail
        ]
    );
    let login_only = Config {
        launch_on_login: true,
        ..Config::default()
    };
    assert_eq!(
        walk(&old, &login_only, Some(ConfigStep::Autostart), true),
        vec![ConfigStep::Autostart, ConfigStep::Fail]
    );
    assert_eq!(
        walk(&old, &login_only, Some(ConfigStep::Save), true),
        vec![
            ConfigStep::Autostart,
            ConfigStep::Save,
            ConfigStep::RestoreSettings,
            ConfigStep::RestoreAutostart,
            ConfigStep::Fail
        ]
    );
}

#[test]
fn a_failed_change_of_settings_commits_nothing() {
    let old = Config::default();
    let commits = [
        ConfigStep::Swap,
        ConfigStep::Engine,
        ConfigStep::Publish,
        ConfigStep::Done,
    ];
    let failing = [
        ConfigStep::Bind,
        ConfigStep::Autostart,
        ConfigStep::Reinstall,
        ConfigStep::Save,
    ];
    for port in [old.port, 5000] {
        for launch_on_login in [false, true] {
            let new = Config {
                port,
                launch_on_login,
                ..Config::default()
            };
            for hooks in [false, true] {
                for fails in failing {
                    let seen = walk(&old, &new, Some(fails), hooks);
                    let failed = seen.contains(&fails);
                    let last = *seen.last().unwrap();
                    assert_eq!(last == ConfigStep::Fail, failed);
                    assert_eq!(seen.iter().any(|s| commits.contains(s)), !failed);
                }
            }
        }
    }
}

#[test]
fn what_an_event_calls_for_goes_by_the_engine_after_it() {
    let mut e = engine();
    let out = e.apply(&block());
    assert!(out.transition.is_some());
    let todo = effects_of(&e, &out, false, false);
    assert!(todo.refresh && todo.refresh_proposals && todo.notify);

    // An event that changes nothing.
    let out = e.apply(&ev("SomethingNew"));
    assert!(out.transition.is_none() && !out.changed);
    let todo = effects_of(&e, &out, false, false);
    assert!(!todo.refresh && !todo.refresh_proposals && !todo.notify);
    let todo = effects_of(&e, &out, true, false);
    assert!(todo.refresh && !todo.refresh_proposals && !todo.notify);

    // Nobody is told of a hidden session.
    let mut e = engine();
    e.set_ignore_rules(IgnoreRules::new(vec![Matcher::CwdContains {
        value: "/TMP".to_string(),
    }]));
    let out = e.apply(&ev("UserPromptSubmit"));
    assert!(out.transition.is_some());
    assert!(e.is_hidden("a"));
    assert!(!effects_of(&e, &out, false, false).notify);
}

#[test]
fn a_sweep_tells_of_idle_and_stuck_sessions() {
    let mut e = engine();
    e.apply(&block());
    let cfg = Config {
        notify_idle: true,
        ..Config::default()
    };
    let quiet = sweep_tick(&mut e, &cfg);
    assert!(!quiet.refresh && quiet.idle.is_empty() && quiet.due.is_empty());

    let now = e.now();
    let nudge = sweep_tick_at(&mut e, &cfg, now + Duration::from_secs(120));
    assert_eq!(nudge.due.len(), 1);
    assert_eq!(nudge.due[0].folder, "proj");
    assert_eq!(e.rollup(), Rollup::Red);

    let late = sweep_tick_at(&mut e, &cfg, now + Duration::from_secs(601));
    assert!(late.refresh);
    assert_eq!(late.idle, vec!["proj"]);
    assert!(late.due.is_empty(), "a stale session is not told of");

    let mut e = engine();
    e.apply(&block());
    let now = e.now();
    let silent = sweep_tick_at(
        &mut e,
        &Config::default(),
        now + Duration::from_secs(601),
    );
    assert!(silent.refresh && silent.idle.is_empty());
}
