use session_signals::cli_alert::{
    example_stub_extension, example_stub_names, example_stub_source, example_stub_states,
    in_flight_key, outcome_text, reap, resolve_in, seed_example_stubs, state_slug,
    stub_extensions, stub_filenames, test_invocation, AlertsFolder, FireOutcome, FirePlan, Glance,
    InFlight, Reap, StubInvocation, README_TEXT,
};
use session_signals::label::Platform;
use session_signals::session::State;
use session_signals::time::Duration;
use std::collections::HashSet;

const PLATFORMS: [Platform; 3] = [Platform::Windows, Platform::MacOs, Platform::Other];

const STATES: [State; 4] = [
    State::NeedsYou,
    State::Working,
    State::Ready,
    State::WaitingReview,
];

/// What `resolve_in` is told of a folder that holds these files.
fn present(files: &[&str], state: State, platform: Platform) -> Vec<bool> {
    stub_filenames(state, platform)
        .iter()
        .map(|name| files.contains(&name.as_str()))
        .collect()
}

fn resolve(files: &[&str], state: State, platform: Platform) -> Option<String> {
    resolve_in(&present(files, state, platform), state, platform)
}

#[test]
fn example_stub_extension_is_platform_appropriate() {
    assert_eq!(example_stub_extension(Platform::Windows), "bat");
    assert_eq!(example_stub_extension(Platform::MacOs), "sh");
    assert_eq!(example_stub_extension(Platform::Other), "sh");
}

#[test]
fn example_stub_source_names_itself_and_its_own_log_folder() {
    for (ext, shebang) in [("bat", "@echo off"), ("sh", "#!/bin/sh")] {
        let src = example_stub_source("needs_you", ext);
        assert!(
            src.starts_with(shebang),
            "{ext} source must start with {shebang}"
        );
        assert!(
            src.contains("on_needs_you"),
            "{ext} source must name its own file"
        );
        assert!(
            src.contains("needs_you"),
            "{ext} source must reference its own log subfolder"
        );
    }
}

#[test]
fn example_stub_source_is_spelled_out() {
    let sh = example_stub_source("ready", "sh");
    assert!(sh.contains("LOGDIR=\"$DIR/logs/ready\"\n"));
    assert!(sh.contains("  {\n    echo \"# Session Signals -- ready stub log\"\n"));
    assert!(sh.contains("    echo \"# Written by on_ready.sh, a working example stub shipped with\"\n"));
    assert!(sh.ends_with(
        "echo \"$(date) state=$STATE project=$PROJECT branch=$BRANCH descriptor=$DESCRIPTOR\" >> \"$LOGFILE\"\n"
    ));
    let bat = example_stub_source("ready", "bat");
    assert!(bat.contains("set \"LOGDIR=%~dp0logs\\ready\"\n"));
    assert!(bat.contains("echo # Session Signals -- ready stub log\n"));
    assert!(bat.contains("echo # Written by on_ready.bat, a working example stub shipped\n"));
    assert!(bat.ends_with("endlocal\n"));
}

#[test]
fn seed_example_stubs_creates_exactly_the_three_named_states() {
    for platform in PLATFORMS {
        let ext = example_stub_extension(platform);
        let seeds = seed_example_stubs(&vec![false, false, false], platform);
        let names: Vec<String> = seeds.iter().map(|s| s.0.clone()).collect();
        let expected: Vec<String> = example_stub_states()
            .iter()
            .map(|s| format!("on_{}.{ext}", state_slug(*s)))
            .collect();
        assert_eq!(names, expected);
        assert_eq!(names, example_stub_names(platform));
        assert!(!names.contains(&format!("on_working.{ext}")));
        for (i, state) in example_stub_states().iter().enumerate() {
            assert_eq!(seeds[i].1, example_stub_source(state_slug(*state), ext));
        }
    }
}

#[test]
fn seed_example_stubs_never_overwrites_an_existing_file() {
    let seeds = seed_example_stubs(&vec![true, false, true], Platform::Other);
    assert_eq!(seeds.len(), 1);
    assert_eq!(seeds[0].0, "on_ready.sh");
    assert!(seed_example_stubs(&vec![true, true, true], Platform::Windows).is_empty());
}

#[test]
fn stub_filenames_follow_the_on_state_convention() {
    for platform in PLATFORMS {
        let names = stub_filenames(State::NeedsYou, platform);
        for name in &names {
            assert!(name.starts_with("on_needs_you."));
        }
    }
}

#[test]
fn extension_precedence_is_platform_correct() {
    for platform in PLATFORMS {
        let names = stub_filenames(State::Ready, platform);
        let expected: Vec<String> = stub_extensions(platform)
            .iter()
            .map(|ext| format!("on_ready.{ext}"))
            .collect();
        assert_eq!(names, expected);
    }
    assert_eq!(stub_extensions(Platform::Windows), vec!["exe", "bat", "cmd"]);
    assert_eq!(stub_extensions(Platform::MacOs), vec!["sh", "command"]);
    assert_eq!(stub_extensions(Platform::Other), vec!["sh"]);
}

#[test]
fn missing_folder_and_missing_stub_resolve_to_none() {
    for platform in PLATFORMS {
        assert_eq!(resolve(&[], State::Working, platform), None);
    }
}

#[test]
fn resolve_in_finds_a_stub_and_honors_precedence() {
    for platform in PLATFORMS {
        let exts = stub_extensions(platform);
        let low = format!("on_waiting_review.{}", exts[exts.len() - 1]);
        let high = format!("on_waiting_review.{}", exts[0]);
        let resolved = resolve(&[&low, &high], State::WaitingReview, platform);
        assert_eq!(resolved, Some(high));
        assert_eq!(
            resolve(&[&low], State::WaitingReview, platform),
            Some(low.clone())
        );
    }
}

#[test]
fn a_directory_named_like_a_stub_is_not_a_stub() {
    for platform in PLATFORMS {
        // A directory is no file, whatever its name.
        let is_file = vec![false; stub_extensions(platform).len()];
        assert_eq!(resolve_in(&is_file, State::NeedsYou, platform), None);
    }
}

#[test]
fn every_platform_has_at_least_one_stub_extension() {
    for platform in PLATFORMS {
        assert!(!stub_extensions(platform).is_empty());
    }
}

#[test]
fn stub_extensions_are_bare_lowercase_tokens() {
    for platform in PLATFORMS {
        for ext in stub_extensions(platform) {
            assert!(!ext.starts_with('.'), "{ext} must not include the dot");
            assert!(!ext.is_empty());
            assert_eq!(*ext, ext.to_ascii_lowercase(), "{ext} must be lowercase");
            assert!(
                ext.chars().all(|c| c.is_ascii_alphanumeric()),
                "{ext} must be a plain alphanumeric extension"
            );
        }
    }
}

#[test]
fn stub_extensions_are_unique() {
    for platform in PLATFORMS {
        let mut seen = HashSet::new();
        for ext in stub_extensions(platform) {
            assert!(seen.insert(ext), "duplicate extension {ext}");
        }
    }
}

#[test]
fn all_four_states_produce_candidates_on_every_platform() {
    for platform in PLATFORMS {
        for state in STATES {
            let names = stub_filenames(state, platform);
            assert_eq!(
                names.len(),
                stub_extensions(platform).len(),
                "{state:?} must have one candidate per extension"
            );
            for name in &names {
                assert!(name.starts_with(&format!("on_{}", state_slug(state))));
            }
        }
    }
}

#[test]
fn state_stub_filenames_do_not_collide() {
    for platform in PLATFORMS {
        let mut seen = HashSet::new();
        for state in STATES {
            for name in stub_filenames(state, platform) {
                assert!(seen.insert(name.clone()), "collision on {name}");
            }
        }
    }
}

#[test]
fn a_foreign_platform_extension_does_not_resolve() {
    for platform in PLATFORMS {
        let foreign = if stub_extensions(platform).contains(&"exe") {
            "sh"
        } else {
            "exe"
        };
        let file = format!("on_needs_you.{foreign}");
        assert_eq!(resolve(&[&file], State::NeedsYou, platform), None);
    }
}

#[test]
fn readme_documents_every_extension_for_this_platform() {
    for platform in PLATFORMS {
        for ext in stub_extensions(platform) {
            assert!(
                README_TEXT.contains(&format!(".{ext}")),
                "README does not document .{ext}"
            );
        }
    }
}

#[test]
fn in_flight_guard_blocks_only_the_same_session_and_state() {
    let mut guard = InFlight::new();
    let key_a = in_flight_key("session-a", State::NeedsYou);
    let key_b = in_flight_key("session-b", State::NeedsYou);
    let key_c = in_flight_key("session-a", State::Working);

    assert!(guard.claim(&key_a));
    assert!(!guard.claim(&key_a));
    assert!(guard.claim(&key_b));
    assert!(guard.claim(&key_c));

    guard.release(&key_a);
    assert!(guard.claim(&key_a));

    guard.release(&key_a);
    guard.release(&key_b);
    guard.release(&key_c);
}

#[test]
fn a_key_names_its_session_and_state() {
    assert_eq!(in_flight_key("s1", State::WaitingReview), "s1:waiting_review");
    assert_ne!(
        in_flight_key("a:ready", State::Ready),
        in_flight_key("a", State::Ready)
    );
}

fn invocation(session_id: &str) -> StubInvocation {
    StubInvocation {
        session_id: session_id.to_string(),
        state: State::NeedsYou,
        project: "proj".to_string(),
        branch: None,
        descriptor: Some("Fix the parser".to_string()),
    }
}

#[test]
fn a_script_gets_four_arguments_in_order() {
    let mut guard = InFlight::new();
    match guard.plan_fire(true, invocation("a")) {
        FirePlan::Run { key, args } => {
            assert_eq!(key, "a:needs_you");
            assert_eq!(args, vec!["needs_you", "proj", "", "Fix the parser"]);
        }
        FirePlan::Skip(_) => panic!("a free key with a script must run"),
    }
}

#[test]
fn firing_is_skipped_without_a_script_and_while_one_runs() {
    let mut guard = InFlight::new();
    assert!(matches!(
        guard.plan_fire(false, invocation("a")),
        FirePlan::Skip(FireOutcome::NoStub)
    ));
    assert!(matches!(
        guard.plan_fire(true, invocation("a")),
        FirePlan::Run { .. }
    ));
    assert!(matches!(
        guard.plan_fire(true, invocation("a")),
        FirePlan::Skip(FireOutcome::Busy)
    ));
    assert!(matches!(
        guard.plan_fire(true, invocation("b")),
        FirePlan::Run { .. }
    ));
}

#[test]
fn a_thread_that_cannot_start_gives_its_key_back() {
    let mut guard = InFlight::new();
    assert!(guard.claim("a:ready"));
    assert_eq!(guard.handed_over("a:ready", true), FireOutcome::Fired);
    assert!(!guard.claim("a:ready"));
    assert_eq!(guard.handed_over("a:ready", false), FireOutcome::NoStub);
    assert!(guard.claim("a:ready"));
}

#[test]
fn a_script_is_killed_after_half_a_minute() {
    let short = Duration::from_millis(29_999);
    let long = Duration::from_secs(30);
    assert_eq!(reap(Glance::Running, short), Reap::Wait);
    assert_eq!(reap(Glance::Running, long), Reap::Kill);
    assert_eq!(reap(Glance::Exited, long), Reap::Done);
    assert_eq!(reap(Glance::Failed, short), Reap::Done);
}

#[test]
fn outcomes_have_words() {
    assert_eq!(outcome_text(FireOutcome::Fired), "fired");
    assert_eq!(outcome_text(FireOutcome::NoStub), "no_stub");
    assert_eq!(outcome_text(FireOutcome::Busy), "busy");
    let trial = test_invocation(State::Ready);
    assert_eq!(trial.session_id, "test");
    assert_eq!(trial.project, "Session Signals");
    assert_eq!(trial.branch, None);
    assert_eq!(trial.descriptor.as_deref(), Some("Manual test from Settings"));
}

#[test]
fn the_folder_is_settled_once() {
    let mut folder = AlertsFolder::new();
    let none = vec![false; 3];
    let some = vec![false, true, true];
    assert_eq!(folder.alerts_dir(), None);
    assert_eq!(folder.stub_for(&some, State::Ready, Platform::Windows), None);
    folder.settle("/data/alerts".to_string());
    folder.settle("/elsewhere".to_string());
    assert_eq!(folder.alerts_dir().as_deref(), Some("/data/alerts"));
    assert_eq!(folder.stub_for(&none, State::Ready, Platform::Windows), None);
    assert_eq!(
        folder.stub_for(&some, State::Ready, Platform::Windows),
        Some(("/data/alerts".to_string(), "on_ready.bat".to_string()))
    );
}
