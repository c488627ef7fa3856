//! What the program around the engine decides: what to read, what to show anew,
//! whom to tell, and what a change of settings entails.
use crate::alert::{alerts_told, AlertPolicies, AlertPolicy, AlertRequest};
use crate::cli_alert::StubInvocation;
use crate::config::{law_sanitized_ranges, Config, ConfigModel, NotifyModel, StateNotify};
use crate::engine::Engine;
use crate::event::{EventModel, HookEvent};
use crate::ignore::{copy_rules, meets, rules_of, IgnoreRules, Matcher, MatcherModel};
use crate::label::copy_text;
use crate::markers::{is_human, shows_person};
use crate::model::EngineModel;
use crate::report::{sweep_told, ApplyOutcome, SweepOutcome};
use crate::session::{CaptureModel, CapturedTerminal, State};
use crate::table::Table;
use crate::text::same_text;
use crate::time::{Duration, Instant, NANOS_PER_SEC};
use vstd::prelude::*;

verus! {

/// Seconds between two sweeps.
pub const SWEEP_INTERVAL_SECS: u64 = 15;

/// Seconds between two tries to derive a descriptor that has not come yet.
pub const DESCRIPTOR_RETRY_SECS: u64 = 5;

/// Seconds after which a descriptor is derived again.
pub const DESCRIPTOR_REFRESH_SECS: u64 = 15;

/// Seconds between two tries to read a first prompt that has not come yet.
pub const FIRST_PROMPT_RETRY_SECS: u64 = 5;

// ---------------------------------------------------------------------------
// Suggestions.
/// Takes over a new count. Returns whether it is another one.
pub fn suggestion_count_changed(last: &mut usize, count: usize) -> (r: bool)
    ensures
        *final(last) == count,
        r == (*old(last) != count),
{
    if *last == count {
        return false;
    }
    *last = count;
    true
}

/// The rules with one more behind them, unless it is among them.
pub open spec fn with_rule_once(rules: Seq<MatcherModel>, rule: MatcherModel) -> Seq<MatcherModel> {
    if rules.contains(rule) {
        rules
    } else {
        rules.push(rule)
    }
}

/// Puts a rule on openings with this text behind the others, unless it is there.
/// Returns whether it was not.
pub fn add_opening_rule(rules: &mut Vec<Matcher>, sample: String) -> (r: bool)
    ensures
        ({
            let rule = MatcherModel::FirstPromptPrefix { value: sample@ };
            &&& r == !rules_of(old(rules)@).contains(rule)
            &&& rules_of(final(rules)@) == with_rule_once(rules_of(old(rules)@), rule)
        }),
{
    let ghost before = rules_of(rules@);
    let rule = Matcher::FirstPromptPrefix { value: sample };
    let mut i: usize = 0;
    while i < rules.len()
        invariant
            i <= rules.len(),
            rules@ == old(rules)@,
            before == rules_of(rules@),
            rule@ == (MatcherModel::FirstPromptPrefix { value: sample@ }),
            forall|j: int| 0 <= j < i ==> #[trigger] before[j] != rule@,
        decreases rules.len() - i,
    {
        if rules[i].same(&rule) {
            assert(before[i as int] == rule@);
            return false;
        }
        i += 1;
    }
    rules.push(rule);
    assert(rules_of(rules@) =~= before.push(rule@));
    true
}

/// Accepting a suggestion twice is accepting it once.
pub proof fn law_accepting_twice(rules: Seq<MatcherModel>, rule: MatcherModel)
    ensures
        with_rule_once(with_rule_once(rules, rule), rule) == with_rule_once(rules, rule),
        with_rule_once(rules, rule).contains(rule),
{
    assert(rules.push(rule)[rules.len() as int] == rule);
}

// ---------------------------------------------------------------------------
// Telling the user.
/// The setting for a state.
pub open spec fn pref(cfg: ConfigModel, state: State) -> NotifyModel {
    match state {
        State::NeedsYou => cfg.needs_you,
        State::Working => cfg.working,
        State::Ready => cfg.ready,
        State::WaitingReview => cfg.waiting_review,
    }
}

/// The setting for a state.
pub fn state_pref(cfg: &Config, state: State) -> (r: &StateNotify)
    ensures
        r@ == pref(cfg@, state),
        state == State::NeedsYou ==> *r == cfg.needs_you,
        state == State::Working ==> *r == cfg.working,
        state == State::Ready ==> *r == cfg.ready,
        state == State::WaitingReview ==> *r == cfg.waiting_review,
{
    match state {
        State::NeedsYou => &cfg.needs_you,
        State::Working => &cfg.working,
        State::Ready => &cfg.ready,
        State::WaitingReview => &cfg.waiting_review,
    }
}

/// How alerts recur by a setting.
pub open spec fn recurrence(n: NotifyModel) -> AlertPolicy {
    AlertPolicy {
        enabled: n.enabled,
        cooldown_secs: n.cooldown_secs,
        max_triggers: n.max_triggers,
    }
}

/// How alerts recur by the settings.
pub open spec fn recurrences(cfg: ConfigModel) -> AlertPolicies {
    AlertPolicies {
        needs_you: recurrence(cfg.needs_you),
        working: recurrence(cfg.working),
        ready: recurrence(cfg.ready),
        waiting_review: recurrence(cfg.waiting_review),
    }
}

fn policy_of(n: &StateNotify) -> (r: AlertPolicy)
    ensures
        r == recurrence(n@),
{
    AlertPolicy {
        enabled: n.enabled,
        cooldown_secs: n.cooldown_secs,
        max_triggers: n.max_triggers,
    }
}

/// How alerts recur by the settings.
pub fn alert_policies(cfg: &Config) -> (r: AlertPolicies)
    ensures
        r == recurrences(cfg@),
        r.needs_you.enabled == cfg.needs_you.enabled,
        r.needs_you.cooldown_secs == cfg.needs_you.cooldown_secs,
        r.needs_you.max_triggers == cfg.needs_you.max_triggers,
        r.working.enabled == cfg.working.enabled,
        r.working.cooldown_secs == cfg.working.cooldown_secs,
        r.working.max_triggers == cfg.working.max_triggers,
        r.ready.enabled == cfg.ready.enabled,
        r.ready.cooldown_secs == cfg.ready.cooldown_secs,
        r.ready.max_triggers == cfg.ready.max_triggers,
        r.waiting_review.enabled == cfg.waiting_review.enabled,
        r.waiting_review.cooldown_secs == cfg.waiting_review.cooldown_secs,
        r.waiting_review.max_triggers == cfg.waiting_review.max_triggers,
{
    AlertPolicies {
        needs_you: policy_of(&cfg.needs_you),
        working: policy_of(&cfg.working),
        ready: policy_of(&cfg.ready),
        waiting_review: policy_of(&cfg.waiting_review),
    }
}

/// The script to run for a session in a state: none unless the state is told of
/// at all, and by script.
pub fn fire_stub(
    cfg: &Config,
    state: State,
    session_id: &str,
    folder: &str,
    branch: Option<String>,
    descriptor: Option<String>,
) -> (r: Option<StubInvocation>)
    ensures
        r is Some == (pref(cfg@, state).enabled && pref(cfg@, state).cli_enabled),
        r matches Some(inv) ==> {
            &&& inv.session_id@ == session_id@
            &&& inv.state == state
            &&& inv.project@ == folder@
            &&& inv.branch == branch
            &&& inv.descriptor == descriptor
        },
{
    let n = state_pref(cfg, state);
    if !n.enabled || !n.cli_enabled {
        return None;
    }
    Some(
        StubInvocation {
            session_id: session_id.to_owned(),
            state,
            project: folder.to_owned(),
            branch,
            descriptor,
        },
    )
}

// ---------------------------------------------------------------------------
// Events.
/// The remembered terminals after an event: one that tells of a terminal's
/// process is remembered for its session, and the end of a session forgets its
/// own.
pub open spec fn captures_after(
    captures: Map<Seq<char>, CaptureModel>,
    ev: EventModel,
) -> Map<Seq<char>, CaptureModel> {
    if ev.hook_event_name == "SessionEnd"@ {
        captures.remove(ev.session_id)
    } else if ev.hook_event_name == "BeaconTerminal"@ && ev.terminal_pid is Some {
        captures.insert(
            ev.session_id,
            CaptureModel {
                pid: ev.terminal_pid,
                app: ev.terminal_app,
                tty: ev.terminal_tty,
            },
        )
    } else {
        captures
    }
}

/// Brings the remembered terminals up to date with an event. Returns whether
/// they are to be saved: one was remembered, or one that was there is forgotten.
pub fn update_captures(captures: &mut Table<CapturedTerminal>, ev: &HookEvent) -> (r: bool)
    requires
        old(captures).wf(),
    ensures
        final(captures).wf(),
        final(captures)@ == captures_after(old(captures)@, ev@),
        r == (if ev@.hook_event_name == "SessionEnd"@ {
            old(captures)@.contains_key(ev@.session_id)
        } else {
            ev@.hook_event_name == "BeaconTerminal"@ && ev@.terminal_pid is Some
        }),
{
    let name = ev.hook_event_name.as_str();
    let id = ev.session_id.as_str();
    if same_text(name, "SessionEnd") {
        let known = captures.contains_key(id);
        captures.remove(id);
        known
    } else if same_text(name, "BeaconTerminal") && ev.terminal_pid.is_some() {
        let terminal = CapturedTerminal {
            pid: ev.terminal_pid,
            app: copy_text(&ev.terminal_app),
            tty: copy_text(&ev.terminal_tty),
        };
        captures.insert(ev.session_id.clone(), terminal);
        true
    } else {
        false
    }
}

/// What an event calls for once it has been taken in.
#[derive(Clone, Copy, Debug, PartialEq, Eq, Structural)]
pub struct Effects {
    /// Show the sessions anew.
    pub refresh: bool,
    /// Count the suggestions anew.
    pub refresh_proposals: bool,
    /// Tell the user of the transition.
    pub notify: bool,
}

/// What an event calls for: the sessions are shown anew when anything about them
/// changed, and the user is told of a transition unless the session is hidden.
pub fn effects(
    changed: bool,
    descriptor_changed: bool,
    hidden_changed: bool,
    moved: bool,
    hidden: bool,
) -> (r: Effects)
    ensures
        r.refresh == (changed || descriptor_changed || hidden_changed),
        r.refresh_proposals == (changed || hidden_changed),
        r.notify == (moved && !hidden),
{
    Effects {
        refresh: changed || descriptor_changed || hidden_changed,
        refresh_proposals: changed || hidden_changed,
        notify: moved && !hidden,
    }
}

/// What an event calls for, where `out` came of it and `engine` is the engine after
/// it: the user is told of a transition unless its session is hidden.
pub fn effects_of(
    engine: &Engine,
    out: &ApplyOutcome,
    descriptor_changed: bool,
    hidden_changed: bool,
) -> (r: Effects)
    requires
        engine.wf(),
    ensures
        r.refresh == (out.changed || descriptor_changed || hidden_changed),
        r.refresh_proposals == (out.changed || hidden_changed),
        r.notify == (out.transition matches Some(t) && !engine@.hidden(t.session_id@)),
{
    let (moved, hidden) = match &out.transition {
        Some(t) => (true, engine.is_hidden(t.session_id.as_str())),
        None => (false, false),
    };
    effects(out.changed, descriptor_changed, hidden_changed, moved, hidden)
}

/// A span of whole seconds.
pub open spec fn seconds(secs: u64) -> Duration {
    Duration { nanos: (secs * NANOS_PER_SEC) as u128 }
}

fn span(secs: u64) -> (r: Duration)
    ensures
        r == seconds(secs),
{
    Duration::from_secs(secs)
}

/// Whether an event calls for deriving its session's descriptor: it says where
/// the transcript lies, and brings a prompt, or the time has come.
pub open spec fn descriptor_wanted(m: EngineModel, ev: EventModel, now: Instant) -> bool {
    &&& ev.transcript_path is Some
    &&& ev.session_id.len() > 0
    &&& ev.hook_event_name == "UserPromptSubmit"@ || m.descriptor_due(
        ev.session_id,
        seconds(DESCRIPTOR_RETRY_SECS),
        seconds(DESCRIPTOR_REFRESH_SECS),
        now,
    )
}

/// Whether an event calls for deriving its session's descriptor at the time
/// `now`.
pub fn wants_descriptor_at(engine: &Engine, ev: &HookEvent, now: Instant) -> (r: bool)
    requires
        engine.wf(),
    ensures
        r == descriptor_wanted(engine@, ev@, now),
{
    if ev.transcript_path.is_none() || ev.session_id.as_str().is_empty() {
        return false;
    }
    same_text(ev.hook_event_name.as_str(), "UserPromptSubmit") || engine.descriptor_due_at(
        ev.session_id.as_str(),
        span(DESCRIPTOR_RETRY_SECS),
        span(DESCRIPTOR_REFRESH_SECS),
        now,
    )
}

/// Whether an event calls for deriving its session's descriptor.
pub fn wants_descriptor(engine: &Engine, ev: &HookEvent) -> (r: bool)
    requires
        engine.wf(),
    ensures
        exists|now: Instant| r == #[trigger] descriptor_wanted(engine@, ev@, now),
{
    let now = engine.now();
    wants_descriptor_at(engine, ev, now)
}

/// For how long a first prompt that has not come is not looked for again. An
/// event by which it must be there does not wait.
pub open spec fn prompt_retry(ev: EventModel) -> Duration {
    if ev.hook_event_name == "UserPromptSubmit"@ || ev.hook_event_name == "Stop"@ {
        seconds(0)
    } else {
        seconds(FIRST_PROMPT_RETRY_SECS)
    }
}

/// Whether an event calls for reading its session's first prompt: it says where
/// the transcript lies, and the prompt is due.
pub open spec fn first_prompt_wanted(m: EngineModel, ev: EventModel, now: Instant) -> bool {
    &&& ev.transcript_path is Some
    &&& ev.session_id.len() > 0
    &&& m.first_prompt_due(ev.session_id, prompt_retry(ev), now)
}

/// Whether an event calls for reading its session's first prompt at the time
/// `now`.
pub fn wants_first_prompt_at(engine: &Engine, ev: &HookEvent, now: Instant) -> (r: bool)
    requires
        engine.wf(),
    ensures
        r == first_prompt_wanted(engine@, ev@, now),
{
    if ev.transcript_path.is_none() || ev.session_id.as_str().is_empty() {
        return false;
    }
    let name = ev.hook_event_name.as_str();
    let retry = if same_text(name, "UserPromptSubmit") || same_text(name, "Stop") {
        span(0)
    } else {
        span(FIRST_PROMPT_RETRY_SECS)
    };
    engine.first_prompt_due_at(ev.session_id.as_str(), retry, now)
}

/// Whether an event calls for reading its session's first prompt.
pub fn wants_first_prompt(engine: &Engine, ev: &HookEvent) -> (r: bool)
    requires
        engine.wf(),
    ensures
        exists|now: Instant| r == #[trigger] first_prompt_wanted(engine@, ev@, now),
{
    let now = engine.now();
    wants_first_prompt_at(engine, ev, now)
}

/// Whether an opening may be counted: counting is on, nothing shows a person at
/// the keyboard, and the user has not kept the session for themself.
pub fn may_observe(cfg: &Config, cwd: &str, prompt: &str, human_marked: bool) -> (r: bool)
    ensures
        r == {
            &&& cfg.observe_enabled
            &&& !human_marked
            &&& !shows_person(prompt@, cfg@.markers)
            &&& !meets(cfg@.never_hide, cwd@, Some(prompt@))
        },
{
    if !cfg.observe_enabled || human_marked || is_human(prompt, &cfg.markers) {
        return false;
    }
    let never_hide = IgnoreRules::new(copy_rules(&cfg.never_hide));
    !never_hide.matches(cwd, Some(prompt))
}

// ---------------------------------------------------------------------------
// Settings.
/// Whether the timeouts fit a count of seconds.
pub open spec fn timeouts_fit(cfg: ConfigModel) -> bool {
    cfg.stale_timeout_min * 60 <= u64::MAX && cfg.idle_drop_min * 60 <= u64::MAX
}

/// An engine with the settings in force.
pub open spec fn configured(m: EngineModel, cfg: ConfigModel) -> EngineModel {
    EngineModel {
        stale_timeout: seconds((cfg.stale_timeout_min * 60) as u64),
        drop_timeout: seconds((cfg.idle_drop_min * 60) as u64),
        never_hide: cfg.never_hide,
        observe_enabled: cfg.observe_enabled,
        ..m.with_ignore(cfg.ignore_rules)
    }
}

/// Puts the settings in force.
pub fn configure(engine: &mut Engine, cfg: &Config)
    requires
        old(engine).wf(),
        timeouts_fit(cfg@),
    ensures
        final(engine).wf(),
        final(engine).clock() == old(engine).clock(),
        final(engine)@ == configured(old(engine)@, cfg@),
{
    engine.set_stale_timeout(span(cfg.stale_timeout_min * 60));
    engine.set_drop_timeout(span(cfg.idle_drop_min * 60));
    engine.set_ignore_rules(IgnoreRules::new(copy_rules(&cfg.ignore_rules)));
    engine.set_never_hide(IgnoreRules::new(copy_rules(&cfg.never_hide)));
    engine.set_observe_enabled(cfg.observe_enabled);
}

/// Whether two lists hold the same rules in the same order.
pub fn same_rules(a: &Vec<Matcher>, b: &Vec<Matcher>) -> (r: bool)
    ensures
        r == (rules_of(a@) == rules_of(b@)),
{
    if a.len() != b.len() {
        assert(rules_of(a@).len() != rules_of(b@).len());
        return false;
    }
    let mut i: usize = 0;
    while i < a.len()
        invariant
            i <= a.len(),
            a.len() == b.len(),
            forall|j: int| 0 <= j < i ==> #[trigger] rules_of(a@)[j] == rules_of(b@)[j],
        decreases a.len() - i,
    {
        if !a[i].same(&b[i]) {
            assert(rules_of(a@)[i as int] != rules_of(b@)[i as int]);
            return false;
        }
        i += 1;
    }
    assert(rules_of(a@) =~= rules_of(b@));
    true
}

/// An engine with what differs between old and new settings in force.
pub open spec fn reconfigured(m: EngineModel, old: ConfigModel, new: ConfigModel) -> EngineModel {
    let timed = if new.stale_timeout_min != old.stale_timeout_min || new.idle_drop_min
        != old.idle_drop_min {
        EngineModel {
            stale_timeout: seconds((new.stale_timeout_min * 60) as u64),
            drop_timeout: seconds((new.idle_drop_min * 60) as u64),
            ..m
        }
    } else {
        m
    };
    let ruled = if new.ignore_rules != old.ignore_rules {
        timed.with_ignore(new.ignore_rules)
    } else {
        timed
    };
    EngineModel {
        never_hide: if new.never_hide != old.never_hide {
            new.never_hide
        } else {
            m.never_hide
        },
        observe_enabled: if new.observe_enabled != old.observe_enabled {
            new.observe_enabled
        } else {
            m.observe_enabled
        },
        ..ruled
    }
}

/// Puts in force what differs between old and new settings. Returns whether
/// sessions may be hidden or shown by that.
pub fn reconfigure(engine: &mut Engine, before: &Config, after: &Config) -> (r: bool)
    requires
        old(engine).wf(),
        timeouts_fit(after@),
    ensures
        final(engine).wf(),
        final(engine).clock() == old(engine).clock(),
        final(engine)@ == reconfigured(old(engine)@, before@, after@),
        r == (before@.ignore_rules != after@.ignore_rules || before@.never_hide
            != after@.never_hide),
{
    let mut refresh = false;
    if after.stale_timeout_min != before.stale_timeout_min || after.idle_drop_min
        != before.idle_drop_min {
        engine.set_stale_timeout(span(after.stale_timeout_min * 60));
        engine.set_drop_timeout(span(after.idle_drop_min * 60));
    }
    if !same_rules(&after.ignore_rules, &before.ignore_rules) {
        engine.set_ignore_rules(IgnoreRules::new(copy_rules(&after.ignore_rules)));
        refresh = true;
    }
    if !same_rules(&after.never_hide, &before.never_hide) {
        engine.set_never_hide(IgnoreRules::new(copy_rules(&after.never_hide)));
        refresh = true;
    }
    if after.observe_enabled != before.observe_enabled {
        engine.set_observe_enabled(after.observe_enabled);
    }
    refresh
}

/// The steps of a change of settings: first those that can fail, then those that
/// commit, and those that undo what was done when one of the first has failed.
#[derive(Clone, Copy, Debug, PartialEq, Eq, Structural)]
pub enum ConfigStep {
    /// Listen on the new port too.
    Bind,
    /// Set whether the program starts on login.
    Autostart,
    /// Find out whether the hooks are installed.
    AskHooks,
    /// Install the hooks for the new port.
    Reinstall,
    /// Write the settings to disk.
    Save,
    /// Stop listening on the old port.
    Swap,
    /// Put the settings in force in the engine.
    Engine,
    /// Let everyone know of the new settings.
    Publish,
    /// The new settings are in force.
    Done,
    /// Write the old settings to disk again.
    RestoreSettings,
    /// Find out, to undo their change, whether the hooks are installed.
    AskHooksAgain,
    /// Install the hooks for the old port again.
    RestoreHooks,
    /// Set back whether the program starts on login.
    RestoreAutostart,
    /// Stop listening on the new port.
    Unbind,
    /// The change has failed, and the program runs as before.
    Fail,
}

/// What differs between old and new settings, as far as the steps depend on it.
#[derive(Clone, Copy, Debug, PartialEq, Eq, Structural)]
pub struct ConfigChange {
    pub port: bool,
    pub autostart: bool,
}

/// What differs between old and new settings.
pub fn config_change(before: &Config, after: &Config) -> (r: ConfigChange)
    ensures
        r.port == (before.port != after.port),
        r.autostart == (before.launch_on_login != after.launch_on_login),
{
    ConfigChange {
        port: before.port != after.port,
        autostart: before.launch_on_login != after.launch_on_login,
    }
}

/// The first step of a change.
pub open spec fn first(change: ConfigChange) -> ConfigStep {
    if change.port {
        ConfigStep::Bind
    } else if change.autostart {
        ConfigStep::Autostart
    } else {
        ConfigStep::Save
    }
}

/// What is left to undo of the port.
pub open spec fn undo_port(change: ConfigChange) -> ConfigStep {
    if change.port {
        ConfigStep::Unbind
    } else {
        ConfigStep::Fail
    }
}

/// What is left to undo of the start on login, and then of the port.
pub open spec fn undo_login(change: ConfigChange) -> ConfigStep {
    if change.autostart {
        ConfigStep::RestoreAutostart
    } else {
        undo_port(change)
    }
}

/// The step that follows one that went well or, for `ok` false, did not; for a
/// question, `ok` is the answer. Every step that can fail comes before the first
/// that commits. When one fails, what was done before it is undone, the latest
/// first, whether or not undoing one thing goes well.
pub open spec fn following(change: ConfigChange, step: ConfigStep, ok: bool) -> ConfigStep {
    match step {
        ConfigStep::Bind => if !ok {
            ConfigStep::Fail
        } else if change.autostart {
            ConfigStep::Autostart
        } else {
            ConfigStep::AskHooks
        },
        ConfigStep::Autostart => if !ok {
            undo_port(change)
        } else if change.port {
            ConfigStep::AskHooks
        } else {
            ConfigStep::Save
        },
        ConfigStep::AskHooks => if ok {
            ConfigStep::Reinstall
        } else {
            ConfigStep::Save
        },
        ConfigStep::Reinstall => if ok {
            ConfigStep::Save
        } else {
            ConfigStep::RestoreHooks
        },
        ConfigStep::Save => if !ok {
            ConfigStep::RestoreSettings
        } else if change.port {
            ConfigStep::Swap
        } else {
            ConfigStep::Engine
        },
        ConfigStep::Swap => ConfigStep::Engine,
        ConfigStep::Engine => ConfigStep::Publish,
        ConfigStep::Publish => ConfigStep::Done,
        ConfigStep::Done => ConfigStep::Done,
        ConfigStep::RestoreSettings => if change.port {
            ConfigStep::AskHooksAgain
        } else {
            undo_login(change)
        },
        ConfigStep::AskHooksAgain => if ok {
            ConfigStep::RestoreHooks
        } else {
            undo_login(change)
        },
        ConfigStep::RestoreHooks => undo_login(change),
        ConfigStep::RestoreAutostart => undo_port(change),
        ConfigStep::Unbind => ConfigStep::Fail,
        ConfigStep::Fail => ConfigStep::Fail,
    }
}

/// The first step of a change.
pub fn first_step(change: ConfigChange) -> (r: ConfigStep)
    ensures
        r == first(change),
{
    if change.port {
        ConfigStep::Bind
    } else if change.autostart {
        ConfigStep::Autostart
    } else {
        ConfigStep::Save
    }
}

fn port_undone(change: ConfigChange) -> (r: ConfigStep)
    ensures
        r == undo_port(change),
{
    if change.port {
        ConfigStep::Unbind
    } else {
        ConfigStep::Fail
    }
}

fn login_undone(change: ConfigChange) -> (r: ConfigStep)
    ensures
        r == undo_login(change),
{
    if change.autostart {
        ConfigStep::RestoreAutostart
    } else {
        port_undone(change)
    }
}

/// The step that follows one that went well or, for `ok` false, did not; for a
/// question, `ok` is the answer.
pub fn next_step(change: ConfigChange, step: ConfigStep, ok: bool) -> (r: ConfigStep)
    ensures
        r == following(change, step, ok),
{
    match step {
        ConfigStep::Bind => if !ok {
            ConfigStep::Fail
        } else if change.autostart {
            ConfigStep::Autostart
        } else {
            ConfigStep::AskHooks
        },
        ConfigStep::Autostart => if !ok {
            port_undone(change)
        } else if change.port {
            ConfigStep::AskHooks
        } else {
            ConfigStep::Save
        },
        ConfigStep::AskHooks => if ok {
            ConfigStep::Reinstall
        } else {
            ConfigStep::Save
        },
        ConfigStep::Reinstall => if ok {
            ConfigStep::Save
        } else {
            ConfigStep::RestoreHooks
        },
        ConfigStep::Save => if !ok {
            ConfigStep::RestoreSettings
        } else if change.port {
            ConfigStep::Swap
        } else {
            ConfigStep::Engine
        },
        ConfigStep::Swap => ConfigStep::Engine,
        ConfigStep::Engine => ConfigStep::Publish,
        ConfigStep::Publish => ConfigStep::Done,
        ConfigStep::Done => ConfigStep::Done,
        ConfigStep::RestoreSettings => if change.port {
            ConfigStep::AskHooksAgain
        } else {
            login_undone(change)
        },
        ConfigStep::AskHooksAgain => if ok {
            ConfigStep::RestoreHooks
        } else {
            login_undone(change)
        },
        ConfigStep::RestoreHooks => login_undone(change),
        ConfigStep::RestoreAutostart => port_undone(change),
        ConfigStep::Unbind => ConfigStep::Fail,
        ConfigStep::Fail => ConfigStep::Fail,
    }
}

// ---------------------------------------------------------------------------
// Sweeps.
/// What a sweep calls for.
pub struct Tick {
    /// Show the sessions anew.
    pub refresh: bool,
    /// The labels of the sessions to tell of as idle.
    pub idle: Vec<String>,
    /// The alerts to give.
    pub due: Vec<AlertRequest>,
}

/// Whether `tick` is what the sweep that `swept` tells of calls for, where
/// `pre` is the engine before and `now` the time.
pub open spec fn ticks(
    tick: Tick,
    swept: SweepOutcome,
    pre: EngineModel,
    cfg: ConfigModel,
    now: Instant,
) -> bool {
    &&& sweep_told(swept, pre, pre.swept(now))
    &&& tick.refresh == swept.changed
    &&& alerts_told(tick.due@, pre.swept(now), recurrences(cfg), now)
    &&& tick.idle@.len() == (if cfg.notify_idle {
        swept.went_stale@.len()
    } else {
        0
    })
    &&& forall|i: int|
        0 <= i < tick.idle@.len() ==> (#[trigger] tick.idle@[i])@ == swept.went_stale@[i].1@
}

/// Sweeps at the time `now`: the sessions are shown anew when that changed any,
/// the user is told of those that have gone stale if they asked to be, and of
/// the ones that are still stuck.
pub fn sweep_tick_at(engine: &mut Engine, cfg: &Config, now: Instant) -> (r: Tick)
    requires
        old(engine).wf(),
    ensures
        final(engine).wf(),
        final(engine).clock() == old(engine).clock(),
        final(engine)@ == old(engine)@.swept(now).alerted(recurrences(cfg@), now),
        exists|swept: SweepOutcome| #[trigger] ticks(r, swept, old(engine)@, cfg@, now),
{
    let swept = engine.sweep_at(now);
    let mut idle: Vec<String> = Vec::new();
    if cfg.notify_idle {
        let mut i: usize = 0;
        while i < swept.went_stale.len()
            invariant
                i <= swept.went_stale.len(),
                idle.len() == i,
                forall|j: int| 0 <= j < i ==> (#[trigger] idle[j])@ == swept.went_stale[j].1@,
            decreases swept.went_stale.len() - i,
        {
            idle.push(swept.went_stale[i].1.clone());
            i += 1;
        }
    }
    let due = engine.due_alerts(&alert_policies(cfg), now);
    let r = Tick { refresh: swept.changed, idle, due };
    assert(ticks(r, swept, old(engine)@, cfg@, now));
    r
}

/// Sweeps now.
pub fn sweep_tick(engine: &mut Engine, cfg: &Config) -> (r: Tick)
    requires
        old(engine).wf(),
    ensures
        final(engine).wf(),
        final(engine).clock() == old(engine).clock(),
        exists|now: Instant, swept: SweepOutcome| #[trigger]
            ticks(r, swept, old(engine)@, cfg@, now) && final(engine)@ == old(engine)@.swept(
                now,
            ).alerted(recurrences(cfg@), now),
{
    let now = engine.now();
    sweep_tick_at(engine, cfg, now)
}

// ---------------------------------------------------------------------------
// What holds of changes of settings.
/// Whether a step changes what the running program does.
pub open spec fn commits(step: ConfigStep) -> bool {
    step == ConfigStep::Swap || step == ConfigStep::Engine || step == ConfigStep::Publish || step
        == ConfigStep::Done
}

/// Once a step has committed the change does not fail: only steps that commit
/// follow it.
pub proof fn law_failures_commit_nothing(change: ConfigChange, step: ConfigStep, ok: bool)
    requires
        commits(step),
    ensures
        following(change, step, ok) != ConfigStep::Fail,
        commits(following(change, step, ok)),
{
}

/// The step that a change is at after `n` steps, where `ok` says of each how it
/// went.
pub open spec fn step_at(change: ConfigChange, ok: spec_fn(nat) -> bool, n: nat) -> ConfigStep
    decreases n,
{
    if n == 0 {
        first(change)
    } else {
        following(change, step_at(change, ok, (n - 1) as nat), ok((n - 1) as nat))
    }
}

/// A change that ends in failure holds no step that commits.
pub proof fn law_failed_changes_commit_nothing(
    change: ConfigChange,
    ok: spec_fn(nat) -> bool,
    n: nat,
    k: nat,
)
    requires
        step_at(change, ok, n) == ConfigStep::Fail,
        k <= n,
    ensures
        !commits(step_at(change, ok, k)),
{
    if commits(step_at(change, ok, k)) {
        lemma_commits_stay(change, ok, k, n);
    }
}

proof fn lemma_commits_stay(change: ConfigChange, ok: spec_fn(nat) -> bool, k: nat, n: nat)
    requires
        commits(step_at(change, ok, k)),
        k <= n,
    ensures
        commits(step_at(change, ok, n)),
    decreases n,
{
    if k < n {
        lemma_commits_stay(change, ok, k, (n - 1) as nat);
        law_failures_commit_nothing(
            change,
            step_at(change, ok, (n - 1) as nat),
            ok((n - 1) as nat),
        );
    }
}

/// What a change of settings has altered.
pub struct Altered {
    /// The new port is listened on.
    pub port_bound: bool,
    /// The start on login is the new one.
    pub login: bool,
    /// The hooks may carry the new port.
    pub hooks: bool,
    /// The new settings may be on disk.
    pub saved: bool,
    /// The listener, the engine or the settings in force are the new ones.
    pub running: bool,
}

/// Nothing is altered.
pub open spec fn unaltered() -> Altered {
    Altered { port_bound: false, login: false, hooks: false, saved: false, running: false }
}

impl Altered {
    /// After a step. Installing hooks and saving may alter something even where
    /// they fail; a step that undoes does so when it goes well.
    pub open spec fn after(self, step: ConfigStep, ok: bool) -> Altered {
        match step {
            ConfigStep::Bind => Altered { port_bound: ok, ..self },
            ConfigStep::Autostart => Altered { login: ok, ..self },
            ConfigStep::Reinstall => Altered { hooks: true, ..self },
            ConfigStep::Save => Altered { saved: true, ..self },
            ConfigStep::Swap | ConfigStep::Engine | ConfigStep::Publish => Altered {
                running: true,
                ..self
            },
            ConfigStep::RestoreSettings => Altered { saved: self.saved && !ok, ..self },
            ConfigStep::RestoreHooks => Altered { hooks: self.hooks && !ok, ..self },
            ConfigStep::RestoreAutostart => Altered { login: self.login && !ok, ..self },
            ConfigStep::Unbind => Altered { port_bound: self.port_bound && !ok, ..self },
            ConfigStep::AskHooks | ConfigStep::AskHooksAgain | ConfigStep::Done
            | ConfigStep::Fail => self,
        }
    }
}

/// What a change has altered after `n` steps.
pub open spec fn altered_at(change: ConfigChange, ok: spec_fn(nat) -> bool, n: nat) -> Altered
    decreases n,
{
    if n == 0 {
        unaltered()
    } else {
        altered_at(change, ok, (n - 1) as nat).after(
            step_at(change, ok, (n - 1) as nat),
            ok((n - 1) as nat),
        )
    }
}

/// Whether a step undoes another.
pub open spec fn undoes(step: ConfigStep) -> bool {
    step == ConfigStep::RestoreSettings || step == ConfigStep::RestoreHooks || step
        == ConfigStep::RestoreAutostart || step == ConfigStep::Unbind
}

/// Whether the answer to a step is one that the world gives: both questions about
/// the hooks have the one answer `installed`, and what is to be undone is undone.
pub open spec fn answered(step: ConfigStep, ok: bool, installed: bool) -> bool {
    &&& step == ConfigStep::AskHooks || step == ConfigStep::AskHooksAgain ==> ok == installed
    &&& undoes(step) ==> ok
}

/// A change of settings that fails leaves everything as it was: the port, the
/// start on login, the hooks, the saved settings and all that runs.
pub proof fn law_failed_changes_leave_no_trace(
    change: ConfigChange,
    ok: spec_fn(nat) -> bool,
    n: nat,
    installed: bool,
)
    requires
        step_at(change, ok, n) == ConfigStep::Fail,
        forall|k: nat| k < n ==> answered(#[trigger] step_at(change, ok, k), ok(k), installed),
    ensures
        altered_at(change, ok, n) == unaltered(),
{
    lemma_altered(change, ok, n, installed);
}

/// A step that undoes something always goes on, whether it went well or not, so
/// that nothing else that is to be undone is passed over.
pub proof fn law_undoing_goes_on(change: ConfigChange, step: ConfigStep, ok: bool)
    requires
        undoes(step),
    ensures
        following(change, step, ok) == following(change, step, true),
{
}

/// What may be altered when a change is at a step.
spec fn altered_by(change: ConfigChange, step: ConfigStep, installed: bool, a: Altered) -> bool {
    let hooks = change.port && installed;
    match step {
        ConfigStep::Bind => change.port && a == unaltered(),
        ConfigStep::Autostart => change.autostart && a == (Altered {
            port_bound: change.port,
            ..unaltered()
        }),
        ConfigStep::AskHooks => change.port && a == (Altered {
            port_bound: true,
            login: change.autostart,
            ..unaltered()
        }),
        ConfigStep::Reinstall => hooks && a == (Altered {
            port_bound: true,
            login: change.autostart,
            ..unaltered()
        }),
        ConfigStep::Save => a == (Altered {
            port_bound: change.port,
            login: change.autostart,
            hooks,
            ..unaltered()
        }),
        ConfigStep::RestoreSettings => a == (Altered {
            port_bound: change.port,
            login: change.autostart,
            hooks,
            saved: true,
            running: false,
        }),
        ConfigStep::AskHooksAgain => change.port && a == (Altered {
            port_bound: true,
            login: change.autostart,
            hooks,
            ..unaltered()
        }),
        ConfigStep::RestoreHooks => hooks && a == (Altered {
            port_bound: true,
            login: change.autostart,
            hooks: true,
            ..unaltered()
        }),
        ConfigStep::RestoreAutostart => change.autostart && a == (Altered {
            port_bound: change.port,
            login: true,
            ..unaltered()
        }),
        ConfigStep::Unbind => change.port && a == (Altered { port_bound: true, ..unaltered() }),
        ConfigStep::Fail => a == unaltered(),
        ConfigStep::Swap | ConfigStep::Engine | ConfigStep::Publish | ConfigStep::Done => true,
    }
}

proof fn lemma_altered(
    change: ConfigChange,
    ok: spec_fn(nat) -> bool,
    n: nat,
    installed: bool,
)
    requires
        forall|k: nat| k < n ==> answered(#[trigger] step_at(change, ok, k), ok(k), installed),
    ensures
        altered_by(change, step_at(change, ok, n), installed, altered_at(change, ok, n)),
    decreases n,
{
    if n > 0 {
        let m = (n - 1) as nat;
        lemma_altered(change, ok, m, installed);
        assert(answered(step_at(change, ok, m), ok(m), installed));
    }
}

/// How many steps can follow at most.
pub open spec fn steps_left(step: ConfigStep) -> nat {
    match step {
        ConfigStep::Bind => 10,
        ConfigStep::Autostart => 9,
        ConfigStep::AskHooks => 8,
        ConfigStep::Reinstall => 7,
        ConfigStep::Save => 6,
        ConfigStep::Swap => 3,
        ConfigStep::Engine => 2,
        ConfigStep::Publish => 1,
        ConfigStep::Done => 0,
        ConfigStep::RestoreSettings => 5,
        ConfigStep::AskHooksAgain => 4,
        ConfigStep::RestoreHooks => 3,
        ConfigStep::RestoreAutostart => 2,
        ConfigStep::Unbind => 1,
        ConfigStep::Fail => 0,
    }
}

/// A change of settings comes to an end.
pub proof fn law_changes_end(change: ConfigChange, step: ConfigStep, ok: bool)
    ensures
        step == ConfigStep::Fail || step == ConfigStep::Done || steps_left(
            following(change, step, ok),
        ) < steps_left(step),
{
}

/// After a change the engine is set by the new settings, whatever the old ones
/// were.
pub proof fn law_change_reaches_new_settings(m: EngineModel, old: ConfigModel, new: ConfigModel)
    ensures
        ({
            let changed = reconfigured(configured(m, old), old, new);
            let anew = configured(m, new);
            &&& changed.stale_timeout == anew.stale_timeout
            &&& changed.drop_timeout == anew.drop_timeout
            &&& changed.ignore == anew.ignore
            &&& changed.never_hide == anew.never_hide
            &&& changed.observe_enabled == anew.observe_enabled
        }),
{
}

/// Settings that are in range grey a session before they drop it.
pub proof fn law_settings_grey_first(m: EngineModel, cfg: ConfigModel)
    requires
        timeouts_fit(cfg.in_range()),
    ensures
        ({
            let set = configured(m, cfg.in_range());
            0 < set.stale_timeout.nanos <= set.drop_timeout.nanos
        }),
{
    law_sanitized_ranges(cfg);
    let c = cfg.in_range();
    assert(0 < c.stale_timeout_min * 60 <= c.idle_drop_min * 60) by (nonlinear_arith)
        requires
            0 < c.stale_timeout_min <= c.idle_drop_min,
    ;
}

} // verus!
