//! What settings say, what they turn into, and what the program does by them.
use super::alerts::{is_asked_for, law_what_an_alert_tells};
use crate::alert::AlertPolicy;
use crate::cli_alert::{
    or_empty, pair_texts, string_texts, texts, MAX_STUB_RUNTIME_SECS, REAP_POLL_MILLIS,
};
use crate::config::{untouched, Config, ConfigModel, NotifyModel, StateNotify};
use crate::event::{EventModel, HookEvent};
use crate::glyph::painted;
use crate::ignore::{rules_of, Matcher, MatcherModel};
use crate::label::{
    opt_repo, opt_text, repo_view, shared_path, Checkout, CheckoutModel, GitInfo,
};
use crate::listener::{admission, Admission};
use crate::markers::{markers_of, MarkerRule};
use crate::model::EngineModel;
use crate::report::{first_texts, sweep_told, SweepOutcome};
use crate::session::{CaptureModel, CapturedTerminal, Session, State};
use crate::shell::{
    captures_after, configured, descriptor_wanted, first, first_prompt_wanted, following, pref,
    prompt_retry, reconfigured, recurrence, recurrences, seconds, ticks, timeouts_fit,
    with_rule_once, ConfigChange, ConfigStep, Tick, SWEEP_INTERVAL_SECS,
};
use crate::text::trimmed;
use crate::time::{elapsed, Instant, NANOS_PER_MILLI, NANOS_PER_SEC};
use vstd::prelude::*;

verus! {

// ---------------------------------------------------------------------------
// Telling the user.
/// Each state has its own setting.
pub proof fn law_each_state_has_its_setting(cfg: ConfigModel)
    ensures
        pref(cfg, State::NeedsYou) == cfg.needs_you,
        pref(cfg, State::Working) == cfg.working,
        pref(cfg, State::Ready) == cfg.ready,
        pref(cfg, State::WaitingReview) == cfg.waiting_review,
{
}

/// Whether a policy has the switch, the cooldown and the number of a setting.
pub open spec fn policy_is(policy: AlertPolicy, n: NotifyModel) -> bool {
    &&& policy.enabled == n.enabled
    &&& policy.cooldown_secs == n.cooldown_secs
    &&& policy.max_triggers == n.max_triggers
}

/// The policy for each state has that state's own switch, cooldown and number of
/// alerts.
pub proof fn law_policies_are_the_settings(cfg: ConfigModel, n: NotifyModel)
    ensures
        policy_is(recurrences(cfg).needs_you, cfg.needs_you),
        policy_is(recurrences(cfg).working, cfg.working),
        policy_is(recurrences(cfg).ready, cfg.ready),
        policy_is(recurrences(cfg).waiting_review, cfg.waiting_review),
        policy_is(recurrence(n), n),
{
}

/// A state that the user switched off is not told of again, and no state is before
/// its own cooldown has passed since the stay began.
pub proof fn law_settings_rule_alerts(
    m: EngineModel,
    cfg: ConfigModel,
    id: Seq<char>,
    now: Instant,
)
    requires
        m.due(recurrences(cfg), id, now),
    ensures
        ({
            let s = m.sessions[id];
            let n = if s.state == State::NeedsYou {
                cfg.needs_you
            } else {
                cfg.waiting_review
            };
            &&& s.state == State::NeedsYou || s.state == State::WaitingReview
            &&& n.enabled
            &&& n.cooldown_secs > 0
            &&& n.max_triggers >= 2
            &&& s.alert_episode != Some(s.state_since) ==> elapsed(now, s.state_since)
                >= n.cooldown_secs * 1_000_000_000
        }),
{
}

/// What a tick calls for: the sessions are shown anew where the sweep changed any;
/// those that went stale are told of, by label and in turn, only where the user
/// asked for that; and there is one alert for each session that is due one by the
/// settings.
pub proof fn law_ticks(
    tick: Tick,
    swept: SweepOutcome,
    pre: EngineModel,
    cfg: ConfigModel,
    now: Instant,
    id: Seq<char>,
    i: int,
    j: int,
)
    requires
        ticks(tick, swept, pre, cfg, now),
    ensures
        sweep_told(swept, pre, pre.swept(now)),
        is_asked_for(tick.due@, id) <==> pre.swept(now).due(recurrences(cfg), id, now),
        0 <= i < j < tick.due@.len() ==> tick.due@[i].session_id@ != tick.due@[j].session_id@,
        tick.refresh == swept.changed,
        !cfg.notify_idle ==> tick.idle@.len() == 0,
        cfg.notify_idle ==> tick.idle@.len() == swept.went_stale@.len(),
        0 <= i < tick.idle@.len() ==> tick.idle@[i]@ == swept.went_stale@[i].1@,
        0 <= i < tick.due@.len() ==> {
            &&& pre.swept(now).due(recurrences(cfg), tick.due@[i].session_id@, now)
            &&& tick.due@[i].state == pre.swept(now).sessions[tick.due@[i].session_id@].state
        },
{
    let out = tick.due@;
    let policies = recurrences(cfg);
    law_what_an_alert_tells(out, pre.swept(now), policies, now, id, i, j);
    if 0 <= i < out.len() {
        law_what_an_alert_tells(
            out,
            pre.swept(now),
            policies,
            now,
            out[i].session_id@,
            i,
            i,
        );
        assert(is_asked_for(out, out[i].session_id@));
    }
}

/// A rule that is taken on stands behind the others, in their order; one that is
/// there already changes nothing.
pub proof fn law_taking_on_a_rule(rules: Seq<MatcherModel>, rule: MatcherModel)
    ensures
        rules.contains(rule) ==> with_rule_once(rules, rule) == rules,
        !rules.contains(rule) ==> {
            &&& with_rule_once(rules, rule).len() == rules.len() + 1
            &&& with_rule_once(rules, rule).take(rules.len() as int) == rules
            &&& with_rule_once(rules, rule).last() == rule
        },
{
    assert(rules.push(rule).take(rules.len() as int) =~= rules);
}

/// The terminals that are kept for the next start: an end forgets that of its
/// session, one that tells of a terminal's process sets it, and nothing else
/// changes any.
pub proof fn law_kept_terminals(
    captures: Map<Seq<char>, CaptureModel>,
    ev: EventModel,
    other: Seq<char>,
)
    ensures
        ({
            let post = captures_after(captures, ev);
            let id = ev.session_id;
            let sets = ev.hook_event_name == "BeaconTerminal"@ && ev.terminal_pid is Some;
            &&& ev.hook_event_name == "SessionEnd"@ ==> !post.contains_key(id)
            &&& sets ==> {
                &&& post.contains_key(id)
                &&& post[id].pid == ev.terminal_pid
                &&& post[id].app == ev.terminal_app
                &&& post[id].tty == ev.terminal_tty
            }
            &&& !sets && ev.hook_event_name != "SessionEnd"@ ==> post == captures
            &&& other != id ==> (post.contains_key(other) <==> captures.contains_key(other))
            &&& other != id && captures.contains_key(other) ==> post[other] == captures[other]
        }),
{
    reveal_strlit("SessionEnd");
    reveal_strlit("BeaconTerminal");
    assert("SessionEnd"@.len() == 10 && "BeaconTerminal"@.len() == 14);
}

/// When a transcript is read for a descriptor: on every prompt, and on any event
/// once five seconds have passed without one, or fifteen with one.
pub proof fn law_when_descriptors_are_read(m: EngineModel, ev: EventModel, now: Instant)
    ensures
        ({
            let s = m.sessions[ev.session_id];
            let can = ev.transcript_path is Some && ev.session_id.len() > 0;
            let wants = descriptor_wanted(m, ev, now);
            &&& !can ==> !wants
            &&& can && ev.hook_event_name == "UserPromptSubmit"@ ==> wants
            &&& can && ev.hook_event_name != "UserPromptSubmit"@ ==> (wants
                <==> m.sessions.contains_key(ev.session_id) && {
                ||| s.descriptor_checked_at is None
                ||| elapsed(now, s.descriptor_checked_at->0) >= (if s.descriptor is None {
                    5_000_000_000int
                } else {
                    15_000_000_000
                })
            })
        }),
{
}

/// When a transcript is read for a first prompt: where it is due, and then at once
/// on a prompt and at the end of a turn, and after five seconds otherwise.
pub proof fn law_when_first_prompts_are_read(m: EngineModel, ev: EventModel, now: Instant)
    ensures
        ({
            let can = ev.transcript_path is Some && ev.session_id.len() > 0;
            let at_once = ev.hook_event_name == "UserPromptSubmit"@ || ev.hook_event_name
                == "Stop"@;
            &&& prompt_retry(ev).nanos == (if at_once {
                0int
            } else {
                5_000_000_000
            })
            &&& first_prompt_wanted(m, ev, now) <==> can && m.first_prompt_due(
                ev.session_id,
                prompt_retry(ev),
                now,
            )
        }),
{
}

/// A second is a thousand million nanoseconds, and a thousand milliseconds.
pub proof fn law_seconds(secs: u64)
    ensures
        seconds(secs).nanos == secs * 1_000_000_000,
        secs * NANOS_PER_SEC == secs * 1_000_000_000,
        secs * NANOS_PER_SEC == secs * 1000 * NANOS_PER_MILLI,
{
}

/// A session that has gone silent past its timeout is found within a quarter of
/// the least timeout that can be set, and a script that has run for its half
/// minute within a tenth of a second.
pub proof fn law_looks_are_frequent(cfg: ConfigModel)
    ensures
        4 * SWEEP_INTERVAL_SECS <= cfg.in_range().stale_timeout_min * 60,
        10 * REAP_POLL_MILLIS * NANOS_PER_MILLI == NANOS_PER_SEC,
        MAX_STUB_RUNTIME_SECS * NANOS_PER_SEC == 30_000_000_000,
{
}

// ---------------------------------------------------------------------------
// Settings.
/// What is in range stays as it is.
pub proof fn law_sanitizing_keeps_what_is_in_range(c: ConfigModel)
    ensures
        ({
            let r = c.in_range();
            &&& c.port >= 1024 ==> r.port == c.port
            &&& c.stale_timeout_min > 0 ==> r.stale_timeout_min == c.stale_timeout_min
            &&& c.idle_drop_min >= r.stale_timeout_min ==> r.idle_drop_min == c.idle_drop_min
            &&& trimmed(c.theme).len() > 0 ==> r.theme == c.theme
            &&& c.observe_retain_days > 0 ==> r.observe_retain_days == c.observe_retain_days
            &&& c.propose_threshold >= 3 ==> r.propose_threshold == c.propose_threshold
        }),
{
}

/// What is out of range is set to the least that is in range, or as on a fresh
/// installation where nothing is near.
pub proof fn law_sanitizing_sets_what_is_not(c: ConfigModel)
    ensures
        ({
            let r = c.in_range();
            &&& c.port < 1024 ==> r.port == 4317
            &&& c.stale_timeout_min == 0 ==> r.stale_timeout_min == 10
            &&& c.idle_drop_min < r.stale_timeout_min ==> r.idle_drop_min == r.stale_timeout_min
            &&& trimmed(c.theme).len() == 0 ==> r.theme == "classic"@
            &&& c.observe_retain_days == 0 ==> r.observe_retain_days == 30
            &&& c.propose_threshold < 3 ==> r.propose_threshold == 3
            &&& r.version == 1
        }),
{
}

/// The setting of a state, in range: a cooldown of zero or at least ten seconds
/// stays, a shorter one becomes ten; one to twenty alerts stay, none becomes one
/// and more become twenty. This is done to each state's own setting.
pub proof fn law_sanitizing_a_state(c: ConfigModel, n: NotifyModel)
    ensures
        ({
            let r = n.in_range();
            &&& n.cooldown_secs == 0 || n.cooldown_secs >= 10 ==> r.cooldown_secs
                == n.cooldown_secs
            &&& 0 < n.cooldown_secs < 10 ==> r.cooldown_secs == 10
            &&& 1 <= n.max_triggers <= 20 ==> r.max_triggers == n.max_triggers
            &&& n.max_triggers == 0 ==> r.max_triggers == 1
            &&& n.max_triggers > 20 ==> r.max_triggers == 20
            &&& r == (NotifyModel {
                cooldown_secs: r.cooldown_secs,
                max_triggers: r.max_triggers,
                ..n
            })
        }),
        c.in_range().needs_you == c.needs_you.in_range(),
        c.in_range().working == c.working.in_range(),
        c.in_range().ready == c.ready.in_range(),
        c.in_range().waiting_review == c.waiting_review.in_range(),
{
}

/// A fresh installation.
pub proof fn law_fresh_installation(sound: Seq<char>, on: bool)
    ensures
        ({
            let c = ConfigModel::initial();
            let n = untouched(on, sound);
            &&& c.version == 1
            &&& c.port == 4317
            &&& c.stale_timeout_min == 10
            &&& c.idle_drop_min == 60
            &&& !c.launch_on_login
            &&& !c.notify_idle
            &&& c.notify_unfocused_only
            &&& c.theme == "classic"@
            &&& c.needs_you == untouched(true, "Ping"@)
            &&& c.working == untouched(false, "Pop"@)
            &&& c.ready == untouched(false, "Glass"@)
            &&& c.waiting_review == untouched(true, "Ping"@)
            &&& c.ignore_rules.len() == 0
            &&& c.never_hide.len() == 0
            &&& c.markers.len() == 0
            &&& c.observe_enabled
            &&& c.observe_retain_days == 30
            &&& c.propose_threshold == 3
            &&& n.enabled == on
            &&& n.sound_name == sound
            &&& !n.sound
            &&& !n.cli_enabled
            &&& n.cooldown_secs == 120
            &&& n.max_triggers == 3
        }),
{
}

/// The settings in force in an engine: timeouts in minutes, both lists of rules,
/// and whether openings are counted; no session is touched but to read its prompt
/// again.
pub proof fn law_settings_in_force(m: EngineModel, cfg: ConfigModel)
    requires
        timeouts_fit(cfg),
    ensures
        ({
            let post = configured(m, cfg);
            &&& post.stale_timeout.nanos == cfg.stale_timeout_min * 60_000_000_000
            &&& post.drop_timeout.nanos == cfg.idle_drop_min * 60_000_000_000
            &&& post.ignore == cfg.ignore_rules
            &&& post.never_hide == cfg.never_hide
            &&& post.observe_enabled == cfg.observe_enabled
            &&& post.sessions == m.with_ignore(cfg.ignore_rules).sessions
            &&& post.captures == m.captures
            &&& post.ends == m.ends
            &&& post.repos == m.repos
            &&& post.platform == m.platform
            &&& post.reveal_count == m.reveal_count
        }),
{
}

/// A change of settings puts in force what differs, and leaves the rest as it is.
pub proof fn law_changed_settings_in_force(m: EngineModel, old: ConfigModel, new: ConfigModel)
    requires
        timeouts_fit(new),
    ensures
        ({
            let post = reconfigured(m, old, new);
            let timed = new.stale_timeout_min != old.stale_timeout_min || new.idle_drop_min
                != old.idle_drop_min;
            &&& timed ==> post.stale_timeout.nanos == new.stale_timeout_min * 60_000_000_000
                && post.drop_timeout.nanos == new.idle_drop_min * 60_000_000_000
            &&& !timed ==> post.stale_timeout == m.stale_timeout && post.drop_timeout
                == m.drop_timeout
            &&& new.ignore_rules != old.ignore_rules ==> post.ignore == new.ignore_rules
                && post.sessions == m.with_ignore(new.ignore_rules).sessions
            &&& new.ignore_rules == old.ignore_rules ==> post.ignore == m.ignore && post.sessions
                == m.sessions
            &&& new.never_hide != old.never_hide ==> post.never_hide == new.never_hide
            &&& new.never_hide == old.never_hide ==> post.never_hide == m.never_hide
            &&& new.observe_enabled != old.observe_enabled ==> post.observe_enabled
                == new.observe_enabled
            &&& new.observe_enabled == old.observe_enabled ==> post.observe_enabled
                == m.observe_enabled
            &&& post.captures == m.captures
            &&& post.ends == m.ends
            &&& post.repos == m.repos
            &&& post.platform == m.platform
            &&& post.reveal_count == m.reveal_count
        }),
{
}

/// The steps of a change that goes well, each told by what it comes after: a new
/// port is listened on before all else, then the start on login is set, then, for a
/// new port, installed hooks are installed anew, then the settings are saved, and
/// only then does the program listen on the new port alone, obey the settings and
/// tell of them.
pub proof fn law_steps_come_in_order(change: ConfigChange, step: ConfigStep, ok: bool)
    ensures
        ({
            let next = following(change, step, ok);
            let start = first(change);
            &&& next != ConfigStep::Bind
            &&& start == ConfigStep::Bind <==> change.port
            &&& start == ConfigStep::Autostart <==> !change.port && change.autostart
            &&& start == ConfigStep::Save <==> !change.port && !change.autostart
            &&& next == ConfigStep::Autostart <==> step == ConfigStep::Bind && ok
                && change.autostart
            &&& next == ConfigStep::AskHooks <==> (step == ConfigStep::Bind && ok
                && !change.autostart) || (step == ConfigStep::Autostart && ok && change.port)
            &&& next == ConfigStep::Reinstall <==> step == ConfigStep::AskHooks && ok
            &&& next == ConfigStep::Save <==> (step == ConfigStep::Reinstall && ok) || (step
                == ConfigStep::AskHooks && !ok) || (step == ConfigStep::Autostart && ok
                && !change.port)
            &&& next == ConfigStep::Swap <==> step == ConfigStep::Save && ok && change.port
            &&& next == ConfigStep::Engine <==> step == ConfigStep::Swap || (step
                == ConfigStep::Save && ok && !change.port)
            &&& next == ConfigStep::Publish <==> step == ConfigStep::Engine
            &&& next == ConfigStep::Done <==> step == ConfigStep::Publish || step
                == ConfigStep::Done
        }),
{
}

/// The steps that undo a change, each told by what it comes after: what was saved
/// first, then the hooks, then the start on login, then the port.
pub proof fn law_undoing_comes_in_order(change: ConfigChange, step: ConfigStep, ok: bool)
    ensures
        ({
            let next = following(change, step, ok);
            let hooks_done = step == ConfigStep::RestoreHooks || (step == ConfigStep::AskHooksAgain
                && !ok) || (step == ConfigStep::RestoreSettings && !change.port);
            let login_done = step == ConfigStep::RestoreAutostart || (step == ConfigStep::Autostart
                && !ok) || (hooks_done && !change.autostart);
            &&& next == ConfigStep::RestoreSettings <==> step == ConfigStep::Save && !ok
            &&& next == ConfigStep::AskHooksAgain <==> step == ConfigStep::RestoreSettings
                && change.port
            &&& next == ConfigStep::RestoreHooks <==> (step == ConfigStep::Reinstall && !ok) || (
            step == ConfigStep::AskHooksAgain && ok)
            &&& next == ConfigStep::RestoreAutostart <==> hooks_done && change.autostart
            &&& next == ConfigStep::Unbind <==> login_done && change.port
            &&& next == ConfigStep::Fail <==> (login_done && !change.port) || (step
                == ConfigStep::Bind && !ok) || step == ConfigStep::Unbind || step
                == ConfigStep::Fail
        }),
{
}

// ---------------------------------------------------------------------------
// Requests and pictures.
/// A request is let in exactly where it comes from this machine and carries the
/// secret, which is not empty; one from elsewhere is forbidden whatever it carries.
pub proof fn law_who_is_let_in(loopback: bool, presented: Option<Seq<char>>, token: Seq<char>)
    ensures
        admission(loopback, presented, token) == Admission::Accepted <==> loopback && token.len()
            > 0 && presented is Some && presented->0 == token,
        admission(loopback, presented, token) == Admission::Forbidden <==> !loopback,
        admission(loopback, presented, token) == Admission::Unauthorized <==> loopback && (
        token.len() == 0 || presented is None || presented->0 != token),
{
}

/// A picture has four bytes for each pixel: the color's three, and how much of the
/// pixel is covered.
pub proof fn law_pixels(rgb: [u8; 3], coverage: Seq<u8>, k: int)
    requires
        0 <= k < coverage.len(),
    ensures
        painted(rgb, coverage).len() == 4 * coverage.len(),
        painted(rgb, coverage)[4 * k] == rgb@[0],
        painted(rgb, coverage)[4 * k + 1] == rgb@[1],
        painted(rgb, coverage)[4 * k + 2] == rgb@[2],
        painted(rgb, coverage)[4 * k + 3] == coverage[k],
{
}

// ---------------------------------------------------------------------------
// What is read of a value is what it holds.
/// Settings are read as they are.
pub proof fn law_settings_are_read_as_they_are(c: Config, n: StateNotify)
    ensures
        c@.version == c.version,
        c@.port == c.port,
        c@.stale_timeout_min == c.stale_timeout_min,
        c@.idle_drop_min == c.idle_drop_min,
        c@.launch_on_login == c.launch_on_login,
        c@.notify_idle == c.notify_idle,
        c@.notify_unfocused_only == c.notify_unfocused_only,
        c@.theme == c.theme@,
        c@.needs_you == c.needs_you@,
        c@.working == c.working@,
        c@.ready == c.ready@,
        c@.waiting_review == c.waiting_review@,
        c@.ignore_rules.len() == c.ignore_rules@.len(),
        forall|i: int|
            0 <= i < c.ignore_rules@.len() ==> #[trigger] c@.ignore_rules[i]
                == c.ignore_rules@[i]@,
        c@.never_hide.len() == c.never_hide@.len(),
        forall|i: int|
            0 <= i < c.never_hide@.len() ==> #[trigger] c@.never_hide[i] == c.never_hide@[i]@,
        c@.markers.len() == c.markers@.len(),
        forall|i: int| 0 <= i < c.markers@.len() ==> #[trigger] c@.markers[i] == c.markers@[i]@,
        c@.observe_enabled == c.observe_enabled,
        c@.observe_retain_days == c.observe_retain_days,
        c@.propose_threshold == c.propose_threshold,
        n@.enabled == n.enabled,
        n@.sound == n.sound,
        n@.sound_name == n.sound_name@,
        n@.cli_enabled == n.cli_enabled,
        n@.cooldown_secs == n.cooldown_secs,
        n@.max_triggers == n.max_triggers,
{
}

/// Events are read as they are.
pub proof fn law_events_are_read_as_they_are(ev: HookEvent, name: Option<Seq<char>>)
    ensures
        ev@.hook_event_name == ev.hook_event_name@,
        ev@.session_id == ev.session_id@,
        ev@.cwd == ev.cwd@,
        ev@.transcript_path == ev.transcript_path.deep_view(),
        ev@.notification_type == ev.notification_type.deep_view(),
        ev@.agent_id == ev.agent_id.deep_view(),
        ev@.agent_type == ev.agent_type.deep_view(),
        ev@.tool_name == ev.tool_name.deep_view(),
        ev@.terminal_pid == ev.terminal_pid,
        ev@.terminal_app == ev.terminal_app.deep_view(),
        ev@.terminal_tty == ev.terminal_tty.deep_view(),
        ev@.named(name).cwd_name == name,
        ev@.named(name) == (EventModel { cwd_name: ev@.named(name).cwd_name, ..ev@ }),
{
}

/// Sessions are read as they are.
pub proof fn law_sessions_are_read_as_they_are(s: Session)
    ensures
        s@.cwd == s.cwd@,
        s@.name == s.name.deep_view(),
        s@.state == s.state,
        s@.last_seen == s.last_seen,
        s@.state_since == s.state_since,
        s@.stale == s.stale,
        s@.subagent_count == s.subagent_count,
        s@.sub_since == s.sub_since,
        s@.terminal_pid == s.terminal_pid,
        s@.terminal_app == s.terminal_app.deep_view(),
        s@.terminal_tty == s.terminal_tty.deep_view(),
        s@.descriptor == s.descriptor.deep_view(),
        s@.descriptor_checked_at == s.descriptor_checked_at,
        s@.first_prompt == s.first_prompt.deep_view(),
        s@.first_prompt_checked_at == s.first_prompt_checked_at,
        s@.revealed == s.revealed,
        s@.awaiting_subagents == s.awaiting_subagents,
        s@.review_when_done == s.review_when_done,
        s@.alert_episode == s.alert_episode,
        s@.alert_count == s.alert_count,
        s@.last_alert_at == s.last_alert_at,
{
}

/// Lists of texts are read one by one, in their order.
pub proof fn law_lists_are_read_as_they_are(
    a: Seq<&'static str>,
    b: Seq<String>,
    c: Seq<(String, String)>,
    d: Seq<Matcher>,
    e: Seq<MarkerRule>,
    i: int,
)
    ensures
        texts(a).len() == a.len(),
        string_texts(b).len() == b.len(),
        pair_texts(c).len() == c.len(),
        first_texts(c).len() == c.len(),
        rules_of(d).len() == d.len(),
        markers_of(e).len() == e.len(),
        0 <= i < a.len() ==> texts(a)[i] == a[i]@,
        0 <= i < b.len() ==> string_texts(b)[i] == b[i]@,
        0 <= i < c.len() ==> pair_texts(c)[i] == (c[i].0@, c[i].1@),
        0 <= i < c.len() ==> first_texts(c)[i] == c[i].0@,
        0 <= i < d.len() ==> rules_of(d)[i] == d[i]@,
        0 <= i < e.len() ==> markers_of(e)[i] == e[i]@,
{
}

/// What may be missing is read as it is.
pub proof fn law_options_are_read_as_they_are(g: GitInfo, t: &str, s: String)
    ensures
        repo_view(Some(&g)) == Some(g@),
        repo_view(None) is None,
        opt_repo(Some(g)) == Some(g@),
        opt_repo(None) is None,
        opt_text(Some(t)) == Some(t@),
        opt_text(None) is None,
        or_empty(Some(s@)) == s@,
        or_empty(None).len() == 0,
{
}

/// A checkout is read as it is, and leads to the repository that it shares.
pub proof fn law_checkouts_are_read_as_they_are(
    head: Option<String>,
    shared: Option<Option<String>>,
    path: Seq<char>,
)
    ensures
        (Checkout::Own { head })@ == (CheckoutModel::Own { head: head.deep_view() }),
        Checkout::Unresolved@ == CheckoutModel::Unresolved,
        (Checkout::Linked { head, shared })@ == (CheckoutModel::Linked {
            head: head.deep_view(),
            shared: shared.deep_view(),
        }),
        shared_path(
            CheckoutModel::Linked { head: head.deep_view(), shared: Some(Some(path)) },
        ) == path,
{
}

/// Timeouts fit where their seconds can be counted.
pub proof fn law_timeouts_that_fit(c: ConfigModel)
    ensures
        timeouts_fit(c) <==> c.stale_timeout_min <= u64::MAX / 60 && c.idle_drop_min <= u64::MAX
            / 60,
{
}

/// Terminals, repositories, rules and markers are read as they are.
pub proof fn law_parts_are_read_as_they_are(
    t: CapturedTerminal,
    g: GitInfo,
    rule: Matcher,
    marker: MarkerRule,
)
    ensures
        t@.pid == t.pid,
        t@.app == t.app.deep_view(),
        t@.tty == t.tty.deep_view(),
        g@.base == g.base@,
        g@.branch == g.branch.deep_view(),
        g@.worktree == g.worktree,
        rule matches Matcher::CwdContains { value } ==> rule@ == (MatcherModel::CwdContains {
            value: value@,
        }),
        rule matches Matcher::FirstPromptPrefix { value } ==> rule@ == (
        MatcherModel::FirstPromptPrefix { value: value@ }),
        marker@.prefix == marker.prefix@,
        marker@.human == marker.human,
{
}

} // verus!
