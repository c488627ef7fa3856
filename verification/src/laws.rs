//! What holds of the engine as a whole.
use crate::alert::{AlertPolicies, AlertPolicy};
use crate::event::{
    event_names, is_block, law_event_table, law_notification_table, signal, EventModel, Signal,
};
use crate::ignore::{hides_cwd, lowercase, meets, names_prompts, MatcherModel};
use crate::label::dir_named;
use crate::markers::marked;
use crate::model::{takes_in, tombstone, EngineModel};
use crate::report::{
    attributed, audited, audits, in_sequence, may_precede, moved, previews, shows, told, view_fits,
    viewed, ApplyOutcome, HiddenSession, SessionView,
};
use crate::session::{no_capture, CaptureModel, Rollup, SessionModel, State};
use crate::text::{lemma_ordered_antisymmetric, trimmed_start};
use crate::time::{elapsed, Duration, Instant, NANOS_PER_SEC};
use vstd::prelude::*;

pub mod alerts;
pub mod events;
pub mod labels;
pub mod lists;
pub mod readings;
pub mod rules;
pub mod settings;
pub mod signals;
pub mod silence;

verus! {

// ---------------------------------------------------------------------------
// What every session keeps to.
pub proof fn lemma_with_session_valid(m: EngineModel, id: Seq<char>, s: SessionModel)
    requires
        m.valid(),
        s.valid(),
        id.len() > 0 || m.knows(id),
    ensures
        m.with_session(id, s).valid(),
{
}

proof fn lemma_enter_valid(m: EngineModel, ev: EventModel, state: State, now: Instant)
    requires
        m.valid(),
        ev.session_id.len() > 0,
        dir_named(ev.cwd, ev.cwd_name),
        state == State::WaitingReview ==> m.knows(ev.session_id)
            && m.sessions[ev.session_id].review_when_done,
    ensures
        m.enter(ev, state, now).valid(),
{
    let s = m.entering(ev, state, now);
    assert(s.valid()) by {
        if m.knows(ev.session_id) {
            assert(m.sessions[ev.session_id].valid());
        }
    }
    let t = m.enter(ev, state, now).sessions[ev.session_id];
    assert(t.valid());
    lemma_with_session_valid(m, ev.session_id, t);
    assert(m.enter(ev, state, now).sessions == m.with_session(ev.session_id, t).sessions);
}

proof fn lemma_beat_valid(m: EngineModel, ev: EventModel, now: Instant)
    requires
        m.valid(),
        ev.session_id.len() > 0,
        dir_named(ev.cwd, ev.cwd_name),
    ensures
        m.beat(ev, now).valid(),
{
    let id = ev.session_id;
    if m.knows(id) {
        lemma_with_session_valid(m, id, m.sessions[id].heard(ev, now));
    } else if !m.ended_of_late(id, now) {
        lemma_enter_valid(m, ev, State::Working, now);
    }
}

proof fn lemma_finish_valid(m: EngineModel, ev: EventModel, now: Instant)
    requires
        m.valid(),
        ev.session_id.len() > 0,
        dir_named(ev.cwd, ev.cwd_name),
    ensures
        m.finish(ev, now).valid(),
{
    let id = ev.session_id;
    if m.knows(id) && m.sessions[id].subagent_count > 0 {
        let s = m.sessions[id];
        let owing = m.with_session(id, SessionModel { awaiting_subagents: true, ..s });
        lemma_with_session_valid(m, id, SessionModel { awaiting_subagents: true, ..s });
        lemma_beat_valid(owing, ev, now);
        lemma_enter_valid(owing, ev, State::Working, now);
    } else if m.knows(id) {
        lemma_enter_valid(m, ev, m.sessions[id].finish_state(), now);
    } else {
        lemma_enter_valid(m, ev, State::Ready, now);
    }
}

proof fn lemma_release_valid(m: EngineModel, ev: EventModel, now: Instant)
    requires
        m.valid(),
        ev.session_id.len() > 0,
        dir_named(ev.cwd, ev.cwd_name),
    ensures
        m.release(ev, now).valid(),
{
    let id = ev.session_id;
    let heard = m.beat(ev, now);
    lemma_beat_valid(m, ev, now);
    if heard.knows(id) {
        let s = heard.sessions[id];
        lemma_with_session_valid(heard, id, s.released());
        if s.release_moves() {
            lemma_enter_valid(heard.with_session(id, s.released()), ev, s.finish_state(), now);
        }
    }
}

/// An event leaves in force what the engine keeps to: no session has the empty id;
/// the clock of a session's subagents runs exactly while some are live, it waits
/// for review only when flagged, the time of its latest alert is known exactly
/// when one was given, and its name is one that its directory can have.
pub proof fn lemma_step_valid(m: EngineModel, ev: EventModel, now: Instant)
    requires
        m.valid(),
        dir_named(ev.cwd, ev.cwd_name),
    ensures
        m.step(ev, now).valid(),
{
    let id = ev.session_id;
    if id.len() == 0 && ev.hook_event_name == "SessionEnd"@ {
        lemma_end_name(ev);
    }
    match signal(ev) {
        Signal::Nothing => {},
        Signal::Beat => lemma_beat_valid(m, ev, now),
        Signal::Start => {
            lemma_enter_valid(m, ev, State::Ready, now);
            let ready = m.enter(ev, State::Ready, now);
            lemma_with_session_valid(ready, id, ready.sessions[id].restarted());
        },
        Signal::Enter(state) => lemma_enter_valid(m, ev, state, now),
        Signal::Spawn => {
            lemma_beat_valid(m, ev, now);
            let heard = m.beat(ev, now);
            if heard.knows(id) {
                lemma_with_session_valid(heard, id, heard.sessions[id].spawned(now));
            }
        },
        Signal::Finish => lemma_finish_valid(m, ev, now),
        Signal::Release => lemma_release_valid(m, ev, now),
        Signal::Terminal => {
            let s = if m.knows(id) {
                m.sessions[id]
            } else {
                SessionModel::fresh(ev.cwd, ev.cwd_name, State::Ready, no_capture(), now)
            };
            lemma_with_session_valid(m, id, s.captured(ev, now));
        },
        Signal::End => {},
    }
}

// ---------------------------------------------------------------------------
// Events.
/// An event concerns its own session alone: it leaves every other session, whether
/// it is hidden, what is remembered of it and every setting as they were.
pub proof fn law_event_concerns_one_session(
    pre: EngineModel,
    post: EngineModel,
    ev: EventModel,
    now: Instant,
    other: Seq<char>,
)
    requires
        takes_in(pre, post, ev, now),
        other != ev.session_id,
    ensures
        same_for(pre, post, other),
        same_settings(pre, post),
{
    let name = choose|name: Option<Seq<char>>|
        #[trigger] dir_named(ev.cwd, name) && post == pre.step(ev.named(name), now);
    lemma_step_concerns_one_session(pre, ev.named(name), now, other);
}

/// An event changes no setting.
pub proof fn law_event_keeps_settings(
    pre: EngineModel,
    post: EngineModel,
    ev: EventModel,
    now: Instant,
)
    requires
        takes_in(pre, post, ev, now),
    ensures
        same_settings(pre, post),
{
    let name = choose|name: Option<Seq<char>>|
        #[trigger] dir_named(ev.cwd, name) && post == pre.step(ev.named(name), now);
    assert(same_settings(pre, pre.step(ev.named(name), now)));
}

/// Whether a session is tracked, remembered and hidden as before, and unchanged.
pub open spec fn same_for(pre: EngineModel, post: EngineModel, id: Seq<char>) -> bool {
    &&& post.knows(id) == pre.knows(id)
    &&& pre.knows(id) ==> post.sessions[id] == pre.sessions[id]
    &&& post.hidden(id) == pre.hidden(id)
    &&& post.visible(id) == pre.visible(id)
    &&& post.live(id) == pre.live(id)
    &&& post.remembered(id) == pre.remembered(id)
    &&& post.ends.contains_key(id) == pre.ends.contains_key(id)
    &&& pre.ends.contains_key(id) ==> post.ends[id] == pre.ends[id]
}

/// Whether timeouts, rules and all that the engine was told of the host are as
/// before.
pub open spec fn same_settings(pre: EngineModel, post: EngineModel) -> bool {
    &&& post.stale_timeout == pre.stale_timeout
    &&& post.drop_timeout == pre.drop_timeout
    &&& post.ignore == pre.ignore
    &&& post.never_hide == pre.never_hide
    &&& post.observe_enabled == pre.observe_enabled
    &&& post.platform == pre.platform
    &&& post.repos == pre.repos
}

proof fn lemma_step_concerns_one_session(
    m: EngineModel,
    ev: EventModel,
    now: Instant,
    other: Seq<char>,
)
    requires
        other != ev.session_id,
    ensures
        same_for(m, m.step(ev, now), other),
        same_settings(m, m.step(ev, now)),
{
}

/// Nothing comes of the notifications that fire because a session is idle, of an
/// event that is unknown, nor of one without a session.
pub proof fn law_inert_events(m: EngineModel, ev: EventModel, now: Instant)
    requires
        signal(ev) == Signal::Nothing,
    ensures
        m.step(ev, now) == m,
{
}

/// An event that nobody knows is ignored, and so is one without a session, unless
/// it is an end.
pub proof fn law_unknown_events(m: EngineModel, ev: EventModel, now: Instant)
    requires
        (ev.session_id.len() == 0 && ev.hook_event_name != "SessionEnd"@) || !event_names().contains(
            ev.hook_event_name,
        ),
    ensures
        m.step(ev, now) == m,
{
    let names = event_names();
    assert(forall|i: int| 0 <= i < names.len() ==> names.contains(#[trigger] names[i]));
    assert(names[0] == "SessionStart"@ && names[1] == "UserPromptSubmit"@ && names[2]
        == "UserPromptExpansion"@ && names[3] == "PreCompact"@);
    assert(names[4] == "PreToolUse"@ && names[5] == "SubagentStart"@ && names[6] == "PostToolUse"@
        && names[7] == "PostToolUseFailure"@);
    assert(names[8] == "PostToolBatch"@ && names[9] == "Notification"@ && names[10] == "Stop"@
        && names[11] == "StopFailure"@);
    assert(names[12] == "PostCompact"@ && names[13] == "SubagentStop"@ && names[14]
        == "BeaconTerminal"@ && names[15] == "SessionEnd"@);
}

/// An idle prompt, and the two other notifications that tell of nothing, leave
/// the engine exactly as it was: they neither keep a session from going stale nor
/// bring it back.
pub proof fn law_idle_notifications(m: EngineModel, ev: EventModel, now: Instant)
    requires
        ev.hook_event_name == "Notification"@,
        ev.session_id.len() > 0,
        ev.notification_type == Some("idle_prompt"@) || ev.notification_type == Some(
            "auth_success"@,
        ) || ev.notification_type == Some("elicitation_complete"@),
    ensures
        m.step(ev, now) == m,
{
    law_event_table(ev);
    law_notification_table();
}

/// A notification of a type that nobody has looked at is a sign of life: it moves
/// no tracked session and sets nothing free that is owed.
pub proof fn law_unknown_notifications(m: EngineModel, ev: EventModel, now: Instant)
    requires
        ev.hook_event_name == "Notification"@,
        ev.session_id.len() > 0,
        m.knows(ev.session_id),
        ev.notification_type != Some("permission_prompt"@),
        ev.notification_type != Some("elicitation_dialog"@),
        ev.notification_type != Some("idle_prompt"@),
        ev.notification_type != Some("auth_success"@),
        ev.notification_type != Some("elicitation_complete"@),
    ensures
        m.step(ev, now) == m.with_session(
            ev.session_id,
            m.sessions[ev.session_id].heard(ev, now),
        ),
{
    law_event_table(ev);
}

/// A genuine block is one whoever runs into it: the session needs the user, and
/// is shown, whatever the rules say and whatever it was before.
pub proof fn law_block_is_shown(m: EngineModel, ev: EventModel, now: Instant)
    requires
        ev.session_id.len() > 0,
        is_block(ev),
    ensures
        ({
            let post = m.step(ev, now);
            &&& post.visible(ev.session_id)
            &&& post.sessions[ev.session_id].state == State::NeedsYou
            &&& post.live(ev.session_id)
            &&& post.rollup() == Rollup::Red
            &&& m.state_of(ev.session_id) != Some(State::NeedsYou) ==> moved(
                m,
                post,
                ev.session_id,
            )
        }),
{
    law_event_table(ev);
    law_notification_table();
    let post = m.step(ev, now);
    assert(post.live(ev.session_id));
}

/// A session that was shown because it blocked stays shown through every event
/// but its own fresh start and its end.
pub proof fn law_reveal_sticks(m: EngineModel, ev: EventModel, now: Instant, id: Seq<char>)
    requires
        m.knows(id),
        m.sessions[id].revealed,
        ev.session_id == id ==> signal(ev) != Signal::Start && signal(ev) != Signal::End,
    ensures
        m.step(ev, now).visible(id),
        m.step(ev, now).sessions[id].revealed,
{
}

/// A session that is shown does not disappear by an event that leaves it where it
/// runs, but for its own fresh start and its end.
pub proof fn law_events_hide_nothing(m: EngineModel, ev: EventModel, now: Instant, id: Seq<char>)
    requires
        m.visible(id),
        ev.session_id == id ==> {
            &&& signal(ev) != Signal::Start
            &&& signal(ev) != Signal::End
            &&& ev.cwd.len() == 0 || ev.cwd == m.sessions[id].cwd
        },
    ensures
        m.step(ev, now).visible(id),
{
}

/// A sweep that keeps a session keeps it shown.
pub proof fn law_reveal_outlives_sweeps(m: EngineModel, now: Instant, id: Seq<char>)
    requires
        m.knows(id),
        m.sessions[id].revealed,
        m.swept(now).knows(id),
    ensures
        m.swept(now).visible(id),
        m.swept(now).sessions[id].revealed,
{
}

/// Whether an event comes from a subagent of a tracked session and is not to move
/// it: it is no end, no block, and not the stop of the last subagent where a
/// finish is owed and the session is not blocked.
pub open spec fn is_bystander(m: EngineModel, ev: EventModel) -> bool {
    &&& ev.agent_id is Some
    &&& m.knows(ev.session_id)
    &&& ev.hook_event_name != "SessionEnd"@
    &&& !is_block(ev)
    &&& !(ev.hook_event_name == "SubagentStop"@ && m.sessions[ev.session_id].release_moves())
}

/// Whether a session is in the state that it was in, and the stay goes on.
pub open spec fn unmoved(pre: EngineModel, post: EngineModel, id: Seq<char>) -> bool {
    &&& post.knows(id)
    &&& post.sessions[id].state == pre.sessions[id].state
    &&& post.sessions[id].state_since == pre.sessions[id].state_since
}

/// What a subagent reports never recolours its session: the session stays in its
/// state, the stay goes on, and no transition is reported. The exceptions are a
/// block, and the stop of the last subagent where a finish is owed and the
/// session is not blocked.
pub proof fn law_subagents_do_not_recolour(
    pre: EngineModel,
    post: EngineModel,
    ev: EventModel,
    now: Instant,
    out: ApplyOutcome,
)
    requires
        takes_in(pre, post, ev, now),
        told(out, pre, post, ev),
        is_bystander(pre, ev),
    ensures
        unmoved(pre, post, ev.session_id),
        out.transition is None,
{
    let name = choose|name: Option<Seq<char>>|
        #[trigger] dir_named(ev.cwd, name) && post == pre.step(ev.named(name), now);
    assert(signal(ev.named(name)) == signal(ev));
}

/// The stop of a subagent moves its session exactly where it is the last one, a
/// move is owed and the session is not blocked; it then goes where a finished
/// turn leads.
pub proof fn law_owed_move(m: EngineModel, ev: EventModel, now: Instant)
    requires
        ev.hook_event_name == "SubagentStop"@,
        ev.session_id.len() > 0,
        m.knows(ev.session_id),
    ensures
        ({
            let s = m.sessions[ev.session_id];
            let post = m.step(ev, now);
            &&& post.knows(ev.session_id)
            &&& post.sessions[ev.session_id].state == (if s.subagent_count <= 1
                && s.awaiting_subagents && s.state != State::NeedsYou {
                s.finish_state()
            } else {
                s.state
            })
            &&& s.subagent_count <= 1 ==> !post.sessions[ev.session_id].awaiting_subagents
            &&& s.subagent_count > 1 ==> post.sessions[ev.session_id].awaiting_subagents
                == s.awaiting_subagents
        }),
{
    law_event_table(ev);
}

/// A turn that ends while subagents are live leaves the session working, or
/// blocked if it is, and owes the move to them; without any it goes at once to
/// review when flagged, and to ready when not.
pub proof fn law_finish(m: EngineModel, ev: EventModel, now: Instant)
    requires
        ev.hook_event_name == "Stop"@ || ev.hook_event_name == "StopFailure"@
            || ev.hook_event_name == "PostCompact"@,
        ev.agent_id is None,
        ev.session_id.len() > 0,
        m.knows(ev.session_id),
    ensures
        ({
            let s = m.sessions[ev.session_id];
            let post = m.step(ev, now);
            let t = post.sessions[ev.session_id];
            &&& post.knows(ev.session_id)
            &&& t.subagent_count == s.subagent_count
            &&& s.subagent_count > 0 ==> t.awaiting_subagents
            &&& t.state == (if s.subagent_count == 0 {
                if s.review_when_done {
                    State::WaitingReview
                } else {
                    State::Ready
                }
            } else if s.state == State::NeedsYou {
                State::NeedsYou
            } else {
                State::Working
            })
        }),
{
    law_event_table(ev);
}

/// The deferred finish comes with the last subagent: a turn that ended with one
/// subagent live leaves the session working, and that subagent's stop takes it
/// where the turn was bound for.
pub proof fn law_deferred_finish(
    m: EngineModel,
    stop: EventModel,
    t1: Instant,
    last: EventModel,
    t2: Instant,
)
    requires
        stop.hook_event_name == "Stop"@,
        stop.agent_id is None,
        stop.session_id.len() > 0,
        last.hook_event_name == "SubagentStop"@,
        last.session_id == stop.session_id,
        m.knows(stop.session_id),
        m.sessions[stop.session_id].subagent_count == 1,
        m.sessions[stop.session_id].state != State::NeedsYou,
    ensures
        ({
            let id = stop.session_id;
            let waiting = m.step(stop, t1);
            let done = waiting.step(last, t2);
            &&& waiting.state_of(id) == Some(State::Working)
            &&& done.state_of(id) == Some(m.sessions[id].finish_state())
            &&& done.sessions[id].subagent_count == 0
            &&& !done.sessions[id].awaiting_subagents
        }),
{
    law_finish(m, stop, t1);
    law_event_table(stop);
    law_owed_move(m.step(stop, t1), last, t2);
    law_event_table(last);
}

/// The live subagents of a tracked session are counted by their starts and
/// stops, never below zero, and forgotten on a fresh start; no other event
/// changes their number.
pub proof fn law_subagent_count(m: EngineModel, ev: EventModel, now: Instant)
    requires
        m.knows(ev.session_id),
        signal(ev) != Signal::End,
    ensures
        ({
            let n = m.sessions[ev.session_id].subagent_count;
            let post = m.step(ev, now);
            &&& post.knows(ev.session_id)
            &&& post.sessions[ev.session_id].subagent_count == (match signal(ev) {
                Signal::Spawn => n + 1,
                Signal::Release => if n > 0 {
                    (n - 1) as nat
                } else {
                    0
                },
                Signal::Start => 0,
                _ => n,
            })
        }),
{
}

/// A subagent that comes and goes leaves the number of live ones as it was.
pub proof fn law_subagent_comes_and_goes(
    m: EngineModel,
    start: EventModel,
    t1: Instant,
    stop: EventModel,
    t2: Instant,
)
    requires
        m.knows(start.session_id),
        signal(start) == Signal::Spawn,
        signal(stop) == Signal::Release,
        stop.session_id == start.session_id,
    ensures
        m.step(start, t1).step(stop, t2).sessions[start.session_id].subagent_count
            == m.sessions[start.session_id].subagent_count,
{
    law_subagent_count(m, start, t1);
    law_subagent_count(m.step(start, t1), stop, t2);
}

/// A fresh start is ready, and nothing of the last run outlives it: no live
/// subagents, no owed move, no review flag, no sticky showing.
pub proof fn law_fresh_start(m: EngineModel, ev: EventModel, now: Instant)
    requires
        ev.hook_event_name == "SessionStart"@,
        ev.agent_id is None,
        ev.session_id.len() > 0,
    ensures
        ({
            let post = m.step(ev, now);
            let s = post.sessions[ev.session_id];
            &&& post.knows(ev.session_id)
            &&& s.state == State::Ready
            &&& s.subagent_count == 0
            &&& s.sub_since is None
            &&& !s.awaiting_subagents
            &&& !s.review_when_done
            &&& !s.revealed
            &&& !s.stale
            &&& !post.ends.contains_key(ev.session_id)
        }),
{
    law_event_table(ev);
}

/// The end of a session removes its row and forgets its terminal, and for half a
/// minute no sign of life brings it back.
pub proof fn law_end_is_final_for_stragglers(
    m: EngineModel,
    end: EventModel,
    t1: Instant,
    late: EventModel,
    t2: Instant,
)
    requires
        end.hook_event_name == "SessionEnd"@,
        late.session_id == end.session_id,
        signal(late) == Signal::Beat || signal(late) == Signal::Spawn || signal(late)
            == Signal::Release,
        elapsed(t2, t1) < tombstone(),
    ensures
        ({
            let gone = m.step(end, t1);
            &&& !gone.knows(end.session_id)
            &&& gone.remembered(end.session_id) is None
            &&& gone.step(late, t2) == gone
        }),
{
    lemma_end_name(end);
}

proof fn lemma_end_name(ev: EventModel)
    requires
        ev.hook_event_name == "SessionEnd"@,
    ensures
        signal(ev) == Signal::End,
{
    law_event_table(EventModel { session_id: seq!['a'], ..ev });
}

/// Once half a minute has passed since its end, a session that gives a sign of
/// life is taken to be working again.
pub proof fn law_life_returns_in_time(
    m: EngineModel,
    end: EventModel,
    t1: Instant,
    late: EventModel,
    t2: Instant,
)
    requires
        end.hook_event_name == "SessionEnd"@,
        late.session_id == end.session_id,
        signal(late) == Signal::Beat,
        elapsed(t2, t1) >= tombstone(),
    ensures
        m.step(end, t1).step(late, t2).state_of(end.session_id) == Some(State::Working),
{
    lemma_end_name(end);
}

/// An event that moves its session brings it back after an end, however soon.
pub proof fn law_real_restart_returns(
    m: EngineModel,
    end: EventModel,
    t1: Instant,
    ev: EventModel,
    t2: Instant,
)
    requires
        end.hook_event_name == "SessionEnd"@,
        ev.session_id == end.session_id,
        signal(ev) == Signal::Start || signal(ev) is Enter || signal(ev) == Signal::Finish,
    ensures
        ({
            let back = m.step(end, t1).step(ev, t2);
            &&& back.knows(ev.session_id)
            &&& !back.ends.contains_key(ev.session_id)
        }),
{
    lemma_end_name(end);
}

/// A repeated event moves nothing: only the first of two alike is a transition.
pub proof fn law_repeat_moves_nothing(
    m: EngineModel,
    ev: EventModel,
    t1: Instant,
    again: EventModel,
    t2: Instant,
)
    requires
        signal(ev) is Enter,
        signal(again) == signal(ev),
        again.session_id == ev.session_id,
    ensures
        ({
            let first = m.step(ev, t1);
            let second = first.step(again, t2);
            &&& !moved(first, second, ev.session_id)
            &&& second.sessions[ev.session_id].state_since
                == first.sessions[ev.session_id].state_since
        }),
{
}

/// A transition that an event reports is one: it leads to the state that the
/// session is in now, from another one, which the session was in before, or from
/// none when it is new.
pub proof fn law_transitions_are_real(
    out: ApplyOutcome,
    pre: EngineModel,
    post: EngineModel,
    ev: EventModel,
)
    requires
        told(out, pre, post, ev),
        out.transition is Some,
    ensures
        ({
            let t = out.transition->0;
            &&& t.from != Some(t.to)
            &&& t.from == pre.state_of(ev.session_id)
            &&& Some(t.to) == post.state_of(ev.session_id)
            &&& out.changed
        }),
{
}

/// A tracked session changes its state only in a reported transition.
pub proof fn law_no_silent_moves(
    m: EngineModel,
    ev: EventModel,
    now: Instant,
    out: ApplyOutcome,
    id: Seq<char>,
)
    requires
        told(out, m, m.step(ev, now), ev),
        out.transition is None,
        m.knows(id),
        m.step(ev, now).knows(id),
    ensures
        m.step(ev, now).sessions[id].state == m.sessions[id].state,
{
}

/// Learning of a session's terminal leaves its state, its flags and its
/// subagents alone.
pub proof fn law_terminal_changes_no_state(m: EngineModel, ev: EventModel, now: Instant)
    requires
        ev.hook_event_name == "BeaconTerminal"@,
        ev.session_id.len() > 0,
        m.knows(ev.session_id),
    ensures
        m.step(ev, now).sessions[ev.session_id] == (SessionModel {
            terminal_pid: m.step(ev, now).sessions[ev.session_id].terminal_pid,
            terminal_app: m.step(ev, now).sessions[ev.session_id].terminal_app,
            terminal_tty: m.step(ev, now).sessions[ev.session_id].terminal_tty,
            last_seen: now,
            cwd: m.sessions[ev.session_id].cwd_after(ev),
            name: m.sessions[ev.session_id].name_after(ev),
            ..m.sessions[ev.session_id]
        }),
{
    law_event_table(ev);
}

/// Remembering a terminal shows nothing: no session comes or changes, every list
/// and the tray stay as they were; one without a process is not remembered.
pub proof fn law_seeding_shows_nothing(
    m: EngineModel,
    id: Seq<char>,
    terminal: CaptureModel,
    views: Seq<SessionView>,
    now: Instant,
)
    ensures
        ({
            let seeded = m.with_capture(id, terminal);
            &&& seeded.sessions == m.sessions
            &&& seeded.rollup() == m.rollup()
            &&& shows(views, seeded, now) == shows(views, m, now)
            &&& same_settings(m, seeded)
            &&& terminal.pid is None ==> seeded == m
        }),
{
    let seeded = m.with_capture(id, terminal);
    assert forall|x: Seq<char>| #[trigger] seeded.live(x) == m.live(x) by {}
    assert forall|x: Seq<char>| #[trigger] m.live(x) implies seeded.sessions[x]
        == m.sessions[x] by {}
    lemma_any_live_same(m, seeded, State::NeedsYou);
    lemma_any_live_same(m, seeded, State::WaitingReview);
    lemma_any_live_same(m, seeded, State::Working);
    lemma_any_live_same(m, seeded, State::Ready);
    if shows(views, m, now) {
        lemma_shows_same(m, seeded, views, now);
    }
    if shows(views, seeded, now) {
        lemma_shows_same(seeded, m, views, now);
    }
}

proof fn lemma_shows_same(m: EngineModel, n: EngineModel, views: Seq<SessionView>, now: Instant)
    requires
        n.sessions == m.sessions,
        n.ignore == m.ignore,
        n.never_hide == m.never_hide,
        n.repos == m.repos,
        n.platform == m.platform,
        shows(views, m, now),
    ensures
        shows(views, n, now),
{
    assert forall|x: Seq<char>| #[trigger] viewed(views).contains(x) <==> n.visible(x) by {
        assert(viewed(views).contains(x) <==> m.visible(x));
    }
    assert forall|i: int| 0 <= i < views.len() implies view_fits(#[trigger] views[i], n, now) by {
        assert(view_fits(views[i], m, now));
    }
}

/// Whether an event comes from the session itself: it asks for something, and
/// neither ends the session nor only tells of its terminal.
pub open spec fn is_real(ev: EventModel) -> bool {
    signal(ev) != Signal::Nothing && signal(ev) != Signal::End && signal(ev) != Signal::Terminal
}

/// A remembered terminal waits for its session. Whatever comes in between, unless
/// the session ends, the first event of the session itself that brings it up
/// attaches the terminal.
pub proof fn law_seed_reaches_its_session(
    m: EngineModel,
    terminal: CaptureModel,
    between: Seq<(EventModel, Instant)>,
    ev: EventModel,
    now: Instant,
    post: EngineModel,
)
    requires
        terminal.pid is Some,
        forall|i: int|
            0 <= i < between.len() && (#[trigger] between[i]).0.session_id == ev.session_id
                ==> signal(between[i].0) != Signal::End,
        !run(m.with_capture(ev.session_id, terminal), between).knows(ev.session_id),
        takes_in(run(m.with_capture(ev.session_id, terminal), between), post, ev, now),
        is_real(ev),
        post.knows(ev.session_id),
    ensures
        post.sessions[ev.session_id].terminal_pid == terminal.pid,
        post.sessions[ev.session_id].terminal_app == terminal.app,
        post.sessions[ev.session_id].terminal_tty == terminal.tty,
{
    let id = ev.session_id;
    let seeded = m.with_capture(id, terminal);
    law_terminal_stays_remembered(seeded, between, id);
    let before = run(seeded, between);
    let name = choose|name: Option<Seq<char>>|
        #[trigger] dir_named(ev.cwd, name) && post == before.step(ev.named(name), now);
    assert(signal(ev.named(name)) == signal(ev));
    assert(before.remembered(id) == Some(terminal));
}

/// A terminal stays remembered through any run of events without its session's
/// end.
pub proof fn law_terminal_stays_remembered(
    m: EngineModel,
    events: Seq<(EventModel, Instant)>,
    id: Seq<char>,
)
    requires
        forall|i: int|
            0 <= i < events.len() && (#[trigger] events[i]).0.session_id == id ==> signal(
                events[i].0,
            ) != Signal::End,
    ensures
        run(m, events).remembered(id) == m.remembered(id),
    decreases events.len(),
{
    if events.len() > 0 {
        let before = events.drop_last();
        assert forall|i: int|
            0 <= i < before.len() && (#[trigger] before[i]).0.session_id == id implies signal(
            before[i].0,
        ) != Signal::End by {
            assert(before[i] == events[i]);
        }
        law_terminal_stays_remembered(m, before, id);
        assert(events.last() == events[events.len() - 1]);
        let last = events.last();
        assert(run(m, before).step(last.0, last.1).captures == run(m, before).captures
            || last.0.session_id != id);
    }
}

/// A terminal that a session has of its own is not displaced by a remembered one.
pub proof fn law_own_terminal_stays(m: EngineModel, ev: EventModel, now: Instant)
    requires
        m.knows(ev.session_id),
        m.sessions[ev.session_id].terminal_pid is Some,
        signal(ev) != Signal::Terminal,
        signal(ev) != Signal::End,
    ensures
        ({
            let s = m.sessions[ev.session_id];
            let t = m.step(ev, now).sessions[ev.session_id];
            &&& t.terminal_pid == s.terminal_pid
            &&& t.terminal_app == s.terminal_app
            &&& t.terminal_tty == s.terminal_tty
        }),
{
}

// ---------------------------------------------------------------------------
// The review flag.
/// Flagging a session moves nothing; its next finish then waits for review, and
/// clearing the flag before that lets it be ready.
pub proof fn law_flag_decides_next_finish(
    m: EngineModel,
    id: Seq<char>,
    flag: bool,
    t1: Instant,
    ev: EventModel,
    t2: Instant,
)
    requires
        m.knows(id),
        m.sessions[id].subagent_count == 0,
        ev.session_id == id,
        signal(ev) == Signal::Finish,
    ensures
        flag ==> m.with_flag(id, flag, t1).state_of(id) == m.state_of(id),
        m.with_flag(id, flag, t1).step(ev, t2).state_of(id) == Some(
            if flag {
                State::WaitingReview
            } else {
                State::Ready
            },
        ),
{
}

/// Clearing the flag of a session that waits for review makes it ready at once,
/// and leaves a session in any other state where it is.
pub proof fn law_clearing_the_flag(m: EngineModel, id: Seq<char>, now: Instant)
    requires
        m.knows(id),
    ensures
        m.with_flag(id, false, now).state_of(id) == Some(
            if m.sessions[id].state == State::WaitingReview {
                State::Ready
            } else {
                m.sessions[id].state
            },
        ),
        !m.with_flag(id, false, now).sessions[id].review_when_done,
{
}

// ---------------------------------------------------------------------------
// Hidden sessions.
/// Every tracked session is either shown or hidden, never both.
pub proof fn law_shown_or_hidden(m: EngineModel, id: Seq<char>)
    ensures
        m.knows(id) <==> (m.visible(id) || m.hidden(id)),
        !(m.visible(id) && m.hidden(id)),
{
}

/// Without rules nothing is hidden, and taking all rules away shows every
/// session again with nothing of it lost.
pub proof fn law_no_rules_hide_nothing(m: EngineModel, id: Seq<char>)
    requires
        m.knows(id),
    ensures
        m.with_ignore(Seq::empty()).visible(id),
        m.with_ignore(Seq::empty()).sessions == m.sessions,
{
}

/// A session that meets a rule of the allowlist is never hidden.
pub proof fn law_allowlist_wins(m: EngineModel, id: Seq<char>)
    requires
        m.knows(id),
        meets(m.never_hide, m.sessions[id].cwd, m.sessions[id].first_prompt),
    ensures
        m.visible(id),
{
}

/// A session whose opening shows a person at the keyboard is not hidden by any
/// rule on prompts.
pub proof fn law_marked_openings_stay(m: EngineModel, id: Seq<char>)
    requires
        m.knows(id),
        m.sessions[id].first_prompt matches Some(p) && marked(p),
    ensures
        m.hidden(id) ==> hides_cwd(m.ignore, m.sessions[id].cwd),
{
}

/// A rule is met or not without regard to case, and a rule on prompts without
/// regard to leading white space.
pub proof fn law_case_is_ignored(
    rules: Seq<MatcherModel>,
    cwd1: Seq<char>,
    cwd2: Seq<char>,
    prompt1: Seq<char>,
    prompt2: Seq<char>,
)
    requires
        lowercase(cwd1) == lowercase(cwd2),
        lowercase(trimmed_start(prompt1)) == lowercase(trimmed_start(prompt2)),
    ensures
        hides_cwd(rules, cwd1) == hides_cwd(rules, cwd2),
        meets(rules, cwd1, Some(prompt1)) == meets(rules, cwd2, Some(prompt2)),
        meets(rules, cwd1, None) == meets(rules, cwd2, None),
{
    assert forall|i: int| 0 <= i < rules.len() implies (#[trigger] rules[i]).fires_on_cwd(cwd1)
        == rules[i].fires_on_cwd(cwd2) by {}
    assert forall|i: int| 0 <= i < rules.len() implies (#[trigger] rules[i]).fires_on_prompt(
        prompt1,
    ) == rules[i].fires_on_prompt(prompt2) by {}
}

/// One rule more hides no less.
pub proof fn law_more_rules_hide_more(m: EngineModel, rule: MatcherModel, id: Seq<char>)
    requires
        m.hidden(id),
    ensures
        m.with_rule(rule).hidden(id),
{
    let s = m.sessions[id];
    let more = m.ignore.push(rule);
    if hides_cwd(m.ignore, s.cwd) {
        let i = choose|i: int|
            0 <= i < m.ignore.len() && (#[trigger] m.ignore[i]).fires_on_cwd(s.cwd);
        assert(more[i] == m.ignore[i]);
    } else {
        let p = s.first_prompt->0;
        let i = choose|i: int|
            0 <= i < m.ignore.len() && (#[trigger] m.ignore[i]).fires_on_prompt(p);
        assert(more[i] == m.ignore[i]);
    }
}

/// A preview lists exactly the sessions that are shown now and would no longer
/// be once the rule is added.
pub proof fn law_preview_predicts(
    views: Seq<SessionView>,
    m: EngineModel,
    rule: MatcherModel,
    now: Instant,
    id: Seq<char>,
)
    requires
        previews(views, m, rule, now),
    ensures
        viewed(views).contains(id) <==> m.visible(id) && !m.with_ignore(
            m.ignore.push(rule),
        ).visible(id),
{
    let after = m.with_ignore(m.ignore.push(rule));
    if m.knows(id) {
        assert(after.hides_session(after.sessions[id]) == m.with_rule(rule).hides_session(
            m.sessions[id],
        ));
    }
}

/// A session that is blocked and shown is not hidden by a first prompt that
/// comes late.
pub proof fn law_late_prompt_hides_no_block(
    m: EngineModel,
    id: Seq<char>,
    value: Option<Seq<char>>,
    now: Instant,
)
    requires
        m.visible(id),
        m.sessions[id].state == State::NeedsYou,
    ensures
        m.with_first_prompt(id, value, now).visible(id),
{
}

/// Taking in a first prompt: it changes no state and no other session; finding
/// none keeps what was known and leaves the prompt to be read again; one that is
/// found is kept, and is never due again; a session that is blocked and shown
/// stays shown. An unknown session changes nothing.
pub proof fn law_first_prompt(
    m: EngineModel,
    id: Seq<char>,
    value: Option<Seq<char>>,
    t1: Instant,
    retry: Duration,
    t2: Instant,
    other: Seq<char>,
)
    ensures
        ({
            let post = m.with_first_prompt(id, value, t1);
            &&& !m.knows(id) ==> post == m
            &&& other != id ==> same_for(m, post, other)
            &&& same_settings(m, post)
            &&& m.knows(id) ==> {
                &&& post.knows(id)
                &&& post.sessions[id] == (SessionModel {
                    first_prompt: if value is Some {
                        value
                    } else {
                        m.sessions[id].first_prompt
                    },
                    first_prompt_checked_at: Some(t1),
                    revealed: post.sessions[id].revealed,
                    ..m.sessions[id]
                })
                &&& value is None && elapsed(t2, t1) >= retry.nanos ==> post.first_prompt_due(
                    id,
                    retry,
                    t2,
                ) == ((m.observe_enabled || names_prompts(m.ignore)) && m.sessions[id].first_prompt
                    is None && !hides_cwd(m.ignore, m.sessions[id].cwd))
                &&& value is Some ==> !post.first_prompt_due(id, retry, t2)
            }
            &&& m.visible(id) && m.sessions[id].state == State::NeedsYou ==> post.visible(id)
        }),
{
}

/// Whether the engine went from `pre` to `post` by taking in the outcome of reading
/// a session's first prompt, as far as anyone can see: no state and no other
/// session changes; finding none keeps what was known; one that is found is kept,
/// and never due; a session that is blocked and shown stays shown; an unknown
/// session changes nothing.
pub open spec fn prompt_taken(
    pre: EngineModel,
    post: EngineModel,
    id: Seq<char>,
    value: Option<Seq<char>>,
) -> bool {
    &&& forall|other: Seq<char>| other != id ==> #[trigger] same_for(pre, post, other)
    &&& same_settings(pre, post)
    &&& post.state_of(id) == pre.state_of(id)
    &&& !pre.knows(id) ==> post == pre
    &&& pre.knows(id) ==> post.sessions[id].first_prompt == pre.sessions[id].prompt_after(value)
    &&& value is Some ==> forall|retry: Duration, now: Instant|
        !#[trigger] post.first_prompt_due(id, retry, now)
    &&& pre.visible(id) && pre.sessions[id].state == State::NeedsYou ==> post.visible(id)
}

/// Taking in a first prompt is seen as nothing else.
pub proof fn law_first_prompt_taken(
    m: EngineModel,
    id: Seq<char>,
    value: Option<Seq<char>>,
    now: Instant,
)
    ensures
        prompt_taken(m, m.with_first_prompt(id, value, now), id, value),
{
    let post = m.with_first_prompt(id, value, now);
    assert forall|other: Seq<char>| other != id implies #[trigger] same_for(m, post, other) by {
        law_first_prompt(m, id, value, now, Duration { nanos: 0 }, now, other);
    }
}

/// A first prompt that is known stays so through any run of events without the
/// session's end, and is never due again.
pub proof fn law_first_prompt_is_kept(
    m: EngineModel,
    events: Seq<(EventModel, Instant)>,
    id: Seq<char>,
    retry: Duration,
    now: Instant,
)
    requires
        m.knows(id),
        m.sessions[id].first_prompt is Some,
        forall|i: int|
            0 <= i < events.len() && (#[trigger] events[i]).0.session_id == id ==> signal(
                events[i].0,
            ) != Signal::End,
    ensures
        run(m, events).knows(id),
        run(m, events).sessions[id].first_prompt == m.sessions[id].first_prompt,
        !run(m, events).first_prompt_due(id, retry, now),
    decreases events.len(),
{
    if events.len() > 0 {
        let before = events.drop_last();
        assert forall|i: int|
            0 <= i < before.len() && (#[trigger] before[i]).0.session_id == id implies signal(
            before[i].0,
        ) != Signal::End by {
            assert(before[i] == events[i]);
        }
        law_first_prompt_is_kept(m, before, id, retry, now);
        assert(events.last() == events[events.len() - 1]);
        lemma_step_keeps_prompt(run(m, before), events.last().0, events.last().1, id);
    }
}

proof fn lemma_step_keeps_prompt(m: EngineModel, ev: EventModel, now: Instant, id: Seq<char>)
    requires
        m.knows(id),
        ev.session_id == id ==> signal(ev) != Signal::End,
    ensures
        m.step(ev, now).knows(id),
        m.step(ev, now).sessions[id].first_prompt == m.sessions[id].first_prompt,
{
}

/// Finding no descriptor keeps the one there is.
pub proof fn law_no_descriptor_clears_none(m: EngineModel, id: Seq<char>, now: Instant)
    requires
        m.knows(id),
    ensures
        m.with_descriptor(id, None, now).sessions[id].descriptor == m.sessions[id].descriptor,
{
}

/// There are as many entries in an audit as there are hidden sessions.
pub proof fn law_audit_counts_the_hidden(out: Seq<HiddenSession>, m: EngineModel, now: Instant)
    requires
        audits(out, m, now),
    ensures
        out.len() == m.hidden_ids().len(),
{
    let ids = viewed(audited(out));
    ids.unique_seq_to_set();
    assert(ids.to_set() =~= m.hidden_ids());
}

/// A snapshot and an audit together list every tracked session, each once.
pub proof fn law_snapshot_and_audit_cover(
    views: Seq<SessionView>,
    out: Seq<HiddenSession>,
    m: EngineModel,
    now: Instant,
    id: Seq<char>,
)
    requires
        shows(views, m, now),
        audits(out, m, now),
    ensures
        m.knows(id) <==> viewed(views).contains(id) || viewed(audited(out)).contains(id),
        !(viewed(views).contains(id) && viewed(audited(out)).contains(id)),
        views.len() + out.len() == m.sessions.dom().len(),
{
    let shown = viewed(views);
    let hidden = viewed(audited(out));
    shown.unique_seq_to_set();
    hidden.unique_seq_to_set();
    assert(shown.to_set().disjoint(hidden.to_set()));
    assert(m.sessions.dom() =~= shown.to_set() + hidden.to_set());
    vstd::set_lib::lemma_set_disjoint_lens(shown.to_set(), hidden.to_set());
}

/// Whether two views show the same, but for how many seconds have gone by.
pub open spec fn same_view(a: SessionView, b: SessionView) -> bool {
    &&& a.session_id@ == b.session_id@
    &&& a.label@ == b.label@
    &&& a.folder@ == b.folder@
    &&& a.branch.deep_view() == b.branch.deep_view()
    &&& a.worktree == b.worktree
    &&& a.origin == b.origin
    &&& a.state == b.state
    &&& a.stale == b.stale
    &&& a.subagent_count == b.subagent_count
    &&& a.can_focus == b.can_focus
    &&& a.descriptor.deep_view() == b.descriptor.deep_view()
    &&& a.review_when_done == b.review_when_done
}

/// Whether two lists of views show the same, in the same order, but for how many
/// seconds have gone by.
pub open spec fn same_views(a: Seq<SessionView>, b: Seq<SessionView>) -> bool {
    &&& a.len() == b.len()
    &&& forall|i: int| 0 <= i < a.len() ==> same_view(#[trigger] a[i], b[i])
}

/// A snapshot shows exactly the tracked sessions that are not hidden, each once,
/// and two of one state show the same but for how many seconds have gone by.
pub proof fn law_snapshots_agree(
    a: Seq<SessionView>,
    t1: Instant,
    b: Seq<SessionView>,
    t2: Instant,
    m: EngineModel,
    id: Seq<char>,
)
    requires
        shows(a, m, t1),
        shows(b, m, t2),
    ensures
        viewed(a).no_duplicates(),
        viewed(a).contains(id) <==> m.knows(id) && !m.hidden(id),
        same_views(a, b),
{
    assert forall|x: Seq<char>| #[trigger] viewed(a).contains(x) <==> viewed(b).contains(x) by {
        assert(viewed(a).contains(x) <==> m.visible(x));
        assert(viewed(b).contains(x) <==> m.visible(x));
    }
    lemma_lists_agree(a, t1, b, t2, m, true);
}

/// Two previews of one rule in one state show the same but for how many seconds
/// have gone by, and so do two audits, with the same rules.
pub proof fn law_previews_and_audits_agree(
    a: Seq<SessionView>,
    b: Seq<SessionView>,
    rule: MatcherModel,
    c: Seq<HiddenSession>,
    d: Seq<HiddenSession>,
    m: EngineModel,
    t1: Instant,
    t2: Instant,
)
    requires
        previews(a, m, rule, t1),
        previews(b, m, rule, t2),
        audits(c, m, t1),
        audits(d, m, t2),
    ensures
        same_views(a, b),
        same_views(audited(c), audited(d)),
        forall|i: int| 0 <= i < c.len() ==> (#[trigger] c[i]).rule@ == d[i].rule@,
{
    assert forall|x: Seq<char>| #[trigger] viewed(a).contains(x) <==> viewed(b).contains(x) by {
        let chosen = m.visible(x) && m.with_rule(rule).hidden(x);
        assert(viewed(a).contains(x) <==> chosen);
        assert(viewed(b).contains(x) <==> chosen);
    }
    lemma_lists_agree(a, t1, b, t2, m, false);
    let e = audited(c);
    let f = audited(d);
    assert forall|x: Seq<char>| #[trigger] viewed(e).contains(x) <==> viewed(f).contains(x) by {
        assert(viewed(e).contains(x) <==> m.hidden(x));
        assert(viewed(f).contains(x) <==> m.hidden(x));
    }
    lemma_lists_agree(e, t1, f, t2, m, false);
    assert forall|i: int| 0 <= i < c.len() implies (#[trigger] c[i]).rule@ == d[i].rule@ by {
        assert(same_view(e[i], f[i]));
        let s = m.sessions[c[i].session.session_id@];
        assert(attributed(m.ignore, s, c[i].rule@));
        assert(attributed(m.ignore, m.sessions[d[i].session.session_id@], d[i].rule@));
        lemma_attribution_is_unique(m.ignore, s, c[i].rule@, d[i].rule@);
    }
}

proof fn lemma_attribution_is_unique(
    rules: Seq<MatcherModel>,
    s: SessionModel,
    a: MatcherModel,
    b: MatcherModel,
)
    requires
        attributed(rules, s, a),
        attributed(rules, s, b),
    ensures
        a == b,
{
    if hides_cwd(rules, s.cwd) {
        let i = choose|i: int|
            0 <= i < rules.len() && a == #[trigger] rules[i] && rules[i].fires_on_cwd(s.cwd)
                && forall|j: int| 0 <= j < i ==> !(#[trigger] rules[j]).fires_on_cwd(s.cwd);
        let k = choose|k: int|
            0 <= k < rules.len() && b == #[trigger] rules[k] && rules[k].fires_on_cwd(s.cwd)
                && forall|j: int| 0 <= j < k ==> !(#[trigger] rules[j]).fires_on_cwd(s.cwd);
        assert(i == k);
    } else {
        let p = s.first_prompt->0;
        let i = choose|i: int|
            0 <= i < rules.len() && a == #[trigger] rules[i] && rules[i].fires_on_prompt(p)
                && forall|j: int| 0 <= j < i ==> !(#[trigger] rules[j]).fires_on_prompt(p);
        let k = choose|k: int|
            0 <= k < rules.len() && b == #[trigger] rules[k] && rules[k].fires_on_prompt(p)
                && forall|j: int| 0 <= j < k ==> !(#[trigger] rules[j]).fires_on_prompt(p);
        assert(i == k);
    }
}

/// Two lists of the same sessions in their order are alike.
proof fn lemma_lists_agree(
    a: Seq<SessionView>,
    t1: Instant,
    b: Seq<SessionView>,
    t2: Instant,
    m: EngineModel,
    live_first: bool,
)
    requires
        forall|i: int| 0 <= i < a.len() ==> view_fits(#[trigger] a[i], m, t1),
        forall|i: int| 0 <= i < b.len() ==> view_fits(#[trigger] b[i], m, t2),
        in_sequence(a, live_first),
        in_sequence(b, live_first),
        viewed(a).no_duplicates(),
        viewed(b).no_duplicates(),
        forall|x: Seq<char>| #[trigger] viewed(a).contains(x) <==> viewed(b).contains(x),
    ensures
        same_views(a, b),
    decreases a.len(),
{
    if a.len() == 0 {
        if b.len() > 0 {
            assert(viewed(b)[0] == b[0].session_id@);
            assert(viewed(b).contains(b[0].session_id@));
            assert(viewed(a).contains(b[0].session_id@));
        }
    } else {
        lemma_first_agree(a, t1, b, t2, m, live_first);
        let c = a.skip(1);
        let d = b.skip(1);
        assert forall|i: int| 0 <= i < c.len() implies view_fits(#[trigger] c[i], m, t1) by {
            assert(c[i] == a[i + 1]);
        }
        assert forall|i: int| 0 <= i < d.len() implies view_fits(#[trigger] d[i], m, t2) by {
            assert(d[i] == b[i + 1]);
        }
        assert(viewed(c) =~= viewed(a).skip(1));
        assert(viewed(d) =~= viewed(b).skip(1));
        lemma_skip_contains(viewed(a));
        lemma_skip_contains(viewed(b));
        assert forall|x: Seq<char>| #[trigger] viewed(c).contains(x) <==> viewed(d).contains(x) by {
            assert(viewed(a).contains(x) <==> viewed(b).contains(x));
        }
        lemma_lists_agree(c, t1, d, t2, m, live_first);
        assert forall|i: int| 0 <= i < a.len() implies same_view(#[trigger] a[i], b[i]) by {
            if i > 0 {
                assert(same_view(c[i - 1], d[i - 1]));
            }
        }
    }
}

/// The first view of either list stands no later than the other's first, so they
/// show the same session.
proof fn lemma_first_agree(
    a: Seq<SessionView>,
    t1: Instant,
    b: Seq<SessionView>,
    t2: Instant,
    m: EngineModel,
    live_first: bool,
)
    requires
        a.len() > 0,
        forall|i: int| 0 <= i < a.len() ==> view_fits(#[trigger] a[i], m, t1),
        forall|i: int| 0 <= i < b.len() ==> view_fits(#[trigger] b[i], m, t2),
        in_sequence(a, live_first),
        in_sequence(b, live_first),
        forall|x: Seq<char>| #[trigger] viewed(a).contains(x) <==> viewed(b).contains(x),
    ensures
        b.len() > 0,
        same_view(a[0], b[0]),
{
    assert(viewed(a)[0] == a[0].session_id@);
    assert(viewed(a).contains(a[0].session_id@));
    assert(viewed(b).contains(a[0].session_id@));
    let j = choose|j: int| 0 <= j < viewed(b).len() && viewed(b)[j] == a[0].session_id@;
    assert(viewed(b)[0] == b[0].session_id@);
    assert(viewed(b).contains(b[0].session_id@));
    assert(viewed(a).contains(b[0].session_id@));
    let i = choose|i: int| 0 <= i < viewed(a).len() && viewed(a)[i] == b[0].session_id@;
    assert(view_fits(a[0], m, t1) && view_fits(a[i], m, t1));
    assert(view_fits(b[0], m, t2) && view_fits(b[j], m, t2));
    if a[0].session_id@ != b[0].session_id@ {
        assert(may_precede(a[0], a[i], live_first));
        assert(may_precede(b[0], b[j], live_first));
        if a[0].label@ != b[0].label@ {
            if !(live_first && a[0].stale != b[0].stale) {
                lemma_ordered_antisymmetric(a[0].label@, b[0].label@);
            }
        } else if !(live_first && a[0].stale != b[0].stale) {
            lemma_ordered_antisymmetric(a[0].session_id@, b[0].session_id@);
        }
    }
}

/// Without its first, a sequence that holds nothing twice holds all the others.
proof fn lemma_skip_contains(ids: Seq<Seq<char>>)
    requires
        ids.len() > 0,
        ids.no_duplicates(),
    ensures
        ids.skip(1).no_duplicates(),
        forall|x: Seq<char>| #[trigger]
            ids.skip(1).contains(x) <==> ids.contains(x) && x != ids[0],
{
    assert forall|x: Seq<char>| #[trigger] ids.skip(1).contains(x) <==> ids.contains(x) && x
        != ids[0] by {
        if ids.skip(1).contains(x) {
            let i = choose|i: int| 0 <= i < ids.skip(1).len() && ids.skip(1)[i] == x;
            assert(ids[i + 1] == x);
        }
        if ids.contains(x) && x != ids[0] {
            let i = choose|i: int| 0 <= i < ids.len() && ids[i] == x;
            assert(ids.skip(1)[i - 1] == x);
        }
    }
}

/// The rule that an audit names for a session is one that the session meets.
pub proof fn law_audit_names_a_cause(
    out: Seq<HiddenSession>,
    m: EngineModel,
    now: Instant,
    i: int,
)
    requires
        audits(out, m, now),
        0 <= i < out.len(),
    ensures
        ({
            let s = m.sessions[out[i].session.session_id@];
            let rule = out[i].rule@;
            &&& m.ignore.contains(rule)
            &&& {
                ||| rule.fires_on_cwd(s.cwd)
                ||| s.first_prompt matches Some(p) && rule.fires_on_prompt(p)
            }
            &&& hides_cwd(m.ignore, s.cwd) ==> rule.fires_on_cwd(s.cwd)
        }),
{
    let s = m.sessions[out[i].session.session_id@];
    assert(attributed(m.ignore, s, out[i].rule@));
}

// ---------------------------------------------------------------------------
// The tray.
/// A session that is hidden or stale does not colour the tray.
pub proof fn law_rollup_counts_the_live(m: EngineModel, id: Seq<char>)
    requires
        !m.live(id),
    ensures
        (EngineModel { sessions: m.sessions.remove(id), ..m }).rollup() == m.rollup(),
{
    let less = EngineModel { sessions: m.sessions.remove(id), ..m };
    assert forall|x: Seq<char>| #[trigger] less.live(x) == m.live(x) by {}
    assert forall|x: Seq<char>| #[trigger] m.live(x) implies less.sessions[x] == m.sessions[x] by {}
    lemma_any_live_same(m, less, State::NeedsYou);
    lemma_any_live_same(m, less, State::WaitingReview);
    lemma_any_live_same(m, less, State::Working);
    lemma_any_live_same(m, less, State::Ready);
}

proof fn lemma_any_live_same(m: EngineModel, n: EngineModel, state: State)
    requires
        forall|x: Seq<char>| #[trigger] n.live(x) == m.live(x),
        forall|x: Seq<char>| #[trigger] m.live(x) ==> n.sessions[x] == m.sessions[x],
    ensures
        m.any_live(state) == n.any_live(state),
{
    if m.any_live(state) {
        let x = choose|x: Seq<char>| #[trigger] m.live(x) && m.sessions[x].state == state;
        assert(n.live(x));
    }
    if n.any_live(state) {
        let x = choose|x: Seq<char>| #[trigger] n.live(x) && n.sessions[x].state == state;
        assert(m.live(x));
    }
}

/// The tray is grey exactly when no session is live, and no session outranks the
/// most urgent one.
pub proof fn law_rollup_ranks(m: EngineModel, id: Seq<char>)
    ensures
        m.rollup() == Rollup::Grey <==> forall|x: Seq<char>| !#[trigger] m.live(x),
        m.live(id) && m.sessions[id].state == State::NeedsYou ==> m.rollup() == Rollup::Red,
        m.live(id) && m.sessions[id].state == State::WaitingReview ==> m.rollup() == Rollup::Red
            || m.rollup() == Rollup::Review,
        m.live(id) && m.sessions[id].state == State::Working ==> m.rollup() != Rollup::Green
            && m.rollup() != Rollup::Grey,
{
    if m.rollup() == Rollup::Grey {
        assert forall|x: Seq<char>| !#[trigger] m.live(x) by {
            match m.sessions[x].state {
                State::NeedsYou => assert(m.live(x) ==> m.any_live(State::NeedsYou)),
                State::WaitingReview => assert(m.live(x) ==> m.any_live(State::WaitingReview)),
                State::Working => assert(m.live(x) ==> m.any_live(State::Working)),
                State::Ready => assert(m.live(x) ==> m.any_live(State::Ready)),
            }
        }
    }
}

// ---------------------------------------------------------------------------
// Silence.
/// A second sweep at the same time changes nothing.
pub proof fn law_sweep_settles(m: EngineModel, now: Instant)
    ensures
        m.swept(now).swept(now) == m.swept(now),
{
    let once = m.swept(now);
    let twice = once.swept(now);
    assert(twice.sessions =~= once.sessions);
    assert(twice.ends =~= once.ends);
}

/// A silent session is greyed before it is dropped: from the stale timeout on,
/// and until the drop timeout, it is there and stale.
pub proof fn law_greyed_before_dropped(m: EngineModel, now: Instant, id: Seq<char>)
    requires
        m.knows(id),
    ensures
        m.sessions[id].idle_for(m.stale_timeout, now) && !m.sessions[id].idle_for(
            m.drop_timeout,
            now,
        ) ==> m.swept(now).knows(id) && m.swept(now).sessions[id].stale,
        m.stale_timeout.nanos <= m.drop_timeout.nanos && !m.swept(now).knows(id)
            ==> m.sessions[id].idle_for(m.stale_timeout, now),
        m.swept(now).knows(id) <==> !m.sessions[id].idle_for(m.drop_timeout, now),
{
}

/// A sweep moves no session and makes none.
pub proof fn law_sweep_moves_nothing(m: EngineModel, now: Instant, id: Seq<char>)
    requires
        m.swept(now).knows(id),
    ensures
        m.knows(id),
        m.swept(now).sessions[id].state == m.sessions[id].state,
        m.swept(now).sessions[id].state_since == m.sessions[id].state_since,
        m.swept(now).hidden(id) == m.hidden(id),
        m.swept(now).sessions[id].stale && !m.sessions[id].stale ==> m.swept(
            now,
        ).sessions[id].subagent_count == 0,
{
}

/// A stale session is live again with the next event that asks for anything, but
/// for one that tells of its terminal.
pub proof fn law_events_revive(m: EngineModel, ev: EventModel, now: Instant)
    requires
        m.knows(ev.session_id),
        signal(ev) != Signal::Nothing,
        signal(ev) != Signal::Terminal,
        signal(ev) != Signal::End,
    ensures
        m.step(ev, now).knows(ev.session_id),
        !m.step(ev, now).sessions[ev.session_id].stale,
        m.step(ev, now).sessions[ev.session_id].last_seen == now,
{
}

// ---------------------------------------------------------------------------
// Alerts.
/// A session that works or is ready is never told of again, nor is one that is
/// stale or hidden.
pub proof fn law_only_the_stuck_are_told_of(
    m: EngineModel,
    policies: AlertPolicies,
    id: Seq<char>,
    now: Instant,
)
    requires
        m.due(policies, id, now),
    ensures
        m.knows(id),
        m.sessions[id].state == State::NeedsYou || m.sessions[id].state == State::WaitingReview,
        !m.sessions[id].stale,
        !m.hidden(id),
{
}

/// The alerts of one stay, with the one that marks its beginning, never exceed
/// the policy's number.
pub proof fn law_alert_budget(s: SessionModel, policy: AlertPolicy, now: Instant)
    ensures
        s.alert_due(policy, now) ==> s.alerted(policy, now).episode_count() + 1
            <= policy.max_triggers && s.alerted(policy, now).episode_count() == s.episode_count()
            + 1,
        !s.alert_due(policy, now) ==> s.alerted(policy, now).episode_count() == s.episode_count(),
        s.episode_count() + 1 >= policy.max_triggers ==> !s.alert_due(policy, now),
{
}

/// Two alerts of one stay are a cooldown apart, and so are the beginning of the
/// stay and the first of them.
pub proof fn law_alerts_keep_their_distance(
    s: SessionModel,
    policy: AlertPolicy,
    t1: Instant,
    t2: Instant,
)
    requires
        s.alert_due(policy, t1),
    ensures
        elapsed(t1, s.last_told()) >= policy.cooldown_secs * NANOS_PER_SEC,
        elapsed(t2, t1) < policy.cooldown_secs * NANOS_PER_SEC ==> !s.alerted(
            policy,
            t1,
        ).alert_due(policy, t2),
{
}

/// A new stay has all its alerts before it, whatever the last one used up.
pub proof fn law_new_stay_new_budget(
    s: SessionModel,
    ev: EventModel,
    state: State,
    terminal: Option<CaptureModel>,
    now: Instant,
)
    requires
        s.state != state,
        s.alert_episode != Some(now),
    ensures
        s.entered(ev, state, terminal, now).episode_count() == 0,
        s.entered(ev, state, terminal, now).last_told() == now,
{
}

/// Booking alerts changes nothing but the alert counters.
pub proof fn law_alerts_change_only_counters(
    m: EngineModel,
    policies: AlertPolicies,
    id: Seq<char>,
    now: Instant,
)
    requires
        m.knows(id),
    ensures
        ({
            let s = m.alerted(policies, now).sessions[id];
            &&& m.alerted(policies, now).knows(id)
            &&& s == (SessionModel {
                alert_episode: s.alert_episode,
                alert_count: s.alert_count,
                last_alert_at: s.last_alert_at,
                ..m.sessions[id]
            })
        }),
{
}

// ---------------------------------------------------------------------------
// Runs.
/// The engine after a run of events, each with its time.
pub open spec fn run(m: EngineModel, events: Seq<(EventModel, Instant)>) -> EngineModel
    decreases events.len(),
{
    if events.len() == 0 {
        m
    } else {
        run(m, events.drop_last()).step(events.last().0, events.last().1)
    }
}

/// What every session keeps to holds after any run of events.
pub proof fn law_runs_keep_sessions_valid(m: EngineModel, events: Seq<(EventModel, Instant)>)
    requires
        m.valid(),
        forall|i: int|
            0 <= i < events.len() ==> dir_named(
                (#[trigger] events[i]).0.cwd,
                events[i].0.cwd_name,
            ),
    ensures
        run(m, events).valid(),
    decreases events.len(),
{
    if events.len() > 0 {
        let before = events.drop_last();
        assert forall|i: int| 0 <= i < before.len() implies dir_named(
            (#[trigger] before[i]).0.cwd,
            before[i].0.cwd_name,
        ) by {
            assert(before[i] == events[i]);
        }
        law_runs_keep_sessions_valid(m, before);
        assert(events.last() == events[events.len() - 1]);
        lemma_step_valid(run(m, events.drop_last()), events.last().0, events.last().1);
    }
}

/// A session that was shown because it blocked stays shown through any run of
/// events without its own fresh start or its end.
pub proof fn law_reveal_sticks_through_runs(
    m: EngineModel,
    events: Seq<(EventModel, Instant)>,
    id: Seq<char>,
)
    requires
        m.knows(id),
        m.sessions[id].revealed,
        forall|i: int|
            0 <= i < events.len() && (#[trigger] events[i]).0.session_id == id ==> signal(
                events[i].0,
            ) != Signal::Start && signal(events[i].0) != Signal::End,
    ensures
        run(m, events).visible(id),
        run(m, events).sessions[id].revealed,
    decreases events.len(),
{
    if events.len() > 0 {
        let before = events.drop_last();
        assert forall|i: int| 0 <= i < before.len() && (#[trigger] before[i]).0.session_id
            == id implies signal(before[i].0) != Signal::Start && signal(before[i].0)
            != Signal::End by {
            assert(before[i] == events[i]);
        }
        law_reveal_sticks_through_runs(m, before, id);
        assert(events.last() == events[events.len() - 1]);
        law_reveal_sticks(run(m, before), events.last().0, events.last().1, id);
    }
}

/// A run of events of other sessions leaves a session as it was.
pub proof fn law_runs_of_others(
    m: EngineModel,
    events: Seq<(EventModel, Instant)>,
    id: Seq<char>,
)
    requires
        forall|i: int| 0 <= i < events.len() ==> (#[trigger] events[i]).0.session_id != id,
    ensures
        run(m, events).knows(id) == m.knows(id),
        m.knows(id) ==> run(m, events).sessions[id] == m.sessions[id],
    decreases events.len(),
{
    if events.len() > 0 {
        let before = events.drop_last();
        assert forall|i: int| 0 <= i < before.len() implies (#[trigger] before[i]).0.session_id
            != id by {
            assert(before[i] == events[i]);
        }
        law_runs_of_others(m, before, id);
        assert(events.last() == events[events.len() - 1]);
        lemma_step_concerns_one_session(run(m, before), events.last().0, events.last().1, id);
    }
}

/// A session after alerts were looked for at each of these times, in one stay.
pub open spec fn looked_at(
    s: SessionModel,
    policy: AlertPolicy,
    times: Seq<Instant>,
) -> SessionModel
    decreases times.len(),
{
    if times.len() == 0 {
        s
    } else {
        looked_at(s, policy, times.drop_last()).alerted(policy, times.last())
    }
}

/// How many alerts were given at these times.
pub open spec fn alerts_given(s: SessionModel, policy: AlertPolicy, times: Seq<Instant>) -> nat
    decreases times.len(),
{
    if times.len() == 0 {
        0
    } else {
        let before = looked_at(s, policy, times.drop_last());
        alerts_given(s, policy, times.drop_last()) + if before.alert_due(policy, times.last()) {
            1nat
        } else {
            0nat
        }
    }
}

/// However often alerts are looked for in one stay, those that are given and the
/// one that marks its beginning are no more than the policy's number.
pub proof fn law_alerts_of_one_stay(s: SessionModel, policy: AlertPolicy, times: Seq<Instant>)
    requires
        s.episode_count() == 0,
    ensures
        alerts_given(s, policy, times) == looked_at(s, policy, times).episode_count(),
        looked_at(s, policy, times).state_since == s.state_since,
        policy.max_triggers >= 1 ==> alerts_given(s, policy, times) + 1 <= policy.max_triggers,
        policy.max_triggers == 0 ==> alerts_given(s, policy, times) == 0,
    decreases times.len(),
{
    if times.len() > 0 {
        law_alerts_of_one_stay(s, policy, times.drop_last());
        law_alert_budget(looked_at(s, policy, times.drop_last()), policy, times.last());
    }
}

} // verus!
