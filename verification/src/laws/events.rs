//! What an event does to its session, and what it leaves alone.
use super::signals::{law_who_asks_for_what, lemma_speaks, speaks};
use crate::event::{is_block, signal, EventModel, Signal};
use crate::ignore::{hides_cwd, meets, meets_prompt};
use crate::label::dir_named;
use crate::markers::marked;
use crate::model::{takes_in, tombstone, EngineModel};
use crate::report::{told, ApplyOutcome};
use crate::session::{CaptureModel, SessionModel, State};
use crate::time::{elapsed, Instant};
use vstd::prelude::*;

verus! {

/// Taking in an event is one step at its time, with a name that its directory can
/// have.
pub proof fn law_taking_in(pre: EngineModel, post: EngineModel, ev: EventModel, now: Instant)
    requires
        takes_in(pre, post, ev, now),
    ensures
        exists|name: Option<Seq<char>>|
            #[trigger] dir_named(ev.cwd, name) && post == pre.step(ev.named(name), now),
{
}

/// An event leaves alone what is not its session's: every other session, what is
/// remembered of it and when it ended, and every setting.
pub proof fn law_events_leave_the_rest(
    pre: EngineModel,
    post: EngineModel,
    ev: EventModel,
    now: Instant,
    other: Seq<char>,
)
    requires
        post == pre.step(ev, now),
        other != ev.session_id,
    ensures
        post.sessions.contains_key(other) <==> pre.sessions.contains_key(other),
        pre.sessions.contains_key(other) ==> post.sessions[other] == pre.sessions[other],
        post.captures.contains_key(other) <==> pre.captures.contains_key(other),
        pre.captures.contains_key(other) ==> post.captures[other] == pre.captures[other],
        post.ends.contains_key(other) <==> pre.ends.contains_key(other),
        pre.ends.contains_key(other) ==> post.ends[other] == pre.ends[other],
        post == (EngineModel {
            sessions: post.sessions,
            captures: post.captures,
            ends: post.ends,
            reveal_count: post.reveal_count,
            ..pre
        }),
{
}

/// A session is where its latest event says that it is. An event with a directory
/// takes its session there, for a new one as for one that ran elsewhere; the name
/// is one that goes with that directory. An event without a directory leaves both
/// alone, and a new session then has neither.
#[verifier::rlimit(40)]
pub proof fn law_whereabouts(pre: EngineModel, post: EngineModel, ev: EventModel, now: Instant)
    requires
        post == pre.step(ev, now),
        speaks(ev),
        post.sessions.contains_key(ev.session_id),
    ensures
        ({
            let was = pre.sessions[ev.session_id];
            let s = post.sessions[ev.session_id];
            &&& ev.cwd.len() > 0 ==> s.cwd == ev.cwd && s.name == ev.cwd_name
            &&& ev.cwd.len() == 0 && pre.sessions.contains_key(ev.session_id) ==> s.cwd == was.cwd
                && s.name == was.name
            &&& ev.cwd.len() == 0 && !pre.sessions.contains_key(ev.session_id) ==> s.cwd.len() == 0
                && s.name == ev.cwd_name
        }),
{
    lemma_speaks(ev);
}

/// The same of an event whose directory's name the platform says: the session is
/// in the event's directory, under a name that goes with it, or stays where it is.
pub proof fn law_whereabouts_on_any_platform(
    pre: EngineModel,
    post: EngineModel,
    ev: EventModel,
    now: Instant,
)
    requires
        takes_in(pre, post, ev, now),
        speaks(ev),
        post.sessions.contains_key(ev.session_id),
    ensures
        ({
            let was = pre.sessions[ev.session_id];
            let s = post.sessions[ev.session_id];
            &&& ev.cwd.len() > 0 ==> s.cwd == ev.cwd && dir_named(ev.cwd, s.name)
            &&& ev.cwd.len() == 0 && pre.sessions.contains_key(ev.session_id) ==> s.cwd == was.cwd
                && s.name == was.name
            &&& ev.cwd.len() == 0 && !pre.sessions.contains_key(ev.session_id) ==> s.cwd.len() == 0
                && s.name is None
        }),
{
    let name = choose|name: Option<Seq<char>>|
        #[trigger] dir_named(ev.cwd, name) && post == pre.step(ev.named(name), now);
    reveal(speaks);
    law_whereabouts(pre, post, ev.named(name), now);
}

/// Two events in turn: the session is where the later one says.
pub proof fn law_later_directory_counts(
    m: EngineModel,
    first: EventModel,
    t1: Instant,
    second: EventModel,
    t2: Instant,
)
    requires
        speaks(first),
        speaks(second),
        second.session_id == first.session_id,
        m.step(first, t1).sessions.contains_key(first.session_id),
    ensures
        ({
            let s = m.step(first, t1).step(second, t2).sessions[first.session_id];
            &&& second.cwd.len() > 0 ==> s.cwd == second.cwd && s.name == second.cwd_name
            &&& second.cwd.len() == 0 && first.cwd.len() > 0 ==> s.cwd == first.cwd && s.name
                == first.cwd_name
        }),
{
    let mid = m.step(first, t1);
    lemma_speaks(second);
    law_whereabouts(m, mid, first, t1);
    assert(mid.step(second, t2).sessions.contains_key(second.session_id));
    law_whereabouts(mid, mid.step(second, t2), second, t2);
}

/// Every event of a session is a sign of life at its time, and wakes a stale one,
/// but for one that only tells of its terminal.
#[verifier::rlimit(40)]
pub proof fn law_signs_of_life(pre: EngineModel, post: EngineModel, ev: EventModel, now: Instant)
    requires
        post == pre.step(ev, now),
        speaks(ev),
        post.sessions.contains_key(ev.session_id),
    ensures
        ({
            let s = post.sessions[ev.session_id];
            &&& s.last_seen == now
            &&& ev.hook_event_name != "BeaconTerminal"@ ==> !s.stale
            &&& ev.hook_event_name == "BeaconTerminal"@ ==> s.stale == (pre.sessions.contains_key(
                ev.session_id,
            ) && pre.sessions[ev.session_id].stale)
        }),
{
    lemma_speaks(ev);
}

/// Which sessions are tracked after an event: none that it ends; the session of any
/// other, unless it is unknown and the event is a mere sign of life within half a
/// minute of its end.
pub proof fn law_who_is_tracked(pre: EngineModel, post: EngineModel, ev: EventModel, now: Instant)
    requires
        post == pre.step(ev, now),
        ev.session_id.len() > 0,
    ensures
        ({
            let id = ev.session_id;
            let late = pre.ends.contains_key(id) && elapsed(now, pre.ends[id]) < 30_000_000_000;
            let sign_of_life = signal(ev) == Signal::Beat || ev.hook_event_name
                == "SubagentStart"@ || ev.hook_event_name == "SubagentStop"@;
            &&& ev.hook_event_name == "SessionEnd"@ ==> !post.sessions.contains_key(id)
            &&& speaks(ev) ==> (post.sessions.contains_key(id) <==> pre.sessions.contains_key(id)
                || !(late && sign_of_life))
            &&& !speaks(ev) && ev.hook_event_name != "SessionEnd"@ ==> post == pre
        }),
{
    law_who_asks_for_what(ev);
    assert(30_000_000_000 == tombstone());
}

/// What an end leaves: the session and its terminal are gone, the time of the end
/// is kept, and nothing else changes.
pub proof fn law_end(pre: EngineModel, post: EngineModel, ev: EventModel, now: Instant)
    requires
        post == pre.step(ev, now),
        ev.hook_event_name == "SessionEnd"@,
    ensures
        !post.sessions.contains_key(ev.session_id),
        !post.captures.contains_key(ev.session_id),
        post.ends.contains_key(ev.session_id),
        post.ends[ev.session_id] == now,
        post.reveal_count == pre.reveal_count,
{
    super::lemma_end_name(ev);
}

/// Whether an event moves its session into a state, be it the one that it is in: a
/// start, a block, work, the end of a turn unless that leaves a block standing, and
/// the stop of the last subagent where a finish is owed and nothing blocks.
pub open spec fn moves(pre: EngineModel, ev: EventModel) -> bool {
    let known = pre.sessions.contains_key(ev.session_id);
    let was = pre.sessions[ev.session_id];
    ||| signal(ev) == Signal::Start
    ||| signal(ev) is Enter
    ||| signal(ev) == Signal::Finish && !(known && was.subagent_count > 0 && was.state
        == State::NeedsYou)
    ||| signal(ev) == Signal::Release && known && was.subagent_count <= 1 && was.awaiting_subagents
        && was.state != State::NeedsYou
}

/// Only an end forgets a remembered terminal, and no event remembers one. An end is
/// kept in mind until an event moves its session or a sign of life brings it up.
pub proof fn law_what_is_remembered(
    pre: EngineModel,
    post: EngineModel,
    ev: EventModel,
    now: Instant,
)
    requires
        post == pre.step(ev, now),
        speaks(ev),
    ensures
        ({
            let id = ev.session_id;
            let brought_up = !pre.sessions.contains_key(id) && post.sessions.contains_key(id)
                && ev.hook_event_name != "BeaconTerminal"@;
            &&& post.captures == pre.captures
            &&& post.ends.contains_key(id) <==> pre.ends.contains_key(id) && !moves(pre, ev)
                && !brought_up
            &&& post.ends.contains_key(id) ==> post.ends[id] == pre.ends[id]
        }),
{
    lemma_speaks(ev);
}

/// The state that an event leaves its session in: a block needs the user, work
/// works, a fresh start is ready, a mere sign of life leaves a tracked session
/// where it is and takes a new one to be working, and a terminal is told of by a
/// session that is ready if nothing else is known of it.
#[verifier::rlimit(40)]
pub proof fn law_states(pre: EngineModel, post: EngineModel, ev: EventModel, now: Instant)
    requires
        post == pre.step(ev, now),
        speaks(ev),
        post.sessions.contains_key(ev.session_id),
    ensures
        ({
            let id = ev.session_id;
            let known = pre.sessions.contains_key(id);
            let was = pre.sessions[id];
            let state = post.sessions[id].state;
            let asks = signal(ev);
            let flagged = if was.review_when_done {
                State::WaitingReview
            } else {
                State::Ready
            };
            &&& asks == Signal::Enter(State::NeedsYou) ==> state == State::NeedsYou
            &&& asks == Signal::Enter(State::Working) ==> state == State::Working
            &&& asks == Signal::Start ==> state == State::Ready
            &&& asks == Signal::Beat || asks == Signal::Spawn ==> state == (if known {
                was.state
            } else {
                State::Working
            })
            &&& asks == Signal::Terminal ==> state == (if known {
                was.state
            } else {
                State::Ready
            })
            &&& asks == Signal::Finish && !known ==> state == State::Ready
            &&& asks == Signal::Finish && known && was.subagent_count == 0 ==> state == flagged
            &&& asks == Signal::Finish && known && was.subagent_count > 0 ==> state == (if was.state
                == State::NeedsYou {
                State::NeedsYou
            } else {
                State::Working
            })
            &&& asks == Signal::Release && !known ==> state == State::Working
            &&& asks == Signal::Release && known ==> state == (if was.subagent_count <= 1
                && was.awaiting_subagents && was.state != State::NeedsYou {
                flagged
            } else {
                was.state
            })
        }),
{
    lemma_speaks(ev);
}

/// A stay begins when the state is entered, and goes on as long as the session is
/// in that state.
#[verifier::rlimit(40)]
pub proof fn law_stays(pre: EngineModel, post: EngineModel, ev: EventModel, now: Instant)
    requires
        post == pre.step(ev, now),
        speaks(ev),
        post.sessions.contains_key(ev.session_id),
    ensures
        post.sessions[ev.session_id].state_since == (if pre.sessions.contains_key(ev.session_id)
            && pre.sessions[ev.session_id].state == post.sessions[ev.session_id].state {
            pre.sessions[ev.session_id].state_since
        } else {
            now
        }),
{
    lemma_speaks(ev);
}

/// The live subagents: a start is one more and a stop one less, never below none,
/// a fresh start forgets them, and nothing else changes their number. Their clock
/// runs from when the first of them came until none is left.
#[verifier::rlimit(40)]
pub proof fn law_live_subagents(pre: EngineModel, post: EngineModel, ev: EventModel, now: Instant)
    requires
        post == pre.step(ev, now),
        speaks(ev),
        post.sessions.contains_key(ev.session_id),
    ensures
        ({
            let known = pre.sessions.contains_key(ev.session_id);
            let was = pre.sessions[ev.session_id];
            let s = post.sessions[ev.session_id];
            let before: int = if known {
                was.subagent_count as int
            } else {
                0
            };
            &&& ev.hook_event_name == "SubagentStart"@ ==> s.subagent_count == before + 1
            &&& ev.hook_event_name == "SubagentStop"@ ==> s.subagent_count == (if before > 0 {
                before - 1
            } else {
                0
            })
            &&& signal(ev) == Signal::Start ==> s.subagent_count == 0
            &&& ev.hook_event_name != "SubagentStart"@ && ev.hook_event_name != "SubagentStop"@
                && signal(ev) != Signal::Start ==> s.subagent_count == before
            &&& before == 0 && s.subagent_count > 0 ==> s.sub_since == Some(now)
            &&& before > 0 && s.subagent_count > 0 ==> s.sub_since == was.sub_since
            &&& before > 0 && s.subagent_count == 0 ==> s.sub_since is None
        }),
{
    lemma_speaks(ev);
}

/// A finish is owed from the end of a turn with subagents live until the last of
/// them stops, or a fresh start.
pub proof fn law_owed_finish(pre: EngineModel, post: EngineModel, ev: EventModel, now: Instant)
    requires
        post == pre.step(ev, now),
        speaks(ev),
        post.sessions.contains_key(ev.session_id),
    ensures
        ({
            let known = pre.sessions.contains_key(ev.session_id);
            let was = pre.sessions[ev.session_id];
            let s = post.sessions[ev.session_id];
            &&& !known ==> !s.awaiting_subagents
            &&& known && signal(ev) == Signal::Finish && was.subagent_count > 0
                ==> s.awaiting_subagents
            &&& known && signal(ev) == Signal::Release && was.subagent_count <= 1
                ==> !s.awaiting_subagents
            &&& signal(ev) == Signal::Start ==> !s.awaiting_subagents
            &&& known && signal(ev) != Signal::Start && !(signal(ev) == Signal::Finish
                && was.subagent_count > 0) && !(signal(ev) == Signal::Release && was.subagent_count
                <= 1) ==> s.awaiting_subagents == was.awaiting_subagents
        }),
{
    lemma_speaks(ev);
}

/// No event touches the review flag, but for a fresh start, which clears it; a new
/// session has none.
pub proof fn law_events_keep_the_flag(
    pre: EngineModel,
    post: EngineModel,
    ev: EventModel,
    now: Instant,
)
    requires
        post == pre.step(ev, now),
        speaks(ev),
        post.sessions.contains_key(ev.session_id),
    ensures
        post.sessions[ev.session_id].review_when_done == (pre.sessions.contains_key(ev.session_id)
            && pre.sessions[ev.session_id].review_when_done && signal(ev) != Signal::Start),
{
    lemma_speaks(ev);
}

/// No event touches the descriptor and the first prompt of a tracked session, nor
/// what was told of it.
#[verifier::rlimit(40)]
pub proof fn law_events_keep_readings(
    pre: EngineModel,
    post: EngineModel,
    ev: EventModel,
    now: Instant,
)
    requires
        post == pre.step(ev, now),
        speaks(ev),
        pre.sessions.contains_key(ev.session_id),
    ensures
        ({
            let was = pre.sessions[ev.session_id];
            let s = post.sessions[ev.session_id];
            &&& post.sessions.contains_key(ev.session_id)
            &&& s.descriptor == was.descriptor
            &&& s.descriptor_checked_at == was.descriptor_checked_at
            &&& s.first_prompt == was.first_prompt
            &&& s.first_prompt_checked_at == was.first_prompt_checked_at
            &&& s.alert_episode == was.alert_episode
            &&& s.alert_count == was.alert_count
            &&& s.last_alert_at == was.last_alert_at
        }),
{
    lemma_speaks(ev);
}

/// Of a new session nothing has been read yet, and nothing told.
pub proof fn law_new_sessions_are_unread(
    pre: EngineModel,
    post: EngineModel,
    ev: EventModel,
    now: Instant,
)
    requires
        post == pre.step(ev, now),
        !pre.sessions.contains_key(ev.session_id),
        post.sessions.contains_key(ev.session_id),
    ensures
        ({
            let s = post.sessions[ev.session_id];
            &&& s.descriptor is None
            &&& s.descriptor_checked_at is None
            &&& s.first_prompt is None
            &&& s.first_prompt_checked_at is None
            &&& s.alert_episode is None
            &&& s.alert_count == 0
            &&& s.last_alert_at is None
        }),
{
}

/// Whether the rules would hide this session: one on directories is met, or one on
/// prompts by an opening that does not show a person at the keyboard, and the
/// allowlist does not keep it.
pub open spec fn rules_hide(m: EngineModel, s: SessionModel) -> bool {
    &&& !meets(m.never_hide, s.cwd, s.first_prompt)
    &&& {
        ||| hides_cwd(m.ignore, s.cwd)
        ||| s.first_prompt is Some && meets_prompt(m.ignore, s.first_prompt->0) && !marked(
            s.first_prompt->0,
        )
    }
}

/// A session is shown for good exactly when it blocks where the rules would hide
/// it, each time once more is counted, and only a fresh start takes that back.
#[verifier::rlimit(40)]
pub proof fn law_reveals(pre: EngineModel, post: EngineModel, ev: EventModel, now: Instant)
    requires
        post == pre.step(ev, now),
        speaks(ev),
        post.sessions.contains_key(ev.session_id),
    ensures
        ({
            let was = pre.sessions.contains_key(ev.session_id)
                && pre.sessions[ev.session_id].revealed;
            let s = post.sessions[ev.session_id];
            let reveals = is_block(ev) && !was && rules_hide(post, s);
            &&& s.revealed == ((was && signal(ev) != Signal::Start) || reveals)
            &&& post.reveal_count == pre.reveal_count + (if reveals {
                1int
            } else {
                0
            })
        }),
{
    assert(signal(ev) == Signal::Enter(State::NeedsYou) <==> is_block(ev)) by {
        lemma_speaks(ev);
        law_who_asks_for_what(ev);
    }
    lemma_speaks(ev);
}

/// The terminal of a session. One that is told of its terminal takes over what it
/// is told, and keeps the rest. Any other event leaves a terminal that is known; a
/// session without one gets the remembered one when it is new or the event moves
/// it.
#[verifier::rlimit(40)]
pub proof fn law_terminals(pre: EngineModel, post: EngineModel, ev: EventModel, now: Instant)
    requires
        post == pre.step(ev, now),
        speaks(ev),
        post.sessions.contains_key(ev.session_id),
    ensures
        ({
            let id = ev.session_id;
            let known = pre.sessions.contains_key(id);
            let was = pre.sessions[id];
            let s = post.sessions[id];
            let hosted = known && was.terminal_pid is Some;
            if ev.hook_event_name == "BeaconTerminal"@ {
                &&& ev.terminal_pid is Some ==> s.terminal_pid == ev.terminal_pid
                &&& ev.terminal_app is Some ==> s.terminal_app == ev.terminal_app
                &&& ev.terminal_tty is Some && ev.terminal_tty->0.len() > 0 ==> s.terminal_tty
                    == ev.terminal_tty
                &&& ev.terminal_pid is None ==> s.terminal_pid == (if known {
                    was.terminal_pid
                } else {
                    None
                })
                &&& ev.terminal_app is None ==> s.terminal_app == (if known {
                    was.terminal_app
                } else {
                    None
                })
                &&& ev.terminal_tty is None || ev.terminal_tty->0.len() == 0 ==> s.terminal_tty
                    == (if known {
                    was.terminal_tty
                } else {
                    None
                })
            } else {
                let own = CaptureModel {
                    pid: was.terminal_pid,
                    app: was.terminal_app,
                    tty: was.terminal_tty,
                };
                let takes_over = pre.captures.contains_key(id) && !hosted && (!known || moves(
                    pre,
                    ev,
                ));
                &&& takes_over ==> same_terminal(s, pre.captures[id])
                &&& !takes_over && known ==> same_terminal(s, own)
                &&& !takes_over && !known ==> same_terminal(
                    s,
                    CaptureModel { pid: None, app: None, tty: None },
                )
            }
        }),
{
    lemma_speaks(ev);
}

/// Whether this is the terminal of the session.
pub open spec fn same_terminal(s: SessionModel, t: CaptureModel) -> bool {
    s.terminal_pid == t.pid && s.terminal_app == t.app && s.terminal_tty == t.tty
}

/// What is told of an event. Nothing changes but what is told of: where an event is
/// said to have changed nothing, every session is as before. A move is told of
/// exactly where an event, other than one that tells of a terminal, leaves its
/// session in another state than before, or brings it up.
#[verifier::rlimit(40)]
pub proof fn law_what_is_told(
    out: ApplyOutcome,
    pre: EngineModel,
    post: EngineModel,
    ev: EventModel,
    now: Instant,
)
    requires
        post == pre.step(ev, now),
        told(out, pre, post, ev),
        ev.session_id.len() > 0,
    ensures
        ({
            let id = ev.session_id;
            let known = pre.sessions.contains_key(id);
            let there = post.sessions.contains_key(id);
            &&& !out.changed ==> post.sessions == pre.sessions
            &&& out.changed <==> (speaks(ev) && there) || (ev.hook_event_name == "SessionEnd"@
                && known)
            &&& out.transition is Some <==> {
                &&& speaks(ev)
                &&& ev.hook_event_name != "BeaconTerminal"@
                &&& there
                &&& !known || pre.sessions[id].state != post.sessions[id].state
            }
        }),
{
    law_who_asks_for_what(ev);
    if !out.changed {
        assert(post.sessions =~= pre.sessions);
    }
}

/// Of an event without a session nothing is told.
pub proof fn law_nothing_is_told_without_a_session(
    out: ApplyOutcome,
    pre: EngineModel,
    post: EngineModel,
    ev: EventModel,
)
    requires
        pre.valid(),
        told(out, pre, post, ev),
        ev.session_id.len() == 0,
    ensures
        !out.changed,
        out.transition is None,
{
    assert(ev.session_id =~= Seq::<char>::empty());
    if ev.hook_event_name == "SessionEnd"@ {
        super::lemma_end_name(ev);
    }
}

/// What a move tells of its session: where it came from and got to, and what is
/// known of the session once it is there.
pub proof fn law_what_a_move_tells(
    out: ApplyOutcome,
    pre: EngineModel,
    post: EngineModel,
    ev: EventModel,
    now: Instant,
)
    requires
        post == pre.step(ev, now),
        told(out, pre, post, ev),
        out.transition is Some,
    ensures
        ({
            let t = out.transition->0;
            let s = post.sessions[ev.session_id];
            &&& t.session_id@ == ev.session_id
            &&& t.to == s.state
            &&& t.from == (if pre.sessions.contains_key(ev.session_id) {
                Some(pre.sessions[ev.session_id].state)
            } else {
                None
            })
            &&& t.descriptor.deep_view() == s.descriptor
            &&& t.terminal_pid == s.terminal_pid
            &&& t.folder@ == post.folder(s)
            &&& t.branch.deep_view() == post.branch(s)
            &&& t.label@ == post.label(s)
        }),
{
}

} // verus!
