//! What is read of sessions, when it is due, and what settings do to them.
use super::events::rules_hide;
use crate::event::{signal, EventModel, Signal};
use crate::ignore::{hides_cwd, names_prompts, MatcherModel};
use crate::model::EngineModel;
use crate::session::{CaptureModel, Rollup, SessionModel, State};
use crate::time::{elapsed, Duration, Instant};
use vstd::prelude::*;

verus! {

/// Whether a session is tracked as before, and unchanged.
pub open spec fn as_before(pre: EngineModel, post: EngineModel, id: Seq<char>) -> bool {
    &&& post.sessions.contains_key(id) <==> pre.sessions.contains_key(id)
    &&& pre.sessions.contains_key(id) ==> post.sessions[id] == pre.sessions[id]
}

/// A directory is one that some session runs in exactly where it is that session's.
pub proof fn law_running_in(m: EngineModel, dir: Seq<char>)
    ensures
        m.runs_in(dir) <==> exists|id: Seq<char>| #[trigger]
            m.sessions.contains_key(id) && m.sessions[id].cwd == dir,
{
    if m.runs_in(dir) {
        let id = choose|id: Seq<char>| #[trigger] m.knows(id) && m.sessions[id].cwd == dir;
        assert(m.sessions.contains_key(id));
    }
    if exists|id: Seq<char>| #[trigger] m.sessions.contains_key(id) && m.sessions[id].cwd == dir {
        let id = choose|id: Seq<char>| #[trigger]
            m.sessions.contains_key(id) && m.sessions[id].cwd == dir;
        assert(m.knows(id));
    }
}

/// A new engine tracks nothing, remembers nothing, hides by no rules, and keeps to
/// the timeouts that it was given.
pub proof fn law_new_engine(stale_timeout: Duration, drop_timeout: Duration, id: Seq<char>)
    ensures
        ({
            let m = EngineModel::initial(stale_timeout, drop_timeout);
            &&& !m.sessions.contains_key(id)
            &&& !m.captures.contains_key(id)
            &&& !m.ends.contains_key(id)
            &&& !m.repos.contains_key(id)
            &&& m.stale_timeout == stale_timeout
            &&& m.drop_timeout == drop_timeout
            &&& m.ignore.len() == 0
            &&& m.never_hide.len() == 0
            &&& !m.observe_enabled
            &&& m.reveal_count == 0
            &&& m.rollup() == Rollup::Grey
        }),
{
}

/// Taking in a descriptor: one that was found is kept, finding none keeps the old
/// one, and nothing else of any session changes. It is due again once `retry` has
/// passed where there still is none, and once `refresh` has where there is one.
pub proof fn law_descriptors(
    m: EngineModel,
    id: Seq<char>,
    value: Option<Seq<char>>,
    t1: Instant,
    retry: Duration,
    refresh: Duration,
    t2: Instant,
    other: Seq<char>,
)
    ensures
        ({
            let post = m.with_descriptor(id, value, t1);
            let was = m.sessions[id];
            let s = post.sessions[id];
            &&& !m.sessions.contains_key(id) ==> post == m
            &&& other != id ==> as_before(m, post, other)
            &&& post == (EngineModel { sessions: post.sessions, ..m })
            &&& m.sessions.contains_key(id) ==> {
                &&& post.sessions.contains_key(id)
                &&& value is Some ==> s.descriptor == value
                &&& value is None ==> s.descriptor == was.descriptor
                &&& s.descriptor_checked_at == Some(t1)
                &&& s == (SessionModel {
                    descriptor: s.descriptor,
                    descriptor_checked_at: s.descriptor_checked_at,
                    ..was
                })
                &&& s.descriptor is None ==> (post.descriptor_due(id, retry, refresh, t2)
                    <==> elapsed(t2, t1) >= retry.nanos)
                &&& s.descriptor is Some ==> (post.descriptor_due(id, retry, refresh, t2)
                    <==> elapsed(t2, t1) >= refresh.nanos)
            }
        }),
{
}

/// A descriptor that was never looked for is due, and none is for a session that
/// is not tracked. When it is due depends on nothing but when it was looked for.
pub proof fn law_descriptor_is_due(
    m: EngineModel,
    id: Seq<char>,
    retry: Duration,
    refresh: Duration,
    now: Instant,
)
    ensures
        !m.sessions.contains_key(id) ==> !m.descriptor_due(id, retry, refresh, now),
        m.sessions.contains_key(id) && m.sessions[id].descriptor_checked_at is None
            ==> m.descriptor_due(id, retry, refresh, now),
        m.sessions.contains_key(id) && m.sessions[id].descriptor_checked_at is Some ==> (
        m.descriptor_due(id, retry, refresh, now) <==> elapsed(
            now,
            m.sessions[id].descriptor_checked_at->0,
        ) >= (if m.sessions[id].descriptor is Some {
            refresh.nanos
        } else {
            retry.nanos
        })),
{
}

/// A first prompt is due only while it is not known, someone wants it, and no rule
/// on directories hides the session anyway; then it is from the start, and again
/// once `retry` has passed since it was looked for in vain.
pub proof fn law_first_prompt_is_due(
    m: EngineModel,
    id: Seq<char>,
    retry: Duration,
    now: Instant,
)
    ensures
        ({
            let s = m.sessions[id];
            let due = m.first_prompt_due(id, retry, now);
            let wanted = m.observe_enabled || names_prompts(m.ignore);
            let open = m.sessions.contains_key(id) && wanted && s.first_prompt is None
                && !hides_cwd(m.ignore, s.cwd);
            &&& !open ==> !due
            &&& open && s.first_prompt_checked_at is None ==> due
            &&& open && s.first_prompt_checked_at is Some ==> (due <==> elapsed(
                now,
                s.first_prompt_checked_at->0,
            ) >= retry.nanos)
        }),
{
}

/// A blocked session that is shown, and that its first prompt would hide, is shown
/// for good, and counted; any other is hidden or not by the rules alone.
pub proof fn law_late_prompts(
    m: EngineModel,
    id: Seq<char>,
    value: Option<Seq<char>>,
    now: Instant,
    other: Seq<char>,
)
    requires
        m.sessions.contains_key(id),
    ensures
        ({
            let was = m.sessions[id];
            let post = m.with_first_prompt(id, value, now);
            let s = post.sessions[id];
            let late = was.state == State::NeedsYou && !was.revealed && !rules_hide(m, was)
                && rules_hide(m, s);
            &&& s.revealed == (was.revealed || late)
            &&& post.reveal_count == m.reveal_count + (if late {
                1int
            } else {
                0
            })
            &&& post.hidden(id) <==> !s.revealed && rules_hide(m, s)
            &&& other != id ==> as_before(m, post, other)
            &&& post == (EngineModel {
                sessions: post.sessions,
                reveal_count: post.reveal_count,
                ..m
            })
            &&& value is Some ==> s.first_prompt == value
            &&& value is None ==> s.first_prompt == was.first_prompt
            &&& s == (SessionModel {
                first_prompt: s.first_prompt,
                first_prompt_checked_at: Some(now),
                revealed: s.revealed,
                ..was
            })
        }),
{
}

/// New rules to hide by: they take the place of the old ones, nothing else of the
/// engine changes, and where one of them is on prompts, a prompt that was looked
/// for in vain is to be looked for again at once.
pub proof fn law_new_rules(m: EngineModel, rules: Seq<MatcherModel>, id: Seq<char>)
    ensures
        ({
            let post = m.with_ignore(rules);
            let was = m.sessions[id];
            let s = post.sessions[id];
            &&& post == (EngineModel { ignore: rules, sessions: post.sessions, ..m })
            &&& post.sessions.contains_key(id) <==> m.sessions.contains_key(id)
            &&& m.sessions.contains_key(id) ==> {
                &&& s == (SessionModel {
                    first_prompt_checked_at: s.first_prompt_checked_at,
                    ..was
                })
                &&& names_prompts(rules) && was.first_prompt is None
                    ==> s.first_prompt_checked_at is None
                &&& !names_prompts(rules) || was.first_prompt is Some ==> s.first_prompt_checked_at
                    == was.first_prompt_checked_at
            }
        }),
{
}

/// Setting or clearing a session's flag: it is as it was set, the session moves
/// only from waiting for review to ready when it is cleared, which begins a stay,
/// and nothing else changes. An unknown session changes nothing.
pub proof fn law_flags(
    m: EngineModel,
    id: Seq<char>,
    flag: bool,
    now: Instant,
    other: Seq<char>,
)
    ensures
        ({
            let post = m.with_flag(id, flag, now);
            let was = m.sessions[id];
            let s = post.sessions[id];
            let released = !flag && was.state == State::WaitingReview;
            &&& !m.sessions.contains_key(id) ==> post == m
            &&& other != id ==> as_before(m, post, other)
            &&& post == (EngineModel { sessions: post.sessions, ..m })
            &&& m.sessions.contains_key(id) ==> {
                &&& post.sessions.contains_key(id)
                &&& s.review_when_done == flag
                &&& released ==> s.state == State::Ready && s.state_since == now
                &&& !released ==> s.state == was.state && s.state_since == was.state_since
                &&& s == (SessionModel {
                    review_when_done: s.review_when_done,
                    state: s.state,
                    state_since: s.state_since,
                    ..was
                })
            }
        }),
{
}

/// Remembering a terminal: one with a process is remembered for its session in the
/// place of any other, and nothing else changes.
pub proof fn law_remembering(
    m: EngineModel,
    id: Seq<char>,
    terminal: CaptureModel,
    other: Seq<char>,
)
    ensures
        ({
            let post = m.with_capture(id, terminal);
            &&& terminal.pid is Some ==> post.captures.contains_key(id) && post.captures[id]
                == terminal
            &&& terminal.pid is None ==> post == m
            &&& other != id ==> (post.captures.contains_key(other) <==> m.captures.contains_key(
                other,
            ))
            &&& other != id && m.captures.contains_key(other) ==> post.captures[other]
                == m.captures[other]
            &&& post == (EngineModel { captures: post.captures, ..m })
        }),
{
}

/// There is room for any event but the start of one subagent too many, and a block
/// once too many blocked sessions have been shown.
pub proof fn law_room(m: EngineModel, ev: EventModel)
    ensures
        m.reveal_count < u64::MAX && (m.sessions.contains_key(ev.session_id)
            ==> m.sessions[ev.session_id].subagent_count < u32::MAX) ==> m.has_room(ev),
        m.has_room(ev) && signal(ev) == Signal::Spawn && m.sessions.contains_key(
            ev.session_id,
        ) ==> m.sessions[ev.session_id].subagent_count < u32::MAX,
{
}

} // verus!
