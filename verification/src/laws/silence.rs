//! What comes of silence, told by the times of the events.
use super::events::law_signs_of_life;
use super::signals::{law_who_asks_for_what, speaks};
use super::{law_runs_of_others, lemma_step_concerns_one_session, run, same_settings};
use crate::event::EventModel;
use crate::model::{tombstone, EngineModel};
use crate::report::{first_texts, goes_stale, sweep_told, sweep_touches, SweepOutcome};
use crate::session::SessionModel;
use crate::time::{elapsed, elapsed_secs, Instant};
use vstd::prelude::*;

verus! {

/// What has passed between two times, in nanoseconds and in whole seconds; nothing
/// has where the first lies ahead.
pub proof fn law_time_passes(now: Instant, then: Instant)
    ensures
        now.nanos >= then.nanos ==> then.nanos + elapsed(now, then) == now.nanos,
        now.nanos <= then.nanos ==> elapsed(now, then) == 0,
        elapsed_secs(now, then) * 1_000_000_000 <= elapsed(now, then) < elapsed_secs(now, then)
            * 1_000_000_000 + 1_000_000_000,
{
}

/// Every event of a session postpones both timeouts. After one at `t1`, a sweep at
/// `t2` keeps the session exactly where less than the drop timeout has passed since
/// `t1`, and greys it exactly where the stale timeout has.
pub proof fn law_events_postpone_the_timeouts(
    m: EngineModel,
    ev: EventModel,
    t1: Instant,
    t2: Instant,
)
    requires
        speaks(ev),
        m.step(ev, t1).sessions.contains_key(ev.session_id),
    ensures
        ({
            let swept = m.step(ev, t1).swept(t2);
            let id = ev.session_id;
            &&& swept.sessions.contains_key(id) <==> elapsed(t2, t1) < m.drop_timeout.nanos
            &&& swept.sessions.contains_key(id) ==> (swept.sessions[id].stale <==> elapsed(t2, t1)
                >= m.stale_timeout.nanos)
        }),
{
    let heard = m.step(ev, t1);
    law_signs_of_life(m, heard, ev, t1);
    assert(same_settings(m, heard)) by {
        lemma_step_concerns_one_session(m, ev, t1, ev.session_id.push('x'));
    }
}

/// The same where events of other sessions come in between: only a session's own
/// events count.
pub proof fn law_others_postpone_nothing(
    m: EngineModel,
    ev: EventModel,
    t1: Instant,
    others: Seq<(EventModel, Instant)>,
    t2: Instant,
)
    requires
        speaks(ev),
        m.step(ev, t1).sessions.contains_key(ev.session_id),
        forall|i: int|
            0 <= i < others.len() ==> (#[trigger] others[i]).0.session_id != ev.session_id,
    ensures
        ({
            let swept = run(m.step(ev, t1), others).swept(t2);
            let id = ev.session_id;
            &&& swept.sessions.contains_key(id) <==> elapsed(t2, t1) < m.drop_timeout.nanos
            &&& swept.sessions.contains_key(id) ==> (swept.sessions[id].stale <==> elapsed(t2, t1)
                >= m.stale_timeout.nanos)
        }),
{
    let heard = m.step(ev, t1);
    let later = run(heard, others);
    law_signs_of_life(m, heard, ev, t1);
    assert(same_settings(m, heard)) by {
        lemma_step_concerns_one_session(m, ev, t1, ev.session_id.push('x'));
    }
    law_runs_of_others(heard, others, ev.session_id);
    lemma_runs_keep_settings(heard, others);
}

proof fn lemma_runs_keep_settings(m: EngineModel, events: Seq<(EventModel, Instant)>)
    ensures
        same_settings(m, run(m, events)),
    decreases events.len(),
{
    if events.len() > 0 {
        let before = events.drop_last();
        let last = events.last();
        lemma_runs_keep_settings(m, before);
        lemma_step_concerns_one_session(
            run(m, before),
            last.0,
            last.1,
            last.0.session_id.push('x'),
        );
    }
}

/// An event that is no sign of its session postpones nothing: a sweep after it
/// finds what it would have found without.
pub proof fn law_inert_events_postpone_nothing(
    m: EngineModel,
    ev: EventModel,
    t1: Instant,
    t2: Instant,
)
    requires
        !speaks(ev),
        ev.hook_event_name != "SessionEnd"@,
    ensures
        m.step(ev, t1).swept(t2) == m.swept(t2),
{
    if ev.session_id.len() > 0 {
        law_who_asks_for_what(ev);
    }
}

/// What a sweep leaves of a session: it is kept while less than the drop timeout
/// has passed since it was last heard of, it is stale from the stale timeout on,
/// one that turns stale has no live subagents any more, and all else stays.
pub proof fn law_what_a_sweep_leaves(m: EngineModel, now: Instant, id: Seq<char>)
    ensures
        ({
            let was = m.sessions[id];
            let post = m.swept(now);
            let s = post.sessions[id];
            let silence = elapsed(now, was.last_seen);
            &&& post.sessions.contains_key(id) <==> m.sessions.contains_key(id) && silence
                < m.drop_timeout.nanos
            &&& post.sessions.contains_key(id) ==> {
                &&& s.stale <==> silence >= m.stale_timeout.nanos
                &&& s.stale && !was.stale ==> s.subagent_count == 0 && s.sub_since is None
                &&& !s.stale || was.stale ==> s.subagent_count == was.subagent_count && s.sub_since
                    == was.sub_since
                &&& s == (SessionModel {
                    stale: s.stale,
                    subagent_count: s.subagent_count,
                    sub_since: s.sub_since,
                    ..was
                })
            }
        }),
{
}

/// A sweep forgets the ends that lie half a minute back, and keeps the later ones,
/// the remembered terminals and every setting.
pub proof fn law_sweeps_forget_old_ends(m: EngineModel, now: Instant, id: Seq<char>)
    ensures
        ({
            let post = m.swept(now);
            &&& post.ends.contains_key(id) <==> m.ends.contains_key(id) && elapsed(now, m.ends[id])
                < 30_000_000_000
            &&& post.ends.contains_key(id) ==> post.ends[id] == m.ends[id]
            &&& post == (EngineModel { sessions: post.sessions, ends: post.ends, ..m })
        }),
{
    assert(30_000_000_000 == tombstone());
}

/// What a sweep tells: that it changed something exactly where it dropped a session
/// or turned one stale or back, and, each once and with its label, the sessions
/// that it turned stale.
pub proof fn law_what_a_sweep_tells(
    out: SweepOutcome,
    m: EngineModel,
    now: Instant,
    id: Seq<char>,
    i: int,
    j: int,
)
    requires
        sweep_told(out, m, m.swept(now)),
    ensures
        !out.changed && m.sessions.contains_key(id) ==> m.swept(now).sessions.contains_key(id)
            && m.swept(now).sessions[id].stale == m.sessions[id].stale,
        m.sessions.contains_key(id) && (!m.swept(now).sessions.contains_key(id) || m.swept(
            now,
        ).sessions[id].stale != m.sessions[id].stale) ==> out.changed,
        out.changed ==> exists|x: Seq<char>| #[trigger]
            m.sessions.contains_key(x) && (elapsed(now, m.sessions[x].last_seen)
                >= m.drop_timeout.nanos || m.sessions[x].stale != (elapsed(
                now,
                m.sessions[x].last_seen,
            ) >= m.stale_timeout.nanos)),
        is_named(out, id) <==> m.sessions.contains_key(id) && !m.sessions[id].stale && elapsed(
            now,
            m.sessions[id].last_seen,
        ) >= m.stale_timeout.nanos && elapsed(now, m.sessions[id].last_seen) < m.drop_timeout.nanos,
        0 <= i < j < out.went_stale@.len() ==> out.went_stale@[i].0@ != out.went_stale@[j].0@,
        0 <= i < out.went_stale@.len() ==> out.went_stale@[i].1@ == m.label(
            m.sessions[out.went_stale@[i].0@],
        ),
{
    let post = m.swept(now);
    law_what_a_sweep_leaves(m, now, id);
    assert(sweep_touches(m, post, id) ==> out.changed);
    if out.changed {
        let x = choose|x: Seq<char>| #[trigger] sweep_touches(m, post, x);
        law_what_a_sweep_leaves(m, now, x);
        assert(m.sessions.contains_key(x));
    }
    let named = first_texts(out.went_stale@);
    assert(named.contains(id) <==> goes_stale(m, post, id));
    if is_named(out, id) {
        let k = choose|k: int|
            0 <= k < out.went_stale@.len() && (#[trigger] out.went_stale@[k]).0@ == id;
        assert(named[k] == id);
    }
    if named.contains(id) {
        let k = choose|k: int| 0 <= k < named.len() && named[k] == id;
        assert(out.went_stale@[k].0@ == id);
    }
    if 0 <= i < j < out.went_stale@.len() {
        assert(named[i] != named[j]);
    }
}

/// Whether a session is among those that are told of as gone stale.
pub open spec fn is_named(out: SweepOutcome, id: Seq<char>) -> bool {
    exists|k: int| 0 <= k < out.went_stale@.len() && (#[trigger] out.went_stale@[k]).0@ == id
}

} // verus!
