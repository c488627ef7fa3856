//! When the user is told again, told by what the settings and the session hold.
use crate::alert::{
    alerts_told, no_recurrence, requested, AlertPolicies, AlertPolicy, AlertRequest,
};
use crate::model::EngineModel;
use crate::session::{SessionModel, State};
use crate::time::{elapsed, Instant};
use vstd::prelude::*;

verus! {

/// How often the user has been told again in the session's present stay.
pub open spec fn told_again(s: SessionModel) -> nat {
    if s.alert_episode == Some(s.state_since) {
        s.alert_count
    } else {
        0
    }
}

/// When the user was last told of the session's present stay, which is when it
/// began or a later alert.
pub open spec fn told_last(s: SessionModel) -> Instant {
    if s.alert_episode == Some(s.state_since) && s.last_alert_at is Some {
        s.last_alert_at->0
    } else {
        s.state_since
    }
}

/// An alert is due exactly where the state's switch is on, its cooldown is not zero
/// and has passed since the user was last told of the stay, and the stay has not
/// been told of as often as it may be, its beginning included.
pub proof fn law_when_an_alert_is_due(s: SessionModel, policy: AlertPolicy, now: Instant)
    ensures
        s.alert_due(policy, now) <==> {
            &&& policy.enabled
            &&& policy.cooldown_secs > 0
            &&& 1 + told_again(s) < policy.max_triggers
            &&& elapsed(now, told_last(s)) >= policy.cooldown_secs * 1_000_000_000
        },
{
}

/// Booking: an alert that is due is counted and its time kept, in the stay that it
/// belongs to; without one the stay has been told of as often as before. Nothing
/// else of the session changes.
pub proof fn law_booking(s: SessionModel, policy: AlertPolicy, now: Instant)
    ensures
        ({
            let after = s.alerted(policy, now);
            &&& s.alert_due(policy, now) ==> told_again(after) == told_again(s) + 1 && told_last(
                after,
            ) == now
            &&& !s.alert_due(policy, now) ==> told_again(after) == told_again(s) && told_last(after)
                == told_last(s)
            &&& after == (SessionModel {
                alert_episode: after.alert_episode,
                alert_count: after.alert_count,
                last_alert_at: after.last_alert_at,
                ..s
            })
        }),
{
}

/// A stay that has just begun is told of again exactly from one cooldown on.
pub proof fn law_first_alert_of_a_stay(s: SessionModel, policy: AlertPolicy, now: Instant)
    requires
        s.alert_episode != Some(s.state_since),
        policy.enabled,
        policy.cooldown_secs > 0,
        policy.max_triggers >= 2,
    ensures
        s.alert_due(policy, now) <==> elapsed(now, s.state_since) >= policy.cooldown_secs
            * 1_000_000_000,
{
}

/// Each state goes by its own policy: a blocked session by the one for blocks, one
/// that waits for review by the one for reviews, and nobody is told again of one
/// that works or is ready.
pub proof fn law_each_state_has_its_policy(
    m: EngineModel,
    policies: AlertPolicies,
    id: Seq<char>,
    now: Instant,
)
    ensures
        ({
            let s = m.sessions[id];
            let due = m.due(policies, id, now);
            let shown = m.sessions.contains_key(id) && !s.stale && !m.hidden(id);
            &&& !shown ==> !due
            &&& shown && s.state == State::NeedsYou ==> (due <==> s.alert_due(
                policies.needs_you,
                now,
            ))
            &&& shown && s.state == State::WaitingReview ==> (due <==> s.alert_due(
                policies.waiting_review,
                now,
            ))
            &&& s.state == State::Working || s.state == State::Ready ==> !due
        }),
{
}

/// The policy in force for a state: its own for one that is stuck, and none that
/// ever tells again for the others.
pub proof fn law_policies_in_force(policies: AlertPolicies)
    ensures
        policies.policy(State::NeedsYou) == policies.needs_you,
        policies.policy(State::WaitingReview) == policies.waiting_review,
        policies.policy(State::Working) == no_recurrence(),
        policies.policy(State::Ready) == no_recurrence(),
        !no_recurrence().enabled,
        no_recurrence().cooldown_secs == 0,
        no_recurrence().max_triggers == 0,
{
}

/// A state that is switched off is not told of again, whatever the others are.
pub proof fn law_switched_off_is_silent(
    m: EngineModel,
    policies: AlertPolicies,
    id: Seq<char>,
    now: Instant,
)
    requires
        m.due(policies, id, now),
    ensures
        m.sessions[id].state == State::NeedsYou ==> policies.needs_you.enabled,
        m.sessions[id].state == State::WaitingReview ==> policies.waiting_review.enabled,
{
}

/// Looking for alerts books each that is due, and changes neither a session that is
/// not shown nor anything but what was told.
pub proof fn law_looking_for_alerts(
    m: EngineModel,
    policies: AlertPolicies,
    id: Seq<char>,
    now: Instant,
)
    ensures
        ({
            let post = m.alerted(policies, now);
            let s = m.sessions[id];
            let shown = m.sessions.contains_key(id) && !s.stale && !m.hidden(id);
            &&& post == (EngineModel { sessions: post.sessions, ..m })
            &&& post.sessions.contains_key(id) <==> m.sessions.contains_key(id)
            &&& m.sessions.contains_key(id) && !shown ==> post.sessions[id] == s
            &&& shown && s.state == State::NeedsYou ==> post.sessions[id] == s.alerted(
                policies.needs_you,
                now,
            )
            &&& shown && s.state == State::WaitingReview ==> post.sessions[id] == s.alerted(
                policies.waiting_review,
                now,
            )
            &&& shown && (s.state == State::Working || s.state == State::Ready)
                ==> post.sessions[id] == s
        }),
{
}

/// Whether a session is among those that are to be told of.
pub open spec fn is_asked_for(out: Seq<AlertRequest>, id: Seq<char>) -> bool {
    exists|k: int| 0 <= k < out.len() && (#[trigger] out[k]).session_id@ == id
}

/// The requests are one for each session that is due an alert, and each tells what
/// is known of its session.
pub proof fn law_what_an_alert_tells(
    out: Seq<AlertRequest>,
    m: EngineModel,
    policies: AlertPolicies,
    now: Instant,
    id: Seq<char>,
    i: int,
    j: int,
)
    requires
        alerts_told(out, m, policies, now),
    ensures
        is_asked_for(out, id) <==> m.due(policies, id, now),
        0 <= i < j < out.len() ==> out[i].session_id@ != out[j].session_id@,
        0 <= i < out.len() ==> {
            let s = m.sessions[out[i].session_id@];
            &&& out[i].state == s.state
            &&& out[i].descriptor.deep_view() == s.descriptor
            &&& out[i].terminal_pid == s.terminal_pid
            &&& out[i].folder@ == m.folder(s)
            &&& out[i].branch.deep_view() == m.branch(s)
            &&& out[i].label@ == m.label(s)
        },
{
    let ids = requested(out);
    if is_asked_for(out, id) {
        let k = choose|k: int| 0 <= k < out.len() && (#[trigger] out[k]).session_id@ == id;
        assert(ids[k] == id);
        assert(ids.contains(id));
    }
    if m.due(policies, id, now) {
        assert(ids.contains(id));
        let k = choose|k: int| 0 <= k < ids.len() && ids[k] == id;
        assert(out[k].session_id@ == id);
    }
    if 0 <= i < j < out.len() {
        assert(ids[i] != ids[j]);
    }
}

} // verus!
