//! When a session that stays stuck is told of again.
use crate::model::EngineModel;
use crate::report::lists;
use crate::session::{Session, SessionModel, State};
use crate::time::{elapsed, Duration, Instant, NANOS_PER_SEC};
use vstd::prelude::*;

verus! {

/// How alerts recur while a session stays in one state.
#[derive(Clone, Copy, Debug)]
pub struct AlertPolicy {
    pub enabled: bool,
    /// Seconds between two alerts; none recur at zero.
    pub cooldown_secs: u64,
    /// The most alerts in one stay, counting the one that marks its beginning.
    pub max_triggers: u32,
}

/// No alert recurs.
pub open spec fn no_recurrence() -> AlertPolicy {
    AlertPolicy { enabled: false, cooldown_secs: 0, max_triggers: 0 }
}

impl Default for AlertPolicy {
    fn default() -> (r: AlertPolicy)
        ensures
            r == no_recurrence(),
    {
        AlertPolicy { enabled: false, cooldown_secs: 0, max_triggers: 0 }
    }
}

/// The policy for each state.
#[derive(Clone, Copy, Debug)]
pub struct AlertPolicies {
    pub needs_you: AlertPolicy,
    pub working: AlertPolicy,
    pub ready: AlertPolicy,
    pub waiting_review: AlertPolicy,
}

impl Default for AlertPolicies {
    fn default() -> (r: AlertPolicies)
        ensures
            r == (AlertPolicies {
                needs_you: no_recurrence(),
                working: no_recurrence(),
                ready: no_recurrence(),
                waiting_review: no_recurrence(),
            }),
    {
        AlertPolicies {
            needs_you: AlertPolicy::default(),
            working: AlertPolicy::default(),
            ready: AlertPolicy::default(),
            waiting_review: AlertPolicy::default(),
        }
    }
}

impl AlertPolicies {
    /// The policy in force for a state. A session that works or is ready is not
    /// stuck, whatever its own policy says.
    pub open spec fn policy(self, state: State) -> AlertPolicy {
        match state {
            State::NeedsYou => self.needs_you,
            State::WaitingReview => self.waiting_review,
            State::Working | State::Ready => no_recurrence(),
        }
    }

    /// The policy in force for a state.
    pub fn for_state(&self, state: State) -> (r: AlertPolicy)
        ensures
            r == self.policy(state),
    {
        match state {
            State::NeedsYou => self.needs_you,
            State::WaitingReview => self.waiting_review,
            State::Working | State::Ready => AlertPolicy::default(),
        }
    }
}

impl AlertPolicy {
    /// Whether alerts recur at all.
    pub open spec fn recurs(self) -> bool {
        self.enabled && self.cooldown_secs != 0
    }
}

impl SessionModel {
    /// Whether the alert counters belong to the current stay in the state.
    pub open spec fn same_episode(self) -> bool {
        self.alert_episode == Some(self.state_since)
    }

    /// The alerts that have recurred in the current stay.
    pub open spec fn episode_count(self) -> nat {
        if self.same_episode() {
            self.alert_count
        } else {
            0
        }
    }

    /// The latest of them.
    pub open spec fn episode_last(self) -> Option<Instant> {
        if self.same_episode() {
            self.last_alert_at
        } else {
            None
        }
    }

    /// When the user was last told of the current stay.
    pub open spec fn last_told(self) -> Instant {
        match self.episode_last() {
            Some(t) => t,
            None => self.state_since,
        }
    }

    /// Whether another alert is due: alerts recur, the stay has not used up what
    /// it may recur, and the cooldown has passed.
    pub open spec fn alert_due(self, policy: AlertPolicy, now: Instant) -> bool {
        &&& policy.recurs()
        &&& self.episode_count() + 1 < policy.max_triggers
        &&& elapsed(now, self.last_told()) >= policy.cooldown_secs * NANOS_PER_SEC
    }

    /// With the alert booked that is due, and the counters those of this stay.
    pub open spec fn alerted(self, policy: AlertPolicy, now: Instant) -> SessionModel {
        if !policy.recurs() {
            self
        } else if self.alert_due(policy, now) {
            SessionModel {
                alert_episode: Some(self.state_since),
                alert_count: self.episode_count() + 1,
                last_alert_at: Some(now),
                ..self
            }
        } else {
            SessionModel {
                alert_episode: Some(self.state_since),
                alert_count: self.episode_count(),
                last_alert_at: self.episode_last(),
                ..self
            }
        }
    }
}

impl Session {
    /// Books the alert that is due. Returns whether one was.
    pub fn book_alert(&mut self, policy: AlertPolicy, now: Instant) -> (r: bool)
        ensures
            final(self)@ == old(self)@.alerted(policy, now),
            r == old(self)@.alert_due(policy, now),
    {
        if !policy.enabled || policy.cooldown_secs == 0 {
            return false;
        }
        let same = match self.alert_episode {
            Some(t) => t == self.state_since,
            None => false,
        };
        if !same {
            self.alert_episode = Some(self.state_since);
            self.alert_count = 0;
            self.last_alert_at = None;
        }
        if policy.max_triggers == 0 || self.alert_count >= policy.max_triggers - 1 {
            return false;
        }
        let since = match self.last_alert_at {
            Some(t) => t,
            None => self.state_since,
        };
        if !now.is_past(since, Duration::from_secs(policy.cooldown_secs)) {
            return false;
        }
        self.alert_count += 1;
        self.last_alert_at = Some(now);
        true
    }
}

/// One alert to be given now.
#[derive(Clone, Debug)]
pub struct AlertRequest {
    pub session_id: String,
    pub state: State,
    /// `folder (branch)`, or `folder` alone.
    pub label: String,
    pub folder: String,
    pub branch: Option<String>,
    pub descriptor: Option<String>,
    pub terminal_pid: Option<i32>,
}

impl EngineModel {
    /// Whether a session is due an alert. Only a live session can be.
    pub open spec fn due(self, policies: AlertPolicies, id: Seq<char>, now: Instant) -> bool {
        self.live(id) && self.sessions[id].alert_due(
            policies.policy(self.sessions[id].state),
            now,
        )
    }

    /// A session with the alert booked that is due.
    pub open spec fn session_alerted(
        self,
        policies: AlertPolicies,
        id: Seq<char>,
        now: Instant,
    ) -> SessionModel {
        let s = self.sessions[id];
        if self.live(id) {
            s.alerted(policies.policy(s.state), now)
        } else {
            s
        }
    }

    /// With every alert booked that is due.
    pub open spec fn alerted(self, policies: AlertPolicies, now: Instant) -> EngineModel {
        EngineModel {
            sessions: Map::new(
                |id: Seq<char>| self.knows(id),
                |id: Seq<char>| self.session_alerted(policies, id, now),
            ),
            ..self
        }
    }
}

/// Whether a request tells of the session that it names.
pub open spec fn request_fits(r: AlertRequest, m: EngineModel) -> bool {
    let s = m.sessions[r.session_id@];
    &&& r.state == s.state
    &&& r.label@ == m.label(s)
    &&& r.folder@ == m.folder(s)
    &&& r.branch.deep_view() == m.branch(s)
    &&& r.descriptor.deep_view() == s.descriptor
    &&& r.terminal_pid == s.terminal_pid
}

/// The sessions that requests name.
pub open spec fn requested(out: Seq<AlertRequest>) -> Seq<Seq<char>> {
    Seq::new(out.len(), |i: int| out[i].session_id@)
}

/// Whether there is one request for each session that is due an alert.
pub open spec fn alerts_told(
    out: Seq<AlertRequest>,
    m: EngineModel,
    policies: AlertPolicies,
    now: Instant,
) -> bool {
    &&& lists(requested(out), |id: Seq<char>| m.due(policies, id, now))
    &&& forall|i: int| 0 <= i < out.len() ==> request_fits(#[trigger] out[i], m)
}

} // verus!
