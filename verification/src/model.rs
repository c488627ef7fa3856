//! What the engine holds, as mathematics, and how each operation changes it.
use crate::event::{signal, EventModel, Signal};
use crate::ignore::{hides, hides_cwd, meets, names_prompts, MatcherModel};
use crate::label::{branch_in, combined, dir_named, folder_of, GitModel, Platform};
use crate::session::{no_capture, CaptureModel, Rollup, SessionModel, State};
use crate::time::{elapsed, Duration, Instant, NANOS_PER_SEC};
use vstd::prelude::*;

verus! {

/// For how many seconds after its end a session is not brought back by a mere
/// sign of life.
pub const END_TOMBSTONE_SECS: u64 = 30;

/// The same in nanoseconds.
pub open spec fn tombstone() -> nat {
    (END_TOMBSTONE_SECS * NANOS_PER_SEC) as nat
}

/// All that the engine holds.
pub struct EngineModel {
    pub sessions: Map<Seq<char>, SessionModel>,
    /// Terminals remembered for sessions; they make no row of their own.
    pub captures: Map<Seq<char>, CaptureModel>,
    /// When the sessions that ended of late did so.
    pub ends: Map<Seq<char>, Instant>,
    pub stale_timeout: Duration,
    pub drop_timeout: Duration,
    /// Rules that hide sessions.
    pub ignore: Seq<MatcherModel>,
    /// Rules that keep sessions from being hidden.
    pub never_hide: Seq<MatcherModel>,
    pub observe_enabled: bool,
    /// How often a hidden session was shown because it blocked.
    pub reveal_count: nat,
    pub platform: Platform,
    /// The repositories that working directories lie in.
    pub repos: Map<Seq<char>, GitModel>,
}

// ---------------------------------------------------------------------------
// Hidden sessions.
/// Whether rules hide a session. An allowlisted session is never hidden, nor is
/// one that was shown because it blocked.
pub open spec fn session_hidden(
    ignore: Seq<MatcherModel>,
    never_hide: Seq<MatcherModel>,
    s: SessionModel,
) -> bool {
    &&& !meets(never_hide, s.cwd, s.first_prompt)
    &&& !s.revealed
    &&& hides(ignore, s.cwd, s.first_prompt)
}

impl EngineModel {
    /// An engine that has heard of nothing.
    pub open spec fn initial(stale_timeout: Duration, drop_timeout: Duration) -> EngineModel {
        EngineModel {
            sessions: Map::empty(),
            captures: Map::empty(),
            ends: Map::empty(),
            stale_timeout,
            drop_timeout,
            ignore: Seq::empty(),
            never_hide: Seq::empty(),
            observe_enabled: false,
            reveal_count: 0,
            platform: Platform::Other,
            repos: Map::empty(),
        }
    }

    /// What holds of every state that the engine is in.
    pub open spec fn valid(self) -> bool {
        &&& !self.sessions.contains_key(Seq::empty())
        &&& forall|id: Seq<char>| #[trigger]
            self.sessions.contains_key(id) ==> self.sessions[id].valid()
    }

    pub open spec fn knows(self, id: Seq<char>) -> bool {
        self.sessions.contains_key(id)
    }

    pub open spec fn with_session(self, id: Seq<char>, s: SessionModel) -> EngineModel {
        EngineModel { sessions: self.sessions.insert(id, s), ..self }
    }

    /// Whether the rules hide a session with these properties.
    pub open spec fn hides_session(self, s: SessionModel) -> bool {
        session_hidden(self.ignore, self.never_hide, s)
    }

    /// Whether a session is tracked and hidden.
    pub open spec fn hidden(self, id: Seq<char>) -> bool {
        self.knows(id) && self.hides_session(self.sessions[id])
    }

    /// Whether a session is tracked and shown.
    pub open spec fn visible(self, id: Seq<char>) -> bool {
        self.knows(id) && !self.hides_session(self.sessions[id])
    }

    /// Whether a session is shown and not stale.
    pub open spec fn live(self, id: Seq<char>) -> bool {
        self.visible(id) && !self.sessions[id].stale
    }

    /// Whether a live session is in this state.
    pub open spec fn any_live(self, state: State) -> bool {
        exists|id: Seq<char>| #[trigger] self.live(id) && self.sessions[id].state == state
    }

    /// The sum of the live sessions: the most urgent state that one of them is in.
    pub open spec fn rollup(self) -> Rollup {
        if self.any_live(State::NeedsYou) {
            Rollup::Red
        } else if self.any_live(State::WaitingReview) {
            Rollup::Review
        } else if self.any_live(State::Working) {
            Rollup::Orange
        } else if self.any_live(State::Ready) {
            Rollup::Green
        } else {
            Rollup::Grey
        }
    }

    /// The repository that a working directory lies in.
    pub open spec fn repo(self, cwd: Seq<char>) -> Option<GitModel> {
        if self.repos.contains_key(cwd) {
            Some(self.repos[cwd])
        } else {
            None
        }
    }

    /// The folder that stands for a session.
    pub open spec fn folder(self, s: SessionModel) -> Seq<char> {
        folder_of(s.cwd, s.name, self.repo(s.cwd))
    }

    /// The branch that a session has checked out.
    pub open spec fn branch(self, s: SessionModel) -> Option<Seq<char>> {
        branch_in(self.repo(s.cwd))
    }

    /// The label of a session.
    pub open spec fn label(self, s: SessionModel) -> Seq<char> {
        combined(self.folder(s), self.branch(s))
    }

    // -----------------------------------------------------------------------
    // Events.
    /// The terminal remembered for a session.
    pub open spec fn remembered(self, id: Seq<char>) -> Option<CaptureModel> {
        if self.captures.contains_key(id) {
            Some(self.captures[id])
        } else {
            None
        }
    }

    /// Whether a session ended too short a while ago for a sign of life to
    /// bring it back.
    pub open spec fn ended_of_late(self, id: Seq<char>, now: Instant) -> bool {
        self.ends.contains_key(id) && elapsed(now, self.ends[id]) < tombstone()
    }

    /// The session of an event that moves it into `state`; a new one if need be.
    pub open spec fn entering(self, ev: EventModel, state: State, now: Instant) -> SessionModel {
        let id = ev.session_id;
        if self.knows(id) {
            self.sessions[id].entered(ev, state, self.remembered(id), now)
        } else {
            SessionModel::fresh(
                ev.cwd,
                ev.cwd_name,
                state,
                match self.remembered(id) {
                    Some(t) => t,
                    None => no_capture(),
                },
                now,
            )
        }
    }

    /// Whether a move into `state` blocks a session that would be hidden.
    pub open spec fn reveals(self, ev: EventModel, state: State, now: Instant) -> bool {
        state == State::NeedsYou && self.hides_session(self.entering(ev, state, now))
    }

    /// After an event that moves its session into `state`. A session that blocks
    /// while hidden is shown from then on.
    pub open spec fn enter(self, ev: EventModel, state: State, now: Instant) -> EngineModel {
        let s = self.entering(ev, state, now);
        let reveals = self.reveals(ev, state, now);
        EngineModel {
            sessions: self.sessions.insert(
                ev.session_id,
                SessionModel { revealed: s.revealed || reveals, ..s },
            ),
            ends: self.ends.remove(ev.session_id),
            reveal_count: if reveals {
                self.reveal_count + 1
            } else {
                self.reveal_count
            },
            ..self
        }
    }

    /// After a sign of life. An unknown session is taken to be working, unless
    /// it ended of late.
    pub open spec fn beat(self, ev: EventModel, now: Instant) -> EngineModel {
        let id = ev.session_id;
        if self.knows(id) {
            self.with_session(id, self.sessions[id].heard(ev, now))
        } else if self.ended_of_late(id, now) {
            self
        } else {
            self.enter(ev, State::Working, now)
        }
    }

    /// After the end of a turn. While subagents are live the move is owed: the
    /// session goes on working, or stays blocked if it is.
    pub open spec fn finish(self, ev: EventModel, now: Instant) -> EngineModel {
        let id = ev.session_id;
        if self.knows(id) && self.sessions[id].subagent_count > 0 {
            let s = self.sessions[id];
            let owing = self.with_session(id, SessionModel { awaiting_subagents: true, ..s });
            if s.state == State::NeedsYou {
                owing.beat(ev, now)
            } else {
                owing.enter(ev, State::Working, now)
            }
        } else if self.knows(id) {
            self.enter(ev, self.sessions[id].finish_state(), now)
        } else {
            self.enter(ev, State::Ready, now)
        }
    }

    /// After the stop of a subagent; the last one makes the owed move.
    pub open spec fn release(self, ev: EventModel, now: Instant) -> EngineModel {
        let id = ev.session_id;
        let heard = self.beat(ev, now);
        if heard.knows(id) {
            let s = heard.sessions[id];
            let less = heard.with_session(id, s.released());
            if s.release_moves() {
                less.enter(ev, s.finish_state(), now)
            } else {
                less
            }
        } else {
            heard
        }
    }

    /// After an event.
    pub open spec fn step(self, ev: EventModel, now: Instant) -> EngineModel {
        let id = ev.session_id;
        match signal(ev) {
            Signal::Nothing => self,
            Signal::Beat => self.beat(ev, now),
            Signal::Start => {
                let ready = self.enter(ev, State::Ready, now);
                ready.with_session(id, ready.sessions[id].restarted())
            },
            Signal::Enter(state) => self.enter(ev, state, now),
            Signal::Spawn => {
                let heard = self.beat(ev, now);
                if heard.knows(id) {
                    heard.with_session(id, heard.sessions[id].spawned(now))
                } else {
                    heard
                }
            },
            Signal::Finish => self.finish(ev, now),
            Signal::Release => self.release(ev, now),
            Signal::Terminal => {
                let s = if self.knows(id) {
                    self.sessions[id]
                } else {
                    SessionModel::fresh(ev.cwd, ev.cwd_name, State::Ready, no_capture(), now)
                };
                self.with_session(id, s.captured(ev, now))
            },
            Signal::End => EngineModel {
                sessions: self.sessions.remove(id),
                captures: self.captures.remove(id),
                ends: self.ends.insert(id, now),
                ..self
            },
        }
    }

    /// Whether the counters have room for an event: for one live subagent more
    /// where one starts, and for one session more that is shown because it
    /// blocked where one blocks.
    pub open spec fn has_room(self, ev: EventModel) -> bool {
        match signal(ev) {
            Signal::Spawn => self.knows(ev.session_id)
                ==> self.sessions[ev.session_id].subagent_count < u32::MAX,
            Signal::Enter(state) => state == State::NeedsYou ==> self.reveal_count < u64::MAX,
            _ => true,
        }
    }

    /// The state of a session, none where it is not tracked.
    pub open spec fn state_of(self, id: Seq<char>) -> Option<State> {
        if self.knows(id) {
            Some(self.sessions[id].state)
        } else {
            None
        }
    }

    // -----------------------------------------------------------------------
    // Silence.
    /// After a sweep: sessions silent past the drop timeout are gone, the others
    /// are stale or not by their silence, and old ends are forgotten.
    pub open spec fn swept(self, now: Instant) -> EngineModel {
        EngineModel {
            sessions: Map::new(
                |id: Seq<char>|
                    self.knows(id) && !self.sessions[id].idle_for(self.drop_timeout, now),
                |id: Seq<char>| self.sessions[id].aged(self.stale_timeout, now),
            ),
            ends: Map::new(
                |id: Seq<char>| self.ended_of_late(id, now),
                |id: Seq<char>| self.ends[id],
            ),
            ..self
        }
    }

    // -----------------------------------------------------------------------
    // Settings and readings.
    /// With these rules to hide sessions by. Where one of them is on prompts, the
    /// prompts that have not been read are due again.
    pub open spec fn with_ignore(self, rules: Seq<MatcherModel>) -> EngineModel {
        EngineModel {
            ignore: rules,
            sessions: if names_prompts(rules) {
                self.sessions.map_values(|s: SessionModel| s.unread())
            } else {
                self.sessions
            },
            ..self
        }
    }

    /// With one rule more to hide sessions by.
    pub open spec fn with_rule(self, rule: MatcherModel) -> EngineModel {
        EngineModel { ignore: self.ignore.push(rule), ..self }
    }

    /// With the review flag of a session set or cleared.
    pub open spec fn with_flag(self, id: Seq<char>, flag: bool, now: Instant) -> EngineModel {
        if self.knows(id) {
            self.with_session(id, self.sessions[id].flagged(flag, now))
        } else {
            self
        }
    }

    /// With the outcome of deriving a session's descriptor.
    pub open spec fn with_descriptor(
        self,
        id: Seq<char>,
        value: Option<Seq<char>>,
        now: Instant,
    ) -> EngineModel {
        if self.knows(id) {
            self.with_session(id, self.sessions[id].described(value, now))
        } else {
            self
        }
    }

    /// Whether a session that is blocked and shown would be hidden once its
    /// first prompt is known.
    pub open spec fn classified_late(self, id: Seq<char>, value: Option<Seq<char>>) -> bool {
        let s = self.sessions[id];
        &&& self.visible(id)
        &&& s.state == State::NeedsYou
        &&& self.hides_session(SessionModel { first_prompt: s.prompt_after(value), ..s })
    }

    /// With the outcome of reading a session's first prompt. A blocked session
    /// that is shown stays so.
    pub open spec fn with_first_prompt(
        self,
        id: Seq<char>,
        value: Option<Seq<char>>,
        now: Instant,
    ) -> EngineModel {
        if !self.knows(id) {
            self
        } else {
            let s = self.sessions[id].prompted(value, now);
            if self.classified_late(id, value) {
                EngineModel {
                    reveal_count: self.reveal_count + 1,
                    ..self.with_session(id, SessionModel { revealed: true, ..s })
                }
            } else {
                self.with_session(id, s)
            }
        }
    }

    /// With a terminal remembered, if it has a process to raise.
    pub open spec fn with_capture(self, id: Seq<char>, terminal: CaptureModel) -> EngineModel {
        if terminal.pid is Some {
            EngineModel { captures: self.captures.insert(id, terminal), ..self }
        } else {
            self
        }
    }

    /// Whether a session's descriptor is to be derived: it was never tried, or
    /// not for `refresh`, or, while there is none, not for `retry`.
    pub open spec fn descriptor_due(
        self,
        id: Seq<char>,
        retry: Duration,
        refresh: Duration,
        now: Instant,
    ) -> bool {
        self.knows(id) && match self.sessions[id].descriptor_checked_at {
            None => true,
            Some(t) => elapsed(now, t) >= (if self.sessions[id].descriptor is None {
                retry.nanos
            } else {
                refresh.nanos
            }),
        }
    }

    /// Whether a session's first prompt is to be read: someone wants it, it is
    /// not known, no rule on directories hides the session anyway, and reading
    /// it was never tried, or not for `retry`.
    pub open spec fn first_prompt_due(
        self,
        id: Seq<char>,
        retry: Duration,
        now: Instant,
    ) -> bool {
        &&& self.observe_enabled || names_prompts(self.ignore)
        &&& self.knows(id)
        &&& self.sessions[id].first_prompt is None
        &&& !hides_cwd(self.ignore, self.sessions[id].cwd)
        &&& match self.sessions[id].first_prompt_checked_at {
            None => true,
            Some(t) => elapsed(now, t) >= retry.nanos,
        }
    }

    /// Whether some session runs in this directory.
    pub open spec fn runs_in(self, dir: Seq<char>) -> bool {
        exists|id: Seq<char>| #[trigger] self.knows(id) && self.sessions[id].cwd == dir
    }

    /// The hidden sessions.
    pub open spec fn hidden_ids(self) -> Set<Seq<char>> {
        self.sessions.dom().filter(|id: Seq<char>| self.hidden(id))
    }
}

/// Whether an event at the time `now` takes the engine from `pre` to `post`. What
/// its directory is called, the platform says.
pub open spec fn takes_in(
    pre: EngineModel,
    post: EngineModel,
    ev: EventModel,
    now: Instant,
) -> bool {
    exists|name: Option<Seq<char>>|
        #[trigger] dir_named(ev.cwd, name) && post == pre.step(ev.named(name), now)
}

} // verus!
