//! One session: what is known of it, and how that changes.
use crate::event::{EventModel, HookEvent};
use crate::label::{copy_text, dir_named};
use crate::time::{elapsed, Duration, Instant};
use vstd::prelude::*;

verus! {

/// What a session is doing.
#[derive(Clone, Copy, PartialEq, Eq, Debug, Structural)]
pub enum State {
    /// Blocked on the user: a permission, a choice, an answer.
    NeedsYou,
    /// Running.
    Working,
    /// Finished its turn, open to new instructions.
    Ready,
    /// Finished, and the user asked to look it over first.
    WaitingReview,
}

/// The sum of all sessions, as the tray shows it.
#[derive(Clone, Copy, PartialEq, Eq, Debug, Structural)]
pub enum Rollup {
    Red,
    /// A flagged session has finished. Outranked by `Red` alone.
    Review,
    Orange,
    Green,
    Grey,
}

/// One tracked session.
#[derive(Debug)]
pub struct Session {
    pub cwd: String,
    /// The last component of `cwd`, as the platform reads it.
    pub name: Option<String>,
    pub state: State,
    /// When anything was last heard of the session.
    pub last_seen: Instant,
    /// When `state` was entered.
    pub state_since: Instant,
    /// Silent past the stale timeout, not yet dropped.
    pub stale: bool,
    /// Subagents that were started and have not stopped.
    pub subagent_count: u32,
    /// When `subagent_count` last rose from zero; none while it is zero.
    pub sub_since: Option<Instant>,
    /// Process id of the terminal application that hosts the session.
    pub terminal_pid: Option<i32>,
    pub terminal_app: Option<String>,
    /// Controlling terminal device of the session.
    pub terminal_tty: Option<String>,
    /// What the session is about, in a few words.
    pub descriptor: Option<String>,
    /// When deriving `descriptor` was last tried.
    pub descriptor_checked_at: Option<Instant>,
    pub first_prompt: Option<String>,
    /// When reading `first_prompt` was last tried.
    pub first_prompt_checked_at: Option<Instant>,
    /// The session blocked while a rule hid it. Stays until a fresh start.
    pub revealed: bool,
    /// The turn ended while subagents were live; the move that this calls for is
    /// still owed.
    pub awaiting_subagents: bool,
    /// The next finish is to wait for review.
    pub review_when_done: bool,
    /// The `state_since` that the two fields below belong to.
    pub alert_episode: Option<Instant>,
    /// Repeated alerts in this episode.
    pub alert_count: u32,
    /// The latest of them.
    pub last_alert_at: Option<Instant>,
}

/// A session, its texts as characters.
pub struct SessionModel {
    pub cwd: Seq<char>,
    pub name: Option<Seq<char>>,
    pub state: State,
    pub last_seen: Instant,
    pub state_since: Instant,
    pub stale: bool,
    pub subagent_count: nat,
    pub sub_since: Option<Instant>,
    pub terminal_pid: Option<i32>,
    pub terminal_app: Option<Seq<char>>,
    pub terminal_tty: Option<Seq<char>>,
    pub descriptor: Option<Seq<char>>,
    pub descriptor_checked_at: Option<Instant>,
    pub first_prompt: Option<Seq<char>>,
    pub first_prompt_checked_at: Option<Instant>,
    pub revealed: bool,
    pub awaiting_subagents: bool,
    pub review_when_done: bool,
    pub alert_episode: Option<Instant>,
    pub alert_count: nat,
    pub last_alert_at: Option<Instant>,
}

impl View for Session {
    type V = SessionModel;

    open spec fn view(&self) -> SessionModel {
        SessionModel {
            cwd: self.cwd@,
            name: self.name.deep_view(),
            state: self.state,
            last_seen: self.last_seen,
            state_since: self.state_since,
            stale: self.stale,
            subagent_count: self.subagent_count as nat,
            sub_since: self.sub_since,
            terminal_pid: self.terminal_pid,
            terminal_app: self.terminal_app.deep_view(),
            terminal_tty: self.terminal_tty.deep_view(),
            descriptor: self.descriptor.deep_view(),
            descriptor_checked_at: self.descriptor_checked_at,
            first_prompt: self.first_prompt.deep_view(),
            first_prompt_checked_at: self.first_prompt_checked_at,
            revealed: self.revealed,
            awaiting_subagents: self.awaiting_subagents,
            review_when_done: self.review_when_done,
            alert_episode: self.alert_episode,
            alert_count: self.alert_count as nat,
            last_alert_at: self.last_alert_at,
        }
    }
}

/// A terminal remembered for a session.
#[derive(Debug)]
pub struct CapturedTerminal {
    pub pid: Option<i32>,
    pub app: Option<String>,
    pub tty: Option<String>,
}

pub struct CaptureModel {
    pub pid: Option<i32>,
    pub app: Option<Seq<char>>,
    pub tty: Option<Seq<char>>,
}

impl View for CapturedTerminal {
    type V = CaptureModel;

    open spec fn view(&self) -> CaptureModel {
        CaptureModel { pid: self.pid, app: self.app.deep_view(), tty: self.tty.deep_view() }
    }
}

/// Nothing remembered.
pub open spec fn no_capture() -> CaptureModel {
    CaptureModel { pid: None, app: None, tty: None }
}

impl Default for CapturedTerminal {
    fn default() -> (r: CapturedTerminal)
        ensures
            r@ == no_capture(),
    {
        CapturedTerminal { pid: None, app: None, tty: None }
    }
}

impl Clone for CapturedTerminal {
    fn clone(&self) -> (r: CapturedTerminal)
        ensures
            r@ == self@,
    {
        CapturedTerminal {
            pid: self.pid,
            app: copy_text(&self.app),
            tty: copy_text(&self.tty),
        }
    }
}

// ---------------------------------------------------------------------------
// One session.
impl SessionModel {
    /// What holds of every tracked session.
    pub open spec fn valid(self) -> bool {
        &&& self.sub_since is Some <==> self.subagent_count > 0
        &&& self.state == State::WaitingReview ==> self.review_when_done
        &&& self.last_alert_at is Some <==> self.alert_count > 0
        &&& dir_named(self.cwd, self.name)
    }

    /// A session that nothing but its first event is known of.
    pub open spec fn fresh(
        cwd: Seq<char>,
        name: Option<Seq<char>>,
        state: State,
        terminal: CaptureModel,
        now: Instant,
    ) -> SessionModel {
        SessionModel {
            cwd,
            name,
            state,
            last_seen: now,
            state_since: now,
            stale: false,
            subagent_count: 0,
            sub_since: None,
            terminal_pid: terminal.pid,
            terminal_app: terminal.app,
            terminal_tty: terminal.tty,
            descriptor: None,
            descriptor_checked_at: None,
            first_prompt: None,
            first_prompt_checked_at: None,
            revealed: false,
            awaiting_subagents: false,
            review_when_done: false,
            alert_episode: None,
            alert_count: 0,
            last_alert_at: None,
        }
    }

    /// The directory after an event, which an event without one leaves alone.
    pub open spec fn cwd_after(self, ev: EventModel) -> Seq<char> {
        if ev.cwd.len() > 0 {
            ev.cwd
        } else {
            self.cwd
        }
    }

    /// The name that goes with that directory.
    pub open spec fn name_after(self, ev: EventModel) -> Option<Seq<char>> {
        if ev.cwd.len() > 0 {
            ev.cwd_name
        } else {
            self.name
        }
    }

    /// After a sign of life.
    pub open spec fn heard(self, ev: EventModel, now: Instant) -> SessionModel {
        SessionModel {
            last_seen: now,
            stale: false,
            cwd: self.cwd_after(ev),
            name: self.name_after(ev),
            ..self
        }
    }

    /// With the remembered terminal, where it has none of its own.
    pub open spec fn backfilled(self, terminal: Option<CaptureModel>) -> SessionModel {
        match terminal {
            Some(t) if self.terminal_pid is None => SessionModel {
                terminal_pid: t.pid,
                terminal_app: t.app,
                terminal_tty: t.tty,
                ..self
            },
            _ => self,
        }
    }

    /// After a move into `state`, which starts a new stay only if it differs.
    pub open spec fn entered(
        self,
        ev: EventModel,
        state: State,
        terminal: Option<CaptureModel>,
        now: Instant,
    ) -> SessionModel {
        let s = self.heard(ev, now).backfilled(terminal);
        if s.state == state {
            s
        } else {
            SessionModel { state, state_since: now, ..s }
        }
    }

    /// After a fresh start, which nothing of the last run outlives.
    pub open spec fn restarted(self) -> SessionModel {
        SessionModel {
            subagent_count: 0,
            sub_since: None,
            revealed: false,
            review_when_done: false,
            awaiting_subagents: false,
            ..self
        }
    }

    /// The state that a finished turn leads to.
    pub open spec fn finish_state(self) -> State {
        if self.review_when_done {
            State::WaitingReview
        } else {
            State::Ready
        }
    }

    /// With one more live subagent.
    pub open spec fn spawned(self, now: Instant) -> SessionModel {
        SessionModel {
            subagent_count: self.subagent_count + 1,
            sub_since: if self.subagent_count == 0 {
                Some(now)
            } else {
                self.sub_since
            },
            ..self
        }
    }

    /// With one live subagent less; without any, nothing is owed to them.
    pub open spec fn released(self) -> SessionModel {
        if self.subagent_count > 1 {
            SessionModel { subagent_count: (self.subagent_count - 1) as nat, ..self }
        } else {
            SessionModel {
                subagent_count: 0,
                sub_since: None,
                awaiting_subagents: false,
                ..self
            }
        }
    }

    /// Whether the stop of one subagent sets the owed move free: it is the last,
    /// a move is owed, and the session is not blocked.
    pub open spec fn release_moves(self) -> bool {
        self.subagent_count <= 1 && self.awaiting_subagents && self.state != State::NeedsYou
    }

    /// With what an event tells of its terminal.
    pub open spec fn captured(self, ev: EventModel, now: Instant) -> SessionModel {
        SessionModel {
            terminal_pid: if ev.terminal_pid is Some {
                ev.terminal_pid
            } else {
                self.terminal_pid
            },
            terminal_app: if ev.terminal_app is Some {
                ev.terminal_app
            } else {
                self.terminal_app
            },
            terminal_tty: match ev.terminal_tty {
                Some(t) if t.len() > 0 => Some(t),
                _ => self.terminal_tty,
            },
            last_seen: now,
            cwd: self.cwd_after(ev),
            name: self.name_after(ev),
            ..self
        }
    }

    /// Whether the silence has lasted for `timeout`.
    pub open spec fn idle_for(self, timeout: Duration, now: Instant) -> bool {
        elapsed(now, self.last_seen) >= timeout.nanos
    }

    /// After a sweep that keeps it. Going stale takes the live subagents with it.
    pub open spec fn aged(self, timeout: Duration, now: Instant) -> SessionModel {
        if self.idle_for(timeout, now) == self.stale {
            self
        } else if self.stale {
            SessionModel { stale: false, ..self }
        } else {
            SessionModel { stale: true, subagent_count: 0, sub_since: None, ..self }
        }
    }

    /// With the review flag set or cleared. Clearing it takes a session that
    /// waits for review back to ready.
    pub open spec fn flagged(self, flag: bool, now: Instant) -> SessionModel {
        if !flag && self.state == State::WaitingReview {
            SessionModel {
                review_when_done: flag,
                state: State::Ready,
                state_since: now,
                ..self
            }
        } else {
            SessionModel { review_when_done: flag, ..self }
        }
    }

    /// With the outcome of deriving the descriptor.
    pub open spec fn described(self, value: Option<Seq<char>>, now: Instant) -> SessionModel {
        SessionModel {
            descriptor: if value is Some {
                value
            } else {
                self.descriptor
            },
            descriptor_checked_at: Some(now),
            ..self
        }
    }

    /// The first prompt after one was looked for: finding none keeps the old one.
    pub open spec fn prompt_after(self, value: Option<Seq<char>>) -> Option<Seq<char>> {
        if value is Some {
            value
        } else {
            self.first_prompt
        }
    }

    /// With the outcome of reading the first prompt.
    pub open spec fn prompted(self, value: Option<Seq<char>>, now: Instant) -> SessionModel {
        SessionModel {
            first_prompt: self.prompt_after(value),
            first_prompt_checked_at: Some(now),
            ..self
        }
    }

    /// With the reading of the first prompt due again, where it has not come yet.
    pub open spec fn unread(self) -> SessionModel {
        if self.first_prompt is None {
            SessionModel { first_prompt_checked_at: None, ..self }
        } else {
            self
        }
    }
}

impl Session {
    /// A session that nothing but its first event is known of.
    pub fn fresh(
        cwd: String,
        name: Option<String>,
        state: State,
        terminal: CapturedTerminal,
        now: Instant,
    ) -> (r: Session)
        ensures
            r@ == SessionModel::fresh(cwd@, name.deep_view(), state, terminal@, now),
    {
        Session {
            cwd,
            name,
            state,
            last_seen: now,
            state_since: now,
            stale: false,
            subagent_count: 0,
            sub_since: None,
            terminal_pid: terminal.pid,
            terminal_app: terminal.app,
            terminal_tty: terminal.tty,
            descriptor: None,
            descriptor_checked_at: None,
            first_prompt: None,
            first_prompt_checked_at: None,
            revealed: false,
            awaiting_subagents: false,
            review_when_done: false,
            alert_episode: None,
            alert_count: 0,
            last_alert_at: None,
        }
    }

    /// Takes in a sign of life; the state stays as it is.
    pub fn hear(&mut self, ev: &HookEvent, name: &Option<String>, now: Instant)
        ensures
            final(self)@ == old(self)@.heard(ev@.named(name.deep_view()), now),
    {
        self.last_seen = now;
        self.stale = false;
        self.relocate(ev, name);
    }

    /// Takes over the event's directory, when it has one, with its name.
    fn relocate(&mut self, ev: &HookEvent, name: &Option<String>)
        ensures
            final(self)@ == (SessionModel {
                cwd: old(self)@.cwd_after(ev@),
                name: old(self)@.name_after(ev@.named(name.deep_view())),
                ..old(self)@
            }),
    {
        if !ev.cwd.as_str().is_empty() {
            self.cwd = ev.cwd.clone();
            self.name = copy_text(name);
        }
    }

    /// Takes over the remembered terminal where it has none of its own.
    pub fn backfill(&mut self, terminal: Option<CapturedTerminal>)
        ensures
            final(self)@ == old(self)@.backfilled(
                match terminal {
                    Some(t) => Some(t@),
                    None => None,
                },
            ),
    {
        if self.terminal_pid.is_none() {
            if let Some(t) = terminal {
                self.terminal_pid = t.pid;
                self.terminal_app = t.app;
                self.terminal_tty = t.tty;
            }
        }
    }

    /// Moves into `state`.
    pub fn enter(
        &mut self,
        ev: &HookEvent,
        name: &Option<String>,
        state: State,
        terminal: Option<CapturedTerminal>,
        now: Instant,
    )
        ensures
            final(self)@ == old(self)@.entered(
                ev@.named(name.deep_view()),
                state,
                match terminal {
                    Some(t) => Some(t@),
                    None => None,
                },
                now,
            ),
    {
        self.hear(ev, name, now);
        self.backfill(terminal);
        if self.state != state {
            self.state = state;
            self.state_since = now;
        }
    }

    /// Forgets what a fresh start does away with.
    pub fn restart(&mut self)
        ensures
            final(self)@ == old(self)@.restarted(),
    {
        self.reset_subagents();
        self.revealed = false;
        self.review_when_done = false;
        self.awaiting_subagents = false;
    }

    /// Forgets the live subagents.
    pub fn reset_subagents(&mut self)
        ensures
            final(self)@ == (SessionModel { subagent_count: 0, sub_since: None, ..old(self)@ }),
    {
        self.subagent_count = 0;
        self.sub_since = None;
    }

    /// The state that a finished turn leads to.
    pub fn terminal_state(&self) -> (r: State)
        ensures
            r == self@.finish_state(),
    {
        if self.review_when_done {
            State::WaitingReview
        } else {
            State::Ready
        }
    }

    /// Counts one more live subagent.
    pub fn spawn_subagent(&mut self, now: Instant)
        requires
            old(self).subagent_count < u32::MAX,
        ensures
            final(self)@ == old(self)@.spawned(now),
    {
        if self.subagent_count == 0 {
            self.sub_since = Some(now);
        }
        self.subagent_count += 1;
    }

    /// Counts one live subagent less. Returns the state to move into when that
    /// sets an owed move free.
    pub fn release_subagent(&mut self) -> (r: Option<State>)
        ensures
            final(self)@ == old(self)@.released(),
            r == (if old(self)@.release_moves() {
                Some(old(self)@.finish_state())
            } else {
                None
            }),
    {
        if self.subagent_count > 1 {
            self.subagent_count -= 1;
            return None;
        }
        self.subagent_count = 0;
        self.sub_since = None;
        if self.awaiting_subagents {
            self.awaiting_subagents = false;
            if self.state != State::NeedsYou {
                return Some(self.terminal_state());
            }
        }
        None
    }

    /// Takes in what an event tells of the terminal.
    pub fn capture(&mut self, ev: &HookEvent, name: &Option<String>, now: Instant)
        ensures
            final(self)@ == old(self)@.captured(ev@.named(name.deep_view()), now),
    {
        if ev.terminal_pid.is_some() {
            self.terminal_pid = ev.terminal_pid;
        }
        if ev.terminal_app.is_some() {
            self.terminal_app = copy_text(&ev.terminal_app);
        }
        if let Some(t) = &ev.terminal_tty {
            if !t.as_str().is_empty() {
                self.terminal_tty = Some(t.clone());
            }
        }
        self.last_seen = now;
        self.relocate(ev, name);
    }

    /// Sets or clears the review flag.
    pub fn flag(&mut self, flag: bool, now: Instant)
        ensures
            final(self)@ == old(self)@.flagged(flag, now),
    {
        self.review_when_done = flag;
        if !flag && self.state == State::WaitingReview {
            self.state = State::Ready;
            self.state_since = now;
        }
    }

    /// Goes stale or comes back, by how long it has been silent. Returns whether
    /// it has gone stale just now.
    pub fn age(&mut self, timeout: Duration, now: Instant) -> (r: bool)
        ensures
            final(self)@ == old(self)@.aged(timeout, now),
            r == (final(self)@.stale && !old(self)@.stale),
    {
        let silent = now.is_past(self.last_seen, timeout);
        let gone = silent && !self.stale;
        if gone {
            self.reset_subagents();
        }
        self.stale = silent;
        gone
    }
}

} // verus!
