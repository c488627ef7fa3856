//! What is read of sessions elsewhere: their terminals, descriptors and prompts.
use super::Engine;
use crate::label::copy_text;
use crate::laws::{law_first_prompt_taken, lemma_with_session_valid, prompt_taken};
use crate::session::{SessionModel, State};
use crate::text::same_text;
use crate::time::{Duration, Instant};
use vstd::prelude::*;

verus! {

impl Engine {
    /// The process id of the terminal that hosts a session.
    pub fn terminal_pid(&self, id: &str) -> (r: Option<i32>)
        requires
            self.wf(),
        ensures
            r == (if self@.knows(id@) {
                self@.sessions[id@].terminal_pid
            } else {
                None
            }),
    {
        match self.sessions.get(id) {
            Some(s) => s.terminal_pid,
            None => None,
        }
    }

    /// What is needed to raise a session's terminal: process id, terminal device
    /// and application.
    pub fn focus_target(&self, id: &str) -> (r: Option<(i32, Option<String>, Option<String>)>)
        requires
            self.wf(),
        ensures
            match r {
                Some((pid, tty, app)) => {
                    &&& self@.knows(id@)
                    &&& self@.sessions[id@].terminal_pid == Some(pid)
                    &&& tty.deep_view() == self@.sessions[id@].terminal_tty
                    &&& app.deep_view() == self@.sessions[id@].terminal_app
                },
                None => self@.knows(id@) ==> self@.sessions[id@].terminal_pid is None,
            },
    {
        match self.sessions.get(id) {
            Some(s) => match s.terminal_pid {
                Some(pid) => Some((pid, copy_text(&s.terminal_tty), copy_text(&s.terminal_app))),
                None => None,
            },
            None => None,
        }
    }

    /// Whether a session's descriptor is to be derived at the time `now`.
    pub fn descriptor_due_at(
        &self,
        id: &str,
        retry: Duration,
        refresh: Duration,
        now: Instant,
    ) -> (r: bool)
        requires
            self.wf(),
        ensures
            r == self@.descriptor_due(id@, retry, refresh, now),
    {
        match self.sessions.get(id) {
            Some(s) => match s.descriptor_checked_at {
                Some(t) => {
                    let interval = if s.descriptor.is_none() {
                        retry
                    } else {
                        refresh
                    };
                    now.is_past(t, interval)
                },
                None => true,
            },
            None => false,
        }
    }

    /// Whether a session's descriptor is to be derived now.
    pub fn descriptor_due(&self, id: &str, retry: Duration, refresh: Duration) -> (r: bool)
        requires
            self.wf(),
        ensures
            exists|now: Instant| r == #[trigger] self@.descriptor_due(id@, retry, refresh, now),
    {
        let now = self.now();
        self.descriptor_due_at(id, retry, refresh, now)
    }

    /// Takes in the outcome of deriving a session's descriptor at the time `now`.
    /// Returns whether another one is shown. Finding none keeps the old one.
    pub fn set_descriptor_at(&mut self, id: &str, value: Option<String>, now: Instant) -> (r: bool)
        requires
            old(self).wf(),
        ensures
            final(self).wf(),
            final(self).clock() == old(self).clock(),
            final(self)@ == old(self)@.with_descriptor(id@, value.deep_view(), now),
            r == (old(self)@.knows(id@) && final(self)@.sessions[id@].descriptor
                != old(self)@.sessions[id@].descriptor),
    {
        proof {
            if self@.knows(id@) {
                lemma_with_session_valid(
                    self@,
                    id@,
                    self@.sessions[id@].described(value.deep_view(), now),
                );
            }
        }
        match self.sessions.get_mut(id) {
            Some(s) => {
                s.descriptor_checked_at = Some(now);
                let same = match (&value, &s.descriptor) {
                    (Some(a), Some(b)) => same_text(a.as_str(), b.as_str()),
                    (Some(_), None) => false,
                    (None, _) => true,
                };
                if same {
                    false
                } else {
                    s.descriptor = value;
                    true
                }
            },
            None => false,
        }
    }

    /// Takes in the outcome of deriving a session's descriptor. Returns whether
    /// another one is shown. Finding none keeps the old one.
    pub fn set_descriptor(&mut self, id: &str, value: Option<String>) -> (r: bool)
        requires
            old(self).wf(),
        ensures
            final(self).wf(),
            final(self).clock() == old(self).clock(),
            exists|now: Instant|
                final(self)@ == #[trigger] old(self)@.with_descriptor(id@, value.deep_view(), now),
            r == (old(self)@.knows(id@) && final(self)@.sessions[id@].descriptor
                != old(self)@.sessions[id@].descriptor),
    {
        let now = self.now();
        self.set_descriptor_at(id, value, now)
    }

    /// Whether a session's first prompt is to be read at the time `now`.
    pub fn first_prompt_due_at(&self, id: &str, retry: Duration, now: Instant) -> (r: bool)
        requires
            self.wf(),
        ensures
            r == self@.first_prompt_due(id@, retry, now),
    {
        if !self.observe_enabled && !self.ignore.has_prompt_rules() {
            return false;
        }
        match self.sessions.get(id) {
            Some(s) => {
                if s.first_prompt.is_some() || self.ignore.cwd_hidden(s.cwd.as_str()) {
                    return false;
                }
                match s.first_prompt_checked_at {
                    Some(t) => now.is_past(t, retry),
                    None => true,
                }
            },
            None => false,
        }
    }

    /// Whether a session's first prompt is to be read now.
    pub fn first_prompt_due(&self, id: &str, retry: Duration) -> (r: bool)
        requires
            self.wf(),
        ensures
            exists|now: Instant| r == #[trigger] self@.first_prompt_due(id@, retry, now),
    {
        let now = self.now();
        self.first_prompt_due_at(id, retry, now)
    }

    /// Takes in the outcome of reading a session's first prompt at the time
    /// `now`. Returns whether that hides the session or shows it. A session that
    /// is blocked and shown stays so; finding no prompt leaves it to be read.
    pub fn set_first_prompt_at(&mut self, id: &str, value: Option<String>, now: Instant) -> (r:
        bool)
        requires
            old(self).wf(),
            old(self)@.state_of(id@) == Some(State::NeedsYou) ==> old(self)@.reveal_count
                < u64::MAX,
        ensures
            final(self).wf(),
            final(self).clock() == old(self).clock(),
            final(self)@ == old(self)@.with_first_prompt(id@, value.deep_view(), now),
            r == (old(self)@.hidden(id@) != final(self)@.hidden(id@)),
            prompt_taken(old(self)@, final(self)@, id@, value.deep_view()),
    {
        let ghost pre = self@;
        proof {
            law_first_prompt_taken(pre, id@, value.deep_view(), now);
        }
        let was = self.is_hidden(id);
        match self.sessions.get_mut(id) {
            Some(s) => {
                if value.is_some() {
                    s.first_prompt = value;
                }
                s.first_prompt_checked_at = Some(now);
            },
            None => {
                return false;
            },
        }
        let ghost s1 = pre.sessions[id@].prompted(value.deep_view(), now);
        proof {
            lemma_with_session_valid(pre, id@, s1);
            lemma_with_session_valid(pre, id@, SessionModel { revealed: true, ..s1 });
        }
        let hidden = self.is_hidden(id);
        if hidden && !was {
            if let Some(s) = self.sessions.get(id) {
                if s.state == State::NeedsYou {
                    if let Some(s) = self.sessions.get_mut(id) {
                        s.revealed = true;
                    }
                    self.reveal_count += 1;
                    assert(self@.sessions =~= pre.with_first_prompt(
                        id@,
                        value.deep_view(),
                        now,
                    ).sessions);
                    return false;
                }
            }
        }
        hidden != was
    }

    /// Takes in the outcome of reading a session's first prompt. Returns whether
    /// that hides the session or shows it.
    pub fn set_first_prompt(&mut self, id: &str, value: Option<String>) -> (r: bool)
        requires
            old(self).wf(),
            old(self)@.state_of(id@) == Some(State::NeedsYou) ==> old(self)@.reveal_count
                < u64::MAX,
        ensures
            final(self).wf(),
            final(self).clock() == old(self).clock(),
            exists|now: Instant|
                final(self)@ == #[trigger] old(self)@.with_first_prompt(
                    id@,
                    value.deep_view(),
                    now,
                ),
            r == (old(self)@.hidden(id@) != final(self)@.hidden(id@)),
            prompt_taken(old(self)@, final(self)@, id@, value.deep_view()),
    {
        let now = self.now();
        self.set_first_prompt_at(id, value, now)
    }
}

} // verus!
