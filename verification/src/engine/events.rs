//! What the engine makes of events.
use super::{hides_session, Engine};
use crate::event::{signal, signal_of, HookEvent, Signal};
use crate::label::{as_text, combine_label, copy_text, dir_name, dir_named, label_from};
use crate::laws::{
    is_bystander, law_event_concerns_one_session, law_event_keeps_settings,
    law_subagents_do_not_recolour, lemma_step_valid, lemma_with_session_valid, same_for,
    same_settings, unmoved,
};
use crate::model::{takes_in, END_TOMBSTONE_SECS};
use crate::report::{move_told, told, ApplyOutcome, Transition};
use crate::session::{CapturedTerminal, Session, State};
use crate::time::{Duration, Instant};
use vstd::prelude::*;

verus! {

impl Engine {
    /// Moves the event's session into `state`, bringing it up if need be.
    fn transition_to(
        &mut self,
        ev: &HookEvent,
        name: &Option<String>,
        state: State,
        now: Instant,
    ) -> (out: ApplyOutcome)
        requires
            old(self).sound(),
            state == State::NeedsYou ==> old(self)@.reveal_count < u64::MAX,
        ensures
            final(self).sound(),
            final(self).clock() == old(self).clock(),
            final(self)@ == old(self)@.enter(ev@.named(name.deep_view()), state, now),
            out.changed,
            move_told(out.transition, old(self)@, final(self)@, ev.session_id@),
    {
        let id = ev.session_id.as_str();
        self.recent_ends.remove(id);
        let remembered = match self.pending_captures.get(id) {
            Some(t) => Some(t.clone()),
            None => None,
        };
        let known = self.sessions.get(id);
        let from: Option<State> = match known {
            Some(s) => Some(s.state),
            None => None,
        };
        if from.is_some() {
            if let Some(s) = self.sessions.get_mut(id) {
                s.enter(ev, name, state, remembered, now);
            }
        } else {
            let terminal = match remembered {
                Some(t) => t,
                None => CapturedTerminal::default(),
            };
            self.sessions.insert(
                ev.session_id.clone(),
                Session::fresh(ev.cwd.clone(), copy_text(name), state, terminal, now),
            );
        }
        if state == State::NeedsYou {
            let hidden = match self.sessions.get(id) {
                Some(s) => hides_session(&self.ignore, &self.never_hide, s),
                None => false,
            };
            if hidden {
                if let Some(s) = self.sessions.get_mut(id) {
                    s.revealed = true;
                }
                self.reveal_count += 1;
            }
        }
        assert(self@.sessions =~= old(self)@.enter(
            ev@.named(name.deep_view()),
            state,
            now,
        ).sessions);
        let stayed = match from {
            Some(prev) => prev == state,
            None => false,
        };
        if stayed {
            return ApplyOutcome { changed: true, transition: None };
        }
        let transition = match self.sessions.get(id) {
            Some(s) => {
                let (folder, branch, _) = label_from(
                    s.cwd.as_str(),
                    as_text(&s.name),
                    self.repo_of(s.cwd.as_str()),
                );
                Some(
                    Transition {
                        session_id: ev.session_id.clone(),
                        label: combine_label(folder.clone(), as_text(&branch)),
                        folder,
                        branch,
                        descriptor: copy_text(&s.descriptor),
                        from,
                        to: state,
                        terminal_pid: s.terminal_pid,
                    },
                )
            },
            None => None,
        };
        ApplyOutcome { changed: true, transition }
    }

    /// Takes in a sign of life of the event's session. Brings an unknown session
    /// up as working, unless it ended of late.
    fn heartbeat(&mut self, ev: &HookEvent, name: &Option<String>, now: Instant) -> (out:
        ApplyOutcome)
        requires
            old(self).sound(),
        ensures
            final(self).sound(),
            final(self).clock() == old(self).clock(),
            final(self)@ == old(self)@.beat(ev@.named(name.deep_view()), now),
            out.changed == final(self)@.knows(ev.session_id@),
            move_told(out.transition, old(self)@, final(self)@, ev.session_id@),
    {
        let id = ev.session_id.as_str();
        if let Some(s) = self.sessions.get_mut(id) {
            s.hear(ev, name, now);
            return ApplyOutcome { changed: true, transition: None };
        }
        let ended_of_late = match self.recent_ends.get(id) {
            Some(t) => !now.is_past(*t, Duration::from_secs(END_TOMBSTONE_SECS)),
            None => false,
        };
        if ended_of_late {
            ApplyOutcome { changed: false, transition: None }
        } else {
            self.transition_to(ev, name, State::Working, now)
        }
    }

    /// Ends the turn of the event's session, or owes it to its live subagents.
    fn finish(&mut self, ev: &HookEvent, name: &Option<String>, now: Instant) -> (out:
        ApplyOutcome)
        requires
            old(self).sound(),
        ensures
            final(self).sound(),
            final(self).clock() == old(self).clock(),
            final(self)@ == old(self)@.finish(ev@.named(name.deep_view()), now),
            out.changed,
            final(self)@.knows(ev.session_id@),
            move_told(out.transition, old(self)@, final(self)@, ev.session_id@),
    {
        let id = ev.session_id.as_str();
        let mut target = State::Ready;
        let mut live = false;
        let mut blocked = false;
        if let Some(s) = self.sessions.get(id) {
            target = s.terminal_state();
            live = s.subagent_count > 0;
            blocked = s.state == State::NeedsYou;
        }
        if live {
            if let Some(s) = self.sessions.get_mut(id) {
                s.awaiting_subagents = true;
            }
            if blocked {
                return self.heartbeat(ev, name, now);
            }
            target = State::Working;
        }
        self.transition_to(ev, name, target, now)
    }

    /// Takes in an event at the time `now`, where `name` is the file name of its
    /// directory.
    #[verifier::rlimit(40)]
    pub fn apply_named_at(&mut self, ev: &HookEvent, name: &Option<String>, now: Instant) -> (out:
        ApplyOutcome)
        requires
            old(self).wf(),
            old(self)@.has_room(ev@),
            dir_named(ev.cwd@, name.deep_view()),
        ensures
            final(self).wf(),
            final(self).clock() == old(self).clock(),
            final(self)@ == old(self)@.step(ev@.named(name.deep_view()), now),
            told(out, old(self)@, final(self)@, ev@),
    {
        let id = ev.session_id.as_str();
        let ghost event = ev@.named(name.deep_view());
        proof {
            lemma_step_valid(self@, event, now);
            assert(signal(event) == signal(ev@));
        }
        match signal_of(ev) {
            Signal::Nothing => ApplyOutcome { changed: false, transition: None },
            Signal::Beat => self.heartbeat(ev, name, now),
            Signal::Start => {
                let out = self.transition_to(ev, name, State::Ready, now);
                if let Some(s) = self.sessions.get_mut(id) {
                    s.restart();
                }
                out
            },
            Signal::Enter(state) => self.transition_to(ev, name, state, now),
            Signal::Spawn => {
                let out = self.heartbeat(ev, name, now);
                if let Some(s) = self.sessions.get_mut(id) {
                    s.spawn_subagent(now);
                }
                out
            },
            Signal::Finish => self.finish(ev, name, now),
            Signal::Release => {
                let out = self.heartbeat(ev, name, now);
                let target = match self.sessions.get_mut(id) {
                    Some(s) => s.release_subagent(),
                    None => None,
                };
                match target {
                    Some(state) => self.transition_to(ev, name, state, now),
                    None => out,
                }
            },
            Signal::Terminal => {
                if !self.sessions.contains_key(id) {
                    self.sessions.insert(
                        ev.session_id.clone(),
                        Session::fresh(
                            ev.cwd.clone(),
                            copy_text(name),
                            State::Ready,
                            CapturedTerminal::default(),
                            now,
                        ),
                    );
                }
                if let Some(s) = self.sessions.get_mut(id) {
                    s.capture(ev, name, now);
                }
                assert(self@.sessions =~= old(self)@.step(
                    ev@.named(name.deep_view()),
                    now,
                ).sessions);
                ApplyOutcome { changed: true, transition: None }
            },
            Signal::End => {
                self.pending_captures.remove(id);
                self.recent_ends.insert(ev.session_id.clone(), now);
                let known = self.sessions.contains_key(id);
                self.sessions.remove(id);
                ApplyOutcome { changed: known, transition: None }
            },
        }
    }

    /// Takes in an event at the time `now`.
    pub fn apply_at(&mut self, ev: &HookEvent, now: Instant) -> (out: ApplyOutcome)
        requires
            old(self).wf(),
            old(self)@.has_room(ev@),
        ensures
            final(self).wf(),
            final(self).clock() == old(self).clock(),
            takes_in(old(self)@, final(self)@, ev@, now),
            told(out, old(self)@, final(self)@, ev@),
            forall|other: Seq<char>|
                other != ev.session_id@ ==> #[trigger] same_for(old(self)@, final(self)@, other),
            same_settings(old(self)@, final(self)@),
            is_bystander(old(self)@, ev@) ==> unmoved(
                old(self)@,
                final(self)@,
                ev.session_id@,
            ) && out.transition is None,
    {
        let ghost pre = self@;
        let name = dir_name(ev.cwd.as_str());
        let out = self.apply_named_at(ev, &name, now);
        proof {
            assert(dir_named(ev@.cwd, name.deep_view()));
            assert forall|other: Seq<char>| other != ev.session_id@ implies #[trigger] same_for(
                pre,
                self@,
                other,
            ) by {
                law_event_concerns_one_session(pre, self@, ev@, now, other);
            }
            law_event_keeps_settings(pre, self@, ev@, now);
            if is_bystander(pre, ev@) {
                law_subagents_do_not_recolour(pre, self@, ev@, now, out);
            }
        }
        out
    }

    /// Takes in an event.
    pub fn apply(&mut self, ev: &HookEvent) -> (out: ApplyOutcome)
        requires
            old(self).wf(),
            old(self)@.has_room(ev@),
        ensures
            final(self).wf(),
            final(self).clock() == old(self).clock(),
            exists|now: Instant| #[trigger] takes_in(old(self)@, final(self)@, ev@, now),
            told(out, old(self)@, final(self)@, ev@),
            forall|other: Seq<char>|
                other != ev.session_id@ ==> #[trigger] same_for(old(self)@, final(self)@, other),
            same_settings(old(self)@, final(self)@),
            is_bystander(old(self)@, ev@) ==> unmoved(
                old(self)@,
                final(self)@,
                ev.session_id@,
            ) && out.transition is None,
    {
        let now = self.now();
        self.apply_at(ev, now)
    }

    /// Sets or clears a session's review flag at the time `now`.
    pub fn set_review_flag_at(&mut self, id: &str, flag: bool, now: Instant)
        requires
            old(self).wf(),
        ensures
            final(self).wf(),
            final(self).clock() == old(self).clock(),
            final(self)@ == old(self)@.with_flag(id@, flag, now),
    {
        if let Some(s) = self.sessions.get_mut(id) {
            s.flag(flag, now);
        }
        proof {
            if old(self)@.knows(id@) {
                lemma_with_session_valid(
                    old(self)@,
                    id@,
                    old(self)@.sessions[id@].flagged(flag, now),
                );
            }
        }
    }

    /// Sets or clears a session's review flag: its next finish then waits for
    /// review. Clearing it takes a session that waits for review back to ready.
    pub fn set_review_flag(&mut self, id: &str, flag: bool)
        requires
            old(self).wf(),
        ensures
            final(self).wf(),
            final(self).clock() == old(self).clock(),
            exists|now: Instant| final(self)@ == #[trigger] old(self)@.with_flag(id@, flag, now),
    {
        let now = self.now();
        self.set_review_flag_at(id, flag, now);
    }

    /// Remembers a terminal for a session. It makes no row: it waits for an event
    /// that does.
    pub fn seed_capture(&mut self, session_id: String, cap: CapturedTerminal)
        requires
            old(self).wf(),
        ensures
            final(self).wf(),
            final(self).clock() == old(self).clock(),
            final(self)@ == old(self)@.with_capture(session_id@, cap@),
    {
        if cap.pid.is_some() {
            self.pending_captures.insert(session_id, cap);
        }
    }
}

} // verus!
