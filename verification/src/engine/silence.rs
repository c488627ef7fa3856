//! What the engine makes of silence.
use super::{lemma_push_contains, Engine};
use crate::label::{as_text, combine_label, label_from};
use crate::model::{EngineModel, END_TOMBSTONE_SECS};
use crate::report::{first_texts, goes_stale, sweep_told, sweep_touches, SweepOutcome};
use crate::time::{Duration, Instant};
use vstd::prelude::*;

verus! {

impl Engine {
    /// Forgets the ends that lie too far back to matter.
    fn prune_ends(&mut self, now: Instant)
        requires
            old(self).sound(),
        ensures
            final(self).sound(),
            final(self).clock() == old(self).clock(),
            final(self)@ == (EngineModel { ends: old(self)@.swept(now).ends, ..old(self)@ }),
    {
        let ghost pre = self@;
        let ghost clock = self.clock();
        let mut i: usize = 0;
        while i < self.recent_ends.len()
            invariant
                self.sound(),
                self.clock() == clock,
                self@ == (EngineModel { ends: self@.ends, ..pre }),
                i <= self.recent_ends.keys().len(),
                forall|id: Seq<char>| #[trigger]
                    self@.ends.contains_key(id) ==> pre.ends.contains_key(id) && self@.ends[id]
                        == pre.ends[id],
                forall|id: Seq<char>|
                    pre.ends.contains_key(id) && !#[trigger] self@.ends.contains_key(id)
                        ==> !pre.ended_of_late(id, now),
                forall|j: int|
                    0 <= j < i ==> pre.ended_of_late(#[trigger] self.recent_ends.keys()[j], now),
            decreases self.recent_ends.keys().len() - i,
        {
            proof {
                self.recent_ends.lemma_keys();
            }
            if now.is_past(*self.recent_ends.value_at(i), Duration::from_secs(END_TOMBSTONE_SECS)) {
                self.recent_ends.remove_at(i);
            } else {
                i += 1;
            }
        }
        proof {
            self.recent_ends.lemma_keys();
            assert forall|id: Seq<char>| #[trigger] self@.ends.contains_key(id) implies pre.ended_of_late(id, now) by {
                let j = choose|j: int| 0 <= j < self.recent_ends.keys().len() && self.recent_ends.keys()[j] == id;
                assert(pre.ended_of_late(self.recent_ends.keys()[j], now));
            }
            assert(self@.ends =~= pre.swept(now).ends);
        }
    }

    /// Drops the sessions that have been silent for too long at the time `now`,
    /// and turns the others stale or back by their silence.
    pub fn sweep_at(&mut self, now: Instant) -> (out: SweepOutcome)
        requires
            old(self).wf(),
        ensures
            final(self).wf(),
            final(self).clock() == old(self).clock(),
            final(self)@ == old(self)@.swept(now),
            sweep_told(out, old(self)@, final(self)@),
    {
        let ghost pre = self@;
        let ghost clock = self.clock();
        self.prune_ends(now);
        let ghost mid = self@;
        let mut changed = false;
        let mut went_stale: Vec<(String, String)> = Vec::new();
        let mut i: usize = 0;
        proof {
            self.sessions.lemma_keys();
        }
        while i < self.sessions.len()
            invariant
                self.sound(),
                self.clock() == clock,
                mid == (EngineModel { ends: pre.swept(now).ends, ..pre }),
                self@ == (EngineModel { sessions: self@.sessions, ..mid }),
                i <= self.sessions.keys().len(),
                forall|id: Seq<char>| #[trigger] self@.sessions.contains_key(id) ==> pre.knows(id),
                forall|id: Seq<char>|
                    pre.knows(id) && !#[trigger] self@.sessions.contains_key(id)
                        ==> pre.sessions[id].idle_for(pre.drop_timeout, now),
                forall|j: int|
                    0 <= j < i ==> {
                        let id = #[trigger] self.sessions.keys()[j];
                        &&& !pre.sessions[id].idle_for(pre.drop_timeout, now)
                        &&& self@.sessions[id] == pre.sessions[id].aged(pre.stale_timeout, now)
                    },
                forall|j: int|
                    i <= j < self.sessions.keys().len() ==> self@.sessions[#[trigger] self.sessions.keys()[j]]
                        == pre.sessions[self.sessions.keys()[j]],
                changed <==> exists|id: Seq<char>| #[trigger] sweep_touches(pre, self@, id),
                first_texts(went_stale@).no_duplicates(),
                forall|id: Seq<char>| #[trigger] first_texts(went_stale@).contains(id) <==> goes_stale(pre, self@, id),
                forall|n: int|
                    0 <= n < went_stale@.len() ==> (#[trigger] went_stale@[n]).1@ == pre.label(
                        pre.sessions[went_stale@[n].0@],
                    ),
            decreases self.sessions.keys().len() - i,
        {
            let ghost before = self@;
            let ghost keys = self.sessions.keys();
            let ghost id = keys[i as int];
            proof {
                self.sessions.lemma_keys();
            }
            let s = self.sessions.value_at(i);
            if now.is_past(s.last_seen, self.drop_timeout) {
                changed = true;
                self.sessions.remove_at(i);
                proof {
                    assert(sweep_touches(pre, self@, id));
                    self.sessions.lemma_keys();
                    assert forall|x: Seq<char>|
                        #[trigger] goes_stale(pre, self@, x) <==> goes_stale(pre, before, x) by {}
                }
            } else {
                let was = s.stale;
                let s = self.sessions.value_mut_at(i);
                let gone = s.age(self.stale_timeout, now);
                proof {
                    self.sessions.lemma_keys();
                    assert forall|x: Seq<char>| x != id implies #[trigger] goes_stale(pre, self@, x)
                        == goes_stale(pre, before, x) by {}
                    assert(!goes_stale(pre, before, id));
                    assert(goes_stale(pre, self@, id) == gone);
                }
                let s = self.sessions.value_at(i);
                if s.stale != was {
                    changed = true;
                    assert(sweep_touches(pre, self@, id));
                } else {
                    assert(self@.sessions =~= before.sessions);
                }
                if gone {
                    let ghost told = first_texts(went_stale@);
                    let cwd = s.cwd.as_str();
                    let (folder, branch, _) = label_from(
                        cwd,
                        as_text(&s.name),
                        self.repo_of(cwd),
                    );
                    let label = combine_label(folder, as_text(&branch));
                    went_stale.push((self.sessions.key_at(i).clone(), label));
                    proof {
                        assert(!told.contains(id));
                        assert(first_texts(went_stale@) =~= told.push(id));
                        assert(label@ == pre.label(pre.sessions[id]));
                        assert forall|x: Seq<char>| #[trigger]
                            first_texts(went_stale@).contains(x) <==> goes_stale(pre, self@, x) by {
                            lemma_push_contains(told, id, x);
                            assert(told.contains(x) <==> goes_stale(pre, before, x));
                        }
                    }
                }
                i += 1;
            }
        }
        proof {
            self.sessions.lemma_keys();
            assert forall|id: Seq<char>| #[trigger] self@.sessions.contains_key(id) implies {
                &&& !pre.sessions[id].idle_for(pre.drop_timeout, now)
                &&& self@.sessions[id] == pre.sessions[id].aged(pre.stale_timeout, now)
            } by {
                let keys = self.sessions.keys();
                let j = choose|j: int| 0 <= j < keys.len() && keys[j] == id;
                assert(self.sessions.keys()[j] == id);
            }
            assert(self@.sessions =~= pre.swept(now).sessions);
            assert forall|id: Seq<char>| #[trigger] self@.knows(id) implies self@.sessions[id].valid() by {
                assert(pre.sessions.contains_key(id));
            }
        }
        SweepOutcome { changed, went_stale }
    }

    /// Drops the sessions that have been silent for too long, and turns the
    /// others stale or back by their silence.
    pub fn sweep(&mut self) -> (out: SweepOutcome)
        requires
            old(self).wf(),
        ensures
            final(self).wf(),
            final(self).clock() == old(self).clock(),
            exists|now: Instant| final(self)@ == #[trigger] old(self)@.swept(now),
            sweep_told(out, old(self)@, final(self)@),
    {
        let now = self.now();
        self.sweep_at(now)
    }
}

} // verus!
