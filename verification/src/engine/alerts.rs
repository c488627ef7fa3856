//! Which sessions the engine wants told of again.
use super::{hides_session, lemma_push_contains, Engine};
use crate::alert::{alerts_told, request_fits, requested, AlertPolicies, AlertRequest};
use crate::label::{as_text, combine_label, copy_text, label_from};
use crate::model::EngineModel;
use crate::time::Instant;
use vstd::prelude::*;

verus! {

impl Engine {
    /// Books the alerts that are due at the time `now`, and returns them.
    pub fn due_alerts(&mut self, policies: &AlertPolicies, now: Instant) -> (out: Vec<AlertRequest>)
        requires
            old(self).wf(),
        ensures
            final(self).wf(),
            final(self).clock() == old(self).clock(),
            final(self)@ == old(self)@.alerted(*policies, now),
            alerts_told(out@, old(self)@, *policies, now),
    {
        let ghost pre = self@;
        let ghost clock = self.clock();
        let ghost keys = self.sessions.keys();
        proof {
            self.sessions.lemma_keys();
        }
        let mut out: Vec<AlertRequest> = Vec::new();
        let mut i: usize = 0;
        while i < self.sessions.len()
            invariant
                self.sound(),
                self.clock() == clock,
                pre.valid(),
                self@ == (EngineModel { sessions: self@.sessions, ..pre }),
                i <= keys.len(),
                self.sessions.keys() == keys,
                keys.no_duplicates(),
                forall|id: Seq<char>| #[trigger] pre.knows(id) <==> keys.contains(id),
                forall|id: Seq<char>| #[trigger] self@.sessions.contains_key(id) <==> keys.contains(id),
                forall|j: int|
                    0 <= j < i ==> self@.sessions[#[trigger] keys[j]] == pre.session_alerted(
                        *policies,
                        keys[j],
                        now,
                    ),
                forall|j: int|
                    i <= j < keys.len() ==> self@.sessions[#[trigger] keys[j]]
                        == pre.sessions[keys[j]],
                requested(out@).no_duplicates(),
                forall|id: Seq<char>| #[trigger]
                    requested(out@).contains(id) <==> pre.due(*policies, id, now)
                        && keys.take(i as int).contains(id),
                forall|n: int| 0 <= n < out@.len() ==> request_fits(#[trigger] out@[n], pre),
            decreases keys.len() - i,
        {
            let ghost id = keys[i as int];
            let ghost before = requested(out@);
            proof {
                assert(keys.contains(id));
                assert(keys.take(i + 1) =~= keys.take(i as int).push(id));
                assert(!keys.take(i as int).contains(id));
                assert forall|x: Seq<char>| #[trigger]
                    keys.take(i + 1).contains(x) <==> keys.take(i as int).contains(x) || x
                        == id by {
                    lemma_push_contains(keys.take(i as int), id, x);
                }
            }
            let s = self.sessions.value_at(i);
            if !s.stale && !hides_session(&self.ignore, &self.never_hide, s) {
                let policy = policies.for_state(s.state);
                let s = self.sessions.value_mut_at(i);
                let due = s.book_alert(policy, now);
                if due {
                    let s = self.sessions.value_at(i);
                    let cwd = s.cwd.as_str();
                    let (folder, branch, _) = label_from(
                        cwd,
                        as_text(&s.name),
                        self.repo_of(cwd),
                    );
                    out.push(
                        AlertRequest {
                            session_id: self.sessions.key_at(i).clone(),
                            state: s.state,
                            label: combine_label(folder.clone(), as_text(&branch)),
                            folder,
                            branch,
                            descriptor: copy_text(&s.descriptor),
                            terminal_pid: s.terminal_pid,
                        },
                    );
                    proof {
                        assert(requested(out@) =~= before.push(id));
                        assert(!before.contains(id));
                        assert forall|x: Seq<char>| #[trigger]
                            requested(out@).contains(x) <==> pre.due(*policies, x, now)
                                && keys.take(i + 1).contains(x) by {
                            lemma_push_contains(before, id, x);
                            assert(before.contains(x) <==> pre.due(*policies, x, now) && keys.take(
                                i as int,
                            ).contains(x));
                        }
                    }
                }
            }
            i += 1;
        }
        proof {
            assert(keys.take(keys.len() as int) =~= keys);
            assert forall|id: Seq<char>| #[trigger] pre.knows(id) implies self@.sessions[id]
                == pre.session_alerted(*policies, id, now) by {
                let j = choose|j: int| 0 <= j < keys.len() && keys[j] == id;
                assert(keys[j] == id);
            }
            assert(self@.sessions =~= pre.alerted(*policies, now).sessions);
        }
        out
    }
}

} // verus!
