//! What the engine shows, and what it hides.
use super::{hides_session, lemma_push_contains, Engine};
use crate::ignore::{meets, IgnoreRules, Matcher};
use crate::label::{as_text, combine_label, copy_text, label_from, origin_from_cwd};
use crate::model::{session_hidden, EngineModel};
use crate::report::{
    attributed, audited, audits, in_sequence, place_view, previews, shows, view_fits, viewed,
    views_told, HiddenSession, SessionView,
};
use crate::session::{Rollup, Session, SessionModel, State};
use crate::time::Instant;
use vstd::prelude::*;

verus! {

/// The rule to name for hiding a session: the first on directories that it
/// meets, else the first on prompts.
fn attribute_rule(ignore: &IgnoreRules, s: &Session) -> (r: Option<Matcher>)
    ensures
        r is Some <==> meets(ignore@, s@.cwd, s@.first_prompt),
        r matches Some(m) ==> attributed(ignore@, s@, m@),
{
    match ignore.first_cwd_match(s.cwd.as_str()) {
        Some(m) => Some(m),
        None => match &s.first_prompt {
            Some(p) => ignore.first_prompt_match(p.as_str()),
            None => None,
        },
    }
}

/// Which sessions to list.
enum Choice {
    Shown,
    Hidden,
    /// Those that are shown, but would be hidden by these rules.
    NewlyHidden(IgnoreRules),
}

impl Choice {
    spec fn picks(&self, m: EngineModel, s: SessionModel) -> bool {
        match self {
            Choice::Shown => !m.hides_session(s),
            Choice::Hidden => m.hides_session(s),
            Choice::NewlyHidden(rules) => !m.hides_session(s) && session_hidden(
                rules@,
                m.never_hide,
                s,
            ),
        }
    }
}

/// Whether one of these sessions is live and in this state.
spec fn live_among(m: EngineModel, ids: Seq<Seq<char>>, state: State) -> bool {
    exists|j: int|
        0 <= j < ids.len() && m.live(#[trigger] ids[j]) && m.sessions[ids[j]].state == state
}

proof fn lemma_live_among_push(m: EngineModel, ids: Seq<Seq<char>>, id: Seq<char>, state: State)
    ensures
        live_among(m, ids.push(id), state) == (live_among(m, ids, state) || (m.live(id)
            && m.sessions[id].state == state)),
{
    let more = ids.push(id);
    assert(more[ids.len() as int] == id);
    if live_among(m, ids, state) {
        let j = choose|j: int|
            0 <= j < ids.len() && m.live(#[trigger] ids[j]) && m.sessions[ids[j]].state == state;
        assert(more[j] == ids[j]);
    }
    if live_among(m, more, state) {
        let j = choose|j: int|
            0 <= j < more.len() && m.live(#[trigger] more[j]) && m.sessions[more[j]].state == state;
        if j < ids.len() {
            assert(ids[j] == more[j]);
        }
    }
}

proof fn lemma_live_among_all(m: EngineModel, ids: Seq<Seq<char>>, state: State)
    requires
        forall|id: Seq<char>| #[trigger] m.sessions.contains_key(id) <==> ids.contains(id),
    ensures
        live_among(m, ids, state) == m.any_live(state),
{
    if m.any_live(state) {
        let id = choose|id: Seq<char>| #[trigger] m.live(id) && m.sessions[id].state == state;
        assert(m.sessions.contains_key(id));
        let j = choose|j: int| 0 <= j < ids.len() && ids[j] == id;
        assert(m.live(ids[j]));
    }
}

proof fn lemma_insert_contains(ids: Seq<Seq<char>>, k: int, id: Seq<char>, x: Seq<char>)
    requires
        0 <= k <= ids.len(),
    ensures
        ids.insert(k, id).contains(x) <==> ids.contains(x) || x == id,
{
    let more = ids.insert(k, id);
    assert(more[k] == id);
    if ids.contains(x) {
        let n = choose|n: int| 0 <= n < ids.len() && ids[n] == x;
        assert(more[if n < k {
            n
        } else {
            n + 1
        }] == x);
    }
    if more.contains(x) && x != id {
        let n = choose|n: int| 0 <= n < more.len() && more[n] == x;
        assert(ids[if n < k {
            n
        } else {
            n - 1
        }] == x);
    }
}

proof fn lemma_insert_unique(ids: Seq<Seq<char>>, k: int, id: Seq<char>)
    requires
        0 <= k <= ids.len(),
        ids.no_duplicates(),
        !ids.contains(id),
    ensures
        ids.insert(k, id).no_duplicates(),
{
    let more = ids.insert(k, id);
    assert forall|i: int, j: int|
        0 <= i < more.len() && 0 <= j < more.len() && i != j implies more[i] != more[j] by {
        let p = if i < k {
            i
        } else {
            i - 1
        };
        let q = if j < k {
            j
        } else {
            j - 1
        };
        if i != k {
            assert(ids.contains(ids[p]));
        }
        if j != k {
            assert(ids.contains(ids[q]));
        }
    }
}

impl Engine {
    /// The sum of the live sessions: the most urgent state that one of them is in.
    pub fn rollup(&self) -> (r: Rollup)
        requires
            self.wf(),
        ensures
            r == self@.rollup(),
    {
        let ghost keys = self.sessions.keys();
        let mut working = false;
        let mut ready = false;
        let mut review = false;
        let mut i: usize = 0;
        while i < self.sessions.len()
            invariant
                self.wf(),
                keys == self.sessions.keys(),
                i <= keys.len(),
                !live_among(self@, keys.take(i as int), State::NeedsYou),
                review == live_among(self@, keys.take(i as int), State::WaitingReview),
                working == live_among(self@, keys.take(i as int), State::Working),
                ready == live_among(self@, keys.take(i as int), State::Ready),
            decreases keys.len() - i,
        {
            let ghost id = keys[i as int];
            proof {
                assert(keys.take(i + 1) =~= keys.take(i as int).push(id));
                lemma_live_among_push(self@, keys.take(i as int), id, State::NeedsYou);
                lemma_live_among_push(self@, keys.take(i as int), id, State::WaitingReview);
                lemma_live_among_push(self@, keys.take(i as int), id, State::Working);
                lemma_live_among_push(self@, keys.take(i as int), id, State::Ready);
            }
            let s = self.sessions.value_at(i);
            if !hides_session(&self.ignore, &self.never_hide, s) && !s.stale {
                match s.state {
                    State::NeedsYou => {
                        assert(self@.live(id));
                        return Rollup::Red;
                    },
                    State::WaitingReview => {
                        review = true;
                    },
                    State::Working => {
                        working = true;
                    },
                    State::Ready => {
                        ready = true;
                    },
                }
            }
            i += 1;
        }
        proof {
            self.sessions.lemma_keys();
            assert(keys.take(keys.len() as int) =~= keys);
            lemma_live_among_all(self@, keys, State::NeedsYou);
            lemma_live_among_all(self@, keys, State::WaitingReview);
            lemma_live_among_all(self@, keys, State::Working);
            lemma_live_among_all(self@, keys, State::Ready);
        }
        if review {
            Rollup::Review
        } else if working {
            Rollup::Orange
        } else if ready {
            Rollup::Green
        } else {
            Rollup::Grey
        }
    }

    /// The view of row `i` at the time `now`.
    fn view_of(&self, i: usize, now: Instant) -> (v: SessionView)
        requires
            self.sound(),
            i < self.sessions.keys().len(),
        ensures
            v.session_id@ == self.sessions.keys()[i as int],
            view_fits(v, self@, now),
    {
        let s = self.sessions.value_at(i);
        let cwd = s.cwd.as_str();
        let (folder, branch, worktree) = label_from(
            cwd,
            as_text(&s.name),
            self.repo_of(cwd),
        );
        SessionView {
            session_id: self.sessions.key_at(i).clone(),
            label: combine_label(folder.clone(), as_text(&branch)),
            folder,
            branch,
            worktree,
            origin: origin_from_cwd(cwd, self.platform),
            state: s.state,
            stale: s.stale,
            seconds_in_state: now.secs_since(s.state_since),
            subagent_count: s.subagent_count,
            subagent_seconds: match s.sub_since {
                Some(t) => now.secs_since(t),
                None => 0,
            },
            can_focus: s.terminal_pid.is_some(),
            descriptor: copy_text(&s.descriptor),
            review_when_done: s.review_when_done,
        }
    }

    /// The views of the chosen sessions at the time `now`, in their order.
    fn collect(&self, choice: &Choice, live_first: bool, now: Instant) -> (views: Vec<SessionView>)
        requires
            self.wf(),
        ensures
            views_told(
                views@,
                self@,
                now,
                |id: Seq<char>| self@.knows(id) && choice.picks(self@, self@.sessions[id]),
            ),
            in_sequence(views@, live_first),
    {
        let ghost keys = self.sessions.keys();
        proof {
            self.sessions.lemma_keys();
        }
        let mut views: Vec<SessionView> = Vec::new();
        let mut i: usize = 0;
        while i < self.sessions.len()
            invariant
                self.wf(),
                keys == self.sessions.keys(),
                keys.no_duplicates(),
                forall|id: Seq<char>| #[trigger] self@.knows(id) <==> keys.contains(id),
                i <= keys.len(),
                viewed(views@).no_duplicates(),
                forall|id: Seq<char>| #[trigger]
                    viewed(views@).contains(id) <==> keys.take(i as int).contains(id)
                        && choice.picks(self@, self@.sessions[id]),
                forall|n: int| 0 <= n < views@.len() ==> view_fits(#[trigger] views@[n], self@, now),
                in_sequence(views@, live_first),
            decreases keys.len() - i,
        {
            let ghost id = keys[i as int];
            proof {
                assert(keys.take(i + 1) =~= keys.take(i as int).push(id));
                assert(!keys.take(i as int).contains(id));
                assert forall|x: Seq<char>| #[trigger]
                    keys.take(i + 1).contains(x) <==> keys.take(i as int).contains(x) || x
                        == id by {
                    lemma_push_contains(keys.take(i as int), id, x);
                }
            }
            let s = self.sessions.value_at(i);
            let hidden = hides_session(&self.ignore, &self.never_hide, s);
            let picked = match choice {
                Choice::Shown => !hidden,
                Choice::Hidden => hidden,
                Choice::NewlyHidden(rules) => !hidden && hides_session(rules, &self.never_hide, s),
            };
            if picked {
                let ghost before = views@;
                let v = self.view_of(i, now);
                place_view(&mut views, v, live_first);
                proof {
                    let k = choose|k: int|
                        0 <= k <= before.len() && views@ == #[trigger] before.insert(k, v);
                    assert(viewed(views@) =~= viewed(before).insert(k, id));
                    assert(!viewed(before).contains(id));
                    lemma_insert_unique(viewed(before), k, id);
                    assert forall|x: Seq<char>| #[trigger]
                        viewed(views@).contains(x) <==> keys.take(i + 1).contains(x)
                            && choice.picks(self@, self@.sessions[x]) by {
                        lemma_insert_contains(viewed(before), k, id, x);
                        assert(viewed(before).contains(x) <==> keys.take(i as int).contains(x)
                            && choice.picks(self@, self@.sessions[x]));
                    }
                }
            }
            i += 1;
        }
        assert(keys.take(keys.len() as int) =~= keys);
        views
    }

    /// The shown sessions at the time `now`: live ones before stale ones, then
    /// by label, then by id.
    pub fn snapshot_at(&self, now: Instant) -> (views: Vec<SessionView>)
        requires
            self.wf(),
        ensures
            shows(views@, self@, now),
    {
        self.collect(&Choice::Shown, true, now)
    }

    /// The shown sessions: live ones before stale ones, then by label,
    /// then by id.
    pub fn snapshot(&self) -> (views: Vec<SessionView>)
        requires
            self.wf(),
        ensures
            exists|now: Instant| #[trigger] shows(views@, self@, now),
    {
        let now = self.now();
        self.snapshot_at(now)
    }

    /// The sessions, shown at the time `now`, that one rule more would hide, by
    /// label.
    pub fn preview_hidden_by_at(&self, matcher: Matcher, now: Instant) -> (views: Vec<SessionView>)
        requires
            self.wf(),
        ensures
            previews(views@, self@, matcher@, now),
    {
        let candidate = self.ignore.with(matcher);
        self.collect(&Choice::NewlyHidden(candidate), false, now)
    }

    /// The sessions, shown now, that one rule more would hide, by label.
    pub fn preview_hidden_by(&self, matcher: Matcher) -> (views: Vec<SessionView>)
        requires
            self.wf(),
        ensures
            exists|now: Instant| #[trigger] previews(views@, self@, matcher@, now),
    {
        let now = self.now();
        self.preview_hidden_by_at(matcher, now)
    }

    /// The hidden sessions at the time `now`, by label, each with the rule to
    /// name for it.
    pub fn hidden_audit_at(&self, now: Instant) -> (out: Vec<HiddenSession>)
        requires
            self.wf(),
        ensures
            audits(out@, self@, now),
    {
        let views = self.collect(&Choice::Hidden, false, now);
        let ghost all = views@;
        let mut out: Vec<HiddenSession> = Vec::new();
        proof {
            assert forall|n: int| 0 <= n < all.len() implies self@.hidden(
                (#[trigger] all[n]).session_id@,
            ) by {
                assert(viewed(all)[n] == all[n].session_id@);
                assert(viewed(all).contains(all[n].session_id@));
            }
            assert(audited(out@) =~= all.take(0));
        }
        for v in it: views
            invariant
                self.wf(),
                it.seq() == all,
                forall|n: int| 0 <= n < all.len() ==> self@.hidden((#[trigger] all[n]).session_id@),
                audited(out@) == all.take(it.index()),
                forall|i: int|
                    0 <= i < out@.len() ==> attributed(
                        self@.ignore,
                        self@.sessions[(#[trigger] out@[i]).session.session_id@],
                        out@[i].rule@,
                    ),
        {
            let ghost before = audited(out@);
            assert(v == all[it.index() as int]);
            assert(self@.hidden(v.session_id@));
            let rule = match self.sessions.get(v.session_id.as_str()) {
                Some(s) => attribute_rule(&self.ignore, s),
                None => None,
            };
            if let Some(rule) = rule {
                out.push(HiddenSession { session: v, rule });
                assert(audited(out@) =~= before.push(v));
            }
            assert(before.push(v) =~= all.take(it.index() + 1));
        }
        assert(all.take(all.len() as int) =~= all);
        out
    }

    /// The hidden sessions, by label, each with the rule to name for it.
    pub fn hidden_audit(&self) -> (out: Vec<HiddenSession>)
        requires
            self.wf(),
        ensures
            exists|now: Instant| #[trigger]
                audits(out@, self@, now),
    {
        let now = self.now();
        self.hidden_audit_at(now)
    }

    /// Whether a session is tracked and hidden.
    pub fn is_hidden(&self, id: &str) -> (r: bool)
        requires
            self.wf(),
        ensures
            r == self@.hidden(id@),
    {
        match self.sessions.get(id) {
            Some(s) => hides_session(&self.ignore, &self.never_hide, s),
            None => false,
        }
    }

    /// How many sessions are hidden.
    pub fn hidden_count(&self) -> (r: usize)
        requires
            self.wf(),
        ensures
            r == self@.hidden_ids().len(),
    {
        let ghost keys = self.sessions.keys();
        let ghost mut seen: Set<Seq<char>> = Set::empty();
        proof {
            self.sessions.lemma_keys();
        }
        let mut n: usize = 0;
        let mut i: usize = 0;
        while i < self.sessions.len()
            invariant
                self.wf(),
                keys == self.sessions.keys(),
                keys.no_duplicates(),
                i <= keys.len(),
                n <= i,
                seen.finite(),
                seen.len() == n,
                forall|id: Seq<char>| #[trigger]
                    seen.contains(id) <==> keys.take(i as int).contains(id) && self@.hidden(id),
            decreases keys.len() - i,
        {
            let ghost id = keys[i as int];
            proof {
                assert(keys.take(i + 1) =~= keys.take(i as int).push(id));
                assert(!keys.take(i as int).contains(id));
                assert forall|x: Seq<char>| #[trigger]
                    keys.take(i + 1).contains(x) <==> keys.take(i as int).contains(x) || x
                        == id by {
                    lemma_push_contains(keys.take(i as int), id, x);
                }
            }
            if hides_session(&self.ignore, &self.never_hide, self.sessions.value_at(i)) {
                n += 1;
                proof {
                    seen = seen.insert(id);
                }
            }
            i += 1;
        }
        proof {
            self.sessions.lemma_keys();
            assert(keys.take(keys.len() as int) =~= keys);
            assert(seen =~= self@.hidden_ids());
        }
        n
    }
}

} // verus!
