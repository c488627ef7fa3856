//! The engine: the one place that knows what every session is doing.
//!
//! Sessions are keyed by their id. Events change them, silence lets them go
//! stale and then drops them, and rules hide the ones that no person drives.
use crate::event::{signal_of, Signal};
use crate::ignore::IgnoreRules;
use crate::label::{as_text, repo_view, GitInfo, Platform};
use crate::model::{session_hidden, EngineModel};
use crate::session::Session;
use crate::table::Table;
use crate::time::{Clock, Duration, Instant};
use vstd::prelude::*;

pub use crate::alert::{AlertPolicies, AlertPolicy, AlertRequest};
pub use crate::event::HookEvent;
pub use crate::label::{label_for, label_parts, label_parts_worktree, Origin};
pub use crate::report::{ApplyOutcome, HiddenSession, SessionView, SweepOutcome, Transition};
pub use crate::session::{CapturedTerminal, Rollup, State};

mod alerts;
mod events;
mod listing;
mod readings;
mod silence;

verus! {

/// What every session is doing, and what decides how it is shown.
///
/// The engine reads no disk: which repository a directory lies in is told to it
/// with `set_repo`, and what it runs on with `set_platform`. Each operation that
/// depends on the time has a variant, its name ending in `_at`, that takes it.
pub struct Engine {
    clock: Clock,
    sessions: Table<Session>,
    pending_captures: Table<CapturedTerminal>,
    recent_ends: Table<Instant>,
    stale_timeout: Duration,
    drop_timeout: Duration,
    ignore: IgnoreRules,
    never_hide: IgnoreRules,
    observe_enabled: bool,
    reveal_count: u64,
    platform: Platform,
    repos: Table<GitInfo>,
}

impl View for Engine {
    type V = EngineModel;

    closed spec fn view(&self) -> EngineModel {
        EngineModel {
            sessions: self.sessions@,
            captures: self.pending_captures@,
            ends: self.recent_ends@,
            stale_timeout: self.stale_timeout,
            drop_timeout: self.drop_timeout,
            ignore: self.ignore@,
            never_hide: self.never_hide@,
            observe_enabled: self.observe_enabled,
            reveal_count: self.reveal_count as nat,
            platform: self.platform,
            repos: self.repos@,
        }
    }
}

/// Whether rules hide a session. An allowlisted session is never hidden, nor is
/// one that was shown because it blocked.
fn hides_session(ignore: &IgnoreRules, never_hide: &IgnoreRules, s: &Session) -> (r: bool)
    ensures
        r == session_hidden(ignore@, never_hide@, s@),
{
    if never_hide.matches(s.cwd.as_str(), as_text(&s.first_prompt)) {
        return false;
    }
    if s.revealed {
        return false;
    }
    if ignore.cwd_hidden(s.cwd.as_str()) {
        return true;
    }
    match &s.first_prompt {
        Some(p) => ignore.prompt_hidden(p.as_str()),
        None => false,
    }
}

/// A sequence holds what it held before a push, and what was pushed.
proof fn lemma_push_contains(ids: Seq<Seq<char>>, id: Seq<char>, x: Seq<char>)
    ensures
        ids.push(id).contains(x) <==> ids.contains(x) || x == id,
{
    if ids.contains(x) {
        let n = choose|n: int| 0 <= n < ids.len() && ids[n] == x;
        assert(ids.push(id)[n] == x);
    }
    assert(ids.push(id)[ids.len() as int] == id);
}

impl Engine {
    /// Whether the tables are in order.
    closed spec fn sound(&self) -> bool {
        &&& self.sessions.wf()
        &&& self.pending_captures.wf()
        &&& self.recent_ends.wf()
        &&& self.repos.wf()
    }

    /// The clock that the engine reads.
    pub closed spec fn clock(&self) -> Clock {
        self.clock
    }

    /// What every engine keeps to.
    pub closed spec fn wf(&self) -> bool {
        self.sound() && self@.valid()
    }

    /// What `wf` says of the view.
    pub proof fn lemma_wf(&self)
        requires
            self.wf(),
        ensures
            self@.valid(),
    {
    }

    /// An engine that has heard of nothing and hides nothing.
    pub fn new(stale_timeout: Duration, drop_timeout: Duration) -> (r: Engine)
        ensures
            r.wf(),
            r@ == EngineModel::initial(stale_timeout, drop_timeout),
    {
        Engine {
            clock: Clock::start(),
            sessions: Table::new(),
            pending_captures: Table::new(),
            recent_ends: Table::new(),
            stale_timeout,
            drop_timeout,
            ignore: IgnoreRules::default(),
            never_hide: IgnoreRules::default(),
            observe_enabled: false,
            reveal_count: 0,
            platform: Platform::Other,
            repos: Table::new(),
        }
    }

    /// What the engine's clock shows.
    pub fn now(&self) -> (r: Instant) {
        self.clock.now()
    }

    /// The repository that a working directory is known to lie in.
    fn repo_of(&self, cwd: &str) -> (r: Option<&GitInfo>)
        requires
            self.sound(),
        ensures
            repo_view(r) == self@.repo(cwd@),
    {
        self.repos.get(cwd)
    }

    /// What is known of a session.
    pub fn session(&self, id: &str) -> (r: Option<&Session>)
        requires
            self.wf(),
        ensures
            r is Some <==> self@.knows(id@),
            r matches Some(s) ==> s@ == self@.sessions[id@],
    {
        self.sessions.get(id)
    }

    /// Whether the counters have room for an event.
    pub fn has_room(&self, ev: &HookEvent) -> (r: bool)
        requires
            self.wf(),
        ensures
            r == self@.has_room(ev@),
    {
        match signal_of(ev) {
            Signal::Spawn => match self.sessions.get(ev.session_id.as_str()) {
                Some(s) => s.subagent_count < u32::MAX,
                None => true,
            },
            Signal::Enter(state) => state != State::NeedsYou || self.reveal_count < u64::MAX,
            _ => true,
        }
    }

    /// How often a hidden session was shown because it blocked.
    pub fn reveal_count(&self) -> (r: u64)
        requires
            self.wf(),
        ensures
            r == self@.reveal_count,
    {
        self.reveal_count
    }

    /// Sets how long a silence makes a session stale, from the next sweep on.
    pub fn set_stale_timeout(&mut self, timeout: Duration)
        requires
            old(self).wf(),
        ensures
            final(self).wf(),
            final(self).clock() == old(self).clock(),
            final(self)@ == (EngineModel { stale_timeout: timeout, ..old(self)@ }),
    {
        self.stale_timeout = timeout;
    }

    /// Sets how long a silence drops a session, from the next sweep on.
    pub fn set_drop_timeout(&mut self, timeout: Duration)
        requires
            old(self).wf(),
        ensures
            final(self).wf(),
            final(self).clock() == old(self).clock(),
            final(self)@ == (EngineModel { drop_timeout: timeout, ..old(self)@ }),
    {
        self.drop_timeout = timeout;
    }

    /// Sets the rules to hide sessions by. They are in force at once. Where one
    /// is on prompts, the prompts that have not been read are due again.
    pub fn set_ignore_rules(&mut self, rules: IgnoreRules)
        requires
            old(self).wf(),
        ensures
            final(self).wf(),
            final(self).clock() == old(self).clock(),
            final(self)@ == old(self)@.with_ignore(rules@),
    {
        let ghost pre = self@;
        let recheck = rules.has_prompt_rules();
        self.ignore = rules;
        if recheck {
            let ghost mid = self@;
            let ghost keys = self.sessions.keys();
            let ghost clock = self.clock();
            proof {
                self.sessions.lemma_keys();
            }
            let mut i: usize = 0;
            while i < self.sessions.len()
                invariant
                    self.sound(),
                    self.clock() == clock,
                    mid == (EngineModel { ignore: rules@, ..pre }),
                    self@ == (EngineModel { sessions: self@.sessions, ..mid }),
                    i <= keys.len(),
                    self.sessions.keys() == keys,
                    keys.no_duplicates(),
                    forall|id: Seq<char>| #[trigger] pre.knows(id) <==> keys.contains(id),
                    forall|id: Seq<char>| #[trigger]
                        self@.sessions.contains_key(id) <==> keys.contains(id),
                    forall|j: int|
                        0 <= j < i ==> self@.sessions[#[trigger] keys[j]]
                            == pre.sessions[keys[j]].unread(),
                    forall|j: int|
                        i <= j < keys.len() ==> self@.sessions[#[trigger] keys[j]]
                            == pre.sessions[keys[j]],
                decreases keys.len() - i,
            {
                assert(keys.contains(keys[i as int]));
                let s = self.sessions.value_mut_at(i);
                if s.first_prompt.is_none() {
                    s.first_prompt_checked_at = None;
                }
                i += 1;
            }
            proof {
                assert forall|id: Seq<char>| #[trigger] pre.knows(id) implies self@.sessions[id]
                    == pre.sessions[id].unread() by {
                    let j = choose|j: int| 0 <= j < keys.len() && keys[j] == id;
                    assert(keys[j] == id);
                }
                assert(self@.sessions =~= pre.with_ignore(rules@).sessions);
            }
        }
        proof {
            assert forall|id: Seq<char>| #[trigger]
                self@.sessions.contains_key(id) implies self@.sessions[id].valid() by {
                assert(pre.sessions.contains_key(id));
            }
        }
    }

    /// Sets the rules that keep sessions from being hidden. They are in force at
    /// once.
    pub fn set_never_hide(&mut self, rules: IgnoreRules)
        requires
            old(self).wf(),
        ensures
            final(self).wf(),
            final(self).clock() == old(self).clock(),
            final(self)@ == (EngineModel { never_hide: rules@, ..old(self)@ }),
    {
        self.never_hide = rules;
    }

    /// Sets whether first prompts are wanted for observation.
    pub fn set_observe_enabled(&mut self, on: bool)
        requires
            old(self).wf(),
        ensures
            final(self).wf(),
            final(self).clock() == old(self).clock(),
            final(self)@ == (EngineModel { observe_enabled: on, ..old(self)@ }),
    {
        self.observe_enabled = on;
    }

    /// Says what the program runs on.
    pub fn set_platform(&mut self, platform: Platform)
        requires
            old(self).wf(),
        ensures
            final(self).wf(),
            final(self).clock() == old(self).clock(),
            final(self)@ == (EngineModel { platform, ..old(self)@ }),
    {
        self.platform = platform;
    }

    /// Says which repository a working directory lies in, or that it lies in none.
    pub fn set_repo(&mut self, cwd: String, repo: Option<GitInfo>)
        requires
            old(self).wf(),
        ensures
            final(self).wf(),
            final(self).clock() == old(self).clock(),
            final(self)@ == (EngineModel {
                repos: match repo {
                    Some(g) => old(self)@.repos.insert(cwd@, g@),
                    None => old(self)@.repos.remove(cwd@),
                },
                ..old(self)@
            }),
    {
        match repo {
            Some(g) => {
                self.repos.insert(cwd, g);
            },
            None => {
                self.repos.remove(cwd.as_str());
            },
        }
    }

    /// The working directories of all sessions.
    pub fn working_dirs(&self) -> (r: Vec<String>)
        requires
            self.wf(),
        ensures
            r@.len() == self@.sessions.len(),
            forall|id: Seq<char>| #[trigger]
                self@.knows(id) ==> exists|i: int|
                    0 <= i < r@.len() && (#[trigger] r@[i])@ == self@.sessions[id].cwd,
            forall|i: int| 0 <= i < r@.len() ==> self@.runs_in((#[trigger] r@[i])@),
    {
        let ghost keys = self.sessions.keys();
        let mut out: Vec<String> = Vec::new();
        let mut i: usize = 0;
        while i < self.sessions.len()
            invariant
                self.wf(),
                keys == self.sessions.keys(),
                i <= keys.len(),
                out@.len() == i,
                forall|j: int|
                    0 <= j < i ==> self@.knows(#[trigger] keys[j]) && out@[j]@
                        == self@.sessions[keys[j]].cwd,
            decreases keys.len() - i,
        {
            out.push(self.sessions.value_at(i).cwd.clone());
            i += 1;
        }
        proof {
            self.sessions.lemma_keys();
            assert forall|id: Seq<char>| #[trigger] self@.knows(id) implies exists|i: int|
                0 <= i < out@.len() && (#[trigger] out@[i])@ == self@.sessions[id].cwd by {
                let j = choose|j: int| 0 <= j < keys.len() && keys[j] == id;
                assert(self@.knows(keys[j]));
                assert(out@[j]@ == self@.sessions[id].cwd);
            }
            assert forall|i: int| 0 <= i < out@.len() implies self@.runs_in(
                (#[trigger] out@[i])@,
            ) by {
                assert(self@.knows(keys[i]));
            }
        }
        out
    }
}

} // verus!
