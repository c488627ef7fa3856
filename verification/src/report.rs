//! What the engine tells of its sessions.
use crate::event::{signal, EventModel, Signal};
use crate::ignore::{first_on_cwd, first_on_prompt, hides_cwd, Matcher, MatcherModel};
use crate::label::{origin, worktree_in, Origin};
use crate::model::EngineModel;
use crate::session::{SessionModel, State};
use crate::text::{
    in_order, lemma_ordered_antisymmetric, lemma_ordered_total, lemma_ordered_transitive, ordered,
    same_text,
};
use crate::time::{elapsed_secs, Instant};
use vstd::prelude::*;

verus! {

/// A session's move from one state to another.
#[derive(Clone, Debug)]
pub struct Transition {
    pub session_id: String,
    /// `folder (branch)`, or `folder` alone.
    pub label: String,
    pub folder: String,
    pub branch: Option<String>,
    pub descriptor: Option<String>,
    /// None for a session that is new.
    pub from: Option<State>,
    pub to: State,
    pub terminal_pid: Option<i32>,
}

/// What came of one event.
pub struct ApplyOutcome {
    /// Whether the list of sessions may look different now.
    pub changed: bool,
    /// The move, when a session made one.
    pub transition: Option<Transition>,
}

/// What came of one sweep.
pub struct SweepOutcome {
    pub changed: bool,
    /// The sessions that have just gone stale: id and label.
    pub went_stale: Vec<(String, String)>,
}

/// One session as the widget shows it.
#[derive(Clone, Debug)]
pub struct SessionView {
    pub session_id: String,
    /// `folder (branch)`, or `folder` alone.
    pub label: String,
    pub folder: String,
    pub branch: Option<String>,
    /// Whether the working directory lies in a linked worktree.
    pub worktree: bool,
    pub origin: Origin,
    pub state: State,
    pub stale: bool,
    /// Whole seconds in the current state.
    pub seconds_in_state: u64,
    pub subagent_count: u32,
    /// Whole seconds since the first live subagent came, zero without any.
    pub subagent_seconds: u64,
    /// Whether the terminal that hosts the session is known.
    pub can_focus: bool,
    pub descriptor: Option<String>,
    pub review_when_done: bool,
}

/// Whether a session is in another state than before, or new.
pub open spec fn moved(pre: EngineModel, post: EngineModel, id: Seq<char>) -> bool {
    post.knows(id) && post.state_of(id) != pre.state_of(id)
}

/// Whether a transition tells of the session's move, and what is known of the
/// session now.
pub open spec fn transition_fits(
    t: Transition,
    pre: EngineModel,
    post: EngineModel,
    id: Seq<char>,
) -> bool {
    let s = post.sessions[id];
    &&& t.session_id@ == id
    &&& t.label@ == post.label(s)
    &&& t.folder@ == post.folder(s)
    &&& t.branch.deep_view() == post.branch(s)
    &&& t.descriptor.deep_view() == s.descriptor
    &&& t.from == pre.state_of(id)
    &&& t.to == s.state
    &&& t.terminal_pid == s.terminal_pid
}

/// Whether there is a transition exactly where the session moved, and it tells
/// of that move.
pub open spec fn move_told(
    transition: Option<Transition>,
    pre: EngineModel,
    post: EngineModel,
    id: Seq<char>,
) -> bool {
    match transition {
        Some(t) => moved(pre, post, id) && transition_fits(t, pre, post, id),
        None => !moved(pre, post, id),
    }
}

/// Whether `out` tells of the event that took the engine from `pre` to `post`.
/// Learning of a terminal is no move, even where it brings the session up.
pub open spec fn told(
    out: ApplyOutcome,
    pre: EngineModel,
    post: EngineModel,
    ev: EventModel,
) -> bool {
    match signal(ev) {
        Signal::Nothing => !out.changed && out.transition is None,
        Signal::End => out.changed == pre.knows(ev.session_id) && out.transition is None,
        Signal::Terminal => out.changed && out.transition is None,
        _ => {
            &&& out.changed == post.knows(ev.session_id)
            &&& move_told(out.transition, pre, post, ev.session_id)
        },
    }
}

/// Whether `ids` holds each id that is chosen, once, and no other.
pub open spec fn lists(ids: Seq<Seq<char>>, chosen: spec_fn(Seq<char>) -> bool) -> bool {
    &&& ids.no_duplicates()
    &&& forall|id: Seq<char>| #[trigger] ids.contains(id) <==> chosen(id)
}

/// Whether a sweep from `pre` to `post` dropped a session or turned it stale or
/// back.
pub open spec fn sweep_touches(pre: EngineModel, post: EngineModel, id: Seq<char>) -> bool {
    pre.knows(id) && (!post.knows(id) || post.sessions[id].stale != pre.sessions[id].stale)
}

/// Whether a session has gone stale between `pre` and `post`.
pub open spec fn goes_stale(pre: EngineModel, post: EngineModel, id: Seq<char>) -> bool {
    pre.knows(id) && post.knows(id) && post.sessions[id].stale && !pre.sessions[id].stale
}

/// The ids in a list of ids and labels.
pub open spec fn first_texts(pairs: Seq<(String, String)>) -> Seq<Seq<char>> {
    Seq::new(pairs.len(), |i: int| pairs[i].0@)
}

/// Whether `out` tells of the sweep from `pre` to `post`: whether anything
/// changed, and which sessions have gone stale, each with its label.
pub open spec fn sweep_told(out: SweepOutcome, pre: EngineModel, post: EngineModel) -> bool {
    &&& out.changed <==> exists|id: Seq<char>| #[trigger] sweep_touches(pre, post, id)
    &&& lists(first_texts(out.went_stale@), |id: Seq<char>| goes_stale(pre, post, id))
    &&& forall|i: int|
        0 <= i < out.went_stale@.len() ==> (#[trigger] out.went_stale@[i]).1@ == pre.label(
            pre.sessions[out.went_stale@[i].0@],
        )
}

/// Whether a view shows the session that it names, at the time `now`.
pub open spec fn view_fits(v: SessionView, m: EngineModel, now: Instant) -> bool {
    let s = m.sessions[v.session_id@];
    &&& v.label@ == m.label(s)
    &&& v.folder@ == m.folder(s)
    &&& v.branch.deep_view() == m.branch(s)
    &&& v.worktree == worktree_in(m.repo(s.cwd))
    &&& v.origin == origin(s.cwd, m.platform)
    &&& v.state == s.state
    &&& v.stale == s.stale
    &&& v.seconds_in_state == elapsed_secs(now, s.state_since)
    &&& v.subagent_count == s.subagent_count
    &&& v.subagent_seconds == (match s.sub_since {
        Some(t) => elapsed_secs(now, t),
        None => 0,
    })
    &&& v.can_focus == (s.terminal_pid is Some)
    &&& v.descriptor.deep_view() == s.descriptor
    &&& v.review_when_done == s.review_when_done
}

/// The sessions that views show.
pub open spec fn viewed(views: Seq<SessionView>) -> Seq<Seq<char>> {
    Seq::new(views.len(), |i: int| views[i].session_id@)
}

/// Whether the views show each chosen session, once, and no other.
pub open spec fn views_told(
    views: Seq<SessionView>,
    m: EngineModel,
    now: Instant,
    chosen: spec_fn(Seq<char>) -> bool,
) -> bool {
    &&& lists(viewed(views), chosen)
    &&& forall|i: int| 0 <= i < views.len() ==> view_fits(#[trigger] views[i], m, now)
}

/// Whether `a` may stand before `b`: by label, those with one label by id, and,
/// where live sessions come first, a live one before a stale one.
pub open spec fn may_precede(a: SessionView, b: SessionView, live_first: bool) -> bool {
    if live_first && a.stale != b.stale {
        b.stale
    } else if a.label@ != b.label@ {
        ordered(a.label@, b.label@)
    } else {
        ordered(a.session_id@, b.session_id@)
    }
}

/// Whether views stand in their order.
pub open spec fn in_sequence(views: Seq<SessionView>, live_first: bool) -> bool {
    forall|i: int, j: int| 0 <= i < j < views.len() ==> may_precede(views[i], views[j], live_first)
}

/// Whether the views are those of the shown sessions at the time `now`: live
/// ones before stale ones, then by label.
pub open spec fn shows(views: Seq<SessionView>, m: EngineModel, now: Instant) -> bool {
    &&& views_told(views, m, now, |id: Seq<char>| m.visible(id))
    &&& in_sequence(views, true)
}

/// Whether the views are those of the sessions, shown at the time `now`, that
/// `rule` would hide, by label.
pub open spec fn previews(
    views: Seq<SessionView>,
    m: EngineModel,
    rule: MatcherModel,
    now: Instant,
) -> bool {
    &&& views_told(views, m, now, |id: Seq<char>| m.visible(id) && m.with_rule(rule).hidden(id))
    &&& in_sequence(views, false)
}

/// A hidden session and the rule that hides it.
#[derive(Clone, Debug)]
pub struct HiddenSession {
    pub session: SessionView,
    /// The first rule that the session meets, rules on directories before rules
    /// on prompts.
    pub rule: Matcher,
}

/// Whether `rule` is the one to name for hiding a session: the first on
/// directories that it meets, else the first on prompts.
pub open spec fn attributed(
    rules: Seq<MatcherModel>,
    s: SessionModel,
    rule: MatcherModel,
) -> bool {
    if hides_cwd(rules, s.cwd) {
        first_on_cwd(rules, s.cwd, rule)
    } else {
        s.first_prompt matches Some(p) && first_on_prompt(rules, p, rule)
    }
}

/// The views in a list of hidden sessions.
pub open spec fn audited(out: Seq<HiddenSession>) -> Seq<SessionView> {
    Seq::new(out.len(), |i: int| out[i].session)
}

/// Whether these are the hidden sessions at the time `now`, by label, each with
/// the rule to name for it.
pub open spec fn audits(out: Seq<HiddenSession>, m: EngineModel, now: Instant) -> bool {
    &&& views_told(audited(out), m, now, |id: Seq<char>| m.hidden(id))
    &&& in_sequence(audited(out), false)
    &&& forall|i: int|
        0 <= i < out.len() ==> attributed(
            m.ignore,
            m.sessions[(#[trigger] out[i]).session.session_id@],
            out[i].rule@,
        )
}

/// Puts a view into its place among views that stand in their order.
pub(crate) fn place_view(views: &mut Vec<SessionView>, v: SessionView, live_first: bool)
    requires
        in_sequence(old(views)@, live_first),
    ensures
        in_sequence(final(views)@, live_first),
        exists|k: int|
            0 <= k <= old(views)@.len() && final(views)@ == #[trigger] old(views)@.insert(k, v),
{
    let ghost before = views@;
    let mut i: usize = 0;
    while i < views.len()
        invariant_except_break
            views@ == before,
            i <= views.len(),
            forall|j: int| 0 <= j < i ==> may_precede(before[j], v, live_first),
        ensures
            views@ == before,
            i <= views.len(),
            forall|j: int| 0 <= j < i ==> may_precede(before[j], v, live_first),
            i < views.len() ==> !may_precede(before[i as int], v, live_first),
        decreases views.len() - i,
    {
        let w = &views[i];
        let first = if live_first && w.stale != v.stale {
            v.stale
        } else if !same_text(w.label.as_str(), v.label.as_str()) {
            in_order(w.label.as_str(), v.label.as_str())
        } else {
            in_order(w.session_id.as_str(), v.session_id.as_str())
        };
        if !first {
            break;
        }
        i += 1;
    }
    views.insert(i, v);
    proof {
        assert(views@ == before.insert(i as int, v));
        assert forall|a: int, b: int| 0 <= a < b < views@.len() implies may_precede(
            views@[a],
            views@[b],
            live_first,
        ) by {
            if a == i {
                lemma_precedes_either(before[i as int], v, live_first);
                if b > i + 1 {
                    lemma_precedes_chain(v, before[i as int], before[b - 1], live_first);
                }
            }
        }
    }
}

proof fn lemma_precedes_either(a: SessionView, b: SessionView, live_first: bool)
    ensures
        may_precede(a, b, live_first) || may_precede(b, a, live_first),
{
    lemma_ordered_total(a.label@, b.label@);
    lemma_ordered_total(a.session_id@, b.session_id@);
}

proof fn lemma_precedes_chain(a: SessionView, b: SessionView, c: SessionView, live_first: bool)
    requires
        may_precede(a, b, live_first),
        may_precede(b, c, live_first),
    ensures
        may_precede(a, c, live_first),
{
    if !live_first || (a.stale == b.stale && b.stale == c.stale) {
        if a.label@ == b.label@ && b.label@ == c.label@ {
            lemma_ordered_transitive(a.session_id@, b.session_id@, c.session_id@);
        } else if a.label@ != b.label@ && b.label@ != c.label@ {
            lemma_ordered_transitive(a.label@, b.label@, c.label@);
            if a.label@ == c.label@ {
                lemma_ordered_antisymmetric(a.label@, b.label@);
            }
        }
    }
}

} // verus!
