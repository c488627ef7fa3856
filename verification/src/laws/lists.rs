//! What is shown, in what order, and what the tray shows of it.
use super::events::{law_whereabouts_on_any_platform, rules_hide};
use super::labels::{
    law_directories_go_by_their_last_part, law_folder_and_branch, law_labels_read,
};
use super::law_event_keeps_settings;
use super::signals::speaks;
use crate::event::EventModel;
use crate::ignore::MatcherModel;
use crate::label::{origin, portable, worktree_in};
use crate::model::{takes_in, EngineModel};
use crate::report::{
    attributed, audited, audits, in_sequence, may_precede, previews, shows, view_fits, viewed,
    HiddenSession, SessionView,
};
use crate::session::{Rollup, State};
use crate::text::ordered;
use crate::time::{elapsed, Instant};
use vstd::prelude::*;

verus! {

/// A session is hidden exactly where it is tracked, the rules hide it, and it was
/// not shown for good; else it is visible, and live unless it is stale.
pub proof fn law_hidden_visible_live(m: EngineModel, id: Seq<char>)
    ensures
        ({
            let s = m.sessions[id];
            let there = m.sessions.contains_key(id);
            let kept_back = !s.revealed && rules_hide(m, s);
            &&& m.hidden(id) <==> there && kept_back
            &&& m.visible(id) <==> there && !kept_back
            &&& m.live(id) <==> there && !kept_back && !s.stale
            &&& m.hides_session(s) <==> kept_back
            &&& m.hidden_ids().contains(id) <==> there && kept_back
        }),
{
}

/// Whether a session that is neither hidden nor stale is in this state.
pub open spec fn one_is(m: EngineModel, state: State) -> bool {
    exists|id: Seq<char>| #[trigger]
        m.sessions.contains_key(id) && !m.sessions[id].stale && !m.hidden(id)
            && m.sessions[id].state == state
}

/// What the tray shows, and that it shows nothing without a cause: red exactly
/// where a live session needs the user; review exactly where none does and one
/// waits for review; orange exactly where neither and one works; green exactly
/// where none of these and one is ready; grey exactly where none is live.
pub proof fn law_tray(m: EngineModel)
    ensures
        m.rollup() == Rollup::Red <==> one_is(m, State::NeedsYou),
        m.rollup() == Rollup::Review <==> !one_is(m, State::NeedsYou) && one_is(
            m,
            State::WaitingReview,
        ),
        m.rollup() == Rollup::Orange <==> !one_is(m, State::NeedsYou) && !one_is(
            m,
            State::WaitingReview,
        ) && one_is(m, State::Working),
        m.rollup() == Rollup::Green <==> !one_is(m, State::NeedsYou) && !one_is(
            m,
            State::WaitingReview,
        ) && !one_is(m, State::Working) && one_is(m, State::Ready),
        m.rollup() == Rollup::Grey <==> !one_is(m, State::NeedsYou) && !one_is(
            m,
            State::WaitingReview,
        ) && !one_is(m, State::Working) && !one_is(m, State::Ready),
{
    lemma_one_is(m, State::NeedsYou);
    lemma_one_is(m, State::WaitingReview);
    lemma_one_is(m, State::Working);
    lemma_one_is(m, State::Ready);
}

proof fn lemma_one_is(m: EngineModel, state: State)
    ensures
        one_is(m, state) <==> m.any_live(state),
{
    if one_is(m, state) {
        let id = choose|id: Seq<char>| #[trigger]
            m.sessions.contains_key(id) && !m.sessions[id].stale && !m.hidden(id)
                && m.sessions[id].state == state;
        assert(m.live(id));
    }
    if m.any_live(state) {
        let id = choose|id: Seq<char>| #[trigger] m.live(id) && m.sessions[id].state == state;
        assert(m.sessions.contains_key(id));
    }
}

/// The tray with a single live session shows that session's state.
pub proof fn law_tray_of_one(m: EngineModel, id: Seq<char>)
    requires
        m.live(id),
        forall|x: Seq<char>| #[trigger] m.live(x) ==> x == id,
    ensures
        m.rollup() == (match m.sessions[id].state {
            State::NeedsYou => Rollup::Red,
            State::WaitingReview => Rollup::Review,
            State::Working => Rollup::Orange,
            State::Ready => Rollup::Green,
        }),
{
}

/// Whether a session has a row.
pub open spec fn has_row(views: Seq<SessionView>, id: Seq<char>) -> bool {
    exists|k: int| 0 <= k < views.len() && (#[trigger] views[k]).session_id@ == id
}

proof fn lemma_has_row(views: Seq<SessionView>, id: Seq<char>)
    ensures
        has_row(views, id) <==> viewed(views).contains(id),
{
    if has_row(views, id) {
        let k = choose|k: int| 0 <= k < views.len() && (#[trigger] views[k]).session_id@ == id;
        assert(viewed(views)[k] == id);
    }
    if viewed(views).contains(id) {
        let k = choose|k: int| 0 <= k < viewed(views).len() && viewed(views)[k] == id;
        assert(views[k].session_id@ == id);
    }
}

/// Whether a row shows its session as it is at the time `now`.
pub open spec fn row_is_true(v: SessionView, m: EngineModel, now: Instant) -> bool {
    let s = m.sessions[v.session_id@];
    &&& m.sessions.contains_key(v.session_id@)
    &&& v.state == s.state
    &&& v.stale == s.stale
    &&& v.subagent_count == s.subagent_count
    &&& v.review_when_done == s.review_when_done
    &&& v.descriptor.deep_view() == s.descriptor
    &&& v.can_focus <==> s.terminal_pid is Some
    &&& v.folder@ == m.folder(s)
    &&& v.branch.deep_view() == m.branch(s)
    &&& v.label@ == m.label(s)
    &&& v.worktree == worktree_in(m.repo(s.cwd))
    &&& v.origin == origin(s.cwd, m.platform)
    &&& v.seconds_in_state * 1_000_000_000 <= elapsed(now, s.state_since) < v.seconds_in_state
        * 1_000_000_000 + 1_000_000_000
    &&& s.sub_since is None ==> v.subagent_seconds == 0
    &&& s.sub_since is Some ==> v.subagent_seconds * 1_000_000_000 <= elapsed(now, s.sub_since->0)
        < v.subagent_seconds * 1_000_000_000 + 1_000_000_000
}

/// A snapshot has one row for each session that is not hidden, and no other; every
/// row shows its session as it is; live ones stand before stale ones, then by
/// label, those with one label by id.
pub proof fn law_snapshot(
    views: Seq<SessionView>,
    m: EngineModel,
    now: Instant,
    id: Seq<char>,
    i: int,
    j: int,
)
    requires
        shows(views, m, now),
    ensures
        has_row(views, id) <==> m.sessions.contains_key(id) && !m.hidden(id),
        0 <= i < views.len() ==> row_is_true(views[i], m, now),
        0 <= i < j < views.len() ==> {
            &&& views[i].session_id@ != views[j].session_id@
            &&& views[i].stale ==> views[j].stale
            &&& views[i].stale == views[j].stale ==> ordered(views[i].label@, views[j].label@)
            &&& views[i].stale == views[j].stale && views[i].label@ == views[j].label@ ==> ordered(
                views[i].session_id@,
                views[j].session_id@,
            )
        },
{
    lemma_has_row(views, id);
    assert(viewed(views).contains(id) <==> m.visible(id));
    if 0 <= i < views.len() {
        assert(view_fits(views[i], m, now));
        assert(viewed(views)[i] == views[i].session_id@);
        assert(viewed(views).contains(views[i].session_id@) <==> m.visible(views[i].session_id@));
    }
    if 0 <= i < j < views.len() {
        assert(viewed(views)[i] != viewed(views)[j]);
        assert(may_precede(views[i], views[j], true));
        lemma_ordered_reflexive(views[i].label@);
    }
}

proof fn lemma_ordered_reflexive(a: Seq<char>)
    ensures
        ordered(a, a),
    decreases a.len(),
{
    if a.len() > 0 {
        lemma_ordered_reflexive(a.skip(1));
    }
}

/// The row of a session goes by where its latest event was: outside any repository
/// it is labelled by the last part of that directory.
pub proof fn law_rows_follow_their_sessions(
    pre: EngineModel,
    post: EngineModel,
    ev: EventModel,
    t1: Instant,
    views: Seq<SessionView>,
    t2: Instant,
    i: int,
    parents: Seq<char>,
    word: Seq<char>,
)
    requires
        takes_in(pre, post, ev, t1),
        speaks(ev),
        ev.cwd == parents + seq!['/'] + word,
        portable(ev.cwd),
        word.len() > 0,
        !word.contains('/'),
        word != seq!['.'],
        word != seq!['.', '.'],
        !pre.repos.contains_key(ev.cwd),
        shows(views, post, t2),
        0 <= i < views.len(),
        views[i].session_id@ == ev.session_id,
    ensures
        views[i].folder@ == word,
        views[i].branch is None,
        views[i].label@ == word,
{
    law_snapshot(views, post, t2, ev.session_id, i, i);
    law_whereabouts_on_any_platform(pre, post, ev, t1);
    law_event_keeps_settings(pre, post, ev, t1);
    let s = post.sessions[ev.session_id];
    law_directories_go_by_their_last_part(parents, word, s.name);
    law_folder_and_branch(post, s);
    law_labels_read(word, word);
}

/// A preview has one row for each session that is not hidden and would be by the
/// rules with this one behind them, each as it is, by label.
pub proof fn law_preview(
    views: Seq<SessionView>,
    m: EngineModel,
    rule: MatcherModel,
    now: Instant,
    id: Seq<char>,
    i: int,
    j: int,
)
    requires
        previews(views, m, rule, now),
    ensures
        has_row(views, id) <==> m.sessions.contains_key(id) && !m.hidden(id)
            && !m.sessions[id].revealed && rules_hide(
            EngineModel { ignore: m.ignore.push(rule), ..m },
            m.sessions[id],
        ),
        0 <= i < views.len() ==> row_is_true(views[i], m, now),
        0 <= i < j < views.len() ==> {
            &&& views[i].session_id@ != views[j].session_id@
            &&& ordered(views[i].label@, views[j].label@)
        },
{
    lemma_has_row(views, id);
    assert(viewed(views).contains(id) <==> m.visible(id) && m.with_rule(rule).hidden(id));
    if 0 <= i < views.len() {
        let x = views[i].session_id@;
        assert(view_fits(views[i], m, now));
        assert(viewed(views)[i] == x);
        assert(viewed(views).contains(x) <==> m.visible(x) && m.with_rule(rule).hidden(x));
    }
    if 0 <= i < j < views.len() {
        assert(viewed(views)[i] != viewed(views)[j]);
        assert(may_precede(views[i], views[j], false));
        lemma_ordered_reflexive(views[i].label@);
    }
}

/// An audit has one entry for each hidden session, each as it is, by label, and
/// with the rule that hides it: the first on directories that it meets, and only
/// where there is none the first on prompts.
pub proof fn law_audit(
    out: Seq<HiddenSession>,
    m: EngineModel,
    now: Instant,
    id: Seq<char>,
    i: int,
    j: int,
)
    requires
        audits(out, m, now),
    ensures
        has_row(audited(out), id) <==> m.hidden(id),
        audited(out).len() == out.len(),
        0 <= i < out.len() ==> audited(out)[i] == out[i].session,
        0 <= i < out.len() ==> row_is_true(out[i].session, m, now),
        0 <= i < out.len() ==> exists|k: int| {
            let s = m.sessions[out[i].session.session_id@];
            &&& 0 <= k < m.ignore.len()
            &&& out[i].rule@ == #[trigger] m.ignore[k]
            &&& {
                ||| m.ignore[k].fires_on_cwd(s.cwd) && forall|n: int|
                    0 <= n < k ==> !(#[trigger] m.ignore[n]).fires_on_cwd(s.cwd)
                ||| s.first_prompt is Some && m.ignore[k].fires_on_prompt(s.first_prompt->0) && (
                forall|n: int|
                    0 <= n < k ==> !(#[trigger] m.ignore[n]).fires_on_prompt(s.first_prompt->0))
                    && forall|n: int|
                    0 <= n < m.ignore.len() ==> !(#[trigger] m.ignore[n]).fires_on_cwd(s.cwd)
            }
        },
        0 <= i < j < out.len() ==> {
            &&& out[i].session.session_id@ != out[j].session.session_id@
            &&& ordered(out[i].session.label@, out[j].session.label@)
        },
{
    let views = audited(out);
    lemma_has_row(views, id);
    assert(viewed(views).contains(id) <==> m.hidden(id));
    if 0 <= i < out.len() {
        let x = views[i].session_id@;
        assert(view_fits(views[i], m, now));
        assert(viewed(views)[i] == x);
        assert(viewed(views).contains(x) <==> m.hidden(x));
        assert(attributed(m.ignore, m.sessions[out[i].session.session_id@], out[i].rule@));
    }
    if 0 <= i < j < out.len() {
        assert(viewed(views)[i] != viewed(views)[j]);
        assert(in_sequence(views, false));
        assert(may_precede(views[i], views[j], false));
        lemma_ordered_reflexive(views[i].label@);
    }
}

} // verus!
