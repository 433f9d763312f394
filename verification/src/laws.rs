//! The laws the adapter's protocol obeys, stated and proved over its
//! abstract state.

use vstd::prelude::*;

use crate::adapter::AdapterView;
use crate::adapter::build_ui_transition;
use crate::adapter::deliver_transition;
use crate::adapter::init_state;
use crate::adapter::record_transition;
use crate::adapter::render_transition;
use crate::events::Event;
use crate::events::Submission;

verus! {

/// The state after the toolkit receives a whole sequence of events, one
/// handler call each, oldest first.
pub open spec fn deliver_all(s: AdapterView, evs: Seq<Event>) -> AdapterView
    decreases evs.len(),
{
    if evs.len() == 0 {
        s
    } else {
        deliver_all(deliver_transition(s, evs[0]), evs.subrange(1, evs.len() as int))
    }
}

/// Forwarding a sequence of events hands the toolkit each event exactly
/// once, with its fields unchanged, in the order the host delivered them,
/// and touches nothing else in the adapter's state.
pub proof fn lemma_forwarding_keeps_events_and_order(s: AdapterView, evs: Seq<Event>)
    ensures
        deliver_all(s, evs).delivered == s.delivered + evs,
        deliver_all(s, evs).pending == s.pending,
        deliver_all(s, evs).ui_built == s.ui_built,
        deliver_all(s, evs).submissions == s.submissions,
    decreases evs.len(),
{
    if evs.len() == 0 {
        assert(s.delivered + evs =~= s.delivered);
    } else {
        let s1 = deliver_transition(s, evs[0]);
        let rest = evs.subrange(1, evs.len() as int);
        lemma_forwarding_keeps_events_and_order(s1, rest);
        assert(s1.delivered + rest =~= s.delivered + evs);
    }
}

/// A UI build delivers to the toolkit exactly the events the host buffered:
/// what was already delivered stays in place, and each buffered event is
/// appended exactly once, unchanged, in the order the host recorded it.
pub proof fn lemma_build_ui_delivers_each_buffered_event_once(s: AdapterView)
    ensures
        build_ui_transition(s).delivered.len() == s.delivered.len() + s.pending.len(),
        forall|i: int|
            0 <= i < s.delivered.len() ==> build_ui_transition(s).delivered[i]
                == s.delivered[i],
        forall|i: int|
            0 <= i < s.pending.len() ==> build_ui_transition(s).delivered[
                s.delivered.len() + i
            ] == s.pending[i],
        build_ui_transition(s).pending == Seq::<Event>::empty(),
{
}

/// A UI build replays the buffer through the ordinary event handlers: it
/// leaves the toolkit with exactly the events that delivering each buffered
/// event in turn would.
pub proof fn lemma_build_ui_replays_pending(s: AdapterView)
    ensures
        build_ui_transition(s).delivered == deliver_all(s, s.pending).delivered,
{
    lemma_forwarding_keeps_events_and_order(s, s.pending);
}

/// A second UI build before any new event arrives is permitted and delivers
/// nothing: the buffer was emptied by the first, so no event reaches the
/// toolkit twice.
pub proof fn lemma_second_build_ui_delivers_nothing(s: AdapterView)
    ensures
        build_ui_transition(build_ui_transition(s)) == build_ui_transition(s),
{
    assert(build_ui_transition(build_ui_transition(s)) =~= build_ui_transition(s));
}

/// A render in a frame that built no UI still flushes the host's queued
/// primitives before the toolkit renders, delivers no event, and drops none
/// of the host's buffered events.
pub proof fn lemma_render_without_ui_still_flushes_host(s: AdapterView)
    requires
        !s.ui_built,
    ensures
        render_transition(s).submissions == s.submissions.push(Submission::HostFlush).push(
            Submission::ToolkitRender,
        ),
        render_transition(s).delivered == s.delivered,
        render_transition(s).pending == s.pending,
{
}

/// The shape of a submission log the adapter can produce: renders only, each
/// submitting exactly one flush of the host's primitives immediately
/// followed by exactly one render of the toolkit's.
pub open spec fn submissions_well_formed(log: Seq<Submission>) -> bool {
    &&& log.len() % 2 == 0
    &&& forall|i: int| 0 <= i < log.len() && i % 2 == 0 ==> log[i] == Submission::HostFlush
    &&& forall|i: int| 0 <= i < log.len() && i % 2 == 1 ==> log[i] == Submission::ToolkitRender
}

/// A fresh adapter's submission log is well formed and every transition
/// keeps it so: in every frame the host's primitives are flushed exactly
/// once before the toolkit's are rendered exactly once, so no host
/// primitive is lost under the UI layer.
pub proof fn lemma_submission_log_stays_well_formed(s: AdapterView, e: Event)
    requires
        submissions_well_formed(s.submissions),
    ensures
        submissions_well_formed(init_state().submissions),
        submissions_well_formed(record_transition(s, e).submissions),
        submissions_well_formed(deliver_transition(s, e).submissions),
        submissions_well_formed(build_ui_transition(s).submissions),
        submissions_well_formed(render_transition(s).submissions),
{
    let r = render_transition(s).submissions;
    assert forall|i: int| 0 <= i < r.len() && i % 2 == 0 implies r[i] == Submission::HostFlush by {
        if i < s.submissions.len() {
            assert(r[i] == s.submissions[i]);
        }
    }
    assert forall|i: int| 0 <= i < r.len() && i % 2 == 1 implies r[i]
        == Submission::ToolkitRender by {
        if i < s.submissions.len() {
            assert(r[i] == s.submissions[i]);
        }
    }
}

} // verus!
