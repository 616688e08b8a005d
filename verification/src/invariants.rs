//! What holds of the model and of everything it publishes, event after event.

use vstd::prelude::*;
use crate::ingest::{
    apply, ignored, supplied_counts, supplied_fullscreen, Flag, NodeState, NoteView, Supply,
    Switch, WmEvent,
};
use crate::laws::{
    fullscreen_founded, lemma_focus_keeps_consistent, lemma_focus_keeps_ids,
    lemma_focus_shows_one, lemma_fullscreen_keeps_shape, lemma_monitor_recount_keeps_shape,
    lemma_node_focus_clears_others, lemma_node_focus_keeps_shape, lemma_urgent_keeps_shape,
};
use crate::listener::{advance, run, Input, ListenerView, Phase};
use crate::monitor::MonitorView;
use crate::query::QueryFailure;
use crate::search::lemma_first_where;
use crate::state::{monitor_has_id, replies_at, StateView};

verus! {

/// The event is of a kind that the model follows.
pub open spec fn is_tracked(event: WmEvent) -> bool {
    match event {
        WmEvent::DesktopFocus { .. } => true,
        WmEvent::NodeAdd { .. } => true,
        WmEvent::NodeRemove { .. } => true,
        WmEvent::NodeSwap { .. } => true,
        WmEvent::NodeTransfer { .. } => true,
        WmEvent::NodeFocus { .. } => true,
        WmEvent::NodeState { state, .. } => state == NodeState::Fullscreen,
        WmEvent::NodeFlag { flag, .. } => flag == Flag::Urgent,
        WmEvent::Other => false,
    }
}

/// The event does not claim a fullscreen node on a desktop that the model
/// knows to have no active node. Only the report that a node went fullscreen
/// can do so; every other event is founded.
pub open spec fn event_founded(s: StateView, event: WmEvent) -> bool {
    match event {
        WmEvent::NodeState { monitor_id, desktop_id, state: NodeState::Fullscreen, switch, .. } => {
            match s.find_by_id(monitor_id) {
                Some(i) => fullscreen_founded(s.monitors[i], desktop_id, switch == Switch::On),
                None => true,
            }
        },
        _ => true,
    }
}

/// The notification is a monitor of the model `s`, whole and as it stands
/// there.
pub open spec fn is_snapshot_of(note: NoteView, s: StateView) -> bool {
    exists|i: int| 0 <= i < s.monitors.len() && note == NoteView::Monitor(#[trigger] s.monitors[i])
}

/// Every notification in `published` is a monitor of the model `s`.
pub open spec fn all_snapshots_of(published: Seq<NoteView>, s: StateView) -> bool {
    forall|k: int| 0 <= k < published.len() ==> is_snapshot_of(#[trigger] published[k], s)
}

/// An event of a kind that the model does not follow changes nothing and
/// publishes nothing, whatever replies come with it.
pub proof fn lemma_untracked_event_is_ignored(s: StateView, event: WmEvent, supply: Supply)
    requires
        !is_tracked(event),
    ensures
        apply(s, event, supply) == ignored(s),
        apply(s, event, supply).state == s,
        apply(s, event, supply).published.len() == 0,
        apply(s, event, supply).failure is None,
{
}

/// Replacing one monitor by another that is as good keeps the model as good.
proof fn lemma_with_monitor(s: StateView, i: int, m: MonitorView)
    requires
        0 <= i < s.monitors.len(),
    ensures
        s.wf() && m.wf() ==> s.with_monitor(i, m).wf(),
        s.at_most_one_active() && m.at_most_one_active() ==> s.with_monitor(
            i,
            m,
        ).at_most_one_active(),
        s.consistent() && m.consistent() ==> s.with_monitor(i, m).consistent(),
{
    let t = s.with_monitor(i, m);
    if s.wf() && m.wf() {
        assert forall|k: int| 0 <= k < t.monitors.len() implies (#[trigger] t.monitors[k]).wf() by {
            if k != i {
                assert(s.monitors[k].wf());
            }
        }
    }
    if s.at_most_one_active() && m.at_most_one_active() {
        assert forall|k: int| 0 <= k < t.monitors.len() implies (
        #[trigger] t.monitors[k]).at_most_one_active() by {
            if k != i {
                assert(s.monitors[k].at_most_one_active());
            }
        }
    }
    if s.consistent() && m.consistent() {
        assert forall|k: int| 0 <= k < t.monitors.len() implies (
        #[trigger] t.monitors[k]).consistent() by {
            if k != i {
                assert(s.monitors[k].consistent());
            }
        }
    }
}

/// A recount of the whole model changes window counts and nothing else.
pub proof fn lemma_recount_keeps_shape(
    s: StateView,
    replies: Seq<Vec<Result<Vec<u32>, QueryFailure>>>,
)
    ensures
        s.recount(replies).monitors.len() == s.monitors.len(),
        s.wf() ==> s.recount(replies).wf(),
        s.at_most_one_active() ==> s.recount(replies).at_most_one_active(),
        s.consistent() ==> s.recount(replies).consistent(),
{
    let t = s.recount(replies);
    assert forall|k: int| 0 <= k < t.monitors.len() implies {
        &&& s.monitors[k].wf() ==> (#[trigger] t.monitors[k]).wf()
        &&& s.monitors[k].at_most_one_active() ==> t.monitors[k].at_most_one_active()
        &&& s.monitors[k].consistent() ==> t.monitors[k].consistent()
    } by {
        lemma_monitor_recount_keeps_shape(s.monitors[k], replies_at(replies, k));
    }
    if s.wf() {
        assert forall|k: int| 0 <= k < t.monitors.len() implies (#[trigger] t.monitors[k]).wf() by {
            assert(s.monitors[k].wf());
        }
    }
    if s.at_most_one_active() {
        assert forall|k: int| 0 <= k < t.monitors.len() implies (
        #[trigger] t.monitors[k]).at_most_one_active() by {
            assert(s.monitors[k].at_most_one_active());
        }
    }
    if s.consistent() {
        assert forall|k: int| 0 <= k < t.monitors.len() implies (
        #[trigger] t.monitors[k]).consistent() by {
            assert(s.monitors[k].consistent());
        }
    }
}

/// Whatever the event, the model stays as good as it was:
/// desktops keep distinct ids; at most one desktop is shown on each monitor;
/// and, where the event is founded, no desktop shows a fullscreen node without
/// having an active node.
pub proof fn lemma_event_keeps_coherence(s: StateView, event: WmEvent, supply: Supply)
    ensures
        apply(s, event, supply).state.monitors.len() == s.monitors.len(),
        s.wf() ==> apply(s, event, supply).state.wf(),
        s.wf() && s.at_most_one_active() ==> apply(s, event, supply).state.at_most_one_active(),
        s.consistent() && event_founded(s, event) ==> apply(s, event, supply).state.consistent(),
{
    match event {
        WmEvent::DesktopFocus { monitor_id, desktop_id } => {
            lemma_first_where(s.monitors, monitor_has_id(monitor_id));
            match s.find_by_id(monitor_id) {
                Some(i) => {
                    let m = s.monitors[i];
                    if s.wf() {
                        assert(m.wf());
                        lemma_focus_keeps_ids(m, desktop_id);
                        lemma_focus_shows_one(m, desktop_id);
                    }
                    if s.consistent() {
                        assert(m.consistent());
                        lemma_focus_keeps_consistent(m, desktop_id);
                    }
                    lemma_with_monitor(s, i, m.focus(desktop_id));
                },
                None => {},
            }
        },
        WmEvent::NodeFlag { monitor_id, desktop_id, flag: Flag::Urgent, switch, .. } => {
            lemma_first_where(s.monitors, monitor_has_id(monitor_id));
            match s.find_by_id(monitor_id) {
                Some(i) => {
                    let m = s.monitors[i];
                    let on = switch == Switch::On;
                    lemma_urgent_keeps_shape(m, desktop_id, on);
                    if s.wf() {
                        assert(m.wf());
                    }
                    if s.at_most_one_active() {
                        assert(m.at_most_one_active());
                    }
                    if s.consistent() {
                        assert(m.consistent());
                    }
                    lemma_with_monitor(s, i, m.urgent(desktop_id, on));
                },
                None => {},
            }
        },
        WmEvent::NodeState { monitor_id, desktop_id, state: NodeState::Fullscreen, switch, .. } => {
            lemma_first_where(s.monitors, monitor_has_id(monitor_id));
            match s.find_by_id(monitor_id) {
                Some(i) => {
                    let m = s.monitors[i];
                    let on = switch == Switch::On;
                    lemma_fullscreen_keeps_shape(m, desktop_id, on);
                    if s.wf() {
                        assert(m.wf());
                    }
                    if s.at_most_one_active() {
                        assert(m.at_most_one_active());
                    }
                    if s.consistent() {
                        assert(m.consistent());
                    }
                    lemma_with_monitor(s, i, m.fullscreen(desktop_id, on));
                },
                None => {},
            }
        },
        WmEvent::NodeFocus { monitor_id, desktop_id, node_id } => {
            lemma_first_where(s.monitors, monitor_has_id(monitor_id));
            match s.find_by_id(monitor_id) {
                Some(i) => {
                    let m = s.monitors[i];
                    let fullscreen = supplied_fullscreen(supply);
                    lemma_node_focus_keeps_shape(m, desktop_id, node_id, fullscreen);
                    lemma_node_focus_clears_others(m, desktop_id, node_id, fullscreen);
                    if s.wf() {
                        assert(m.wf());
                    }
                    if s.at_most_one_active() {
                        assert(m.at_most_one_active());
                    }
                    lemma_with_monitor(s, i, m.node_focus(desktop_id, node_id, fullscreen));
                },
                None => {},
            }
        },
        WmEvent::NodeAdd { .. } => {
            lemma_recount_keeps_shape(s, supplied_counts(supply));
        },
        WmEvent::NodeRemove { .. } => {
            lemma_recount_keeps_shape(s, supplied_counts(supply));
        },
        WmEvent::NodeSwap { .. } => {
            lemma_recount_keeps_shape(s, supplied_counts(supply));
        },
        WmEvent::NodeTransfer { .. } => {
            lemma_recount_keeps_shape(s, supplied_counts(supply));
        },
        _ => {},
    }
}

/// Every notification that an event publishes is a monitor of the model, whole
/// and as it stands once the event is taken: a consumer never sees a monitor
/// on which only part of an event has acted.
pub proof fn lemma_published_are_snapshots(s: StateView, event: WmEvent, supply: Supply)
    ensures
        all_snapshots_of(apply(s, event, supply).published, apply(s, event, supply).state),
{
    let effect = apply(s, event, supply);
    let t = s.recount(supplied_counts(supply));
    match event {
        WmEvent::DesktopFocus { monitor_id, .. } => {
            lemma_first_where(s.monitors, monitor_has_id(monitor_id));
            lemma_single_snapshot(s, event, supply, monitor_id);
        },
        WmEvent::NodeFlag { monitor_id, flag: Flag::Urgent, .. } => {
            lemma_first_where(s.monitors, monitor_has_id(monitor_id));
            lemma_single_snapshot(s, event, supply, monitor_id);
        },
        WmEvent::NodeState { monitor_id, state: NodeState::Fullscreen, .. } => {
            lemma_first_where(s.monitors, monitor_has_id(monitor_id));
            lemma_single_snapshot(s, event, supply, monitor_id);
        },
        WmEvent::NodeFocus { monitor_id, .. } => {
            lemma_first_where(s.monitors, monitor_has_id(monitor_id));
            lemma_single_snapshot(s, event, supply, monitor_id);
        },
        WmEvent::NodeAdd { monitor_id, .. } => {
            lemma_first_where(t.monitors, monitor_has_id(monitor_id));
            assert forall|k: int| 0 <= k < effect.published.len() implies is_snapshot_of(
                #[trigger] effect.published[k],
                effect.state,
            ) by {
                let i = t.find_by_id(monitor_id)->Some_0;
                assert(effect.published[k] == NoteView::Monitor(effect.state.monitors[i]));
            }
        },
        WmEvent::NodeRemove { monitor_id, .. } => {
            lemma_first_where(t.monitors, monitor_has_id(monitor_id));
            assert forall|k: int| 0 <= k < effect.published.len() implies is_snapshot_of(
                #[trigger] effect.published[k],
                effect.state,
            ) by {
                let i = t.find_by_id(monitor_id)->Some_0;
                assert(effect.published[k] == NoteView::Monitor(effect.state.monitors[i]));
            }
        },
        WmEvent::NodeSwap { src_monitor_id, dst_monitor_id, .. } => {
            lemma_pair_snapshot(s, event, supply, src_monitor_id, dst_monitor_id);
        },
        WmEvent::NodeTransfer { src_monitor_id, dst_monitor_id, .. } => {
            lemma_pair_snapshot(s, event, supply, src_monitor_id, dst_monitor_id);
        },
        _ => {},
    }
}

proof fn lemma_single_snapshot(s: StateView, event: WmEvent, supply: Supply, monitor_id: u32)
    requires
        match s.find_by_id(monitor_id) {
            Some(i) => 0 <= i < s.monitors.len() && exists|m: MonitorView|
                apply(s, event, supply) == crate::ingest::patched(s, i, m),
            None => apply(s, event, supply).published.len() == 0,
        },
    ensures
        all_snapshots_of(apply(s, event, supply).published, apply(s, event, supply).state),
{
    let effect = apply(s, event, supply);
    match s.find_by_id(monitor_id) {
        Some(i) => {
            let m = choose|m: MonitorView| effect == crate::ingest::patched(s, i, m);
            assert forall|k: int| 0 <= k < effect.published.len() implies is_snapshot_of(
                #[trigger] effect.published[k],
                effect.state,
            ) by {
                assert(effect.state.monitors[i] == m);
                assert(effect.published[k] == NoteView::Monitor(effect.state.monitors[i]));
            }
        },
        None => {},
    }
}

proof fn lemma_pair_snapshot(
    s: StateView,
    event: WmEvent,
    supply: Supply,
    src_monitor_id: u32,
    dst_monitor_id: u32,
)
    requires
        apply(s, event, supply) == crate::ingest::on_move(
            s,
            supplied_counts(supply),
            src_monitor_id,
            dst_monitor_id,
        ),
    ensures
        all_snapshots_of(apply(s, event, supply).published, apply(s, event, supply).state),
{
    let effect = apply(s, event, supply);
    let t = s.recount(supplied_counts(supply));
    lemma_first_where(t.monitors, monitor_has_id(src_monitor_id));
    lemma_first_where(t.monitors, monitor_has_id(dst_monitor_id));
    assert forall|k: int| 0 <= k < effect.published.len() implies is_snapshot_of(
        #[trigger] effect.published[k],
        effect.state,
    ) by {
        let i = t.find_by_id(src_monitor_id)->Some_0;
        if k == 0 {
            assert(effect.published[k] == NoteView::Monitor(effect.state.monitors[i]));
        } else {
            let j = t.find_by_id(dst_monitor_id)->Some_0;
            assert(effect.published[k] == NoteView::Monitor(effect.state.monitors[j]));
        }
    }
}

/// A move of a node between two known monitors publishes exactly two
/// notifications: the source monitor, then the destination monitor, both with
/// the window counts that were just taken.
pub proof fn lemma_move_publishes_both(
    s: StateView,
    replies: Seq<Vec<Result<Vec<u32>, QueryFailure>>>,
    src_monitor_id: u32,
    dst_monitor_id: u32,
)
    requires
        s.find_by_id(src_monitor_id) is Some,
        s.find_by_id(dst_monitor_id) is Some,
    ensures
        ({
            let effect = crate::ingest::on_move(s, replies, src_monitor_id, dst_monitor_id);
            let i = s.find_by_id(src_monitor_id)->Some_0;
            let j = s.find_by_id(dst_monitor_id)->Some_0;
            &&& effect.failure is None
            &&& effect.state == s.recount(replies)
            &&& effect.published == seq![
                NoteView::Monitor(s.monitors[i].recount(replies_at(replies, i))),
                NoteView::Monitor(s.monitors[j].recount(replies_at(replies, j))),
            ]
        }),
{
    let t = s.recount(replies);
    lemma_recount_keeps_ids(s, replies, src_monitor_id);
    lemma_recount_keeps_ids(s, replies, dst_monitor_id);
    lemma_first_where(s.monitors, monitor_has_id(src_monitor_id));
    lemma_first_where(s.monitors, monitor_has_id(dst_monitor_id));
}

/// A recount does not change which monitor an id stands for.
pub proof fn lemma_recount_keeps_ids(
    s: StateView,
    replies: Seq<Vec<Result<Vec<u32>, QueryFailure>>>,
    monitor_id: u32,
)
    ensures
        s.recount(replies).find_by_id(monitor_id) == s.find_by_id(monitor_id),
{
    let t = s.recount(replies);
    let p = monitor_has_id(monitor_id);
    lemma_first_where(s.monitors, p);
    assert forall|k: int| 0 <= k < s.monitors.len() implies p(#[trigger] t.monitors[k]) == p(
        s.monitors[k],
    ) by {}
    match s.find_by_id(monitor_id) {
        Some(i) => {
            assert(crate::search::is_first(t.monitors, p, i)) by {
                assert forall|j: int| 0 <= j < i implies !p(#[trigger] t.monitors[j]) by {
                    assert(!p(s.monitors[j]));
                }
            }
            crate::search::lemma_first_found(t.monitors, p, i);
        },
        None => {
            assert forall|j: int| 0 <= j < t.monitors.len() implies !p(#[trigger] t.monitors[j]) by {
                assert(!p(s.monitors[j]));
            }
            crate::search::lemma_first_absent(t.monitors, p);
        },
    }
}

/// The notification is a monitor that can be taken at face value: its
/// desktops bear distinct ids, at most one of them is shown, and none shows a
/// fullscreen node without having an active node.
pub open spec fn is_coherent_note(note: NoteView) -> bool {
    match note {
        NoteView::Monitor(m) => m.coherent(),
        _ => false,
    }
}

/// Every input of the sequence is founded when it arrives: none reports a
/// fullscreen node on a desktop that the model then knows to have no active
/// node.
pub open spec fn founded_run(l: ListenerView, inputs: Seq<Input>) -> bool
    decreases inputs.len(),
{
    if inputs.len() == 0 {
        true
    } else {
        &&& founded_run(l, inputs.drop_last())
        &&& match inputs.last() {
            Input::Event(event, _) => event_founded(run(l, inputs.drop_last()).listener.state, event),
            _ => true,
        }
    }
}

/// A model is coherent exactly if its monitors' desktops bear distinct ids, at
/// most one desktop is shown on each monitor, and no desktop shows a
/// fullscreen node without having an active node.
pub proof fn lemma_coherent_parts(s: StateView)
    ensures
        s.coherent() <==> s.wf() && s.at_most_one_active() && s.consistent(),
{
    if s.coherent() {
        assert forall|i: int| 0 <= i < s.monitors.len() implies (#[trigger] s.monitors[i]).wf() by {
            assert(s.monitors[i].coherent());
        }
        assert forall|i: int| 0 <= i < s.monitors.len() implies (
        #[trigger] s.monitors[i]).at_most_one_active() by {
            assert(s.monitors[i].coherent());
        }
        assert forall|i: int| 0 <= i < s.monitors.len() implies (
        #[trigger] s.monitors[i]).consistent() by {
            assert(s.monitors[i].coherent());
        }
    }
    if s.wf() && s.at_most_one_active() && s.consistent() {
        assert forall|i: int| 0 <= i < s.monitors.len() implies (
        #[trigger] s.monitors[i]).coherent() by {
            assert(s.monitors[i].wf());
            assert(s.monitors[i].at_most_one_active());
            assert(s.monitors[i].consistent());
        }
    }
}

/// One input to a listener over a coherent model leaves the model coherent,
/// and everything it publishes is a coherent monitor, where the input is
/// founded.
pub proof fn lemma_turn_keeps_coherence(l: ListenerView, input: Input)
    requires
        l.state.coherent(),
        input matches Input::Event(event, _) ==> event_founded(l.state, event),
    ensures
        advance(l, input).effect.state.coherent(),
        forall|k: int|
            0 <= k < advance(l, input).effect.published.len() ==> is_coherent_note(
                #[trigger] advance(l, input).effect.published[k],
            ),
{
    let turn = advance(l, input);
    lemma_coherent_parts(l.state);
    lemma_coherent_parts(turn.effect.state);
    match input {
        Input::Event(event, supply) => {
            if l.phase == Phase::Streaming {
                lemma_event_keeps_coherence(l.state, event, supply);
                lemma_published_are_snapshots(l.state, event, supply);
                assert forall|k: int| 0 <= k < turn.effect.published.len() implies is_coherent_note(
                    #[trigger] turn.effect.published[k],
                ) by {
                    assert(is_snapshot_of(turn.effect.published[k], turn.effect.state));
                    let i = choose|i: int|
                        0 <= i < turn.effect.state.monitors.len() && turn.effect.published[k]
                            == NoteView::Monitor(#[trigger] turn.effect.state.monitors[i]);
                    assert(turn.effect.state.monitors[i].coherent());
                }
            }
        },
        _ => {},
    }
}

/// However many inputs a listener over a coherent model is fed, the model
/// stays coherent and every single notification it publishes is a coherent
/// monitor: whole, with at most one desktop shown and no fullscreen node
/// without an active node. A consumer that missed any number of
/// notifications can therefore take the next one by itself.
pub proof fn lemma_run_publishes_coherent_snapshots(l: ListenerView, inputs: Seq<Input>)
    requires
        l.state.coherent(),
        founded_run(l, inputs),
    ensures
        run(l, inputs).listener.state.coherent(),
        forall|k: int|
            0 <= k < run(l, inputs).published.len() ==> is_coherent_note(
                #[trigger] run(l, inputs).published[k],
            ),
    decreases inputs.len(),
{
    if inputs.len() > 0 {
        let before = run(l, inputs.drop_last());
        lemma_run_publishes_coherent_snapshots(l, inputs.drop_last());
        lemma_turn_keeps_coherence(before.listener, inputs.last());
        let turn = advance(before.listener, inputs.last());
        let after = run(l, inputs);
        assert forall|k: int| 0 <= k < after.published.len() implies is_coherent_note(
            #[trigger] after.published[k],
        ) by {
            if k < before.published.len() {
                assert(after.published[k] == before.published[k]);
            } else {
                assert(after.published[k] == turn.effect.published[k - before.published.len()]);
            }
        }
    }
}

/// A terminated listener stays terminated: whatever it is fed, the model does
/// not change and nothing is published.
pub proof fn lemma_terminated_is_absorbing(l: ListenerView, inputs: Seq<Input>)
    requires
        l.phase == Phase::Terminated,
    ensures
        run(l, inputs).listener == l,
        run(l, inputs).published.len() == 0,
    decreases inputs.len(),
{
    if inputs.len() > 0 {
        lemma_terminated_is_absorbing(l, inputs.drop_last());
    }
}

/// A streaming listener that is handed an event of a kind that the model does
/// not follow, or something that is no event, goes on streaming with the
/// model unchanged and publishes nothing.
pub proof fn lemma_unrecognized_input_is_skipped(l: ListenerView, input: Input)
    requires
        l.phase == Phase::Streaming,
        match input {
            Input::Event(event, _) => !is_tracked(event),
            Input::Malformed => true,
            _ => false,
        },
    ensures
        advance(l, input).phase == Phase::Streaming,
        advance(l, input).effect.state == l.state,
        advance(l, input).effect.published.len() == 0,
        advance(l, input).effect.failure is None,
{
}

/// A listener that was not terminated to begin with is terminated after a
/// sequence of inputs exactly if one of them failed; and while it is not, it
/// has either yet to subscribe or is streaming.
pub proof fn lemma_failure_terminates(l: ListenerView, inputs: Seq<Input>)
    requires
        l.phase != Phase::Terminated,
    ensures
        run(l, inputs).failure is Some <==> run(l, inputs).listener.phase == Phase::Terminated,
    decreases inputs.len(),
{
    if inputs.len() > 0 {
        lemma_failure_terminates(l, inputs.drop_last());
    }
}

} // verus!
