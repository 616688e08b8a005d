//! What holds of the model whatever events it is fed.

use vstd::prelude::*;
use crate::desktop::Layout;
use crate::monitor::{probed_monitor, DesktopProbe, MonitorView};
use crate::query::QueryFailure;
use crate::search::lemma_first_where;
use crate::state::StateView;

verus! {

/// The monitor after its desktops `ids` took the focus one after the other.
pub open spec fn focus_all(m: MonitorView, ids: Seq<u32>) -> MonitorView
    decreases ids.len(),
{
    if ids.len() == 0 {
        m
    } else {
        focus_all(m, ids.drop_last()).focus(ids.last())
    }
}

/// Giving a desktop the focus leaves every desktop's id as it was, so a
/// monitor whose desktops bear distinct ids stays one.
pub proof fn lemma_focus_keeps_ids(m: MonitorView, desktop_id: u32)
    requires
        m.wf(),
    ensures
        m.focus(desktop_id).wf(),
        m.focus(desktop_id).desktops.len() == m.desktops.len(),
{
}

/// After a desktop took the focus, at most one desktop of the monitor is
/// shown: the one with that id, if there is one.
pub proof fn lemma_focus_shows_one(m: MonitorView, desktop_id: u32)
    requires
        m.wf(),
    ensures
        m.focus(desktop_id).at_most_one_active(),
        forall|i: int|
            0 <= i < m.desktops.len() ==> (#[trigger] m.focus(desktop_id).desktops[i]).is_active
                == (m.desktops[i].id == desktop_id),
{
    let f = m.focus(desktop_id);
    assert forall|i: int, j: int|
        0 <= i < f.desktops.len() && 0 <= j < f.desktops.len() && (#[trigger] f.desktops[i]).is_active
            && (#[trigger] f.desktops[j]).is_active implies i == j by {
        assert(m.desktops[i].id == desktop_id);
        assert(m.desktops[j].id == desktop_id);
    }
}

/// On a monitor whose desktops bear distinct ids, at most one desktop is
/// shown after any sequence of focus changes. (After none, as many are shown
/// as were before.)
pub proof fn lemma_focus_sequence_shows_one(m: MonitorView, ids: Seq<u32>)
    requires
        m.wf(),
        ids.len() > 0 || m.at_most_one_active(),
    ensures
        focus_all(m, ids).wf(),
        focus_all(m, ids).at_most_one_active(),
    decreases ids.len(),
{
    if ids.len() > 0 {
        lemma_focus_all_keeps_ids(m, ids.drop_last());
        lemma_focus_keeps_ids(focus_all(m, ids.drop_last()), ids.last());
        lemma_focus_shows_one(focus_all(m, ids.drop_last()), ids.last());
    }
}

proof fn lemma_focus_all_keeps_ids(m: MonitorView, ids: Seq<u32>)
    requires
        m.wf(),
    ensures
        focus_all(m, ids).wf(),
    decreases ids.len(),
{
    if ids.len() > 0 {
        lemma_focus_all_keeps_ids(m, ids.drop_last());
        lemma_focus_keeps_ids(focus_all(m, ids.drop_last()), ids.last());
    }
}

/// Giving a desktop the focus does not touch what the desktops know of their
/// nodes.
pub proof fn lemma_focus_keeps_consistent(m: MonitorView, desktop_id: u32)
    requires
        m.consistent(),
    ensures
        m.focus(desktop_id).consistent(),
{
    let f = m.focus(desktop_id);
    assert forall|i: int| 0 <= i < f.desktops.len() implies (#[trigger] f.desktops[i]).consistent() by {
        assert(m.desktops[i].consistent());
    }
}

/// After a node took the focus on a desktop, that desktop has it as its
/// active node and no other desktop of the monitor has an active node or
/// shows one as fullscreen. Whatever the monitor was, it is consistent then.
pub proof fn lemma_node_focus_clears_others(
    m: MonitorView,
    desktop_id: u32,
    node_id: u32,
    fullscreen: Result<bool, QueryFailure>,
)
    ensures
        m.node_focus(desktop_id, node_id, fullscreen).consistent(),
        m.node_focus(desktop_id, node_id, fullscreen).desktops.len() == m.desktops.len(),
        forall|i: int|
            0 <= i < m.desktops.len() && m.desktops[i].id != desktop_id ==> {
                &&& (#[trigger] m.node_focus(
                    desktop_id,
                    node_id,
                    fullscreen,
                ).desktops[i]).active_node is None
                &&& !m.node_focus(desktop_id, node_id, fullscreen).desktops[i].is_active_node_fullscreen
            },
        forall|i: int|
            0 <= i < m.desktops.len() && m.desktops[i].id == desktop_id ==> {
                &&& (#[trigger] m.node_focus(desktop_id, node_id, fullscreen).desktops[i]).active_node
                    == Some(node_id)
                &&& m.node_focus(desktop_id, node_id, fullscreen).desktops[i].is_active_node_fullscreen
                    == (fullscreen == Ok::<bool, QueryFailure>(true))
            },
{
}

/// Reporting the same node focus twice, with the same outcome of the
/// fullscreen lookup, leaves the monitor as reporting it once does.
pub proof fn lemma_node_focus_idempotent(
    m: MonitorView,
    desktop_id: u32,
    node_id: u32,
    fullscreen: Result<bool, QueryFailure>,
)
    ensures
        m.node_focus(desktop_id, node_id, fullscreen).node_focus(desktop_id, node_id, fullscreen)
            == m.node_focus(desktop_id, node_id, fullscreen),
{
    let once = m.node_focus(desktop_id, node_id, fullscreen);
    let twice = once.node_focus(desktop_id, node_id, fullscreen);
    assert(twice.desktops =~= once.desktops);
}

/// A node focus leaves ids and shown desktops as they were.
pub proof fn lemma_node_focus_keeps_shape(
    m: MonitorView,
    desktop_id: u32,
    node_id: u32,
    fullscreen: Result<bool, QueryFailure>,
)
    ensures
        m.wf() ==> m.node_focus(desktop_id, node_id, fullscreen).wf(),
        m.at_most_one_active() ==> m.node_focus(
            desktop_id,
            node_id,
            fullscreen,
        ).at_most_one_active(),
{
    let f = m.node_focus(desktop_id, node_id, fullscreen);
    if m.wf() {
        assert forall|i: int, j: int|
            0 <= i < f.desktops.len() && 0 <= j < f.desktops.len() && i != j implies (
        #[trigger] f.desktops[i]).id != (#[trigger] f.desktops[j]).id by {
            assert(m.desktops[i].id != m.desktops[j].id);
        }
    }
    if m.at_most_one_active() {
        assert forall|i: int, j: int|
            0 <= i < f.desktops.len() && 0 <= j < f.desktops.len() && (
            #[trigger] f.desktops[i]).is_active && (#[trigger] f.desktops[j]).is_active implies i
            == j by {
            assert(m.desktops[i].is_active && m.desktops[j].is_active);
        }
    }
}

/// Taking the window counts afresh twice from the same replies leaves the
/// monitor as taking them once does.
pub proof fn lemma_monitor_recount_idempotent(
    m: MonitorView,
    replies: Seq<Result<Vec<u32>, QueryFailure>>,
)
    ensures
        m.recount(replies).recount(replies) == m.recount(replies),
{
    assert(m.recount(replies).recount(replies).desktops =~= m.recount(replies).desktops);
}

/// Taking every window count afresh twice in a row, with the window manager
/// answering the same both times, leaves the model as taking them once does.
pub proof fn lemma_recount_idempotent(
    s: StateView,
    replies: Seq<Vec<Result<Vec<u32>, QueryFailure>>>,
)
    ensures
        s.recount(replies).recount(replies) == s.recount(replies),
{
    let once = s.recount(replies);
    let twice = once.recount(replies);
    assert forall|i: int| 0 <= i < once.monitors.len() implies twice.monitors[i]
        == once.monitors[i] by {
        lemma_monitor_recount_idempotent(
            s.monitors[i],
            crate::state::replies_at(replies, i),
        );
    }
    assert(twice.monitors =~= once.monitors);
}

/// A recount changes window counts and nothing else.
pub proof fn lemma_monitor_recount_keeps_shape(
    m: MonitorView,
    replies: Seq<Result<Vec<u32>, QueryFailure>>,
)
    ensures
        m.recount(replies).id == m.id,
        m.recount(replies).name == m.name,
        m.recount(replies).desktops.len() == m.desktops.len(),
        m.wf() ==> m.recount(replies).wf(),
        m.at_most_one_active() ==> m.recount(replies).at_most_one_active(),
        m.consistent() ==> m.recount(replies).consistent(),
{
    let f = m.recount(replies);
    if m.wf() {
        assert forall|i: int, j: int|
            0 <= i < f.desktops.len() && 0 <= j < f.desktops.len() && i != j implies (
        #[trigger] f.desktops[i]).id != (#[trigger] f.desktops[j]).id by {
            assert(m.desktops[i].id != m.desktops[j].id);
        }
    }
    if m.at_most_one_active() {
        assert forall|i: int, j: int|
            0 <= i < f.desktops.len() && 0 <= j < f.desktops.len() && (
            #[trigger] f.desktops[i]).is_active && (#[trigger] f.desktops[j]).is_active implies i
            == j by {
            assert(m.desktops[i].is_active && m.desktops[j].is_active);
        }
    }
    if m.consistent() {
        assert forall|i: int| 0 <= i < f.desktops.len() implies (
        #[trigger] f.desktops[i]).consistent() by {
            assert(m.desktops[i].consistent());
        }
    }
}

/// Reporting a desktop's urgency leaves ids, shown desktops and what the
/// desktops know of their nodes as they were.
pub proof fn lemma_urgent_keeps_shape(m: MonitorView, desktop_id: u32, flag: bool)
    ensures
        m.urgent(desktop_id, flag).desktops.len() == m.desktops.len(),
        m.wf() ==> m.urgent(desktop_id, flag).wf(),
        m.at_most_one_active() ==> m.urgent(desktop_id, flag).at_most_one_active(),
        m.consistent() ==> m.urgent(desktop_id, flag).consistent(),
{
    lemma_first_where(m.desktops, crate::monitor::has_id(desktop_id));
    let f = m.urgent(desktop_id, flag);
    if m.wf() {
        assert forall|i: int, j: int|
            0 <= i < f.desktops.len() && 0 <= j < f.desktops.len() && i != j implies (
        #[trigger] f.desktops[i]).id != (#[trigger] f.desktops[j]).id by {
            assert(m.desktops[i].id != m.desktops[j].id);
        }
    }
    if m.at_most_one_active() {
        assert forall|i: int, j: int|
            0 <= i < f.desktops.len() && 0 <= j < f.desktops.len() && (
            #[trigger] f.desktops[i]).is_active && (#[trigger] f.desktops[j]).is_active implies i
            == j by {
            assert(m.desktops[i].is_active && m.desktops[j].is_active);
        }
    }
    if m.consistent() {
        assert forall|i: int| 0 <= i < f.desktops.len() implies (
        #[trigger] f.desktops[i]).consistent() by {
            assert(m.desktops[i].consistent());
        }
    }
}

/// Reporting a desktop's layout leaves ids, shown desktops and what the
/// desktops know of their nodes as they were.
pub proof fn lemma_layout_keeps_shape(m: MonitorView, desktop_id: u32, layout: Layout)
    ensures
        m.layout(desktop_id, layout).desktops.len() == m.desktops.len(),
        m.wf() ==> m.layout(desktop_id, layout).wf(),
        m.at_most_one_active() ==> m.layout(desktop_id, layout).at_most_one_active(),
        m.consistent() ==> m.layout(desktop_id, layout).consistent(),
{
    lemma_first_where(m.desktops, crate::monitor::has_id(desktop_id));
    let f = m.layout(desktop_id, layout);
    if m.wf() {
        assert forall|i: int, j: int|
            0 <= i < f.desktops.len() && 0 <= j < f.desktops.len() && i != j implies (
        #[trigger] f.desktops[i]).id != (#[trigger] f.desktops[j]).id by {
            assert(m.desktops[i].id != m.desktops[j].id);
        }
    }
    if m.at_most_one_active() {
        assert forall|i: int, j: int|
            0 <= i < f.desktops.len() && 0 <= j < f.desktops.len() && (
            #[trigger] f.desktops[i]).is_active && (#[trigger] f.desktops[j]).is_active implies i
            == j by {
            assert(m.desktops[i].is_active && m.desktops[j].is_active);
        }
    }
    if m.consistent() {
        assert forall|i: int| 0 <= i < f.desktops.len() implies (
        #[trigger] f.desktops[i]).consistent() by {
            assert(m.desktops[i].consistent());
        }
    }
}

/// A report that the active node of desktop `desktop_id` went fullscreen can
/// be taken at face value: the monitor has no such desktop, or the flag is
/// cleared, or that desktop has an active node.
pub open spec fn fullscreen_founded(m: MonitorView, desktop_id: u32, flag: bool) -> bool {
    match m.find(desktop_id) {
        Some(i) => flag ==> m.desktops[i].active_node is Some,
        None => true,
    }
}

/// Reporting a fullscreen state leaves ids and shown desktops as they were.
/// It leaves the monitor consistent where the report is founded.
pub proof fn lemma_fullscreen_keeps_shape(m: MonitorView, desktop_id: u32, flag: bool)
    ensures
        m.fullscreen(desktop_id, flag).desktops.len() == m.desktops.len(),
        m.wf() ==> m.fullscreen(desktop_id, flag).wf(),
        m.at_most_one_active() ==> m.fullscreen(desktop_id, flag).at_most_one_active(),
        m.consistent() && fullscreen_founded(m, desktop_id, flag) ==> m.fullscreen(
            desktop_id,
            flag,
        ).consistent(),
{
    lemma_first_where(m.desktops, crate::monitor::has_id(desktop_id));
    let f = m.fullscreen(desktop_id, flag);
    if m.wf() {
        assert forall|i: int, j: int|
            0 <= i < f.desktops.len() && 0 <= j < f.desktops.len() && i != j implies (
        #[trigger] f.desktops[i]).id != (#[trigger] f.desktops[j]).id by {
            assert(m.desktops[i].id != m.desktops[j].id);
        }
    }
    if m.at_most_one_active() {
        assert forall|i: int, j: int|
            0 <= i < f.desktops.len() && 0 <= j < f.desktops.len() && (
            #[trigger] f.desktops[i]).is_active && (#[trigger] f.desktops[j]).is_active implies i
            == j by {
            assert(m.desktops[i].is_active && m.desktops[j].is_active);
        }
    }
    if m.consistent() && fullscreen_founded(m, desktop_id, flag) {
        assert forall|i: int| 0 <= i < f.desktops.len() implies (
        #[trigger] f.desktops[i]).consistent() by {
            assert(m.desktops[i].consistent());
        }
    }
}

/// A monitor as it is first built is consistent, and where the window manager
/// gave its desktops distinct ids, at most one of them is shown.
pub proof fn lemma_probed_monitor_is_coherent(
    name: Seq<char>,
    id: Result<Vec<u32>, QueryFailure>,
    active_desktop: Result<Vec<u32>, QueryFailure>,
    probes: Seq<DesktopProbe>,
)
    requires
        probed_monitor(name, id, active_desktop, probes) is Ok,
    ensures
        probed_monitor(name, id, active_desktop, probes)->Ok_0.consistent(),
        probed_monitor(name, id, active_desktop, probes)->Ok_0.wf() ==> probed_monitor(
            name,
            id,
            active_desktop,
            probes,
        )->Ok_0.coherent(),
{
    let m = probed_monitor(name, id, active_desktop, probes)->Ok_0;
    if m.wf() {
        assert forall|i: int, j: int|
            0 <= i < m.desktops.len() && 0 <= j < m.desktops.len() && (
            #[trigger] m.desktops[i]).is_active && (#[trigger] m.desktops[j]).is_active implies i
            == j by {
            assert(m.desktops[i].id == m.desktops[j].id);
        }
    }
}

} // verus!
