//! Keeping the model in step with the window manager's events.
//!
//! Each event is classified and changes the model in one of two ways. An event
//! that says which desktop changed patches that desktop. An event that moves
//! nodes about says too little for that, so every window count is taken
//! afresh. After the change the affected monitors are published, each as a
//! whole: a consumer that misses a notification still gets a complete monitor
//! with the next one.

use vstd::prelude::*;
use crate::error::SyncError;
use crate::monitor::{window_query, MonitorState, MonitorView};
use crate::query::{
    fullscreen_selector, Query, QueryFailure, QueryTarget, QueryView,
};
use crate::state::{BspwmState, StateView};
use crate::text::decimal;

verus! {

/// A flag that a node can carry.
#[derive(Debug, Clone, Copy, PartialEq, Eq, Structural)]
pub enum Flag {
    Hidden,
    Sticky,
    Private,
    Locked,
    Marked,
    Urgent,
}

/// A state that a node can be in.
#[derive(Debug, Clone, Copy, PartialEq, Eq, Structural)]
pub enum NodeState {
    Tiled,
    PseudoTiled,
    Floating,
    Fullscreen,
}

/// Whether a flag or state was set or cleared.
#[derive(Debug, Clone, Copy, PartialEq, Eq, Structural)]
pub enum Switch {
    On,
    Off,
}

/// The kinds of event that the model asks the window manager for.
#[derive(Debug, Clone, Copy, PartialEq, Eq, Structural)]
pub enum Subscription {
    DesktopFocus,
    NodeAdd,
    NodeRemove,
    NodeFocus,
    NodeState,
    NodeFlag,
    NodeSwap,
    NodeTransfer,
}

/// An event of the window manager.
#[derive(Debug, Clone, Copy, PartialEq, Eq, Structural)]
pub enum WmEvent {
    DesktopFocus { monitor_id: u32, desktop_id: u32 },
    NodeAdd { monitor_id: u32, desktop_id: u32, node_id: u32 },
    NodeRemove { monitor_id: u32, desktop_id: u32, node_id: u32 },
    NodeSwap {
        src_monitor_id: u32,
        src_desktop_id: u32,
        src_node_id: u32,
        dst_monitor_id: u32,
        dst_desktop_id: u32,
        dst_node_id: u32,
    },
    NodeTransfer {
        src_monitor_id: u32,
        src_desktop_id: u32,
        src_node_id: u32,
        dst_monitor_id: u32,
        dst_desktop_id: u32,
        dst_node_id: u32,
    },
    NodeFocus { monitor_id: u32, desktop_id: u32, node_id: u32 },
    NodeState { monitor_id: u32, desktop_id: u32, node_id: u32, state: NodeState, switch: Switch },
    NodeFlag { monitor_id: u32, desktop_id: u32, node_id: u32, flag: Flag, switch: Switch },
    /// Any event of a kind that the model does not follow.
    Other,
}

/// What is sent to the consumers of the model.
#[derive(Debug, PartialEq, Eq)]
pub enum SystemEvent {
    Tick,
    SlowTick,
    /// A monitor changed; this is the whole of it after the change.
    DesktopStateUpdateNew(MonitorState),
}

/// The mathematical content of a [`SystemEvent`].
pub enum NoteView {
    Tick,
    SlowTick,
    Monitor(MonitorView),
}

impl View for SystemEvent {
    type V = NoteView;

    open spec fn view(&self) -> NoteView {
        match *self {
            SystemEvent::Tick => NoteView::Tick,
            SystemEvent::SlowTick => NoteView::SlowTick,
            SystemEvent::DesktopStateUpdateNew(m) => NoteView::Monitor(m@),
        }
    }
}

impl Clone for SystemEvent {
    fn clone(&self) -> (r: Self)
        ensures
            r@ == self@,
    {
        match self {
            SystemEvent::Tick => SystemEvent::Tick,
            SystemEvent::SlowTick => SystemEvent::SlowTick,
            SystemEvent::DesktopStateUpdateNew(m) => SystemEvent::DesktopStateUpdateNew(m.clone()),
        }
    }
}

/// The contents of a list of notifications.
pub open spec fn note_views(notes: Seq<SystemEvent>) -> Seq<NoteView> {
    notes.map_values(|n: SystemEvent| n@)
}

/// What an event needs from the query interface before the model can take it.
#[derive(Debug, Clone, PartialEq, Eq)]
pub enum Demand {
    Nothing,
    /// One lookup of a node's fullscreen state.
    Fullscreen(Query),
    /// One window query for each desktop of each monitor.
    WindowCounts(Vec<Vec<Query>>),
}

/// The mathematical content of a [`Demand`].
pub enum DemandView {
    Nothing,
    Fullscreen(QueryView),
    WindowCounts(Seq<Seq<QueryView>>),
}

/// The contents of the window queries of a demand.
pub open spec fn query_views(queries: Seq<Vec<Query>>) -> Seq<Seq<QueryView>> {
    Seq::new(queries.len(), |i: int| Seq::new(queries[i]@.len(), |j: int| queries[i]@[j]@))
}

impl View for Demand {
    type V = DemandView;

    open spec fn view(&self) -> DemandView {
        match *self {
            Demand::Nothing => DemandView::Nothing,
            Demand::Fullscreen(q) => DemandView::Fullscreen(q@),
            Demand::WindowCounts(v) => DemandView::WindowCounts(query_views(v@)),
        }
    }
}

/// The replies that come with an event: the answer to its [`Demand`].
#[derive(Debug, PartialEq, Eq)]
pub enum Supply {
    Nothing,
    Fullscreen(Result<Vec<u32>, QueryFailure>),
    WindowCounts(Vec<Vec<Result<Vec<u32>, QueryFailure>>>),
}

/// What taking an event did: the notifications to publish, in order, and the
/// failure that ended the handling of the event, if one did.
#[derive(Debug, PartialEq, Eq)]
pub struct Outcome {
    pub published: Vec<SystemEvent>,
    pub failure: Option<SyncError>,
}

/// What taking an event does to the model.
pub struct Effect {
    pub state: StateView,
    pub published: Seq<NoteView>,
    pub failure: Option<SyncError>,
}

/// The lookup of the fullscreen state of node `node_id` on desktop
/// `desktop_id`.
pub open spec fn fullscreen_query(node_id: u32, desktop_id: u32) -> QueryView {
    QueryView {
        target: QueryTarget::Nodes,
        reference: Some(decimal(node_id as nat)),
        monitor: None,
        desktop: Some(decimal(desktop_id as nat)),
        node: Some(fullscreen_selector()),
    }
}

/// The window queries for every desktop of every monitor.
pub open spec fn window_queries(s: StateView) -> Seq<Seq<QueryView>> {
    Seq::new(
        s.monitors.len(),
        |i: int|
            Seq::new(
                s.monitors[i].desktops.len(),
                |j: int| window_query(s.monitors[i].desktops[j].name),
            ),
    )
}

/// What an event needs from the query interface.
///
/// A node that takes the focus on a known desktop needs the lookup of its
/// fullscreen state. An event that adds, removes, swaps or transfers nodes
/// needs every window count. Any other event needs nothing.
pub open spec fn demanded(s: StateView, event: WmEvent) -> DemandView {
    match event {
        WmEvent::NodeFocus { monitor_id, desktop_id, node_id } => match s.find_by_id(monitor_id) {
            Some(i) => match s.monitors[i].find(desktop_id) {
                Some(_) => DemandView::Fullscreen(fullscreen_query(node_id, desktop_id)),
                None => DemandView::Nothing,
            },
            None => DemandView::Nothing,
        },
        WmEvent::NodeAdd { .. } => DemandView::WindowCounts(window_queries(s)),
        WmEvent::NodeRemove { .. } => DemandView::WindowCounts(window_queries(s)),
        WmEvent::NodeSwap { .. } => DemandView::WindowCounts(window_queries(s)),
        WmEvent::NodeTransfer { .. } => DemandView::WindowCounts(window_queries(s)),
        _ => DemandView::Nothing,
    }
}

/// What the fullscreen lookup that came with an event says. Where none came,
/// the lookup counts as failed.
pub open spec fn supplied_fullscreen(supply: Supply) -> Result<bool, QueryFailure> {
    match supply {
        Supply::Fullscreen(Ok(ids)) => Ok(ids@.len() > 0),
        Supply::Fullscreen(Err(e)) => Err(e),
        _ => Err(QueryFailure::Unreachable),
    }
}

/// The window replies that came with an event; none where none came.
pub open spec fn supplied_counts(supply: Supply) -> Seq<Vec<Result<Vec<u32>, QueryFailure>>> {
    match supply {
        Supply::WindowCounts(v) => v@,
        _ => Seq::empty(),
    }
}

/// Nothing happens.
pub open spec fn ignored(s: StateView) -> Effect {
    Effect { state: s, published: Seq::empty(), failure: None }
}

/// The event names a monitor that the model does not know: handling it fails
/// with the model as it stands.
pub open spec fn unknown_monitor(s: StateView) -> Effect {
    Effect { state: s, published: Seq::empty(), failure: Some(SyncError::LookupNotFound) }
}

/// The monitor at position `i` becomes `m` and is published.
pub open spec fn patched(s: StateView, i: int, m: MonitorView) -> Effect {
    Effect { state: s.with_monitor(i, m), published: seq![NoteView::Monitor(m)], failure: None }
}

/// A desktop took the focus on its monitor.
pub open spec fn on_desktop_focus(s: StateView, monitor_id: u32, desktop_id: u32) -> Effect {
    match s.find_by_id(monitor_id) {
        Some(i) => patched(s, i, s.monitors[i].focus(desktop_id)),
        None => unknown_monitor(s),
    }
}

/// The urgency of a desktop was reported.
pub open spec fn on_urgent(s: StateView, monitor_id: u32, desktop_id: u32, flag: bool) -> Effect {
    match s.find_by_id(monitor_id) {
        Some(i) => patched(s, i, s.monitors[i].urgent(desktop_id, flag)),
        None => unknown_monitor(s),
    }
}

/// The fullscreen state of a node on a desktop was reported.
pub open spec fn on_fullscreen(
    s: StateView,
    monitor_id: u32,
    desktop_id: u32,
    flag: bool,
) -> Effect {
    match s.find_by_id(monitor_id) {
        Some(i) => patched(s, i, s.monitors[i].fullscreen(desktop_id, flag)),
        None => unknown_monitor(s),
    }
}

/// A node took the focus on a desktop.
pub open spec fn on_node_focus(
    s: StateView,
    monitor_id: u32,
    desktop_id: u32,
    node_id: u32,
    fullscreen: Result<bool, QueryFailure>,
) -> Effect {
    match s.find_by_id(monitor_id) {
        Some(i) => patched(s, i, s.monitors[i].node_focus(desktop_id, node_id, fullscreen)),
        None => unknown_monitor(s),
    }
}

/// A node was added to or removed from a desktop of the monitor
/// `monitor_id`: every window count is taken afresh, then that monitor is
/// published.
pub open spec fn on_membership(
    s: StateView,
    replies: Seq<Vec<Result<Vec<u32>, QueryFailure>>>,
    monitor_id: u32,
) -> Effect {
    let t = s.recount(replies);
    match t.find_by_id(monitor_id) {
        Some(i) => Effect {
            state: t,
            published: seq![NoteView::Monitor(t.monitors[i])],
            failure: None,
        },
        None => unknown_monitor(t),
    }
}

/// A node moved from the monitor `src_monitor_id` to the monitor
/// `dst_monitor_id`, or was swapped with one there: every window count is
/// taken afresh, then the source monitor is published, then the destination
/// monitor. An unknown monitor ends the handling where it is looked up.
pub open spec fn on_move(
    s: StateView,
    replies: Seq<Vec<Result<Vec<u32>, QueryFailure>>>,
    src_monitor_id: u32,
    dst_monitor_id: u32,
) -> Effect {
    let t = s.recount(replies);
    match t.find_by_id(src_monitor_id) {
        None => unknown_monitor(t),
        Some(i) => match t.find_by_id(dst_monitor_id) {
            None => Effect {
                state: t,
                published: seq![NoteView::Monitor(t.monitors[i])],
                failure: Some(SyncError::LookupNotFound),
            },
            Some(j) => Effect {
                state: t,
                published: seq![NoteView::Monitor(t.monitors[i]), NoteView::Monitor(t.monitors[j])],
                failure: None,
            },
        },
    }
}

/// What an event does to the model, given the replies that came with it.
pub open spec fn apply(s: StateView, event: WmEvent, supply: Supply) -> Effect {
    match event {
        WmEvent::DesktopFocus { monitor_id, desktop_id } => on_desktop_focus(
            s,
            monitor_id,
            desktop_id,
        ),
        WmEvent::NodeFlag { monitor_id, desktop_id, flag: Flag::Urgent, switch, .. } => on_urgent(
            s,
            monitor_id,
            desktop_id,
            switch == Switch::On,
        ),
        WmEvent::NodeState {
            monitor_id,
            desktop_id,
            state: NodeState::Fullscreen,
            switch,
            ..
        } => on_fullscreen(s, monitor_id, desktop_id, switch == Switch::On),
        WmEvent::NodeFocus { monitor_id, desktop_id, node_id } => on_node_focus(
            s,
            monitor_id,
            desktop_id,
            node_id,
            supplied_fullscreen(supply),
        ),
        WmEvent::NodeAdd { monitor_id, .. } => on_membership(
            s,
            supplied_counts(supply),
            monitor_id,
        ),
        WmEvent::NodeRemove { monitor_id, .. } => on_membership(
            s,
            supplied_counts(supply),
            monitor_id,
        ),
        WmEvent::NodeSwap { src_monitor_id, dst_monitor_id, .. } => on_move(
            s,
            supplied_counts(supply),
            src_monitor_id,
            dst_monitor_id,
        ),
        WmEvent::NodeTransfer { src_monitor_id, dst_monitor_id, .. } => on_move(
            s,
            supplied_counts(supply),
            src_monitor_id,
            dst_monitor_id,
        ),
        _ => ignored(s),
    }
}

/// The outcome `r`, with the model left as `after`, is the effect `e`.
pub open spec fn is_effect(after: StateView, r: Outcome, e: Effect) -> bool {
    &&& after == e.state
    &&& note_views(r.published@) == e.published
    &&& r.failure == e.failure
}

/// The kinds of event to subscribe to, in the order in which they are asked
/// for.
pub fn subscriptions() -> (r: Vec<Subscription>)
    ensures
        r@ == seq![
            Subscription::DesktopFocus,
            Subscription::NodeAdd,
            Subscription::NodeRemove,
            Subscription::NodeFocus,
            Subscription::NodeState,
            Subscription::NodeFlag,
            Subscription::NodeSwap,
            Subscription::NodeTransfer,
        ],
{
    let mut r: Vec<Subscription> = Vec::new();
    r.push(Subscription::DesktopFocus);
    r.push(Subscription::NodeAdd);
    r.push(Subscription::NodeRemove);
    r.push(Subscription::NodeFocus);
    r.push(Subscription::NodeState);
    r.push(Subscription::NodeFlag);
    r.push(Subscription::NodeSwap);
    r.push(Subscription::NodeTransfer);
    assert(r@ =~= seq![
        Subscription::DesktopFocus,
        Subscription::NodeAdd,
        Subscription::NodeRemove,
        Subscription::NodeFocus,
        Subscription::NodeState,
        Subscription::NodeFlag,
        Subscription::NodeSwap,
        Subscription::NodeTransfer,
    ]);
    r
}

fn nothing() -> (r: Outcome)
    ensures
        note_views(r.published@) == Seq::<NoteView>::empty(),
        r.failure is None,
{
    let r = Outcome { published: Vec::new(), failure: None };
    assert(note_views(r.published@) =~= Seq::<NoteView>::empty());
    r
}

fn failed(e: SyncError) -> (r: Outcome)
    ensures
        note_views(r.published@) == Seq::<NoteView>::empty(),
        r.failure == Some(e),
{
    let r = Outcome { published: Vec::new(), failure: Some(e) };
    assert(note_views(r.published@) =~= Seq::<NoteView>::empty());
    r
}

fn one(m: MonitorState) -> (r: Outcome)
    ensures
        note_views(r.published@) == seq![NoteView::Monitor(m@)],
        r.failure is None,
{
    let mut published: Vec<SystemEvent> = Vec::new();
    published.push(SystemEvent::DesktopStateUpdateNew(m));
    assert(note_views(published@) =~= seq![NoteView::Monitor(m@)]);
    Outcome { published, failure: None }
}

impl BspwmState {
    /// What `event` needs from the query interface before
    /// [`BspwmState::apply_event`] can take it.
    pub fn demand(&self, event: &WmEvent) -> (r: Demand)
        ensures
            r@ == demanded(self@, *event),
    {
        match event {
            WmEvent::NodeFocus { monitor_id, desktop_id, node_id } => {
                match self.monitor_by_id(*monitor_id) {
                    Some(monitor) => match monitor.find_desktop(*desktop_id) {
                        Some(_) => Demand::Fullscreen(Query::fullscreen(*node_id, *desktop_id)),
                        None => Demand::Nothing,
                    },
                    None => Demand::Nothing,
                }
            },
            WmEvent::NodeAdd { .. } | WmEvent::NodeRemove { .. } | WmEvent::NodeSwap { .. }
            | WmEvent::NodeTransfer { .. } => {
                let v = self.window_queries();
                assert(query_views(v@) =~~= window_queries(self@));
                Demand::WindowCounts(v)
            },
            _ => Demand::Nothing,
        }
    }

    fn take_desktop_focus(&mut self, monitor_id: u32, desktop_id: u32) -> (r: Outcome)
        ensures
            is_effect(final(self)@, r, on_desktop_focus(old(self)@, monitor_id, desktop_id)),
    {
        let r = match self.find_monitor_by_id(monitor_id) {
            Ok(monitor) => {
                monitor.update_focused_desktop(desktop_id);
                one(monitor.clone())
            },
            Err(e) => failed(e),
        };
        assert(self@.monitors =~= on_desktop_focus(
            old(self)@,
            monitor_id,
            desktop_id,
        ).state.monitors);
        assert(note_views(r.published@) =~= on_desktop_focus(
            old(self)@,
            monitor_id,
            desktop_id,
        ).published);
        r
    }

    fn take_urgent(&mut self, monitor_id: u32, desktop_id: u32, flag: bool) -> (r: Outcome)
        ensures
            is_effect(final(self)@, r, on_urgent(old(self)@, monitor_id, desktop_id, flag)),
    {
        let r = match self.find_monitor_by_id(monitor_id) {
            Ok(monitor) => {
                monitor.set_urgent(desktop_id, flag);
                one(monitor.clone())
            },
            Err(e) => failed(e),
        };
        assert(self@.monitors =~= on_urgent(old(self)@, monitor_id, desktop_id, flag).state.monitors);
        assert(note_views(r.published@) =~= on_urgent(
            old(self)@,
            monitor_id,
            desktop_id,
            flag,
        ).published);
        r
    }

    fn take_fullscreen(&mut self, monitor_id: u32, desktop_id: u32, flag: bool) -> (r: Outcome)
        ensures
            is_effect(final(self)@, r, on_fullscreen(old(self)@, monitor_id, desktop_id, flag)),
    {
        let r = match self.find_monitor_by_id(monitor_id) {
            Ok(monitor) => {
                monitor.set_fullscreen(desktop_id, flag);
                one(monitor.clone())
            },
            Err(e) => failed(e),
        };
        assert(self@.monitors =~= on_fullscreen(
            old(self)@,
            monitor_id,
            desktop_id,
            flag,
        ).state.monitors);
        assert(note_views(r.published@) =~= on_fullscreen(
            old(self)@,
            monitor_id,
            desktop_id,
            flag,
        ).published);
        r
    }

    fn take_node_focus(
        &mut self,
        monitor_id: u32,
        desktop_id: u32,
        node_id: u32,
        fullscreen: Result<bool, QueryFailure>,
    ) -> (r: Outcome)
        ensures
            is_effect(
                final(self)@,
                r,
                on_node_focus(old(self)@, monitor_id, desktop_id, node_id, fullscreen),
            ),
    {
        let r = match self.find_monitor_by_id(monitor_id) {
            Ok(monitor) => {
                monitor.update_active_node(desktop_id, node_id, fullscreen);
                one(monitor.clone())
            },
            Err(e) => failed(e),
        };
        assert(self@.monitors =~= on_node_focus(
            old(self)@,
            monitor_id,
            desktop_id,
            node_id,
            fullscreen,
        ).state.monitors);
        assert(note_views(r.published@) =~= on_node_focus(
            old(self)@,
            monitor_id,
            desktop_id,
            node_id,
            fullscreen,
        ).published);
        r
    }

    fn take_membership(
        &mut self,
        replies: &Vec<Vec<Result<Vec<u32>, QueryFailure>>>,
        monitor_id: u32,
    ) -> (r: Outcome)
        ensures
            is_effect(final(self)@, r, on_membership(old(self)@, replies@, monitor_id)),
    {
        self.update_all_desktop_window_count(replies);
        let r = match self.monitor_by_id(monitor_id) {
            Some(monitor) => one(monitor.clone()),
            None => failed(SyncError::LookupNotFound),
        };
        assert(note_views(r.published@) =~= on_membership(
            old(self)@,
            replies@,
            monitor_id,
        ).published);
        r
    }

    fn take_move(
        &mut self,
        replies: &Vec<Vec<Result<Vec<u32>, QueryFailure>>>,
        src_monitor_id: u32,
        dst_monitor_id: u32,
    ) -> (r: Outcome)
        ensures
            is_effect(
                final(self)@,
                r,
                on_move(old(self)@, replies@, src_monitor_id, dst_monitor_id),
            ),
    {
        self.update_all_desktop_window_count(replies);
        let mut published: Vec<SystemEvent> = Vec::new();
        let failure = match self.monitor_by_id(src_monitor_id) {
            None => Some(SyncError::LookupNotFound),
            Some(src) => {
                published.push(SystemEvent::DesktopStateUpdateNew(src.clone()));
                match self.monitor_by_id(dst_monitor_id) {
                    None => Some(SyncError::LookupNotFound),
                    Some(dst) => {
                        published.push(SystemEvent::DesktopStateUpdateNew(dst.clone()));
                        None
                    },
                }
            },
        };
        assert(note_views(published@) =~= on_move(
            old(self)@,
            replies@,
            src_monitor_id,
            dst_monitor_id,
        ).published);
        Outcome { published, failure }
    }

    /// Takes one event of the window manager, with the replies to what
    /// [`BspwmState::demand`] asked for it.
    ///
    /// The model is changed as the event says, and the monitors it affects are
    /// handed back for publishing, in order. An event that names an unknown
    /// monitor fails: what was changed and published up to the lookup stands.
    /// An event of a kind that the model does not follow changes and publishes
    /// nothing. Replies that were not supplied count as failed queries.
    pub fn apply_event(&mut self, event: WmEvent, supply: &Supply) -> (r: Outcome)
        ensures
            is_effect(final(self)@, r, apply(old(self)@, event, *supply)),
    {
        let none: Vec<Vec<Result<Vec<u32>, QueryFailure>>> = Vec::new();
        assert(none@ =~= Seq::<Vec<Result<Vec<u32>, QueryFailure>>>::empty());
        match event {
            WmEvent::DesktopFocus { monitor_id, desktop_id } => self.take_desktop_focus(
                monitor_id,
                desktop_id,
            ),
            WmEvent::NodeFlag { monitor_id, desktop_id, node_id: _, flag, switch } => {
                match flag {
                    Flag::Urgent => {
                        let on = match switch {
                            Switch::On => true,
                            Switch::Off => false,
                        };
                        self.take_urgent(monitor_id, desktop_id, on)
                    },
                    _ => nothing(),
                }
            },
            WmEvent::NodeState { monitor_id, desktop_id, node_id: _, state, switch } => {
                match state {
                    NodeState::Fullscreen => {
                        let on = match switch {
                            Switch::On => true,
                            Switch::Off => false,
                        };
                        self.take_fullscreen(monitor_id, desktop_id, on)
                    },
                    _ => nothing(),
                }
            },
            WmEvent::NodeFocus { monitor_id, desktop_id, node_id } => {
                let fullscreen = match supply {
                    Supply::Fullscreen(reply) => MonitorState::is_node_focused(reply),
                    _ => Err(QueryFailure::Unreachable),
                };
                self.take_node_focus(monitor_id, desktop_id, node_id, fullscreen)
            },
            WmEvent::NodeAdd { monitor_id, .. } => {
                match supply {
                    Supply::WindowCounts(replies) => self.take_membership(replies, monitor_id),
                    _ => self.take_membership(&none, monitor_id),
                }
            },
            WmEvent::NodeRemove { monitor_id, .. } => {
                match supply {
                    Supply::WindowCounts(replies) => self.take_membership(replies, monitor_id),
                    _ => self.take_membership(&none, monitor_id),
                }
            },
            WmEvent::NodeSwap { src_monitor_id, dst_monitor_id, .. } => {
                match supply {
                    Supply::WindowCounts(replies) => self.take_move(
                        replies,
                        src_monitor_id,
                        dst_monitor_id,
                    ),
                    _ => self.take_move(&none, src_monitor_id, dst_monitor_id),
                }
            },
            WmEvent::NodeTransfer { src_monitor_id, dst_monitor_id, .. } => {
                match supply {
                    Supply::WindowCounts(replies) => self.take_move(
                        replies,
                        src_monitor_id,
                        dst_monitor_id,
                    ),
                    _ => self.take_move(&none, src_monitor_id, dst_monitor_id),
                }
            },
            WmEvent::Other => nothing(),
        }
    }
}

} // verus!
