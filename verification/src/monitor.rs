//! One monitor and the desktops it hosts.

use vstd::prelude::*;
use crate::desktop::{DesktopState, DesktopView, Layout};
use crate::error::SyncError;
use crate::query::{first_id, reply_count, reply_first, Query, QueryFailure, QueryView};
use crate::search::{first_where, lemma_first_absent, lemma_first_found};

verus! {

/// The state of one monitor.
///
/// The name is the stable key by which a monitor is bound to a rendering
/// surface; the id is the key by which events refer to it.
#[derive(Debug, PartialEq, Eq)]
pub struct MonitorState {
    pub monitor_id: u32,
    pub monitor_name: String,
    pub desktops: Vec<DesktopState>,
}

/// The mathematical content of a [`MonitorState`].
pub struct MonitorView {
    pub id: u32,
    pub name: Seq<char>,
    pub desktops: Seq<DesktopView>,
}

/// The contents of a list of desktops.
pub open spec fn desktop_views(desktops: Seq<DesktopState>) -> Seq<DesktopView> {
    desktops.map_values(|d: DesktopState| d@)
}

impl View for MonitorState {
    type V = MonitorView;

    open spec fn view(&self) -> MonitorView {
        MonitorView {
            id: self.monitor_id,
            name: self.monitor_name@,
            desktops: desktop_views(self.desktops@),
        }
    }
}

/// What was asked about one desktop when the model is built: its name, and
/// the replies to the queries for its id, its visible windows and its active
/// node.
#[derive(Debug, PartialEq, Eq)]
pub struct DesktopProbe {
    pub name: String,
    pub id: Result<Vec<u32>, QueryFailure>,
    pub windows: Result<Vec<u32>, QueryFailure>,
    pub active_node: Result<Vec<u32>, QueryFailure>,
}

/// Why an id query does not yield an id, if it does not: it failed, or it
/// matched nothing.
pub open spec fn id_error(reply: Result<Vec<u32>, QueryFailure>) -> Option<SyncError> {
    match reply {
        Err(e) => Some(SyncError::QueryFailure(e)),
        Ok(ids) => if ids@.len() == 0 {
            Some(SyncError::LookupNotFound)
        } else {
            None
        },
    }
}

/// The probes from which no desktop can be built.
pub open spec fn is_failed_probe() -> spec_fn(DesktopProbe) -> bool {
    |p: DesktopProbe| id_error(p.id) is Some
}

/// The desktop that a probe describes, on a monitor that shows
/// `active_desktop_id`.
pub open spec fn probed_desktop(p: DesktopProbe, active_desktop_id: Option<u32>) -> DesktopView {
    DesktopView::probed(p.name@, active_desktop_id, p.id->Ok_0@[0], p.windows, p.active_node)
}

/// What building a monitor gives: the error of its own id query; else the
/// error of the first desktop that cannot be built; else the monitor with its
/// desktops in the order of the probes.
pub open spec fn probed_monitor(
    name: Seq<char>,
    id: Result<Vec<u32>, QueryFailure>,
    active_desktop: Result<Vec<u32>, QueryFailure>,
    probes: Seq<DesktopProbe>,
) -> Result<MonitorView, SyncError> {
    match id_error(id) {
        Some(e) => Err(e),
        None => match first_where(probes, is_failed_probe()) {
            Some(k) => Err(id_error(probes[k].id)->Some_0),
            None => Ok(
                MonitorView {
                    id: id->Ok_0@[0],
                    name,
                    desktops: Seq::new(
                        probes.len(),
                        |j: int| probed_desktop(probes[j], reply_first(active_desktop)),
                    ),
                },
            ),
        },
    }
}

/// The view of a result that holds a monitor.
pub open spec fn monitor_result_view(r: Result<MonitorState, SyncError>) -> Result<
    MonitorView,
    SyncError,
> {
    match r {
        Ok(m) => Ok(m@),
        Err(e) => Err(e),
    }
}

/// The number of windows that reply number `j` reports; none where that reply
/// failed or is missing.
pub open spec fn window_count_at(replies: Seq<Result<Vec<u32>, QueryFailure>>, j: int) -> nat {
    if 0 <= j < replies.len() {
        reply_count(replies[j])
    } else {
        0
    }
}

/// The query for the visible windows of the desktop called `name`.
pub open spec fn window_query(name: Seq<char>) -> QueryView {
    QueryView {
        target: crate::query::QueryTarget::Nodes,
        reference: None,
        monitor: None,
        desktop: Some(name),
        node: Some(crate::query::visible_window_selector()),
    }
}

/// The desktops with the given id.
pub open spec fn has_id(id: u32) -> spec_fn(DesktopView) -> bool {
    |d: DesktopView| d.id == id
}

/// The desktops that are shown on their monitor.
pub open spec fn is_shown() -> spec_fn(DesktopView) -> bool {
    |d: DesktopView| d.is_active
}

/// The desktops that are shown on their monitor and have an active node.
pub open spec fn shows_node() -> spec_fn(DesktopView) -> bool {
    |d: DesktopView| d.is_active && d.active_node is Some
}

/// The desktops that have an active node.
pub open spec fn has_node() -> spec_fn(DesktopView) -> bool {
    |d: DesktopView| d.active_node is Some
}

impl MonitorView {
    /// No two desktops of the monitor share an id.
    pub open spec fn wf(self) -> bool {
        forall|i: int, j: int|
            0 <= i < self.desktops.len() && 0 <= j < self.desktops.len() && i != j
                ==> (#[trigger] self.desktops[i]).id != (#[trigger] self.desktops[j]).id
    }

    /// At most one desktop of the monitor is shown on it.
    pub open spec fn at_most_one_active(self) -> bool {
        forall|i: int, j: int|
            0 <= i < self.desktops.len() && 0 <= j < self.desktops.len()
                && (#[trigger] self.desktops[i]).is_active
                && (#[trigger] self.desktops[j]).is_active ==> i == j
    }

    /// Every desktop that shows its active node as fullscreen has one.
    pub open spec fn consistent(self) -> bool {
        forall|i: int|
            0 <= i < self.desktops.len() ==> (#[trigger] self.desktops[i]).consistent()
    }

    /// The monitor is a snapshot that a consumer can take at face value.
    pub open spec fn coherent(self) -> bool {
        &&& self.wf()
        &&& self.at_most_one_active()
        &&& self.consistent()
    }

    /// The position of the first desktop with the given id.
    pub open spec fn find(self, desktop_id: u32) -> Option<int> {
        first_where(self.desktops, has_id(desktop_id))
    }

    /// The position of the first desktop that is shown on the monitor.
    pub open spec fn focused(self) -> Option<int> {
        first_where(self.desktops, is_shown())
    }

    /// The active node of the first shown desktop that has one.
    pub open spec fn active_node(self) -> Option<u32> {
        match first_where(self.desktops, shows_node()) {
            Some(i) => self.desktops[i].active_node,
            None => None,
        }
    }

    /// The active node of the first desktop that has one, shown or not.
    pub open spec fn any_active_node(self) -> Option<u32> {
        match first_where(self.desktops, has_node()) {
            Some(i) => self.desktops[i].active_node,
            None => None,
        }
    }

    /// The window-count label of the monitor: that of its shown desktop, and
    /// empty where no desktop is shown.
    pub open spec fn label(self) -> Seq<char> {
        match self.focused() {
            Some(i) => self.desktops[i].label(),
            None => Seq::<char>::empty(),
        }
    }

    /// The monitor after the desktop `desktop_id` took the focus on it: that
    /// desktop is shown and no other is. If no desktop has that id, none is
    /// shown.
    pub open spec fn focus(self, desktop_id: u32) -> MonitorView {
        MonitorView {
            desktops: self.desktops.map_values(
                |d: DesktopView| d.with_active(d.id == desktop_id),
            ),
            ..self
        }
    }

    /// The monitor after node `node_id` became active on its desktop
    /// `desktop_id`, where `fullscreen` is what the lookup of the node's
    /// fullscreen state gave.
    pub open spec fn node_focus(
        self,
        desktop_id: u32,
        node_id: u32,
        fullscreen: Result<bool, QueryFailure>,
    ) -> MonitorView {
        MonitorView {
            desktops: self.desktops.map_values(
                |d: DesktopView| d.with_node_focus(desktop_id, node_id, fullscreen),
            ),
            ..self
        }
    }

    /// The monitor after its windows were counted afresh: desktop number `j`
    /// has as many windows as reply number `j` lists. A desktop whose reply
    /// failed, or for which there is none, has no windows.
    pub open spec fn recount(self, replies: Seq<Result<Vec<u32>, QueryFailure>>) -> MonitorView {
        MonitorView {
            desktops: Seq::new(
                self.desktops.len(),
                |j: int| self.desktops[j].with_node_count(window_count_at(replies, j)),
            ),
            ..self
        }
    }

    /// The monitor with the desktop at position `i` replaced by `d`.
    pub open spec fn with_desktop(self, i: int, d: DesktopView) -> MonitorView {
        MonitorView { desktops: self.desktops.update(i, d), ..self }
    }

    /// The monitor after the urgency of desktop `desktop_id` was reported;
    /// unchanged if it has no such desktop.
    pub open spec fn urgent(self, desktop_id: u32, flag: bool) -> MonitorView {
        match self.find(desktop_id) {
            Some(i) => self.with_desktop(i, self.desktops[i].with_urgent(flag)),
            None => self,
        }
    }

    /// The monitor after the fullscreen state of the active node of desktop
    /// `desktop_id` was reported; unchanged if it has no such desktop.
    pub open spec fn fullscreen(self, desktop_id: u32, flag: bool) -> MonitorView {
        match self.find(desktop_id) {
            Some(i) => self.with_desktop(i, self.desktops[i].with_fullscreen(flag)),
            None => self,
        }
    }

    /// The monitor after the layout of desktop `desktop_id` was reported;
    /// unchanged if it has no such desktop.
    pub open spec fn layout(self, desktop_id: u32, layout: Layout) -> MonitorView {
        match self.find(desktop_id) {
            Some(i) => self.with_desktop(i, self.desktops[i].with_layout(layout)),
            None => self,
        }
    }
}

impl Clone for MonitorState {
    fn clone(&self) -> (r: Self)
        ensures
            r@ == self@,
    {
        let mut desktops: Vec<DesktopState> = Vec::new();
        let mut i: usize = 0;
        while i < self.desktops.len()
            invariant
                i <= self.desktops.len(),
                desktops@.len() == i,
                forall|j: int| 0 <= j < i ==> (#[trigger] desktops@[j])@ == self.desktops@[j]@,
            decreases self.desktops.len() - i,
        {
            desktops.push(self.desktops[i].clone());
            i += 1;
        }
        let r = MonitorState {
            monitor_id: self.monitor_id,
            monitor_name: self.monitor_name.clone(),
            desktops,
        };
        assert(r@.desktops =~= self@.desktops);
        r
    }
}

impl MonitorState {
    /// Builds the monitor called `monitor_name` from the replies to the
    /// queries for its id and its shown desktop, and from what was asked about
    /// each of its desktops, in their order on the monitor.
    ///
    /// Fails if the monitor's id query failed or matched nothing, and
    /// otherwise with the error of the first desktop whose id query did.
    pub fn new(
        monitor_name: String,
        id_reply: &Result<Vec<u32>, QueryFailure>,
        active_desktop_reply: &Result<Vec<u32>, QueryFailure>,
        probes: &Vec<DesktopProbe>,
    ) -> (r: Result<MonitorState, SyncError>)
        ensures
            monitor_result_view(r) == probed_monitor(
                monitor_name@,
                *id_reply,
                *active_desktop_reply,
                probes@,
            ),
            r is Ok ==> r->Ok_0@.consistent(),
    {
        let monitor_id: u32 = match id_reply {
            Err(e) => {
                return Err(SyncError::QueryFailure(*e));
            },
            Ok(ids) => {
                if ids.len() == 0 {
                    return Err(SyncError::LookupNotFound);
                }
                ids[0]
            },
        };
        let active_desktop = Self::find_active_desktop(active_desktop_reply);
        let mut desktops: Vec<DesktopState> = Vec::new();
        let mut i: usize = 0;
        while i < probes.len()
            invariant
                i <= probes.len(),
                desktops@.len() == i,
                id_error(*id_reply) is None,
                active_desktop == reply_first(*active_desktop_reply),
                forall|j: int| 0 <= j < i ==> !is_failed_probe()(#[trigger] probes@[j]),
                forall|j: int|
                    0 <= j < i ==> (#[trigger] desktops@[j])@ == probed_desktop(
                        probes@[j],
                        active_desktop,
                    ),
            decreases probes.len() - i,
        {
            let probe = &probes[i];
            match DesktopState::new(
                probe.name.clone(),
                active_desktop,
                &probe.id,
                &probe.windows,
                &probe.active_node,
            ) {
                Ok(desktop) => {
                    desktops.push(desktop);
                },
                Err(e) => {
                    proof {
                        lemma_first_found(probes@, is_failed_probe(), i as int);
                    }
                    return Err(e);
                },
            }
            i += 1;
        }
        proof {
            lemma_first_absent(probes@, is_failed_probe());
        }
        let r = MonitorState { monitor_id, monitor_name, desktops };
        assert(r@.desktops =~= probed_monitor(
            monitor_name@,
            *id_reply,
            *active_desktop_reply,
            probes@,
        )->Ok_0.desktops);
        Ok(r)
    }

    /// Reads the id of the shown desktop off the reply to the query for it.
    pub fn find_active_desktop(reply: &Result<Vec<u32>, QueryFailure>) -> (r: Option<u32>)
        ensures
            r == reply_first(*reply),
    {
        first_id(reply)
    }

    /// Reads off the reply to a fullscreen lookup whether the node is
    /// fullscreen on the desktop: it is if the reply lists anything.
    pub fn is_node_focused(reply: &Result<Vec<u32>, QueryFailure>) -> (r: Result<
        bool,
        QueryFailure,
    >)
        ensures
            r == match *reply {
                Ok(ids) => Ok::<bool, QueryFailure>(ids@.len() > 0),
                Err(e) => Err::<bool, QueryFailure>(e),
            },
    {
        match reply {
            Ok(ids) => Ok(ids.len() > 0),
            Err(e) => Err(*e),
        }
    }

    /// Shows the desktop `focused_id` on the monitor, and no other.
    pub fn update_focused_desktop(&mut self, focused_id: u32)
        ensures
            final(self)@ == old(self)@.focus(focused_id),
            old(self)@.wf() ==> final(self)@.at_most_one_active(),
    {
        let ghost before = self@;
        let mut i: usize = 0;
        while i < self.desktops.len()
            invariant
                i <= self.desktops.len(),
                self@.id == before.id,
                self@.name == before.name,
                self.desktops@.len() == before.desktops.len(),
                forall|j: int|
                    0 <= j < i ==> (#[trigger] self.desktops@[j])@
                        == before.desktops[j].with_active(before.desktops[j].id == focused_id),
                forall|j: int|
                    i <= j < before.desktops.len() ==> (#[trigger] self.desktops@[j])@
                        == before.desktops[j],
            decreases self.desktops.len() - i,
        {
            let ghost prev = self.desktops@;
            let is_focused = self.desktops[i].desktop_id == focused_id;
            self.desktops[i].is_active = is_focused;
            assert(forall|j: int|
                0 <= j < prev.len() && j != i ==> #[trigger] self.desktops@[j] == prev[j]);
            i += 1;
        }
        assert(self@.desktops =~= before.focus(focused_id).desktops);
    }

    /// Records node `active_node_id` as the active node of desktop
    /// `desktop_id` and clears the active node of every other desktop.
    ///
    /// `fullscreen` is the outcome of looking up whether that node is
    /// fullscreen on that desktop; a failed lookup counts as "not fullscreen".
    pub fn update_active_node(
        &mut self,
        desktop_id: u32,
        active_node_id: u32,
        fullscreen: Result<bool, QueryFailure>,
    )
        ensures
            final(self)@ == old(self)@.node_focus(desktop_id, active_node_id, fullscreen),
            final(self)@.consistent(),
    {
        let ghost before = self@;
        let shown_fullscreen = match fullscreen {
            Ok(b) => b,
            Err(_) => false,
        };
        let mut i: usize = 0;
        while i < self.desktops.len()
            invariant
                i <= self.desktops.len(),
                self@.id == before.id,
                self@.name == before.name,
                self.desktops@.len() == before.desktops.len(),
                shown_fullscreen == (fullscreen == Ok::<bool, QueryFailure>(true)),
                forall|j: int|
                    0 <= j < i ==> (#[trigger] self.desktops@[j])@
                        == before.desktops[j].with_node_focus(
                        desktop_id,
                        active_node_id,
                        fullscreen,
                    ),
                forall|j: int|
                    i <= j < before.desktops.len() ==> (#[trigger] self.desktops@[j])@
                        == before.desktops[j],
            decreases self.desktops.len() - i,
        {
            let ghost prev = self.desktops@;
            if self.desktops[i].desktop_id == desktop_id {
                self.desktops[i].active_node = Some(active_node_id);
                self.desktops[i].is_active_node_fullscreen = shown_fullscreen;
            } else {
                self.desktops[i].active_node = None;
                self.desktops[i].is_active_node_fullscreen = false;
            }
            assert(forall|j: int|
                0 <= j < prev.len() && j != i ==> #[trigger] self.desktops@[j] == prev[j]);
            i += 1;
        }
        assert(self@.desktops =~= before.node_focus(
            desktop_id,
            active_node_id,
            fullscreen,
        ).desktops);
    }

    /// Replaces the window count of every desktop by what a fresh window
    /// query answered: reply number `j` is for desktop number `j`. A desktop
    /// whose reply failed, or for which there is none, has no windows.
    pub fn update_window_counts(&mut self, replies: &Vec<Result<Vec<u32>, QueryFailure>>)
        ensures
            final(self)@ == old(self)@.recount(replies@),
    {
        let ghost before = self@;
        let mut j: usize = 0;
        while j < self.desktops.len()
            invariant
                j <= self.desktops.len(),
                self@.id == before.id,
                self@.name == before.name,
                self.desktops@.len() == before.desktops.len(),
                forall|k: int|
                    0 <= k < j ==> (#[trigger] self.desktops@[k])@
                        == before.desktops[k].with_node_count(window_count_at(replies@, k)),
                forall|k: int|
                    j <= k < before.desktops.len() ==> (#[trigger] self.desktops@[k])@
                        == before.desktops[k],
            decreases self.desktops.len() - j,
        {
            let ghost prev = self.desktops@;
            if j < replies.len() {
                self.desktops[j].update_node_count(&replies[j]);
            } else {
                self.desktops[j].node_count = 0;
            }
            assert(forall|k: int|
                0 <= k < prev.len() && k != j ==> #[trigger] self.desktops@[k] == prev[k]);
            j += 1;
        }
        assert(self@.desktops =~= before.recount(replies@).desktops);
    }

    /// The window queries that a recount calls for: one for each desktop, in
    /// their order on the monitor.
    pub fn window_queries(&self) -> (r: Vec<Query>)
        ensures
            r@.len() == self@.desktops.len(),
            forall|j: int|
                0 <= j < r@.len() ==> (#[trigger] r@[j])@ == window_query(self@.desktops[j].name),
    {
        let mut r: Vec<Query> = Vec::new();
        let mut j: usize = 0;
        while j < self.desktops.len()
            invariant
                j <= self.desktops.len(),
                r@.len() == j,
                forall|k: int|
                    0 <= k < j ==> (#[trigger] r@[k])@ == window_query(self@.desktops[k].name),
            decreases self.desktops.len() - j,
        {
            r.push(Query::visible_windows(self.desktops[j].desktop_name.as_str()));
            j += 1;
        }
        r
    }

    /// The first desktop with the given id.
    pub fn find_desktop(&self, desktop_id: u32) -> (r: Option<&DesktopState>)
        ensures
            match self@.find(desktop_id) {
                Some(i) => r == Some(&self.desktops@[i]),
                None => r is None,
            },
    {
        let mut i: usize = 0;
        while i < self.desktops.len()
            invariant
                i <= self.desktops.len(),
                forall|j: int| 0 <= j < i ==> !has_id(desktop_id)(#[trigger] self@.desktops[j]),
            decreases self.desktops.len() - i,
        {
            if self.desktops[i].desktop_id == desktop_id {
                proof {
                    lemma_first_found(self@.desktops, has_id(desktop_id), i as int);
                }
                return Some(&self.desktops[i]);
            }
            i += 1;
        }
        proof {
            lemma_first_absent(self@.desktops, has_id(desktop_id));
        }
        None
    }

    /// The first desktop with the given id, for changing it in place.
    pub fn find_desktop_mut(&mut self, desktop_id: u32) -> (r: Option<&mut DesktopState>)
        ensures
            match old(self)@.find(desktop_id) {
                Some(i) => r is Some && *r->Some_0 == old(self).desktops@[i]
                    && final(self).monitor_id == old(self).monitor_id
                    && final(self).monitor_name == old(self).monitor_name
                    && final(self).desktops@ == old(self).desktops@.update(
                    i,
                    *final(r->Some_0),
                ),
                None => r is None && *final(self) == *old(self),
            },
    {
        let mut i: usize = 0;
        while i < self.desktops.len()
            invariant
                i <= self.desktops.len(),
                *self == *old(self),
                forall|j: int| 0 <= j < i ==> !has_id(desktop_id)(#[trigger] self@.desktops[j]),
            decreases self.desktops.len() - i,
        {
            if self.desktops[i].desktop_id == desktop_id {
                proof {
                    lemma_first_found(self@.desktops, has_id(desktop_id), i as int);
                }
                return Some(&mut self.desktops[i]);
            }
            i += 1;
        }
        proof {
            lemma_first_absent(self@.desktops, has_id(desktop_id));
        }
        None
    }

    /// Records the layout of desktop `desktop` and hands that desktop out;
    /// does nothing if the monitor has no such desktop.
    pub fn update_layout(&mut self, desktop: u32, layout: Layout) -> (r: Option<&mut DesktopState>)
        ensures
            match old(self)@.find(desktop) {
                Some(i) => r is Some && (*r->Some_0)@ == old(self).desktops@[i]@.with_layout(layout)
                    && final(self).monitor_id == old(self).monitor_id
                    && final(self).monitor_name == old(self).monitor_name
                    && final(self).desktops@ == old(self).desktops@.update(
                    i,
                    *final(r->Some_0),
                ),
                None => r is None && *final(self) == *old(self),
            },
    {
        match self.find_desktop_mut(desktop) {
            Some(d) => {
                d.layout = layout;
                Some(d)
            },
            None => None,
        }
    }

    /// Records whether a window on desktop `desktop_id` asks for attention;
    /// does nothing if the monitor has no such desktop.
    pub fn set_urgent(&mut self, desktop_id: u32, is_urgent: bool)
        ensures
            final(self)@ == old(self)@.urgent(desktop_id, is_urgent),
    {
        match self.find_desktop_mut(desktop_id) {
            Some(desktop) => {
                desktop.set_urgent(is_urgent);
            },
            None => {},
        }
        assert(self@.desktops =~= old(self)@.urgent(desktop_id, is_urgent).desktops);
    }

    /// Records whether the active node of desktop `desktop_id` is fullscreen;
    /// does nothing if the monitor has no such desktop.
    pub fn set_fullscreen(&mut self, desktop_id: u32, is_fullscreen: bool)
        ensures
            final(self)@ == old(self)@.fullscreen(desktop_id, is_fullscreen),
    {
        match self.find_desktop_mut(desktop_id) {
            Some(desktop) => {
                desktop.set_fullscreen(is_fullscreen);
            },
            None => {},
        }
        assert(self@.desktops =~= old(self)@.fullscreen(desktop_id, is_fullscreen).desktops);
    }

    /// The active node of the shown desktop: of the first desktop that is
    /// shown and has an active node.
    pub fn find_active_node(&self) -> (r: Option<u32>)
        ensures
            r == self@.active_node(),
    {
        let mut i: usize = 0;
        while i < self.desktops.len()
            invariant
                i <= self.desktops.len(),
                forall|j: int| 0 <= j < i ==> !shows_node()(#[trigger] self@.desktops[j]),
            decreases self.desktops.len() - i,
        {
            if self.desktops[i].is_active && self.desktops[i].active_node.is_some() {
                proof {
                    lemma_first_found(self@.desktops, shows_node(), i as int);
                }
                return self.desktops[i].active_node;
            }
            i += 1;
        }
        proof {
            lemma_first_absent(self@.desktops, shows_node());
        }
        None
    }

    /// The active node of the first desktop that has one, shown or not.
    pub fn first_active_node(&self) -> (r: Option<u32>)
        ensures
            r == self@.any_active_node(),
    {
        let mut i: usize = 0;
        while i < self.desktops.len()
            invariant
                i <= self.desktops.len(),
                forall|j: int| 0 <= j < i ==> !has_node()(#[trigger] self@.desktops[j]),
            decreases self.desktops.len() - i,
        {
            if self.desktops[i].active_node.is_some() {
                proof {
                    lemma_first_found(self@.desktops, has_node(), i as int);
                }
                return self.desktops[i].active_node;
            }
            i += 1;
        }
        proof {
            lemma_first_absent(self@.desktops, has_node());
        }
        None
    }

    /// The desktop that is shown on the monitor: the first that is marked so.
    pub fn focused_desktop_state(&self) -> (r: Option<&DesktopState>)
        ensures
            match self@.focused() {
                Some(i) => r == Some(&self.desktops@[i]),
                None => r is None,
            },
    {
        let mut i: usize = 0;
        while i < self.desktops.len()
            invariant
                i <= self.desktops.len(),
                forall|j: int| 0 <= j < i ==> !is_shown()(#[trigger] self@.desktops[j]),
            decreases self.desktops.len() - i,
        {
            if self.desktops[i].is_active {
                proof {
                    lemma_first_found(self@.desktops, is_shown(), i as int);
                }
                return Some(&self.desktops[i]);
            }
            i += 1;
        }
        proof {
            lemma_first_absent(self@.desktops, is_shown());
        }
        None
    }

    /// The window-count label of the monitor: that of its shown desktop, and
    /// empty where no desktop is shown.
    pub fn node_count_label(&self) -> (r: String)
        ensures
            r@ == self@.label(),
    {
        match self.focused_desktop_state() {
            Some(desktop) => desktop.node_count_label(),
            None => String::new(),
        }
    }
}

} // verus!
