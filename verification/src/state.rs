//! The whole model: every monitor that was known when it was built.

use vstd::prelude::*;
use vstd::string::StringExecFns;
use crate::error::SyncError;
use crate::monitor::{probed_monitor, DesktopProbe, MonitorState, MonitorView};
use crate::query::{Query, QueryFailure};
use crate::search::{first_where, lemma_first_absent, lemma_first_found};

verus! {

/// The state of the window manager, as far as the model follows it.
///
/// The set of monitors is fixed when the model is built.
#[derive(Debug, PartialEq, Eq)]
pub struct BspwmState {
    pub monitors: Vec<MonitorState>,
}

/// The mathematical content of a [`BspwmState`].
pub struct StateView {
    pub monitors: Seq<MonitorView>,
}

/// The contents of a list of monitors.
pub open spec fn monitor_views(monitors: Seq<MonitorState>) -> Seq<MonitorView> {
    monitors.map_values(|m: MonitorState| m@)
}

impl View for BspwmState {
    type V = StateView;

    open spec fn view(&self) -> StateView {
        StateView { monitors: monitor_views(self.monitors@) }
    }
}

/// The monitors with the given id.
pub open spec fn monitor_has_id(id: u32) -> spec_fn(MonitorView) -> bool {
    |m: MonitorView| m.id == id
}

/// The monitors with the given name.
pub open spec fn monitor_has_name(name: Seq<char>) -> spec_fn(MonitorView) -> bool {
    |m: MonitorView| m.name == name
}

/// The window replies for monitor number `i`; none where they are missing.
pub open spec fn replies_at(
    replies: Seq<Vec<Result<Vec<u32>, QueryFailure>>>,
    i: int,
) -> Seq<Result<Vec<u32>, QueryFailure>> {
    if 0 <= i < replies.len() {
        replies[i]@
    } else {
        Seq::empty()
    }
}

/// What was asked about one monitor when the model is built: its name, the
/// replies to the queries for its id and its shown desktop, and what was asked
/// about each of its desktops.
#[derive(Debug, PartialEq, Eq)]
pub struct MonitorProbe {
    pub name: String,
    pub id: Result<Vec<u32>, QueryFailure>,
    pub active_desktop: Result<Vec<u32>, QueryFailure>,
    pub desktops: Vec<DesktopProbe>,
}

/// What building the monitor that a probe describes gives.
pub open spec fn probe_outcome(p: MonitorProbe) -> Result<MonitorView, SyncError> {
    probed_monitor(p.name@, p.id, p.active_desktop, p.desktops@)
}

/// The probes from which no monitor can be built.
pub open spec fn is_failed_monitor() -> spec_fn(MonitorProbe) -> bool {
    |p: MonitorProbe| probe_outcome(p) is Err
}

/// What building the model gives: the error of the first monitor that cannot
/// be built, else the monitors in the order of the probes.
pub open spec fn probed_state(probes: Seq<MonitorProbe>) -> Result<StateView, SyncError> {
    match first_where(probes, is_failed_monitor()) {
        Some(k) => Err(probe_outcome(probes[k])->Err_0),
        None => Ok(
            StateView {
                monitors: Seq::new(probes.len(), |i: int| probe_outcome(probes[i])->Ok_0),
            },
        ),
    }
}

/// The view of a result that holds a model.
pub open spec fn state_result_view(r: Result<BspwmState, SyncError>) -> Result<
    StateView,
    SyncError,
> {
    match r {
        Ok(s) => Ok(s@),
        Err(e) => Err(e),
    }
}

impl StateView {
    /// No monitor has two desktops with one id.
    pub open spec fn wf(self) -> bool {
        forall|i: int| 0 <= i < self.monitors.len() ==> (#[trigger] self.monitors[i]).wf()
    }

    /// On every monitor at most one desktop is shown.
    pub open spec fn at_most_one_active(self) -> bool {
        forall|i: int|
            0 <= i < self.monitors.len() ==> (#[trigger] self.monitors[i]).at_most_one_active()
    }

    /// Every desktop that shows its active node as fullscreen has one.
    pub open spec fn consistent(self) -> bool {
        forall|i: int| 0 <= i < self.monitors.len() ==> (#[trigger] self.monitors[i]).consistent()
    }

    /// Every monitor is a snapshot that a consumer can take at face value.
    pub open spec fn coherent(self) -> bool {
        forall|i: int| 0 <= i < self.monitors.len() ==> (#[trigger] self.monitors[i]).coherent()
    }

    /// The position of the first monitor with the given id.
    pub open spec fn find_by_id(self, id: u32) -> Option<int> {
        first_where(self.monitors, monitor_has_id(id))
    }

    /// The position of the first monitor with the given name.
    pub open spec fn find_by_name(self, name: Seq<char>) -> Option<int> {
        first_where(self.monitors, monitor_has_name(name))
    }

    /// The model with the monitor at position `i` replaced by `m`.
    pub open spec fn with_monitor(self, i: int, m: MonitorView) -> StateView {
        StateView { monitors: self.monitors.update(i, m) }
    }

    /// The model after every window count was taken afresh: the replies for
    /// monitor number `i` are `replies[i]`, one for each of its desktops in
    /// their order. A desktop whose reply failed or is missing has no windows.
    pub open spec fn recount(self, replies: Seq<Vec<Result<Vec<u32>, QueryFailure>>>) -> StateView {
        StateView {
            monitors: Seq::new(
                self.monitors.len(),
                |i: int| self.monitors[i].recount(replies_at(replies, i)),
            ),
        }
    }
}

impl Clone for BspwmState {
    fn clone(&self) -> (r: Self)
        ensures
            r@ == self@,
    {
        let mut monitors: Vec<MonitorState> = Vec::new();
        let mut i: usize = 0;
        while i < self.monitors.len()
            invariant
                i <= self.monitors.len(),
                monitors@.len() == i,
                forall|j: int| 0 <= j < i ==> (#[trigger] monitors@[j])@ == self.monitors@[j]@,
            decreases self.monitors.len() - i,
        {
            monitors.push(self.monitors[i].clone());
            i += 1;
        }
        let r = BspwmState { monitors };
        assert(r@.monitors =~= self@.monitors);
        r
    }
}

impl BspwmState {
    /// Builds the model from what was asked about each monitor, in the order
    /// in which the window manager lists them.
    ///
    /// Fails with the error of the first monitor that cannot be built.
    pub fn new(probes: &Vec<MonitorProbe>) -> (r: Result<BspwmState, SyncError>)
        ensures
            state_result_view(r) == probed_state(probes@),
            r is Ok ==> r->Ok_0@.consistent(),
    {
        let mut monitors: Vec<MonitorState> = Vec::new();
        let mut i: usize = 0;
        while i < probes.len()
            invariant
                i <= probes.len(),
                monitors@.len() == i,
                forall|j: int| 0 <= j < i ==> !is_failed_monitor()(#[trigger] probes@[j]),
                forall|j: int|
                    0 <= j < i ==> Ok::<MonitorView, SyncError>((#[trigger] monitors@[j])@)
                        == probe_outcome(probes@[j]),
                forall|j: int| 0 <= j < i ==> (#[trigger] monitors@[j])@.consistent(),
            decreases probes.len() - i,
        {
            let probe = &probes[i];
            match MonitorState::new(
                probe.name.clone(),
                &probe.id,
                &probe.active_desktop,
                &probe.desktops,
            ) {
                Ok(monitor) => {
                    monitors.push(monitor);
                },
                Err(e) => {
                    proof {
                        lemma_first_found(probes@, is_failed_monitor(), i as int);
                    }
                    return Err(e);
                },
            }
            i += 1;
        }
        proof {
            lemma_first_absent(probes@, is_failed_monitor());
        }
        let r = BspwmState { monitors };
        assert(r@.monitors =~= probed_state(probes@)->Ok_0.monitors);
        Ok(r)
    }

    /// The first monitor called `monitor_name`.
    pub fn find_monitor(&self, monitor_name: &str) -> (r: Result<&MonitorState, SyncError>)
        ensures
            match self@.find_by_name(monitor_name@) {
                Some(i) => r == Ok::<&MonitorState, SyncError>(&self.monitors@[i]),
                None => r == Err::<&MonitorState, SyncError>(SyncError::LookupNotFound),
            },
    {
        let wanted = String::from_str(monitor_name);
        let mut i: usize = 0;
        while i < self.monitors.len()
            invariant
                i <= self.monitors.len(),
                wanted@ == monitor_name@,
                forall|j: int|
                    0 <= j < i ==> !monitor_has_name(monitor_name@)(#[trigger] self@.monitors[j]),
            decreases self.monitors.len() - i,
        {
            if self.monitors[i].monitor_name == wanted {
                proof {
                    lemma_first_found(self@.monitors, monitor_has_name(monitor_name@), i as int);
                }
                return Ok(&self.monitors[i]);
            }
            i += 1;
        }
        proof {
            lemma_first_absent(self@.monitors, monitor_has_name(monitor_name@));
        }
        Err(SyncError::LookupNotFound)
    }

    /// The first monitor with the id `monitor_id`.
    pub fn monitor_by_id(&self, monitor_id: u32) -> (r: Option<&MonitorState>)
        ensures
            match self@.find_by_id(monitor_id) {
                Some(i) => r == Some(&self.monitors@[i]),
                None => r is None,
            },
    {
        let mut i: usize = 0;
        while i < self.monitors.len()
            invariant
                i <= self.monitors.len(),
                forall|j: int|
                    0 <= j < i ==> !monitor_has_id(monitor_id)(#[trigger] self@.monitors[j]),
            decreases self.monitors.len() - i,
        {
            if self.monitors[i].monitor_id == monitor_id {
                proof {
                    lemma_first_found(self@.monitors, monitor_has_id(monitor_id), i as int);
                }
                return Some(&self.monitors[i]);
            }
            i += 1;
        }
        proof {
            lemma_first_absent(self@.monitors, monitor_has_id(monitor_id));
        }
        None
    }

    /// The first monitor with the id `monitor_id`, for changing it in place.
    pub fn find_monitor_by_id(&mut self, monitor_id: u32) -> (r: Result<
        &mut MonitorState,
        SyncError,
    >)
        ensures
            match old(self)@.find_by_id(monitor_id) {
                Some(i) => r is Ok && *r->Ok_0 == old(self).monitors@[i]
                    && final(self).monitors@ == old(self).monitors@.update(i, *final(r->Ok_0)),
                None => r == Err::<&mut MonitorState, SyncError>(SyncError::LookupNotFound)
                    && *final(self) == *old(self),
            },
    {
        let mut i: usize = 0;
        while i < self.monitors.len()
            invariant
                i <= self.monitors.len(),
                *self == *old(self),
                forall|j: int|
                    0 <= j < i ==> !monitor_has_id(monitor_id)(#[trigger] self@.monitors[j]),
            decreases self.monitors.len() - i,
        {
            if self.monitors[i].monitor_id == monitor_id {
                proof {
                    lemma_first_found(self@.monitors, monitor_has_id(monitor_id), i as int);
                }
                return Ok(&mut self.monitors[i]);
            }
            i += 1;
        }
        proof {
            lemma_first_absent(self@.monitors, monitor_has_id(monitor_id));
        }
        Err(SyncError::LookupNotFound)
    }

    /// Takes the window count of every desktop of every monitor afresh.
    ///
    /// `replies[i][j]` is the reply to the window query for desktop number `j`
    /// of monitor number `i`. A desktop whose reply failed, or for which there
    /// is none, has no windows.
    pub fn update_all_desktop_window_count(
        &mut self,
        replies: &Vec<Vec<Result<Vec<u32>, QueryFailure>>>,
    )
        ensures
            final(self)@ == old(self)@.recount(replies@),
    {
        let ghost before = self@;
        let none: Vec<Result<Vec<u32>, QueryFailure>> = Vec::new();
        let mut i: usize = 0;
        while i < self.monitors.len()
            invariant
                i <= self.monitors.len(),
                none@.len() == 0,
                self.monitors@.len() == before.monitors.len(),
                forall|k: int|
                    0 <= k < i ==> (#[trigger] self.monitors@[k])@ == before.monitors[k].recount(
                        replies_at(replies@, k),
                    ),
                forall|k: int|
                    i <= k < before.monitors.len() ==> (#[trigger] self.monitors@[k])@
                        == before.monitors[k],
            decreases self.monitors.len() - i,
        {
            let ghost prev = self.monitors@;
            if i < replies.len() {
                self.monitors[i].update_window_counts(&replies[i]);
            } else {
                self.monitors[i].update_window_counts(&none);
                assert(none@ =~= replies_at(replies@, i as int));
            }
            assert(forall|k: int|
                0 <= k < prev.len() && k != i ==> #[trigger] self.monitors@[k] == prev[k]);
            i += 1;
        }
        assert(self@.monitors =~= before.recount(replies@).monitors);
    }

    /// The window queries that a recount calls for: `r[i][j]` asks for the
    /// visible windows of desktop number `j` of monitor number `i`.
    pub fn window_queries(&self) -> (r: Vec<Vec<Query>>)
        ensures
            r@.len() == self@.monitors.len(),
            forall|i: int|
                0 <= i < r@.len() ==> (#[trigger] r@[i])@.len() == self@.monitors[i].desktops.len(),
            forall|i: int, j: int|
                0 <= i < r@.len() && 0 <= j < r@[i]@.len() ==> (#[trigger] r@[i]@[j])@
                    == crate::monitor::window_query(self@.monitors[i].desktops[j].name),
    {
        let mut r: Vec<Vec<Query>> = Vec::new();
        let mut i: usize = 0;
        while i < self.monitors.len()
            invariant
                i <= self.monitors.len(),
                r@.len() == i,
                forall|k: int|
                    0 <= k < i ==> (#[trigger] r@[k])@.len() == self@.monitors[k].desktops.len(),
                forall|k: int, j: int|
                    0 <= k < i && 0 <= j < r@[k]@.len() ==> (#[trigger] r@[k]@[j])@
                        == crate::monitor::window_query(self@.monitors[k].desktops[j].name),
            decreases self.monitors.len() - i,
        {
            r.push(self.monitors[i].window_queries());
            i += 1;
        }
        r
    }
}

} // verus!
