//! What a bar shows of a monitor: the decisions a consumer takes when a
//! notification arrives. Drawing is left to the consumer.

use vstd::prelude::*;
use crate::desktop::{DesktopState, DesktopView};
use crate::ingest::{NoteView, SystemEvent};
use crate::monitor::{MonitorState, MonitorView};
use vstd::string::StringExecFns;

verus! {

pub const FOCUSED_DESKTOP: &'static str = "focused-desktop";

pub const NON_EMPTY_DESKTOP: &'static str = "non-empty-desktop";

pub const URGENT_DESKTOP: &'static str = "urgent-desktop";

pub const EMPTY_DESKTOP: &'static str = "empty-desktop";

/// How the button of a desktop is styled.
#[derive(Debug, Clone, Copy, PartialEq, Eq, Structural)]
pub enum DesktopClass {
    Focused,
    Urgent,
    NonEmpty,
    Empty,
}

/// The style of a desktop that is not the shown one: urgent before occupied
/// before empty.
pub open spec fn unfocused_class(d: DesktopView) -> DesktopClass {
    if d.is_urgent {
        DesktopClass::Urgent
    } else if d.node_count > 0 {
        DesktopClass::NonEmpty
    } else {
        DesktopClass::Empty
    }
}

/// The style of a desktop taken by itself.
pub open spec fn desktop_class(d: DesktopView) -> DesktopClass {
    if d.is_active {
        DesktopClass::Focused
    } else {
        unfocused_class(d)
    }
}

/// The style of the button for desktop `desktop_id` on a bar that shows the
/// monitor `m`: focused if that is the id of the shown desktop; else what the
/// first desktop with that id calls for; empty if there is none.
pub open spec fn button_class(m: MonitorView, desktop_id: u32) -> DesktopClass {
    if m.focused() is Some && m.desktops[m.focused()->Some_0].id == desktop_id {
        DesktopClass::Focused
    } else {
        match m.find(desktop_id) {
            Some(i) => unfocused_class(m.desktops[i]),
            None => DesktopClass::Empty,
        }
    }
}

/// Whether the bar is to be shown: it is hidden while the active node of the
/// shown desktop is fullscreen. Where no desktop is shown nothing is decided.
pub open spec fn bar_visibility(m: MonitorView) -> Option<bool> {
    match m.focused() {
        Some(i) => Some(!m.desktops[i].is_active_node_fullscreen),
        None => None,
    }
}

/// What a bar is to do when a notification arrives.
#[derive(Debug, PartialEq, Eq)]
pub enum Reaction {
    /// Refresh the readings that change by the second.
    RefreshFast,
    /// Refresh the readings that change slowly.
    RefreshSlow,
    /// Redraw what the bar shows of its monitor.
    Redraw(BarUpdate),
    /// The notification is about another monitor.
    Ignore,
}

/// What a bar shows of its monitor after a change.
#[derive(Debug, PartialEq, Eq)]
pub struct BarUpdate {
    /// The window-count label.
    pub win_count: String,
    /// The node whose name the bar shows, if any.
    pub active_node: Option<u32>,
    /// The style of each desktop button, in the order of the buttons.
    pub classes: Vec<DesktopClass>,
    /// Whether to show or hide the bar; `None` leaves it as it is.
    pub visible: Option<bool>,
}

/// The update `u` is what a bar with the buttons `buttons` shows of `m`.
pub open spec fn is_update_for(u: BarUpdate, m: MonitorView, buttons: Seq<u32>) -> bool {
    &&& u.win_count@ == m.label()
    &&& u.active_node == m.active_node()
    &&& u.classes@.len() == buttons.len()
    &&& forall|k: int|
        0 <= k < buttons.len() ==> #[trigger] u.classes@[k] == button_class(m, buttons[k])
    &&& u.visible == bar_visibility(m)
}

/// The reaction `r` is what a bar for the monitor called `name`, with the
/// buttons `buttons`, owes the notification `note`.
pub open spec fn is_reaction_to(
    r: Reaction,
    name: Seq<char>,
    buttons: Seq<u32>,
    note: NoteView,
) -> bool {
    match note {
        NoteView::Tick => r is RefreshFast,
        NoteView::SlowTick => r is RefreshSlow,
        NoteView::Monitor(m) => if m.name == name {
            r is Redraw && is_update_for(r->Redraw_0, m, buttons)
        } else {
            r is Ignore
        },
    }
}

impl DesktopClass {
    /// The name of the style.
    pub open spec fn name(self) -> Seq<char> {
        match self {
            DesktopClass::Focused => FOCUSED_DESKTOP@,
            DesktopClass::Urgent => URGENT_DESKTOP@,
            DesktopClass::NonEmpty => NON_EMPTY_DESKTOP@,
            DesktopClass::Empty => EMPTY_DESKTOP@,
        }
    }

    /// The name of the style.
    pub fn css(&self) -> (r: &'static str)
        ensures
            r@ == self.name(),
    {
        match self {
            DesktopClass::Focused => FOCUSED_DESKTOP,
            DesktopClass::Urgent => URGENT_DESKTOP,
            DesktopClass::NonEmpty => NON_EMPTY_DESKTOP,
            DesktopClass::Empty => EMPTY_DESKTOP,
        }
    }

    /// The style of a desktop's button when the bar is first drawn.
    pub fn of_desktop(desktop: &DesktopState) -> (r: DesktopClass)
        ensures
            r == desktop_class(desktop@),
    {
        if desktop.is_active {
            DesktopClass::Focused
        } else if desktop.is_urgent {
            DesktopClass::Urgent
        } else if desktop.node_count > 0 {
            DesktopClass::NonEmpty
        } else {
            DesktopClass::Empty
        }
    }

    /// The style of the button for desktop `desktop_id` after the bar's
    /// monitor changed to `monitor`.
    pub fn of_button(monitor: &MonitorState, desktop_id: u32) -> (r: DesktopClass)
        ensures
            r == button_class(monitor@, desktop_id),
    {
        let focused = match monitor.focused_desktop_state() {
            Some(d) => d.desktop_id == desktop_id,
            None => false,
        };
        if focused {
            DesktopClass::Focused
        } else {
            match monitor.find_desktop(desktop_id) {
                Some(d) => if d.is_urgent {
                    DesktopClass::Urgent
                } else if d.node_count > 0 {
                    DesktopClass::NonEmpty
                } else {
                    DesktopClass::Empty
                },
                None => DesktopClass::Empty,
            }
        }
    }
}

/// Whether a bar over `monitor` is to be shown or hidden; `None` where no
/// desktop is shown and the bar stays as it is.
pub fn bar_visible(monitor: &MonitorState) -> (r: Option<bool>)
    ensures
        r == bar_visibility(monitor@),
{
    match monitor.focused_desktop_state() {
        Some(d) => Some(!d.is_active_node_fullscreen),
        None => None,
    }
}

/// What the bar for the monitor called `monitor_name`, with one button for
/// each of the desktops `buttons`, is to do about `note`.
pub fn react(monitor_name: &str, buttons: &Vec<u32>, note: &SystemEvent) -> (r: Reaction)
    ensures
        is_reaction_to(r, monitor_name@, buttons@, note@),
{
    match note {
        SystemEvent::Tick => Reaction::RefreshFast,
        SystemEvent::SlowTick => Reaction::RefreshSlow,
        SystemEvent::DesktopStateUpdateNew(monitor) => {
            let mine = String::from_str(monitor_name);
            if monitor.monitor_name == mine {
                let mut classes: Vec<DesktopClass> = Vec::new();
                let mut k: usize = 0;
                while k < buttons.len()
                    invariant
                        k <= buttons.len(),
                        classes@.len() == k,
                        forall|j: int|
                            0 <= j < k ==> #[trigger] classes@[j] == button_class(
                                monitor@,
                                buttons@[j],
                            ),
                    decreases buttons.len() - k,
                {
                    classes.push(DesktopClass::of_button(monitor, buttons[k]));
                    k += 1;
                }
                Reaction::Redraw(
                    BarUpdate {
                        win_count: monitor.node_count_label(),
                        active_node: monitor.find_active_node(),
                        classes,
                        visible: bar_visible(monitor),
                    },
                )
            } else {
                Reaction::Ignore
            }
        },
    }
}

} // verus!
