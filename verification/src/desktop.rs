//! One desktop of a monitor and what the model knows about it.

use vstd::prelude::*;
use vstd::string::StringExecFns;
use crate::error::SyncError;
use crate::query::{first_id, reply_count, reply_first, QueryFailure};
use crate::text::{decimal, decimal_string};

verus! {

/// How a desktop arranges its windows.
#[derive(Debug, Clone, Copy, PartialEq, Eq, Structural)]
pub enum Layout {
    Tiled,
    Monocle,
}

/// The state of one desktop.
///
/// `active_node` is a lookup key only: the node itself belongs to the window
/// manager and is resolved on demand.
#[derive(Debug, PartialEq, Eq)]
pub struct DesktopState {
    pub desktop_id: u32,
    pub desktop_name: String,
    pub layout: Layout,
    pub node_count: usize,
    pub is_active: bool,
    pub is_urgent: bool,
    pub is_active_node_fullscreen: bool,
    pub active_node: Option<u32>,
}

/// The mathematical content of a [`DesktopState`].
pub struct DesktopView {
    pub id: u32,
    pub name: Seq<char>,
    pub layout: Layout,
    pub node_count: nat,
    pub is_active: bool,
    pub is_urgent: bool,
    pub is_active_node_fullscreen: bool,
    pub active_node: Option<u32>,
}

impl View for DesktopState {
    type V = DesktopView;

    open spec fn view(&self) -> DesktopView {
        DesktopView {
            id: self.desktop_id,
            name: self.desktop_name@,
            layout: self.layout,
            node_count: self.node_count as nat,
            is_active: self.is_active,
            is_urgent: self.is_urgent,
            is_active_node_fullscreen: self.is_active_node_fullscreen,
            active_node: self.active_node,
        }
    }
}

impl DesktopView {
    /// A desktop can only show its active node as fullscreen if it has one.
    pub open spec fn consistent(self) -> bool {
        self.is_active_node_fullscreen ==> self.active_node is Some
    }

    /// The window-count label of the desktop.
    ///
    /// A desktop without windows has no label. A tiled desktop with windows is
    /// labelled `[T]`; a monocle desktop, where windows hide each other, is
    /// labelled with their number in brackets.
    pub open spec fn label(self) -> Seq<char> {
        if self.node_count == 0 {
            Seq::<char>::empty()
        } else {
            match self.layout {
                Layout::Tiled => seq!['[', 'T', ']'],
                Layout::Monocle => seq!['['] + decimal(self.node_count) + seq![']'],
            }
        }
    }

    /// The desktop as it is first seen: named `name`, with the replies to the
    /// three queries about it, on a monitor that shows `active_desktop_id`.
    pub open spec fn probed(
        name: Seq<char>,
        active_desktop_id: Option<u32>,
        id: u32,
        windows: Result<Vec<u32>, QueryFailure>,
        active_node: Result<Vec<u32>, QueryFailure>,
    ) -> DesktopView {
        DesktopView {
            id,
            name,
            layout: Layout::Tiled,
            node_count: reply_count(windows),
            is_active: active_desktop_id == Some(id),
            is_urgent: false,
            is_active_node_fullscreen: false,
            active_node: reply_first(active_node),
        }
    }

    pub open spec fn with_fullscreen(self, flag: bool) -> DesktopView {
        DesktopView { is_active_node_fullscreen: flag, ..self }
    }

    pub open spec fn with_urgent(self, flag: bool) -> DesktopView {
        DesktopView { is_urgent: flag, ..self }
    }

    pub open spec fn with_layout(self, layout: Layout) -> DesktopView {
        DesktopView { layout, ..self }
    }

    pub open spec fn with_active(self, flag: bool) -> DesktopView {
        DesktopView { is_active: flag, ..self }
    }

    pub open spec fn with_node_count(self, count: nat) -> DesktopView {
        DesktopView { node_count: count, ..self }
    }

    /// The desktop after node `node_id` was reported active on the desktop
    /// `desktop_id` of its monitor, where `fullscreen` is what the lookup of
    /// that node's fullscreen state gave. A failed lookup counts as "not
    /// fullscreen".
    pub open spec fn with_node_focus(
        self,
        desktop_id: u32,
        node_id: u32,
        fullscreen: Result<bool, QueryFailure>,
    ) -> DesktopView {
        if self.id == desktop_id {
            DesktopView {
                active_node: Some(node_id),
                is_active_node_fullscreen: fullscreen == Ok::<bool, QueryFailure>(true),
                ..self
            }
        } else {
            DesktopView { active_node: None, is_active_node_fullscreen: false, ..self }
        }
    }
}

impl Clone for DesktopState {
    fn clone(&self) -> (r: Self)
        ensures
            r@ == self@,
    {
        DesktopState {
            desktop_id: self.desktop_id,
            desktop_name: self.desktop_name.clone(),
            layout: self.layout,
            node_count: self.node_count,
            is_active: self.is_active,
            is_urgent: self.is_urgent,
            is_active_node_fullscreen: self.is_active_node_fullscreen,
            active_node: self.active_node,
        }
    }
}

impl DesktopState {
    /// Builds the desktop called `desktop_name` from the replies to the queries
    /// for its id, its visible windows and its active node.
    ///
    /// Fails if the id query failed, or matched no desktop. A failed window
    /// query counts as no windows, a failed active-node query as no active
    /// node.
    pub fn new(
        desktop_name: String,
        active_desktop_id: Option<u32>,
        id_reply: &Result<Vec<u32>, QueryFailure>,
        window_reply: &Result<Vec<u32>, QueryFailure>,
        active_node_reply: &Result<Vec<u32>, QueryFailure>,
    ) -> (r: Result<DesktopState, SyncError>)
        ensures
            match *id_reply {
                Err(e) => r == Err::<DesktopState, SyncError>(SyncError::QueryFailure(e)),
                Ok(ids) => if ids@.len() == 0 {
                    r == Err::<DesktopState, SyncError>(SyncError::LookupNotFound)
                } else {
                    r is Ok && r->Ok_0@ == DesktopView::probed(
                        desktop_name@,
                        active_desktop_id,
                        ids@[0],
                        *window_reply,
                        *active_node_reply,
                    )
                },
            },
    {
        let desktop_id: u32 = match id_reply {
            Err(e) => {
                return Err(SyncError::QueryFailure(*e));
            },
            Ok(ids) => {
                if ids.len() == 0 {
                    return Err(SyncError::LookupNotFound);
                }
                ids[0]
            },
        };
        let node_count = Self::count_nodes(window_reply);
        let active_node = first_id(active_node_reply);
        let is_active = match active_desktop_id {
            Some(a) => a == desktop_id,
            None => false,
        };
        Ok(
            DesktopState {
                desktop_id,
                desktop_name,
                layout: Layout::Tiled,
                node_count,
                is_active,
                is_urgent: false,
                is_active_node_fullscreen: false,
                active_node,
            },
        )
    }

    /// Records whether the desktop's active node is fullscreen.
    pub fn set_fullscreen(&mut self, is_fullscreen: bool)
        ensures
            final(self)@ == old(self)@.with_fullscreen(is_fullscreen),
    {
        self.is_active_node_fullscreen = is_fullscreen
    }

    /// Records whether a window on the desktop asks for attention.
    pub fn set_urgent(&mut self, is_urgent: bool)
        ensures
            final(self)@ == old(self)@.with_urgent(is_urgent),
    {
        self.is_urgent = is_urgent
    }

    /// Replaces the window count by what a fresh window query answered.
    pub fn update_node_count(&mut self, window_reply: &Result<Vec<u32>, QueryFailure>)
        ensures
            final(self)@ == old(self)@.with_node_count(reply_count(*window_reply)),
    {
        self.node_count = Self::count_nodes(window_reply);
    }

    /// The number of windows that a window query found; none if it failed.
    pub fn count_nodes(window_reply: &Result<Vec<u32>, QueryFailure>) -> (n: usize)
        ensures
            n == reply_count(*window_reply),
    {
        match window_reply {
            Ok(nodes) => nodes.len(),
            Err(_) => 0,
        }
    }

    /// The window-count label of the desktop.
    pub fn node_count_label(&self) -> (r: String)
        ensures
            r@ == self@.label(),
    {
        if self.node_count == 0 {
            String::new()
        } else {
            match self.layout {
                Layout::Tiled => {
                    proof {
                        reveal_strlit("[T]");
                    }
                    let r = String::from_str("[T]");
                    assert(r@ =~= seq!['[', 'T', ']']);
                    r
                },
                Layout::Monocle => {
                    proof {
                        reveal_strlit("[");
                        reveal_strlit("]");
                    }
                    let mut r = String::from_str("[");
                    let digits = decimal_string(self.node_count as u64);
                    r.append(digits.as_str());
                    r.append("]");
                    assert(r@ =~= seq!['['] + decimal(self.node_count as nat) + seq![']']);
                    r
                },
            }
        }
    }
}

} // verus!
