//! Requests to the window manager's query interface and the reading of its
//! replies.
//!
//! A request names what is enumerated and narrows it by up to four selectors.
//! A reply is the ordered list of matching ids, or a failure. Every reply is a
//! point-in-time answer; nothing is cached.

use vstd::prelude::*;
use vstd::string::StringExecFns;
use crate::text::{decimal, decimal_string};

verus! {

/// Why a query produced no list of ids.
#[derive(Debug, Clone, Copy, PartialEq, Eq, Structural)]
pub enum QueryFailure {
    /// The window manager could not be reached.
    Unreachable,
    /// The window manager answered with something that is no list of ids.
    Malformed,
}

/// What a query enumerates.
#[derive(Debug, Clone, Copy, PartialEq, Eq, Structural)]
pub enum QueryTarget {
    Monitors,
    Desktops,
    Nodes,
}

/// One request to the window manager.
#[derive(Debug, Clone, PartialEq, Eq)]
pub struct Query {
    pub target: QueryTarget,
    /// Selector of the entity the request refers to, if any.
    pub reference: Option<String>,
    /// Restricts the answer to what lies on the selected monitor.
    pub monitor: Option<String>,
    /// Restricts the answer to the selected desktops.
    pub desktop: Option<String>,
    /// Restricts the answer to the selected nodes.
    pub node: Option<String>,
}

/// The mathematical content of a [`Query`].
pub struct QueryView {
    pub target: QueryTarget,
    pub reference: Option<Seq<char>>,
    pub monitor: Option<Seq<char>>,
    pub desktop: Option<Seq<char>>,
    pub node: Option<Seq<char>>,
}

pub open spec fn text_of(s: Option<String>) -> Option<Seq<char>> {
    match s {
        Some(t) => Some(t@),
        None => None,
    }
}

impl View for Query {
    type V = QueryView;

    open spec fn view(&self) -> QueryView {
        QueryView {
            target: self.target,
            reference: text_of(self.reference),
            monitor: text_of(self.monitor),
            desktop: text_of(self.desktop),
            node: text_of(self.node),
        }
    }
}

/// Selector of the desktops that are shown on their monitor.
pub open spec fn active_selector() -> Seq<char> {
    seq!['.', 'a', 'c', 't', 'i', 'v', 'e']
}

/// Selector of the nodes that are in the fullscreen state.
pub open spec fn fullscreen_selector() -> Seq<char> {
    seq!['.', 'f', 'u', 'l', 'l', 's', 'c', 'r', 'e', 'e', 'n']
}

/// Selector of the nodes that are windows and are not hidden.
pub open spec fn visible_window_selector() -> Seq<char> {
    seq!['.', 'w', 'i', 'n', 'd', 'o', 'w', '.', '!', 'h', 'i', 'd', 'd', 'e', 'n']
}

fn active_text() -> (r: String)
    ensures
        r@ == active_selector(),
{
    proof {
        reveal_strlit(".active");
    }
    let r = String::from_str(".active");
    assert(r@ =~= active_selector());
    r
}

fn fullscreen_text() -> (r: String)
    ensures
        r@ == fullscreen_selector(),
{
    proof {
        reveal_strlit(".fullscreen");
    }
    let r = String::from_str(".fullscreen");
    assert(r@ =~= fullscreen_selector());
    r
}

fn visible_window_text() -> (r: String)
    ensures
        r@ == visible_window_selector(),
{
    proof {
        reveal_strlit(".window.!hidden");
    }
    let r = String::from_str(".window.!hidden");
    assert(r@ =~= visible_window_selector());
    r
}

impl Query {
    /// Asks for the id of the monitor called `monitor_name`.
    pub fn monitor_id(monitor_name: &str) -> (q: Query)
        ensures
            q@ == (QueryView {
                target: QueryTarget::Monitors,
                reference: None,
                monitor: Some(monitor_name@),
                desktop: None,
                node: None,
            }),
    {
        Query {
            target: QueryTarget::Monitors,
            reference: None,
            monitor: Some(String::from_str(monitor_name)),
            desktop: None,
            node: None,
        }
    }

    /// Asks which desktop of the monitor called `monitor_name` is shown on it.
    pub fn active_desktop(monitor_name: &str) -> (q: Query)
        ensures
            q@ == (QueryView {
                target: QueryTarget::Desktops,
                reference: None,
                monitor: Some(monitor_name@),
                desktop: Some(active_selector()),
                node: None,
            }),
    {
        Query {
            target: QueryTarget::Desktops,
            reference: None,
            monitor: Some(String::from_str(monitor_name)),
            desktop: Some(active_text()),
            node: None,
        }
    }

    /// Asks for the id of the desktop called `desktop_name`.
    pub fn desktop_id(desktop_name: &str) -> (q: Query)
        ensures
            q@ == (QueryView {
                target: QueryTarget::Desktops,
                reference: None,
                monitor: None,
                desktop: Some(desktop_name@),
                node: None,
            }),
    {
        Query {
            target: QueryTarget::Desktops,
            reference: None,
            monitor: None,
            desktop: Some(String::from_str(desktop_name)),
            node: None,
        }
    }

    /// Asks for the visible windows on the desktop called `desktop_name`.
    pub fn visible_windows(desktop_name: &str) -> (q: Query)
        ensures
            q@ == (QueryView {
                target: QueryTarget::Nodes,
                reference: None,
                monitor: None,
                desktop: Some(desktop_name@),
                node: Some(visible_window_selector()),
            }),
    {
        Query {
            target: QueryTarget::Nodes,
            reference: None,
            monitor: None,
            desktop: Some(String::from_str(desktop_name)),
            node: Some(visible_window_text()),
        }
    }

    /// Asks for the active node of the desktop called `desktop_name`.
    pub fn active_node(desktop_name: &str) -> (q: Query)
        ensures
            q@ == (QueryView {
                target: QueryTarget::Nodes,
                reference: None,
                monitor: None,
                desktop: Some(desktop_name@),
                node: Some(active_selector()),
            }),
    {
        Query {
            target: QueryTarget::Nodes,
            reference: None,
            monitor: None,
            desktop: Some(String::from_str(desktop_name)),
            node: Some(active_text()),
        }
    }

    /// Asks whether node `node_id` is fullscreen on desktop `desktop_id`: the
    /// answer lists the node if it is, and is empty if it is not.
    pub fn fullscreen(node_id: u32, desktop_id: u32) -> (q: Query)
        ensures
            q@ == (QueryView {
                target: QueryTarget::Nodes,
                reference: Some(decimal(node_id as nat)),
                monitor: None,
                desktop: Some(decimal(desktop_id as nat)),
                node: Some(fullscreen_selector()),
            }),
    {
        Query {
            target: QueryTarget::Nodes,
            reference: Some(decimal_string(node_id as u64)),
            monitor: None,
            desktop: Some(decimal_string(desktop_id as u64)),
            node: Some(fullscreen_text()),
        }
    }
}

/// The number of ids in a reply; a failed query counts as none.
pub open spec fn reply_count(reply: Result<Vec<u32>, QueryFailure>) -> nat {
    match reply {
        Ok(ids) => ids@.len(),
        Err(_) => 0,
    }
}

/// The first id of a reply, where the query succeeded and matched anything.
pub open spec fn reply_first(reply: Result<Vec<u32>, QueryFailure>) -> Option<u32> {
    match reply {
        Ok(ids) => if ids@.len() > 0 {
            Some(ids@[0])
        } else {
            None
        },
        Err(_) => None,
    }
}

/// Reads the first id off a reply, if there is one.
pub fn first_id(reply: &Result<Vec<u32>, QueryFailure>) -> (r: Option<u32>)
    ensures
        r == reply_first(*reply),
{
    match reply {
        Ok(ids) => if ids.len() > 0 {
            Some(ids[0])
        } else {
            None
        },
        Err(_) => None,
    }
}

} // verus!
