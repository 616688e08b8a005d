//! A live model of a tiling window manager's layout: monitors, their desktops,
//! and the focus, urgency, fullscreen and window-count state of each desktop.
//!
//! The model is kept in step with the window manager by feeding it the events
//! the window manager emits together with the replies to the queries those
//! events call for. Nothing here performs I/O: callers run the queries and
//! deliver the notifications that the model hands back.
//!
//! * [`query`]: requests to the window manager and the reading of replies.
//! * [`desktop`], [`monitor`], [`state`]: the model and its operations.
//! * [`ingest`]: what each event does to the model and what it publishes.
//! * [`listener`]: the life of the event subscription.
//! * [`laws`], [`invariants`]: what holds of the model whatever it is fed.
//! * [`render`]: what a bar shows of a monitor.
//! * [`config`], [`placement`], [`command`], [`text`], [`instruments`]: what
//!   surrounds the model.

pub mod text;
pub mod search;
pub mod query;
pub mod error;
pub mod desktop;
pub mod monitor;
pub mod state;
pub mod ingest;
pub mod listener;
pub mod laws;
pub mod invariants;
pub mod render;
pub mod config;
pub mod placement;
pub mod command;
pub mod instruments;
