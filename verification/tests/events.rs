use krowbar::desktop::{DesktopState, Layout};
use krowbar::error::SyncError;
use krowbar::ingest::{
    subscriptions, Demand, Flag, NodeState, Outcome, Subscription, Supply, SystemEvent, Switch,
    WmEvent,
};
use krowbar::listener::{listen_to_bspwm, Input, Listener, Phase};
use krowbar::monitor::MonitorState;
use krowbar::query::{Query, QueryFailure, QueryTarget};
use krowbar::state::BspwmState;

fn desk(id: u32, name: &str, is_active: bool, node_count: usize) -> DesktopState {
    DesktopState {
        desktop_id: id,
        desktop_name: name.to_string(),
        layout: Layout::Tiled,
        node_count,
        is_active,
        is_urgent: false,
        is_active_node_fullscreen: false,
        active_node: None,
    }
}

fn monitor_a() -> MonitorState {
    MonitorState {
        monitor_id: 10,
        monitor_name: "DP-1".to_string(),
        desktops: vec![desk(1, "I", true, 2), desk(2, "II", false, 0)],
    }
}

fn monitor_b() -> MonitorState {
    MonitorState {
        monitor_id: 20,
        monitor_name: "HDMI-1".to_string(),
        desktops: vec![desk(3, "III", true, 1)],
    }
}

fn model() -> BspwmState {
    BspwmState { monitors: vec![monitor_a(), monitor_b()] }
}

fn published(outcome: &Outcome) -> Vec<MonitorState> {
    outcome
        .published
        .iter()
        .map(|n| match n {
            SystemEvent::DesktopStateUpdateNew(m) => m.clone(),
            other => panic!("not a monitor: {:?}", other),
        })
        .collect()
}

fn swap(src: u32, dst: u32) -> WmEvent {
    WmEvent::NodeSwap {
        src_monitor_id: src,
        src_desktop_id: 1,
        src_node_id: 100,
        dst_monitor_id: dst,
        dst_desktop_id: 3,
        dst_node_id: 200,
    }
}

fn transfer(src: u32, dst: u32) -> WmEvent {
    WmEvent::NodeTransfer {
        src_monitor_id: src,
        src_desktop_id: 1,
        src_node_id: 100,
        dst_monitor_id: dst,
        dst_desktop_id: 3,
        dst_node_id: 0,
    }
}

fn fresh_counts() -> Supply {
    Supply::WindowCounts(vec![
        vec![Ok(vec![100]), Ok(vec![])],
        vec![Ok(vec![200, 201])],
    ])
}

#[test]
fn a_desktop_focus_event_moves_the_focus_and_publishes_the_monitor() {
    let mut s = model();
    let r = s.apply_event(WmEvent::DesktopFocus { monitor_id: 10, desktop_id: 2 }, &Supply::Nothing);
    assert_eq!(r.failure, None);
    assert!(!s.monitors[0].desktops[0].is_active);
    assert!(s.monitors[0].desktops[1].is_active);
    assert_eq!(s.monitors[0].node_count_label(), "");
    assert_eq!(published(&r), vec![s.monitors[0].clone()]);
    assert_eq!(published(&r)[0].node_count_label(), "");
    assert_eq!(s.monitors[1], monitor_b());
}

#[test]
fn a_node_focus_event_with_a_failed_lookup_is_not_fullscreen() {
    let mut s = model();
    let event = WmEvent::NodeFocus { monitor_id: 10, desktop_id: 2, node_id: 77 };
    let r = s.apply_event(event, &Supply::Fullscreen(Err(QueryFailure::Unreachable)));
    assert_eq!(r.failure, None);
    assert_eq!(s.monitors[0].desktops[1].active_node, Some(77));
    assert!(!s.monitors[0].desktops[1].is_active_node_fullscreen);
    assert_eq!(s.monitors[0].desktops[0].active_node, None);
    assert_eq!(published(&r), vec![s.monitors[0].clone()]);
}

#[test]
fn a_node_focus_event_takes_the_lookup_at_its_word() {
    let event = WmEvent::NodeFocus { monitor_id: 10, desktop_id: 2, node_id: 77 };
    let mut s = model();
    s.apply_event(event, &Supply::Fullscreen(Ok(vec![77])));
    assert!(s.monitors[0].desktops[1].is_active_node_fullscreen);
    let mut t = model();
    t.apply_event(event, &Supply::Fullscreen(Ok(vec![])));
    assert!(!t.monitors[0].desktops[1].is_active_node_fullscreen);
    assert_eq!(t.monitors[0].desktops[1].active_node, Some(77));
}

#[test]
fn a_node_focus_event_without_a_lookup_counts_as_a_failed_one() {
    let event = WmEvent::NodeFocus { monitor_id: 10, desktop_id: 2, node_id: 77 };
    let mut s = model();
    s.apply_event(event, &Supply::Nothing);
    assert_eq!(s.monitors[0].desktops[1].active_node, Some(77));
    assert!(!s.monitors[0].desktops[1].is_active_node_fullscreen);
    let mut t = model();
    t.apply_event(event, &fresh_counts());
    assert_eq!(s, t);
}

#[test]
fn a_node_swap_publishes_the_source_then_the_destination() {
    let mut s = model();
    let r = s.apply_event(swap(10, 20), &fresh_counts());
    assert_eq!(r.failure, None);
    assert_eq!(r.published.len(), 2);
    let notes = published(&r);
    assert_eq!(notes[0].monitor_name, "DP-1");
    assert_eq!(notes[1].monitor_name, "HDMI-1");
    assert_eq!(notes[0].desktops[0].node_count, 1);
    assert_eq!(notes[0].desktops[1].node_count, 0);
    assert_eq!(notes[1].desktops[0].node_count, 2);
    assert_eq!(notes[0], s.monitors[0]);
    assert_eq!(notes[1], s.monitors[1]);
}

#[test]
fn a_node_transfer_publishes_the_source_then_the_destination() {
    let mut s = model();
    let r = s.apply_event(transfer(20, 10), &fresh_counts());
    assert_eq!(r.failure, None);
    let notes = published(&r);
    assert_eq!(notes.len(), 2);
    assert_eq!(notes[0].monitor_id, 20);
    assert_eq!(notes[1].monitor_id, 10);
    assert_eq!(notes[0].desktops[0].node_count, 2);
    assert_eq!(notes[1].desktops[0].node_count, 1);
}

#[test]
fn a_swap_within_one_monitor_publishes_it_twice() {
    let mut s = model();
    let r = s.apply_event(swap(10, 10), &fresh_counts());
    let notes = published(&r);
    assert_eq!(notes.len(), 2);
    assert_eq!(notes[0], notes[1]);
    assert_eq!(notes[0], s.monitors[0]);
}

#[test]
fn a_move_from_an_unknown_monitor_fails_before_publishing() {
    let mut s = model();
    let r = s.apply_event(swap(99, 20), &fresh_counts());
    assert_eq!(r.failure, Some(SyncError::LookupNotFound));
    assert!(r.published.is_empty());
    assert_eq!(s.monitors[1].desktops[0].node_count, 2);
}

#[test]
fn a_move_to_an_unknown_monitor_fails_after_the_source() {
    let mut s = model();
    let r = s.apply_event(transfer(10, 99), &fresh_counts());
    assert_eq!(r.failure, Some(SyncError::LookupNotFound));
    let notes = published(&r);
    assert_eq!(notes.len(), 1);
    assert_eq!(notes[0].monitor_id, 10);
    assert_eq!(notes[0].desktops[0].node_count, 1);
}

#[test]
fn a_node_add_recounts_everything_and_publishes_its_monitor() {
    let mut s = model();
    let event = WmEvent::NodeAdd { monitor_id: 20, desktop_id: 3, node_id: 201 };
    let r = s.apply_event(event, &fresh_counts());
    assert_eq!(r.failure, None);
    let notes = published(&r);
    assert_eq!(notes.len(), 1);
    assert_eq!(notes[0].monitor_id, 20);
    assert_eq!(notes[0].desktops[0].node_count, 2);
    assert_eq!(s.monitors[0].desktops[0].node_count, 1);
}

#[test]
fn a_node_remove_recounts_everything_and_publishes_its_monitor() {
    let mut s = model();
    let event = WmEvent::NodeRemove { monitor_id: 10, desktop_id: 1, node_id: 100 };
    let r = s.apply_event(event, &fresh_counts());
    assert_eq!(r.failure, None);
    assert_eq!(published(&r), vec![s.monitors[0].clone()]);
    assert_eq!(s.monitors[0].desktops[0].node_count, 1);
    assert_eq!(s.monitors[1].desktops[0].node_count, 2);
}

#[test]
fn a_node_add_on_an_unknown_monitor_fails_after_the_recount() {
    let mut s = model();
    let event = WmEvent::NodeAdd { monitor_id: 99, desktop_id: 3, node_id: 201 };
    let r = s.apply_event(event, &fresh_counts());
    assert_eq!(r.failure, Some(SyncError::LookupNotFound));
    assert!(r.published.is_empty());
    assert_eq!(s.monitors[0].desktops[0].node_count, 1);
    assert_eq!(s.monitors[1].desktops[0].node_count, 2);
}

#[test]
fn a_structural_event_without_counts_counts_no_windows() {
    let mut s = model();
    let event = WmEvent::NodeAdd { monitor_id: 10, desktop_id: 1, node_id: 5 };
    let r = s.apply_event(event, &Supply::Nothing);
    assert_eq!(r.failure, None);
    assert!(s.monitors.iter().all(|m| m.desktops.iter().all(|d| d.node_count == 0)));
}

#[test]
fn an_unrecognized_event_changes_and_publishes_nothing() {
    let untracked = [
        WmEvent::Other,
        WmEvent::NodeFlag {
            monitor_id: 10,
            desktop_id: 1,
            node_id: 5,
            flag: Flag::Sticky,
            switch: Switch::On,
        },
        WmEvent::NodeFlag {
            monitor_id: 10,
            desktop_id: 1,
            node_id: 5,
            flag: Flag::Hidden,
            switch: Switch::Off,
        },
        WmEvent::NodeState {
            monitor_id: 10,
            desktop_id: 1,
            node_id: 5,
            state: NodeState::Floating,
            switch: Switch::On,
        },
        WmEvent::NodeState {
            monitor_id: 99,
            desktop_id: 1,
            node_id: 5,
            state: NodeState::Tiled,
            switch: Switch::On,
        },
    ];
    for event in untracked {
        for supply in [Supply::Nothing, Supply::Fullscreen(Ok(vec![5])), fresh_counts()] {
            let mut s = model();
            let r = s.apply_event(event, &supply);
            assert_eq!(s, model());
            assert!(r.published.is_empty());
            assert_eq!(r.failure, None);
            assert_eq!(s.demand(&event), Demand::Nothing);
        }
    }
}

#[test]
fn an_urgent_flag_marks_the_desktop() {
    let mut s = model();
    let on = WmEvent::NodeFlag {
        monitor_id: 10,
        desktop_id: 2,
        node_id: 5,
        flag: Flag::Urgent,
        switch: Switch::On,
    };
    let r = s.apply_event(on, &Supply::Nothing);
    assert!(s.monitors[0].desktops[1].is_urgent);
    assert!(!s.monitors[0].desktops[0].is_urgent);
    assert_eq!(published(&r), vec![s.monitors[0].clone()]);
    let off = WmEvent::NodeFlag {
        monitor_id: 10,
        desktop_id: 2,
        node_id: 5,
        flag: Flag::Urgent,
        switch: Switch::Off,
    };
    s.apply_event(off, &Supply::Nothing);
    assert_eq!(s, model());
}

#[test]
fn an_urgent_flag_for_an_unknown_desktop_still_publishes_the_monitor() {
    let mut s = model();
    let event = WmEvent::NodeFlag {
        monitor_id: 10,
        desktop_id: 99,
        node_id: 5,
        flag: Flag::Urgent,
        switch: Switch::On,
    };
    let r = s.apply_event(event, &Supply::Nothing);
    assert_eq!(s, model());
    assert_eq!(r.failure, None);
    assert_eq!(published(&r), vec![monitor_a()]);
}

#[test]
fn a_fullscreen_state_marks_the_desktop() {
    let mut s = model();
    s.monitors[0].desktops[0].active_node = Some(5);
    let on = WmEvent::NodeState {
        monitor_id: 10,
        desktop_id: 1,
        node_id: 5,
        state: NodeState::Fullscreen,
        switch: Switch::On,
    };
    let r = s.apply_event(on, &Supply::Nothing);
    assert!(s.monitors[0].desktops[0].is_active_node_fullscreen);
    assert_eq!(published(&r), vec![s.monitors[0].clone()]);
    let off = WmEvent::NodeState {
        monitor_id: 10,
        desktop_id: 1,
        node_id: 5,
        state: NodeState::Fullscreen,
        switch: Switch::Off,
    };
    s.apply_event(off, &Supply::Nothing);
    assert!(!s.monitors[0].desktops[0].is_active_node_fullscreen);
}

#[test]
fn an_event_for_an_unknown_monitor_fails_and_changes_nothing() {
    let events = [
        WmEvent::DesktopFocus { monitor_id: 99, desktop_id: 2 },
        WmEvent::NodeFocus { monitor_id: 99, desktop_id: 2, node_id: 77 },
        WmEvent::NodeFlag {
            monitor_id: 99,
            desktop_id: 2,
            node_id: 5,
            flag: Flag::Urgent,
            switch: Switch::On,
        },
        WmEvent::NodeState {
            monitor_id: 99,
            desktop_id: 2,
            node_id: 5,
            state: NodeState::Fullscreen,
            switch: Switch::On,
        },
    ];
    for event in events {
        let mut s = model();
        let r = s.apply_event(event, &Supply::Fullscreen(Ok(vec![77])));
        assert_eq!(r.failure, Some(SyncError::LookupNotFound));
        assert!(r.published.is_empty());
        assert_eq!(s, model());
    }
}

#[test]
fn a_node_focus_on_a_known_desktop_demands_the_fullscreen_lookup() {
    let s = model();
    let d = s.demand(&WmEvent::NodeFocus { monitor_id: 10, desktop_id: 2, node_id: 77 });
    assert_eq!(
        d,
        Demand::Fullscreen(Query {
            target: QueryTarget::Nodes,
            reference: Some("77".to_string()),
            monitor: None,
            desktop: Some("2".to_string()),
            node: Some(".fullscreen".to_string()),
        })
    );
}

#[test]
fn a_node_focus_on_an_unknown_desktop_or_monitor_demands_nothing() {
    let s = model();
    let unknown_desktop = WmEvent::NodeFocus { monitor_id: 10, desktop_id: 3, node_id: 77 };
    assert_eq!(s.demand(&unknown_desktop), Demand::Nothing);
    let unknown_monitor = WmEvent::NodeFocus { monitor_id: 99, desktop_id: 2, node_id: 77 };
    assert_eq!(s.demand(&unknown_monitor), Demand::Nothing);
}

#[test]
fn structural_events_demand_every_window_count() {
    let s = model();
    let expected = Demand::WindowCounts(vec![
        vec![Query::visible_windows("I"), Query::visible_windows("II")],
        vec![Query::visible_windows("III")],
    ]);
    assert_eq!(s.demand(&WmEvent::NodeAdd { monitor_id: 10, desktop_id: 1, node_id: 5 }), expected);
    assert_eq!(
        s.demand(&WmEvent::NodeRemove { monitor_id: 99, desktop_id: 1, node_id: 5 }),
        expected
    );
    assert_eq!(s.demand(&swap(10, 20)), expected);
    assert_eq!(s.demand(&transfer(10, 20)), expected);
}

#[test]
fn targeted_events_demand_nothing() {
    let s = model();
    assert_eq!(s.demand(&WmEvent::DesktopFocus { monitor_id: 10, desktop_id: 2 }), Demand::Nothing);
    let urgent = WmEvent::NodeFlag {
        monitor_id: 10,
        desktop_id: 2,
        node_id: 5,
        flag: Flag::Urgent,
        switch: Switch::On,
    };
    assert_eq!(s.demand(&urgent), Demand::Nothing);
}

#[test]
fn the_subscriptions_are_the_eight_followed_kinds() {
    assert_eq!(
        subscriptions(),
        vec![
            Subscription::DesktopFocus,
            Subscription::NodeAdd,
            Subscription::NodeRemove,
            Subscription::NodeFocus,
            Subscription::NodeState,
            Subscription::NodeFlag,
            Subscription::NodeSwap,
            Subscription::NodeTransfer,
        ]
    );
}

#[test]
fn a_notification_is_a_copy_that_the_consumer_owns() {
    let mut s = model();
    let mut r = s.apply_event(WmEvent::DesktopFocus { monitor_id: 10, desktop_id: 2 }, &Supply::Nothing);
    match &mut r.published[0] {
        SystemEvent::DesktopStateUpdateNew(m) => {
            m.desktops[0].node_count = 1000;
            m.desktops.pop();
        }
        _ => panic!("a monitor was published"),
    }
    assert_eq!(s.monitors[0].desktops.len(), 2);
    assert_eq!(s.monitors[0].desktops[0].node_count, 2);
}

#[test]
fn a_late_consumer_gets_a_whole_monitor() {
    let mut s = model();
    let events = [
        (WmEvent::NodeFocus { monitor_id: 10, desktop_id: 1, node_id: 100 }, Supply::Fullscreen(Ok(vec![]))),
        (WmEvent::DesktopFocus { monitor_id: 10, desktop_id: 2 }, Supply::Nothing),
        (WmEvent::NodeAdd { monitor_id: 10, desktop_id: 2, node_id: 300 }, fresh_counts()),
        (WmEvent::NodeFocus { monitor_id: 10, desktop_id: 2, node_id: 300 }, Supply::Fullscreen(Ok(vec![300]))),
    ];
    let mut last = None;
    for (event, supply) in events {
        let r = s.apply_event(event, &supply);
        assert_eq!(r.failure, None);
        last = published(&r).pop();
    }
    let seen = last.expect("the last event published");
    assert_eq!(seen, s.monitors[0]);
    assert_eq!(seen.desktops.iter().filter(|d| d.is_active).count(), 1);
    assert_eq!(seen.desktops[1].active_node, Some(300));
    assert!(seen.desktops[1].is_active_node_fullscreen);
    assert_eq!(seen.desktops[0].active_node, None);
    assert!(seen.desktops.iter().all(|d| !d.is_active_node_fullscreen || d.active_node.is_some()));
}

#[test]
fn a_listener_subscribes_then_streams() {
    let mut l = Listener::new(model());
    assert_eq!(l.phase, Phase::Subscribing);
    assert!(!l.is_terminated());
    let early = Input::Event(WmEvent::DesktopFocus { monitor_id: 10, desktop_id: 2 }, Supply::Nothing);
    let r = l.step(&early);
    assert!(r.published.is_empty());
    assert_eq!(r.failure, None);
    assert_eq!(l.phase, Phase::Subscribing);
    assert_eq!(l.state, model());
    let r = l.step(&Input::Subscribed);
    assert!(r.published.is_empty());
    assert_eq!(l.phase, Phase::Streaming);
    let r = l.step(&early);
    assert_eq!(r.published.len(), 1);
    assert_eq!(l.phase, Phase::Streaming);
    assert!(l.state.monitors[0].desktops[1].is_active);
}

#[test]
fn a_listener_that_cannot_subscribe_terminates() {
    let mut l = Listener::new(model());
    let r = l.step(&Input::SubscribeFailed);
    assert_eq!(r.failure, Some(SyncError::StreamFault));
    assert!(l.is_terminated());
    let mut m = Listener::new(model());
    let r = m.step(&Input::StreamFault);
    assert_eq!(r.failure, Some(SyncError::StreamFault));
    assert_eq!(m.phase, Phase::Terminated);
}

#[test]
fn a_streaming_listener_skips_what_is_no_event() {
    let mut l = Listener::new(model());
    l.step(&Input::Subscribed);
    for input in [
        Input::Malformed,
        Input::Event(WmEvent::Other, Supply::Nothing),
        Input::Subscribed,
        Input::SubscribeFailed,
    ] {
        let r = l.step(&input);
        assert!(r.published.is_empty());
        assert_eq!(r.failure, None);
        assert_eq!(l.phase, Phase::Streaming);
        assert_eq!(l.state, model());
    }
}

#[test]
fn a_stream_fault_terminates_a_streaming_listener() {
    let mut l = Listener::new(model());
    l.step(&Input::Subscribed);
    let r = l.step(&Input::StreamFault);
    assert_eq!(r.failure, Some(SyncError::StreamFault));
    assert!(r.published.is_empty());
    assert!(l.is_terminated());
    assert_eq!(l.state, model());
}

#[test]
fn a_failed_event_terminates_a_streaming_listener() {
    let mut l = Listener::new(model());
    l.step(&Input::Subscribed);
    let r = l.step(&Input::Event(transfer(10, 99), fresh_counts()));
    assert_eq!(r.failure, Some(SyncError::LookupNotFound));
    assert_eq!(r.published.len(), 1);
    assert!(l.is_terminated());
}

#[test]
fn a_terminated_listener_stays_terminated() {
    let mut l = Listener::new(model());
    l.step(&Input::Subscribed);
    l.step(&Input::StreamFault);
    let frozen = l.state.clone();
    for input in [
        Input::Subscribed,
        Input::SubscribeFailed,
        Input::Malformed,
        Input::StreamFault,
        Input::Event(WmEvent::DesktopFocus { monitor_id: 10, desktop_id: 2 }, Supply::Nothing),
        Input::Event(swap(10, 20), fresh_counts()),
    ] {
        let r = l.step(&input);
        assert!(r.published.is_empty());
        assert_eq!(r.failure, None);
        assert!(l.is_terminated());
        assert_eq!(l.state, frozen);
    }
}

#[test]
fn a_session_publishes_in_the_order_of_its_events() {
    let session = listen_to_bspwm(
        model(),
        &vec![
            Input::Subscribed,
            Input::Event(WmEvent::DesktopFocus { monitor_id: 10, desktop_id: 2 }, Supply::Nothing),
            Input::Malformed,
            Input::Event(swap(20, 10), fresh_counts()),
            Input::Event(WmEvent::Other, Supply::Nothing),
        ],
    );
    assert_eq!(session.failure, None);
    assert_eq!(session.listener.phase, Phase::Streaming);
    let ids: Vec<u32> = session
        .published
        .iter()
        .map(|n| match n {
            SystemEvent::DesktopStateUpdateNew(m) => m.monitor_id,
            other => panic!("not a monitor: {:?}", other),
        })
        .collect();
    assert_eq!(ids, vec![10, 20, 10]);
    assert!(session.listener.state.monitors[0].desktops[1].is_active);
    assert_eq!(session.listener.state.monitors[1].desktops[0].node_count, 2);
    match &session.published[2] {
        SystemEvent::DesktopStateUpdateNew(m) => assert_eq!(m, &session.listener.state.monitors[0]),
        other => panic!("not a monitor: {:?}", other),
    }
}

#[test]
fn a_session_ends_at_its_first_failure() {
    let session = listen_to_bspwm(
        model(),
        &vec![
            Input::Subscribed,
            Input::Event(WmEvent::DesktopFocus { monitor_id: 99, desktop_id: 2 }, Supply::Nothing),
            Input::Event(WmEvent::DesktopFocus { monitor_id: 10, desktop_id: 2 }, Supply::Nothing),
            Input::StreamFault,
        ],
    );
    assert_eq!(session.failure, Some(SyncError::LookupNotFound));
    assert!(session.listener.is_terminated());
    assert!(session.published.is_empty());
    assert_eq!(session.listener.state, model());
}

#[test]
fn a_session_without_inputs_has_yet_to_subscribe() {
    let session = listen_to_bspwm(model(), &vec![]);
    assert_eq!(session.listener, Listener::new(model()));
    assert!(session.published.is_empty());
    assert_eq!(session.failure, None);
    let unsubscribed = listen_to_bspwm(
        model(),
        &vec![Input::Event(WmEvent::DesktopFocus { monitor_id: 10, desktop_id: 2 }, Supply::Nothing)],
    );
    assert_eq!(unsubscribed.listener.phase, Phase::Subscribing);
    assert_eq!(unsubscribed.listener.state, model());
    assert!(unsubscribed.published.is_empty());
}
