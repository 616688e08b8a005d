use krowbar::desktop::{DesktopState, Layout};
use krowbar::ingest::SystemEvent;
use krowbar::monitor::MonitorState;
use krowbar::render::{
    bar_visible, react, BarUpdate, DesktopClass, Reaction, EMPTY_DESKTOP, FOCUSED_DESKTOP,
    NON_EMPTY_DESKTOP, URGENT_DESKTOP,
};

fn desk(id: u32, is_active: bool, is_urgent: bool, node_count: usize) -> DesktopState {
    DesktopState {
        desktop_id: id,
        desktop_name: format!("d{}", id),
        layout: Layout::Monocle,
        node_count,
        is_active,
        is_urgent,
        is_active_node_fullscreen: false,
        active_node: None,
    }
}

fn screen() -> MonitorState {
    MonitorState {
        monitor_id: 10,
        monitor_name: "DP-1".to_string(),
        desktops: vec![
            desk(1, true, true, 3),
            desk(2, false, true, 3),
            desk(3, false, false, 3),
            desk(4, false, false, 0),
        ],
    }
}

#[test]
fn style_names_are_the_css_classes() {
    assert_eq!(DesktopClass::Focused.css(), "focused-desktop");
    assert_eq!(DesktopClass::Urgent.css(), "urgent-desktop");
    assert_eq!(DesktopClass::NonEmpty.css(), "non-empty-desktop");
    assert_eq!(DesktopClass::Empty.css(), "empty-desktop");
    assert_eq!(FOCUSED_DESKTOP, "focused-desktop");
    assert_eq!(URGENT_DESKTOP, "urgent-desktop");
    assert_eq!(NON_EMPTY_DESKTOP, "non-empty-desktop");
    assert_eq!(EMPTY_DESKTOP, "empty-desktop");
}

#[test]
fn a_desktop_is_styled_focused_before_urgent_before_occupied() {
    assert_eq!(DesktopClass::of_desktop(&desk(1, true, true, 3)), DesktopClass::Focused);
    assert_eq!(DesktopClass::of_desktop(&desk(1, true, false, 0)), DesktopClass::Focused);
    assert_eq!(DesktopClass::of_desktop(&desk(1, false, true, 3)), DesktopClass::Urgent);
    assert_eq!(DesktopClass::of_desktop(&desk(1, false, true, 0)), DesktopClass::Urgent);
    assert_eq!(DesktopClass::of_desktop(&desk(1, false, false, 1)), DesktopClass::NonEmpty);
    assert_eq!(DesktopClass::of_desktop(&desk(1, false, false, 0)), DesktopClass::Empty);
}

#[test]
fn a_button_is_styled_after_the_monitor() {
    let m = screen();
    assert_eq!(DesktopClass::of_button(&m, 1), DesktopClass::Focused);
    assert_eq!(DesktopClass::of_button(&m, 2), DesktopClass::Urgent);
    assert_eq!(DesktopClass::of_button(&m, 3), DesktopClass::NonEmpty);
    assert_eq!(DesktopClass::of_button(&m, 4), DesktopClass::Empty);
    assert_eq!(DesktopClass::of_button(&m, 99), DesktopClass::Empty);
}

#[test]
fn only_the_first_shown_desktop_is_styled_focused() {
    let mut m = screen();
    m.desktops[2].is_active = true;
    assert_eq!(DesktopClass::of_button(&m, 1), DesktopClass::Focused);
    assert_eq!(DesktopClass::of_button(&m, 3), DesktopClass::NonEmpty);
}

#[test]
fn the_bar_hides_while_the_shown_desktop_is_fullscreen() {
    let mut m = screen();
    assert_eq!(bar_visible(&m), Some(true));
    m.desktops[0].is_active_node_fullscreen = true;
    assert_eq!(bar_visible(&m), Some(false));
    m.desktops[0].is_active_node_fullscreen = false;
    m.desktops[1].is_active_node_fullscreen = true;
    assert_eq!(bar_visible(&m), Some(true));
    m.desktops[0].is_active = false;
    assert_eq!(bar_visible(&m), None);
}

#[test]
fn ticks_refresh_the_readings() {
    assert_eq!(react("DP-1", &vec![1, 2], &SystemEvent::Tick), Reaction::RefreshFast);
    assert_eq!(react("DP-1", &vec![1, 2], &SystemEvent::SlowTick), Reaction::RefreshSlow);
}

#[test]
fn a_notification_about_another_monitor_is_ignored() {
    let note = SystemEvent::DesktopStateUpdateNew(screen());
    assert_eq!(react("HDMI-1", &vec![1, 2], &note), Reaction::Ignore);
    assert_eq!(react("DP-10", &vec![1, 2], &note), Reaction::Ignore);
    assert_eq!(react("", &vec![], &note), Reaction::Ignore);
}

#[test]
fn a_notification_about_the_bars_monitor_redraws_it() {
    let mut m = screen();
    m.desktops[0].active_node = Some(77);
    let note = SystemEvent::DesktopStateUpdateNew(m);
    assert_eq!(
        react("DP-1", &vec![4, 3, 2, 1, 99], &note),
        Reaction::Redraw(BarUpdate {
            win_count: "[3]".to_string(),
            active_node: Some(77),
            classes: vec![
                DesktopClass::Empty,
                DesktopClass::NonEmpty,
                DesktopClass::Urgent,
                DesktopClass::Focused,
                DesktopClass::Empty,
            ],
            visible: Some(true),
        })
    );
}

#[test]
fn a_bar_without_buttons_still_redraws() {
    let mut m = screen();
    m.desktops[0].is_active = false;
    let note = SystemEvent::DesktopStateUpdateNew(m);
    assert_eq!(
        react("DP-1", &vec![], &note),
        Reaction::Redraw(BarUpdate {
            win_count: String::new(),
            active_node: None,
            classes: vec![],
            visible: None,
        })
    );
}
