use krowbar::desktop::{DesktopState, Layout};
use krowbar::text::{decimal_string, format_duration};

fn desktop(id: u32, name: &str, layout: Layout, node_count: usize) -> DesktopState {
    DesktopState {
        desktop_id: id,
        desktop_name: name.to_string(),
        layout,
        node_count,
        is_active: false,
        is_urgent: false,
        is_active_node_fullscreen: false,
        active_node: None,
    }
}

#[test]
fn decimal_of_zero_is_a_single_digit() {
    assert_eq!(decimal_string(0), "0");
}

#[test]
fn decimal_of_large_values() {
    assert_eq!(decimal_string(7), "7");
    assert_eq!(decimal_string(10), "10");
    assert_eq!(decimal_string(1234567890), "1234567890");
    assert_eq!(decimal_string(u64::MAX), "18446744073709551615");
}

#[test]
fn empty_desktop_has_no_label() {
    assert_eq!(desktop(1, "I", Layout::Tiled, 0).node_count_label(), "");
    assert_eq!(desktop(1, "I", Layout::Monocle, 0).node_count_label(), "");
}

#[test]
fn tiled_desktop_with_windows_is_labelled_t() {
    assert_eq!(desktop(1, "I", Layout::Tiled, 2).node_count_label(), "[T]");
}

#[test]
fn monocle_desktop_is_labelled_with_its_count() {
    assert_eq!(desktop(1, "I", Layout::Monocle, 3).node_count_label(), "[3]");
    assert_eq!(desktop(1, "I", Layout::Monocle, 12).node_count_label(), "[12]");
}

#[test]
fn durations_are_hours_and_minutes() {
    assert_eq!(format_duration(0), "00:00");
    assert_eq!(format_duration(59), "00:00");
    assert_eq!(format_duration(60), "00:01");
    assert_eq!(format_duration(3599), "00:59");
    assert_eq!(format_duration(3600), "01:00");
    assert_eq!(format_duration(9 * 3600 + 5 * 60 + 7), "09:05");
    assert_eq!(format_duration(12 * 3600 + 34 * 60), "12:34");
    assert_eq!(format_duration(100 * 3600 + 60), "100:01");
}
