use krowbar::command::{
    focus_desktop, list_desktops, list_monitors, remove_border, reserve_space, split_names,
};
use krowbar::config::{Args, Bar, CrowbarConfig, Font, Position, Theme, Widget};
use krowbar::placement::{Monitor, Placement};
use krowbar::query::{first_id, Query, QueryFailure, QueryTarget};

fn args(enabled: Option<Vec<Widget>>, disabled: Option<Vec<Widget>>) -> Args {
    Args { debug: false, enabled_widgets: enabled, disabled_widgets: disabled, no_pad: false, config: None }
}

fn all() -> Vec<Widget> {
    vec![
        Widget::Desktops,
        Widget::WinCount,
        Widget::FocusedName,
        Widget::Network,
        Widget::Cpu,
        Widget::Mem,
        Widget::Disk,
        Widget::Bat,
        Widget::Clock,
    ]
}

#[test]
fn the_default_theme_has_its_colours() {
    let t = Theme::default();
    assert_eq!(t.fg, "#ebc17a");
    assert_eq!(t.fg_dim, "#8b7653");
    assert_eq!(t.fg_bright, "#ebc17a");
    assert_eq!(t.ok, "#909d63");
    assert_eq!(t.ok_dim, "#5e6547");
    assert_eq!(t.alert, "#bc5653");
    assert_eq!(t.alert_dim, "#74423f");
    assert_eq!(t.warn, "#bc5653");
    assert_eq!(t.warn_dim, "#74423f");
    assert_eq!(t.bg, "#1c1c1c");
    assert_eq!(t.bg_dim, "#232323");
    assert_eq!(t.bright, "#cacaca");
    assert_eq!(t.bright_dim, "#828282");
    assert_eq!(t.accent, "#bc5653");
}

#[test]
fn the_default_font_and_bar() {
    let f = Font::default();
    assert_eq!(f.font_family, "Terminess Nerd Font");
    assert_eq!(f.font_size, "16px");
    assert_eq!(f.font_weight, "bold");
    assert_eq!(Bar::default(), Bar { height: 10, position: Position::Bottom });
    let c = CrowbarConfig::default();
    assert_eq!(c.theme, Theme::default());
    assert_eq!(c.font, Font::default());
    assert_eq!(c.bar, Bar::default());
}

#[test]
fn every_widget_is_shown_by_default() {
    assert_eq!(args(None, None).widgets(), all());
    assert_eq!(args(None, Some(vec![])).widgets(), all());
}

#[test]
fn disabled_widgets_are_left_out() {
    let shown = args(None, Some(vec![Widget::Bat, Widget::Desktops, Widget::Bat])).widgets();
    assert_eq!(
        shown,
        vec![
            Widget::WinCount,
            Widget::FocusedName,
            Widget::Network,
            Widget::Cpu,
            Widget::Mem,
            Widget::Disk,
            Widget::Clock,
        ]
    );
}

#[test]
fn enabled_widgets_keep_their_order_and_repeats() {
    let shown = args(Some(vec![Widget::Clock, Widget::Cpu, Widget::Clock]), None).widgets();
    assert_eq!(shown, vec![Widget::Clock, Widget::Cpu, Widget::Clock]);
    assert_eq!(args(Some(vec![]), None).widgets(), vec![]);
}

#[test]
fn disabling_takes_precedence_over_enabling() {
    let shown = args(
        Some(vec![Widget::Clock, Widget::Cpu, Widget::Mem, Widget::Clock]),
        Some(vec![Widget::Clock, Widget::Disk]),
    )
    .widgets();
    assert_eq!(shown, vec![Widget::Cpu, Widget::Mem]);
    assert_eq!(args(Some(all()), Some(all())).widgets(), vec![]);
}

fn monitor(x: i16, y: i16, width: u16, height: u16) -> Monitor {
    Monitor { name: "DP-1".to_string(), x_offset: x, y_offset: y, width, height }
}

#[test]
fn a_bar_at_the_top_starts_where_the_monitor_starts() {
    assert_eq!(
        monitor(1920, 0, 2560, 1440).bar_placement(Position::Top, 24),
        Some(Placement { x: 1920, y: 0, width: 2560, height: 24 })
    );
    assert_eq!(
        monitor(-100, -50, 65535, 65535).bar_placement(Position::Top, 65535),
        Some(Placement { x: -100, y: -50, width: 65535, height: 65535 })
    );
}

#[test]
fn a_bar_at_the_bottom_ends_where_the_monitor_ends() {
    assert_eq!(
        monitor(0, 0, 1920, 1080).bar_placement(Position::Bottom, 10),
        Some(Placement { x: 0, y: 1070, width: 1920, height: 10 })
    );
    assert_eq!(
        monitor(1920, 200, 1280, 1024).bar_placement(Position::Bottom, 30),
        Some(Placement { x: 1920, y: 1194, width: 1280, height: 30 })
    );
    assert_eq!(
        monitor(0, 0, 800, 10).bar_placement(Position::Bottom, 20),
        Some(Placement { x: 0, y: -10, width: 800, height: 20 })
    );
}

#[test]
fn a_bar_beyond_the_coordinate_range_has_no_place() {
    assert_eq!(monitor(0, 32000, 800, 1000).bar_placement(Position::Bottom, 10), None);
    assert_eq!(monitor(0, 32767, 800, 0).bar_placement(Position::Bottom, 0),
        Some(Placement { x: 0, y: 32767, width: 800, height: 0 }));
    assert_eq!(monitor(0, 32767, 800, 1).bar_placement(Position::Bottom, 1), None);
    assert_eq!(monitor(0, -32768, 800, 0).bar_placement(Position::Bottom, 1), None);
}

#[test]
fn commands_name_their_target_in_decimal() {
    assert_eq!(focus_desktop(8388610), vec!["desktop", "-f", "8388610"]);
    assert_eq!(focus_desktop(0), vec!["desktop", "-f", "0"]);
    assert_eq!(remove_border(4194307), vec!["config", "-n", "4194307", "border_width", "0"]);
    assert_eq!(reserve_space(Position::Top, 24), vec!["config", "top_padding", "24"]);
    assert_eq!(reserve_space(Position::Bottom, 10), vec!["config", "bottom_padding", "10"]);
    assert_eq!(list_monitors(), vec!["query", "-M", "--names"]);
    assert_eq!(list_desktops("DP-1"), vec!["query", "-D", "--monitor", "DP-1", "--names"]);
}

#[test]
fn names_are_the_words_of_a_listing() {
    assert_eq!(split_names("DP-1\nHDMI-1\n"), vec!["DP-1", "HDMI-1"]);
    assert_eq!(split_names("I II  III\tIV\r\nV"), vec!["I", "II", "III", "IV", "V"]);
    assert_eq!(split_names(""), Vec::<String>::new());
    assert_eq!(split_names(" \n\t "), Vec::<String>::new());
    assert_eq!(split_names("one"), vec!["one"]);
    assert_eq!(split_names("  one"), vec!["one"]);
    assert_eq!(split_names("web\u{a0}\u{3000}caf\u{e9}\u{2003}\u{65e5}\u{672c}"),
        vec!["web", "caf\u{e9}", "\u{65e5}\u{672c}"]);
}

#[test]
fn names_split_as_the_standard_library_splits_white_space() {
    for text in ["a b", " a\u{85}b ", "a\u{1680}b\u{2028}c\u{2029}d\u{202f}e\u{205f}f", "a\u{200b}b", "x\u{b}y\u{c}z", "a\u{1c}b"] {
        let expected: Vec<String> = text.split_whitespace().map(String::from).collect();
        assert_eq!(split_names(text), expected);
    }
}

#[test]
fn queries_carry_their_selectors() {
    assert_eq!(
        Query::monitor_id("DP-1"),
        Query {
            target: QueryTarget::Monitors,
            reference: None,
            monitor: Some("DP-1".to_string()),
            desktop: None,
            node: None,
        }
    );
    assert_eq!(
        Query::active_desktop("DP-1"),
        Query {
            target: QueryTarget::Desktops,
            reference: None,
            monitor: Some("DP-1".to_string()),
            desktop: Some(".active".to_string()),
            node: None,
        }
    );
    assert_eq!(
        Query::desktop_id("II"),
        Query {
            target: QueryTarget::Desktops,
            reference: None,
            monitor: None,
            desktop: Some("II".to_string()),
            node: None,
        }
    );
    assert_eq!(
        Query::active_node("II"),
        Query {
            target: QueryTarget::Nodes,
            reference: None,
            monitor: None,
            desktop: Some("II".to_string()),
            node: Some(".active".to_string()),
        }
    );
    assert_eq!(
        Query::fullscreen(4194307, 8388610),
        Query {
            target: QueryTarget::Nodes,
            reference: Some("4194307".to_string()),
            monitor: None,
            desktop: Some("8388610".to_string()),
            node: Some(".fullscreen".to_string()),
        }
    );
}

#[test]
fn the_first_id_of_a_reply() {
    assert_eq!(first_id(&Ok(vec![3, 1, 2])), Some(3));
    assert_eq!(first_id(&Ok(vec![])), None);
    assert_eq!(first_id(&Err(QueryFailure::Malformed)), None);
}

#[test]
fn a_zero_playback_switch_means_muted() {
    assert!(krowbar::instruments::is_muted(0));
    assert!(!krowbar::instruments::is_muted(1));
    assert!(!krowbar::instruments::is_muted(-1));
}
