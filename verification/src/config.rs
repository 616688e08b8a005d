//! What the user can configure: colours, font, and where the bar sits.

use vstd::prelude::*;
use vstd::string::StringExecFns;

verus! {

/// The colours of the bar, each as CSS colour text.
#[derive(Debug, Clone, PartialEq, Eq)]
pub struct Theme {
    pub fg: String,
    pub fg_dim: String,
    pub fg_bright: String,
    pub ok: String,
    pub ok_dim: String,
    pub alert: String,
    pub alert_dim: String,
    pub warn: String,
    pub warn_dim: String,
    pub bg: String,
    pub bg_dim: String,
    pub bright: String,
    pub bright_dim: String,
    pub accent: String,
}

impl Default for Theme {
    fn default() -> (r: Self)
        ensures
            r.fg@ == "#ebc17a"@,
            r.fg_dim@ == "#8b7653"@,
            r.fg_bright@ == "#ebc17a"@,
            r.ok@ == "#909d63"@,
            r.ok_dim@ == "#5e6547"@,
            r.alert@ == "#bc5653"@,
            r.alert_dim@ == "#74423f"@,
            r.warn@ == "#bc5653"@,
            r.warn_dim@ == "#74423f"@,
            r.bg@ == "#1c1c1c"@,
            r.bg_dim@ == "#232323"@,
            r.bright@ == "#cacaca"@,
            r.bright_dim@ == "#828282"@,
            r.accent@ == "#bc5653"@,
    {
        Theme {
            fg: String::from_str("#ebc17a"),
            fg_dim: String::from_str("#8b7653"),
            fg_bright: String::from_str("#ebc17a"),
            ok: String::from_str("#909d63"),
            ok_dim: String::from_str("#5e6547"),
            alert: String::from_str("#bc5653"),
            alert_dim: String::from_str("#74423f"),
            warn: String::from_str("#bc5653"),
            warn_dim: String::from_str("#74423f"),
            bg: String::from_str("#1c1c1c"),
            bg_dim: String::from_str("#232323"),
            bright: String::from_str("#cacaca"),
            bright_dim: String::from_str("#828282"),
            accent: String::from_str("#bc5653"),
        }
    }
}

/// The font of the bar, each part as CSS text.
#[derive(Debug, Clone, PartialEq, Eq)]
pub struct Font {
    pub font_family: String,
    pub font_size: String,
    pub font_weight: String,
}

impl Default for Font {
    fn default() -> (r: Self)
        ensures
            r.font_family@ == "Terminess Nerd Font"@,
            r.font_size@ == "16px"@,
            r.font_weight@ == "bold"@,
    {
        Font {
            font_family: String::from_str("Terminess Nerd Font"),
            font_size: String::from_str("16px"),
            font_weight: String::from_str("bold"),
        }
    }
}

/// The edge of the monitor at which the bar sits.
#[derive(Debug, Clone, Copy, PartialEq, Eq, Structural)]
pub enum Position {
    Top,
    Bottom,
}

/// The size and place of the bar.
#[derive(Debug, Clone, Copy, PartialEq, Eq, Structural)]
pub struct Bar {
    /// Height in pixels.
    pub height: u16,
    pub position: Position,
}

impl Default for Bar {
    fn default() -> (r: Self)
        ensures
            r == (Bar { height: 10, position: Position::Bottom }),
    {
        Bar { height: 10, position: Position::Bottom }
    }
}

/// The whole configuration.
#[derive(Debug, Clone, PartialEq, Eq)]
pub struct CrowbarConfig {
    pub theme: Theme,
    pub font: Font,
    pub bar: Bar,
}

impl Default for CrowbarConfig {
    fn default() -> (r: Self)
        ensures
            r.bar == (Bar { height: 10, position: Position::Bottom }),
            r.font.font_family@ == "Terminess Nerd Font"@,
            r.font.font_size@ == "16px"@,
            r.font.font_weight@ == "bold"@,
            r.theme.fg@ == "#ebc17a"@,
            r.theme.fg_dim@ == "#8b7653"@,
            r.theme.fg_bright@ == "#ebc17a"@,
            r.theme.ok@ == "#909d63"@,
            r.theme.ok_dim@ == "#5e6547"@,
            r.theme.alert@ == "#bc5653"@,
            r.theme.alert_dim@ == "#74423f"@,
            r.theme.warn@ == "#bc5653"@,
            r.theme.warn_dim@ == "#74423f"@,
            r.theme.bg@ == "#1c1c1c"@,
            r.theme.bg_dim@ == "#232323"@,
            r.theme.bright@ == "#cacaca"@,
            r.theme.bright_dim@ == "#828282"@,
            r.theme.accent@ == "#bc5653"@,
    {
        CrowbarConfig { theme: Theme::default(), font: Font::default(), bar: Bar::default() }
    }
}

/// A part of the bar that can be switched on or off.
#[derive(Debug, Clone, Copy, PartialEq, Eq, Hash, Structural)]
pub enum Widget {
    Desktops,
    WinCount,
    FocusedName,
    Network,
    Cpu,
    Mem,
    Disk,
    Bat,
    Clock,
}

/// What was asked for on the command line.
#[derive(Debug, Clone, PartialEq, Eq)]
pub struct Args {
    /// Write a debug log.
    pub debug: bool,
    /// The widgets to show, in order; all of them if not given.
    pub enabled_widgets: Option<Vec<Widget>>,
    /// The widgets not to show, whatever `enabled_widgets` says.
    pub disabled_widgets: Option<Vec<Widget>>,
    /// Leave the window manager's padding alone.
    pub no_pad: bool,
    /// Where the configuration file is, if not at its usual place.
    pub config: Option<String>,
}

/// Every widget, in the order in which a bar shows them by default.
pub open spec fn all_widgets() -> Seq<Widget> {
    seq![
        Widget::Desktops,
        Widget::WinCount,
        Widget::FocusedName,
        Widget::Network,
        Widget::Cpu,
        Widget::Mem,
        Widget::Disk,
        Widget::Bat,
        Widget::Clock,
    ]
}

/// The widgets of `wanted` that are not among `disabled`, in their order in
/// `wanted` and as often as they occur there.
pub open spec fn without(wanted: Seq<Widget>, disabled: Seq<Widget>) -> Seq<Widget>
    decreases wanted.len(),
{
    if wanted.len() == 0 {
        Seq::empty()
    } else if disabled.contains(wanted.last()) {
        without(wanted.drop_last(), disabled)
    } else {
        without(wanted.drop_last(), disabled).push(wanted.last())
    }
}

/// The widgets that the command line asks for: the enabled ones, or all if
/// none were named, less the disabled ones.
pub open spec fn selection(
    enabled: Option<Vec<Widget>>,
    disabled: Option<Vec<Widget>>,
) -> Seq<Widget> {
    without(
        match enabled {
            Some(v) => v@,
            None => all_widgets(),
        },
        match disabled {
            Some(v) => v@,
            None => Seq::empty(),
        },
    )
}

fn every_widget() -> (r: Vec<Widget>)
    ensures
        r@ == all_widgets(),
{
    let mut r: Vec<Widget> = Vec::new();
    r.push(Widget::Desktops);
    r.push(Widget::WinCount);
    r.push(Widget::FocusedName);
    r.push(Widget::Network);
    r.push(Widget::Cpu);
    r.push(Widget::Mem);
    r.push(Widget::Disk);
    r.push(Widget::Bat);
    r.push(Widget::Clock);
    assert(r@ =~= all_widgets());
    r
}

fn is_among(w: Widget, list: &Vec<Widget>) -> (r: bool)
    ensures
        r == list@.contains(w),
{
    let mut i: usize = 0;
    while i < list.len()
        invariant
            i <= list.len(),
            forall|j: int| 0 <= j < i ==> list@[j] != w,
        decreases list.len() - i,
    {
        if list[i] == w {
            return true;
        }
        i += 1;
    }
    false
}

fn filter_out(wanted: &Vec<Widget>, disabled: &Vec<Widget>) -> (r: Vec<Widget>)
    ensures
        r@ == without(wanted@, disabled@),
{
    let mut r: Vec<Widget> = Vec::new();
    let mut i: usize = 0;
    while i < wanted.len()
        invariant
            i <= wanted.len(),
            r@ == without(wanted@.take(i as int), disabled@),
        decreases wanted.len() - i,
    {
        assert(wanted@.take(i + 1).drop_last() =~= wanted@.take(i as int));
        if !is_among(wanted[i], disabled) {
            r.push(wanted[i]);
        }
        i += 1;
    }
    assert(wanted@.take(i as int) =~= wanted@);
    r
}

impl Args {
    /// The widgets to show, in order.
    pub fn widgets(&self) -> (r: Vec<Widget>)
        ensures
            r@ == selection(self.enabled_widgets, self.disabled_widgets),
    {
        let none: Vec<Widget> = Vec::new();
        assert(none@ =~= Seq::<Widget>::empty());
        let all = every_widget();
        let wanted = match &self.enabled_widgets {
            Some(v) => v,
            None => &all,
        };
        let disabled = match &self.disabled_widgets {
            Some(v) => v,
            None => &none,
        };
        filter_out(wanted, disabled)
    }
}

} // verus!
