//! Where on the screen the bar of a monitor goes.

use vstd::prelude::*;
use crate::config::Position;

verus! {

/// A monitor as the windowing system describes it: its name and the rectangle
/// it covers on the screen.
#[derive(Debug, Clone, PartialEq, Eq)]
pub struct Monitor {
    pub name: String,
    pub x_offset: i16,
    pub y_offset: i16,
    pub width: u16,
    pub height: u16,
}

/// The rectangle that a bar covers.
#[derive(Debug, Clone, Copy, PartialEq, Eq, Structural)]
pub struct Placement {
    pub x: i32,
    pub y: i32,
    pub width: u32,
    pub height: u32,
}

/// A 16-bit quantity read as a signed one.
pub open spec fn as_signed(v: u16) -> int {
    if v <= 0x7fff {
        v as int
    } else {
        v as int - 0x1_0000
    }
}

/// The value fits a signed 16-bit coordinate.
pub open spec fn fits_coordinate(v: int) -> bool {
    -0x8000 <= v <= 0x7fff
}

/// The rectangle of a bar of height `bar_height` at the edge `position` of a
/// monitor at `(x_offset, y_offset)` of size `width` by `height`.
///
/// The bar is as wide as the monitor. At the top it starts where the monitor
/// starts. At the bottom it ends where the monitor ends. Coordinates are
/// signed 16-bit quantities: there is no rectangle where the bottom edge of
/// the monitor or the top edge of the bar is none.
pub open spec fn bar_rectangle(
    x_offset: i16,
    y_offset: i16,
    width: u16,
    height: u16,
    position: Position,
    bar_height: u16,
) -> Option<Placement> {
    match position {
        Position::Top => Some(
            Placement {
                x: x_offset as i32,
                y: y_offset as i32,
                width: width as u32,
                height: bar_height as u32,
            },
        ),
        Position::Bottom => {
            let bottom = y_offset + as_signed(height);
            let top = bottom - as_signed(bar_height);
            if fits_coordinate(bottom) && fits_coordinate(top) {
                Some(
                    Placement {
                        x: x_offset as i32,
                        y: top as i32,
                        width: width as u32,
                        height: bar_height as u32,
                    },
                )
            } else {
                None
            }
        },
    }
}

fn signed(v: u16) -> (r: i32)
    ensures
        r == as_signed(v),
{
    if v <= 0x7fff {
        v as i32
    } else {
        v as i32 - 0x1_0000
    }
}

fn fits(v: i32) -> (r: bool)
    ensures
        r == fits_coordinate(v as int),
{
    -0x8000 <= v && v <= 0x7fff
}

impl Monitor {
    /// The rectangle of a bar of height `bar_height` at the edge `position`
    /// of the monitor, if there is one.
    pub fn bar_placement(&self, position: Position, bar_height: u16) -> (r: Option<Placement>)
        ensures
            r == bar_rectangle(
                self.x_offset,
                self.y_offset,
                self.width,
                self.height,
                position,
                bar_height,
            ),
    {
        match position {
            Position::Top => Some(
                Placement {
                    x: self.x_offset as i32,
                    y: self.y_offset as i32,
                    width: self.width as u32,
                    height: bar_height as u32,
                },
            ),
            Position::Bottom => {
                let bottom: i32 = self.y_offset as i32 + signed(self.height);
                let top: i32 = bottom - signed(bar_height);
                if fits(bottom) && fits(top) {
                    Some(
                        Placement {
                            x: self.x_offset as i32,
                            y: top,
                            width: self.width as u32,
                            height: bar_height as u32,
                        },
                    )
                } else {
                    None
                }
            },
        }
    }
}

} // verus!
