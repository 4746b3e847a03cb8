//! Placement of popups on the screen.

use vstd::prelude::*;

verus! {

/// A rectangular region of the terminal, in cells.
#[derive(Clone, Copy, Debug, PartialEq, Eq, Structural)]
pub struct Rect {
    pub x: u16,
    pub y: u16,
    pub width: u16,
    pub height: u16,
}

impl Rect {
    /// The region ends within the 16-bit coordinates of the terminal.
    pub open spec fn in_bounds(self) -> bool {
        self.x + self.width <= u16::MAX && self.y + self.height <= u16::MAX
    }

    /// `inner` lies within this region.
    pub open spec fn contains(self, inner: Rect) -> bool {
        &&& self.x <= inner.x
        &&& inner.x + inner.width <= self.x + self.width
        &&& self.y <= inner.y
        &&& inner.y + inner.height <= self.y + self.height
    }
}

impl Rect {
    /// Tells whether the region ends within the 16-bit coordinates of the
    /// terminal.
    pub fn fits(&self) -> (r: bool)
        ensures
            r == self.in_bounds(),
    {
        self.width <= u16::MAX - self.x && self.height <= u16::MAX - self.y
    }
}

/// The smaller of two integers.
pub open spec fn min_of(a: int, b: int) -> int {
    if a <= b {
        a
    } else {
        b
    }
}

/// The popup that takes `percent_x` percent of the width of `r` and `height`
/// rows, as far as `r` has room for it, with what is left over shared evenly
/// between the two sides and between top and bottom.
pub open spec fn centered(percent_x: u16, height: u16, r: Rect) -> Rect {
    let wanted = r.width * percent_x / 100;
    let width = min_of(wanted, r.width as int);
    let rows = min_of(height as int, r.height as int);
    Rect {
        x: (r.x + (r.width - width) / 2) as u16,
        y: (r.y + (r.height - rows) / 2) as u16,
        width: width as u16,
        height: rows as u16,
    }
}

/// Places a popup in the middle of `r`.
pub fn centered_rect(percent_x: u16, height: u16, r: Rect) -> (popup: Rect)
    requires
        r.in_bounds(),
    ensures
        popup == centered(percent_x, height, r),
        r.contains(popup),
{
    assert(r.width * percent_x <= 0xffff * 0xffff) by (nonlinear_arith)
        requires
            r.width <= 0xffff,
            percent_x <= 0xffff,
    ;
    let wanted: u32 = (r.width as u32) * (percent_x as u32) / 100;
    let width: u16 = if wanted < r.width as u32 {
        wanted as u16
    } else {
        r.width
    };
    let rows: u16 = if height < r.height {
        height
    } else {
        r.height
    };
    Rect { x: r.x + (r.width - width) / 2, y: r.y + (r.height - rows) / 2, width, height: rows }
}

/// The column of the text cursor behind `typed` characters that start at
/// column `left`, held back at column `last`.
pub open spec fn cursor_at(left: u16, typed: nat, last: u16) -> u16 {
    min_of(left + typed, last as int) as u16
}

/// Returns the column at which the text cursor is shown in an input line:
/// behind what was typed, but not beyond the last column of the line.
pub fn cursor_column(left: u16, typed: usize, last: u16) -> (column: u16)
    ensures
        column == cursor_at(left, typed as nat, last),
{
    if last <= left {
        last
    } else if typed < (last - left) as usize {
        left + typed as u16
    } else {
        last
    }
}

} // verus!
