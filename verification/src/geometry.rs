use vstd::prelude::*;

verus! {

/// A rectangle of terminal cells, as the terminal backend understands it.
#[derive(Clone, Copy, Debug, PartialEq, Eq, Structural, Default)]
pub struct Rect {
    pub x: u16,
    pub y: u16,
    pub width: u16,
    pub height: u16,
}

/// `a + b`, clamped to `u16::MAX`.
pub open spec fn sat_add_u16(a: int, b: int) -> int {
    if a + b > u16::MAX {
        u16::MAX as int
    } else {
        a + b
    }
}

impl Rect {
    /// The empty rectangle at the origin.
    pub open spec fn spec_zero() -> Rect {
        Rect { x: 0, y: 0, width: 0, height: 0 }
    }

    /// The rectangle that `new(x, y, width, height)` builds: the size is clipped so that
    /// the right and bottom edges stay within `u16`.
    pub open spec fn spec_new(x: u16, y: u16, width: u16, height: u16) -> Rect {
        Rect {
            x,
            y,
            width: (sat_add_u16(x as int, width as int) - x) as u16,
            height: (sat_add_u16(y as int, height as int) - y) as u16,
        }
    }

    /// The column just past the right edge, clamped to `u16::MAX`.
    pub open spec fn right(self) -> int {
        sat_add_u16(self.x as int, self.width as int)
    }

    /// The row just past the bottom edge, clamped to `u16::MAX`.
    pub open spec fn bottom(self) -> int {
        sat_add_u16(self.y as int, self.height as int)
    }

    /// Whether the cell at `(col, row)` lies inside the rectangle.
    pub open spec fn spec_contains(self, col: u16, row: u16) -> bool {
        &&& col >= self.x
        &&& col < self.right()
        &&& row >= self.y
        &&& row < self.bottom()
    }

    /// The empty rectangle at the origin.
    pub fn zero() -> (r: Rect)
        ensures
            r == Rect::spec_zero(),
    {
        Rect { x: 0, y: 0, width: 0, height: 0 }
    }

    /// A rectangle at `(x, y)`; its size is clipped so that it ends within `u16`.
    pub fn new(x: u16, y: u16, width: u16, height: u16) -> (r: Rect)
        ensures
            r == Rect::spec_new(x, y, width, height),
    {
        let w = x.saturating_add(width) - x;
        let h = y.saturating_add(height) - y;
        Rect { x, y, width: w, height: h }
    }

    /// Whether the rectangle covers no cell.
    pub fn is_empty(&self) -> (b: bool)
        ensures
            b == (self.width == 0 || self.height == 0),
    {
        self.width == 0 || self.height == 0
    }

    /// Whether the cell at `(col, row)` lies inside the rectangle.
    pub fn contains(&self, col: u16, row: u16) -> (b: bool)
        ensures
            b == self.spec_contains(col, row),
    {
        col >= self.x && col < self.x.saturating_add(self.width) && row >= self.y && row
            < self.y.saturating_add(self.height)
    }
}

impl Rect {
    /// The rectangle shrunk by `horizontal` columns on the left and right and
    /// `vertical` rows at the top and bottom; empty at the origin when the
    /// margins do not fit.
    pub open spec fn spec_inner(self, horizontal: u16, vertical: u16) -> Rect {
        let dh = if 2 * horizontal > u16::MAX {
            u16::MAX as int
        } else {
            2 * horizontal
        };
        let dv = if 2 * vertical > u16::MAX {
            u16::MAX as int
        } else {
            2 * vertical
        };
        if self.width < dh || self.height < dv {
            Rect::spec_zero()
        } else {
            Rect {
                x: sat_add_u16(self.x as int, horizontal as int) as u16,
                y: sat_add_u16(self.y as int, vertical as int) as u16,
                width: (self.width - dh) as u16,
                height: (self.height - dv) as u16,
            }
        }
    }

    /// The rectangle shrunk by the given margins on every side.
    pub fn inner(&self, horizontal: u16, vertical: u16) -> (r: Rect)
        ensures
            r == self.spec_inner(horizontal, vertical),
    {
        let dh = horizontal.saturating_add(horizontal);
        let dv = vertical.saturating_add(vertical);
        if self.width < dh || self.height < dv {
            Rect::zero()
        } else {
            Rect {
                x: self.x.saturating_add(horizontal),
                y: self.y.saturating_add(vertical),
                width: self.width.saturating_sub(dh),
                height: self.height.saturating_sub(dv),
            }
        }
    }
}

} // verus!
