//! A terminal rectangle in cell coordinates, with the clamping rules of the rendering toolkit.
use vstd::prelude::*;

verus! {

/// A rectangle of terminal cells. `x + width` and `y + height` never exceed `u16::MAX` for
/// rectangles built with [`Rect::new`].
#[derive(Clone, Copy, Debug, PartialEq, Eq, Structural)]
pub struct Rect {
    pub x: u16,
    pub y: u16,
    pub width: u16,
    pub height: u16,
}

/// The rows `start..end` of a column.
#[derive(Clone, Copy, Debug, PartialEq, Eq, Structural)]
pub struct RowRange {
    pub start: u16,
    pub end: u16,
}

/// `width` clamped so that the rectangle's right edge stays within `u16::MAX`.
pub open spec fn clamp_extent(origin: u16, extent: u16) -> u16 {
    if extent > u16::MAX - origin {
        (u16::MAX - origin) as u16
    } else {
        extent
    }
}

/// `a + b`, saturating at `u16::MAX`.
pub open spec fn sat_add_u16(a: u16, b: u16) -> u16 {
    if a + b > u16::MAX {
        u16::MAX
    } else {
        (a + b) as u16
    }
}

/// `a - b`, saturating at zero.
pub open spec fn sat_sub_u16(a: u16, b: u16) -> u16 {
    if a < b {
        0
    } else {
        (a - b) as u16
    }
}

/// The smaller of two values.
pub open spec fn min_u16(a: u16, b: u16) -> u16 {
    if a <= b {
        a
    } else {
        b
    }
}

/// The larger of two values.
pub open spec fn max_u16(a: u16, b: u16) -> u16 {
    if a >= b {
        a
    } else {
        b
    }
}

/// The rectangle that [`Rect::new`] builds from these coordinates.
pub open spec fn rect_at(x: u16, y: u16, width: u16, height: u16) -> Rect {
    Rect { x, y, width: clamp_extent(x, width), height: clamp_extent(y, height) }
}

/// A built rectangle starts where asked and keeps the asked size, shrunk only as far as needed
/// to end within `u16::MAX`; its right and bottom edges saturate at `u16::MAX`.
pub proof fn lemma_rect_at(x: u16, y: u16, width: u16, height: u16)
    ensures
        rect_at(x, y, width, height).x == x,
        rect_at(x, y, width, height).y == y,
        rect_at(x, y, width, height).width == (if x + width <= u16::MAX {
            width as int
        } else {
            u16::MAX - x
        }),
        rect_at(x, y, width, height).height == (if y + height <= u16::MAX {
            height as int
        } else {
            u16::MAX - y
        }),
        rect_at(x, y, width, height).right_spec() == (if x + width <= u16::MAX {
            x + width
        } else {
            u16::MAX as int
        }),
        rect_at(x, y, width, height).bottom_spec() == (if y + height <= u16::MAX {
            y + height
        } else {
            u16::MAX as int
        }),
{
}

impl Rect {
    /// Whether the rectangle keeps its right and bottom edges within `u16::MAX`.
    pub open spec fn fits(self) -> bool {
        self.x + self.width <= u16::MAX && self.y + self.height <= u16::MAX
    }

    /// First column right of the rectangle, saturating at `u16::MAX`.
    pub open spec fn right_spec(self) -> u16 {
        sat_add_u16(self.x, self.width)
    }

    /// First row below the rectangle, saturating at `u16::MAX`.
    pub open spec fn bottom_spec(self) -> u16 {
        sat_add_u16(self.y, self.height)
    }

    /// Builds a rectangle, shrinking `width` and `height` so that the rectangle fits in the
    /// `u16` coordinate space.
    pub fn new(x: u16, y: u16, width: u16, height: u16) -> (r: Rect)
        ensures
            r == rect_at(x, y, width, height),
            r.fits(),
    {
        let max_width = u16::MAX - x;
        let max_height = u16::MAX - y;
        let width = if width > max_width {
            max_width
        } else {
            width
        };
        let height = if height > max_height {
            max_height
        } else {
            height
        };
        Rect { x, y, width, height }
    }

    /// First column right of the rectangle.
    pub fn right(&self) -> (r: u16)
        ensures
            r == self.right_spec(),
    {
        self.x.saturating_add(self.width)
    }

    /// First row below the rectangle.
    pub fn bottom(&self) -> (r: u16)
        ensures
            r == self.bottom_spec(),
    {
        self.y.saturating_add(self.height)
    }

    /// Whether the rectangle covers no cell.
    pub fn is_empty(&self) -> (r: bool)
        ensures
            r == (self.width == 0 || self.height == 0),
    {
        self.width == 0 || self.height == 0
    }
}

} // verus!
