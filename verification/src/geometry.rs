//! Low-level geometry primitives: axis-aligned rectangles, per-edge insets,
//! and linear placement descriptors, all in abstract length units.

use vstd::prelude::*;

verus! {

/// A per-edge shrinkage applied to a rectangle to derive a sub-rectangle.
#[derive(Clone, Copy, Debug, PartialEq, Eq, Structural)]
pub struct Insets {
    pub top: i16,
    pub right: i16,
    pub bottom: i16,
    pub left: i16,
}

impl Insets {
    pub open spec fn spec_new(top: i16, right: i16, bottom: i16, left: i16) -> Insets {
        Insets { top, right, bottom, left }
    }

    pub open spec fn spec_top(d: i16) -> Insets {
        Insets { top: d, right: 0, bottom: 0, left: 0 }
    }

    pub open spec fn spec_bottom(d: i16) -> Insets {
        Insets { top: 0, right: 0, bottom: d, left: 0 }
    }

    pub open spec fn spec_left(d: i16) -> Insets {
        Insets { top: 0, right: 0, bottom: 0, left: d }
    }

    pub open spec fn spec_right(d: i16) -> Insets {
        Insets { top: 0, right: d, bottom: 0, left: 0 }
    }

    pub fn new(top: i16, right: i16, bottom: i16, left: i16) -> (r: Insets)
        ensures
            r == Insets::spec_new(top, right, bottom, left),
    {
        Insets { top, right, bottom, left }
    }

    /// Insets that shrink only from the top edge.
    pub fn top(d: i16) -> (r: Insets)
        ensures
            r == Insets::spec_top(d),
    {
        Insets { top: d, right: 0, bottom: 0, left: 0 }
    }

    /// Insets that shrink only from the bottom edge.
    pub fn bottom(d: i16) -> (r: Insets)
        ensures
            r == Insets::spec_bottom(d),
    {
        Insets { top: 0, right: 0, bottom: d, left: 0 }
    }

    /// Insets that shrink only from the left edge.
    pub fn left(d: i16) -> (r: Insets)
        ensures
            r == Insets::spec_left(d),
    {
        Insets { top: 0, right: 0, bottom: 0, left: d }
    }

    /// Insets that shrink only from the right edge.
    pub fn right(d: i16) -> (r: Insets)
        ensures
            r == Insets::spec_right(d),
    {
        Insets { top: 0, right: d, bottom: 0, left: 0 }
    }
}

/// An axis-aligned rectangle given by its top-left corner `(x0, y0)` and its
/// bottom-right corner `(x1, y1)`.
#[derive(Clone, Copy, Debug, PartialEq, Eq, Structural)]
pub struct Rect {
    pub x0: i16,
    pub y0: i16,
    pub x1: i16,
    pub y1: i16,
}

impl Rect {
    /// A non-degenerate rectangle in screen space: both corners are at
    /// non-negative coordinates and the bottom-right corner does not lie
    /// above or left of the top-left corner.
    pub open spec fn wf(self) -> bool {
        0 <= self.x0 <= self.x1 && 0 <= self.y0 <= self.y1
    }

    pub open spec fn spec_width(self) -> int {
        self.x1 - self.x0
    }

    pub open spec fn spec_height(self) -> int {
        self.y1 - self.y0
    }

    pub open spec fn spec_zero() -> Rect {
        Rect { x0: 0, y0: 0, x1: 0, y1: 0 }
    }

    /// The result of shrinking each edge inward by the given insets.
    pub open spec fn spec_inset(self, i: Insets) -> Rect {
        Rect {
            x0: (self.x0 + i.left) as i16,
            y0: (self.y0 + i.top) as i16,
            x1: (self.x1 - i.right) as i16,
            y1: (self.y1 - i.bottom) as i16,
        }
    }

    /// The inset arithmetic stays within the coordinate type.
    pub open spec fn inset_fits(self, i: Insets) -> bool {
        &&& i16::MIN <= self.x0 + i.left <= i16::MAX
        &&& i16::MIN <= self.y0 + i.top <= i16::MAX
        &&& i16::MIN <= self.x1 - i.right <= i16::MAX
        &&& i16::MIN <= self.y1 - i.bottom <= i16::MAX
    }

    /// The height at which `split_top(h)` actually cuts, measured from the
    /// top edge: `h` clamped into `0 ..= height`.
    pub open spec fn spec_split_at(self, h: i16) -> int {
        if h < 0 {
            self.y0 as int
        } else if self.y0 + h > self.y1 {
            self.y1 as int
        } else {
            self.y0 + h
        }
    }

    /// The two halves produced by cutting horizontally `h` units below the
    /// top edge (clamped to the rectangle): top slice first, remainder second.
    pub open spec fn spec_split_top(self, h: i16) -> (Rect, Rect) {
        (
            Rect { x0: self.x0, y0: self.y0, x1: self.x1, y1: self.spec_split_at(h) as i16 },
            Rect { x0: self.x0, y0: self.spec_split_at(h) as i16, x1: self.x1, y1: self.y1 },
        )
    }

    pub fn new(x0: i16, y0: i16, x1: i16, y1: i16) -> (r: Rect)
        ensures
            r == (Rect { x0, y0, x1, y1 }),
    {
        Rect { x0, y0, x1, y1 }
    }

    /// The zero-sized rectangle at the origin, used before a component is
    /// placed.
    pub fn zero() -> (r: Rect)
        ensures
            r == Rect::spec_zero(),
    {
        Rect { x0: 0, y0: 0, x1: 0, y1: 0 }
    }

    pub fn width(&self) -> (w: i16)
        requires
            self.wf(),
        ensures
            w == self.spec_width(),
    {
        self.x1 - self.x0
    }

    pub fn height(&self) -> (h: i16)
        requires
            self.wf(),
        ensures
            h == self.spec_height(),
    {
        self.y1 - self.y0
    }

    /// Shrink each edge inward by the given insets.
    pub fn inset(self, i: Insets) -> (r: Rect)
        requires
            self.inset_fits(i),
        ensures
            r == self.spec_inset(i),
    {
        Rect {
            x0: self.x0 + i.left,
            y0: self.y0 + i.top,
            x1: self.x1 - i.right,
            y1: self.y1 - i.bottom,
        }
    }

    /// Cut the rectangle horizontally `h` units below its top edge, clamping
    /// the cut into the rectangle; returns the top slice and the remainder.
    pub fn split_top(self, h: i16) -> (r: (Rect, Rect))
        requires
            self.wf(),
        ensures
            r == self.spec_split_top(h),
            r.0.wf(),
            r.1.wf(),
    {
        let full: i16 = self.y1 - self.y0;
        let cut: i16 = if h < 0 {
            0
        } else if h > full {
            full
        } else {
            h
        };
        let ysplit: i16 = self.y0 + cut;
        (
            Rect { x0: self.x0, y0: self.y0, x1: self.x1, y1: ysplit },
            Rect { x0: self.x0, y0: ysplit, x1: self.x1, y1: self.y1 },
        )
    }
}

/// The axis along which a linear arrangement stacks its entries.
#[derive(Clone, Copy, Debug, PartialEq, Eq, Structural)]
pub enum Axis {
    Horizontal,
    Vertical,
}

/// How a linear arrangement aligns its entries inside the available space.
#[derive(Clone, Copy, Debug, PartialEq, Eq, Structural)]
pub enum Alignment {
    Start,
    Center,
    End,
}

/// A description of how stacked entries are laid out: along which axis, with
/// which alignment, and with how much space between consecutive entries.
#[derive(Clone, Copy, Debug, PartialEq, Eq, Structural)]
pub struct LinearPlacement {
    pub axis: Axis,
    pub align: Alignment,
    pub spacing: i16,
}

impl LinearPlacement {
    pub open spec fn spec_vertical() -> LinearPlacement {
        LinearPlacement { axis: Axis::Vertical, align: Alignment::Start, spacing: 0 }
    }

    /// A vertical stack, aligned at the start, with no spacing.
    pub fn vertical() -> (r: LinearPlacement)
        ensures
            r == LinearPlacement::spec_vertical(),
    {
        LinearPlacement { axis: Axis::Vertical, align: Alignment::Start, spacing: 0 }
    }

    /// The same arrangement, aligned at the center of the available space.
    pub fn align_at_center(self) -> (r: LinearPlacement)
        ensures
            r == (LinearPlacement { align: Alignment::Center, ..self }),
    {
        LinearPlacement { axis: self.axis, align: Alignment::Center, spacing: self.spacing }
    }

    /// The same arrangement with the given spacing between entries.
    pub fn with_spacing(self, spacing: i16) -> (r: LinearPlacement)
        ensures
            r == (LinearPlacement { spacing, ..self }),
    {
        LinearPlacement { axis: self.axis, align: self.align, spacing }
    }
}

} // verus!
