//! Rectangles in window coordinates.

use vstd::prelude::*;

verus! {

/// The largest width, height and position of a rectangle.
pub const MAX_EXTENT: u32 = 0x3fff_ffff;

/// The smallest position of a rectangle.
pub const MIN_POSITION: i32 = -0x4000_0000;

/// A width or height brought into the range a rectangle can have: at least
/// one, at most `MAX_EXTENT`.
pub open spec fn clamp_extent(v: int) -> int {
    if v < 1 {
        1
    } else if v > MAX_EXTENT {
        MAX_EXTENT as int
    } else {
        v
    }
}

/// A coordinate brought into the range a rectangle's position can have:
/// from `MIN_POSITION` to `MAX_EXTENT`.
pub open spec fn clamp_position(v: int) -> int {
    if v > MAX_EXTENT {
        MAX_EXTENT as int
    } else if v < MIN_POSITION {
        MIN_POSITION as int
    } else {
        v
    }
}

/// Brings a width or height into the range a rectangle can have.
pub fn extent(v: u64) -> (r: u32)
    ensures
        r == clamp_extent(v as int),
        1 <= r <= MAX_EXTENT,
{
    if v < 1 {
        1
    } else if v > MAX_EXTENT as u64 {
        MAX_EXTENT
    } else {
        v as u32
    }
}

/// Brings a coordinate into the range a rectangle's position can have.
pub fn position(v: i64) -> (r: i32)
    ensures
        r == clamp_position(v as int),
        MIN_POSITION <= r <= MAX_EXTENT,
{
    if v > MAX_EXTENT as i64 {
        MAX_EXTENT as i32
    } else if v < MIN_POSITION as i64 {
        MIN_POSITION
    } else {
        v as i32
    }
}

/// A rectangle that is never empty: its top-left corner, its width and its
/// height.
#[derive(Clone, Copy, Debug, PartialEq, Eq, Structural)]
pub struct Area {
    pub x: i32,
    pub y: i32,
    pub w: u32,
    pub h: u32,
}

impl Area {
    /// The position and the size are within their ranges; so no sum of a
    /// position and a size leaves the range of an `i32`.
    pub open spec fn wf(self) -> bool {
        &&& MIN_POSITION <= self.x <= MAX_EXTENT
        &&& MIN_POSITION <= self.y <= MAX_EXTENT
        &&& 1 <= self.w <= MAX_EXTENT
        &&& 1 <= self.h <= MAX_EXTENT
    }

    /// Whether the point `(x, y)` lies in the rectangle. The right and the
    /// bottom edge do not belong to it.
    pub open spec fn contains(self, x: int, y: int) -> bool {
        &&& self.x <= x < self.x + self.w
        &&& self.y <= y < self.y + self.h
    }

    /// The rectangle at `(x, y)` of the size `(w, h)`, each brought into
    /// its range.
    pub open spec fn clamped(x: int, y: int, w: int, h: int) -> Area {
        Area {
            x: clamp_position(x) as i32,
            y: clamp_position(y) as i32,
            w: clamp_extent(w) as u32,
            h: clamp_extent(h) as u32,
        }
    }

    /// The middle of the rectangle, rounded down and brought into the range
    /// of positions.
    pub open spec fn middle(self) -> (int, int) {
        (clamp_position(self.x + self.w / 2), clamp_position(self.y + self.h / 2))
    }

    /// This rectangle moved so that its middle lies on `(x, y)`, as far as
    /// the range of positions allows.
    pub open spec fn moved_onto(self, x: int, y: int) -> Area {
        Area {
            x: clamp_position(clamp_position(x) - self.w / 2) as i32,
            y: clamp_position(clamp_position(y) - self.h / 2) as i32,
            w: self.w,
            h: self.h,
        }
    }

    /// This rectangle moved by `(dx, dy)`, as far as the range of positions
    /// allows.
    pub open spec fn shifted_by(self, dx: int, dy: int) -> Area {
        Area {
            x: clamp_position(self.x + dx) as i32,
            y: clamp_position(self.y + dy) as i32,
            w: self.w,
            h: self.h,
        }
    }

    /// The rectangle at `(x, y)` of the size `(w, h)`. A position or a size
    /// out of range is replaced by the nearest one in range; so a width or
    /// a height of zero becomes one.
    pub fn new(x: i32, y: i32, w: u32, h: u32) -> (r: Area)
        ensures
            r.wf(),
            r == Area::clamped(x as int, y as int, w as int, h as int),
    {
        Area {
            x: position(x as i64),
            y: position(y as i64),
            w: extent(w as u64),
            h: extent(h as u64),
        }
    }

    /// The width and the height.
    pub fn size(&self) -> (r: (u32, u32))
        ensures
            r == (self.w, self.h),
    {
        (self.w, self.h)
    }

    /// Tells whether the point `(x, y)` lies in the rectangle.
    pub fn contains_point(&self, x: i32, y: i32) -> (r: bool)
        requires
            self.wf(),
        ensures
            r == self.contains(x as int, y as int),
    {
        let inside_x = x >= self.x && (x as i64) < (self.x as i64) + (self.w as i64);
        inside_x && y >= self.y && (y as i64) < (self.y as i64) + (self.h as i64)
    }

    /// The middle of the rectangle.
    pub fn center(&self) -> (r: (i32, i32))
        requires
            self.wf(),
        ensures
            r.0 == self.middle().0,
            r.1 == self.middle().1,
    {
        (
            position((self.x as i64) + ((self.w / 2) as i64)),
            position((self.y as i64) + ((self.h / 2) as i64)),
        )
    }

    /// This rectangle moved so that its middle lies on `point`.
    pub fn centered_on(self, point: (i32, i32)) -> (r: Area)
        requires
            self.wf(),
        ensures
            r.wf(),
            r == self.moved_onto(point.0 as int, point.1 as int),
    {
        let cx = position(point.0 as i64);
        let cy = position(point.1 as i64);
        Area {
            x: position((cx as i64) - ((self.w / 2) as i64)),
            y: position((cy as i64) - ((self.h / 2) as i64)),
            w: self.w,
            h: self.h,
        }
    }

    /// This rectangle moved by `(dx, dy)`.
    pub fn shifted(self, dx: i32, dy: i32) -> (r: Area)
        requires
            self.wf(),
        ensures
            r.wf(),
            r == self.shifted_by(dx as int, dy as int),
    {
        Area {
            x: position((self.x as i64) + (dx as i64)),
            y: position((self.y as i64) + (dy as i64)),
            w: self.w,
            h: self.h,
        }
    }

    /// This rectangle with the size `(w, h)`, brought into range.
    pub fn resized(self, w: u32, h: u32) -> (r: Area)
        requires
            self.wf(),
        ensures
            r.wf(),
            r == Area::clamped(self.x as int, self.y as int, w as int, h as int),
    {
        Area { x: self.x, y: self.y, w: extent(w as u64), h: extent(h as u64) }
    }
}

} // verus!
