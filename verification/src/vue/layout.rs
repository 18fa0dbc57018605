//! How a part of the view takes its place inside the part that holds it.

use crate::vue::area::{clamp_position, position, Area};
use vstd::prelude::*;

verus! {

/// How wide or how high a part is, given the extent of its container.
#[derive(Clone, Copy, Debug, PartialEq, Eq, Structural)]
pub enum Length {
    /// Always this much.
    Fixed(u32),
    /// The container's extent less this much, and not less than nothing.
    ContainerLess(u32),
}

/// Where a part starts along one axis, given where its container starts
/// and how far it extends.
#[derive(Clone, Copy, Debug, PartialEq, Eq, Structural)]
pub enum Place {
    /// This far after the container's start.
    AfterStart(u32),
    /// This far before the container's end.
    BeforeEnd(u32),
    /// At the origin of the window, wherever the container starts.
    Origin,
    /// This far before the container's extent, counted from the origin of
    /// the window, wherever the container starts.
    BeforeExtent(u32),
}

/// The rule by which a part takes its size and its position.
#[derive(Clone, Copy, Debug, PartialEq, Eq, Structural)]
pub struct Layout {
    pub width: Length,
    pub height: Length,
    pub x: Place,
    pub y: Place,
}

impl Length {
    /// The extent this rule gives inside a container of the extent
    /// `container`.
    pub open spec fn of(self, container: int) -> int {
        match self {
            Length::Fixed(n) => n as int,
            Length::ContainerLess(n) => if container < n {
                0
            } else {
                container - n
            },
        }
    }

    /// Computes the extent inside a container of the extent `container`.
    pub fn resolve(&self, container: u32) -> (r: u32)
        ensures
            r == self.of(container as int),
    {
        match self {
            Length::Fixed(n) => *n,
            Length::ContainerLess(n) => if container < *n {
                0
            } else {
                container - *n
            },
        }
    }
}

impl Place {
    /// The coordinate this rule gives inside a container that starts at
    /// `start` and extends over `container`, brought into the range of
    /// positions.
    pub open spec fn of(self, container: int, start: int) -> int {
        match self {
            Place::AfterStart(n) => clamp_position(start + n),
            Place::BeforeEnd(n) => clamp_position(start + (container - n)),
            Place::Origin => 0,
            Place::BeforeExtent(n) => clamp_position(container - n),
        }
    }

    /// Computes the coordinate inside a container that starts at `start`
    /// and extends over `container`.
    pub fn resolve(&self, container: u32, start: i32) -> (r: i32)
        ensures
            r == self.of(container as int, start as int),
    {
        match self {
            Place::AfterStart(n) => position((start as i64) + (*n as i64)),
            Place::BeforeEnd(n) => position((start as i64) + ((container as i64) - (*n as i64))),
            Place::Origin => 0,
            Place::BeforeExtent(n) => position((container as i64) - (*n as i64)),
        }
    }
}

impl Layout {
    /// The size this rule gives in a container of the size
    /// `container_size`.
    pub open spec fn size_in(self, container_size: (u32, u32)) -> (int, int) {
        (self.width.of(container_size.0 as int), self.height.of(container_size.1 as int))
    }

    /// The position this rule gives in a container of the size
    /// `container_size` at `container_position`.
    pub open spec fn position_in(
        self,
        container_size: (u32, u32),
        container_position: (i32, i32),
    ) -> (int, int) {
        (
            self.x.of(container_size.0 as int, container_position.0 as int),
            self.y.of(container_size.1 as int, container_position.1 as int),
        )
    }

    /// Computes the size in a container of the size `container_size`.
    pub fn resize(&self, container_size: (u32, u32)) -> (r: (u32, u32))
        ensures
            r.0 == self.size_in(container_size).0,
            r.1 == self.size_in(container_size).1,
    {
        (self.width.resolve(container_size.0), self.height.resolve(container_size.1))
    }

    /// Computes the position in a container of the size `container_size`
    /// at `container_position`.
    pub fn reposition(&self, container_size: (u32, u32), container_position: (i32, i32)) -> (r: (
        i32,
        i32,
    ))
        ensures
            r.0 == self.position_in(container_size, container_position).0,
            r.1 == self.position_in(container_size, container_position).1,
    {
        (
            self.x.resolve(container_size.0, container_position.0),
            self.y.resolve(container_size.1, container_position.1),
        )
    }
}

/// A part of the view: the rectangle it fills, and the rule by which it
/// takes its place when its container changes.
#[derive(Clone, Copy, Debug, PartialEq, Eq, Structural)]
pub struct Frame {
    pub area: Area,
    pub layout: Layout,
}

impl Frame {
    /// A frame is well-formed when its rectangle is.
    pub open spec fn wf(self) -> bool {
        self.area.wf()
    }

    /// The frame laid out in a container of the size `container_size` at
    /// `container_position`.
    pub open spec fn placed(
        self,
        container_size: (u32, u32),
        container_position: (i32, i32),
    ) -> Frame {
        Frame {
            area: Area::clamped(
                self.layout.position_in(container_size, container_position).0,
                self.layout.position_in(container_size, container_position).1,
                self.layout.size_in(container_size).0,
                self.layout.size_in(container_size).1,
            ),
            layout: self.layout,
        }
    }

    /// A frame with the rule `layout` that has not been laid out yet: the
    /// smallest rectangle at the origin.
    pub fn new(layout: Layout) -> (r: Frame)
        ensures
            r.wf(),
            r.layout == layout,
            r.area == (Area { x: 0, y: 0, w: 1, h: 1 }),
    {
        Frame { area: Area::new(0, 0, 0, 0), layout }
    }

    /// Moves the frame to `position`, brought into range.
    pub fn set_position(&mut self, position: (i32, i32))
        requires
            old(self).wf(),
        ensures
            final(self).wf(),
            final(self).layout == old(self).layout,
            final(self).area == Area::clamped(
                position.0 as int,
                position.1 as int,
                old(self).area.w as int,
                old(self).area.h as int,
            ),
    {
        self.area = Area::new(position.0, position.1, self.area.w, self.area.h);
    }

    /// Gives the frame the size `size`, brought into range.
    pub fn set_size(&mut self, size: (u32, u32))
        requires
            old(self).wf(),
        ensures
            final(self).wf(),
            final(self).layout == old(self).layout,
            final(self).area == Area::clamped(
                old(self).area.x as int,
                old(self).area.y as int,
                size.0 as int,
                size.1 as int,
            ),
    {
        self.area = Area::new(self.area.x, self.area.y, size.0, size.1);
    }

    /// Lays the frame out in a container of the size `container_size` at
    /// `container_position`, by the frame's rule.
    pub fn on_resize(&mut self, container_size: (u32, u32), container_position: (i32, i32))
        requires
            old(self).wf(),
        ensures
            final(self).wf(),
            *final(self) == old(self).placed(container_size, container_position),
    {
        let size = self.layout.resize(container_size);
        self.set_size(size);
        let position = self.layout.reposition(container_size, container_position);
        self.set_position(position);
    }
}

} // verus!
