//! The bar at the bottom of the window that shows where the cursor is.

use crate::vue::area::{clamp_position, position, Area};
use crate::vue::layout::{Frame, Layout};
use crate::vue::str_rect;
use vstd::prelude::*;

verus! {

/// Where the label is drawn in the bar `area`. The label measures
/// `label_size`, and one character of its font is `char_width` wide. The
/// label is centred on the bar's middle from top to bottom; sideways its
/// left edge lies its own width and one character before the bar's width,
/// counted from the window's left edge.
pub open spec fn label_rect(area: Area, label_size: (u32, u32), char_width: u32) -> Area {
    let label = Area::clamped(0, 0, label_size.0 as int, label_size.1 as int);
    let centred = label.moved_onto(area.middle().0, area.middle().1);
    Area {
        x: clamp_position(area.w - label.w - char_width) as i32,
        y: centred.y,
        w: label.w,
        h: label.h,
    }
}

/// The bar at the bottom of the window.
pub struct InfoBar {
    frame: Frame,
}

impl View for InfoBar {
    type V = Frame;

    closed spec fn view(&self) -> Frame {
        self.frame
    }
}

impl InfoBar {
    /// Well-formedness of the bar: that of its frame.
    pub open spec fn wf(&self) -> bool {
        self@.wf()
    }

    /// A bar with the rule `layout` that has not been laid out yet.
    pub fn new(layout: Layout) -> (r: Self)
        ensures
            r.wf(),
            r@ == (Frame { area: Area { x: 0, y: 0, w: 1, h: 1 }, layout }),
    {
        InfoBar { frame: Frame::new(layout) }
    }

    /// The rectangle of the bar.
    pub fn area(&self) -> (r: Area)
        ensures
            r == self@.area,
    {
        self.frame.area
    }

    /// Where the label is drawn: see [`label_rect`].
    pub fn draw_bar(&self, label_size: (u32, u32), char_width: u32) -> (r: Area)
        requires
            self.wf(),
        ensures
            r.wf(),
            r == label_rect(self@.area, label_size, char_width),
    {
        let area = self.frame.area;
        let label = str_rect(label_size);
        let centred = label.centered_on(area.center());
        let x: i64 = (area.w as i64) - (label.w as i64) - (char_width as i64);
        Area { x: position(x), y: centred.y, w: label.w, h: label.h }
    }

    /// Moves the bar to `pos`.
    pub fn set_position(&mut self, pos: (i32, i32))
        requires
            old(self).wf(),
        ensures
            final(self).wf(),
            final(self)@.layout == old(self)@.layout,
            final(self)@.area == Area::clamped(
                pos.0 as int,
                pos.1 as int,
                old(self)@.area.w as int,
                old(self)@.area.h as int,
            ),
    {
        self.frame.set_position(pos);
    }

    /// Gives the bar the size `size`.
    pub fn set_size(&mut self, size: (u32, u32))
        requires
            old(self).wf(),
        ensures
            final(self).wf(),
            final(self)@.layout == old(self)@.layout,
            final(self)@.area == Area::clamped(
                old(self)@.area.x as int,
                old(self)@.area.y as int,
                size.0 as int,
                size.1 as int,
            ),
    {
        self.frame.set_size(size);
    }

    /// Lays the bar out in a container of the size `container_size` at
    /// `container_position`.
    pub fn on_resize(&mut self, container_size: (u32, u32), container_position: (i32, i32))
        requires
            old(self).wf(),
        ensures
            final(self).wf(),
            final(self)@ == old(self)@.placed(container_size, container_position),
    {
        self.frame.on_resize(container_size, container_position);
    }
}

} // verus!
