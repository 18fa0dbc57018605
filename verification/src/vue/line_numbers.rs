//! The strip to the left of the text that shows the line numbers.

use crate::vue::area::{position, Area};
use crate::vue::layout::{Frame, Layout};
use crate::vue::{str_rect_at_line, text_rect_at_line};
use vstd::prelude::*;

verus! {

/// The space kept free between a line number and the right edge of the
/// strip, in pixels.
pub const NUMBER_GAP: u32 = 10;

/// Where the number of line `line`, counted from zero, is drawn in the
/// strip `area`. The number measures `number_size`; the same digits in the
/// font of the text measure `text_size`. The number is put in the middle of
/// the place the digits would have as line `line` of the text, and that is
/// moved: sideways so that the number's left edge lies its own width and
/// the gap before the strip's right edge, and down by the strip's top, the
/// space `top_margin` kept free above the first line, and the vertical
/// scroll offset `scroll_offset`.
pub open spec fn number_rect(
    area: Area,
    line: int,
    number_size: (u32, u32),
    text_size: (u32, u32),
    scroll_offset: int,
    top_margin: int,
) -> Area {
    let middle = text_rect_at_line(text_size, line).middle();
    let centred = text_rect_at_line(number_size, line).moved_onto(middle.0, middle.1);
    centred.shifted_by(
        area.x + area.w - centred.w - NUMBER_GAP,
        area.y + top_margin + scroll_offset,
    )
}

/// The strip of line numbers.
pub struct LineNumbers {
    frame: Frame,
}

impl View for LineNumbers {
    type V = Frame;

    closed spec fn view(&self) -> Frame {
        self.frame
    }
}

impl LineNumbers {
    /// Well-formedness of the strip: that of its frame.
    pub open spec fn wf(&self) -> bool {
        self@.wf()
    }

    /// A strip with the rule `layout` that has not been laid out yet.
    pub fn new(layout: Layout) -> (r: Self)
        ensures
            r.wf(),
            r@ == (Frame { area: Area { x: 0, y: 0, w: 1, h: 1 }, layout }),
    {
        LineNumbers { frame: Frame::new(layout) }
    }

    /// The rectangle of the strip.
    pub fn area(&self) -> (r: Area)
        ensures
            r == self@.area,
    {
        self.frame.area
    }

    /// Where the number of line `line_n`, counted from zero, is drawn: see
    /// [`number_rect`].
    pub fn draw(
        &self,
        line_n: usize,
        scroll_offset: i32,
        top_margin: u32,
        number_size: (u32, u32),
        text_size: (u32, u32),
    ) -> (r: Area)
        requires
            self.wf(),
        ensures
            r.wf(),
            r == number_rect(
                self@.area,
                line_n as int,
                number_size,
                text_size,
                scroll_offset as int,
                top_margin as int,
            ),
    {
        let area = self.frame.area;
        let rect = str_rect_at_line(number_size, line_n);
        let container = str_rect_at_line(text_size, line_n);
        let centred = rect.centered_on(container.center());
        let dx: i64 = (area.x as i64) + (area.w as i64) - (centred.w as i64) - (NUMBER_GAP as i64);
        let dy: i64 = (area.y as i64) + (top_margin as i64) + (scroll_offset as i64);
        Area {
            x: position((centred.x as i64) + dx),
            y: position((centred.y as i64) + dy),
            w: centred.w,
            h: centred.h,
        }
    }

    /// Moves the strip to `pos`.
    pub fn set_position(&mut self, pos: (i32, i32))
        requires
            old(self).wf(),
        ensures
            final(self).wf(),
            final(self)@.layout == old(self)@.layout,
            final(self)@.area == Area::clamped(
                pos.0 as int,
                pos.1 as int,
                old(self)@.area.w as int,
                old(self)@.area.h as int,
            ),
    {
        self.frame.set_position(pos);
    }

    /// Gives the strip the size `size`.
    pub fn set_size(&mut self, size: (u32, u32))
        requires
            old(self).wf(),
        ensures
            final(self).wf(),
            final(self)@.layout == old(self)@.layout,
            final(self)@.area == Area::clamped(
                old(self)@.area.x as int,
                old(self)@.area.y as int,
                size.0 as int,
                size.1 as int,
            ),
    {
        self.frame.set_size(size);
    }

    /// Lays the strip out in a container of the size `container_size` at
    /// `container_position`.
    pub fn on_resize(&mut self, container_size: (u32, u32), container_position: (i32, i32))
        requires
            old(self).wf(),
        ensures
            final(self).wf(),
            final(self)@ == old(self)@.placed(container_size, container_position),
    {
        self.frame.on_resize(container_size, container_position);
    }
}

} // verus!
