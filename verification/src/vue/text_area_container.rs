//! The text area together with what surrounds it: the line numbers and the
//! two scroll bars.

use crate::vue::area::Area;
use crate::vue::layout::{Frame, Layout, Length, Place};
use crate::vue::line_numbers::LineNumbers;
use crate::vue::scroll_bar::{BarState, ScrollBar};
use crate::vue::text_area::{
    lemma_high_content_is_not_all_shown, lemma_wide_content_is_not_all_shown, percent_scrolled,
    percent_shown, standard_margins, Margins, ScrollState, TextArea,
};
use crate::vue::spec_percent_of;
use vstd::prelude::*;

verus! {

/// How many pixels one step of the wheel scrolls.
pub const WHEEL_STEP: i64 = 20;

/// The width of the strip of line numbers, which the text area leaves
/// free to its left.
pub const NUMBERS_WIDTH: u32 = 40;

/// The height the text area leaves free below it.
pub const BOTTOM_GAP: u32 = 30;

/// The thickness of a scroll bar.
pub const BAR_THICKNESS: u32 = 20;

/// The rule of the text area: it leaves the strip of line numbers free to
/// its left, and a gap below.
pub open spec fn text_area_layout() -> Layout {
    Layout {
        width: Length::ContainerLess(NUMBERS_WIDTH),
        height: Length::ContainerLess(BOTTOM_GAP),
        x: Place::AfterStart(NUMBERS_WIDTH),
        y: Place::AfterStart(0),
    }
}

/// The rule of the line numbers: a strip down the left side.
pub open spec fn line_numbers_layout() -> Layout {
    Layout {
        width: Length::Fixed(NUMBERS_WIDTH),
        height: Length::ContainerLess(0),
        x: Place::AfterStart(0),
        y: Place::AfterStart(0),
    }
}

/// The rule of the vertical scroll bar: down the right side, shorter than
/// the container by the space `top_margin` kept free above the first line.
pub open spec fn vertical_bar_layout(top_margin: u32) -> Layout {
    Layout {
        width: Length::Fixed(BAR_THICKNESS),
        height: Length::ContainerLess(top_margin),
        x: Place::BeforeEnd(BAR_THICKNESS),
        y: Place::AfterStart(0),
    }
}

/// The rule of the horizontal scroll bar: along the bottom, leaving the
/// corner to the vertical one.
pub open spec fn horizontal_bar_layout() -> Layout {
    Layout {
        width: Length::ContainerLess(BAR_THICKNESS),
        height: Length::Fixed(BAR_THICKNESS),
        x: Place::AfterStart(0),
        y: Place::BeforeEnd(BAR_THICKNESS),
    }
}

/// The pixels that `steps` steps of the wheel scroll, as far as an `i32`
/// goes.
pub open spec fn wheel_pixels(steps: int) -> int {
    if WHEEL_STEP * steps > i32::MAX {
        i32::MAX as int
    } else if WHEEL_STEP * steps < i32::MIN {
        i32::MIN as int
    } else {
        WHEEL_STEP * steps
    }
}

/// What the container is at one moment: its own frame and the state of
/// each of its parts.
pub struct ContainerState {
    pub frame: Frame,
    pub text_area: ScrollState,
    pub line_numbers: Frame,
    pub vertical: BarState,
    pub horizontal: BarState,
}

impl ContainerState {
    /// The container's frame and every part are well-formed, and the bars
    /// run as their names say.
    pub open spec fn wf(self) -> bool {
        &&& self.frame.wf()
        &&& self.text_area.wf()
        &&& self.line_numbers.wf()
        &&& self.vertical.wf()
        &&& self.horizontal.wf()
        &&& self.vertical.vertical
        &&& !self.horizontal.vertical
    }

    /// The state of a container with the rule `layout` that has not been
    /// laid out yet, its parts new and with their own rules, the text area
    /// with the margins `margins`.
    pub open spec fn initial(layout: Layout, margins: Margins) -> ContainerState {
        ContainerState {
            frame: Frame { area: Area { x: 0, y: 0, w: 1, h: 1 }, layout },
            text_area: ScrollState::initial(text_area_layout(), margins),
            line_numbers: Frame {
                area: Area { x: 0, y: 0, w: 1, h: 1 },
                layout: line_numbers_layout(),
            },
            vertical: BarState::initial(vertical_bar_layout(margins.top), true),
            horizontal: BarState::initial(horizontal_bar_layout(), false),
        }
    }

    /// The state after the wheel turned by `x` steps sideways and `y`
    /// steps up: the text goes down by `y` steps, then left by `x`.
    pub open spec fn scrolled(self, x: int, y: int) -> ContainerState {
        ContainerState {
            text_area: self.text_area.scrolled_y(wheel_pixels(y)).scrolled_x(wheel_pixels(-x)),
            ..self
        }
    }

    /// The text area after the vertical bar was asked for `asked`.
    pub open spec fn text_after_vertical(
        text_area: ScrollState,
        asked: Option<int>,
    ) -> ScrollState {
        match asked {
            Some(p) => text_area.at_percent_y(p),
            None => text_area,
        }
    }

    /// The text area after the horizontal bar was asked for `asked`.
    pub open spec fn text_after_horizontal(
        text_area: ScrollState,
        asked: Option<int>,
    ) -> ScrollState {
        match asked {
            Some(p) => text_area.at_percent_x(p),
            None => text_area,
        }
    }

    /// The state after a click at `(x, y)`: the text is scrolled to what
    /// each bar asks for, the vertical one first.
    pub open spec fn clicked(self, x: int, y: int) -> ContainerState {
        ContainerState {
            text_area: Self::text_after_horizontal(
                Self::text_after_vertical(self.text_area, self.vertical.clicked(x, y)),
                self.horizontal.clicked(x, y),
            ),
            ..self
        }
    }

    /// Whether a click at `(x, y)` is one on a scroll bar's track beside
    /// the thumb.
    pub open spec fn click_hits_bar(self, x: int, y: int) -> bool {
        self.vertical.clicked(x, y) is Some || self.horizontal.clicked(x, y) is Some
    }

    /// The state after a drag that began at `origin` moved by
    /// `(xrel, yrel)`: the text is scrolled to what each bar asks for, the
    /// vertical one first.
    pub open spec fn held(self, origin: (int, int), xrel: int, yrel: int) -> ContainerState {
        ContainerState {
            text_area: Self::text_after_horizontal(
                Self::text_after_vertical(self.text_area, self.vertical.held(origin, xrel, yrel)),
                self.horizontal.held(origin, xrel, yrel),
            ),
            ..self
        }
    }

    /// Whether a drag that began at `origin` began on a scroll bar's
    /// track.
    pub open spec fn hold_hits_bar(self, origin: (int, int)) -> bool {
        self.vertical.area().contains(origin.0, origin.1) || self.horizontal.area().contains(
            origin.0,
            origin.1,
        )
    }

    /// The state after a refresh: the text area is refreshed, and each bar
    /// shows how far the text is then scrolled and how much of it is in
    /// view on its axis.
    pub open spec fn refreshed(
        self,
        rows: int,
        columns: int,
        cell_width: int,
        cell_height: int,
        line: int,
        column: int,
        now: int,
    ) -> ContainerState {
        let text = self.text_area.refreshed(
            rows,
            columns,
            cell_width,
            cell_height,
            line,
            column,
            now,
        );
        ContainerState {
            text_area: text,
            vertical: self.vertical.showing(
                percent_scrolled(text.offset_y, text.range_y()),
                percent_shown(text.area().h as int, text.scrollable_height()),
            ),
            horizontal: self.horizontal.showing(
                percent_scrolled(text.offset_x, text.range_x()),
                percent_shown(text.area().w as int, text.scrollable_width()),
            ),
            ..self
        }
    }

    /// The state after the parts were laid out in the container as it
    /// lies.
    pub open spec fn placed_children(self) -> ContainerState {
        let size = (self.frame.area.w, self.frame.area.h);
        let pos = (self.frame.area.x, self.frame.area.y);
        ContainerState {
            frame: self.frame,
            text_area: ScrollState {
                frame: self.text_area.frame.placed(size, pos),
                ..self.text_area
            },
            line_numbers: self.line_numbers.placed(size, pos),
            vertical: BarState { frame: self.vertical.frame.placed(size, pos), ..self.vertical },
            horizontal: BarState {
                frame: self.horizontal.frame.placed(size, pos),
                ..self.horizontal
            },
        }
    }

    /// The state after the container was laid out in a container of the
    /// size `container_size` at `container_position`, and its parts in
    /// it.
    pub open spec fn placed(
        self,
        container_size: (u32, u32),
        container_position: (i32, i32),
    ) -> ContainerState {
        (ContainerState {
            frame: self.frame.placed(container_size, container_position),
            ..self
        }).placed_children()
    }
}

/// After a refresh a scroll bar is drawn wherever the content is at least
/// as large as the text area on the bar's axis and is larger or has a
/// margin of at least a pixel to be scrolled into.
pub proof fn lemma_bars_are_drawn_for_large_content(
    s: ContainerState,
    rows: int,
    columns: int,
    cell_width: int,
    cell_height: int,
    line: int,
    column: int,
    now: int,
)
    requires
        s.wf(),
        0 <= now <= u128::MAX,
        0 <= rows <= usize::MAX,
        0 <= columns <= usize::MAX,
        0 <= cell_width <= u32::MAX,
        0 <= cell_height <= u32::MAX,
    ensures
        ({
            let t = s.refreshed(rows, columns, cell_width, cell_height, line, column, now);
            let text = t.text_area;
            &&& text.area().h <= text.content_area().h && (text.area().h < text.content_area().h
                || text.margins.top > 0 || spec_percent_of(
                text.area().h as int,
                text.margins.bottom_percent as int,
            ) > 0) ==> t.vertical.visible() is Some
            &&& text.area().w <= text.content_area().w && (text.area().w < text.content_area().w
                || spec_percent_of(text.area().w as int, text.margins.right_percent as int) > 0)
                ==> t.horizontal.visible() is Some
        }),
{
    let t = s.refreshed(rows, columns, cell_width, cell_height, line, column, now);
    let text = t.text_area;
    assert(text.wf());
    if text.area().h <= text.content_area().h && (text.area().h < text.content_area().h
        || text.margins.top > 0 || spec_percent_of(
        text.area().h as int,
        text.margins.bottom_percent as int,
    ) > 0) {
        lemma_high_content_is_not_all_shown(text);
    }
    if text.area().w <= text.content_area().w && (text.area().w < text.content_area().w
        || spec_percent_of(text.area().w as int, text.margins.right_percent as int) > 0) {
        lemma_wide_content_is_not_all_shown(text);
    }
}

/// Computes the pixels that `steps` steps of the wheel scroll.
fn pixels_of_wheel(steps: i64) -> (r: i32)
    requires
        -0x8000_0000 <= steps <= 0x8000_0000,
    ensures
        r == wheel_pixels(steps as int),
{
    let pixels: i64 = WHEEL_STEP * steps;
    if pixels > i32::MAX as i64 {
        i32::MAX
    } else if pixels < i32::MIN as i64 {
        i32::MIN
    } else {
        pixels as i32
    }
}

/// The text area with its line numbers and scroll bars.
pub struct TextAreaContainer {
    frame: Frame,
    text_area: TextArea,
    line_numbers: LineNumbers,
    vertical_scroll_bar: ScrollBar,
    horizontal_scroll_bar: ScrollBar,
}

impl View for TextAreaContainer {
    type V = ContainerState;

    closed spec fn view(&self) -> ContainerState {
        ContainerState {
            frame: self.frame,
            text_area: self.text_area@,
            line_numbers: self.line_numbers@,
            vertical: self.vertical_scroll_bar@,
            horizontal: self.horizontal_scroll_bar@,
        }
    }
}

impl TextAreaContainer {
    /// Well-formedness of the container: that of its state.
    pub open spec fn wf(&self) -> bool {
        self@.wf()
    }

    /// A container with the rule `layout` that has not been laid out yet,
    /// its parts new and with their own rules, the text area with the
    /// usual margins.
    pub fn new(layout: Layout) -> (r: Self)
        ensures
            r.wf(),
            r@ == ContainerState::initial(layout, standard_margins()),
    {
        TextAreaContainer::with_margins(layout, Margins::standard())
    }

    /// A container with the rule `layout` that has not been laid out yet,
    /// its parts new and with their own rules, the text area with the
    /// margins `margins`.
    pub fn with_margins(layout: Layout, margins: Margins) -> (r: Self)
        requires
            margins.wf(),
        ensures
            r.wf(),
            r@ == ContainerState::initial(layout, margins),
    {
        let text_area = TextArea::with_margins(
            Layout {
                width: Length::ContainerLess(NUMBERS_WIDTH),
                height: Length::ContainerLess(BOTTOM_GAP),
                x: Place::AfterStart(NUMBERS_WIDTH),
                y: Place::AfterStart(0),
            },
            margins,
        );
        let line_numbers = LineNumbers::new(
            Layout {
                width: Length::Fixed(NUMBERS_WIDTH),
                height: Length::ContainerLess(0),
                x: Place::AfterStart(0),
                y: Place::AfterStart(0),
            },
        );
        let vertical_scroll_bar = ScrollBar::new(
            Layout {
                width: Length::Fixed(BAR_THICKNESS),
                height: Length::ContainerLess(margins.top),
                x: Place::BeforeEnd(BAR_THICKNESS),
                y: Place::AfterStart(0),
            },
            true,
        );
        let horizontal_scroll_bar = ScrollBar::new(
            Layout {
                width: Length::ContainerLess(BAR_THICKNESS),
                height: Length::Fixed(BAR_THICKNESS),
                x: Place::AfterStart(0),
                y: Place::BeforeEnd(BAR_THICKNESS),
            },
            false,
        );
        TextAreaContainer {
            frame: Frame::new(layout),
            text_area,
            line_numbers,
            vertical_scroll_bar,
            horizontal_scroll_bar,
        }
    }

    /// The rectangle of the container.
    pub fn area(&self) -> (r: Area)
        ensures
            r == self@.frame.area,
    {
        self.frame.area
    }

    /// The text area.
    pub fn text_area(&self) -> (r: &TextArea)
        ensures
            r@ == self@.text_area,
    {
        &self.text_area
    }

    /// The strip of line numbers.
    pub fn line_numbers(&self) -> (r: &LineNumbers)
        ensures
            r@ == self@.line_numbers,
    {
        &self.line_numbers
    }

    /// The vertical scroll bar.
    pub fn vertical_scroll_bar(&self) -> (r: &ScrollBar)
        ensures
            r@ == self@.vertical,
    {
        &self.vertical_scroll_bar
    }

    /// The horizontal scroll bar.
    pub fn horizontal_scroll_bar(&self) -> (r: &ScrollBar)
        ensures
            r@ == self@.horizontal,
    {
        &self.horizontal_scroll_bar
    }

    /// Scrolls the text by `x` steps of the wheel sideways and `y` steps
    /// up.
    pub fn scroll(&mut self, x: i32, y: i32)
        requires
            old(self).wf(),
        ensures
            final(self).wf(),
            final(self)@ == old(self)@.scrolled(x as int, y as int),
    {
        self.text_area.scroll_y(pixels_of_wheel(y as i64));
        self.text_area.scroll_x(pixels_of_wheel(-(x as i64)));
    }

    /// The line and the column that the point `(x, y)` of the window falls
    /// on, or nothing where it lies outside the text area.
    pub fn cursor_index(&self, x: i32, y: i32) -> (r: Option<(usize, usize)>)
        requires
            self.wf(),
        ensures
            match self@.text_area.index_of(x as int, y as int) {
                Some(at) => r == Some((at.0 as usize, at.1 as usize)) && at.0 <= usize::MAX && at.1
                    <= usize::MAX,
                None => r is None,
            },
    {
        self.text_area.index_of_position(x, y)
    }

    /// Notes that the cursor has moved; the next refresh follows it.
    pub fn send_cursor_update(&mut self)
        requires
            old(self).wf(),
        ensures
            final(self).wf(),
            final(self)@ == (ContainerState {
                text_area: ScrollState { cursor_update: true, ..old(self)@.text_area },
                ..old(self)@
            }),
    {
        self.text_area.send_cursor_update();
    }

    /// Takes a click at `(x, y)`: where it falls on a scroll bar's track
    /// beside the thumb, the text is scrolled to what the bar asks for.
    /// Tells whether it fell there.
    pub fn click_scroll_bar(&mut self, x: i32, y: i32) -> (r: bool)
        requires
            old(self).wf(),
        ensures
            final(self).wf(),
            final(self)@ == old(self)@.clicked(x as int, y as int),
            r == old(self)@.click_hits_bar(x as int, y as int),
    {
        let b1 = match self.vertical_scroll_bar.click_scroll(x, y) {
            Some(p) => {
                self.text_area.set_y_scroll_percent(p);
                true
            },
            None => false,
        };
        let b2 = match self.horizontal_scroll_bar.click_scroll(x, y) {
            Some(p) => {
                self.text_area.set_x_scroll_percent(p);
                true
            },
            None => false,
        };
        b1 || b2
    }

    /// Takes a move of the pointer to `(x, y)` by `(xrel, yrel)` during a
    /// drag that began at `origin`: where it began on a scroll bar's
    /// track, the text is scrolled to what the bar asks for. Tells whether
    /// it began there.
    pub fn hold_scroll_bar(
        &mut self,
        origin: (i32, i32),
        x: i32,
        y: i32,
        xrel: i32,
        yrel: i32,
    ) -> (r: bool)
        requires
            old(self).wf(),
        ensures
            final(self).wf(),
            final(self)@ == old(self)@.held(
                (origin.0 as int, origin.1 as int),
                xrel as int,
                yrel as int,
            ),
            r == old(self)@.hold_hits_bar((origin.0 as int, origin.1 as int)),
    {
        let b1 = match self.vertical_scroll_bar.hold_scroll(origin, x, y, xrel, yrel) {
            Some(p) => {
                self.text_area.set_y_scroll_percent(p);
                true
            },
            None => false,
        };
        let b2 = match self.horizontal_scroll_bar.hold_scroll(origin, x, y, xrel, yrel) {
            Some(p) => {
                self.text_area.set_x_scroll_percent(p);
                true
            },
            None => false,
        };
        b1 || b2
    }

    /// Refreshes the text area with the size of the content, the cursor,
    /// the size of a cell and the time in milliseconds, and the bars with
    /// what the text area then shows. Returns what to draw of the vertical
    /// and of the horizontal bar.
    pub fn refresh(
        &mut self,
        content_size: (usize, usize),
        cursor: (usize, usize),
        content_font_size: (u32, u32),
        now: u128,
    ) -> (r: (Option<Area>, Option<Area>))
        requires
            old(self).wf(),
        ensures
            final(self).wf(),
            final(self)@ == old(self)@.refreshed(
                content_size.0 as int,
                content_size.1 as int,
                content_font_size.0 as int,
                content_font_size.1 as int,
                cursor.0 as int,
                cursor.1 as int,
                now as int,
            ),
            r.0 == final(self)@.vertical.visible(),
            r.1 == final(self)@.horizontal.visible(),
    {
        self.text_area.refresh(content_size, cursor, content_font_size, now);
        let scroll = self.text_area.get_scroll_percent();
        let shown = self.text_area.get_shown_percent();
        let vertical = self.vertical_scroll_bar.refresh(scroll.1, shown.1);
        let horizontal = self.horizontal_scroll_bar.refresh(scroll.0, shown.0);
        (vertical, horizontal)
    }

    /// Lays the container out in a container of the size `container_size`
    /// at `container_position`, and then its parts in it.
    pub fn on_resize(&mut self, container_size: (u32, u32), container_position: (i32, i32))
        requires
            old(self).wf(),
        ensures
            final(self).wf(),
            final(self)@ == old(self)@.placed(container_size, container_position),
    {
        self.frame.on_resize(container_size, container_position);
        self.affect_children();
    }

    /// Lays the parts out in the container as it lies now.
    pub fn affect_children(&mut self)
        requires
            old(self).wf(),
        ensures
            final(self).wf(),
            final(self)@ == old(self)@.placed_children(),
    {
        let size = self.frame.area.size();
        let pos = (self.frame.area.x, self.frame.area.y);
        self.text_area.on_resize(size, pos);
        self.line_numbers.on_resize(size, pos);
        self.vertical_scroll_bar.on_resize(size, pos);
        self.horizontal_scroll_bar.on_resize(size, pos);
    }
}

} // verus!
