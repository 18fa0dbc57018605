//! The geometry of the editor's view: where its parts lie in the window, how
//! the text scrolls, and how positions in the window map to positions in
//! the text.

use crate::vue::area::{position, Area, MAX_EXTENT};
use crate::vue::info_bar::InfoBar;
use crate::vue::layout::{Frame, Layout, Length, Place};
use crate::vue::text_area::{standard_margins, Margins, ScrollState};
use crate::vue::text_area_container::{ContainerState, TextAreaContainer};
use vstd::prelude::*;

pub mod area;
pub mod info_bar;
pub mod layout;
pub mod line_numbers;
pub mod scroll_bar;
pub mod text_area;
pub mod text_area_container;

verus! {

/// `percent` hundredths of `length`, rounded down.
pub open spec fn spec_percent_of(length: int, percent: int) -> int {
    (length * percent) / 100
}

/// The middle of `x1` and `x2`, rounded down.
pub open spec fn spec_center(x1: int, x2: int) -> int {
    (x1 + x2) / 2
}

/// `percent` hundredths of the length `length`, rounded down.
pub fn percent_length(length: u32, percent: u32) -> (r: u32)
    requires
        spec_percent_of(length as int, percent as int) <= u32::MAX,
    ensures
        r == spec_percent_of(length as int, percent as int),
{
    let product: u64 = (length as u64) * (percent as u64);
    (product / 100) as u32
}

/// `percent` hundredths of the length `length`, rounded down, as a
/// position.
pub fn percent_position(length: u32, percent: u32) -> (r: i32)
    requires
        spec_percent_of(length as int, percent as int) <= i32::MAX,
    ensures
        r == spec_percent_of(length as int, percent as int),
{
    let product: u64 = (length as u64) * (percent as u64);
    (product / 100) as i32
}

/// The given hundredths of a width and of a height, each rounded down.
pub fn _percent_as_size(size: (u32, u32), percent: (u32, u32)) -> (r: (u32, u32))
    requires
        spec_percent_of(size.0 as int, percent.0 as int) <= u32::MAX,
        spec_percent_of(size.1 as int, percent.1 as int) <= u32::MAX,
    ensures
        r.0 == spec_percent_of(size.0 as int, percent.0 as int),
        r.1 == spec_percent_of(size.1 as int, percent.1 as int),
{
    (percent_length(size.0, percent.0), percent_length(size.1, percent.1))
}

/// The given hundredths of a width and of a height, each rounded down, as
/// a position.
pub fn _percent_as_position(size: (u32, u32), percent: (u32, u32)) -> (r: (i32, i32))
    requires
        spec_percent_of(size.0 as int, percent.0 as int) <= i32::MAX,
        spec_percent_of(size.1 as int, percent.1 as int) <= i32::MAX,
    ensures
        r.0 == spec_percent_of(size.0 as int, percent.0 as int),
        r.1 == spec_percent_of(size.1 as int, percent.1 as int),
{
    (percent_position(size.0, percent.0), percent_position(size.1, percent.1))
}

/// The middle of `x1` and `x2`, rounded down.
pub fn _center(x1: u32, x2: u32) -> (r: u32)
    ensures
        r == spec_center(x1 as int, x2 as int),
{
    let sum: u64 = (x1 as u64) + (x2 as u64);
    (sum / 2) as u32
}

/// The rectangle of a piece of text that measures `size`, a width and a
/// height, when it is drawn as line number `line` of a column of such
/// lines that starts at the origin.
pub open spec fn text_rect_at_line(size: (u32, u32), line: int) -> Area {
    Area::clamped(0, size.1 * line, size.0 as int, size.1 as int)
}

/// The rectangle at the origin of a piece of text that measures `size`.
pub fn str_rect(size: (u32, u32)) -> (r: Area)
    ensures
        r.wf(),
        r == Area::clamped(0, 0, size.0 as int, size.1 as int),
{
    Area::new(0, 0, size.0, size.1)
}

/// The rectangle of a piece of text that measures `size` when it is drawn
/// as line number `line`, counted from zero.
pub fn str_rect_at_line(size: (u32, u32), line: usize) -> (r: Area)
    ensures
        r.wf(),
        r == text_rect_at_line(size, line as int),
{
    let rect = str_rect(size);
    let down: i32 = if size.1 == 0 || line == 0 {
        assert(size.1 * line == 0) by (nonlinear_arith)
            requires
                size.1 == 0 || line == 0,
        ;
        0
    } else if line > MAX_EXTENT as usize {
        assert(size.1 * line > MAX_EXTENT) by (nonlinear_arith)
            requires
                size.1 >= 1,
                line > MAX_EXTENT,
        ;
        MAX_EXTENT as i32
    } else {
        assert(size.1 * line <= 0xffff_ffff * 0x3fff_ffff) by (nonlinear_arith)
            requires
                0 <= size.1 <= 0xffff_ffff,
                0 <= line <= 0x3fff_ffff,
        ;
        position(((size.1 as u64) * (line as u64)) as i64)
    };
    rect.shifted(0, down)
}

/// The height of the bar at the bottom of the window.
pub const INFO_BAR_HEIGHT: u32 = 30;

/// The rule of the text area's container: all of the window but the bar
/// at its bottom.
pub open spec fn container_layout() -> Layout {
    Layout {
        width: Length::ContainerLess(0),
        height: Length::ContainerLess(INFO_BAR_HEIGHT),
        x: Place::AfterStart(0),
        y: Place::AfterStart(0),
    }
}

/// The rule of the bar at the bottom: as wide as the window, along its
/// lower edge.
pub open spec fn info_bar_layout() -> Layout {
    Layout {
        width: Length::ContainerLess(0),
        height: Length::Fixed(INFO_BAR_HEIGHT),
        x: Place::Origin,
        y: Place::BeforeExtent(INFO_BAR_HEIGHT),
    }
}

/// What the view is at one moment: the state of the text area's container
/// and the frame of the bar at the bottom.
pub struct VueState {
    pub container: ContainerState,
    pub info_bar: Frame,
}

impl VueState {
    /// Both parts are well-formed.
    pub open spec fn wf(self) -> bool {
        self.container.wf() && self.info_bar.wf()
    }

    /// The state of a view that has not been laid out yet, its text area
    /// with the margins `margins`.
    pub open spec fn initial(margins: Margins) -> VueState {
        VueState {
            container: ContainerState::initial(container_layout(), margins),
            info_bar: Frame { area: Area { x: 0, y: 0, w: 1, h: 1 }, layout: info_bar_layout() },
        }
    }

    /// The state after the view was told that the cursor has moved.
    pub open spec fn cursor_moved(self) -> VueState {
        VueState {
            container: ContainerState {
                text_area: ScrollState { cursor_update: true, ..self.container.text_area },
                ..self.container
            },
            ..self
        }
    }

    /// The state after the view was laid out in a window of the size
    /// `window_size`.
    pub open spec fn resized(self, window_size: (u32, u32)) -> VueState {
        VueState {
            container: self.container.placed(window_size, (0, 0)),
            info_bar: self.info_bar.placed(window_size, (0, 0)),
        }
    }
}

/// The view of the editor: the text area with what surrounds it, and the
/// bar at the bottom of the window.
pub struct Vue {
    text_area_container: TextAreaContainer,
    info_bar: InfoBar,
}

impl View for Vue {
    type V = VueState;

    closed spec fn view(&self) -> VueState {
        VueState { container: self.text_area_container@, info_bar: self.info_bar@ }
    }
}

impl Vue {
    /// Well-formedness of the view: that of its state.
    pub open spec fn wf(&self) -> bool {
        self@.wf()
    }

    /// A view laid out in a window of the size `window_size`, its text
    /// area with the usual margins.
    pub fn new(window_size: (u32, u32)) -> (r: Self)
        ensures
            r.wf(),
            r@ == VueState::initial(standard_margins()).resized(window_size),
    {
        Vue::with_margins(window_size, Margins::standard())
    }

    /// A view laid out in a window of the size `window_size`, its text
    /// area with the margins `margins`.
    pub fn with_margins(window_size: (u32, u32), margins: Margins) -> (r: Self)
        requires
            margins.wf(),
        ensures
            r.wf(),
            r@ == VueState::initial(margins).resized(window_size),
    {
        let text_area_container = TextAreaContainer::with_margins(
            Layout {
                width: Length::ContainerLess(0),
                height: Length::ContainerLess(INFO_BAR_HEIGHT),
                x: Place::AfterStart(0),
                y: Place::AfterStart(0),
            },
            margins,
        );
        let info_bar = InfoBar::new(
            Layout {
                width: Length::ContainerLess(0),
                height: Length::Fixed(INFO_BAR_HEIGHT),
                x: Place::Origin,
                y: Place::BeforeExtent(INFO_BAR_HEIGHT),
            },
        );
        let mut v = Vue { text_area_container, info_bar };
        v.resize(window_size);
        v
    }

    /// The text area with what surrounds it.
    pub fn text_area_container(&self) -> (r: &TextAreaContainer)
        ensures
            r@ == self@.container,
    {
        &self.text_area_container
    }

    /// The bar at the bottom of the window.
    pub fn info_bar(&self) -> (r: &InfoBar)
        ensures
            r@ == self@.info_bar,
    {
        &self.info_bar
    }

    /// Lays the view out anew in a window of the size `window_size`.
    pub fn resize(&mut self, window_size: (u32, u32))
        requires
            old(self).wf(),
        ensures
            final(self).wf(),
            final(self)@ == old(self)@.resized(window_size),
    {
        self.text_area_container.on_resize(window_size, (0, 0));
        self.info_bar.on_resize(window_size, (0, 0));
    }

    /// The line and the column that the point `(x, y)` of the window falls
    /// on, or nothing where it lies outside the text area.
    pub fn cursor_index(&self, x: i32, y: i32) -> (r: Option<(usize, usize)>)
        requires
            self.wf(),
        ensures
            match self@.container.text_area.index_of(x as int, y as int) {
                Some(at) => r == Some((at.0 as usize, at.1 as usize)) && at.0 <= usize::MAX && at.1
                    <= usize::MAX,
                None => r is None,
            },
    {
        self.text_area_container.cursor_index(x, y)
    }

    /// Notes that the cursor has moved; the next refresh follows it.
    pub fn send_cursor_update(&mut self)
        requires
            old(self).wf(),
        ensures
            final(self).wf(),
            final(self)@ == old(self)@.cursor_moved(),
    {
        self.text_area_container.send_cursor_update()
    }

    /// Scrolls the text by `x` steps of the wheel sideways and `y` steps
    /// up.
    pub fn scroll_text_area(&mut self, x: i32, y: i32)
        requires
            old(self).wf(),
        ensures
            final(self).wf(),
            final(self)@.info_bar == old(self)@.info_bar,
            final(self)@.container == old(self)@.container.scrolled(x as int, y as int),
    {
        self.text_area_container.scroll(x, y)
    }

    /// Takes a click at `(x, y)`: where it falls on a scroll bar's track
    /// beside the thumb, the text is scrolled to what the bar asks for.
    /// Tells whether it fell there.
    pub fn click_text_area_scroll_bar(&mut self, x: i32, y: i32) -> (r: bool)
        requires
            old(self).wf(),
        ensures
            final(self).wf(),
            final(self)@.info_bar == old(self)@.info_bar,
            final(self)@.container == old(self)@.container.clicked(x as int, y as int),
            r == old(self)@.container.click_hits_bar(x as int, y as int),
    {
        self.text_area_container.click_scroll_bar(x, y)
    }

    /// Takes a move of the pointer to `(x, y)` by `(xrel, yrel)` during a
    /// drag that began at `origin`: where it began on a scroll bar's
    /// track, the text is scrolled to what the bar asks for. Tells whether
    /// it began there.
    pub fn hold_text_area_scroll_bar(
        &mut self,
        origin: (i32, i32),
        x: i32,
        y: i32,
        xrel: i32,
        yrel: i32,
    ) -> (r: bool)
        requires
            old(self).wf(),
        ensures
            final(self).wf(),
            final(self)@.info_bar == old(self)@.info_bar,
            final(self)@.container == old(self)@.container.held(
                (origin.0 as int, origin.1 as int),
                xrel as int,
                yrel as int,
            ),
            r == old(self)@.container.hold_hits_bar((origin.0 as int, origin.1 as int)),
    {
        self.text_area_container.hold_scroll_bar(origin, x, y, xrel, yrel)
    }

    /// Refreshes the view with the size of the content, in lines and
    /// columns, the cursor, the size of a cell, in pixels, and the time, in
    /// milliseconds. Returns what to draw of the vertical and of the
    /// horizontal scroll bar.
    pub fn refresh(
        &mut self,
        content_size: (usize, usize),
        cursor: (usize, usize),
        content_font_size: (u32, u32),
        now: u128,
    ) -> (r: (Option<Area>, Option<Area>))
        requires
            old(self).wf(),
        ensures
            final(self).wf(),
            final(self)@.info_bar == old(self)@.info_bar,
            final(self)@.container == old(self)@.container.refreshed(
                content_size.0 as int,
                content_size.1 as int,
                content_font_size.0 as int,
                content_font_size.1 as int,
                cursor.0 as int,
                cursor.1 as int,
                now as int,
            ),
            r.0 == final(self)@.container.vertical.visible(),
            r.1 == final(self)@.container.horizontal.visible(),
    {
        self.text_area_container.refresh(content_size, cursor, content_font_size, now)
    }
}

} // verus!
