//! The part of the view that shows the text: how far it is scrolled, how
//! the cursor is kept in sight, and which character a point falls on.

use crate::timer::{in_second_half, is_second_half};
use crate::vue::area::{
    clamp_extent, clamp_position, extent, position, Area, MAX_EXTENT, MIN_POSITION,
};
use crate::vue::layout::{Frame, Layout};
use crate::vue::{percent_length, spec_percent_of};
use vstd::prelude::*;

verus! {

/// The usual space kept free above the first line, in pixels.
pub const TOP_MARGIN: u32 = 10;

/// The usual share of the viewport's width, in hundredths, by which the
/// text can be scrolled past its right end.
pub const RIGHT_MARGIN_PERCENT: u32 = 90;

/// The usual share of the viewport's height, in hundredths, by which the
/// text can be scrolled past its last line.
pub const BOTTOM_MARGIN_PERCENT: u32 = 80;

/// The largest space that can be kept free above the first line, in
/// pixels.
pub const MAX_TOP_MARGIN: u32 = 0xffff;

/// The room around the text into which it can be scrolled: a space above
/// the first line, in pixels, and shares of the viewport's width and
/// height, in hundredths, past the right end and the last line.
#[derive(Clone, Copy, Debug, PartialEq, Eq, Structural)]
pub struct Margins {
    pub top: u32,
    pub right_percent: u32,
    pub bottom_percent: u32,
}

/// The usual margins.
pub open spec fn standard_margins() -> Margins {
    Margins {
        top: TOP_MARGIN,
        right_percent: RIGHT_MARGIN_PERCENT,
        bottom_percent: BOTTOM_MARGIN_PERCENT,
    }
}

impl Margins {
    /// The space above is at most `MAX_TOP_MARGIN`, and each share is less
    /// than the whole viewport, so that the text cannot be scrolled out of
    /// sight altogether.
    pub open spec fn wf(self) -> bool {
        &&& self.top <= MAX_TOP_MARGIN
        &&& self.right_percent < 100
        &&& self.bottom_percent < 100
    }

    /// The usual margins.
    pub fn standard() -> (r: Margins)
        ensures
            r == standard_margins(),
            r.wf(),
    {
        Margins {
            top: TOP_MARGIN,
            right_percent: RIGHT_MARGIN_PERCENT,
            bottom_percent: BOTTOM_MARGIN_PERCENT,
        }
    }

    /// Tells whether these margins can be used.
    pub fn is_valid(&self) -> (r: bool)
        ensures
            r == self.wf(),
    {
        self.top <= MAX_TOP_MARGIN && self.right_percent < 100 && self.bottom_percent < 100
    }
}

/// How long the caret takes to blink once, in milliseconds.
pub const BLINK_MILLIS: u128 = 2000;

/// The extent in pixels of `count` cells of the size `cell`, as a rectangle
/// can have it.
pub open spec fn content_extent(cell: int, count: int) -> int {
    clamp_extent(cell * count)
}

/// The distance in pixels from the start of the content to the cell with
/// the index `index`, at most `MAX_EXTENT`.
pub open spec fn cell_offset(cell: int, index: int) -> int {
    if cell * index > MAX_EXTENT {
        MAX_EXTENT as int
    } else {
        cell * index
    }
}

/// The index of the cell that lies `distance` pixels after the start of
/// the content; before the start it is the first cell.
pub open spec fn cell_index(distance: int, cell: int) -> int {
    if distance < 0 {
        0
    } else {
        distance / cell
    }
}

/// How far the content can be scrolled: by what the scrollable extent has
/// over the viewport's, and not at all where it has nothing over it.
pub open spec fn scroll_range(viewport: int, scrollable: int) -> int {
    if viewport >= scrollable {
        0
    } else {
        scrollable - viewport
    }
}

/// The offset after scrolling by `delta`: the sum, kept between the
/// viewport's extent less the scrollable extent and zero. Where the
/// scrollable extent is less than the viewport's, the offset stays as it
/// is.
pub open spec fn scrolled(offset: int, delta: int, viewport: int, scrollable: int) -> int {
    let lowest = viewport - scrollable;
    if lowest > 0 {
        offset
    } else if offset + delta < lowest {
        lowest
    } else if offset + delta > 0 {
        0
    } else {
        offset + delta
    }
}

/// The offset that lies `percent` hundredths along the range `range`,
/// rounded towards zero and kept within the range.
pub open spec fn offset_at_percent(range: int, percent: int) -> int {
    if percent <= 0 {
        0
    } else if (range * percent) / 100 > range {
        -range
    } else {
        -((range * percent) / 100)
    }
}

/// How far along the range `range` the offset `offset` lies, in
/// hundredths rounded down; zero where there is no range.
pub open spec fn percent_scrolled(offset: int, range: int) -> int {
    if range <= 0 {
        0
    } else {
        (-offset * 100) / range
    }
}

/// The share of the scrollable extent that the viewport shows, in
/// hundredths rounded down.
pub open spec fn percent_shown(viewport: int, scrollable: int) -> int {
    (viewport * 100) / scrollable
}

/// The offset that brings a cursor at `position` back between `near` and
/// `far`: where the cursor lies before `near`, the offset grows by the
/// distance to `near`, but not beyond zero; where it lies after `far`, the
/// offset shrinks by the distance to `far`, as far as an `i32` goes; in
/// between it stays.
pub open spec fn followed(offset: int, position: int, near: int, far: int) -> int {
    if position < near {
        if offset + (near - position) > 0 {
            0
        } else {
            offset + (near - position)
        }
    } else if position > far {
        if offset + (far - position) < i32::MIN {
            i32::MIN as int
        } else {
            offset + (far - position)
        }
    } else {
        offset
    }
}

/// The time that has passed at `now` since `start`, both in milliseconds
/// on one clock; nothing where `now` lies before `start`.
pub open spec fn elapsed_since(start: int, now: int) -> int {
    if now < start {
        0
    } else {
        now - start
    }
}

/// What the text area is at one moment: the viewport, the margins, the size
/// of the content in lines and columns, the size of one character cell in
/// pixels,
/// the scroll offset in pixels, whether a move of the cursor is still to be
/// followed, and when the caret began to blink, in milliseconds on the
/// clock of whoever refreshes the view.
pub struct ScrollState {
    pub frame: Frame,
    pub margins: Margins,
    pub rows: int,
    pub columns: int,
    pub cell_width: int,
    pub cell_height: int,
    pub offset_x: int,
    pub offset_y: int,
    pub cursor_update: bool,
    pub blink_start: int,
}

impl ScrollState {
    /// The viewport is a rectangle in range, counts and sizes are not
    /// negative, and the offset is zero or negative on both axes.
    pub open spec fn wf(self) -> bool {
        &&& self.frame.wf()
        &&& self.margins.wf()
        &&& 0 <= self.rows <= usize::MAX
        &&& 0 <= self.columns <= usize::MAX
        &&& 0 <= self.cell_width <= u32::MAX
        &&& 0 <= self.cell_height <= u32::MAX
        &&& i32::MIN <= self.offset_x <= 0
        &&& i32::MIN <= self.offset_y <= 0
        &&& 0 <= self.blink_start <= u128::MAX
    }

    /// The state of a text area with the rule `layout` and the margins
    /// `margins` that has not been laid out yet: no content, no cell size,
    /// not scrolled, nothing to follow.
    pub open spec fn initial(layout: Layout, margins: Margins) -> ScrollState {
        ScrollState {
            frame: Frame { area: Area { x: 0, y: 0, w: 1, h: 1 }, layout },
            margins,
            rows: 0,
            columns: 0,
            cell_width: 0,
            cell_height: 0,
            offset_x: 0,
            offset_y: 0,
            cursor_update: false,
            blink_start: 0,
        }
    }

    /// The viewport.
    pub open spec fn area(self) -> Area {
        self.frame.area
    }

    /// The rectangle the whole content fills: it starts at the viewport's
    /// corner moved by the offset, below the top margin.
    pub open spec fn content_area(self) -> Area {
        Area::clamped(
            self.area().x + self.offset_x,
            self.area().y + self.offset_y + self.margins.top,
            self.cell_width * self.columns,
            self.cell_height * self.rows,
        )
    }

    /// The width over which the content can be scrolled: its own and a
    /// margin to the right.
    pub open spec fn scrollable_width(self) -> int {
        self.content_area().w + spec_percent_of(
            self.area().w as int,
            self.margins.right_percent as int,
        )
    }

    /// The height over which the content can be scrolled: its own, the top
    /// margin and a margin below.
    pub open spec fn scrollable_height(self) -> int {
        self.content_area().h + self.margins.top + spec_percent_of(
            self.area().h as int,
            self.margins.bottom_percent as int,
        )
    }

    /// How far the content can be scrolled to the left.
    pub open spec fn range_x(self) -> int {
        scroll_range(self.area().w as int, self.scrollable_width())
    }

    /// How far the content can be scrolled up.
    pub open spec fn range_y(self) -> int {
        scroll_range(self.area().h as int, self.scrollable_height())
    }

    /// The rectangle in which the cursor is left alone: it starts a tenth
    /// of the viewport's width and a fifth of its height inside the
    /// viewport and has eight tenths of its width and six tenths of its
    /// height.
    pub open spec fn comfort(self) -> Area {
        Area::clamped(
            self.area().x + spec_percent_of(self.area().w as int, 10),
            self.area().y + spec_percent_of(self.area().h as int, 20),
            spec_percent_of(self.area().w as int, 80),
            spec_percent_of(self.area().h as int, 60),
        )
    }

    /// Where the cursor at `(line, column)` lies in the window.
    pub open spec fn cursor_position(self, line: int, column: int) -> (int, int) {
        (
            self.content_area().x + cell_offset(self.cell_width, column),
            self.content_area().y + cell_offset(self.cell_height, line),
        )
    }

    /// The same state with the offset `(x, y)`.
    pub open spec fn with_offset(self, x: int, y: int) -> ScrollState {
        ScrollState { offset_x: x, offset_y: y, ..self }
    }

    /// The state after the horizontal offset moved by `delta`.
    pub open spec fn scrolled_x(self, delta: int) -> ScrollState {
        self.with_offset(
            scrolled(self.offset_x, delta, self.area().w as int, self.scrollable_width()),
            self.offset_y,
        )
    }

    /// The state after the vertical offset moved by `delta`.
    pub open spec fn scrolled_y(self, delta: int) -> ScrollState {
        self.with_offset(
            self.offset_x,
            scrolled(self.offset_y, delta, self.area().h as int, self.scrollable_height()),
        )
    }

    /// The state with the horizontal offset `percent` hundredths along its
    /// range.
    pub open spec fn at_percent_x(self, percent: int) -> ScrollState {
        self.with_offset(offset_at_percent(self.range_x(), percent), self.offset_y)
    }

    /// The state with the vertical offset `percent` hundredths along its
    /// range.
    pub open spec fn at_percent_y(self, percent: int) -> ScrollState {
        self.with_offset(self.offset_x, offset_at_percent(self.range_y(), percent))
    }

    /// The state after the offset followed the cursor at `(line, column)`
    /// into the comfort rectangle, on each axis by itself.
    pub open spec fn following(self, line: int, column: int) -> ScrollState {
        let bounds = self.comfort();
        let at = self.cursor_position(line, column);
        self.with_offset(
            followed(self.offset_x, at.0, bounds.x as int, bounds.x + bounds.w),
            followed(self.offset_y, at.1, bounds.y as int, bounds.y + bounds.h),
        )
    }

    /// The state after a move of the cursor to `(line, column)` was taken
    /// note of at the time `now`: the offset has followed the cursor, the
    /// caret begins to blink anew, and nothing is left to follow.
    pub open spec fn cursor_updated(self, line: int, column: int, now: int) -> ScrollState {
        ScrollState { cursor_update: false, blink_start: now, ..self.following(line, column) }
    }

    /// The state after a refresh at the time `now`: the content and the
    /// cells have their new sizes, and a move of the cursor that was still
    /// to be followed has been taken note of.
    pub open spec fn refreshed(
        self,
        rows: int,
        columns: int,
        cell_width: int,
        cell_height: int,
        line: int,
        column: int,
        now: int,
    ) -> ScrollState {
        let sized = ScrollState { rows, columns, cell_width, cell_height, ..self };
        if self.cursor_update {
            sized.cursor_updated(line, column, now)
        } else {
            sized
        }
    }

    /// The line and the column that the point `(x, y)` of the window falls
    /// on, if it lies in the viewport and the cells have a size.
    pub open spec fn index_of(self, x: int, y: int) -> Option<(int, int)> {
        if self.area().contains(clamp_position(x), clamp_position(y)) && self.cell_width > 0
            && self.cell_height > 0 {
            Some(
                (
                    cell_index(y - self.content_area().y, self.cell_height),
                    cell_index(x - self.content_area().x, self.cell_width),
                ),
            )
        } else {
            None
        }
    }

    /// The rectangle of the caret for a cursor at `(line, column)`: a
    /// quarter of a cell wide, a cell high, its middle on the cell's left
    /// edge.
    pub open spec fn caret(self, line: int, column: int) -> Area {
        let at = self.cursor_position(line, column);
        let width = self.cell_width / 4;
        Area::clamped(at.0 - width / 2, at.1, width, self.cell_height)
    }

    /// Whether the caret is dark at the time `now`: it blinks once in
    /// every `BLINK_MILLIS` since it began, lit for the first half and dark
    /// for the second.
    pub open spec fn caret_hidden(self, now: int) -> bool {
        in_second_half(elapsed_since(self.blink_start, now), BLINK_MILLIS as int)
    }

    /// What is drawn of the caret at the time `now` for a cursor at
    /// `(line, column)`: its rectangle while it is lit, nothing while it is
    /// dark.
    pub open spec fn caret_at(self, line: int, column: int, now: int) -> Option<Area> {
        if self.caret_hidden(now) {
            None
        } else {
            Some(self.caret(line, column))
        }
    }
}

/// Where the content is at least as wide as the viewport, less than all of
/// the scrollable width is in view, provided the viewport is narrower than
/// the content or there is a margin to the right of at least a pixel. (With
/// the usual margins the viewport must be two pixels wide for that.)
pub proof fn lemma_wide_content_is_not_all_shown(s: ScrollState)
    requires
        s.wf(),
        s.area().w <= s.content_area().w,
        s.area().w < s.content_area().w || spec_percent_of(
            s.area().w as int,
            s.margins.right_percent as int,
        ) > 0,
    ensures
        percent_shown(s.area().w as int, s.scrollable_width()) < 100,
        s.range_x() > 0,
{
    let w = s.area().w as int;
    let all = s.scrollable_width();
    assert(w < all);
    assert((w * 100) / all < 100) by (nonlinear_arith)
        requires
            0 <= w < all,
    ;
}

/// Where the content is at least as high as the viewport, less than all of
/// the scrollable height is in view, provided the viewport is lower than
/// the content or there is a margin above or below of at least a pixel, as
/// there is with the usual margins.
pub proof fn lemma_high_content_is_not_all_shown(s: ScrollState)
    requires
        s.wf(),
        s.area().h <= s.content_area().h,
        s.area().h < s.content_area().h || s.margins.top > 0 || spec_percent_of(
            s.area().h as int,
            s.margins.bottom_percent as int,
        ) > 0,
    ensures
        percent_shown(s.area().h as int, s.scrollable_height()) < 100,
        s.range_y() > 0,
{
    let h = s.area().h as int;
    let all = s.scrollable_height();
    assert(spec_percent_of(h, s.margins.bottom_percent as int) >= 0) by (nonlinear_arith)
        requires
            h >= 0,
            s.margins.bottom_percent >= 0,
    ;
    assert(h < all);
    assert((h * 100) / all < 100) by (nonlinear_arith)
        requires
            0 <= h < all,
    ;
}

/// With the usual margins, less than all of the scrollable extent is in
/// view on an axis wherever the content is at least as large as the
/// viewport on that axis; sideways provided the viewport is two pixels wide
/// or narrower than the content. (A viewport one pixel wide over content
/// one pixel wide has no margin to scroll into.)
pub proof fn lemma_large_content_is_not_all_shown(s: ScrollState)
    requires
        s.wf(),
        s.margins == standard_margins(),
    ensures
        s.area().h <= s.content_area().h ==> percent_shown(
            s.area().h as int,
            s.scrollable_height(),
        ) < 100,
        s.area().w <= s.content_area().w && (s.area().w >= 2 || s.area().w < s.content_area().w)
            ==> percent_shown(s.area().w as int, s.scrollable_width()) < 100,
{
    if s.area().h <= s.content_area().h {
        lemma_high_content_is_not_all_shown(s);
    }
    if s.area().w <= s.content_area().w && (s.area().w >= 2 || s.area().w < s.content_area().w) {
        lemma_wide_content_is_not_all_shown(s);
    }
}

/// Less than all of the scrollable extent is in view exactly where the
/// content can be scrolled.
pub proof fn lemma_shown_percent_tells_range(viewport: int, scrollable: int)
    requires
        0 < viewport,
        0 < scrollable,
    ensures
        percent_shown(viewport, scrollable) < 100 <==> scroll_range(viewport, scrollable) > 0,
{
    if viewport < scrollable {
        assert((viewport * 100) / scrollable < 100) by (nonlinear_arith)
            requires
                0 <= viewport < scrollable,
        ;
    } else {
        assert((viewport * 100) / scrollable >= 100) by (nonlinear_arith)
            requires
                0 < scrollable <= viewport,
        ;
    }
}

/// An offset of zero stays at zero under scrolling, by whatever amount,
/// where the viewport is at least as large as the scrollable extent; and
/// anywhere under scrolling towards the start.
pub proof fn lemma_fitting_content_stays_put(s: ScrollState, delta: int)
    requires
        s.wf(),
    ensures
        s.offset_x == 0 && (s.area().w >= s.scrollable_width() || delta >= 0) ==> s.scrolled_x(
            delta,
        ).offset_x == 0,
        s.offset_y == 0 && (s.area().h >= s.scrollable_height() || delta >= 0) ==> s.scrolled_y(
            delta,
        ).offset_y == 0,
{
}

/// Scrolling keeps the offset within the range: between the range's
/// negative and zero, wherever it was there before or the content can be
/// scrolled.
pub proof fn lemma_scrolled_stays_in_range(offset: int, delta: int, viewport: int, scrollable: int)
    requires
        offset <= 0,
        -scroll_range(viewport, scrollable) <= offset || viewport <= scrollable,
    ensures
        -scroll_range(viewport, scrollable) <= scrolled(offset, delta, viewport, scrollable) <= 0,
{
}

/// Positioning by hundredths maps zero to the start of the range, a
/// hundred to its end, and everything between them onto the range in
/// order.
pub proof fn lemma_offset_at_percent_is_linear(range: int, percent: int, other: int)
    requires
        0 <= range,
    ensures
        -range <= offset_at_percent(range, percent) <= 0,
        offset_at_percent(range, 0) == 0,
        offset_at_percent(range, 100) == -range,
        percent <= other ==> offset_at_percent(range, other) <= offset_at_percent(range, percent),
{
    assert((range * 100) / 100 == range);
    if 0 < percent <= other {
        assert((range * percent) / 100 <= (range * other) / 100) by (nonlinear_arith)
            requires
                0 <= range,
                0 < percent <= other,
        ;
    }
    if 0 < percent {
        assert((range * percent) / 100 >= 0) by (nonlinear_arith)
            requires
                0 <= range,
                0 < percent,
        ;
    }
    if 0 < other {
        assert((range * other) / 100 >= 0) by (nonlinear_arith)
            requires
                0 <= range,
                0 < other,
        ;
    }
}

/// Following the cursor moves the offset no farther than the cursor lies
/// from the nearer edge of the comfort rectangle, and not at all while the
/// cursor lies within it. The offset moves by exactly that distance
/// wherever that leaves it at or below zero and within an `i32`.
pub proof fn lemma_followed_is_minimal(offset: int, position: int, near: int, far: int)
    requires
        i32::MIN <= offset <= 0,
        near <= far,
    ensures
        near <= position <= far ==> followed(offset, position, near, far) == offset,
        position < near ==> 0 <= followed(offset, position, near, far) - offset <= near - position,
        position < near && offset + (near - position) <= 0 ==> followed(offset, position, near, far)
            - offset == near - position,
        position > far ==> far - position <= followed(offset, position, near, far) - offset <= 0,
        position > far && offset + (far - position) >= i32::MIN ==> followed(
            offset,
            position,
            near,
            far,
        ) - offset == far - position,
{
}

/// The same of a text area: on each axis the offset moves by the distance
/// from the cursor to the nearer edge of the comfort rectangle, or less
/// where zero or the end of an `i32` stops it, and stays while the cursor
/// is inside.
pub proof fn lemma_following_is_minimal(s: ScrollState, line: int, column: int)
    requires
        s.wf(),
    ensures
        ({
            let b = s.comfort();
            let at = s.cursor_position(line, column);
            let t = s.following(line, column);
            &&& b.x <= at.0 <= b.x + b.w ==> t.offset_x == s.offset_x
            &&& b.y <= at.1 <= b.y + b.h ==> t.offset_y == s.offset_y
            &&& at.0 < b.x ==> 0 <= t.offset_x - s.offset_x <= b.x - at.0
            &&& at.1 < b.y ==> 0 <= t.offset_y - s.offset_y <= b.y - at.1
            &&& at.0 < b.x && s.offset_x + (b.x - at.0) <= 0 ==> t.offset_x - s.offset_x == b.x
                - at.0
            &&& at.1 < b.y && s.offset_y + (b.y - at.1) <= 0 ==> t.offset_y - s.offset_y == b.y
                - at.1
            &&& at.0 > b.x + b.w ==> b.x + b.w - at.0 <= t.offset_x - s.offset_x <= 0
            &&& at.1 > b.y + b.h ==> b.y + b.h - at.1 <= t.offset_y - s.offset_y <= 0
            &&& at.0 > b.x + b.w && s.offset_x + (b.x + b.w - at.0) >= i32::MIN ==> t.offset_x
                - s.offset_x == b.x + b.w - at.0
            &&& at.1 > b.y + b.h && s.offset_y + (b.y + b.h - at.1) >= i32::MIN ==> t.offset_y
                - s.offset_y == b.y + b.h - at.1
            &&& t.frame == s.frame && t.rows == s.rows && t.columns == s.columns && t.cell_width
                == s.cell_width && t.cell_height == s.cell_height
        }),
{
    let b = s.comfort();
    let at = s.cursor_position(line, column);
    lemma_followed_is_minimal(s.offset_x, at.0, b.x as int, b.x + b.w);
    lemma_followed_is_minimal(s.offset_y, at.1, b.y as int, b.y + b.h);
}

/// After following a cursor that lay to the right of the comfort
/// rectangle or below it, the cursor lies on the rectangle's far edge on
/// that axis, as long as the content's corner stays in the range of
/// positions.
pub proof fn lemma_following_brings_cursor_to_far_edge(s: ScrollState, line: int, column: int)
    requires
        s.wf(),
        0 <= line,
        0 <= column,
    ensures
        ({
            let b = s.comfort();
            let at = s.cursor_position(line, column);
            let t = s.following(line, column);
            &&& at.0 > b.x + b.w && s.area().x + t.offset_x >= MIN_POSITION ==> t.cursor_position(
                line,
                column,
            ).0 == b.x + b.w
            &&& at.1 > b.y + b.h && s.area().y + t.offset_y + s.margins.top >= MIN_POSITION
                && s.area().y + s.offset_y + s.margins.top <= MAX_EXTENT ==> t.cursor_position(
                line,
                column,
            ).1 == b.y + b.h
        }),
{
    let b = s.comfort();
    let at = s.cursor_position(line, column);
    let t = s.following(line, column);
    assert(t.comfort() == b);
    if at.0 > b.x + b.w && s.area().x + t.offset_x >= MIN_POSITION {
        assert(t.offset_x <= s.offset_x);
        assert(t.content_area().x == s.area().x + t.offset_x);
        assert(s.content_area().x == s.area().x + s.offset_x);
    }
    if at.1 > b.y + b.h && s.area().y + t.offset_y + s.margins.top >= MIN_POSITION && s.area().y
        + s.offset_y + s.margins.top <= MAX_EXTENT {
        assert(t.offset_y <= s.offset_y);
        assert(t.content_area().y == s.area().y + t.offset_y + s.margins.top);
        assert(s.content_area().y == s.area().y + s.offset_y + s.margins.top);
    }
}

/// Computes the extent in pixels of `count` cells of the size `cell`.
fn extent_of_cells(cell: u32, count: usize) -> (r: u32)
    ensures
        r == content_extent(cell as int, count as int),
        1 <= r <= MAX_EXTENT,
{
    if cell == 0 || count == 0 {
        assert(cell * count == 0) by (nonlinear_arith)
            requires
                cell == 0 || count == 0,
        ;
        1
    } else if count > MAX_EXTENT as usize {
        assert(cell * count > MAX_EXTENT) by (nonlinear_arith)
            requires
                cell >= 1,
                count > MAX_EXTENT,
        ;
        MAX_EXTENT
    } else {
        assert(cell * count <= 0xffff_ffff * 0x3fff_ffff) by (nonlinear_arith)
            requires
                0 <= cell <= 0xffff_ffff,
                0 <= count <= 0x3fff_ffff,
        ;
        extent((cell as u64) * (count as u64))
    }
}

/// Computes the distance in pixels from the start of the content to the
/// cell with the index `index`.
fn offset_of_cell(cell: u32, index: usize) -> (r: u32)
    ensures
        r == cell_offset(cell as int, index as int),
        r <= MAX_EXTENT,
{
    if cell == 0 || index == 0 {
        assert(cell * index == 0) by (nonlinear_arith)
            requires
                cell == 0 || index == 0,
        ;
        0
    } else if index > MAX_EXTENT as usize {
        assert(cell * index > MAX_EXTENT) by (nonlinear_arith)
            requires
                cell >= 1,
                index > MAX_EXTENT,
        ;
        MAX_EXTENT
    } else {
        assert(cell * index <= 0xffff_ffff * 0x3fff_ffff) by (nonlinear_arith)
            requires
                0 <= cell <= 0xffff_ffff,
                0 <= index <= 0x3fff_ffff,
        ;
        let product: u64 = (cell as u64) * (index as u64);
        if product > MAX_EXTENT as u64 {
            MAX_EXTENT
        } else {
            product as u32
        }
    }
}

/// Computes the index of the cell that lies `distance` pixels after the
/// start of the content.
fn index_of_cell(distance: i64, cell: u32) -> (r: usize)
    requires
        cell > 0,
        distance <= u32::MAX,
    ensures
        r == cell_index(distance as int, cell as int),
{
    if distance < 0 {
        0
    } else {
        let index: u64 = (distance as u64) / (cell as u64);
        index as usize
    }
}

/// Computes how far the content can be scrolled.
fn range_of(viewport: u32, scrollable: u32) -> (r: u32)
    ensures
        r == scroll_range(viewport as int, scrollable as int),
{
    if viewport >= scrollable {
        0
    } else {
        scrollable - viewport
    }
}

/// Computes the offset after scrolling by `delta`.
fn scroll_axis(offset: i32, delta: i32, viewport: u32, scrollable: u32) -> (r: i32)
    requires
        offset <= 0,
        scrollable <= i32::MAX,
    ensures
        r == scrolled(offset as int, delta as int, viewport as int, scrollable as int),
        r <= 0,
{
    let lowest: i64 = (viewport as i64) - (scrollable as i64);
    let target: i64 = (offset as i64) + (delta as i64);
    if lowest > 0 {
        offset
    } else if target < lowest {
        lowest as i32
    } else if target > 0 {
        0
    } else {
        target as i32
    }
}

/// Computes the offset that lies `percent` hundredths along `range`.
fn offset_for_percent(range: u32, percent: i64) -> (r: i32)
    requires
        range <= i32::MAX,
    ensures
        r == offset_at_percent(range as int, percent as int),
        r <= 0,
{
    if percent <= 0 {
        0
    } else {
        assert(range * percent <= 0x7fff_ffff * 0x7fff_ffff_ffff_ffff) by (nonlinear_arith)
            requires
                0 <= range <= 0x7fff_ffff,
                0 < percent <= 0x7fff_ffff_ffff_ffff,
        ;
        let along: u128 = ((range as u128) * (percent as u128)) / 100;
        if along > range as u128 {
            -(range as i32)
        } else {
            -(along as i32)
        }
    }
}

/// Computes how far along `range` the offset lies, in hundredths.
fn percent_of_offset(offset: i32, range: u32) -> (r: u64)
    requires
        offset <= 0,
    ensures
        r == percent_scrolled(offset as int, range as int),
{
    if range == 0 {
        0
    } else {
        let distance: u64 = (-(offset as i64)) as u64;
        (distance * 100) / (range as u64)
    }
}

/// Computes the offset that brings a cursor at `position` back between
/// `near` and `far`.
fn follow_axis(offset: i32, position: i32, near: i32, far: i32) -> (r: i32)
    requires
        offset <= 0,
    ensures
        r == followed(offset as int, position as int, near as int, far as int),
        r <= 0,
{
    if position < near {
        let target: i64 = (offset as i64) + ((near as i64) - (position as i64));
        if target > 0 {
            0
        } else {
            target as i32
        }
    } else if position > far {
        let target: i64 = (offset as i64) + ((far as i64) - (position as i64));
        if target < i32::MIN as i64 {
            i32::MIN
        } else {
            target as i32
        }
    } else {
        offset
    }
}

/// The part of the view that shows the text.
pub struct TextArea {
    frame: Frame,
    margins: Margins,
    content_size: (usize, usize),
    content_font_size: (u32, u32),
    scroll_offset: (i32, i32),
    cursor_update: bool,
    blink_start: u128,
}

impl View for TextArea {
    type V = ScrollState;

    closed spec fn view(&self) -> ScrollState {
        ScrollState {
            frame: self.frame,
            margins: self.margins,
            rows: self.content_size.0 as int,
            columns: self.content_size.1 as int,
            cell_width: self.content_font_size.0 as int,
            cell_height: self.content_font_size.1 as int,
            offset_x: self.scroll_offset.0 as int,
            offset_y: self.scroll_offset.1 as int,
            cursor_update: self.cursor_update,
            blink_start: self.blink_start as int,
        }
    }
}

impl TextArea {
    /// Well-formedness of the text area: that of its state.
    pub open spec fn wf(&self) -> bool {
        self@.wf()
    }

    /// A text area with the rule `layout` and the usual margins that has
    /// not been laid out yet: no content, no cell size, not scrolled,
    /// nothing to follow.
    pub fn new(layout: Layout) -> (r: Self)
        ensures
            r.wf(),
            r@ == ScrollState::initial(layout, standard_margins()),
    {
        TextArea::with_margins(layout, Margins::standard())
    }

    /// A text area with the rule `layout` and the margins `margins` that
    /// has not been laid out yet.
    pub fn with_margins(layout: Layout, margins: Margins) -> (r: Self)
        requires
            margins.wf(),
        ensures
            r.wf(),
            r@ == ScrollState::initial(layout, margins),
    {
        TextArea {
            frame: Frame::new(layout),
            margins,
            content_size: (0, 0),
            content_font_size: (0, 0),
            scroll_offset: (0, 0),
            cursor_update: false,
            blink_start: 0,
        }
    }

    /// The viewport.
    pub fn area(&self) -> (r: Area)
        ensures
            r == self@.area(),
    {
        self.frame.area
    }

    /// The margins.
    pub fn margins(&self) -> (r: Margins)
        ensures
            r == self@.margins,
    {
        self.margins
    }

    /// The rectangle the whole content fills.
    pub fn get_content_area(&self) -> (r: Area)
        requires
            self.wf(),
        ensures
            r.wf(),
            r == self@.content_area(),
    {
        let (l, c) = self.content_size;
        let (w, h) = self.content_font_size;
        let (x_scroll, y_scroll) = self.scroll_offset;
        let x = position((self.frame.area.x as i64) + (x_scroll as i64));
        let y = position(
            (self.frame.area.y as i64) + (y_scroll as i64) + (self.margins.top as i64),
        );
        Area { x, y, w: extent_of_cells(w, c), h: extent_of_cells(h, l) }
    }

    /// The scroll offset in pixels, zero or negative on both axes.
    pub fn get_scroll_offset(&self) -> (r: (i32, i32))
        requires
            self.wf(),
        ensures
            r.0 == self@.offset_x,
            r.1 == self@.offset_y,
            r.0 <= 0,
            r.1 <= 0,
    {
        self.scroll_offset
    }

    /// The width and the height over which the content can be scrolled.
    pub fn get_scrollable_area(&self) -> (r: (u32, u32))
        requires
            self.wf(),
        ensures
            r.0 == self@.scrollable_width(),
            r.1 == self@.scrollable_height(),
            1 <= r.0 <= i32::MAX,
            1 <= r.1 <= i32::MAX,
    {
        let (w1, h1) = self.get_content_area().size();
        let (w2, h2) = self.frame.area.size();
        assert(spec_percent_of(w2 as int, self.margins.right_percent as int) <= w2
            - w2 / 100) by (nonlinear_arith)
            requires
                0 <= w2,
                0 <= self.margins.right_percent < 100,
        ;
        assert(spec_percent_of(h2 as int, self.margins.bottom_percent as int) <= h2
            - h2 / 100) by (nonlinear_arith)
            requires
                0 <= h2,
                0 <= self.margins.bottom_percent < 100,
        ;
        (
            w1 + percent_length(w2, self.margins.right_percent),
            h1 + self.margins.top + percent_length(h2, self.margins.bottom_percent),
        )
    }

    /// How far the content is scrolled on each axis, in hundredths of how
    /// far it can be.
    pub fn get_scroll_percent(&self) -> (r: (u64, u64))
        requires
            self.wf(),
        ensures
            r.0 == percent_scrolled(self@.offset_x, self@.range_x()),
            r.1 == percent_scrolled(self@.offset_y, self@.range_y()),
    {
        let (w1, h1) = self.get_scrollable_area();
        let (w2, h2) = self.frame.area.size();
        let (x, y) = self.scroll_offset;
        (percent_of_offset(x, range_of(w2, w1)), percent_of_offset(y, range_of(h2, h1)))
    }

    /// Scrolls vertically to `y` hundredths of how far the content can be
    /// scrolled.
    pub fn set_y_scroll_percent(&mut self, y: i64)
        requires
            old(self).wf(),
        ensures
            final(self).wf(),
            final(self)@ == old(self)@.at_percent_y(y as int),
    {
        let (_, h1) = self.get_scrollable_area();
        let (_, h2) = self.frame.area.size();
        self.scroll_offset.1 = offset_for_percent(range_of(h2, h1), y);
    }

    /// Scrolls horizontally to `x` hundredths of how far the content can
    /// be scrolled.
    pub fn set_x_scroll_percent(&mut self, x: i64)
        requires
            old(self).wf(),
        ensures
            final(self).wf(),
            final(self)@ == old(self)@.at_percent_x(x as int),
    {
        let (w1, _) = self.get_scrollable_area();
        let (w2, _) = self.frame.area.size();
        self.scroll_offset.0 = offset_for_percent(range_of(w2, w1), x);
    }

    /// The share of the scrollable extent that the viewport shows on each
    /// axis, in hundredths. From a hundred on, all of the content is in
    /// view.
    pub fn get_shown_percent(&self) -> (r: (u64, u64))
        requires
            self.wf(),
        ensures
            r.0 == percent_shown(self@.area().w as int, self@.scrollable_width()),
            r.1 == percent_shown(self@.area().h as int, self@.scrollable_height()),
    {
        let (w, h) = self.get_scrollable_area();
        let (w1, h1) = self.frame.area.size();
        (((w1 as u64) * 100) / (w as u64), ((h1 as u64) * 100) / (h as u64))
    }

    /// Scrolls horizontally by `x` pixels, as far as the content goes.
    pub fn scroll_x(&mut self, x: i32)
        requires
            old(self).wf(),
        ensures
            final(self).wf(),
            final(self)@ == old(self)@.scrolled_x(x as int),
    {
        let (w, _) = self.get_scrollable_area();
        self.scroll_offset.0 = scroll_axis(self.scroll_offset.0, x, self.frame.area.w, w);
    }

    /// Scrolls vertically by `y` pixels, as far as the content goes.
    pub fn scroll_y(&mut self, y: i32)
        requires
            old(self).wf(),
        ensures
            final(self).wf(),
            final(self)@ == old(self)@.scrolled_y(y as int),
    {
        let (_, h) = self.get_scrollable_area();
        self.scroll_offset.1 = scroll_axis(self.scroll_offset.1, y, self.frame.area.h, h);
    }

    /// The rectangle in which the cursor is left alone.
    pub fn cursor_bounds(&self) -> (r: Area)
        requires
            self.wf(),
        ensures
            r.wf(),
            r == self@.comfort(),
    {
        let rec = self.frame.area;
        let new_w = percent_length(rec.w, 80);
        let new_h = percent_length(rec.h, 60);
        let new_x = position((rec.x as i64) + (percent_length(rec.w, 10) as i64));
        let new_y = position((rec.y as i64) + (percent_length(rec.h, 20) as i64));
        Area { x: new_x, y: new_y, w: extent(new_w as u64), h: extent(new_h as u64) }
    }

    /// Where the cursor `cursor`, a line and a column, lies in the window.
    pub fn cursor_position(&self, cursor: (usize, usize)) -> (r: (i32, i32))
        requires
            self.wf(),
        ensures
            r.0 == self@.cursor_position(cursor.0 as int, cursor.1 as int).0,
            r.1 == self@.cursor_position(cursor.0 as int, cursor.1 as int).1,
    {
        let (l, c) = cursor;
        let (w, h) = self.content_font_size;
        let draw_area = self.get_content_area();
        (draw_area.x + (offset_of_cell(w, c) as i32), draw_area.y + (offset_of_cell(h, l) as i32))
    }

    /// Scrolls just far enough to bring the cursor `cursor` back into the
    /// comfort rectangle, on each axis by itself.
    pub fn cursor_scroll(&mut self, cursor: (usize, usize))
        requires
            old(self).wf(),
        ensures
            final(self).wf(),
            final(self)@ == old(self)@.following(cursor.0 as int, cursor.1 as int),
    {
        let bounds = self.cursor_bounds();
        let (x, y) = self.cursor_position(cursor);
        let (x_scroll, y_scroll) = self.scroll_offset;
        self.scroll_offset = (
            follow_axis(x_scroll, x, bounds.x, bounds.x + (bounds.w as i32)),
            follow_axis(y_scroll, y, bounds.y, bounds.y + (bounds.h as i32)),
        );
    }

    /// Notes that the cursor has moved; the next refresh follows it.
    pub fn send_cursor_update(&mut self)
        requires
            old(self).wf(),
        ensures
            final(self).wf(),
            final(self)@ == (ScrollState { cursor_update: true, ..old(self)@ }),
    {
        self.cursor_update = true;
    }

    /// Follows the cursor `cursor` and starts the caret's blinking anew at
    /// the time `now`, in milliseconds.
    pub fn on_cursor_update(&mut self, cursor: (usize, usize), now: u128)
        requires
            old(self).wf(),
        ensures
            final(self).wf(),
            final(self)@ == old(self)@.cursor_updated(cursor.0 as int, cursor.1 as int, now as int),
    {
        self.blink_start = now;
        self.cursor_scroll(cursor);
        self.cursor_update = false;
    }

    /// Takes the size of the content, in lines and columns, and of one
    /// cell, in pixels, and takes note of the cursor `cursor` if it has
    /// moved since the last refresh. `now` is the time in milliseconds.
    pub fn refresh(
        &mut self,
        content_size: (usize, usize),
        cursor: (usize, usize),
        content_font_size: (u32, u32),
        now: u128,
    )
        requires
            old(self).wf(),
        ensures
            final(self).wf(),
            final(self)@ == old(self)@.refreshed(
                content_size.0 as int,
                content_size.1 as int,
                content_font_size.0 as int,
                content_font_size.1 as int,
                cursor.0 as int,
                cursor.1 as int,
                now as int,
            ),
    {
        self.content_font_size = content_font_size;
        self.content_size = content_size;
        if self.cursor_update {
            self.on_cursor_update(cursor, now);
        }
    }

    /// The line and the column that the point `(x, y)` of the window falls
    /// on, or nothing where the point lies outside the viewport or the
    /// cells have no size yet.
    pub fn index_of_position(&self, x: i32, y: i32) -> (r: Option<(usize, usize)>)
        requires
            self.wf(),
        ensures
            match self@.index_of(x as int, y as int) {
                Some(at) => r == Some((at.0 as usize, at.1 as usize)) && at.0 <= usize::MAX && at.1
                    <= usize::MAX,
                None => r is None,
            },
    {
        let (w, h) = self.content_font_size;
        let inside = self.frame.area.contains_point(position(x as i64), position(y as i64));
        if inside && w > 0 && h > 0 {
            let area = self.get_content_area();
            let l = index_of_cell((y as i64) - (area.y as i64), h);
            let c = index_of_cell((x as i64) - (area.x as i64), w);
            Some((l, c))
        } else {
            None
        }
    }

    /// What to draw of the caret at the time `now`, in milliseconds, for
    /// the cursor `cursor`: its rectangle, or nothing while the caret is in
    /// the dark half of its blinking.
    pub fn draw_cursor(&self, cursor: (usize, usize), now: u128) -> (r: Option<Area>)
        requires
            self.wf(),
        ensures
            r == self@.caret_at(cursor.0 as int, cursor.1 as int, now as int),
    {
        let elapsed: u128 = if now < self.blink_start {
            0
        } else {
            now - self.blink_start
        };
        if is_second_half(elapsed, BLINK_MILLIS) {
            return None;
        }
        let (x, y) = self.cursor_position(cursor);
        let (w, h) = self.content_font_size;
        let w = w / 4;
        Some(Area::new(position((x as i64) - ((w / 2) as i64)), y, w, h))
    }

    /// Moves the viewport to `pos`.
    pub fn set_position(&mut self, pos: (i32, i32))
        requires
            old(self).wf(),
        ensures
            final(self).wf(),
            final(self)@ == (ScrollState {
                frame: Frame {
                    area: Area::clamped(
                        pos.0 as int,
                        pos.1 as int,
                        old(self)@.area().w as int,
                        old(self)@.area().h as int,
                    ),
                    layout: old(self)@.frame.layout,
                },
                ..old(self)@
            }),
    {
        self.frame.set_position(pos);
    }

    /// Gives the viewport the size `size`.
    pub fn set_size(&mut self, size: (u32, u32))
        requires
            old(self).wf(),
        ensures
            final(self).wf(),
            final(self)@ == (ScrollState {
                frame: Frame {
                    area: Area::clamped(
                        old(self)@.area().x as int,
                        old(self)@.area().y as int,
                        size.0 as int,
                        size.1 as int,
                    ),
                    layout: old(self)@.frame.layout,
                },
                ..old(self)@
            }),
    {
        self.frame.set_size(size);
    }

    /// Lays the viewport out in a container of the size `container_size`
    /// at `container_position`. The offset stays as it is.
    pub fn on_resize(&mut self, container_size: (u32, u32), container_position: (i32, i32))
        requires
            old(self).wf(),
        ensures
            final(self).wf(),
            final(self)@ == (ScrollState {
                frame: old(self)@.frame.placed(container_size, container_position),
                ..old(self)@
            }),
    {
        self.frame.on_resize(container_size, container_position);
    }
}

} // verus!
