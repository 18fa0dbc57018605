//! Scroll bars: where the thumb lies in its track, and what a click or a
//! drag on the track asks for.

use crate::vue::area::{clamp_position, extent, position, Area, MAX_EXTENT};
use crate::vue::layout::{Frame, Layout};
use vstd::prelude::*;

verus! {

/// What the thumb loses of its length where it is drawn, so that it does
/// not touch the ends of the track.
pub const THUMB_INSET: u32 = 10;

/// The length of the thumb in a track of the length `track` that shows
/// `shown` hundredths of the content: that share of the track, rounded
/// down, and at most the whole track.
pub open spec fn thumb_length(track: int, shown: int) -> int {
    if (track * shown) / 100 > track {
        track
    } else {
        (track * shown) / 100
    }
}

/// How far the thumb's start lies from the track's start when the content
/// is scrolled by `scroll` hundredths: that share of what the track has
/// over the thumb, rounded down.
pub open spec fn thumb_travel(track: int, length: int, scroll: int) -> int {
    ((track - length) * scroll) / 100
}

/// `v` brought between `low` and `high`.
pub open spec fn clamp_between(v: int, low: int, high: int) -> int {
    if v < low {
        low
    } else if v > high {
        high
    } else {
        v
    }
}

/// `distance` in hundredths of `free`, rounded towards zero; zero where
/// `free` is nothing.
pub open spec fn track_percent(distance: int, free: int) -> int {
    if free <= 0 {
        0
    } else if distance >= 0 {
        (distance * 100) / free
    } else {
        -((-distance * 100) / free)
    }
}

/// `v` less `inset`, and not less than nothing.
pub open spec fn inset_by(v: int, inset: int) -> int {
    if v < inset {
        0
    } else {
        v - inset
    }
}

/// What a scroll bar is at one moment: its track, its direction, and the
/// two numbers it shows, both in hundredths: how far the content is
/// scrolled, and how much of it is in view.
pub struct BarState {
    pub frame: Frame,
    pub vertical: bool,
    pub scroll_percent: int,
    pub shown_percent: int,
}

impl BarState {
    /// The track is a rectangle in range, and neither number is negative.
    pub open spec fn wf(self) -> bool {
        &&& self.frame.wf()
        &&& 0 <= self.scroll_percent <= u64::MAX
        &&& 0 <= self.shown_percent <= u64::MAX
    }

    /// The state of a bar with the rule `layout` that has not been laid
    /// out yet and shows nothing.
    pub open spec fn initial(layout: Layout, vertical: bool) -> BarState {
        BarState {
            frame: Frame { area: Area { x: 0, y: 0, w: 1, h: 1 }, layout },
            vertical,
            scroll_percent: 0,
            shown_percent: 0,
        }
    }

    /// The track.
    pub open spec fn area(self) -> Area {
        self.frame.area
    }

    /// The rectangle of the thumb: as wide as the track across it, and
    /// along it as long and as far from the start as the two numbers say.
    pub open spec fn bar_area(self) -> Area {
        let area = self.area();
        if self.vertical {
            let length = thumb_length(area.h as int, self.shown_percent);
            Area::clamped(
                area.x as int,
                area.y + thumb_travel(area.h as int, length, self.scroll_percent),
                area.w as int,
                length,
            )
        } else {
            let length = thumb_length(area.w as int, self.shown_percent);
            Area::clamped(
                area.x + thumb_travel(area.w as int, length, self.scroll_percent),
                area.y as int,
                length,
                area.h as int,
            )
        }
    }

    /// Where the thumb starts when its middle is put on `(x, y)` as far as
    /// the track lets it go.
    pub open spec fn centered_on(self, x: int, y: int) -> (int, int) {
        let area = self.area();
        let bar = self.bar_area();
        (
            clamp_between(x - bar.w / 2, area.x as int, area.x + area.w - bar.w),
            clamp_between(y - bar.h / 2, area.y as int, area.y + area.h - bar.h),
        )
    }

    /// What a click at `(x, y)` asks for: nothing outside the track and
    /// nothing on the thumb; on the rest of the track, to scroll to where
    /// the thumb would start if its middle went to the click, in
    /// hundredths of what the track has over the thumb. The start is taken
    /// as a position in the window.
    pub open spec fn clicked(self, x: int, y: int) -> Option<int> {
        let area = self.area();
        let bar = self.bar_area();
        if !area.contains(x, y) || bar.contains(x, y) {
            None
        } else if self.vertical {
            Some(track_percent(self.centered_on(x, y).1, area.h - bar.h))
        } else {
            Some(track_percent(self.centered_on(x, y).0, area.w - bar.w))
        }
    }

    /// What a drag asks for that began at `origin` and has just moved by
    /// `(xrel, yrel)`: nothing if it began outside the track; else to
    /// scroll to where the thumb starts after its middle moved by as much,
    /// in hundredths of what the track has over the thumb, counted from
    /// the track's start.
    pub open spec fn held(self, origin: (int, int), xrel: int, yrel: int) -> Option<int> {
        let area = self.area();
        let bar = self.bar_area();
        if !area.contains(origin.0, origin.1) {
            None
        } else {
            let middle = bar.middle();
            let start = self.centered_on(middle.0 + xrel, middle.1 + yrel);
            if self.vertical {
                Some(track_percent(start.1 - area.y, area.h - bar.h))
            } else {
                Some(track_percent(start.0 - area.x, area.w - bar.w))
            }
        }
    }

    /// The rectangle that is filled for the thumb: half as wide as the
    /// thumb across the track, shorter by the inset along it, and in the
    /// thumb's middle.
    pub open spec fn drawn(self) -> Area {
        let bar = self.bar_area();
        let middle = bar.middle();
        if self.vertical {
            Area::clamped(
                bar.x as int,
                bar.y as int,
                (bar.w / 2) as int,
                inset_by(bar.h as int, THUMB_INSET as int),
            )
                .moved_onto(middle.0, middle.1)
        } else {
            Area::clamped(
                bar.x as int,
                bar.y as int,
                inset_by(bar.w as int, THUMB_INSET as int),
                (bar.h / 2) as int,
            )
                .moved_onto(middle.0, middle.1)
        }
    }

    /// The same bar showing other numbers.
    pub open spec fn showing(self, scroll_percent: int, shown_percent: int) -> BarState {
        BarState { scroll_percent, shown_percent, ..self }
    }

    /// What is drawn of the bar: its thumb while less than all of the
    /// content is in view, else nothing.
    pub open spec fn visible(self) -> Option<Area> {
        if self.shown_percent < 100 {
            Some(self.drawn())
        } else {
            None
        }
    }
}

/// The thumb is never longer than its track, and with all of the content
/// in view it fills the track.
pub proof fn lemma_thumb_fits_track(s: BarState)
    requires
        s.wf(),
    ensures
        s.bar_area().wf(),
        s.bar_area().w <= s.area().w,
        s.bar_area().h <= s.area().h,
        s.vertical ==> s.bar_area().w == s.area().w && s.bar_area().x == s.area().x,
        !s.vertical ==> s.bar_area().h == s.area().h && s.bar_area().y == s.area().y,
        s.shown_percent >= 100 ==> s.bar_area() == s.area(),
{
    let area = s.area();
    let track: int = if s.vertical {
        area.h as int
    } else {
        area.w as int
    };
    assert((track * s.shown_percent) / 100 >= 0) by (nonlinear_arith)
        requires
            track >= 0,
            s.shown_percent >= 0,
    ;
    if s.shown_percent >= 100 {
        assert((track * s.shown_percent) / 100 >= track) by (nonlinear_arith)
            requires
                track >= 0,
                s.shown_percent >= 100,
        ;
        assert(thumb_length(track, s.shown_percent) == track);
        assert(thumb_travel(track, track, s.scroll_percent) == 0) by (nonlinear_arith);
    }
}

/// A click or a drag asks for a position between the start and the end of
/// the track's free part when the track starts at the window's origin:
/// between zero and a hundred hundredths.
pub proof fn lemma_held_percent_in_range(s: BarState, origin: (int, int), xrel: int, yrel: int)
    requires
        s.wf(),
    ensures
        s.held(origin, xrel, yrel) matches Some(p) ==> 0 <= p <= 100,
{
    lemma_thumb_fits_track(s);
    let area = s.area();
    let bar = s.bar_area();
    let middle = bar.middle();
    let start = s.centered_on(middle.0 + xrel, middle.1 + yrel);
    if s.vertical {
        let free = area.h - bar.h;
        let d = start.1 - area.y;
        if free > 0 {
            assert(0 <= (d * 100) / free <= 100) by (nonlinear_arith)
                requires
                    0 <= d <= free,
                    free > 0,
            ;
        }
    } else {
        let free = area.w - bar.w;
        let d = start.0 - area.x;
        if free > 0 {
            assert(0 <= (d * 100) / free <= 100) by (nonlinear_arith)
                requires
                    0 <= d <= free,
                    free > 0,
            ;
        }
    }
}

/// Computes the length of the thumb.
fn length_of_thumb(track: u32, shown: u64) -> (r: u32)
    requires
        track <= MAX_EXTENT,
    ensures
        r == thumb_length(track as int, shown as int),
        r <= track,
{
    assert(track * shown <= 0x3fff_ffff * 0xffff_ffff_ffff_ffff) by (nonlinear_arith)
        requires
            0 <= track <= 0x3fff_ffff,
            0 <= shown <= 0xffff_ffff_ffff_ffff,
    ;
    let share: u128 = ((track as u128) * (shown as u128)) / 100;
    if share > track as u128 {
        track
    } else {
        share as u32
    }
}

/// Computes where the thumb starts: `start` and the thumb's travel,
/// brought into the range of positions.
fn start_of_thumb(start: i32, track: u32, length: u32, scroll: u64) -> (r: i32)
    requires
        length <= track <= MAX_EXTENT,
        clamp_position(start as int) == start,
    ensures
        r == clamp_position(start + thumb_travel(track as int, length as int, scroll as int)),
{
    let free: u32 = track - length;
    assert(free * scroll <= 0x3fff_ffff * 0xffff_ffff_ffff_ffff) by (nonlinear_arith)
        requires
            0 <= free <= 0x3fff_ffff,
            0 <= scroll <= 0xffff_ffff_ffff_ffff,
    ;
    let travel: u128 = ((free as u128) * (scroll as u128)) / 100;
    if travel > 0xffff_ffff {
        MAX_EXTENT as i32
    } else {
        position((start as i64) + (travel as i64))
    }
}

/// Computes where a thumb of the length `length` starts when its middle
/// is put on `target`, in a track of the length `track` from `start`.
fn start_centered_on(target: i64, length: u32, start: i32, track: u32) -> (r: i32)
    requires
        1 <= length <= track <= MAX_EXTENT,
        clamp_position(start as int) == start,
        -0x2_0000_0000 <= target <= 0x2_0000_0000,
    ensures
        r == clamp_between(target - length / 2, start as int, start + track - length),
{
    let wanted: i64 = target - ((length / 2) as i64);
    let low: i64 = start as i64;
    let high: i64 = (start as i64) + (track as i64) - (length as i64);
    if wanted < low {
        start
    } else if wanted > high {
        high as i32
    } else {
        wanted as i32
    }
}

/// Computes `distance` in hundredths of `free`.
fn percent_of_track(distance: i64, free: u32) -> (r: i64)
    requires
        -0x1_0000_0000 <= distance <= 0x1_0000_0000,
    ensures
        r == track_percent(distance as int, free as int),
{
    if free == 0 {
        0
    } else if distance >= 0 {
        (distance * 100) / (free as i64)
    } else {
        -(((-distance) * 100) / (free as i64))
    }
}

/// A scroll bar.
pub struct ScrollBar {
    frame: Frame,
    vertical: bool,
    scroll_percent: u64,
    shown_percent: u64,
}

impl View for ScrollBar {
    type V = BarState;

    closed spec fn view(&self) -> BarState {
        BarState {
            frame: self.frame,
            vertical: self.vertical,
            scroll_percent: self.scroll_percent as int,
            shown_percent: self.shown_percent as int,
        }
    }
}

impl ScrollBar {
    /// Well-formedness of the bar: that of its state.
    pub open spec fn wf(&self) -> bool {
        self@.wf()
    }

    /// A bar with the rule `layout` that has not been laid out yet and
    /// shows nothing: vertical if `vertical` says so, else horizontal.
    pub fn new(layout: Layout, vertical: bool) -> (r: Self)
        ensures
            r.wf(),
            r@ == BarState::initial(layout, vertical),
    {
        ScrollBar { frame: Frame::new(layout), vertical, scroll_percent: 0, shown_percent: 0 }
    }

    /// The track.
    pub fn area(&self) -> (r: Area)
        ensures
            r == self@.area(),
    {
        self.frame.area
    }

    /// The rectangle of the thumb.
    pub fn get_bar_area(&self) -> (r: Area)
        requires
            self.wf(),
        ensures
            r.wf(),
            r == self@.bar_area(),
            r.w <= self@.area().w,
            r.h <= self@.area().h,
    {
        let area = self.frame.area;
        if self.vertical {
            let h = length_of_thumb(area.h, self.shown_percent);
            let y = start_of_thumb(area.y, area.h, h, self.scroll_percent);
            Area { x: area.x, y, w: area.w, h: extent(h as u64) }
        } else {
            let w = length_of_thumb(area.w, self.shown_percent);
            let x = start_of_thumb(area.x, area.w, w, self.scroll_percent);
            Area { x, y: area.y, w: extent(w as u64), h: area.h }
        }
    }

    /// The rectangle that is filled for the thumb.
    pub fn draw(&self) -> (r: Area)
        requires
            self.wf(),
        ensures
            r.wf(),
            r == self@.drawn(),
    {
        let bar_area = self.get_bar_area();
        let rect = if self.vertical {
            bar_area.resized(
                bar_area.w / 2,
                if bar_area.h < THUMB_INSET {
                    0
                } else {
                    bar_area.h - THUMB_INSET
                },
            )
        } else {
            bar_area.resized(
                if bar_area.w < THUMB_INSET {
                    0
                } else {
                    bar_area.w - THUMB_INSET
                },
                bar_area.h / 2,
            )
        };
        rect.centered_on(bar_area.center())
    }

    /// Takes the two numbers to show, both in hundredths, and tells what
    /// to draw: the thumb while less than all of the content is in view,
    /// else nothing.
    pub fn refresh(&mut self, scroll_percent: u64, shown_percent: u64) -> (r: Option<Area>)
        requires
            old(self).wf(),
        ensures
            final(self).wf(),
            final(self)@ == old(self)@.showing(scroll_percent as int, shown_percent as int),
            r == final(self)@.visible(),
            r is Some <==> shown_percent < 100,
    {
        self.scroll_percent = scroll_percent;
        self.shown_percent = shown_percent;
        if shown_percent < 100 {
            Some(self.draw())
        } else {
            None
        }
    }

    /// What a click at `(x, y)` asks for: a position to scroll to, in
    /// hundredths, or nothing where the click misses the track or hits the
    /// thumb.
    pub fn click_scroll(&self, x: i32, y: i32) -> (r: Option<i64>)
        requires
            self.wf(),
        ensures
            match self@.clicked(x as int, y as int) {
                Some(p) => r == Some(p as i64) && i64::MIN <= p <= i64::MAX,
                None => r is None,
            },
    {
        let bar_area = self.get_bar_area();
        if !self.frame.area.contains_point(x, y) || bar_area.contains_point(x, y) {
            None
        } else {
            let (bar_w, bar_h) = bar_area.size();
            let (area_w, area_h) = self.frame.area.size();
            let (bar_x, bar_y) = self.bar_centered_on(x, y);
            if self.vertical {
                Some(percent_of_track(bar_y as i64, area_h - bar_h))
            } else {
                Some(percent_of_track(bar_x as i64, area_w - bar_w))
            }
        }
    }

    /// Where the thumb starts when its middle is put on `(x, y)` as far as
    /// the track lets it go.
    pub fn bar_centered_on(&self, x: i32, y: i32) -> (r: (i32, i32))
        requires
            self.wf(),
        ensures
            r.0 == self@.centered_on(x as int, y as int).0,
            r.1 == self@.centered_on(x as int, y as int).1,
    {
        let bar_area = self.get_bar_area();
        let area = self.frame.area;
        (
            start_centered_on(x as i64, bar_area.w, area.x, area.w),
            start_centered_on(y as i64, bar_area.h, area.y, area.h),
        )
    }

    /// What a drag asks for that began at `origin`, has reached `(x, y)`
    /// and has just moved by `(xrel, yrel)`: a position to scroll to, in
    /// hundredths, or nothing where the drag began outside the track. The
    /// thumb keeps the place under the pointer that it had before the
    /// move, so only the move counts, not where the pointer is.
    pub fn hold_scroll(&self, origin: (i32, i32), x: i32, y: i32, xrel: i32, yrel: i32) -> (r:
        Option<i64>)
        requires
            self.wf(),
        ensures
            match self@.held((origin.0 as int, origin.1 as int), xrel as int, yrel as int) {
                Some(p) => r == Some(p as i64) && 0 <= p <= 100,
                None => r is None,
            },
    {
        let bar_area = self.get_bar_area();
        let area = self.frame.area;
        if !area.contains_point(origin.0, origin.1) {
            None
        } else {
            proof {
                lemma_held_percent_in_range(
                    self@,
                    (origin.0 as int, origin.1 as int),
                    xrel as int,
                    yrel as int,
                );
            }
            let center = bar_area.center();
            if self.vertical {
                let bar_y = start_centered_on(
                    (center.1 as i64) + (yrel as i64),
                    bar_area.h,
                    area.y,
                    area.h,
                );
                Some(percent_of_track((bar_y as i64) - (area.y as i64), area.h - bar_area.h))
            } else {
                let bar_x = start_centered_on(
                    (center.0 as i64) + (xrel as i64),
                    bar_area.w,
                    area.x,
                    area.w,
                );
                Some(percent_of_track((bar_x as i64) - (area.x as i64), area.w - bar_area.w))
            }
        }
    }

    /// Moves the track to `pos`.
    pub fn set_position(&mut self, pos: (i32, i32))
        requires
            old(self).wf(),
        ensures
            final(self).wf(),
            final(self)@ == (BarState {
                frame: Frame {
                    area: Area::clamped(
                        pos.0 as int,
                        pos.1 as int,
                        old(self)@.area().w as int,
                        old(self)@.area().h as int,
                    ),
                    layout: old(self)@.frame.layout,
                },
                ..old(self)@
            }),
    {
        self.frame.set_position(pos);
    }

    /// Gives the track the size `size`.
    pub fn set_size(&mut self, size: (u32, u32))
        requires
            old(self).wf(),
        ensures
            final(self).wf(),
            final(self)@ == (BarState {
                frame: Frame {
                    area: Area::clamped(
                        old(self)@.area().x as int,
                        old(self)@.area().y as int,
                        size.0 as int,
                        size.1 as int,
                    ),
                    layout: old(self)@.frame.layout,
                },
                ..old(self)@
            }),
    {
        self.frame.set_size(size);
    }

    /// Lays the track out in a container of the size `container_size` at
    /// `container_position`.
    pub fn on_resize(&mut self, container_size: (u32, u32), container_position: (i32, i32))
        requires
            old(self).wf(),
        ensures
            final(self).wf(),
            final(self)@ == (BarState {
                frame: old(self)@.frame.placed(container_size, container_position),
                ..old(self)@
            }),
    {
        self.frame.on_resize(container_size, container_position);
    }
}

} // verus!
