use text_editor::vue::area::Area;
use text_editor::vue::info_bar::InfoBar;
use text_editor::vue::layout::{Layout, Length, Place};
use text_editor::vue::line_numbers::LineNumbers;
use text_editor::vue::text_area::Margins;
use text_editor::vue::text_area_container::TextAreaContainer;
use text_editor::vue::Vue;

fn container_layout() -> Layout {
    Layout {
        width: Length::ContainerLess(0),
        height: Length::ContainerLess(30),
        x: Place::AfterStart(0),
        y: Place::AfterStart(0),
    }
}

fn container() -> TextAreaContainer {
    let mut c = TextAreaContainer::new(container_layout());
    c.on_resize((800, 600), (0, 0));
    c.refresh((100, 200), (0, 0), (10, 20), 0);
    c
}

#[test]
fn a_new_container_has_not_been_laid_out() {
    let c = TextAreaContainer::new(container_layout());
    assert_eq!(c.area(), Area { x: 0, y: 0, w: 1, h: 1 });
    assert_eq!(c.text_area().area(), Area { x: 0, y: 0, w: 1, h: 1 });
    assert_eq!(c.vertical_scroll_bar().area(), Area { x: 0, y: 0, w: 1, h: 1 });
}

#[test]
fn the_container_lays_out_its_parts() {
    let c = container();
    assert_eq!(c.area(), Area { x: 0, y: 0, w: 800, h: 570 });
    assert_eq!(c.text_area().area(), Area { x: 40, y: 0, w: 760, h: 540 });
    assert_eq!(c.line_numbers().area(), Area { x: 0, y: 0, w: 40, h: 570 });
    assert_eq!(c.vertical_scroll_bar().area(), Area { x: 780, y: 0, w: 20, h: 560 });
    assert_eq!(c.horizontal_scroll_bar().area(), Area { x: 0, y: 550, w: 780, h: 20 });
}

#[test]
fn a_container_too_small_for_its_parts_gives_them_one_pixel() {
    let mut c = TextAreaContainer::new(container_layout());
    c.on_resize((10, 35), (0, 0));
    assert_eq!(c.area(), Area { x: 0, y: 0, w: 10, h: 5 });
    assert_eq!(c.text_area().area(), Area { x: 40, y: 0, w: 1, h: 1 });
    assert_eq!(c.line_numbers().area(), Area { x: 0, y: 0, w: 40, h: 5 });
    assert_eq!(c.vertical_scroll_bar().area(), Area { x: -10, y: 0, w: 20, h: 1 });
    assert_eq!(c.horizontal_scroll_bar().area(), Area { x: 0, y: -15, w: 1, h: 20 });
}

#[test]
fn refresh_shows_the_scroll_state_in_the_bars() {
    let mut c = container();
    assert_eq!(c.text_area().get_scrollable_area(), (2684, 2442));
    assert_eq!(c.text_area().get_shown_percent(), (28, 22));
    assert_eq!(c.vertical_scroll_bar().get_bar_area(), Area { x: 780, y: 0, w: 20, h: 123 });
    assert_eq!(c.horizontal_scroll_bar().get_bar_area(), Area { x: 0, y: 550, w: 218, h: 20 });
    let drawn = c.refresh((100, 200), (0, 0), (10, 20), 0);
    assert_eq!(
        drawn,
        (Some(Area { x: 785, y: 5, w: 10, h: 113 }), Some(Area { x: 5, y: 555, w: 208, h: 10 }))
    );
}

#[test]
fn refresh_draws_no_bar_for_content_that_fits() {
    let mut c = container();
    assert_eq!(c.refresh((2, 5), (0, 0), (10, 20), 0), (None, None));
    let drawn = c.refresh((100, 5), (0, 0), (10, 20), 0);
    assert!(drawn.0.is_some());
    assert_eq!(drawn.1, None);
}

#[test]
fn the_wheel_scrolls_twenty_pixels_a_step() {
    let mut c = container();
    c.scroll(0, -3);
    assert_eq!(c.text_area().get_scroll_offset(), (0, -60));
    c.scroll(2, 0);
    assert_eq!(c.text_area().get_scroll_offset(), (-40, -60));
    c.scroll(-1, 1);
    assert_eq!(c.text_area().get_scroll_offset(), (-20, -40));
    c.scroll(i32::MIN, i32::MAX);
    assert_eq!(c.text_area().get_scroll_offset(), (0, 0));
    c.scroll(i32::MAX, i32::MIN);
    assert_eq!(c.text_area().get_scroll_offset(), (-1924, -1902));
}

#[test]
fn a_click_on_the_vertical_track_scrolls_vertically() {
    let mut c = container();
    assert!(c.click_scroll_bar(790, 400));
    assert_eq!(c.text_area().get_scroll_offset(), (0, -1464));
}

#[test]
fn a_click_on_the_horizontal_track_scrolls_horizontally() {
    let mut c = container();
    assert!(c.click_scroll_bar(400, 560));
    assert_eq!(c.text_area().get_scroll_offset(), (-981, 0));
}

#[test]
fn a_click_elsewhere_scrolls_nothing() {
    let mut c = container();
    c.scroll(1, -1);
    assert!(!c.click_scroll_bar(400, 300));
    assert!(!c.click_scroll_bar(790, 50));
    assert!(!c.click_scroll_bar(100, 560));
    assert_eq!(c.text_area().get_scroll_offset(), (-20, -20));
}

#[test]
fn a_drag_on_the_vertical_track_scrolls_vertically() {
    let mut c = container();
    assert!(c.hold_scroll_bar((790, 10), 790, 50, 0, 40));
    assert_eq!(c.text_area().get_scroll_offset(), (0, -171));
    assert!(!c.hold_scroll_bar((400, 300), 790, 50, 0, 40));
    assert_eq!(c.text_area().get_scroll_offset(), (0, -171));
}

#[test]
fn the_bars_follow_at_the_next_refresh() {
    let mut c = container();
    c.click_scroll_bar(790, 400);
    assert_eq!(c.vertical_scroll_bar().get_bar_area(), Area { x: 780, y: 0, w: 20, h: 123 });
    c.refresh((100, 200), (0, 0), (10, 20), 0);
    assert_eq!(c.text_area().get_scroll_percent(), (0, 76));
    assert_eq!(c.vertical_scroll_bar().get_bar_area(), Area { x: 780, y: 332, w: 20, h: 123 });
}

#[test]
fn cursor_index_is_looked_up_in_the_text_area() {
    let c = container();
    assert_eq!(c.cursor_index(70, 50), Some((2, 3)));
    assert_eq!(c.cursor_index(10, 50), None);
    assert_eq!(c.cursor_index(70, 545), None);
}

#[test]
fn a_cursor_update_is_followed_at_the_next_refresh() {
    let mut c = container();
    c.refresh((100, 200), (50, 100), (10, 20), 0);
    assert_eq!(c.text_area().get_scroll_offset(), (0, 0));
    c.send_cursor_update();
    c.refresh((100, 200), (50, 100), (10, 20), 0);
    assert_eq!(c.text_area().cursor_bounds(), Area { x: 116, y: 108, w: 608, h: 324 });
    assert_eq!(c.text_area().get_scroll_offset(), (724 - 1040, 432 - 1010));
}

#[test]
fn line_numbers_and_info_bar_are_laid_out_by_their_rules() {
    let mut n = LineNumbers::new(Layout {
        width: Length::Fixed(40),
        height: Length::ContainerLess(0),
        x: Place::AfterStart(0),
        y: Place::AfterStart(0),
    });
    assert_eq!(n.area(), Area { x: 0, y: 0, w: 1, h: 1 });
    n.on_resize((800, 570), (3, 4));
    assert_eq!(n.area(), Area { x: 3, y: 4, w: 40, h: 570 });
    n.set_size((41, 0));
    n.set_position((-1, 2));
    assert_eq!(n.area(), Area { x: -1, y: 2, w: 41, h: 1 });
    let mut i = InfoBar::new(Layout {
        width: Length::ContainerLess(0),
        height: Length::Fixed(30),
        x: Place::Origin,
        y: Place::BeforeExtent(30),
    });
    i.on_resize((800, 600), (5, 5));
    assert_eq!(i.area(), Area { x: 0, y: 570, w: 800, h: 30 });
    i.set_size((10, 10));
    i.set_position((1, 1));
    assert_eq!(i.area(), Area { x: 1, y: 1, w: 10, h: 10 });
}

#[test]
fn a_new_view_is_laid_out_in_the_window() {
    let v = Vue::new((800, 600));
    assert_eq!(v.text_area_container().area(), Area { x: 0, y: 0, w: 800, h: 570 });
    assert_eq!(v.info_bar().area(), Area { x: 0, y: 570, w: 800, h: 30 });
    assert_eq!(v.text_area_container().text_area().area(), Area { x: 40, y: 0, w: 760, h: 540 });
}

#[test]
fn resize_lays_the_view_out_anew() {
    let mut v = Vue::new((800, 600));
    v.resize((400, 300));
    assert_eq!(v.text_area_container().area(), Area { x: 0, y: 0, w: 400, h: 270 });
    assert_eq!(v.info_bar().area(), Area { x: 0, y: 270, w: 400, h: 30 });
    assert_eq!(v.text_area_container().text_area().area(), Area { x: 40, y: 0, w: 360, h: 240 });
    assert_eq!(
        v.text_area_container().vertical_scroll_bar().area(),
        Area { x: 380, y: 0, w: 20, h: 260 }
    );
    assert_eq!(
        v.text_area_container().horizontal_scroll_bar().area(),
        Area { x: 0, y: 250, w: 380, h: 20 }
    );
}

#[test]
fn a_window_lower_than_the_info_bar_still_has_a_view() {
    let v = Vue::new((100, 10));
    assert_eq!(v.text_area_container().area(), Area { x: 0, y: 0, w: 100, h: 1 });
    assert_eq!(v.info_bar().area(), Area { x: 0, y: -20, w: 100, h: 30 });
}

#[test]
fn the_view_passes_events_to_the_text_area() {
    let mut v = Vue::new((800, 600));
    let drawn = v.refresh((100, 200), (0, 0), (10, 20), 0);
    assert_eq!(
        drawn,
        (Some(Area { x: 785, y: 5, w: 10, h: 113 }), Some(Area { x: 5, y: 555, w: 208, h: 10 }))
    );
    assert_eq!(v.cursor_index(70, 50), Some((2, 3)));
    v.scroll_text_area(0, -3);
    assert_eq!(v.text_area_container().text_area().get_scroll_offset(), (0, -60));
    assert_eq!(v.cursor_index(70, 50), Some((5, 3)));
    assert!(v.click_text_area_scroll_bar(790, 400));
    assert_eq!(v.text_area_container().text_area().get_scroll_offset(), (0, -1464));
    assert!(v.hold_text_area_scroll_bar((790, 10), 790, 50, 0, 40));
    assert_eq!(v.text_area_container().text_area().get_scroll_offset(), (0, -171));
    v.send_cursor_update();
    v.refresh((100, 200), (20, 0), (10, 20), 0);
    assert_eq!(v.text_area_container().text_area().get_scroll_offset(), (0, -171));
    v.send_cursor_update();
    v.refresh((100, 200), (0, 0), (10, 20), 0);
    assert_eq!(v.text_area_container().text_area().get_scroll_offset(), (0, 0));
}

#[test]
fn a_line_number_is_centred_on_its_line_and_kept_off_the_right_edge() {
    let mut n = LineNumbers::new(Layout {
        width: Length::Fixed(40),
        height: Length::ContainerLess(0),
        x: Place::AfterStart(0),
        y: Place::AfterStart(0),
    });
    n.on_resize((800, 570), (0, 0));
    assert_eq!(n.draw(0, 0, 10, (8, 16), (10, 20)), Area { x: 23, y: 12, w: 8, h: 16 });
    assert_eq!(n.draw(3, -30, 10, (8, 16), (10, 20)), Area { x: 23, y: 42, w: 8, h: 16 });
    assert_eq!(n.draw(3, -30, 0, (8, 16), (10, 20)), Area { x: 23, y: 32, w: 8, h: 16 });
    assert_eq!(n.draw(9, 0, 10, (16, 16), (20, 20)), Area { x: 16, y: 192, w: 16, h: 16 });
}

#[test]
fn the_label_of_the_info_bar_is_kept_off_the_right_edge() {
    let mut i = InfoBar::new(Layout {
        width: Length::ContainerLess(0),
        height: Length::Fixed(30),
        x: Place::Origin,
        y: Place::BeforeExtent(30),
    });
    i.on_resize((800, 600), (0, 0));
    assert_eq!(i.draw_bar((96, 16), 8), Area { x: 696, y: 577, w: 96, h: 16 });
    assert_eq!(i.draw_bar((0, 0), 0), Area { x: 799, y: 585, w: 1, h: 1 });
}

#[test]
fn the_margins_of_the_text_area_reach_the_vertical_bar() {
    let margins = Margins { top: 25, right_percent: 50, bottom_percent: 0 };
    let mut c = TextAreaContainer::with_margins(container_layout(), margins);
    c.on_resize((800, 600), (0, 0));
    c.refresh((100, 200), (0, 0), (10, 20), 0);
    assert_eq!(c.text_area().margins(), margins);
    assert_eq!(c.vertical_scroll_bar().area(), Area { x: 780, y: 0, w: 20, h: 545 });
    assert_eq!(c.text_area().get_content_area(), Area { x: 40, y: 25, w: 2000, h: 2000 });
    assert_eq!(c.text_area().get_scrollable_area(), (2380, 2025));
    let v = Vue::with_margins((800, 600), margins);
    assert_eq!(v.text_area_container().text_area().margins(), margins);
}
