use text_editor::editor::{command, text_editing, Command, Editor, Event, Key, Modifiers, Reaction};
use text_editor::files::FileContext;
use text_editor::text_zone::TextContent;

const NONE: Modifiers = Modifiers { ctrl: false, alt: false, shift: false };
const CTRL: Modifiers = Modifiers { ctrl: true, alt: false, shift: false };
const ALT: Modifiers = Modifiers { ctrl: false, alt: true, shift: false };
const CTRL_SHIFT: Modifiers = Modifiers { ctrl: true, alt: false, shift: true };

fn buffer(text: &str, cursor: (usize, usize)) -> TextContent {
    let mut b = TextContent::from_string(text.to_string());
    b.set_cursor(cursor);
    b
}

fn typed(editor: &mut Editor, text: &str) {
    assert_eq!(editor.handle(Event::TextInput(text.to_string())), Reaction::Continue);
}

fn key(editor: &mut Editor, key: Key, modifiers: Modifiers) -> Reaction {
    editor.handle(Event::KeyDown(key, modifiers))
}

#[test]
fn return_splits_the_line() {
    let mut b = buffer("abcd", (0, 1));
    assert!(text_editing(Key::Return, NONE, &mut b));
    assert_eq!(b.get_text(), vec!["a", "bcd"]);
    assert_eq!(b.get_cursor(), (1, 0));
}

#[test]
fn control_return_adds_a_line_below() {
    let mut b = buffer("abcd\nef", (0, 1));
    assert!(text_editing(Key::Return, CTRL, &mut b));
    assert_eq!(b.get_text(), vec!["abcd", "", "ef"]);
    assert_eq!(b.get_cursor(), (1, 0));
}

#[test]
fn arrows_move_the_cursor() {
    let mut b = buffer("ab\ncd", (0, 1));
    assert!(text_editing(Key::Down, NONE, &mut b));
    assert_eq!(b.get_cursor(), (1, 1));
    assert!(text_editing(Key::Right, NONE, &mut b));
    assert_eq!(b.get_cursor(), (1, 2));
    assert!(text_editing(Key::Up, NONE, &mut b));
    assert_eq!(b.get_cursor(), (0, 2));
    assert!(text_editing(Key::Left, NONE, &mut b));
    assert_eq!(b.get_cursor(), (0, 1));
    assert_eq!(b.get_text(), vec!["ab", "cd"]);
}

#[test]
fn alt_arrows_move_the_line() {
    let mut b = buffer("ab\ncd", (0, 1));
    assert!(text_editing(Key::Down, ALT, &mut b));
    assert_eq!(b.get_text(), vec!["cd", "ab"]);
    assert_eq!(b.get_cursor(), (1, 1));
    assert!(text_editing(Key::Up, ALT, &mut b));
    assert_eq!(b.get_text(), vec!["ab", "cd"]);
    assert_eq!(b.get_cursor(), (0, 1));
}

#[test]
fn backspace_deletes_backwards() {
    let mut b = buffer("ab\ncd", (1, 0));
    assert!(text_editing(Key::Backspace, NONE, &mut b));
    assert_eq!(b.get_text(), vec!["abcd"]);
    assert_eq!(b.get_cursor(), (0, 2));
}

#[test]
fn tab_inserts_four_spaces() {
    let mut b = buffer("ab", (0, 1));
    assert!(text_editing(Key::Tab, NONE, &mut b));
    assert_eq!(b.get_text(), vec!["a    b"]);
    assert_eq!(b.get_cursor(), (0, 5));
}

#[test]
fn other_keys_do_not_edit() {
    for k in [Key::S, Key::O, Key::Other] {
        for m in [NONE, CTRL, ALT, CTRL_SHIFT] {
            let mut b = buffer("ab\ncd", (1, 1));
            assert!(!text_editing(k, m, &mut b));
            assert_eq!(b.get_text(), vec!["ab", "cd"]);
            assert_eq!(b.get_cursor(), (1, 1));
        }
    }
}

#[test]
fn control_s_saves_to_the_path_or_asks_for_one() {
    let mut files = FileContext::new();
    assert_eq!(command(Key::S, CTRL, &files), Command::SaveAs);
    assert_eq!(command(Key::S, CTRL_SHIFT, &files), Command::SaveAs);
    files.set_current_path("a.txt".to_string());
    assert_eq!(command(Key::S, CTRL, &files), Command::Save("a.txt".to_string()));
    assert_eq!(command(Key::S, CTRL_SHIFT, &files), Command::SaveAs);
}

#[test]
fn control_o_opens() {
    let files = FileContext::new();
    assert_eq!(command(Key::O, CTRL, &files), Command::Open);
    assert_eq!(command(Key::O, CTRL_SHIFT, &files), Command::Open);
}

#[test]
fn keys_without_control_are_no_command() {
    let files = FileContext::new();
    assert_eq!(command(Key::S, NONE, &files), Command::Nothing);
    assert_eq!(command(Key::O, ALT, &files), Command::Nothing);
    assert_eq!(command(Key::Other, CTRL, &files), Command::Nothing);
    assert_eq!(command(Key::Return, CTRL, &files), Command::Nothing);
}

#[test]
fn a_new_editor_holds_one_empty_document() {
    let e = Editor::new((800, 600));
    assert_eq!(e.content().get_text(), vec![String::new()]);
    assert_eq!(e.content().get_cursor(), (0, 0));
    assert_eq!(e.files().current_file().path, None);
}

#[test]
fn typed_text_goes_into_the_current_document() {
    let mut e = Editor::new((800, 600));
    typed(&mut e, "hello");
    assert_eq!(key(&mut e, Key::Return, NONE), Reaction::Continue);
    typed(&mut e, "world");
    assert_eq!(e.content().get_text(), vec!["hello", "world"]);
    assert_eq!(e.content().get_cursor(), (1, 5));
    assert_eq!(e.content().get_string(), "hello\nworld");
}

#[test]
fn quit_stops_and_other_events_go_on() {
    let mut e = Editor::new((800, 600));
    assert_eq!(e.handle(Event::Quit), Reaction::Quit);
    assert_eq!(e.handle(Event::Other), Reaction::Continue);
    assert_eq!(e.content().get_text(), vec![String::new()]);
}

#[test]
fn save_and_open_are_handed_to_the_program() {
    let mut e = Editor::new((800, 600));
    typed(&mut e, "abc");
    assert_eq!(key(&mut e, Key::S, CTRL), Reaction::Run(Command::SaveAs));
    e.saved_as("a.txt".to_string());
    assert_eq!(e.files().current_file().path, Some("a.txt".to_string()));
    assert_eq!(key(&mut e, Key::S, CTRL), Reaction::Run(Command::Save("a.txt".to_string())));
    assert_eq!(key(&mut e, Key::S, CTRL_SHIFT), Reaction::Run(Command::SaveAs));
    assert_eq!(key(&mut e, Key::O, CTRL), Reaction::Run(Command::Open));
    assert_eq!(key(&mut e, Key::S, NONE), Reaction::Continue);
    assert_eq!(key(&mut e, Key::Other, CTRL), Reaction::Continue);
    assert_eq!(e.content().get_text(), vec!["abc"]);
}

#[test]
fn an_opened_document_becomes_the_current_one() {
    let mut e = Editor::new((800, 600));
    typed(&mut e, "abc");
    e.opened("b.txt".to_string(), "x\ny\n".to_string());
    assert_eq!(e.files().current_file().path, Some("b.txt".to_string()));
    assert_eq!(e.content().get_text(), vec!["x", "y"]);
    assert_eq!(e.content().get_cursor(), (0, 0));
    typed(&mut e, "z");
    assert_eq!(e.content().get_text(), vec!["zx", "y"]);
    assert_eq!(key(&mut e, Key::S, CTRL), Reaction::Run(Command::Save("b.txt".to_string())));
}

#[test]
fn an_opened_empty_file_is_one_empty_line() {
    let mut e = Editor::new((800, 600));
    e.opened("empty.txt".to_string(), String::new());
    assert_eq!(e.content().get_text(), vec![String::new()]);
}

fn long_document() -> Editor {
    let mut e = Editor::new((800, 600));
    let line = "x".repeat(200);
    let mut text = String::new();
    for _ in 0..100 {
        text.push_str(&line);
        text.push('\n');
    }
    e.opened("long.txt".to_string(), text);
    e.refresh((10, 20), 0);
    e
}

#[test]
fn refresh_sizes_the_view_by_the_document() {
    let mut e = long_document();
    assert_eq!(e.content().size(), (100, 200));
    assert_eq!(e.vue().text_area_container().text_area().get_scrollable_area(), (2684, 2442));
    let drawn = e.refresh((10, 20), 0);
    assert!(drawn.0.is_some() && drawn.1.is_some());
}

#[test]
fn a_click_in_the_text_puts_the_cursor_there() {
    let mut e = long_document();
    assert_eq!(e.handle(Event::MouseButtonDown(70, 50)), Reaction::Continue);
    assert_eq!(e.content().get_cursor(), (2, 3));
    e.handle(Event::MouseButtonDown(70, 535));
    assert_eq!(e.content().get_cursor(), (26, 3));
}

#[test]
fn a_click_beyond_the_text_puts_the_cursor_at_the_nearest_place() {
    let mut e = Editor::new((800, 600));
    typed(&mut e, "ab");
    e.handle(Event::KeyDown(Key::Return, NONE));
    typed(&mut e, "cdef");
    e.refresh((10, 20), 0);
    e.handle(Event::MouseButtonDown(300, 20));
    assert_eq!(e.content().get_cursor(), (0, 2));
    e.handle(Event::MouseButtonDown(60, 400));
    assert_eq!(e.content().get_cursor(), (1, 4));
}

#[test]
fn a_click_before_the_first_refresh_moves_nothing() {
    let mut e = Editor::new((800, 600));
    typed(&mut e, "abc");
    e.handle(Event::MouseButtonDown(40, 10));
    assert_eq!(e.content().get_cursor(), (0, 3));
}

#[test]
fn a_click_on_a_scroll_bar_scrolls_and_leaves_the_cursor() {
    let mut e = long_document();
    e.handle(Event::MouseButtonDown(790, 400));
    assert_eq!(e.content().get_cursor(), (0, 0));
    assert_eq!(e.vue().text_area_container().text_area().get_scroll_offset(), (0, -1464));
}

#[test]
fn a_drag_scrolls_until_the_left_button_goes_up() {
    let mut e = long_document();
    e.handle(Event::MouseMotion { x: 790, y: 50, xrel: 0, yrel: 40 });
    assert_eq!(e.vue().text_area_container().text_area().get_scroll_offset(), (0, 0));
    e.handle(Event::MouseButtonDown(790, 10));
    e.handle(Event::MouseMotion { x: 790, y: 50, xrel: 0, yrel: 40 });
    assert_eq!(e.vue().text_area_container().text_area().get_scroll_offset(), (0, -171));
    e.handle(Event::MouseButtonUp { left: false });
    e.handle(Event::MouseMotion { x: 790, y: 50, xrel: 0, yrel: 80 });
    assert_eq!(e.vue().text_area_container().text_area().get_scroll_offset(), (0, -342));
    e.handle(Event::MouseButtonUp { left: true });
    e.handle(Event::MouseMotion { x: 790, y: 50, xrel: 0, yrel: 300 });
    assert_eq!(e.vue().text_area_container().text_area().get_scroll_offset(), (0, -342));
}

#[test]
fn the_wheel_scrolls_the_text() {
    let mut e = long_document();
    e.handle(Event::MouseWheel(0, -3));
    assert_eq!(e.vue().text_area_container().text_area().get_scroll_offset(), (0, -60));
    e.handle(Event::MouseWheel(1, 1));
    assert_eq!(e.vue().text_area_container().text_area().get_scroll_offset(), (-20, -40));
}

#[test]
fn a_resize_lays_the_view_out_anew() {
    let mut e = long_document();
    e.handle(Event::Resized(400, 300));
    assert_eq!(
        e.vue().text_area_container().text_area().area(),
        text_editor::vue::area::Area { x: 40, y: 0, w: 360, h: 240 }
    );
}

#[test]
fn the_view_follows_the_cursor_after_an_edit() {
    let mut e = long_document();
    for _ in 0..50 {
        key(&mut e, Key::Down, NONE);
    }
    e.refresh((10, 20), 0);
    assert_eq!(e.content().get_cursor(), (50, 0));
    assert_eq!(e.vue().text_area_container().text_area().get_scroll_offset(), (0, 432 - 1010));
    e.handle(Event::MouseWheel(0, 5));
    e.refresh((10, 20), 0);
    assert_eq!(e.vue().text_area_container().text_area().get_scroll_offset(), (0, -478));
}

#[test]
fn an_editor_can_have_other_margins() {
    let margins = text_editor::vue::text_area::Margins { top: 0, right_percent: 0, bottom_percent: 0 };
    let mut e = Editor::with_margins((800, 600), margins);
    typed(&mut e, "abc");
    e.refresh((10, 20), 0);
    assert_eq!(e.vue().text_area_container().text_area().get_scrollable_area(), (30, 20));
    assert_eq!(e.refresh((10, 20), 0), (None, None));
}
