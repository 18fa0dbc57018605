//! What the editor does with each thing that happens to it: a key, typed
//! text, the pointer, the wheel, a new window size.
//!
//! Nothing here reads the keyboard or touches a file. The program around
//! the editor turns what it gets from the window system into an [`Event`],
//! hands it over, and carries out the [`Reaction`] that comes back.

use crate::files::{File, FileContext};
use crate::text_zone::{TextContent, TextState};
use crate::vue::area::Area;
use crate::vue::text_area::{standard_margins, Margins};
use crate::vue::{Vue, VueState};
use vstd::prelude::*;

verus! {

/// The keys the editor knows.
#[derive(Clone, Copy, Debug, PartialEq, Eq, Structural)]
pub enum Key {
    Return,
    Up,
    Down,
    Left,
    Right,
    Backspace,
    Tab,
    S,
    O,
    Other,
}

/// Which of the modifier keys are held, on either side of the keyboard.
#[derive(Clone, Copy, Debug, PartialEq, Eq, Structural)]
pub struct Modifiers {
    pub ctrl: bool,
    pub alt: bool,
    pub shift: bool,
}

/// What the program around the editor is asked to do with files.
#[derive(Debug, PartialEq, Eq)]
pub enum Command {
    /// Write the current document to this path.
    Save(String),
    /// Ask for a path, write the current document to it, and report the
    /// path with [`Editor::saved_as`].
    SaveAs,
    /// Ask for a path, read it, and report path and text with
    /// [`Editor::opened`].
    Open,
    /// Nothing.
    Nothing,
}

/// Something that happened to the editor.
#[derive(Debug, PartialEq, Eq)]
pub enum Event {
    /// The window is to close.
    Quit,
    /// A key went down.
    KeyDown(Key, Modifiers),
    /// Text was typed.
    TextInput(String),
    /// A button of the pointer went down at this point.
    MouseButtonDown(i32, i32),
    /// The pointer moved to `(x, y)`, by `(xrel, yrel)`.
    MouseMotion { x: i32, y: i32, xrel: i32, yrel: i32 },
    /// A button of the pointer went up; `left` tells whether it was the
    /// left one.
    MouseButtonUp { left: bool },
    /// The window has this width and height now.
    Resized(u32, u32),
    /// The wheel turned by this many steps sideways and up.
    MouseWheel(i32, i32),
    /// Anything else.
    Other,
}

/// What the program around the editor is to do after an event.
#[derive(Debug, PartialEq, Eq)]
pub enum Reaction {
    /// Stop.
    Quit,
    /// Carry out this command, then go on.
    Run(Command),
    /// Go on.
    Continue,
}

/// The text inserted for the tabulator key.
pub open spec fn tab_text() -> Seq<char> {
    seq![' ', ' ', ' ', ' ']
}

/// Whether `key` edits the text or moves the cursor.
pub open spec fn is_editing_key(key: Key) -> bool {
    match key {
        Key::Return | Key::Up | Key::Down | Key::Left | Key::Right => true,
        Key::Backspace | Key::Tab => true,
        _ => false,
    }
}

/// The text after `key` went down with `modifiers` held. Return splits the
/// line, and with control adds an empty one; the arrows move the cursor by
/// one, and up and down with alt move the line instead; backspace deletes
/// backwards; the tabulator inserts four spaces. Other keys change
/// nothing.
pub open spec fn edited(s: TextState, key: Key, modifiers: Modifiers) -> TextState {
    match key {
        Key::Return => if modifiers.ctrl {
            s.with_new_line()
        } else {
            s.broken()
        },
        Key::Up => if modifiers.alt {
            s.line_moved_up()
        } else {
            s.moved_up(1)
        },
        Key::Down => if modifiers.alt {
            s.line_moved_down()
        } else {
            s.moved_down(1)
        },
        Key::Left => s.moved_left(1),
        Key::Right => s.moved_right(1),
        Key::Backspace => s.backspaced(),
        Key::Tab => s.inserted(tab_text()),
        _ => s,
    }
}

/// What `key` with `modifiers` asks to do with files, for a current
/// document with the path `path`: control and S save, to the document's
/// path if it has one and shift is not held, else to a path to be asked
/// for; control and O open; all else is no command.
pub open spec fn commanded(key: Key, modifiers: Modifiers, path: Option<String>) -> Command {
    match key {
        Key::S => if modifiers.ctrl {
            match path {
                Some(p) => if modifiers.shift {
                    Command::SaveAs
                } else {
                    Command::Save(p)
                },
                None => Command::SaveAs,
            }
        } else {
            Command::Nothing
        },
        Key::O => if modifiers.ctrl {
            Command::Open
        } else {
            Command::Nothing
        },
        _ => Command::Nothing,
    }
}

/// Applies `key` with `modifiers` to the text, and tells whether the key
/// is one that edits.
pub fn text_editing(key: Key, modifiers: Modifiers, text_content: &mut TextContent) -> (r: bool)
    requires
        old(text_content).wf(),
    ensures
        final(text_content).wf(),
        final(text_content)@ == edited(old(text_content)@, key, modifiers),
        r == is_editing_key(key),
{
    match key {
        Key::Return => {
            if modifiers.ctrl {
                text_content.new_line()
            } else {
                text_content.break_line()
            }
        },
        Key::Up => {
            if modifiers.alt {
                text_content.move_line_up()
            } else {
                text_content.move_cursor_up(1)
            }
        },
        Key::Down => {
            if modifiers.alt {
                text_content.move_line_down()
            } else {
                text_content.move_cursor_down(1)
            }
        },
        Key::Left => text_content.move_cursor_left(1),
        Key::Right => text_content.move_cursor_right(1),
        Key::Backspace => text_content.remove(),
        Key::Tab => {
            let spaces = "    ".to_owned();
            proof {
                reveal_strlit("    ");
                assert(spaces@ =~= tab_text());
            }
            text_content.append(spaces)
        },
        _ => {
            return false;
        },
    }
    true
}

/// Tells what `key` with `modifiers` asks to do with files.
pub fn command(key: Key, modifiers: Modifiers, files: &FileContext) -> (r: Command)
    requires
        files.wf(),
    ensures
        r == commanded(key, modifiers, files.current_path()),
{
    match key {
        Key::S => {
            if modifiers.ctrl {
                match &files.current_file().path {
                    Some(p) => {
                        if modifiers.shift {
                            Command::SaveAs
                        } else {
                            Command::Save(p.clone())
                        }
                    },
                    None => Command::SaveAs,
                }
            } else {
                Command::Nothing
            }
        },
        Key::O => {
            if modifiers.ctrl {
                Command::Open
            } else {
                Command::Nothing
            }
        },
        _ => Command::Nothing,
    }
}

/// What an editor is at one moment, as far as events change it: the text
/// of the current document, the view, and where a drag began, if one is
/// under way.
pub struct EditorState {
    pub text: TextState,
    pub vue: VueState,
    pub drag_origin: Option<(i32, i32)>,
}

impl EditorState {
    /// The state after the text changed to `text`, which the view is told
    /// of.
    pub open spec fn with_text(self, text: TextState) -> EditorState {
        EditorState { text, vue: self.vue.cursor_moved(), ..self }
    }

    /// The state after a button of the pointer went down at `(x, y)`. A
    /// drag begins there. On a scroll bar's track the text is scrolled;
    /// else, inside the text area, the cursor goes to the character under
    /// the pointer.
    pub open spec fn pressed(self, x: i32, y: i32) -> EditorState {
        let begun = EditorState { drag_origin: Some((x, y)), ..self };
        if self.vue.container.click_hits_bar(x as int, y as int) {
            EditorState {
                vue: VueState {
                    container: self.vue.container.clicked(x as int, y as int),
                    ..self.vue
                },
                ..begun
            }
        } else {
            match self.vue.container.text_area.index_of(x as int, y as int) {
                Some(at) => begun.with_text(self.text.with_cursor(at.0, at.1)),
                None => begun,
            }
        }
    }

    /// The state after the pointer moved by `(xrel, yrel)`: during a drag
    /// the scroll bars follow, else nothing changes.
    pub open spec fn dragged(self, xrel: i32, yrel: i32) -> EditorState {
        match self.drag_origin {
            Some(origin) => EditorState {
                vue: VueState {
                    container: self.vue.container.held(
                        (origin.0 as int, origin.1 as int),
                        xrel as int,
                        yrel as int,
                    ),
                    ..self.vue
                },
                ..self
            },
            None => self,
        }
    }

    /// The state after `event`.
    pub open spec fn handled(self, event: Event) -> EditorState {
        match event {
            Event::KeyDown(key, modifiers) => if is_editing_key(key) {
                self.with_text(edited(self.text, key, modifiers))
            } else {
                self
            },
            Event::TextInput(text) => self.with_text(self.text.inserted(text@)),
            Event::MouseButtonDown(x, y) => self.pressed(x, y),
            Event::MouseMotion { x, y, xrel, yrel } => self.dragged(xrel, yrel),
            Event::MouseButtonUp { left } => if left {
                EditorState { drag_origin: None, ..self }
            } else {
                self
            },
            Event::Resized(w, h) => EditorState { vue: self.vue.resized((w, h)), ..self },
            Event::MouseWheel(x, y) => EditorState {
                vue: VueState {
                    container: self.vue.container.scrolled(x as int, y as int),
                    ..self.vue
                },
                ..self
            },
            Event::Quit => self,
            Event::Other => self,
        }
    }
}

/// What is asked of the program around the editor after `event`, for a
/// current document with the path `path`.
pub open spec fn reaction_to(event: Event, path: Option<String>) -> Reaction {
    match event {
        Event::Quit => Reaction::Quit,
        Event::KeyDown(key, modifiers) => if is_editing_key(key) {
            Reaction::Continue
        } else {
            match commanded(key, modifiers, path) {
                Command::Nothing => Reaction::Continue,
                c => Reaction::Run(c),
            }
        },
        _ => Reaction::Continue,
    }
}

/// The editor: the open documents, the view, and the drag under way.
pub struct Editor {
    files: FileContext,
    vue: Vue,
    left_click_origin: Option<(i32, i32)>,
}

impl Editor {
    /// The open documents.
    pub closed spec fn documents(&self) -> FileContext {
        self.files
    }

    /// The state that events change.
    pub closed spec fn state(&self) -> EditorState {
        EditorState {
            text: self.files.current_text(),
            vue: self.vue@,
            drag_origin: self.left_click_origin,
        }
    }

    /// The documents and the view are well-formed.
    pub closed spec fn wf(&self) -> bool {
        self.files.wf() && self.vue.wf()
    }

    /// What well-formedness says of the parts.
    pub proof fn lemma_wf(&self)
        requires
            self.wf(),
        ensures
            self.documents().wf(),
            self.state().vue.wf(),
            self.state().text.wf(),
            self.state().text == self.documents().current_text(),
    {
    }

    /// An editor with one empty document, in a window of the size
    /// `window_size`, with the usual margins around the text.
    pub fn new(window_size: (u32, u32)) -> (r: Self)
        ensures
            r.wf(),
            r.documents().files().len() == 1,
            r.documents().selected() == 0,
            r.documents().current_path() is None,
            r.state().text.lines == seq![Seq::<char>::empty()],
            r.state().text.line == 0,
            r.state().text.column == 0,
            r.state().vue == VueState::initial(standard_margins()).resized(window_size),
            r.state().drag_origin is None,
    {
        Editor::with_margins(window_size, Margins::standard())
    }

    /// An editor with one empty document, in a window of the size
    /// `window_size`, with the margins `margins` around the text.
    pub fn with_margins(window_size: (u32, u32), margins: Margins) -> (r: Self)
        requires
            margins.wf(),
        ensures
            r.wf(),
            r.documents().files().len() == 1,
            r.documents().selected() == 0,
            r.documents().current_path() is None,
            r.state().text.lines == seq![Seq::<char>::empty()],
            r.state().text.line == 0,
            r.state().text.column == 0,
            r.state().vue == VueState::initial(margins).resized(window_size),
            r.state().drag_origin is None,
    {
        Editor {
            files: FileContext::new(),
            vue: Vue::with_margins(window_size, margins),
            left_click_origin: None,
        }
    }

    /// The open documents.
    pub fn files(&self) -> (r: &FileContext)
        ensures
            *r == self.documents(),
    {
        &self.files
    }

    /// The text of the current document.
    pub fn content(&self) -> (r: &TextContent)
        requires
            self.wf(),
        ensures
            r.wf(),
            r@ == self.state().text,
    {
        &self.files.current_file().content
    }

    /// The view.
    pub fn vue(&self) -> (r: &Vue)
        ensures
            r@ == self.state().vue,
    {
        &self.vue
    }

    /// Takes `event` and tells what to do next. Of the documents nothing
    /// changes but the text of the current one.
    pub fn handle(&mut self, event: Event) -> (r: Reaction)
        requires
            old(self).wf(),
        ensures
            final(self).wf(),
            final(self).state() == old(self).state().handled(event),
            final(self).documents().same_but_current_text(&old(self).documents()),
            r == reaction_to(event, old(self).documents().current_path()),
    {
        match event {
            Event::Quit => Reaction::Quit,
            Event::KeyDown(key, modifiers) => {
                if text_editing(key, modifiers, &mut self.files.current().content) {
                    self.vue.send_cursor_update();
                    Reaction::Continue
                } else {
                    match command(key, modifiers, &self.files) {
                        Command::Nothing => Reaction::Continue,
                        c => Reaction::Run(c),
                    }
                }
            },
            Event::TextInput(text) => {
                self.files.current().content.append(text);
                self.vue.send_cursor_update();
                Reaction::Continue
            },
            Event::MouseButtonDown(x, y) => {
                self.left_click_origin = Some((x, y));
                if self.vue.click_text_area_scroll_bar(x, y) {
                } else if let Some(position) = self.vue.cursor_index(x, y) {
                    self.files.current().content.set_cursor(position);
                    self.vue.send_cursor_update();
                }
                Reaction::Continue
            },
            Event::MouseMotion { x, y, xrel, yrel } => {
                if let Some(origin) = self.left_click_origin {
                    self.vue.hold_text_area_scroll_bar(origin, x, y, xrel, yrel);
                }
                Reaction::Continue
            },
            Event::MouseButtonUp { left } => {
                if left {
                    self.left_click_origin = None;
                }
                Reaction::Continue
            },
            Event::Resized(w, h) => {
                self.vue.resize((w, h));
                Reaction::Continue
            },
            Event::MouseWheel(x, y) => {
                self.vue.scroll_text_area(x, y);
                Reaction::Continue
            },
            Event::Other => Reaction::Continue,
        }
    }

    /// Notes that the current document was written to `path`, which it
    /// had been asked for; the document has that path from now on.
    pub fn saved_as(&mut self, path: String)
        requires
            old(self).wf(),
        ensures
            final(self).wf(),
            final(self).state() == old(self).state(),
            ({
                let before = old(self).documents();
                let after = final(self).documents();
                &&& after.selected() == before.selected()
                &&& after.files() == before.files().update(
                    before.selected(),
                    (File { path: Some(path), content: before.files()[before.selected()].content }),
                )
            }),
    {
        self.files.set_current_path(path);
    }

    /// Takes the text `content` that was read from `path` as a new
    /// document after the ones that are open, and makes it the current
    /// one.
    pub fn opened(&mut self, path: String, content: String)
        requires
            old(self).wf(),
        ensures
            final(self).wf(),
            ({
                let before = old(self).documents();
                let after = final(self).documents();
                &&& after.files().len() == before.files().len() + 1
                &&& after.files().drop_last() == before.files()
                &&& after.selected() == before.files().len()
                &&& after.current_path() == Some(path)
            }),
            final(self).state().text.lines == crate::text_zone::initial_lines(content@),
            final(self).state().text.line == 0,
            final(self).state().text.column == 0,
            final(self).state().vue == old(self).state().vue,
            final(self).state().drag_origin == old(self).state().drag_origin,
    {
        let file = File { path: Some(path), content: TextContent::from_string(content) };
        self.files.add_file(file);
        self.files.select_last();
        assert(self.files.files().drop_last() =~= old(self).files.files());
    }

    /// Refreshes the view for the current document, with the size of one
    /// character cell in pixels and the time in milliseconds. Returns what
    /// to draw of the vertical and of the horizontal scroll bar.
    pub fn refresh(&mut self, content_font_size: (u32, u32), now: u128) -> (r: (
        Option<Area>,
        Option<Area>,
    ))
        requires
            old(self).wf(),
        ensures
            final(self).wf(),
            final(self).documents() == old(self).documents(),
            final(self).state().text == old(self).state().text,
            final(self).state().drag_origin == old(self).state().drag_origin,
            final(self).state().vue.container == old(self).state().vue.container.refreshed(
                old(self).state().text.lines.len() as int,
                crate::text_zone::longest(old(self).state().text.lines) as int,
                content_font_size.0 as int,
                content_font_size.1 as int,
                old(self).state().text.line,
                old(self).state().text.column_in_line(),
                now as int,
            ),
            final(self).state().vue.info_bar == old(self).state().vue.info_bar,
            r.0 == final(self).state().vue.container.vertical.visible(),
            r.1 == final(self).state().vue.container.horizontal.visible(),
    {
        let content = &self.files.current_file().content;
        let size = content.size();
        let cursor = content.get_cursor();
        self.vue.refresh(size, cursor, content_font_size, now)
    }
}

} // verus!
