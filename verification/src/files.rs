//! The documents that are open, and which of them is being edited.

use crate::text_zone::TextContent;
use vstd::prelude::*;

verus! {

/// A document: its text, and the path it was read from or last written to,
/// if it has one.
pub struct File {
    pub path: Option<String>,
    pub content: TextContent,
}

impl File {
    /// A document is well-formed when its text is.
    pub open spec fn wf(&self) -> bool {
        self.content.wf()
    }

    /// An empty document without a path.
    pub fn new() -> (r: Self)
        ensures
            r.wf(),
            r.path is None,
            r.content@.lines == seq![Seq::<char>::empty()],
            r.content@.line == 0,
            r.content@.column == 0,
    {
        File { path: None, content: TextContent::new() }
    }
}

/// The open documents in the order they were opened, one of them current.
pub struct FileContext {
    files: Vec<File>,
    current: usize,
}

impl FileContext {
    /// The open documents, in order.
    pub closed spec fn files(&self) -> Seq<File> {
        self.files@
    }

    /// The index of the current document.
    pub closed spec fn selected(&self) -> int {
        self.current as int
    }

    /// There is at least one document, the current index names one of them,
    /// and every document is well-formed.
    pub open spec fn wf(&self) -> bool {
        &&& self.files().len() >= 1
        &&& 0 <= self.selected() < self.files().len()
        &&& forall|i: int| 0 <= i < self.files().len() ==> (#[trigger] self.files()[i]).wf()
    }

    /// One empty document without a path, which is current.
    pub fn new() -> (r: Self)
        ensures
            r.wf(),
            r.files().len() == 1,
            r.selected() == 0,
            r.files()[0].path is None,
            r.files()[0].content@.lines == seq![Seq::<char>::empty()],
            r.files()[0].content@.line == 0,
            r.files()[0].content@.column == 0,
    {
        let mut files: Vec<File> = Vec::new();
        files.push(File::new());
        FileContext { files, current: 0 }
    }

    /// The text of the current document.
    pub open spec fn current_text(&self) -> crate::text_zone::TextState {
        self.files()[self.selected()].content@
    }

    /// The path of the current document.
    pub open spec fn current_path(&self) -> Option<String> {
        self.files()[self.selected()].path
    }

    /// Whether this set differs from `before` in nothing but the text of
    /// the current document.
    pub open spec fn same_but_current_text(&self, before: &FileContext) -> bool {
        &&& self.files().len() == before.files().len()
        &&& self.selected() == before.selected()
        &&& self.current_path() == before.current_path()
        &&& forall|i: int|
            0 <= i < self.files().len() && i != self.selected() ==> self.files()[i]
                == before.files()[i]
    }

    /// The current document, to read.
    pub fn current_file(&self) -> (r: &File)
        requires
            self.wf(),
        ensures
            *r == self.files()[self.selected()],
            r.wf(),
    {
        &self.files[self.current]
    }

    /// The current document, to read and to change. What the caller leaves
    /// in it is what the set then holds at the current index; nothing else
    /// changes.
    pub fn current(&mut self) -> (r: &mut File)
        requires
            old(self).wf(),
        ensures
            *r == old(self).files()[old(self).selected()],
            r.wf(),
            final(self).files() == old(self).files().update(old(self).selected(), *final(r)),
            final(self).selected() == old(self).selected(),
    {
        &mut self.files[self.current]
    }

    /// Replaces the text of the current document.
    pub fn _set_current_content(&mut self, content: TextContent)
        requires
            old(self).wf(),
            content.wf(),
        ensures
            final(self).wf(),
            final(self).selected() == old(self).selected(),
            final(self).files() == old(self).files().update(
                old(self).selected(),
                (File { path: old(self).files()[old(self).selected()].path, content }),
            ),
    {
        self.files[self.current].content = content;
    }

    /// Gives the current document the path `path`.
    pub fn set_current_path(&mut self, path: String)
        requires
            old(self).wf(),
        ensures
            final(self).wf(),
            final(self).selected() == old(self).selected(),
            final(self).files() == old(self).files().update(
                old(self).selected(),
                (File {
                    path: Some(path),
                    content: old(self).files()[old(self).selected()].content,
                }),
            ),
    {
        self.files[self.current].path = Some(path);
    }

    /// Adds `file` after the documents that are open. The current document
    /// stays current.
    pub fn add_file(&mut self, file: File)
        requires
            old(self).wf(),
            file.wf(),
        ensures
            final(self).wf(),
            final(self).selected() == old(self).selected(),
            final(self).files() == old(self).files().push(file),
    {
        self.files.push(file);
    }

    /// Makes the document that was opened last the current one.
    pub fn select_last(&mut self)
        requires
            old(self).wf(),
        ensures
            final(self).wf(),
            final(self).files() == old(self).files(),
            final(self).selected() == old(self).files().len() - 1,
    {
        self.current = self.files.len() - 1;
    }
}

} // verus!
