//! The mode controller: routes each key to the handler of the active mode
//! and takes back what came of the requests that the handlers make.

use crate::dir::{entries_view, opt_view, Dir, DirView, Entry};
use crate::line::{lemma_erased_valid, lemma_inserted_valid};
use crate::mode::{Failure, Key, Mode, Request, RequestView};
use crate::normal::{mode_after_key, status_line, Normal, NormalView};
use crate::open::{open_dir_after_key, open_mode_after_key, open_request_after_key, Open};
use crate::text::strings_view;
use crate::write_path::{InputMode, WritePath, WritePathView};
use vstd::prelude::*;
use vstd::string::StringExecFns;

verus! {

/// What the editor holds.
pub struct EditorView {
    /// The active mode.
    pub mode: Mode,
    /// The editing mode.
    pub normal: NormalView,
    /// The save-as mode.
    pub write_path: WritePathView,
    /// The entry listing, which the save-as mode and the open mode share.
    pub dir: DirView,
    /// The path of the working directory.
    pub cwd: Seq<char>,
    /// What the status line says of the last request that failed; empty
    /// while none has failed since one was carried out.
    pub notice: Seq<char>,
}

impl EditorView {
    /// Every part is in order.
    pub open spec fn valid(self) -> bool {
        &&& self.normal.valid()
        &&& self.write_path.valid()
        &&& self.dir.valid()
    }

    /// Whether the document has a path to be saved to.
    pub open spec fn path_known(self) -> bool {
        self.dir.path.len() > 0
    }

    /// Whether the active mode has a transition for `key`.
    pub open spec fn listed(self, key: Key) -> bool {
        match self.mode {
            Mode::Normal => match key {
                Key::Backspace | Key::Char(_) | Key::Up | Key::Down | Key::Left | Key::Right
                | Key::Enter => true,
                Key::Ctrl(c) => c == 'o' || c == 's' || c == 'a' || c == 'q',
                _ => false,
            },
            Mode::WritePath => match key {
                Key::Ctrl(c) => c == 'c',
                Key::Esc => true,
                Key::Tab => self.write_path.input_mode != InputMode::Check,
                Key::Up | Key::Down => self.write_path.input_mode == InputMode::Select,
                Key::Enter => self.write_path.input_mode != InputMode::Check,
                Key::Left | Key::Right | Key::Backspace => self.write_path.input_mode
                    == InputMode::Write,
                Key::Char(c) => self.write_path.input_mode == InputMode::Write || (
                self.write_path.input_mode == InputMode::Check && (c == 'y' || c == 'n')),
                _ => false,
            },
            Mode::Open => match key {
                Key::Ctrl(c) => c == 'c',
                Key::Enter | Key::Up | Key::Down => true,
                _ => false,
            },
        }
    }

    /// The state after a key: what the handler of the active mode makes of
    /// it.
    pub open spec fn after_key(self, key: Key) -> EditorView {
        match self.mode {
            Mode::Normal => EditorView {
                mode: mode_after_key(self.mode, key, self.path_known()),
                normal: self.normal.after_key(key),
                ..self
            },
            Mode::WritePath => EditorView {
                mode: self.write_path.mode_after_key(self.mode, key, self.dir),
                write_path: self.write_path.after_key(key, self.dir),
                dir: self.write_path.dir_after_key(key, self.dir),
                ..self
            },
            Mode::Open => EditorView {
                mode: open_mode_after_key(self.mode, key),
                dir: open_dir_after_key(self.dir, key),
                ..self
            },
        }
    }

    /// What a key asks for. In the editing mode: the quit shortcut asks to
    /// quit, the save shortcut to save to the known path, and a shortcut
    /// that leads to another mode asks for the working directory to be
    /// listed. In the other modes: what their handlers ask for.
    pub open spec fn request_after_key(self, key: Key) -> RequestView {
        match self.mode {
            Mode::Normal => if key == Key::Ctrl('q') {
                RequestView::Quit
            } else if key == Key::Ctrl('s') && self.path_known() {
                RequestView::Save(self.dir.path)
            } else if mode_after_key(self.mode, key, self.path_known()) != Mode::Normal {
                RequestView::List(self.cwd)
            } else {
                RequestView::Nothing
            },
            Mode::WritePath => self.write_path.request_after_key(key, self.dir),
            Mode::Open => open_request_after_key(self.dir, key),
        }
    }

    /// The state after a directory was listed: in the save-as mode and in
    /// the open mode the listing shows its children, and the save-as mode
    /// shows its path as the message; in the editing mode nothing changes.
    pub open spec fn after_listed(
        self,
        dir_path: Seq<char>,
        parent: Option<Seq<char>>,
        children: Seq<crate::dir::EntryView>,
    ) -> EditorView {
        match self.mode {
            Mode::Normal => self,
            Mode::WritePath => EditorView {
                write_path: WritePathView { msg: dir_path, warning: false, ..self.write_path },
                dir: self.dir.listed(dir_path, parent, children),
                notice: Seq::<char>::empty(),
                ..self
            },
            Mode::Open => EditorView {
                dir: self.dir.listed(dir_path, parent, children),
                notice: Seq::<char>::empty(),
                ..self
            },
        }
    }

    /// The state after a file was loaded: its lines are the document, taken
    /// as saved, with the cursor at the start; its path is recorded; and
    /// the mode is editing.
    pub open spec fn after_loaded(self, path: Seq<char>, buffer: Seq<Seq<char>>) -> EditorView {
        EditorView {
            mode: Mode::Normal,
            normal: self.normal.replaced(buffer),
            dir: DirView { path, ..self.dir },
            notice: Seq::<char>::empty(),
            ..self
        }
    }

    /// The state after the document was written to `path`: where that is
    /// the known path, or no path was known, the document is taken as
    /// saved; where no path was known, `path` becomes the known path.
    pub open spec fn after_saved(self, path: Seq<char>) -> EditorView {
        EditorView {
            normal: if path == self.dir.path || !self.path_known() {
                NormalView { saved: self.normal.lines, ..self.normal }
            } else {
                self.normal
            },
            dir: if self.path_known() {
                self.dir
            } else {
                DirView { path, ..self.dir }
            },
            notice: Seq::<char>::empty(),
            ..self
        }
    }

    /// The state after a request failed: the mode, the document with what
    /// counts as saved, and the listing stay as they are, and the status
    /// line says what failed.
    pub open spec fn after_failed(self, failure: Failure) -> EditorView {
        EditorView { notice: failure.text(), ..self }
    }

    /// The text of the status line: the path and the modified token, and
    /// after a blank what failed, where something has.
    pub open spec fn status(self) -> Seq<char> {
        status_line(self.dir.path, self.normal.modified()) + if self.notice.len() > 0 {
            seq![' '] + self.notice
        } else {
            Seq::<char>::empty()
        }
    }

    /// Whether the terminal cursor is shown: while editing and while a file
    /// name is typed, and not while a listing is browsed.
    pub open spec fn cursor_visible(self) -> bool {
        match self.mode {
            Mode::Normal => true,
            Mode::WritePath => self.write_path.input_mode == InputMode::Write,
            Mode::Open => false,
        }
    }
}

/// Every key leaves every part of the editor in order: the cursors within
/// their lines, and the listing sorted with its selection within it. A
/// newline in the editing mode needs room for one more line in the machine
/// word.
pub proof fn lemma_after_key_valid(v: EditorView, key: Key)
    requires
        v.valid(),
        v.mode == Mode::Normal && key == Key::Enter ==> v.normal.lines.len() < usize::MAX,
    ensures
        v.after_key(key).valid(),
{
    match v.mode {
        Mode::Normal => {
            crate::normal::lemma_after_key_valid(v.normal, key);
        },
        Mode::WritePath => {
            let w = v.write_path;
            match key {
                Key::Char(c) => lemma_inserted_valid(w.path, w.x, c),
                _ => lemma_erased_valid(w.path, w.x),
            }
        },
        Mode::Open => {},
    }
}

/// A key for which the active mode has no transition changes nothing and
/// asks for nothing.
pub proof fn lemma_unlisted_key(v: EditorView, key: Key)
    requires
        !v.listed(key),
    ensures
        v.after_key(key) == v,
        v.request_after_key(key) == RequestView::Nothing,
{
}

/// The editor: the active mode and the state of every mode.
pub struct Editor {
    pub mode: Mode,
    pub normal: Normal,
    pub write_path: WritePath,
    pub open: Open,
    pub dir: Dir,
    pub cwd: String,
    pub notice: String,
}

impl View for Editor {
    type V = EditorView;

    open spec fn view(&self) -> EditorView {
        EditorView {
            mode: self.mode,
            normal: self.normal@,
            write_path: self.write_path@,
            dir: self.dir@,
            cwd: self.cwd@,
            notice: self.notice@,
        }
    }
}

impl Editor {
    /// The editor as it starts: editing the document that `buffer` gives,
    /// known by `path` unless that is empty, with the listing of the working
    /// directory `cwd`.
    pub fn new(
        buffer: Vec<String>,
        path: String,
        cwd: String,
        parent: Option<String>,
        children: Vec<Entry>,
        width: u16,
        height: u16,
    ) -> (e: Editor)
        ensures
            e@.valid(),
            e@.mode == Mode::Normal,
            e@.normal == NormalView::initial(strings_view(buffer@), width, height),
            e@.write_path == WritePathView::initial(cwd@),
            e@.dir == (DirView {
                path: path@,
                ..DirView::initial(cwd@, opt_view(parent), entries_view(children@))
            }),
            e@.cwd == cwd@,
            e@.notice == Seq::<char>::empty(),
    {
        let normal = Normal::new(buffer, width, height);
        let write_path = WritePath::new(cwd.clone());
        let mut dir = Dir::new(cwd.clone(), parent, children);
        dir.set_path(path);
        Editor {
            mode: Mode::Normal,
            normal,
            write_path,
            open: Open::new(),
            dir,
            cwd,
            notice: String::new(),
        }
    }

    /// Handles one key in the active mode and returns what it asks for.
    pub fn key(&mut self, key: Key) -> (r: Request)
        ensures
            final(self)@ == old(self)@.after_key(key),
            final(self)@.valid(),
            r@ == old(self)@.request_after_key(key),
    {
        proof {
            use_type_invariant(&self.normal);
            use_type_invariant(&self.write_path);
            use_type_invariant(&self.dir);
        }
        match self.mode {
            Mode::Normal => {
                let (path, quit) = self.normal.input(key, &mut self.mode, &self.dir);
                if quit {
                    Request::Quit
                } else if path.as_str().is_empty() {
                    match self.mode {
                        Mode::Normal => Request::Nothing,
                        _ => Request::List(self.cwd.clone()),
                    }
                } else {
                    Request::Save(path)
                }
            },
            Mode::WritePath => self.write_path.input(key, &mut self.mode, &mut self.dir),
            Mode::Open => self.open.input(key, &mut self.mode, &mut self.dir),
        }
    }

    /// Takes the children read for a list request.
    pub fn listed(&mut self, dir_path: String, parent: Option<String>, children: Vec<Entry>)
        ensures
            final(self)@ == old(self)@.after_listed(
                dir_path@,
                opt_view(parent),
                entries_view(children@),
            ),
            final(self)@.valid(),
    {
        proof {
            use_type_invariant(&self.normal);
            use_type_invariant(&self.write_path);
            use_type_invariant(&self.dir);
        }
        match self.mode {
            Mode::Normal => {},
            Mode::WritePath => {
                self.write_path.set(&mut self.dir, dir_path, parent, children);
                self.notice = String::new();
            },
            Mode::Open => {
                self.open.set(&mut self.dir, dir_path, parent, children);
                self.notice = String::new();
            },
        }
    }

    /// Takes the lines read for a load request.
    pub fn loaded(&mut self, path: String, buffer: Vec<String>)
        ensures
            final(self)@ == old(self)@.after_loaded(path@, strings_view(buffer@)),
            final(self)@.valid(),
    {
        proof {
            use_type_invariant(&self.normal);
            use_type_invariant(&self.write_path);
            use_type_invariant(&self.dir);
        }
        self.open.loaded(&mut self.mode, &mut self.normal, &mut self.dir, path, buffer);
        self.notice = String::new();
    }

    /// Takes note that the document was written to `path`.
    pub fn saved(&mut self, path: String)
        ensures
            final(self)@ == old(self)@.after_saved(path@),
            final(self)@.valid(),
    {
        proof {
            use_type_invariant(&self.normal);
            use_type_invariant(&self.write_path);
            use_type_invariant(&self.dir);
        }
        let known = !self.dir.path().as_str().is_empty();
        if !known || path == *self.dir.path() {
            self.normal.update();
        }
        if !known {
            self.dir.set_path(path);
        }
        self.notice = String::new();
    }

    /// Takes note that a request failed: nothing changes but the status
    /// line, which says what failed.
    pub fn failed(&mut self, failure: Failure)
        ensures
            final(self)@ == old(self)@.after_failed(failure),
            final(self)@.valid(),
    {
        proof {
            use_type_invariant(&self.normal);
            use_type_invariant(&self.write_path);
            use_type_invariant(&self.dir);
        }
        self.notice = failure.message();
    }

    /// The text of the status line.
    pub fn status(&self) -> (msg: String)
        ensures
            msg@ == self@.status(),
    {
        let mut msg = self.normal.output_msg(&self.dir);
        if !self.notice.as_str().is_empty() {
            msg.push(' ');
            msg.append(self.notice.as_str());
        }
        msg
    }

    /// Takes the viewport size for the coming tick.
    pub fn resize(&mut self, width: u16, height: u16)
        ensures
            final(self)@ == (EditorView {
                normal: NormalView { width, height, ..old(self)@.normal },
                ..old(self)@
            }),
            final(self)@.valid(),
    {
        proof {
            use_type_invariant(&self.normal);
            use_type_invariant(&self.write_path);
            use_type_invariant(&self.dir);
        }
        self.normal.set_data(width, height);
    }

    /// Whether the terminal cursor is to be shown.
    pub fn cursor_visible(&self) -> (r: bool)
        ensures
            r == self@.cursor_visible(),
    {
        match self.mode {
            Mode::Normal => true,
            Mode::WritePath => match self.write_path.input_mode() {
                InputMode::Write => true,
                _ => false,
            },
            Mode::Open => false,
        }
    }
}

} // verus!
