//! The save-as mode: typing a file name, or choosing a file to overwrite
//! from the entry listing.

use crate::cursor::Cursor;
use crate::dir::{
    dir_rows, dir_rows_view, entries_view, opt_view, Dir, DirRow, DirView, Entry, Selected,
    SelectedView,
};
use crate::layout::at_most;
use crate::line::{
    erase_before, erased, insert_at, inserted, step_left, step_right, stepped_left, stepped_right,
};
use crate::mode::{Key, Mode, Request, RequestView};
use crate::text::string_of;
use crate::width::{columns, seq_width, str_width};
use vstd::prelude::*;
use vstd::string::StringExecFns;

verus! {

/// The heading of the save-as mode.
pub const SAVE_TITLE: &'static str = "[名前を付けて保存]";

/// Printed before the file name that is being typed.
pub const NAME_PROMPT: &'static str = "ファイル名を入力 > ";

/// Asked after the path of a file that would be overwritten.
pub const OVERWRITE_QUESTION: &'static str = "このファイルは既に存在します。上書きしますか？(y/n)";

/// What the keys of the save-as mode act on.
#[derive(Clone, Copy, Debug, PartialEq, Eq, Structural)]
pub enum InputMode {
    /// Browsing the listing.
    Select,
    /// Typing a file name.
    Write,
    /// Asked whether the selected file may be overwritten.
    Check,
}

/// What the save-as mode holds.
pub struct WritePathView {
    /// The file name typed so far.
    pub path: Seq<char>,
    /// The display column of the cursor within the file name.
    pub x: usize,
    /// The message on the last row.
    pub msg: Seq<char>,
    /// Whether the message is a warning.
    pub warning: bool,
    /// What the keys act on.
    pub input_mode: InputMode,
}

/// The message that asks whether the file at `path` may be overwritten.
pub open spec fn overwrite_msg(path: Seq<char>) -> Seq<char> {
    path + seq![' '] + OVERWRITE_QUESTION@
}

impl WritePathView {
    /// The state at the start: no file name typed, the keys typing, and
    /// `msg` as the message.
    pub open spec fn initial(msg: Seq<char>) -> WritePathView {
        WritePathView {
            path: Seq::<char>::empty(),
            x: 0,
            msg,
            warning: false,
            input_mode: InputMode::Write,
        }
    }

    /// The cursor stands at a column within the file name.
    pub open spec fn valid(self) -> bool {
        self.x <= seq_width(self.path)
    }

    /// The path that a key asks to save to, if it asks for that: enter
    /// while a non-empty file name is being typed asks for that name, and
    /// `y` in answer to the overwrite question asks for the selected file.
    pub open spec fn saves(self, key: Key, dir: DirView) -> Option<Seq<char>> {
        if key == Key::Enter && self.input_mode == InputMode::Write && self.path.len() > 0 {
            Some(self.path)
        } else if key == Key::Char('y') && self.input_mode == InputMode::Check {
            match dir.selected() {
                SelectedView::File(p) => Some(p),
                _ => None,
            }
        } else {
            None
        }
    }

    /// The state with another input mode.
    pub open spec fn with_mode(self, input_mode: InputMode) -> WritePathView {
        WritePathView { input_mode, ..self }
    }

    /// The state as the cancel shortcut leaves it: the file name typed so
    /// far is discarded, and the keys type again when the mode is next
    /// entered.
    pub open spec fn cancelled(self) -> WritePathView {
        WritePathView { path: Seq::<char>::empty(), x: 0, input_mode: InputMode::Write, ..self }
    }

    /// The state after a key in the save-as mode. A key that is not listed
    /// for the input mode changes nothing.
    pub open spec fn after_key(self, key: Key, dir: DirView) -> WritePathView {
        if key == Key::Ctrl('c') {
            self.cancelled()
        } else if self.saves(key, dir) is Some {
            self.with_mode(InputMode::Write)
        } else if key == Key::Esc {
            self.with_mode(InputMode::Select)
        } else {
            match self.input_mode {
                InputMode::Select => match key {
                    Key::Tab => self.with_mode(InputMode::Write),
                    Key::Enter => match dir.selected() {
                        SelectedView::File(p) => WritePathView {
                            msg: overwrite_msg(p),
                            warning: true,
                            input_mode: InputMode::Check,
                            ..self
                        },
                        _ => self,
                    },
                    _ => self,
                },
                InputMode::Write => match key {
                    Key::Tab => self.with_mode(InputMode::Select),
                    Key::Left => WritePathView { x: stepped_left(self.path, self.x), ..self },
                    Key::Right => WritePathView { x: stepped_right(self.path, self.x), ..self },
                    Key::Backspace => WritePathView {
                        path: erased(self.path, self.x).0,
                        x: erased(self.path, self.x).1,
                        ..self
                    },
                    Key::Char(c) => WritePathView {
                        path: inserted(self.path, self.x, c).0,
                        x: inserted(self.path, self.x, c).1,
                        ..self
                    },
                    _ => self,
                },
                InputMode::Check => if key == Key::Char('n') {
                    self.with_mode(InputMode::Select)
                } else {
                    self
                },
            }
        }
    }

    /// The mode after a key in the save-as mode: the cancel shortcut and a
    /// key that asks to save lead back to editing; any other key leaves the
    /// mode as it is.
    pub open spec fn mode_after_key(self, mode: Mode, key: Key, dir: DirView) -> Mode {
        if key == Key::Ctrl('c') || self.saves(key, dir) is Some {
            Mode::Normal
        } else {
            mode
        }
    }

    /// The listing after a key in the save-as mode: while browsing, up and
    /// down move the selection; otherwise the listing stays as it is.
    pub open spec fn dir_after_key(self, key: Key, dir: DirView) -> DirView {
        if self.input_mode == InputMode::Select && key == Key::Up {
            dir.up()
        } else if self.input_mode == InputMode::Select && key == Key::Down {
            dir.down()
        } else {
            dir
        }
    }

    /// What a key in the save-as mode asks for: to save where it asks for
    /// that; to list the parent or the subdirectory that enter selects while
    /// browsing; and nothing otherwise.
    pub open spec fn request_after_key(self, key: Key, dir: DirView) -> RequestView {
        match self.saves(key, dir) {
            Some(p) => RequestView::Save(p),
            None => if key == Key::Enter && self.input_mode == InputMode::Select {
                match dir.selected() {
                    SelectedView::Parent(p) => RequestView::List(p),
                    SelectedView::Directory(p) => RequestView::List(p),
                    _ => RequestView::Nothing,
                }
            } else {
                RequestView::Nothing
            },
        }
    }
}

/// What the save-as mode draws.
pub struct WritePathOutput {
    /// The heading, on the first row.
    pub title: String,
    /// The listing, from the second row on.
    pub rows: Vec<DirRow>,
    /// Whether the terminal cursor is shown: only while a name is typed.
    pub show_cursor: bool,
    /// The prompt and the file name typed so far, on the last row but one.
    pub prompt: String,
    /// The display column of the terminal cursor on that row.
    pub cursor_col: u16,
    /// The message, on the last row.
    pub msg: String,
    /// Whether the message is drawn as a warning.
    pub warning: bool,
}

/// The save-as mode.
pub struct WritePath {
    cursor: Cursor,
    msg: String,
    warning: bool,
    input_mode: InputMode,
    path: Vec<char>,
}

impl View for WritePath {
    type V = WritePathView;

    closed spec fn view(&self) -> WritePathView {
        WritePathView {
            path: self.path@,
            x: self.cursor.x,
            msg: self.msg@,
            warning: self.warning,
            input_mode: self.input_mode,
        }
    }
}

impl WritePath {
    /// The cursor always stands within the file name.
    #[verifier::type_invariant]
    pub open spec fn inv(self) -> bool {
        self@.valid()
    }

    /// The save-as mode as it starts: no file name typed, the keys typing,
    /// and the path of the working directory as the message.
    pub fn new(msg: String) -> (w: WritePath)
        ensures
            w@ == WritePathView::initial(msg@),
            w@.valid(),
    {
        WritePath {
            cursor: Cursor::new(),
            msg,
            warning: false,
            input_mode: InputMode::Write,
            path: Vec::new(),
        }
    }

    /// What the keys act on.
    pub fn input_mode(&self) -> (m: InputMode)
        ensures
            m == self@.input_mode,
    {
        self.input_mode
    }

    /// The file name typed so far.
    pub fn path(&self) -> (p: String)
        ensures
            p@ == self@.path,
    {
        let p = string_of(self.path.as_slice(), 0, self.path.len());
        p
    }

    /// The display column of the cursor within the file name.
    pub fn cursor(&self) -> (c: Cursor)
        ensures
            c.x == self@.x,
            self@.valid(),
    {
        proof {
            use_type_invariant(self);
        }
        self.cursor
    }

    /// What to draw: the heading, the listing with the selection shown
    /// unless a name is being typed, the prompt with the name, the cursor
    /// after the prompt at the cursor's column, and the message.
    pub fn output(&self, dir: &Dir) -> (out: WritePathOutput)
        ensures
            out.title@ == SAVE_TITLE@,
            dir_rows_view(out.rows@) == dir_rows(dir@, self@.input_mode != InputMode::Write),
            out.show_cursor == (self@.input_mode == InputMode::Write),
            out.prompt@ == NAME_PROMPT@ + self@.path,
            out.cursor_col == at_most((columns(NAME_PROMPT@) + self@.x) as nat, u16::MAX as nat),
            out.msg@ == self@.msg,
            out.warning == self@.warning,
    {
        let typing = match self.input_mode {
            InputMode::Write => true,
            _ => false,
        };
        let mut prompt = NAME_PROMPT.to_owned();
        let name = self.path();
        prompt.append(name.as_str());
        let col = str_width(NAME_PROMPT).saturating_add(self.cursor.x);
        let col: usize = if col <= 0xffff {
            col
        } else {
            0xffff
        };
        WritePathOutput {
            title: SAVE_TITLE.to_owned(),
            rows: dir.output(!typing),
            show_cursor: typing,
            prompt,
            cursor_col: col as u16,
            msg: self.msg.clone(),
            warning: self.warning,
        }
    }

    /// Handles one key in the save-as mode. Tab switches between browsing
    /// and typing, escape leads to browsing, the cancel shortcut back to
    /// editing with the typed name discarded. While browsing, up and down
    /// move the selection and enter asks for the selected directory to be
    /// listed or, on a file, whether it may be overwritten. While typing,
    /// the keys edit the file name and enter asks to save to it. After the
    /// overwrite question, `y` asks to save to the selected file and `n`
    /// leads back to browsing. Any other key changes nothing.
    pub fn input(&mut self, key: Key, mode: &mut Mode, dir: &mut Dir) -> (r: Request)
        ensures
            final(self)@ == old(self)@.after_key(key, old(dir)@),
            final(self)@.valid(),
            *final(mode) == old(self)@.mode_after_key(*old(mode), key, old(dir)@),
            final(dir)@ == old(self)@.dir_after_key(key, old(dir)@),
            final(dir)@.valid(),
            r@ == old(self)@.request_after_key(key, old(dir)@),
    {
        proof {
            use_type_invariant(&*self);
            use_type_invariant(&*dir);
        }
        match key {
            Key::Ctrl(c) => {
                if c == 'c' {
                    self.cancel(mode);
                }
                return Request::Nothing;
            },
            Key::Esc => {
                self.input_mode = InputMode::Select;
                return Request::Nothing;
            },
            _ => {},
        }
        match self.input_mode {
            InputMode::Select => match key {
                Key::Tab => {
                    self.input_mode = InputMode::Write;
                    Request::Nothing
                },
                Key::Up => {
                    dir.up();
                    Request::Nothing
                },
                Key::Down => {
                    dir.down();
                    Request::Nothing
                },
                Key::Enter => self.select(dir),
                _ => Request::Nothing,
            },
            InputMode::Write => match key {
                Key::Tab => {
                    self.input_mode = InputMode::Select;
                    Request::Nothing
                },
                Key::Left => {
                    self.left();
                    Request::Nothing
                },
                Key::Right => {
                    self.right();
                    Request::Nothing
                },
                Key::Backspace => {
                    self.delete();
                    Request::Nothing
                },
                Key::Enter => {
                    if self.path.len() > 0 {
                        let path = self.path();
                        self.back(mode);
                        Request::Save(path)
                    } else {
                        Request::Nothing
                    }
                },
                Key::Char(c) => {
                    self.typing(c);
                    Request::Nothing
                },
                _ => Request::Nothing,
            },
            InputMode::Check => match key {
                Key::Char(c) => {
                    if c == 'y' {
                        match dir.selected() {
                            Selected::File(p) => {
                                self.back(mode);
                                Request::Save(p)
                            },
                            _ => Request::Nothing,
                        }
                    } else if c == 'n' {
                        self.input_mode = InputMode::Select;
                        Request::Nothing
                    } else {
                        Request::Nothing
                    }
                },
                _ => Request::Nothing,
            },
        }
    }

    /// Backspace in the file name: removes the character before the cursor.
    pub fn delete(&mut self)
        ensures
            final(self)@ == (WritePathView {
                path: erased(old(self)@.path, old(self)@.x).0,
                x: erased(old(self)@.path, old(self)@.x).1,
                ..old(self)@
            }),
            final(self)@.valid(),
    {
        proof {
            use_type_invariant(&*self);
        }
        let x = self.cursor.x;
        let y = self.cursor.y;
        self.cursor = Cursor { x: 0, y };
        let mut path: Vec<char> = Vec::new();
        core::mem::swap(&mut self.path, &mut path);
        let x = erase_before(&mut path, x);
        self.path = path;
        self.cursor = Cursor { x, y };
    }

    /// Left in the file name: one character back.
    pub fn left(&mut self)
        ensures
            final(self)@ == (WritePathView {
                x: stepped_left(old(self)@.path, old(self)@.x),
                ..old(self)@
            }),
            final(self)@.valid(),
    {
        proof {
            use_type_invariant(&*self);
        }
        let x = step_left(self.path.as_slice(), self.cursor.x);
        self.cursor = Cursor { x, y: self.cursor.y };
    }

    /// Right in the file name: one character on.
    pub fn right(&mut self)
        ensures
            final(self)@ == (WritePathView {
                x: stepped_right(old(self)@.path, old(self)@.x),
                ..old(self)@
            }),
            final(self)@.valid(),
    {
        proof {
            use_type_invariant(&*self);
        }
        let x = step_right(self.path.as_slice(), self.cursor.x);
        self.cursor = Cursor { x, y: self.cursor.y };
    }

    /// Types `c` into the file name at the cursor.
    pub fn typing(&mut self, c: char)
        ensures
            final(self)@ == (WritePathView {
                path: inserted(old(self)@.path, old(self)@.x, c).0,
                x: inserted(old(self)@.path, old(self)@.x, c).1,
                ..old(self)@
            }),
            final(self)@.valid(),
    {
        proof {
            use_type_invariant(&*self);
        }
        let x = self.cursor.x;
        let y = self.cursor.y;
        self.cursor = Cursor { x: 0, y };
        let mut path: Vec<char> = Vec::new();
        core::mem::swap(&mut self.path, &mut path);
        let x = insert_at(&mut path, x, c);
        self.path = path;
        self.cursor = Cursor { x, y };
    }

    /// Leaves the save-as mode for editing and discards the file name typed
    /// so far.
    pub fn cancel(&mut self, mode: &mut Mode)
        ensures
            final(self)@ == old(self)@.cancelled(),
            final(self)@.valid(),
            *final(mode) == Mode::Normal,
    {
        proof {
            use_type_invariant(&*self);
        }
        self.cursor = Cursor::new();
        self.path = Vec::new();
        self.back(mode);
    }

    /// Leaves the save-as mode for editing; the keys type again when the
    /// mode is next entered.
    pub fn back(&mut self, mode: &mut Mode)
        ensures
            final(self)@ == old(self)@.with_mode(InputMode::Write),
            final(self)@.valid(),
            *final(mode) == Mode::Normal,
    {
        proof {
            use_type_invariant(&*self);
        }
        self.input_mode = InputMode::Write;
        *mode = Mode::Normal;
    }

    /// Enter while browsing: the parent or a subdirectory is to be listed;
    /// on a file, the overwrite question is asked.
    pub fn select(&mut self, dir: &Dir) -> (r: Request)
        ensures
            final(self)@ == match dir@.selected() {
                SelectedView::File(p) => WritePathView {
                    msg: overwrite_msg(p),
                    warning: true,
                    input_mode: InputMode::Check,
                    ..old(self)@
                },
                _ => old(self)@,
            },
            final(self)@.valid(),
            r@ == match dir@.selected() {
                SelectedView::Parent(p) => RequestView::List(p),
                SelectedView::Directory(p) => RequestView::List(p),
                _ => RequestView::Nothing,
            },
    {
        proof {
            use_type_invariant(&*self);
        }
        match dir.selected() {
            Selected::Parent(p) => Request::List(p),
            Selected::Stay => Request::Nothing,
            Selected::Directory(p) => Request::List(p),
            Selected::File(p) => {
                let ghost chosen = p@;
                let mut msg = p;
                msg.push(' ');
                msg.append(OVERWRITE_QUESTION);
                proof {
                    assert(msg@ =~= overwrite_msg(chosen));
                }
                self.msg = msg;
                self.warning = true;
                self.input_mode = InputMode::Check;
                Request::Nothing
            },
        }
    }

    /// Takes the children read for a list request: the listing shows them,
    /// with the selection on the parent entry, and the message is the path
    /// of the listed directory.
    pub fn set(
        &mut self,
        dir: &mut Dir,
        dir_path: String,
        parent: Option<String>,
        children: Vec<Entry>,
    )
        ensures
            final(self)@ == (WritePathView { msg: dir_path@, warning: false, ..old(self)@ }),
            final(self)@.valid(),
            final(dir)@ == old(dir)@.listed(dir_path@, opt_view(parent), entries_view(children@)),
            final(dir)@.valid(),
    {
        proof {
            use_type_invariant(&*self);
        }
        self.msg = dir_path.clone();
        self.warning = false;
        dir.set(dir_path, parent, children);
    }
}

} // verus!
