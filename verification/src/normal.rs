//! The editing mode: the document, its cursor and scroll offset, the edits
//! and movements that keys ask for, and what is drawn.

use crate::cursor::Cursor;
use crate::dir::Dir;
use crate::layout::{
    at_most, cursor_col_of, cursor_row_of, display_rows, first_n, physical_col, physical_row,
    row_limit, rows_from, rows_view, usable_of, Row, RowView,
};
use crate::line::{
    boundary, erase_before, erased, insert_at, inserted, lemma_erased_valid,
    lemma_insert_then_erase, lemma_inserted_valid, lemma_split_index, min_col, split_index,
    step_left, step_right, stepped_left, stepped_right,
};
use crate::mode::{Key, Mode};
use crate::text::{
    copy_lines, lines_of_strings, lines_view, same_lines, strings_of_lines, strings_view,
};
use crate::width::{chars_width, columns, lemma_width_concat, seq_width, spec_char_width};
use crate::wrap::{digit_count, digits, usable_width};
use vstd::prelude::*;
use vstd::string::StringExecFns;

verus! {

/// Shown in the status line while the document has no path.
pub const UNTITLED: &'static str = "無題";

/// Shown in the status line while the document differs from what was saved.
pub const MODIFIED: &'static str = "変更済み";

/// What the editing mode holds.
pub struct NormalView {
    /// The logical lines of the document.
    pub lines: Seq<Seq<char>>,
    /// The cursor: a line and a display column within it.
    pub cursor: Cursor,
    /// The scroll offset: the first logical line that is drawn.
    pub offset: usize,
    /// The lines as they were last saved or loaded.
    pub saved: Seq<Seq<char>>,
    /// The viewport, in character cells.
    pub width: u16,
    pub height: u16,
}

/// The scroll offset after the cursor came down to `cursor`: one line
/// further where the cursor's display row would reach the status row.
pub open spec fn offset_after_down(
    lines: Seq<Seq<char>>,
    cursor: Cursor,
    offset: usize,
    width: u16,
    height: u16,
) -> usize {
    if physical_row(lines, cursor, offset, usable_width(width as nat, lines.len())) + 1 >= height {
        (offset + 1) as usize
    } else {
        offset
    }
}

/// The scroll offset after the cursor went up to `cursor`: one line back
/// where the cursor passed the top of the viewport.
pub open spec fn offset_after_up(cursor: Cursor, offset: usize) -> usize {
    if cursor.y < offset {
        (offset - 1) as usize
    } else {
        offset
    }
}

/// The document that a buffer gives: its lines, and one empty line where it
/// has none.
pub open spec fn initial_lines(b: Seq<Seq<char>>) -> Seq<Seq<char>> {
    if b.len() == 0 {
        seq![Seq::<char>::empty()]
    } else {
        b
    }
}

/// The text of the status line: the path in brackets, or the placeholder
/// while there is none, and the modified token while the document differs
/// from what was saved.
pub open spec fn status_line(path: Seq<char>, modified: bool) -> Seq<char> {
    seq!['['] + (if path.len() == 0 {
        UNTITLED@
    } else {
        path
    }) + seq![']'] + (if modified {
        MODIFIED@
    } else {
        Seq::<char>::empty()
    })
}

impl NormalView {
    /// The state at the start: the document that a buffer gives, taken as
    /// saved, the cursor at its start, and nothing scrolled.
    pub open spec fn initial(b: Seq<Seq<char>>, width: u16, height: u16) -> NormalView {
        NormalView {
            lines: initial_lines(b),
            cursor: Cursor { x: 0, y: 0 },
            offset: 0,
            saved: initial_lines(b),
            width,
            height,
        }
    }

    /// The document has a line, the cursor stands on a line of it, at a
    /// column within that line, and the scroll offset is not below the
    /// cursor.
    pub open spec fn valid(self) -> bool {
        &&& 1 <= self.lines.len() <= usize::MAX
        &&& self.cursor.y < self.lines.len()
        &&& self.cursor.x <= seq_width(self.line())
        &&& self.offset <= self.cursor.y
    }

    /// The line that the cursor stands on.
    pub open spec fn line(self) -> Seq<char> {
        self.lines[self.cursor.y as int]
    }

    /// The columns left for text beside the gutter.
    pub open spec fn usable(self) -> nat {
        usable_width(self.width as nat, self.lines.len())
    }

    /// Whether the document differs from what was saved.
    pub open spec fn modified(self) -> bool {
        self.lines != self.saved
    }

    /// The display row of the cursor, counted from the top of the viewport.
    pub open spec fn cursor_row(self) -> nat {
        physical_row(self.lines, self.cursor, self.offset, self.usable())
    }

    /// The display column of the cursor, counted from the left edge.
    pub open spec fn cursor_col(self) -> nat {
        physical_col(self.lines, self.cursor, self.usable())
    }

    /// The rows that are drawn: the display rows of the lines from the
    /// scroll offset on, as many as the viewport holds above the status row.
    pub open spec fn visible_rows(self) -> Seq<RowView> {
        first_n(
            display_rows(self.lines, self.offset as int, self.lines.len() as int, self.usable()),
            row_limit(self.height),
        )
    }

    /// The state with the cursor at `cursor`, one line below where it was,
    /// and the scroll offset adjusted to it.
    pub open spec fn down_to(self, cursor: Cursor) -> NormalView {
        NormalView {
            cursor,
            offset: offset_after_down(self.lines, cursor, self.offset, self.width, self.height),
            ..self
        }
    }

    /// The state with the cursor at `cursor`, one line above where it was,
    /// and the scroll offset adjusted to it.
    pub open spec fn up_to(self, cursor: Cursor) -> NormalView {
        NormalView { cursor, offset: offset_after_up(cursor, self.offset), ..self }
    }

    /// The state after typing `c`.
    pub open spec fn typed(self, c: char) -> NormalView {
        let r = inserted(self.line(), self.cursor.x, c);
        NormalView {
            lines: self.lines.update(self.cursor.y as int, r.0),
            cursor: Cursor { x: r.1, y: self.cursor.y },
            ..self
        }
    }

    /// The state after a backspace: within a line, the character before the
    /// cursor goes; at the start of a line, the line is joined onto the end
    /// of the one before, where the cursor then stands; at the start of the
    /// document nothing changes.
    pub open spec fn deleted(self) -> NormalView {
        let y = self.cursor.y as int;
        if self.cursor.x > 0 {
            let r = erased(self.line(), self.cursor.x);
            NormalView {
                lines: self.lines.update(y, r.0),
                cursor: Cursor { x: r.1, y: self.cursor.y },
                ..self
            }
        } else if y > 0 {
            let cursor = Cursor { x: columns(self.lines[y - 1]), y: (y - 1) as usize };
            NormalView {
                lines: self.lines.update(y - 1, self.lines[y - 1] + self.lines[y]).remove(y),
                cursor,
                offset: offset_after_up(cursor, self.offset),
                ..self
            }
        } else {
            self
        }
    }

    /// The state after a newline: the line is split at the cursor into two
    /// lines that take its place, and the cursor stands at the start of the
    /// second.
    pub open spec fn broken(self) -> NormalView {
        let y = self.cursor.y as int;
        let k = split_index(self.line(), self.cursor.x as nat);
        let lines = self.lines.update(y, self.line().take(k)).insert(y + 1, self.line().skip(k));
        NormalView { lines, ..self }.down_to(Cursor { x: 0, y: (y + 1) as usize })
    }

    /// The state after a step to the left: one character back, or to the end
    /// of the line before from the start of a line.
    pub open spec fn moved_left(self) -> NormalView {
        let y = self.cursor.y as int;
        if self.cursor.x > 0 {
            NormalView {
                cursor: Cursor { x: stepped_left(self.line(), self.cursor.x), y: self.cursor.y },
                ..self
            }
        } else if y > 0 {
            self.up_to(Cursor { x: columns(self.lines[y - 1]), y: (y - 1) as usize })
        } else {
            self
        }
    }

    /// The state after a step to the right: one character on, or to the
    /// start of the next line from the end of a line.
    pub open spec fn moved_right(self) -> NormalView {
        let y = self.cursor.y as int;
        if self.cursor.x < columns(self.line()) {
            NormalView {
                cursor: Cursor { x: stepped_right(self.line(), self.cursor.x), y: self.cursor.y },
                ..self
            }
        } else if y + 1 < self.lines.len() {
            self.down_to(Cursor { x: 0, y: (y + 1) as usize })
        } else {
            self
        }
    }

    /// The state after a step up: the line before, the column held to its
    /// width; on the first line, the start of the line.
    pub open spec fn moved_up(self) -> NormalView {
        let y = self.cursor.y as int;
        if y > 0 {
            self.up_to(
                Cursor {
                    x: min_col(self.cursor.x, columns(self.lines[y - 1])),
                    y: (y - 1) as usize,
                },
            )
        } else {
            NormalView { cursor: Cursor { x: 0, y: self.cursor.y }, ..self }
        }
    }

    /// The state after a step down: the next line, the column held to its
    /// width; on the last line, the end of the line.
    pub open spec fn moved_down(self) -> NormalView {
        let y = self.cursor.y as int;
        if y + 1 < self.lines.len() {
            self.down_to(
                Cursor {
                    x: min_col(self.cursor.x, columns(self.lines[y + 1])),
                    y: (y + 1) as usize,
                },
            )
        } else {
            NormalView { cursor: Cursor { x: columns(self.line()), y: self.cursor.y }, ..self }
        }
    }

    /// The state with another document: the cursor at its start, nothing
    /// scrolled, and the document taken as saved.
    pub open spec fn replaced(self, b: Seq<Seq<char>>) -> NormalView {
        NormalView {
            lines: initial_lines(b),
            cursor: Cursor { x: 0, y: 0 },
            offset: 0,
            saved: initial_lines(b),
            ..self
        }
    }

    /// The state after a key in the editing mode. A key that is not listed
    /// changes nothing.
    pub open spec fn after_key(self, key: Key) -> NormalView {
        match key {
            Key::Backspace => self.deleted(),
            Key::Char(c) => self.typed(c),
            Key::Up => self.moved_up(),
            Key::Down => self.moved_down(),
            Key::Left => self.moved_left(),
            Key::Right => self.moved_right(),
            Key::Enter => self.broken(),
            _ => self,
        }
    }
}

/// The mode after a key in the editing mode: the open shortcut leads to the
/// open mode; the save-as shortcut, and the save shortcut while no path is
/// known, lead to the save-as mode; any other key leaves the mode as it is.
pub open spec fn mode_after_key(mode: Mode, key: Key, path_known: bool) -> Mode {
    if key == Key::Ctrl('o') {
        Mode::Open
    } else if key == Key::Ctrl('a') || (key == Key::Ctrl('s') && !path_known) {
        Mode::WritePath
    } else {
        mode
    }
}

/// The path to save to after a key in the editing mode: the known path for
/// the save shortcut, and none, written as the empty path, otherwise.
pub open spec fn save_path_after_key(key: Key, path: Seq<char>) -> Seq<char> {
    if key == Key::Ctrl('s') {
        path
    } else {
        Seq::<char>::empty()
    }
}

/// What the editing mode draws.
pub struct NormalOutput {
    /// The display rows, from the top.
    pub rows: Vec<Row>,
    /// The width of the gutter: the text of every row starts after it.
    pub gutter: u16,
    /// The status line, on the last row.
    pub msg: String,
    /// The display column and display row of the terminal cursor.
    pub cursor: (u16, u16),
}

/// The editing mode.
pub struct Normal {
    cursor: Cursor,
    buffer: Vec<Vec<char>>,
    buffer0: Vec<Vec<char>>,
    buffer_offset: usize,
    width: u16,
    height: u16,
}

impl View for Normal {
    type V = NormalView;

    closed spec fn view(&self) -> NormalView {
        NormalView {
            lines: lines_view(self.buffer@),
            cursor: self.cursor,
            offset: self.buffer_offset,
            saved: lines_view(self.buffer0@),
            width: self.width,
            height: self.height,
        }
    }
}

impl Normal {
    /// The cursor always stands within the document, and the scroll offset
    /// never below it.
    #[verifier::type_invariant]
    pub open spec fn inv(self) -> bool {
        self@.valid()
    }

    /// The editing mode for the document that `buffer` gives, in a viewport
    /// of the given size: the cursor at the start, nothing scrolled, and
    /// the document taken as saved.
    pub fn new(buffer: Vec<String>, width: u16, height: u16) -> (n: Normal)
        ensures
            n@.valid(),
            n@ == NormalView::initial(strings_view(buffer@), width, height),
    {
        let mut lines = lines_of_strings(&buffer);
        if lines.len() == 0 {
            lines.push(Vec::new());
        }
        proof {
            assert(lines_view(lines@) =~= initial_lines(strings_view(buffer@)));
        }
        let buffer0 = copy_lines(&lines);
        Normal {
            cursor: Cursor { x: 0, y: 0 },
            buffer: lines,
            buffer0,
            buffer_offset: 0,
            width,
            height,
        }
    }

    /// Replaces the document: the cursor goes to its start, nothing is
    /// scrolled, and the new document is taken as saved.
    pub fn set_buffer(&mut self, buffer: Vec<String>)
        ensures
            final(self)@ == old(self)@.replaced(strings_view(buffer@)),
            final(self)@.valid(),
    {
        proof {
            use_type_invariant(&*self);
        }
        let mut lines = lines_of_strings(&buffer);
        if lines.len() == 0 {
            lines.push(Vec::new());
        }
        proof {
            assert(lines_view(lines@) =~= initial_lines(strings_view(buffer@)));
        }
        self.buffer_offset = 0;
        self.cursor = Cursor::new();
        self.buffer = lines;
        self.update();
    }

    /// Takes the viewport size for the coming tick.
    pub fn set_data(&mut self, width: u16, height: u16)
        ensures
            final(self)@ == (NormalView { width, height, ..old(self)@ }),
            final(self)@.valid(),
    {
        proof {
            use_type_invariant(&*self);
        }
        self.width = width;
        self.height = height;
    }

    /// Takes the document as saved.
    pub fn update(&mut self)
        ensures
            final(self)@ == (NormalView { saved: old(self)@.lines, ..old(self)@ }),
            final(self)@.valid(),
    {
        proof {
            use_type_invariant(&*self);
        }
        self.buffer0 = copy_lines(&self.buffer);
    }

    /// The lines of the document.
    pub fn buffer(&self) -> (b: Vec<String>)
        ensures
            strings_view(b@) == self@.lines,
            b.len() >= 1,
    {
        proof {
            use_type_invariant(self);
        }
        strings_of_lines(&self.buffer)
    }

    /// The number of lines of the document.
    pub fn line_count(&self) -> (n: usize)
        ensures
            n == self@.lines.len(),
            n >= 1,
    {
        proof {
            use_type_invariant(self);
        }
        self.buffer.len()
    }

    /// The cursor.
    pub fn cursor(&self) -> (c: Cursor)
        ensures
            c == self@.cursor,
            self@.valid(),
    {
        proof {
            use_type_invariant(self);
        }
        self.cursor
    }

    /// The scroll offset.
    pub fn buffer_offset(&self) -> (o: usize)
        ensures
            o == self@.offset,
    {
        self.buffer_offset
    }

    /// Whether the document differs from what was saved.
    pub fn modified(&self) -> (m: bool)
        ensures
            m == self@.modified(),
    {
        !same_lines(&self.buffer, &self.buffer0)
    }

    /// Hands out the lines, the cursor and the scroll offset, and leaves an
    /// empty document in their place.
    fn take_text(&mut self) -> (r: (Vec<Vec<char>>, Cursor, usize))
        ensures
            lines_view(r.0@) == old(self)@.lines,
            r.1 == old(self)@.cursor,
            r.2 == old(self)@.offset,
            old(self)@.valid(),
            final(self)@.saved == old(self)@.saved,
            final(self)@.width == old(self)@.width,
            final(self)@.height == old(self)@.height,
    {
        proof {
            use_type_invariant(&*self);
        }
        let cursor = self.cursor;
        let offset = self.buffer_offset;
        self.buffer_offset = 0;
        self.cursor = Cursor { x: 0, y: 0 };
        let mut buffer: Vec<Vec<char>> = Vec::new();
        buffer.push(Vec::new());
        core::mem::swap(&mut self.buffer, &mut buffer);
        (buffer, cursor, offset)
    }

    /// Takes lines, a cursor within them and a scroll offset not below it.
    fn put_text(&mut self, buffer: Vec<Vec<char>>, cursor: Cursor, offset: usize)
        requires
            cursor.y < buffer.len(),
            cursor.x <= seq_width(buffer[cursor.y as int]@),
            offset <= cursor.y,
        ensures
            final(self)@ == (NormalView {
                lines: lines_view(buffer@),
                cursor,
                offset,
                ..old(self)@
            }),
            final(self)@.valid(),
    {
        proof {
            use_type_invariant(&*self);
        }
        self.buffer_offset = 0;
        self.cursor = Cursor { x: 0, y: 0 };
        self.buffer = buffer;
        self.cursor = cursor;
        self.buffer_offset = offset;
    }

    /// Moves the cursor to a position within the document and the scroll
    /// offset to a line not below it.
    fn move_to(&mut self, cursor: Cursor, offset: usize)
        requires
            cursor.y < old(self)@.lines.len(),
            cursor.x <= seq_width(old(self)@.lines[cursor.y as int]),
            offset <= cursor.y,
        ensures
            final(self)@ == (NormalView { cursor, offset, ..old(self)@ }),
            final(self)@.valid(),
    {
        proof {
            use_type_invariant(&*self);
        }
        self.buffer_offset = 0;
        self.cursor = cursor;
        self.buffer_offset = offset;
    }

    /// The scroll offset after the cursor came down to `cursor`.
    fn move_down(&self, cursor: Cursor) -> (o: usize)
        requires
            cursor.y < self@.lines.len(),
            self@.offset < cursor.y,
        ensures
            o == offset_after_down(self@.lines, cursor, self@.offset, self@.width, self@.height),
            o <= cursor.y,
    {
        scroll_down(&self.buffer, cursor, self.buffer_offset, self.width, self.height)
    }

    /// The scroll offset after the cursor went up to `cursor`.
    fn move_up(&self, cursor: Cursor) -> (o: usize)
        requires
            self@.offset <= cursor.y + 1,
        ensures
            o == offset_after_up(cursor, self@.offset),
            o <= cursor.y,
    {
        if cursor.y < self.buffer_offset {
            self.buffer_offset - 1
        } else {
            self.buffer_offset
        }
    }

    /// Types `c` at the cursor: the line is split at the character boundary
    /// of the cursor's column, `c` goes between the halves, and the column
    /// advances by the width of `c`.
    pub fn typing(&mut self, c: char)
        ensures
            final(self)@ == old(self)@.typed(c),
            final(self)@.valid(),
    {
        let (mut buffer, cursor, offset) = self.take_text();
        let ghost before = lines_view(buffer@);
        let x = insert_at(&mut buffer[cursor.y], cursor.x, c);
        proof {
            assert(lines_view(buffer@) =~= before.update(
                cursor.y as int,
                inserted(before[cursor.y as int], cursor.x, c).0,
            ));
        }
        self.put_text(buffer, Cursor { x, y: cursor.y }, offset);
    }

    /// Backspace: removes the character before the cursor; at the start of a
    /// line joins the line onto the end of the one before; at the start of
    /// the document does nothing.
    pub fn delete(&mut self)
        ensures
            final(self)@ == old(self)@.deleted(),
            final(self)@.valid(),
    {
        let (mut buffer, cursor, offset) = self.take_text();
        let ghost before = lines_view(buffer@);
        if 0 < cursor.x {
            let x = erase_before(&mut buffer[cursor.y], cursor.x);
            proof {
                assert(lines_view(buffer@) =~= before.update(
                    cursor.y as int,
                    erased(before[cursor.y as int], cursor.x).0,
                ));
            }
            self.put_text(buffer, Cursor { x, y: cursor.y }, offset);
        } else if 0 < cursor.y {
            let y = cursor.y;
            let mut line = buffer.remove(y);
            let x = chars_width(buffer[y - 1].as_slice());
            buffer[y - 1].append(&mut line);
            let moved = Cursor { x, y: y - 1 };
            let o = if moved.y < offset {
                offset - 1
            } else {
                offset
            };
            proof {
                let joined = before[y - 1] + before[y as int];
                assert(lines_view(buffer@) =~= before.update(y - 1, joined).remove(y as int));
                lemma_width_concat(before[y - 1], before[y as int]);
            }
            self.put_text(buffer, moved, o);
        } else {
            self.put_text(buffer, cursor, offset);
        }
    }

    /// Newline: splits the line at the cursor into two lines that take its
    /// place and puts the cursor at the start of the second.
    pub fn new_line(&mut self)
        ensures
            final(self)@ == old(self)@.broken(),
            final(self)@.valid(),
    {
        let width = self.width;
        let height = self.height;
        let (mut buffer, cursor, offset) = self.take_text();
        let ghost before = lines_view(buffer@);
        let y = cursor.y;
        let k = boundary(buffer[y].as_slice(), cursor.x);
        let rest = buffer[y].split_off(k);
        buffer.insert(y + 1, rest);
        let moved = Cursor { x: 0, y: y + 1 };
        proof {
            let line = before[y as int];
            assert(lines_view(buffer@) =~= before.update(y as int, line.take(k as int)).insert(
                y + 1,
                line.skip(k as int),
            ));
        }
        let o = scroll_down(&buffer, moved, offset, width, height);
        self.put_text(buffer, moved, o);
    }

    /// Up: to the line before, the column held to its width; on the first
    /// line, to the start of the line.
    pub fn up(&mut self)
        ensures
            final(self)@ == old(self)@.moved_up(),
            final(self)@.valid(),
    {
        proof {
            use_type_invariant(&*self);
        }
        let cursor = self.cursor;
        if 0 < cursor.y {
            let size = chars_width(self.buffer[cursor.y - 1].as_slice());
            let x = if cursor.x <= size {
                cursor.x
            } else {
                size
            };
            let moved = Cursor { x, y: cursor.y - 1 };
            let o = self.move_up(moved);
            self.move_to(moved, o);
        } else {
            self.move_to(Cursor { x: 0, y: cursor.y }, self.buffer_offset);
        }
    }

    /// Down: to the next line, the column held to its width; on the last
    /// line, to the end of the line.
    pub fn down(&mut self)
        ensures
            final(self)@ == old(self)@.moved_down(),
            final(self)@.valid(),
    {
        proof {
            use_type_invariant(&*self);
        }
        let cursor = self.cursor;
        if cursor.y + 1 < self.buffer.len() {
            let size = chars_width(self.buffer[cursor.y + 1].as_slice());
            let x = if cursor.x <= size {
                cursor.x
            } else {
                size
            };
            let moved = Cursor { x, y: cursor.y + 1 };
            let o = self.move_down(moved);
            self.move_to(moved, o);
        } else {
            let size = chars_width(self.buffer[cursor.y].as_slice());
            self.move_to(Cursor { x: size, y: cursor.y }, self.buffer_offset);
        }
    }

    /// Left: one character back; from the start of a line, to the end of
    /// the line before.
    pub fn left(&mut self)
        ensures
            final(self)@ == old(self)@.moved_left(),
            final(self)@.valid(),
    {
        proof {
            use_type_invariant(&*self);
        }
        let cursor = self.cursor;
        if 0 < cursor.x {
            let x = step_left(self.buffer[cursor.y].as_slice(), cursor.x);
            self.move_to(Cursor { x, y: cursor.y }, self.buffer_offset);
        } else if 0 < cursor.y {
            let x = chars_width(self.buffer[cursor.y - 1].as_slice());
            let moved = Cursor { x, y: cursor.y - 1 };
            let o = self.move_up(moved);
            self.move_to(moved, o);
        }
    }

    /// Right: one character on; from the end of a line, to the start of the
    /// next line.
    pub fn right(&mut self)
        ensures
            final(self)@ == old(self)@.moved_right(),
            final(self)@.valid(),
    {
        proof {
            use_type_invariant(&*self);
        }
        let cursor = self.cursor;
        let size = chars_width(self.buffer[cursor.y].as_slice());
        if cursor.x < size {
            let x = step_right(self.buffer[cursor.y].as_slice(), cursor.x);
            self.move_to(Cursor { x, y: cursor.y }, self.buffer_offset);
        } else if cursor.y + 1 < self.buffer.len() {
            let moved = Cursor { x: 0, y: cursor.y + 1 };
            let o = self.move_down(moved);
            self.move_to(moved, o);
        }
    }

    /// Handles one key in the editing mode. The editing keys change the
    /// document and the cursor; the shortcuts change the mode, ask for the
    /// document to be saved at the path returned, or ask to quit, which the
    /// flag returned says. Any other key changes nothing.
    pub fn input(&mut self, key: Key, mode: &mut Mode, dir: &Dir) -> (r: (String, bool))
        ensures
            final(self)@ == old(self)@.after_key(key),
            final(self)@.valid(),
            *final(mode) == mode_after_key(*old(mode), key, dir@.path.len() > 0),
            r.0@ == save_path_after_key(key, dir@.path),
            r.1 == (key == Key::Ctrl('q')),
    {
        proof {
            use_type_invariant(&*self);
        }
        let mut flag = false;
        let mut path = String::new();
        match key {
            Key::Backspace => {
                self.delete();
            },
            Key::Ctrl(c) => {
                if c == 'o' {
                    *mode = Mode::Open;
                } else if c == 's' {
                    if dir.path().as_str().is_empty() {
                        *mode = Mode::WritePath;
                    } else {
                        path = dir.path().clone();
                    }
                } else if c == 'a' {
                    *mode = Mode::WritePath;
                } else if c == 'q' {
                    flag = true;
                }
            },
            Key::Char(c) => {
                self.typing(c);
            },
            Key::Up => {
                self.up();
            },
            Key::Down => {
                self.down();
            },
            Key::Left => {
                self.left();
            },
            Key::Right => {
                self.right();
            },
            Key::Enter => {
                self.new_line();
            },
            _ => {},
        }
        (path, flag)
    }

    /// The rows to draw: the display rows of the lines from the scroll
    /// offset on, as many as the viewport holds above the status row.
    pub fn output_lines(&self) -> (rows: Vec<Row>)
        ensures
            rows_view(rows@) == self@.visible_rows(),
    {
        proof {
            use_type_invariant(self);
        }
        let usable = usable_of(self.width, self.buffer.len());
        let limit: usize = if self.height >= 1 {
            (self.height - 1) as usize
        } else {
            0
        };
        rows_from(&self.buffer, self.buffer_offset, usable, limit)
    }

    /// Where to put the terminal cursor: its display column and display row,
    /// each held to the largest value a terminal coordinate can have.
    pub fn output_cursor(&self) -> (at: (u16, u16))
        ensures
            at.0 == at_most(self@.cursor_col(), u16::MAX as nat),
            at.1 == at_most(self@.cursor_row(), u16::MAX as nat),
    {
        proof {
            use_type_invariant(self);
        }
        let usable = usable_of(self.width, self.buffer.len());
        let col = cursor_col_of(&self.buffer, self.cursor, usable, 0xffff);
        let row = cursor_row_of(&self.buffer, self.cursor, self.buffer_offset, usable, 0xffff);
        (col as u16, row as u16)
    }

    /// Everything to draw: the display rows, the width of the gutter beside
    /// them, the status line, and the place of the terminal cursor.
    pub fn output_all(&self, dir: &Dir) -> (out: NormalOutput)
        ensures
            rows_view(out.rows@) == self@.visible_rows(),
            out.gutter == digits(self@.lines.len()) + 1,
            out.msg@ == status_line(dir@.path, self@.modified()),
            out.cursor.0 == at_most(self@.cursor_col(), u16::MAX as nat),
            out.cursor.1 == at_most(self@.cursor_row(), u16::MAX as nat),
    {
        let gutter = digit_count(self.buffer.len()) + 1;
        NormalOutput {
            rows: self.output_lines(),
            gutter: gutter as u16,
            msg: self.output_msg(dir),
            cursor: self.output_cursor(),
        }
    }

    /// The text of the status line for the path that `dir` holds.
    pub fn output_msg(&self, dir: &Dir) -> (msg: String)
        ensures
            msg@ == status_line(dir@.path, self@.modified()),
    {
        let mut msg = String::new();
        msg.push('[');
        if dir.path().as_str().is_empty() {
            msg.append(UNTITLED);
        } else {
            msg.append(dir.path().as_str());
        }
        msg.push(']');
        if self.modified() {
            msg.append(MODIFIED);
        }
        msg
    }
}

/// The scroll offset after the cursor came down to `cursor`.
fn scroll_down(
    buffer: &Vec<Vec<char>>,
    cursor: Cursor,
    offset: usize,
    width: u16,
    height: u16,
) -> (o: usize)
    requires
        cursor.y < buffer.len(),
        offset < cursor.y,
    ensures
        o == offset_after_down(lines_view(buffer@), cursor, offset, width, height),
        o <= cursor.y,
{
    let usable = usable_of(width, buffer.len());
    let limit = height as usize;
    let row = cursor_row_of(buffer, cursor, offset, usable, limit);
    if row + 1 >= limit {
        offset + 1
    } else {
        offset
    }
}

/// Every key of the editing mode leaves the cursor on a line of the
/// document, at a column within that line, and the scroll offset not below
/// it. A newline needs room for one more line in the machine word.
pub proof fn lemma_after_key_valid(v: NormalView, key: Key)
    requires
        v.valid(),
        key == Key::Enter ==> v.lines.len() < usize::MAX,
    ensures
        v.after_key(key).valid(),
{
    let y = v.cursor.y as int;
    let x = v.cursor.x;
    let line = v.line();
    match key {
        Key::Backspace => {
            if x > 0 {
                lemma_erased_valid(line, x);
            } else if y > 0 {
                lemma_width_concat(v.lines[y - 1], line);
            }
        },
        Key::Char(c) => {
            lemma_inserted_valid(line, x, c);
        },
        _ => {},
    }
}

/// What is drawn depends on the document, the cursor, the scroll offset and
/// the viewport alone: laid out again from the same scroll offset, an
/// unmodified document gives the same display rows and the same display
/// position of the cursor.
pub proof fn lemma_layout_idempotent(a: NormalView, b: NormalView)
    requires
        a.lines == b.lines,
        a.cursor == b.cursor,
        a.offset == b.offset,
        a.width == b.width,
        a.height == b.height,
    ensures
        a.visible_rows() == b.visible_rows(),
        a.cursor_row() == b.cursor_row(),
        a.cursor_col() == b.cursor_col(),
{
}

/// Typing a character and then pressing backspace gives back the document
/// and the cursor, provided the character has a width, the cursor stood on
/// a character boundary or within the new character's width of one, and the
/// advanced column fits the machine word.
pub proof fn lemma_typed_then_deleted(v: NormalView, c: char)
    requires
        v.valid(),
        spec_char_width(c) > 0,
        seq_width(v.line().take(split_index(v.line(), v.cursor.x as nat))) < v.cursor.x
            + spec_char_width(c),
        v.cursor.x + spec_char_width(c) <= usize::MAX,
    ensures
        v.typed(c).deleted() == v,
{
    lemma_insert_then_erase(v.line(), v.cursor.x, c);
    assert(v.typed(c).deleted().lines =~= v.lines);
}

/// A newline and then a backspace give back the lines and the cursor,
/// provided the cursor stood on a character boundary.
pub proof fn lemma_broken_then_deleted(v: NormalView)
    requires
        v.valid(),
        columns(v.line().take(split_index(v.line(), v.cursor.x as nat))) == v.cursor.x,
    ensures
        v.broken().deleted().lines == v.lines,
        v.broken().deleted().cursor == v.cursor,
{
    let k = split_index(v.line(), v.cursor.x as nat);
    lemma_split_index(v.line(), v.cursor.x as nat);
    assert(v.line().take(k) + v.line().skip(k) =~= v.line());
}

} // verus!
