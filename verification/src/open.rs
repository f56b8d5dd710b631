//! The open mode: choosing a file to load from the entry listing.

use crate::dir::{
    dir_rows, dir_rows_view, Dir, DirRow, DirView, Entry, Selected, SelectedView, entries_view,
    opt_view,
};
use crate::mode::{Key, Mode, Request, RequestView};
use crate::normal::Normal;
use crate::text::strings_view;
use vstd::prelude::*;

verus! {

/// The heading of the open mode.
pub const OPEN_TITLE: &'static str = "[ファイルを開く]";

/// What selecting the current entry of a listing asks for in the open mode:
/// to list the parent or the subdirectory, or to load the file.
pub open spec fn open_request(s: SelectedView) -> RequestView {
    match s {
        SelectedView::Parent(p) => RequestView::List(p),
        SelectedView::Stay => RequestView::Nothing,
        SelectedView::Directory(p) => RequestView::List(p),
        SelectedView::File(p) => RequestView::Load(p),
    }
}

/// The mode after a key in the open mode: the cancel shortcut leads back to
/// editing; any other key leaves the mode as it is.
pub open spec fn open_mode_after_key(mode: Mode, key: Key) -> Mode {
    if key == Key::Ctrl('c') {
        Mode::Normal
    } else {
        mode
    }
}

/// The listing after a key in the open mode: up and down move the selection;
/// any other key leaves the listing as it is.
pub open spec fn open_dir_after_key(dir: DirView, key: Key) -> DirView {
    match key {
        Key::Up => dir.up(),
        Key::Down => dir.down(),
        _ => dir,
    }
}

/// What a key in the open mode asks for: enter asks for what the selection
/// stands for; any other key asks for nothing.
pub open spec fn open_request_after_key(dir: DirView, key: Key) -> RequestView {
    if key == Key::Enter {
        open_request(dir.selected())
    } else {
        RequestView::Nothing
    }
}

/// What the open mode draws.
pub struct OpenOutput {
    /// The heading, on the first row.
    pub title: String,
    /// The listing, from the second row on.
    pub rows: Vec<DirRow>,
    /// The path of the listed directory, on the last row.
    pub path: String,
}

/// The open mode.
pub struct Open {}

impl Open {
    /// The open mode.
    pub fn new() -> (o: Open) {
        Open {  }
    }

    /// What to draw: the heading, the listing with the selection shown, and
    /// the path of the listed directory.
    pub fn output(&self, dir: &Dir) -> (out: OpenOutput)
        ensures
            out.title@ == OPEN_TITLE@,
            dir_rows_view(out.rows@) == dir_rows(dir@, true),
            out.path@ == dir@.dir_path,
    {
        OpenOutput {
            title: OPEN_TITLE.to_owned(),
            rows: dir.output(true),
            path: dir.dir_path().clone(),
        }
    }

    /// Handles one key in the open mode: the cancel shortcut leads back to
    /// editing, up and down move the selection, and enter asks for what the
    /// selection stands for. Any other key changes nothing.
    pub fn input(&mut self, key: Key, mode: &mut Mode, dir: &mut Dir) -> (r: Request)
        ensures
            *final(mode) == open_mode_after_key(*old(mode), key),
            final(dir)@ == open_dir_after_key(old(dir)@, key),
            final(dir)@.valid(),
            r@ == open_request_after_key(old(dir)@, key),
    {
        proof {
            use_type_invariant(&*dir);
        }
        match key {
            Key::Ctrl(c) => {
                if c == 'c' {
                    self.back(mode);
                }
                Request::Nothing
            },
            Key::Enter => self.select(dir),
            Key::Up => {
                dir.up();
                Request::Nothing
            },
            Key::Down => {
                dir.down();
                Request::Nothing
            },
            _ => Request::Nothing,
        }
    }

    /// Takes the children read for a list request: the listing shows them,
    /// with the selection on the parent entry.
    pub fn set(
        &mut self,
        dir: &mut Dir,
        dir_path: String,
        parent: Option<String>,
        children: Vec<Entry>,
    )
        ensures
            final(dir)@ == old(dir)@.listed(dir_path@, opt_view(parent), entries_view(children@)),
            final(dir)@.valid(),
    {
        dir.set(dir_path, parent, children);
    }

    /// What the selected entry asks for: the parent or a subdirectory is to
    /// be listed, a file is to be loaded. With the parent entry selected in
    /// a directory that has no parent, nothing.
    pub fn select(&mut self, dir: &Dir) -> (r: Request)
        ensures
            r@ == open_request(dir@.selected()),
    {
        match dir.selected() {
            Selected::Parent(p) => Request::List(p),
            Selected::Stay => Request::Nothing,
            Selected::Directory(p) => Request::List(p),
            Selected::File(p) => Request::Load(p),
        }
    }

    /// Takes the lines read for a load request: they replace the document,
    /// the cursor goes to its start, the path is recorded, and the mode is
    /// editing again.
    pub fn loaded(
        &mut self,
        mode: &mut Mode,
        normal: &mut Normal,
        dir: &mut Dir,
        path: String,
        buffer: Vec<String>,
    )
        ensures
            *final(mode) == Mode::Normal,
            final(normal)@ == old(normal)@.replaced(strings_view(buffer@)),
            final(normal)@.valid(),
            final(dir)@ == (DirView { path: path@, ..old(dir)@ }),
            final(dir)@.valid(),
    {
        normal.set_buffer(buffer);
        dir.set_path(path);
        self.back(mode);
    }

    /// Leaves the open mode for editing.
    pub fn back(&mut self, mode: &mut Mode)
        ensures
            *final(mode) == Mode::Normal,
    {
        *mode = Mode::Normal;
    }
}

} // verus!
