//! The modes of the editor and the key events that drive them.

use vstd::prelude::*;

verus! {

/// The interaction context that receives the next key.
#[derive(Clone, Copy, Debug, PartialEq, Eq, Structural)]
pub enum Mode {
    /// Editing the document.
    Normal,
    /// Choosing where to save the document.
    WritePath,
    /// Choosing a file to open.
    Open,
}

/// One key event, as the terminal reports it.
#[derive(Clone, Copy, Debug, PartialEq, Eq, Structural)]
pub enum Key {
    /// A character key, unless the control modifier alone was held.
    Char(char),
    /// A character key with the control modifier alone held.
    Ctrl(char),
    Backspace,
    Enter,
    Up,
    Down,
    Left,
    Right,
    Tab,
    Esc,
    /// Any other event.
    Other,
}

/// Why a file or a directory could not be read or written.
#[derive(Clone, Copy, Debug, PartialEq, Eq, Structural)]
pub enum Failure {
    /// There is no such file or directory.
    NotFound,
    /// Access to it was refused.
    PermissionDenied,
    /// Reading or writing it failed in another way.
    Io,
}

/// Shown when a file or directory was not found.
pub const NOT_FOUND: &'static str = "ファイルが見つかりません";

/// Shown when access was refused.
pub const PERMISSION_DENIED: &'static str = "アクセスが拒否されました";

/// Shown when reading or writing failed in another way.
pub const IO_FAILED: &'static str = "入出力エラー";

impl Failure {
    /// What the status line says of the failure.
    pub open spec fn text(self) -> Seq<char> {
        match self {
            Failure::NotFound => NOT_FOUND@,
            Failure::PermissionDenied => PERMISSION_DENIED@,
            Failure::Io => IO_FAILED@,
        }
    }

    /// What the status line says of the failure.
    pub fn message(&self) -> (m: String)
        ensures
            m@ == self.text(),
    {
        match self {
            Failure::NotFound => NOT_FOUND.to_owned(),
            Failure::PermissionDenied => PERMISSION_DENIED.to_owned(),
            Failure::Io => IO_FAILED.to_owned(),
        }
    }
}

/// What a key handler asks its caller to do, as plain values.
pub enum RequestView {
    Nothing,
    List(Seq<char>),
    Load(Seq<char>),
    Save(Seq<char>),
    Quit,
}

/// What a key handler asks its caller to do. The caller reports back what
/// came of it.
pub enum Request {
    /// Nothing.
    Nothing,
    /// Read the children of the directory at this path.
    List(String),
    /// Read the file at this path.
    Load(String),
    /// Write the document to the file at this path.
    Save(String),
    /// Leave the editor.
    Quit,
}

impl View for Request {
    type V = RequestView;

    open spec fn view(&self) -> RequestView {
        match self {
            Request::Nothing => RequestView::Nothing,
            Request::List(p) => RequestView::List(p@),
            Request::Load(p) => RequestView::Load(p@),
            Request::Save(p) => RequestView::Save(p@),
            Request::Quit => RequestView::Quit,
        }
    }
}

} // verus!
